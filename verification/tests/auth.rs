use entry_point::auth::{
    access_key, admin_claims, admin_gate, bearer_token, check_account_deletion, check_password_change,
    check_signin, check_signup, client_ip, email_ok, hash_password, is_foreign_key_violation,
    is_unique_violation, issue_session, normalize_email, password_confirmed, password_matches,
    password_problem, refresh_key, refresh_keys, replay_check, revoked_refresh_key, rotate_session,
    session_info, session_set_key, signin_verdict, signup_insert_failure, signup_verdict,
    token_keys, tombstone_for, verify_response, Credentials, Identity, PasswordProblem, SessionData, SignupProblem,
    SignupRequest, ACCESS_TTL_SECS, REFRESH_TTL_SECS, SESSION_SET_TTL_SECS, TOMBSTONE_TTL_SECS,
};
use entry_point::clock::Instant;
use entry_point::status::Rejection;

const USER: u128 = 0x550e8400_e29b_41d4_a716_446655440000;

fn session() -> SessionData {
    SessionData {
        user_id: USER,
        username: "neo".to_string(),
        email: "neo@x.io".to_string(),
        associated_access_token: "acc".to_string(),
        associated_refresh_token: "ref".to_string(),
        created_at: Some(Instant { secs: 1_700_000_000, nanos: 5 }),
        user_agent: Some("ua".to_string()),
        ip: Some("1.2.3.4".to_string()),
    }
}

#[test]
fn token_lifetimes() {
    assert_eq!(ACCESS_TTL_SECS, 900);
    assert_eq!(REFRESH_TTL_SECS, 604_800);
    assert_eq!(SESSION_SET_TTL_SECS, 691_200);
    assert_eq!(TOMBSTONE_TTL_SECS, 300);
}

#[test]
fn cache_keys() {
    assert_eq!(access_key("t1"), "access_token:t1");
    assert_eq!(refresh_key("t2"), "refresh_token:t2");
    assert_eq!(revoked_refresh_key("t3"), "revoked_refresh:t3");
    assert_eq!(session_set_key(USER), "user_sessions:550e8400-e29b-41d4-a716-446655440000");
    assert_eq!(token_keys("a", "b"), vec!["access_token:a".to_string(), "refresh_token:b".to_string()]);
    assert_eq!(session().keys(), vec!["access_token:acc".to_string(), "refresh_token:ref".to_string()]);
}

#[test]
fn session_sets_differ_per_user() {
    assert_ne!(session_set_key(USER), session_set_key(USER + 1));
    assert_eq!(session_set_key(USER + 1), "user_sessions:550e8400-e29b-41d4-a716-446655440001");
}

#[test]
fn bearer_header_parsing() {
    assert_eq!(bearer_token(Some("Bearer abc-123")), Ok("abc-123".to_string()));
    assert_eq!(bearer_token(Some("Bearer ")), Ok("".to_string()));
    assert_eq!(bearer_token(Some("bearer abc")), Err(Rejection::Unauthorized));
    assert_eq!(bearer_token(Some("Basic abc")), Err(Rejection::Unauthorized));
    assert_eq!(bearer_token(None), Err(Rejection::Unauthorized));
}

#[test]
fn admin_role_gate() {
    assert_eq!(admin_gate(Some("admin")), Ok(()));
    assert_eq!(admin_gate(Some("user")), Err(Rejection::Forbidden));
    assert_eq!(admin_gate(None), Err(Rejection::Forbidden));
    assert!(admin_claims(session(), Some("admin")).is_ok());
    assert!(matches!(admin_claims(session(), Some("Admin")), Err(Rejection::Forbidden)));
}

#[test]
fn password_rule() {
    assert_eq!(password_problem("short1"), Some(PasswordProblem::Length));
    assert_eq!(password_problem(&"a1".repeat(37)), Some(PasswordProblem::Length));
    assert_eq!(password_problem("abcdefgh"), Some(PasswordProblem::Composition));
    assert_eq!(password_problem("abcdefg1"), None);
    assert_eq!(password_problem("abcdefg!"), None);
    assert_eq!(password_problem("abcdefgé"), Some(PasswordProblem::Composition));
    // 72 bytes is the most allowed
    assert_eq!(password_problem(&format!("{}1", "a".repeat(71))), None);
}

#[test]
fn email_rule() {
    assert!(email_ok("a@b.c"));
    assert!(!email_ok("a@bc"));
    assert!(!email_ok("abcdef"));
    assert_eq!(normalize_email("  Neo@Example.COM "), "neo@example.com");
    assert_eq!(normalize_email("\u{3000}\tneo@x.io\u{a0}\n"), "neo@x.io");
    assert_eq!(normalize_email("a b@c.d"), "a b@c.d");
    assert_eq!(normalize_email(" \t "), "");
}

#[test]
fn signup_checks_in_order() {
    assert_eq!(signup_verdict(Some(true), "a@b.cd", "abc"), Err(SignupProblem::PasswordLength));
    assert_eq!(signup_verdict(Some(true), "a@b.cd", "abcdefgh"), Err(SignupProblem::PasswordComposition));
    assert_eq!(signup_verdict(Some(false), "a@b.cd", "abcdefg1"), Err(SignupProblem::Username));
    assert_eq!(signup_verdict(None, "a@b.cd", "abcdefg1"), Err(SignupProblem::Internal));
    assert_eq!(signup_verdict(Some(true), "nope", "abcdefg1"), Err(SignupProblem::Email));
    assert_eq!(signup_verdict(Some(true), "a@b.cd", "abcdefg1"), Ok(()));
    assert_eq!(check_signup("neo_1", "a@b.cd", "abcdefg1"), Ok(()));
    assert_eq!(check_signup("ne", "a@b.cd", "abcdefg1"), Err(SignupProblem::Username));
    assert_eq!(check_signup("neo-1", "a@b.cd", "abcdefg1"), Err(SignupProblem::Username));
    assert_eq!(check_signup(&"n".repeat(31), "a@b.cd", "abcdefg1"), Err(SignupProblem::Username));
    assert_eq!(check_signup(&"N".repeat(30), "a@b.cd", "abcdefg1"), Ok(()));
    assert_eq!(check_signup("abc", "a@b.cd", "abcdefg1"), Ok(()));
    assert_eq!(check_signup("neo\n", "a@b.cd", "abcdefg1"), Err(SignupProblem::Username));
    assert_eq!(check_signup("n\u{e9}o", "a@b.cd", "abcdefg1"), Err(SignupProblem::Username));
    let req = SignupRequest { username: "trinity".into(), email: "t@x.io".into(), password: "pass!word".into() };
    assert_eq!(req.check(), Ok(()));
}

#[test]
fn signup_messages() {
    assert_eq!(SignupProblem::PasswordLength.message(), "Password must be between 8 and 72 characters");
    assert_eq!(SignupProblem::Email.error_response().message, "Invalid email address");
    assert_eq!(SignupProblem::Username.status_code(), 400);
    assert_eq!(SignupProblem::Internal.status_code(), 500);
    let (code, body) = signup_insert_failure(Some("23505"));
    assert_eq!(code, 409);
    assert_eq!(body.message, "User with this email or username already exists");
    let (code, body) = signup_insert_failure(None);
    assert_eq!(code, 500);
    assert_eq!(body.message, "Internal server error");
    assert!(is_unique_violation(Some("23505")));
    assert!(!is_unique_violation(Some("23503")));
    assert!(is_foreign_key_violation(Some("23503")));
}

#[test]
fn bcrypt_round_trip() {
    let h = hash_password("abcdefg1").ok().unwrap();
    assert_eq!(password_matches("abcdefg1", &h), Some(true));
    assert_eq!(password_matches("abcdefg2", &h), Some(false));
    assert_eq!(password_matches("abcdefg1", "not a hash"), None);
    assert!(password_confirmed("abcdefg1", &h));
    assert!(!password_confirmed("abcdefg1", "not a hash"));
    let acct = Credentials { password_hash: h.clone(), is_active: true };
    assert_eq!(check_signin(Some(&acct), "abcdefg1"), Ok(()));
    assert_eq!(check_signin(Some(&acct), "wrong-pass"), Err(Rejection::Unauthorized));
    assert_eq!(check_signin(None, "abcdefg1"), Err(Rejection::Unauthorized));
    let off = Credentials { password_hash: h.clone(), is_active: false };
    assert_eq!(check_signin(Some(&off), "abcdefg1"), Err(Rejection::Forbidden));
    let bad = Credentials { password_hash: "x".into(), is_active: true };
    assert_eq!(check_signin(Some(&bad), "abcdefg1"), Err(Rejection::Internal));
    assert_eq!(check_password_change(Some(&h), "abcdefg1", "newpass!!"), Ok(()));
    assert_eq!(check_password_change(Some(&h), "abcdefg1", "weak"), Err(Rejection::BadRequest));
    assert_eq!(check_password_change(Some(&h), "nope", "newpass!!"), Err(Rejection::Unauthorized));
    assert_eq!(check_password_change(None, "abcdefg1", "newpass!!"), Err(Rejection::Internal));
    assert_eq!(check_account_deletion(Some(&h), "abcdefg1"), Ok(()));
    assert_eq!(check_account_deletion(Some(&h), "nope"), Err(Rejection::Unauthorized));
    assert_eq!(check_account_deletion(None, "abcdefg1"), Err(Rejection::Internal));
}

#[test]
fn signin_verdicts() {
    assert_eq!(signin_verdict(None, true), Err(Rejection::Internal));
    assert_eq!(signin_verdict(Some(false), true), Err(Rejection::Unauthorized));
    assert_eq!(signin_verdict(Some(true), false), Err(Rejection::Forbidden));
    assert_eq!(signin_verdict(Some(true), true), Ok(()));
}

#[test]
fn client_address() {
    assert_eq!(client_ip(Some(" 10.0.0.1 , 172.16.0.1"), "9.9.9.9"), "10.0.0.1");
    assert_eq!(client_ip(Some("10.0.0.2"), "9.9.9.9"), "10.0.0.2");
    assert_eq!(client_ip(Some(""), "9.9.9.9"), "");
    assert_eq!(client_ip(None, "9.9.9.9"), "9.9.9.9");
}

#[test]
fn fresh_session_has_uuid_tokens() {
    let s = issue_session(
        Identity { id: USER, username: "neo".into(), email: "neo@x.io".into() },
        Some("agent".into()),
        "1.2.3.4".into(),
    );
    assert_eq!(s.user_id, USER);
    assert_eq!(s.associated_access_token.len(), 36);
    assert_eq!(s.associated_refresh_token.len(), 36);
    assert_ne!(s.associated_access_token, s.associated_refresh_token);
    assert!(s.created_at.is_some());
    assert_eq!(s.ip.as_deref(), Some("1.2.3.4"));
    assert_eq!(s.user_agent.as_deref(), Some("agent"));
    let r = s.signin_response();
    assert_eq!(r.access_token, s.associated_access_token);
}

#[test]
fn refresh_keeps_metadata_and_swaps_tokens() {
    let old = session();
    let new = rotate_session(
        old,
        Identity { id: USER, username: "neo2".into(), email: "n2@x.io".into() },
        "acc2".into(),
        "ref2".into(),
    );
    assert_eq!(new.username, "neo2");
    assert_eq!(new.associated_access_token, "acc2");
    assert_eq!(new.associated_refresh_token, "ref2");
    assert_eq!(new.created_at.map(|t| (t.secs, t.nanos)), Some((1_700_000_000, 5)));
    assert_eq!(new.user_agent.as_deref(), Some("ua"));
    assert_eq!(new.ip.as_deref(), Some("1.2.3.4"));
    let rr = new.refresh_response();
    assert_eq!(rr.refresh_token, "ref2");
}

#[test]
fn replayed_refresh_revokes_user() {
    assert!(replay_check(None).is_ok());
    let e = replay_check(Some("550e8400-e29b-41d4-a716-446655440000")).err().unwrap();
    assert_eq!(e.revoke_user, Some(USER));
    let e = replay_check(Some("garbage")).err().unwrap();
    assert_eq!(e.revoke_user, None);
    let t = tombstone_for(USER);
    assert_eq!(t, "550e8400-e29b-41d4-a716-446655440000");
    assert_eq!(replay_check(Some(&t)).err().unwrap().revoke_user, Some(USER));
}

#[test]
fn session_listing_uses_refresh_keys() {
    let keys = vec![
        "access_token:a".to_string(),
        "refresh_token:b".to_string(),
        "refresh_token:c".to_string(),
        "other".to_string(),
    ];
    assert_eq!(refresh_keys(keys), vec!["refresh_token:b".to_string(), "refresh_token:c".to_string()]);
    let info = session_info(session());
    assert_eq!(info.ip.as_deref(), Some("1.2.3.4"));
    let v = verify_response(session());
    assert_eq!(v.user_id, USER);
    assert_eq!(v.email, "neo@x.io");
}
