//! Accounts and sessions: credential rules, token extraction, cache keys and
//! the shape of the session records kept per login.
use vstd::prelude::*;
use vstd::string::*;
use vstd::utf8::encode_utf8;
use crate::clock::{Instant, now_utc};
use crate::ids::{law_prefixed_ids_distinct, new_token, parse_uuid, uuid_parse, uuid_text, uuid_to_text};
use crate::status::Rejection;
use crate::text::{
    alphanumeric, chars_contain, chars_of, concat, is_alphanumeric, lowercase_of, starts_with,
    str_eq, string_from_chars, to_lowercase, trim, trim_seq,
};

verus! {

/// Seconds an access token lives.
pub const ACCESS_TTL_SECS: u64 = 900;

/// Seconds a refresh token lives.
pub const REFRESH_TTL_SECS: u64 = 604800;

/// Seconds the per-user set of live token keys lives.
pub const SESSION_SET_TTL_SECS: i64 = 691200;

/// Seconds a rotated refresh token is remembered, to catch its replay.
pub const TOMBSTONE_TTL_SECS: u64 = 300;

/// Cache key of an access token's session.
pub fn access_key(token: &str) -> (r: String)
    ensures
        r@ == "access_token:"@ + token@,
{
    concat("access_token:", token)
}

/// Cache key of a refresh token's session.
pub fn refresh_key(token: &str) -> (r: String)
    ensures
        r@ == "refresh_token:"@ + token@,
{
    concat("refresh_token:", token)
}

/// Cache key remembering that a refresh token was rotated.
pub fn revoked_refresh_key(token: &str) -> (r: String)
    ensures
        r@ == "revoked_refresh:"@ + token@,
{
    concat("revoked_refresh:", token)
}

/// Cache key of the set of a user's live token keys.
pub fn session_set_key(user_id: u128) -> (r: String)
    ensures
        r@ == "user_sessions:"@ + uuid_text(user_id),
{
    let id = uuid_to_text(user_id);
    concat("user_sessions:", id.as_str())
}

/// The two token keys one login holds: its access key, then its refresh key.
pub fn token_keys(access_token: &str, refresh_token: &str) -> (r: Vec<String>)
    ensures
        r@.len() == 2,
        r@[0]@ == "access_token:"@ + access_token@,
        r@[1]@ == "refresh_token:"@ + refresh_token@,
{
    let mut v: Vec<String> = Vec::new();
    v.push(access_key(access_token));
    v.push(refresh_key(refresh_token));
    v
}

/// The token in an `Authorization` header: what follows `Bearer `. A missing
/// header, or one without that prefix, is refused with 401.
pub fn bearer_token(header: Option<&str>) -> (r: Result<String, Rejection>)
    ensures
        match header {
            None => r == Err::<String, Rejection>(Rejection::Unauthorized),
            Some(h) => if h@.len() >= 7 && h@.subrange(0, 7) == "Bearer "@ {
                r matches Ok(t) && t@ == h@.subrange(7, h@.len() as int)
            } else {
                r == Err::<String, Rejection>(Rejection::Unauthorized)
            },
        },
{
    let h = match header {
        Some(h) => h,
        None => return Err(Rejection::Unauthorized),
    };
    proof {
        reveal_strlit("Bearer ");
    }
    if !starts_with(h, "Bearer ") {
        return Err(Rejection::Unauthorized);
    }
    let cs = chars_of(h);
    let mut rest: Vec<char> = Vec::new();
    let mut i: usize = 7;
    while i < cs.len()
        invariant
            cs@ == h@,
            7 <= i <= cs@.len(),
            rest@ == cs@.subrange(7, i as int),
        decreases cs@.len() - i,
    {
        rest.push(cs[i]);
        i = i + 1;
        assert(rest@ == cs@.subrange(7, i as int));
    }
    Ok(string_from_chars(rest.as_slice()))
}

/// Only users whose stored role is `admin` pass the admin gate; `role` is
/// the stored role, `None` when the user has no row.
pub fn admin_gate(role: Option<&str>) -> (r: Result<(), Rejection>)
    ensures
        r is Ok <==> (role matches Some(s) && s@ == "admin"@),
        r is Err ==> r == Err::<(), Rejection>(Rejection::Forbidden),
{
    match role {
        Some(s) => if str_eq(s, "admin") {
            Ok(())
        } else {
            Err(Rejection::Forbidden)
        },
        None => Err(Rejection::Forbidden),
    }
}

/// The length in bytes of the UTF-8 encoding of `s`, as `str::len` gives it.
pub open spec fn utf8_len(s: Seq<char>) -> usize {
    encode_utf8(s).len() as usize
}

/// `s` holds an ASCII digit.
pub open spec fn has_ascii_digit(s: Seq<char>) -> bool {
    exists|i: int| 0 <= i < s.len() && '0' <= #[trigger] s[i] && s[i] <= '9'
}

/// `s` holds a character that is neither alphabetic nor numeric.
pub open spec fn has_special(s: Seq<char>) -> bool {
    exists|i: int| 0 <= i < s.len() && !alphanumeric(#[trigger] s[i])
}

/// What is wrong with a proposed password.
#[derive(PartialEq, Eq, Structural, Clone, Copy, Debug)]
pub enum PasswordProblem {
    /// Not 8 to 72 bytes long.
    Length,
    /// Neither a digit nor a special character.
    Composition,
}

/// The password rule: 8 to 72 bytes, with a digit or a special character.
pub open spec fn spec_password_problem(pw: Seq<char>) -> Option<PasswordProblem> {
    if utf8_len(pw) < 8 || utf8_len(pw) > 72 {
        Some(PasswordProblem::Length)
    } else if !has_ascii_digit(pw) && !has_special(pw) {
        Some(PasswordProblem::Composition)
    } else {
        None
    }
}

/// Checks a proposed password against the password rule.
pub fn password_problem(pw: &str) -> (r: Option<PasswordProblem>)
    ensures
        r == spec_password_problem(pw@),
{
    let n = pw.len();
    if n < 8 || n > 72 {
        return Some(PasswordProblem::Length);
    }
    let cs = chars_of(pw);
    let mut digit = false;
    let mut special = false;
    let mut i: usize = 0;
    while i < cs.len()
        invariant
            cs@ == pw@,
            0 <= i <= cs@.len(),
            digit == exists|j: int| 0 <= j < i && '0' <= #[trigger] cs@[j] && cs@[j] <= '9',
            special == exists|j: int| 0 <= j < i && !alphanumeric(#[trigger] cs@[j]),
        decreases cs@.len() - i,
    {
        let c = cs[i];
        if '0' <= c && c <= '9' {
            digit = true;
        }
        if !is_alphanumeric(c) {
            special = true;
        }
        i = i + 1;
    }
    assert(digit == has_ascii_digit(pw@));
    assert(special == has_special(pw@));
    if !digit && !special {
        return Some(PasswordProblem::Composition);
    }
    None
}

/// The email rule: holds an `@` and is at least 5 bytes long.
pub open spec fn spec_email_ok(email: Seq<char>) -> bool {
    email.contains('@') && utf8_len(email) >= 5
}

pub fn email_ok(email: &str) -> (r: bool)
    ensures
        r == spec_email_ok(email@),
{
    let cs = chars_of(email);
    chars_contain(cs.as_slice(), '@') && email.len() >= 5
}

/// The pattern a username must match: 3 to 30 ASCII letters, digits or `_`.
pub fn username_pattern() -> (r: &'static str)
    ensures
        r@ == "^[a-zA-Z0-9_]{3,30}$"@,
{
    "^[a-zA-Z0-9_]{3,30}$"
}

/// What `Regex::new(pattern)` followed by `is_match(text)` answers: `None`
/// when the pattern does not compile.
pub uninterp spec fn regex_match(pattern: Seq<char>, text: Seq<char>) -> Option<bool>;

/// A character of the username class `[a-zA-Z0-9_]`.
pub open spec fn username_char(c: char) -> bool {
    ('a' <= c && c <= 'z') || ('A' <= c && c <= 'Z') || ('0' <= c && c <= '9') || c == '_'
}

/// A whole text matched by `^[a-zA-Z0-9_]{3,30}$`: 3 to 30 characters, each
/// of the username class.
pub open spec fn username_shape(s: Seq<char>) -> bool {
    &&& 3 <= s.len() <= 30
    &&& forall|i: int| 0 <= i < s.len() ==> username_char(#[trigger] s[i])
}

/// Calls `regex::Regex::new` on `pattern` and `Regex::is_match` on `text`.
/// Its result is named `regex_match` of the two; a pattern that does not
/// compile gives `None`. For the username pattern the crate's documented
/// syntax (`^` and `$` anchor at the ends of the text, a bracket class, a
/// bounded repetition) gives the answer: the text has the username shape.
#[verifier::external_body]
pub(crate) fn regex_is_match(pattern: &str, text: &str) -> (r: Option<bool>)
    ensures
        r == regex_match(pattern@, text@),
        pattern@ == "^[a-zA-Z0-9_]{3,30}$"@ ==> r == Some(username_shape(text@)),
{
    match regex::Regex::new(pattern) {
        Ok(re) => Some(re.is_match(text)),
        Err(_) => None,
    }
}

/// Why a sign-up is refused.
#[derive(PartialEq, Eq, Structural, Clone, Copy, Debug)]
pub enum SignupProblem {
    PasswordLength,
    PasswordComposition,
    Username,
    Email,
    /// The username pattern could not be compiled.
    Internal,
}

impl SignupProblem {
    /// The HTTP status of the refusal.
    pub fn status_code(&self) -> (r: u16)
        ensures
            *self == SignupProblem::Internal ==> r == 500,
            *self != SignupProblem::Internal ==> r == 400,
    {
        match self {
            SignupProblem::Internal => 500,
            _ => 400,
        }
    }

    /// The message the refusal carries.
    pub fn message(&self) -> (r: &'static str)
        ensures
            *self == SignupProblem::PasswordLength ==> r@ == "Password must be between 8 and 72 characters"@,
            *self == SignupProblem::PasswordComposition ==> r@ == "Password must contain at least one number or special character"@,
            *self == SignupProblem::Username ==> r@ == "Username must be 3-30 characters and alphanumeric (underscores allowed)"@,
            *self == SignupProblem::Email ==> r@ == "Invalid email address"@,
            *self == SignupProblem::Internal ==> r@ == "Internal server error"@,
    {
        match self {
            SignupProblem::PasswordLength => "Password must be between 8 and 72 characters",
            SignupProblem::PasswordComposition => "Password must contain at least one number or special character",
            SignupProblem::Username => "Username must be 3-30 characters and alphanumeric (underscores allowed)",
            SignupProblem::Email => "Invalid email address",
            SignupProblem::Internal => "Internal server error",
        }
    }
}

/// The sign-up checks in order, given whether the username matched the
/// username pattern (`None` when the pattern did not compile): the password
/// rule, then the username, then the email rule.
pub open spec fn spec_signup_verdict(username_matches: Option<bool>, email: Seq<char>, password: Seq<char>) -> Result<(), SignupProblem> {
    if spec_password_problem(password) == Some(PasswordProblem::Length) {
        Err(SignupProblem::PasswordLength)
    } else if spec_password_problem(password) == Some(PasswordProblem::Composition) {
        Err(SignupProblem::PasswordComposition)
    } else if username_matches is None {
        Err(SignupProblem::Internal)
    } else if username_matches == Some(false) {
        Err(SignupProblem::Username)
    } else if !spec_email_ok(email) {
        Err(SignupProblem::Email)
    } else {
        Ok(())
    }
}

pub fn signup_verdict(username_matches: Option<bool>, email: &str, password: &str) -> (r: Result<(), SignupProblem>)
    ensures
        r == spec_signup_verdict(username_matches, email@, password@),
{
    match password_problem(password) {
        Some(PasswordProblem::Length) => return Err(SignupProblem::PasswordLength),
        Some(PasswordProblem::Composition) => return Err(SignupProblem::PasswordComposition),
        None => {},
    }
    match username_matches {
        None => return Err(SignupProblem::Internal),
        Some(false) => return Err(SignupProblem::Username),
        Some(true) => {},
    }
    if !email_ok(email) {
        return Err(SignupProblem::Email);
    }
    Ok(())
}

/// Checks a sign-up request: the password rule, the username pattern
/// `^[a-zA-Z0-9_]{3,30}$`, the email rule.
pub fn check_signup(username: &str, email: &str, password: &str) -> (r: Result<(), SignupProblem>)
    ensures
        r == spec_signup_verdict(Some(username_shape(username@)), email@, password@),
{
    let m = regex_is_match(username_pattern(), username);
    signup_verdict(m, email, password)
}

/// The stored form of an email address: trimmed, then lower-cased.
pub fn normalize_email(email: &str) -> (r: String)
    ensures
        r@ == lowercase_of(trim_seq(email@)),
{
    to_lowercase(trim(email))
}

/// Whether a database error code is a unique-key violation.
pub fn is_unique_violation(code: Option<&str>) -> (r: bool)
    ensures
        r == (code matches Some(c) && c@ == "23505"@),
{
    match code {
        Some(c) => str_eq(c, "23505"),
        None => false,
    }
}

/// Whether a database error code is a foreign-key violation.
pub fn is_foreign_key_violation(code: Option<&str>) -> (r: bool)
    ensures
        r == (code matches Some(c) && c@ == "23503"@),
{
    match code {
        Some(c) => str_eq(c, "23503"),
        None => false,
    }
}

/// The error type of the `bcrypt` crate.
#[verifier::external_type_specification]
#[verifier::external_body]
pub struct ExBcryptError(bcrypt::BcryptError);

/// Calls `bcrypt::hash` with `bcrypt::DEFAULT_COST`. The salt is random, so
/// the hash's text is not stated, and the call may fail. What is stated is
/// what the crate's source shows of `verify` on such a hash: it re-hashes the
/// password under the salt and cost the hash holds and finds the same
/// digest, so the password verifies against it.
#[verifier::external_body]
pub(crate) fn bcrypt_hash(password: &str) -> (r: Result<String, bcrypt::BcryptError>)
    ensures
        r matches Ok(h) ==> bcrypt_verdict(password@, h@) == Some(true),
{
    bcrypt::hash(password, bcrypt::DEFAULT_COST)
}

/// What `bcrypt::verify(password, hash)` answers: whether the password hashes
/// to `hash` under the salt and cost it holds; `None` for the error it gives
/// on a malformed hash.
pub uninterp spec fn bcrypt_verdict(password: Seq<char>, hash: Seq<char>) -> Option<bool>;

/// Calls `bcrypt::verify`; its answer is named `bcrypt_verdict` of the
/// arguments, an error being `None`.
#[verifier::external_body]
pub(crate) fn bcrypt_verify(password: &str, hash: &str) -> (r: Result<bool, bcrypt::BcryptError>)
    ensures
        match r {
            Ok(b) => bcrypt_verdict(password@, hash@) == Some(b),
            Err(_) => bcrypt_verdict(password@, hash@) is None,
        },
{
    bcrypt::verify(password, hash)
}

/// The stored hash of a new password, or 500 when hashing fails. The
/// password verifies against the hash.
pub fn hash_password(password: &str) -> (r: Result<String, Rejection>)
    ensures
        r is Err ==> r == Err::<String, Rejection>(Rejection::Internal),
        r matches Ok(h) ==> bcrypt_verdict(password@, h@) == Some(true),
{
    match bcrypt_hash(password) {
        Ok(h) => Ok(h),
        Err(_) => Err(Rejection::Internal),
    }
}

/// Whether `password` matches `hash`; a malformed hash is `None`.
pub fn password_matches(password: &str, hash: &str) -> (r: Option<bool>)
    ensures
        r == bcrypt_verdict(password@, hash@),
{
    match bcrypt_verify(password, hash) {
        Ok(b) => Some(b),
        Err(_) => None,
    }
}

/// Sign-in, once the account is found: a hash that cannot be checked is a
/// server fault (500), a wrong password 401, a disabled account 403.
pub fn signin_verdict(verified: Option<bool>, is_active: bool) -> (r: Result<(), Rejection>)
    ensures
        verified is None ==> r == Err::<(), Rejection>(Rejection::Internal),
        verified == Some(false) ==> r == Err::<(), Rejection>(Rejection::Unauthorized),
        verified == Some(true) && !is_active ==> r == Err::<(), Rejection>(Rejection::Forbidden),
        verified == Some(true) && is_active ==> r == Ok::<(), Rejection>(()),
{
    match verified {
        None => Err(Rejection::Internal),
        Some(false) => Err(Rejection::Unauthorized),
        Some(true) => if is_active {
            Ok(())
        } else {
            Err(Rejection::Forbidden)
        },
    }
}

/// The stored credentials of an account.
pub struct Credentials {
    pub password_hash: String,
    pub is_active: bool,
}

/// Sign-in: an unknown email is 401; then a hash that cannot be checked is
/// 500, a wrong password 401, a disabled account 403.
pub open spec fn spec_signin(account: Option<&Credentials>, password: Seq<char>) -> Result<(), Rejection> {
    match account {
        None => Err(Rejection::Unauthorized),
        Some(a) => if bcrypt_verdict(password, a.password_hash@) is None {
            Err(Rejection::Internal)
        } else if bcrypt_verdict(password, a.password_hash@) == Some(false) {
            Err(Rejection::Unauthorized)
        } else if !a.is_active {
            Err(Rejection::Forbidden)
        } else {
            Ok(())
        },
    }
}

pub fn check_signin(account: Option<&Credentials>, password: &str) -> (r: Result<(), Rejection>)
    ensures
        r == spec_signin(account, password@),
{
    match account {
        None => Err(Rejection::Unauthorized),
        Some(a) => {
            let v = password_matches(password, a.password_hash.as_str());
            assert(v is None || v == Some(false) || v == Some(true));
            signin_verdict(v, a.is_active)
        },
    }
}

/// A re-authentication (password change, account deletion) passes only when
/// the password verifies; a hash that cannot be checked counts as a failure.
pub fn password_confirmed(password: &str, hash: &str) -> (r: bool)
    ensures
        r == (bcrypt_verdict(password@, hash@) == Some(true)),
{
    match password_matches(password, hash) {
        Some(b) => b,
        None => false,
    }
}

/// A password change, once the stored hash is read (`None`: no such user,
/// a server fault): the current password must verify (else 401) and the new
/// one obey the password rule (else 400).
pub fn check_password_change(stored_hash: Option<&str>, current: &str, new_password: &str) -> (r: Result<(), Rejection>)
    ensures
        match stored_hash {
            None => r == Err::<(), Rejection>(Rejection::Internal),
            Some(h) => if bcrypt_verdict(current@, h@) != Some(true) {
                r == Err::<(), Rejection>(Rejection::Unauthorized)
            } else if spec_password_problem(new_password@) is Some {
                r == Err::<(), Rejection>(Rejection::BadRequest)
            } else {
                r is Ok
            },
        },
{
    let h = match stored_hash {
        Some(h) => h,
        None => return Err(Rejection::Internal),
    };
    if !password_confirmed(current, h) {
        return Err(Rejection::Unauthorized);
    }
    if password_problem(new_password).is_some() {
        return Err(Rejection::BadRequest);
    }
    Ok(())
}

/// An account deletion, once the stored hash is read (`None`: a server
/// fault): the password must verify, else 401.
pub fn check_account_deletion(stored_hash: Option<&str>, password: &str) -> (r: Result<(), Rejection>)
    ensures
        match stored_hash {
            None => r == Err::<(), Rejection>(Rejection::Internal),
            Some(h) => if bcrypt_verdict(password@, h@) != Some(true) {
                r == Err::<(), Rejection>(Rejection::Unauthorized)
            } else {
                r is Ok
            },
        },
{
    let h = match stored_hash {
        Some(h) => h,
        None => return Err(Rejection::Internal),
    };
    if !password_confirmed(password, h) {
        return Err(Rejection::Unauthorized);
    }
    Ok(())
}

/// The text before the first `,` (all of it when there is none).
pub open spec fn before_comma(s: Seq<char>) -> Seq<char>
    decreases s.len(),
{
    if s.len() == 0 {
        s
    } else if s.last() == ',' && !s.drop_last().contains(',') {
        s.drop_last()
    } else if s.drop_last().contains(',') {
        before_comma(s.drop_last())
    } else {
        s
    }
}

/// The client address a login is recorded with: the first entry of
/// `X-Forwarded-For`, trimmed, else the peer address.
pub fn client_ip(forwarded_for: Option<&str>, peer: &str) -> (r: String)
    ensures
        match forwarded_for {
            Some(f) => r@ == trim_seq(before_comma(f@)),
            None => r@ == peer@,
        },
{
    match forwarded_for {
        Some(f) => {
            let cs = chars_of(f);
            let mut first: Vec<char> = Vec::new();
            let mut i: usize = 0;
            while i < cs.len() && cs[i] != ','
                invariant
                    cs@ == f@,
                    0 <= i <= cs@.len(),
                    first@ == cs@.subrange(0, i as int),
                    !first@.contains(','),
                decreases cs@.len() - i,
            {
                first.push(cs[i]);
                i = i + 1;
                assert(first@ == cs@.subrange(0, i as int));
            }
            proof {
                lemma_before_comma(f@, i as int);
            }
            let s = string_from_chars(first.as_slice());
            String::from_str(trim(s.as_str()))
        },
        None => String::from_str(peer),
    }
}

/// `before_comma` is the text up to the first comma.
pub proof fn lemma_before_comma(s: Seq<char>, i: int)
    requires
        0 <= i <= s.len(),
        !s.subrange(0, i).contains(','),
        i == s.len() || s[i] == ',',
    ensures
        before_comma(s) == s.subrange(0, i),
    decreases s.len(),
{
    if s.len() == 0 {
    } else if i == s.len() {
        assert(s.subrange(0, i) == s);
        assert(s.drop_last() == s.subrange(0, i - 1));
        assert forall|k: int| 0 <= k < s.drop_last().len() implies s.drop_last()[k] != ',' by {
            assert(s.subrange(0, i)[k] == s[k]);
        }
    } else {
        let d = s.drop_last();
        if i == s.len() - 1 {
            assert(d == s.subrange(0, i));
            assert(s.last() == ',');
        } else {
            assert(d[i] == ',');
            assert(d.contains(','));
            assert(d.subrange(0, i) == s.subrange(0, i));
            lemma_before_comma(d, i);
        }
    }
}

/// What the cache keeps for one login, under both its tokens' keys.
pub struct SessionData {
    pub user_id: u128,
    pub username: String,
    pub email: String,
    pub associated_access_token: String,
    pub associated_refresh_token: String,
    pub created_at: Option<Instant>,
    pub user_agent: Option<String>,
    pub ip: Option<String>,
}

/// The identity of an account as stored.
pub struct Identity {
    pub id: u128,
    pub username: String,
    pub email: String,
}

/// A fresh login for `user`: two new random tokens, the current time, and
/// the client's user agent and address.
pub fn issue_session(user: Identity, user_agent: Option<String>, ip: String) -> (r: SessionData)
    ensures
        r.user_id == user.id,
        r.username == user.username,
        r.email == user.email,
        exists|a: u128| r.associated_access_token@ == uuid_text(a),
        exists|b: u128| r.associated_refresh_token@ == uuid_text(b),
        r.created_at is Some,
        r.user_agent == user_agent,
        r.ip == Some(ip),
{
    let access = new_token();
    let refresh = new_token();
    let now = now_utc();
    SessionData {
        user_id: user.id,
        username: user.username,
        email: user.email,
        associated_access_token: access,
        associated_refresh_token: refresh,
        created_at: Some(now),
        user_agent,
        ip: Some(ip),
    }
}

/// The session a refresh installs: the account's current identity, the new
/// tokens, and the old session's creation time, user agent and address.
pub fn rotate_session(old: SessionData, user: Identity, new_access: String, new_refresh: String) -> (r: SessionData)
    ensures
        r.user_id == user.id,
        r.username == user.username,
        r.email == user.email,
        r.associated_access_token == new_access,
        r.associated_refresh_token == new_refresh,
        r.created_at == old.created_at,
        r.user_agent == old.user_agent,
        r.ip == old.ip,
{
    SessionData {
        user_id: user.id,
        username: user.username,
        email: user.email,
        associated_access_token: new_access,
        associated_refresh_token: new_refresh,
        created_at: old.created_at,
        user_agent: old.user_agent,
        ip: old.ip,
    }
}

/// A refresh whose token was already rotated is a replay: it is refused
/// with 401, and all sessions of the user the tombstone names (when it
/// names a UUID) are revoked.
pub struct Replay {
    pub revoke_user: Option<u128>,
}

/// What a rotated refresh token's key is left holding: the text of the
/// user id of the session it belonged to.
pub fn tombstone_for(user_id: u128) -> (r: String)
    ensures
        r@ == uuid_text(user_id),
{
    uuid_to_text(user_id)
}

/// The replay check of a refresh: `tombstone` is what the rotated-token key
/// holds, `None` when the token was never rotated. A tombstone left by
/// `tombstone_for(u)` revokes the sessions of `u`.
pub fn replay_check(tombstone: Option<&str>) -> (r: Result<(), Replay>)
    ensures
        tombstone is None ==> r is Ok,
        tombstone matches Some(t) ==> (r matches Err(rp) && rp.revoke_user == uuid_parse(t@)),
        forall|u: u128| (tombstone matches Some(t) && t@ == #[trigger] uuid_text(u)) ==> (r matches Err(rp) && rp.revoke_user == Some(u)),
{
    match tombstone {
        None => Ok(()),
        Some(t) => Err(Replay { revoke_user: parse_uuid(t) }),
    }
}

/// The keys of a user's session set that are refresh-token keys, in order.
pub open spec fn refresh_keys_of(keys: Seq<String>) -> Seq<String>
    decreases keys.len(),
{
    if keys.len() == 0 {
        Seq::empty()
    } else {
        let rest = refresh_keys_of(keys.drop_last());
        let k = keys.last()@;
        if "refresh_token:"@.len() <= k.len() && k.subrange(0, "refresh_token:"@.len() as int) == "refresh_token:"@ {
            rest.push(keys.last())
        } else {
            rest
        }
    }
}

/// The refresh-token keys among a user's live token keys: each one is a
/// login that is still alive (access tokens expire much sooner).
pub fn refresh_keys(keys: Vec<String>) -> (r: Vec<String>)
    ensures
        r@ == refresh_keys_of(keys@),
{
    let mut out: Vec<String> = Vec::new();
    let mut i: usize = 0;
    while i < keys.len()
        invariant
            0 <= i <= keys@.len(),
            out@ == refresh_keys_of(keys@.take(i as int)),
        decreases keys@.len() - i,
    {
        assert(keys@.take(i + 1).drop_last() == keys@.take(i as int));
        let k = &keys[i];
        if starts_with(k.as_str(), "refresh_token:") {
            out.push(k.clone());
        }
        i = i + 1;
    }
    assert(keys@.take(keys@.len() as int) == keys@);
    out
}

/// One live login as shown to its user.
pub struct SessionInfo {
    pub created_at: Option<Instant>,
    pub user_agent: Option<String>,
    pub ip: Option<String>,
}

pub fn session_info(s: SessionData) -> (r: SessionInfo)
    ensures
        r.created_at == s.created_at,
        r.user_agent == s.user_agent,
        r.ip == s.ip,
{
    SessionInfo { created_at: s.created_at, user_agent: s.user_agent, ip: s.ip }
}

/// Who a valid token says the caller is.
pub struct VerifyResponse {
    pub user_id: u128,
    pub username: String,
    pub email: String,
    pub created_at: Option<Instant>,
}

pub fn verify_response(s: SessionData) -> (r: VerifyResponse)
    ensures
        r.user_id == s.user_id,
        r.username == s.username,
        r.email == s.email,
        r.created_at == s.created_at,
{
    VerifyResponse { user_id: s.user_id, username: s.username, email: s.email, created_at: s.created_at }
}

/// The session of the caller, once the bearer token is found.
pub struct Claims(pub SessionData);

/// The session of a caller whose stored role is `admin`.
pub struct AdminClaims(pub SessionData);

/// The admin gate over a caller's session: passes the session on when the
/// stored role is `admin`.
pub fn admin_claims(session: SessionData, role: Option<&str>) -> (r: Result<AdminClaims, Rejection>)
    ensures
        (role matches Some(s) && s@ == "admin"@) ==> (r matches Ok(c) && c.0 == session),
        !(role matches Some(s) && s@ == "admin"@) ==> r == Err::<AdminClaims, Rejection>(Rejection::Forbidden),
{
    match admin_gate(role) {
        Ok(()) => Ok(AdminClaims(session)),
        Err(e) => Err(e),
    }
}

pub struct SignupRequest {
    pub username: String,
    pub email: String,
    pub password: String,
}

impl SignupRequest {
    /// `check_signup` on the request's fields.
    pub fn check(&self) -> (r: Result<(), SignupProblem>)
        ensures
            r == spec_signup_verdict(
                Some(username_shape(self.username@)),
                self.email@,
                self.password@,
            ),
    {
        check_signup(self.username.as_str(), self.email.as_str(), self.password.as_str())
    }
}

/// The body of a refused sign-up.
pub struct ErrorResponse {
    pub message: String,
}

impl SignupProblem {
    pub fn error_response(&self) -> (r: ErrorResponse)
        ensures
            *self == SignupProblem::PasswordLength ==> r.message@ == "Password must be between 8 and 72 characters"@,
            *self == SignupProblem::PasswordComposition ==> r.message@ == "Password must contain at least one number or special character"@,
            *self == SignupProblem::Username ==> r.message@ == "Username must be 3-30 characters and alphanumeric (underscores allowed)"@,
            *self == SignupProblem::Email ==> r.message@ == "Invalid email address"@,
            *self == SignupProblem::Internal ==> r.message@ == "Internal server error"@,
    {
        ErrorResponse { message: String::from_str(self.message()) }
    }
}

/// The answer to a refused sign-up whose insert hit a database error with
/// code `code`: a duplicate email or username is 409, anything else 500.
pub fn signup_insert_failure(code: Option<&str>) -> (r: (u16, ErrorResponse))
    ensures
        (code matches Some(c) && c@ == "23505"@) ==> r.0 == 409 && r.1.message@ == "User with this email or username already exists"@,
        !(code matches Some(c) && c@ == "23505"@) ==> r.0 == 500 && r.1.message@ == "Internal server error"@,
{
    if is_unique_violation(code) {
        (409, ErrorResponse { message: String::from_str("User with this email or username already exists") })
    } else {
        (500, ErrorResponse { message: String::from_str("Internal server error") })
    }
}

pub struct SigninRequest {
    pub email: String,
    pub password: String,
}

pub struct SigninResponse {
    pub access_token: String,
    pub refresh_token: String,
}

pub struct RefreshRequest {
    pub refresh_token: String,
}

pub struct RefreshResponse {
    pub access_token: String,
    pub refresh_token: String,
}

impl SessionData {
    /// The tokens a sign-in hands back.
    pub fn signin_response(&self) -> (r: SigninResponse)
        ensures
            r.access_token == self.associated_access_token,
            r.refresh_token == self.associated_refresh_token,
    {
        SigninResponse {
            access_token: self.associated_access_token.clone(),
            refresh_token: self.associated_refresh_token.clone(),
        }
    }

    /// The tokens a refresh hands back.
    pub fn refresh_response(&self) -> (r: RefreshResponse)
        ensures
            r.access_token == self.associated_access_token,
            r.refresh_token == self.associated_refresh_token,
    {
        RefreshResponse {
            access_token: self.associated_access_token.clone(),
            refresh_token: self.associated_refresh_token.clone(),
        }
    }

    /// The two token keys this login holds.
    pub fn keys(&self) -> (r: Vec<String>)
        ensures
            r@.len() == 2,
            r@[0]@ == "access_token:"@ + self.associated_access_token@,
            r@[1]@ == "refresh_token:"@ + self.associated_refresh_token@,
    {
        token_keys(self.associated_access_token.as_str(), self.associated_refresh_token.as_str())
    }
}

pub struct ChangePasswordRequest {
    pub current_password: String,
    pub new_password: String,
}

pub struct DeleteAccountRequest {
    pub password: String,
}

/// Sign-up and password change hold passwords to one rule: a password that
/// sign-up accepts is one a password change accepts as the new password.
pub proof fn law_one_password_rule(username_matches: Option<bool>, email: Seq<char>, password: Seq<char>)
    requires
        spec_signup_verdict(username_matches, email, password) is Ok,
    ensures
        spec_password_problem(password) is None,
{
}

/// A password stored through `hash_password` (at sign-up or a password
/// change) signs its owner in while the account is active, and the account
/// is refused with 403, not 401, once disabled.
pub proof fn law_stored_password_signs_in(password: Seq<char>, account: Credentials)
    requires
        bcrypt_verdict(password, account.password_hash@) == Some(true),
    ensures
        account.is_active ==> spec_signin(Some(&account), password) == Ok::<(), Rejection>(()),
        !account.is_active ==> spec_signin(Some(&account), password) == Err::<(), Rejection>(Rejection::Forbidden),
{
}

/// Each user's set of live token keys lives under a key of its own, so
/// signing one user out everywhere leaves every other user's logins alone.
pub proof fn law_session_set_per_user(a: u128, b: u128)
    requires
        a != b,
    ensures
        "user_sessions:"@ + uuid_text(a) != "user_sessions:"@ + uuid_text(b),
{
    law_prefixed_ids_distinct("user_sessions:"@, a, b);
}

/// A refresh needs the account its session names to still exist; a missing
/// account is refused with 401.
pub fn require_account(account: Option<Identity>) -> (r: Result<Identity, Rejection>)
    ensures
        match account {
            Some(a) => r == Ok::<Identity, Rejection>(a),
            None => r == Err::<Identity, Rejection>(Rejection::Unauthorized),
        },
{
    match account {
        Some(a) => Ok(a),
        None => Err(Rejection::Unauthorized),
    }
}


/// The password rule in terms of the password's characters and its length
/// in bytes (`utf8_len`, what `str::len` gives): 8 to 72 bytes
/// with an ASCII digit or any character that is not alphanumeric is
/// accepted; outside 8 to 72 bytes it is too short or too long; within them
/// but made only of alphanumeric characters none of which is an ASCII digit,
/// it lacks a digit or special character.
pub proof fn law_password_rule(pw: Seq<char>)
    ensures
        8 <= utf8_len(pw) <= 72 && ((exists|i: int| 0 <= i < pw.len() && '0' <= #[trigger] pw[i] && pw[i] <= '9')
            || (exists|i: int| 0 <= i < pw.len() && !alphanumeric(#[trigger] pw[i]))) ==> spec_password_problem(pw) is None,
        (utf8_len(pw) < 8 || utf8_len(pw) > 72) ==> spec_password_problem(pw) == Some(PasswordProblem::Length),
        8 <= utf8_len(pw) <= 72 && (forall|i: int| 0 <= i < pw.len() ==> alphanumeric(#[trigger] pw[i]) && !('0' <= pw[i] && pw[i] <= '9'))
            ==> spec_password_problem(pw) == Some(PasswordProblem::Composition),
{
    if (exists|i: int| 0 <= i < pw.len() && '0' <= #[trigger] pw[i] && pw[i] <= '9') {
        let i = choose|i: int| 0 <= i < pw.len() && '0' <= #[trigger] pw[i] && pw[i] <= '9';
        assert(has_ascii_digit(pw));
    }
    if (exists|i: int| 0 <= i < pw.len() && !alphanumeric(#[trigger] pw[i])) {
        let i = choose|i: int| 0 <= i < pw.len() && !alphanumeric(#[trigger] pw[i]);
        assert(has_special(pw));
    }
}

/// The sign-up rule in terms of the fields: with a matching username, a
/// sign-up is accepted exactly when the password obeys the password rule and
/// the email holds an `@` and is at least 5 bytes; a username that does not
/// match is refused as such once the password passes; the password is
/// checked first.
pub proof fn law_signup_rule(email: Seq<char>, password: Seq<char>)
    ensures
        spec_signup_verdict(Some(true), email, password) is Ok <==> (spec_password_problem(password) is None
            && email.contains('@') && utf8_len(email) >= 5),
        spec_password_problem(password) is None ==> spec_signup_verdict(Some(false), email, password) == Err::<(), SignupProblem>(SignupProblem::Username),
        spec_password_problem(password) == Some(PasswordProblem::Length)
            ==> spec_signup_verdict(Some(true), email, password) == Err::<(), SignupProblem>(SignupProblem::PasswordLength),
        spec_password_problem(password) == Some(PasswordProblem::Composition)
            ==> spec_signup_verdict(Some(true), email, password) == Err::<(), SignupProblem>(SignupProblem::PasswordComposition),
{
}

/// How a sign-in ends, by account and password check: no account and a wrong
/// password give 401, an unreadable stored hash gives 500, the right password
/// on a disabled account gives 403, and on an active account it succeeds.
pub proof fn law_signin_rules(account: Credentials, password: Seq<char>)
    ensures
        spec_signin(None, password) == Err::<(), Rejection>(Rejection::Unauthorized),
        bcrypt_verdict(password, account.password_hash@) == Some(false)
            ==> spec_signin(Some(&account), password) == Err::<(), Rejection>(Rejection::Unauthorized),
        bcrypt_verdict(password, account.password_hash@) is None
            ==> spec_signin(Some(&account), password) == Err::<(), Rejection>(Rejection::Internal),
        bcrypt_verdict(password, account.password_hash@) == Some(true) && account.is_active
            ==> spec_signin(Some(&account), password) == Ok::<(), Rejection>(()),
        bcrypt_verdict(password, account.password_hash@) == Some(true) && !account.is_active
            ==> spec_signin(Some(&account), password) == Err::<(), Rejection>(Rejection::Forbidden),
{
}

/// The first entry of a forwarded-for list: all of it when it holds no
/// comma, else exactly the text before its first comma.
pub proof fn law_first_forwarded(s: Seq<char>, i: int)
    ensures
        !s.contains(',') ==> before_comma(s) == s,
        (0 <= i < s.len() && s[i] == ',' && !s.subrange(0, i).contains(','))
            ==> before_comma(s) == s.subrange(0, i),
{
    if !s.contains(',') {
        assert(s.subrange(0, s.len() as int) == s);
        assert forall|k: int| 0 <= k < s.len() implies s.subrange(0, s.len() as int)[k] != ',' by {
            if s[k] == ',' {
                assert(s.contains(','));
            }
        }
        lemma_before_comma(s, s.len() as int);
    }
    if 0 <= i < s.len() && s[i] == ',' && !s.subrange(0, i).contains(',') {
        lemma_before_comma(s, i);
    }
}


/// The sessions listed for a user are the refresh-token keys among the
/// user's token keys: every listed key is one, and every such key is listed.
pub proof fn law_listed_sessions(keys: Seq<String>)
    ensures
        forall|i: int| 0 <= i < refresh_keys_of(keys).len() ==> ({
            let k = #[trigger] refresh_keys_of(keys)[i]@;
            "refresh_token:"@.len() <= k.len() && k.subrange(0, "refresh_token:"@.len() as int) == "refresh_token:"@
        }),
        forall|i: int| 0 <= i < keys.len() && "refresh_token:"@.len() <= (#[trigger] keys[i])@.len()
            && keys[i]@.subrange(0, "refresh_token:"@.len() as int) == "refresh_token:"@
            ==> refresh_keys_of(keys).contains(keys[i]),
    decreases keys.len(),
{
    if keys.len() > 0 {
        let d = keys.drop_last();
        law_listed_sessions(d);
        assert forall|i: int| 0 <= i < keys.len() && "refresh_token:"@.len() <= (#[trigger] keys[i])@.len()
            && keys[i]@.subrange(0, "refresh_token:"@.len() as int) == "refresh_token:"@
            implies refresh_keys_of(keys).contains(keys[i]) by {
            if i < keys.len() - 1 {
                assert(d[i] == keys[i]);
                let j = choose|j: int| 0 <= j < refresh_keys_of(d).len() && refresh_keys_of(d)[j] == d[i];
                assert(refresh_keys_of(keys)[j] == keys[i]);
            } else {
                assert(refresh_keys_of(keys).last() == keys[i]);
            }
        }
    }
}

} // verus!
