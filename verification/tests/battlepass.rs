use entry_point::battlepass::{
    check_claim, claim_recorded, claim_reward, default_high, found, parse_track, split_claims,
    unlock_charge, unlock_recorded, Track,
};
use entry_point::status::Rejection;

#[test]
fn tracks() {
    assert_eq!(parse_track("free"), Ok(Track::Free));
    assert_eq!(parse_track("premium"), Ok(Track::Premium));
    assert_eq!(parse_track("Premium"), Err(Rejection::BadRequest));
    assert_eq!(default_high(), "high");
}

#[test]
fn claims_need_xp_and_premium() {
    assert_eq!(check_claim(Track::Free, 100, None), Err(Rejection::Forbidden));
    assert_eq!(check_claim(Track::Free, 0, None), Ok(()));
    assert_eq!(check_claim(Track::Free, 100, Some((100, false))), Ok(()));
    assert_eq!(check_claim(Track::Premium, 100, Some((100, false))), Err(Rejection::PaymentRequired));
    assert_eq!(check_claim(Track::Premium, 100, Some((99, true))), Err(Rejection::Forbidden));
    assert_eq!(check_claim(Track::Premium, 100, Some((150, true))), Ok(()));
    assert_eq!(Rejection::PaymentRequired.status_code(), 402);
}

#[test]
fn rewards_and_double_claims() {
    assert_eq!(claim_reward(Track::Free, "f", "p"), "f");
    assert_eq!(claim_reward(Track::Premium, "f", "p"), "p");
    assert_eq!(claim_recorded(0), Err(Rejection::Conflict));
    assert_eq!(claim_recorded(1), Ok(()));
    assert_eq!(found::<u8>(None), Err(Rejection::NotFound));
    assert_eq!(found(Some(3)), Ok(3));
}

#[test]
fn premium_unlock() {
    assert_eq!(unlock_recorded(0), Err(Rejection::Conflict));
    assert_eq!(unlock_recorded(1), Ok(()));
    assert_eq!(unlock_charge(500), Some(-500));
    assert_eq!(unlock_charge(0), None);
}

#[test]
fn progress_splits_by_track() {
    let claims = vec![
        (1, "free".to_string()),
        (1, "premium".to_string()),
        (2, "free".to_string()),
        (3, "gold".to_string()),
        (5, "premium".to_string()),
    ];
    let (f, p) = split_claims(&claims);
    assert_eq!(f, vec![1, 2]);
    assert_eq!(p, vec![1, 5]);
}
