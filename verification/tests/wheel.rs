use entry_point::status::Rejection;
use entry_point::wheel::{
    check_wheel, cooldown_gate, cooldown_key, cooldown_status, pick_prize, pick_weighted,
    retry_after, total_weight, SpinError, COOLDOWN_SECS,
};

#[test]
fn cooldown_is_a_day() {
    assert_eq!(COOLDOWN_SECS, 86_400);
}

#[test]
fn negative_ttl_means_no_cooldown() {
    assert_eq!(retry_after(-2), 0);
    assert_eq!(retry_after(-1), 0);
    assert_eq!(retry_after(0), 0);
    assert_eq!(retry_after(42), 42);
    let c = cooldown_status(-2);
    assert!(c.ready);
    assert_eq!(c.retry_after_seconds, 0);
    let c = cooldown_status(100);
    assert!(!c.ready);
    assert_eq!(c.retry_after_seconds, 100);
}

#[test]
fn cooldown_key_uses_hyphenated_uuid() {
    let k = cooldown_key(0x550e8400_e29b_41d4_a716_446655440000);
    assert_eq!(k, "prize_wheel:cooldown:550e8400-e29b-41d4-a716-446655440000");
}

#[test]
fn cooldown_keys_differ_per_user() {
    let a = cooldown_key(1);
    let b = cooldown_key(1 << 64);
    assert_eq!(a, "prize_wheel:cooldown:00000000-0000-0000-0000-000000000001");
    assert_eq!(b, "prize_wheel:cooldown:00000000-0000-0001-0000-000000000000");
    assert_ne!(a, b);
}

#[test]
fn spin_refused_while_cooling_down() {
    assert!(cooldown_gate(true, None).is_ok());
    match cooldown_gate(false, Some(3600)) {
        Err(SpinError::Cooldown { retry_after_seconds }) => assert_eq!(retry_after_seconds, 3600),
        _ => panic!("expected cooldown"),
    }
    match cooldown_gate(false, None) {
        Err(e @ SpinError::Cooldown { retry_after_seconds: 0 }) => assert_eq!(e.status_code(), 429),
        _ => panic!("expected cooldown with 0"),
    }
}

#[test]
fn weighted_pick_follows_bands() {
    let w = vec![1, 3, 6];
    assert_eq!(total_weight(&w), 10);
    assert_eq!(pick_weighted(&w, 0), 0);
    assert_eq!(pick_weighted(&w, 1), 1);
    assert_eq!(pick_weighted(&w, 3), 1);
    assert_eq!(pick_weighted(&w, 4), 2);
    assert_eq!(pick_weighted(&w, 9), 2);
    // a roll past every band falls back to the first slice
    assert_eq!(pick_weighted(&w, 10), 0);
}

#[test]
fn each_slice_wins_exactly_its_weight() {
    let w = vec![2, 5, 1, 4];
    let mut wins = vec![0i64; w.len()];
    for roll in 0..total_weight(&w) as i64 {
        wins[pick_weighted(&w, roll)] += 1;
    }
    assert_eq!(wins, vec![2, 5, 1, 4]);
}

#[test]
fn empty_wheel_cannot_spin() {
    match pick_prize(&vec![]) {
        Err(e @ SpinError::WheelEmpty) => assert_eq!(e.status_code(), 503),
        _ => panic!("expected empty wheel"),
    }
    for _ in 0..50 {
        let i = pick_prize(&vec![1, 0, 2]).ok().unwrap();
        assert!(i == 0 || i == 2);
    }
}

#[test]
fn wheel_replacement_rules() {
    assert_eq!(check_wheel(&vec![], &vec![]), Err(Rejection::BadRequest));
    assert_eq!(check_wheel(&vec![1, 2], &vec![true, true]), Ok(()));
    assert_eq!(check_wheel(&vec![1, 0], &vec![true, true]), Err(Rejection::BadRequest));
    assert_eq!(check_wheel(&vec![1, 2], &vec![true, false]), Err(Rejection::BadRequest));
}
