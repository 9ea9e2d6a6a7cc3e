use entry_point::json::{JsonEntry, JsonValue};
use entry_point::missions::{
    check_mission_update, check_new_mission, default_true, level_up_credit, match_event,
    mission_credit, next_progress, progress_or_new, target_amount, target_cap, target_trigger,
    target_item_type, validate_target, xp_granted, MissionEvent, MissionTriggerEvent,
};
use entry_point::status::Rejection;

fn obj(entries: Vec<(&str, JsonValue)>) -> JsonValue {
    JsonValue::Object(
        entries
            .into_iter()
            .map(|(k, v)| JsonEntry { key: k.to_string(), value: v })
            .collect(),
    )
}

fn s(x: &str) -> JsonValue {
    JsonValue::Str(x.to_string())
}

const CHAR: u128 = 0x550e8400_e29b_41d4_a716_446655440000;

#[test]
fn triggers_round_trip() {
    for t in [
        MissionTriggerEvent::RunCompleted,
        MissionTriggerEvent::CurrencyCollected,
        MissionTriggerEvent::StorePurchase,
        MissionTriggerEvent::CharacterLevelUp,
    ] {
        assert_eq!(MissionTriggerEvent::parse(t.as_str()), Some(t));
    }
    assert_eq!(MissionTriggerEvent::parse("run"), None);
    assert_eq!(
        MissionEvent::StorePurchase { item_type: "x".to_string() }.trigger(),
        MissionTriggerEvent::StorePurchase
    );
    assert!(default_true());
}

#[test]
fn run_completed_always_counts_one() {
    assert_eq!(match_event(&MissionEvent::RunCompleted, &obj(vec![])), (true, 1));
}

#[test]
fn currency_must_match() {
    let t = obj(vec![("currency", s("soft")), ("amount", JsonValue::Int(100))]);
    let e = MissionEvent::CurrencyCollected { currency: "soft".to_string(), amount: 30 };
    assert_eq!(match_event(&e, &t), (true, 30));
    let e = MissionEvent::CurrencyCollected { currency: "high".to_string(), amount: 30 };
    assert_eq!(match_event(&e, &t), (false, 0));
    assert_eq!(match_event(&e, &obj(vec![])), (false, 0));
}

#[test]
fn purchase_filter_is_optional() {
    let e = MissionEvent::StorePurchase { item_type: "skin_bundle".to_string() };
    assert_eq!(match_event(&e, &obj(vec![])), (true, 1));
    assert_eq!(match_event(&e, &obj(vec![("item_type", s(""))])), (true, 1));
    assert_eq!(match_event(&e, &obj(vec![("item_type", s("skin_bundle"))])), (true, 1));
    assert_eq!(match_event(&e, &obj(vec![("item_type", s("other"))])), (false, 0));
}

#[test]
fn level_up_needs_character_and_level() {
    let t = obj(vec![
        ("character_id", s("550e8400-e29b-41d4-a716-446655440000")),
        ("level", JsonValue::Int(5)),
    ]);
    let ok = MissionEvent::CharacterLevelUp { character_id: CHAR, level: 5 };
    assert_eq!(match_event(&ok, &t), (true, 1));
    let low = MissionEvent::CharacterLevelUp { character_id: CHAR, level: 4 };
    assert_eq!(match_event(&low, &t), (false, 0));
    let other = MissionEvent::CharacterLevelUp { character_id: 1, level: 9 };
    assert_eq!(match_event(&other, &t), (false, 0));
    // level defaults to 1
    let t1 = obj(vec![("character_id", s("550e8400e29b41d4a716446655440000"))]);
    assert_eq!(match_event(&MissionEvent::CharacterLevelUp { character_id: CHAR, level: 1 }, &t1), (true, 1));
    assert_eq!(level_up_credit(None, CHAR, 10, 1), (false, 0));
    assert_eq!(level_up_credit(Some(CHAR), CHAR, 10, 11), (false, 0));
}

#[test]
fn cap_is_amount_at_least_one() {
    let e = MissionEvent::RunCompleted;
    assert_eq!(target_cap(&e, &obj(vec![("amount", JsonValue::Int(5))])), 5);
    assert_eq!(target_cap(&e, &obj(vec![("amount", JsonValue::Int(0))])), 1);
    assert_eq!(target_cap(&e, &obj(vec![("amount", JsonValue::Int(-3))])), 1);
    assert_eq!(target_cap(&e, &obj(vec![])), 1);
    assert_eq!(target_amount(&obj(vec![("amount", s("5"))])), 1);
}

#[test]
fn credits_only_positive_matches() {
    let t = obj(vec![("currency", s("soft")), ("amount", JsonValue::Int(100))]);
    let e = MissionEvent::CurrencyCollected { currency: "soft".to_string(), amount: 30 };
    assert_eq!(mission_credit(&e, &t), Some((30, 100)));
    let neg = MissionEvent::CurrencyCollected { currency: "soft".to_string(), amount: -5 };
    assert_eq!(mission_credit(&neg, &t), None);
    let wrong = MissionEvent::CurrencyCollected { currency: "high".to_string(), amount: 5 };
    assert_eq!(mission_credit(&wrong, &t), None);
}

#[test]
fn xp_adds_completed_rewards() {
    assert_eq!(xp_granted(&vec![10, 20, 40], &vec![true, false, true]), 50);
    assert_eq!(xp_granted(&vec![], &vec![]), 0);
    assert_eq!(progress_or_new::<u8>(None), (0, None));
    assert_eq!(progress_or_new(Some((3, Some(1u8)))), (3, Some(1)));
}

#[test]
fn target_shapes() {
    let it = true;
    let amt = |n: i64| ("amount", JsonValue::Int(n));
    assert_eq!(validate_target(MissionTriggerEvent::RunCompleted, &s("x"), it), Err(Rejection::BadRequest));
    assert_eq!(validate_target(MissionTriggerEvent::RunCompleted, &obj(vec![amt(3)]), it), Ok(()));
    assert_eq!(validate_target(MissionTriggerEvent::RunCompleted, &obj(vec![amt(0)]), it), Err(Rejection::BadRequest));
    assert_eq!(
        validate_target(MissionTriggerEvent::CurrencyCollected, &obj(vec![("currency", s("energy")), amt(1)]), it),
        Ok(())
    );
    assert_eq!(
        validate_target(MissionTriggerEvent::CurrencyCollected, &obj(vec![("currency", s("gold")), amt(1)]), it),
        Err(Rejection::BadRequest)
    );
    assert_eq!(validate_target(MissionTriggerEvent::StorePurchase, &obj(vec![amt(2)]), false), Ok(()));
    assert_eq!(target_item_type(&obj(vec![("item_type", s("hat"))])), Some("hat"));
    assert_eq!(target_item_type(&obj(vec![("item_type", JsonValue::Int(1))])), None);
    assert_eq!(
        validate_target(MissionTriggerEvent::StorePurchase, &obj(vec![amt(2), ("item_type", s("currency_pack"))]), true),
        Ok(())
    );
    assert_eq!(
        validate_target(MissionTriggerEvent::StorePurchase, &obj(vec![amt(2), ("item_type", s("hat"))]), false),
        Err(Rejection::BadRequest)
    );
    let lvl = |n: i64| obj(vec![("character_id", s("550e8400-e29b-41d4-a716-446655440000")), ("level", JsonValue::Int(n))]);
    assert_eq!(validate_target(MissionTriggerEvent::CharacterLevelUp, &lvl(20), it), Ok(()));
    assert_eq!(validate_target(MissionTriggerEvent::CharacterLevelUp, &lvl(21), it), Err(Rejection::BadRequest));
    assert_eq!(validate_target(MissionTriggerEvent::CharacterLevelUp, &lvl(0), it), Err(Rejection::BadRequest));
    assert_eq!(
        validate_target(MissionTriggerEvent::CharacterLevelUp, &obj(vec![("character_id", s("nope")), ("level", JsonValue::Int(2))]), it),
        Err(Rejection::BadRequest)
    );
    // no character at all, and an empty one
    assert_eq!(
        validate_target(MissionTriggerEvent::CharacterLevelUp, &obj(vec![("level", JsonValue::Int(2))]), it),
        Err(Rejection::BadRequest)
    );
    assert_eq!(
        validate_target(MissionTriggerEvent::CharacterLevelUp, &obj(vec![("character_id", s("")), ("level", JsonValue::Int(2))]), it),
        Err(Rejection::BadRequest)
    );
}

#[test]
fn new_mission_rules() {
    let t = obj(vec![("amount", JsonValue::Int(3))]);
    assert_eq!(
        check_new_mission("Run 3", 50, true, "run_completed", &t, true),
        Ok(MissionTriggerEvent::RunCompleted)
    );
    assert_eq!(check_new_mission("   ", 50, true, "run_completed", &t, true), Err(Rejection::BadRequest));
    assert_eq!(check_new_mission("Run", 0, true, "run_completed", &t, true), Err(Rejection::BadRequest));
    assert_eq!(check_new_mission("Run", 5, false, "run_completed", &t, true), Err(Rejection::BadRequest));
    assert_eq!(check_new_mission("Run", 5, true, "jump", &t, true), Err(Rejection::BadRequest));
}

#[test]
fn mission_update_rules() {
    assert_eq!(check_mission_update(None, None, None, None), Ok(None));
    assert_eq!(
        check_mission_update(Some("x"), Some(1), Some(true), Some("store_purchase")),
        Ok(Some(MissionTriggerEvent::StorePurchase))
    );
    assert_eq!(check_mission_update(Some(" "), None, None, None), Err(Rejection::BadRequest));
    assert_eq!(check_mission_update(None, Some(-1), None, None), Err(Rejection::BadRequest));
    assert_eq!(check_mission_update(None, None, Some(false), None), Err(Rejection::BadRequest));
    assert_eq!(check_mission_update(None, None, None, Some("x")), Err(Rejection::BadRequest));
    assert_eq!(target_trigger(Some(MissionTriggerEvent::RunCompleted), None), Ok(MissionTriggerEvent::RunCompleted));
    assert_eq!(target_trigger(None, None), Err(Rejection::NotFound));
    assert_eq!(target_trigger(None, Some("currency_collected")), Ok(MissionTriggerEvent::CurrencyCollected));
    assert_eq!(target_trigger(None, Some("garbage")), Err(Rejection::Internal));
}

#[test]
fn progress_saturates_and_completes_once() {
    // a new row starts at 0
    assert_eq!(next_progress(0, 2, 5, false), (2, false));
    assert_eq!(next_progress(2, 2, 5, false), (4, false));
    // reaching the cap completes the mission, once
    assert_eq!(next_progress(4, 2, 5, false), (5, true));
    assert_eq!(next_progress(5, 3, 5, true), (5, false));
    assert_eq!(next_progress(0, 100, 5, false), (5, true));
    // an over-large credit is held to the cap, never overflowing
    assert_eq!(next_progress(5, i64::MAX, 10, false), (10, true));
    assert_eq!(next_progress(0, i64::MAX, i64::MAX, false), (i64::MAX, true));
    assert_eq!(next_progress(9, i64::MAX, 10, true), (10, false));
    // a sequence of events completes at most once
    let mut p = 0;
    let mut done = false;
    let mut fired = 0;
    for d in [3, 3, 3, 3] {
        let (np, newly) = next_progress(p, d, 7, done);
        p = np;
        if newly {
            fired += 1;
        }
        done = done || newly;
    }
    assert_eq!((p, fired), (7, 1));
}
