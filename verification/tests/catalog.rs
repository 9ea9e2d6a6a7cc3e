use entry_point::catalog::{
    acquired, character_views, check_avatar_update, check_character_update, check_cost,
    check_frame_purchase, check_new_avatar, check_new_character, check_new_item,
    check_new_skin, check_selectable, check_skin_update, default_currency, default_rarity,
    check_kind_update, ItemKind, ItemKindUpdate, empty_object, item_update_rechecks_kind, owned_rows,
    purchase_charge, touched, validate_store_payload, write_failure, CharacterState, CreateAvatarRequest, FrameOffer,
    Rarity, SkinLink, StoreCurrency, UpdateAvatarRequest,
};
use entry_point::json::JsonValue;
use entry_point::status::Rejection;

#[test]
fn defaults() {
    assert_eq!(default_currency(), "soft");
    assert_eq!(default_rarity(), "common");
    assert!(matches!(empty_object(), JsonValue::Object(e) if e.is_empty()));
}

#[test]
fn rarities() {
    for r in [Rarity::Common, Rarity::Uncommon, Rarity::Rare, Rarity::Epic, Rarity::Legendary] {
        assert_eq!(Rarity::parse(r.as_str()), Some(r));
    }
    assert_eq!(Rarity::parse("mythic"), None);
}

#[test]
fn avatar_rules() {
    assert_eq!(check_new_avatar("Cat", 0, "soft"), Ok(()));
    assert_eq!(check_new_avatar(" \t", 0, "soft"), Err(Rejection::BadRequest));
    assert_eq!(check_new_avatar("Cat", -1, "soft"), Err(Rejection::BadRequest));
    assert_eq!(check_new_avatar("Cat", 1, "gold"), Err(Rejection::BadRequest));
    assert_eq!(check_avatar_update(None, None, None), Ok(()));
    assert_eq!(check_avatar_update(Some("x"), Some(3), Some("energy")), Ok(()));
    assert_eq!(check_avatar_update(Some(""), None, None), Err(Rejection::BadRequest));
    let req = CreateAvatarRequest { name: "Dog".into(), price: 10, currency: "high".into() };
    assert_eq!(req.check(), Ok(()));
    let upd = UpdateAvatarRequest { name: None, price: Some(-2), currency: None, is_active: Some(true) };
    assert_eq!(upd.check(), Err(Rejection::BadRequest));
}

#[test]
fn skin_rules() {
    assert_eq!(check_new_skin("energy", 0), Ok(()));
    assert_eq!(check_new_skin("iap", 0), Err(Rejection::BadRequest));
    assert_eq!(check_new_skin("soft", -5), Err(Rejection::BadRequest));
    assert_eq!(check_skin_update(Some(1), Some("high")), Ok(()));
    assert_eq!(check_skin_update(None, Some("x")), Err(Rejection::BadRequest));
}

#[test]
fn character_rules() {
    assert_eq!(check_new_character("Hero", "epic"), Ok(Rarity::Epic));
    assert_eq!(check_new_character("Hero", "EPIC"), Err(Rejection::BadRequest));
    assert_eq!(check_new_character("  ", "epic"), Err(Rejection::BadRequest));
    assert_eq!(check_character_update(None, None), Ok(None));
    assert_eq!(check_character_update(Some("H"), Some("rare")), Ok(Some(Rarity::Rare)));
    assert_eq!(check_character_update(Some(" "), None), Err(Rejection::BadRequest));
}

#[test]
fn write_failures() {
    assert_eq!(write_failure(Some("23505"), "23505", Rejection::Conflict), Rejection::Conflict);
    assert_eq!(write_failure(Some("23503"), "23505", Rejection::Conflict), Rejection::Internal);
    assert_eq!(write_failure(None, "23503", Rejection::BadRequest), Rejection::Internal);
    assert_eq!(touched(0), Err(Rejection::NotFound));
    assert_eq!(touched(2), Ok(()));
}

#[test]
fn store_item_rules() {
    assert_eq!(StoreCurrency::parse("iap"), Some(StoreCurrency::Iap));
    assert_eq!(StoreCurrency::parse("gems"), None);
    assert_eq!(validate_store_payload(true, "soft", None, true), Ok(()));
    assert_eq!(validate_store_payload(false, "soft", None, true), Err(Rejection::BadRequest));
    assert_eq!(validate_store_payload(true, "gems", None, true), Err(Rejection::BadRequest));
    assert_eq!(validate_store_payload(true, "iap", None, true), Err(Rejection::BadRequest));
    assert_eq!(validate_store_payload(true, "iap", Some(""), true), Err(Rejection::BadRequest));
    assert_eq!(validate_store_payload(true, "iap", Some("com.x.pack"), true), Ok(()));
    assert_eq!(validate_store_payload(true, "soft", None, false), Err(Rejection::BadRequest));
    assert_eq!(check_new_item(-1, true, "soft", None, true), Err(Rejection::BadRequest));
    assert_eq!(check_new_item(0, true, "soft", None, true), Ok(()));
    assert!(item_update_rechecks_kind(false, false, true, false));
    assert!(!item_update_rechecks_kind(false, false, false, false));
    assert_eq!(check_cost(Some(-1)), Err(Rejection::BadRequest));
    assert_eq!(check_cost(None), Ok(()));
}

#[test]
fn item_update_keeps_kind_valid() {
    let stored = ItemKind { type_known: true, currency: "soft".into(), iap_product_id: None, payload_valid: true };
    // Switched to real money without a product id: the kind it leaves is refused.
    let to_iap = ItemKindUpdate { type_known: None, currency: Some("iap".into()), iap_product_id: None, payload_valid: None };
    assert!(to_iap.touches_kind());
    assert_eq!(check_kind_update(&to_iap, Some(&stored)), Err(Rejection::BadRequest));
    // The same switch with a product id passes.
    let with_id = ItemKindUpdate { type_known: None, currency: Some("iap".into()), iap_product_id: Some("com.x.gems".into()), payload_valid: None };
    assert_eq!(check_kind_update(&with_id, Some(&stored)), Ok(()));
    // A new payload that is not a grant list is refused.
    let bad_payload = ItemKindUpdate { type_known: None, currency: None, iap_product_id: None, payload_valid: Some(false) };
    assert_eq!(check_kind_update(&bad_payload, Some(&stored)), Err(Rejection::BadRequest));
    // An update that sets no kind field needs no stored row.
    let none = ItemKindUpdate { type_known: None, currency: None, iap_product_id: None, payload_valid: None };
    assert!(!none.touches_kind());
    assert_eq!(check_kind_update(&none, None), Ok(()));
    assert_eq!(check_kind_update(&to_iap, None), Err(Rejection::NotFound));
}

#[test]
fn frame_purchase_rules() {
    assert_eq!(check_frame_purchase(None), Err(Rejection::NotFound));
    assert_eq!(check_frame_purchase(Some(&FrameOffer { price: 5, is_active: false })), Err(Rejection::Gone));
    assert_eq!(check_frame_purchase(Some(&FrameOffer { price: 5, is_active: true })), Ok(5));
    assert_eq!(acquired(0), Err(Rejection::Conflict));
    assert_eq!(acquired(1), Ok(()));
    assert_eq!(purchase_charge(5), Some(-5));
    assert_eq!(purchase_charge(0), None);
    assert_eq!(check_selectable(true), Ok(()));
    assert_eq!(check_selectable(false), Err(Rejection::Forbidden));
}

#[test]
fn owned_marks_selected() {
    let rows = owned_rows(&vec![3, 7, 9], Some(7));
    let v: Vec<(u128, bool)> = rows.iter().map(|r| (r.id, r.is_selected)).collect();
    assert_eq!(v, vec![(3, false), (7, true), (9, false)]);
    let rows = owned_rows(&vec![3], None);
    assert!(!rows[0].is_selected);
}

#[test]
fn character_view_rules() {
    let chars = vec![
        CharacterState { id: 1, unlocked: None, equipped_skin_id: None, default_unlocked: true },
        CharacterState { id: 2, unlocked: Some(false), equipped_skin_id: Some(20), default_unlocked: true },
        CharacterState { id: 3, unlocked: Some(true), equipped_skin_id: None, default_unlocked: false },
        CharacterState { id: 4, unlocked: Some(false), equipped_skin_id: None, default_unlocked: false },
        CharacterState { id: 5, unlocked: None, equipped_skin_id: None, default_unlocked: false },
    ];
    let skins = vec![
        SkinLink { id: 10, character_id: 1 },
        SkinLink { id: 20, character_id: 2 },
        SkinLink { id: 11, character_id: 1 },
    ];
    let v = character_views(&chars, &skins);
    assert_eq!(v.len(), 5);
    assert!(v[0].unlocked);
    assert_eq!(v[0].related_skins, vec![10, 11]);
    // unlocked by default, whatever the player's own flag says
    assert!(v[1].unlocked);
    assert_eq!(v[1].equipped_skin, Some(20));
    assert_eq!(v[1].related_skins, vec![20]);
    assert!(v[2].unlocked);
    assert!(v[2].related_skins.is_empty());
    assert!(!v[3].unlocked);
    assert!(!v[4].unlocked);
}
