use entry_point::clock::Instant;
use entry_point::payments::{
    approval_won, charge_http_status, check_charge, grants_due, etomin_currency, is_expired, resolve_sale,
    sale_failure, sale_state, settle_action, settle_action_for, settle_changed, settle_on_read,
    settle_step, settle_step_at, ChargeItem, PaymentStatus, PendingPayment, SaleFailure,
    SettleAction, SettleStep, EXPIRY_SECS,
};
use entry_point::status::Rejection;

fn item(cost: i64, currency: &str, is_active: bool) -> ChargeItem {
    ChargeItem { cost, currency: currency.to_string(), is_active }
}

#[test]
fn charge_preconditions_in_order() {
    assert_eq!(check_charge(None, true), Err(Rejection::NotFound));
    assert_eq!(check_charge(Some(&item(100, "iap", false)), true), Err(Rejection::Gone));
    assert_eq!(check_charge(Some(&item(100, "soft", true)), true), Err(Rejection::BadRequest));
    assert_eq!(check_charge(Some(&item(100, "iap", true)), false), Err(Rejection::Unavailable));
    assert_eq!(check_charge(Some(&item(100, "iap", true)), true), Ok(100));
    assert_eq!(etomin_currency(), "484");
}

#[test]
fn sale_failures() {
    assert_eq!(sale_failure(SaleFailure::Auth), (true, Rejection::BadGateway));
    assert_eq!(sale_failure(SaleFailure::Upstream), (true, Rejection::BadGateway));
    assert_eq!(sale_failure(SaleFailure::Local), (false, Rejection::Internal));
    assert_eq!(Rejection::BadGateway.status_code(), 502);
}

#[test]
fn sale_status_mapping() {
    assert_eq!(resolve_sale(Some("approved")), PaymentStatus::Approved);
    assert_eq!(resolve_sale(Some("Pending")), PaymentStatus::Pending);
    assert_eq!(resolve_sale(Some("ERROR")), PaymentStatus::Declined);
    assert_eq!(resolve_sale(Some("")), PaymentStatus::Declined);
    assert_eq!(resolve_sale(None), PaymentStatus::Declined);
    assert_eq!(sale_state("APPROVED"), PaymentStatus::Approved);
    assert_eq!(sale_state("approved"), PaymentStatus::Declined);
    assert_eq!(charge_http_status(PaymentStatus::Approved), 200);
    assert!(grants_due(PaymentStatus::Approved));
    assert!(!grants_due(PaymentStatus::Pending));
    assert!(!grants_due(PaymentStatus::Declined));
    assert!(!grants_due(PaymentStatus::Expired));
    assert_eq!(charge_http_status(PaymentStatus::Pending), 202);
    assert_eq!(charge_http_status(PaymentStatus::Declined), 402);
    assert_eq!(PaymentStatus::Expired.as_str(), "EXPIRED");
}

#[test]
fn expiry_is_strictly_after_an_hour() {
    assert_eq!(EXPIRY_SECS, 3600);
    let c = Instant { secs: 1000, nanos: 0 };
    assert!(!is_expired(c, Instant { secs: 4600, nanos: 0 }));
    assert!(is_expired(c, Instant { secs: 4600, nanos: 1 }));
    assert!(!is_expired(Instant { secs: 1000, nanos: 500 }, Instant { secs: 4600, nanos: 500 }));
    assert!(is_expired(Instant { secs: 1000, nanos: 999_999_999 }, Instant { secs: 4601, nanos: 0 }));
}

fn pending(status: &str, id: Option<&str>, secs: i64) -> PendingPayment {
    PendingPayment {
        status: status.to_string(),
        etomin_id: id.map(|s| s.to_string()),
        created_at: Instant { secs, nanos: 0 },
    }
}

#[test]
fn settle_steps() {
    let now = Instant { secs: 10_000, nanos: 0 };
    assert_eq!(settle_step_at(None, now), SettleStep::Skip);
    assert_eq!(settle_step_at(Some(&pending("APPROVED", Some("e"), 9_000)), now), SettleStep::Skip);
    assert_eq!(settle_step_at(Some(&pending("PENDING", Some("e"), 1_000)), now), SettleStep::Expire);
    assert_eq!(settle_step_at(Some(&pending("PENDING", None, 9_000)), now), SettleStep::Skip);
    assert_eq!(settle_step_at(Some(&pending("PENDING", Some("e"), 9_000)), now), SettleStep::Query);
    // an ancient pending payment expires now, whatever the clock reads
    assert_eq!(settle_step(Some(&pending("PENDING", Some("e"), 0))), SettleStep::Expire);
    assert_eq!(settle_step(Some(&pending("DECLINED", Some("e"), 0))), SettleStep::Skip);
}

#[test]
fn settle_actions() {
    assert_eq!(settle_action(Some("approved")), SettleAction::Approve);
    assert_eq!(settle_action(Some("DECLINED")), SettleAction::Decline);
    assert_eq!(settle_action(Some("processing")), SettleAction::Touch);
    assert_eq!(settle_action(None), SettleAction::Touch);
    assert_eq!(settle_action_for("APPROVED"), SettleAction::Approve);
    assert!(settle_changed(SettleAction::Approve));
    assert!(settle_changed(SettleAction::Decline));
    assert!(!settle_changed(SettleAction::Touch));
    assert!(approval_won(1));
    assert!(!approval_won(0));
    assert!(settle_on_read("PENDING", true));
    assert!(!settle_on_read("PENDING", false));
    assert!(!settle_on_read("APPROVED", true));
}
