//! Card payments: which items may be charged, how the processor's answers
//! map to payment states, and when a pending payment is settled.
use vstd::prelude::*;
use vstd::string::*;
use crate::clock::{Instant, instant_nanos, now_utc};
use crate::status::Rejection;
use crate::text::{str_eq, to_uppercase, uppercase_of};

verus! {

/// Numeric ISO 4217 code of the currency charges are made in (MXN).
pub fn etomin_currency() -> (r: &'static str)
    ensures
        r@ == "484"@,
{
    "484"
}

/// Seconds after which a pending payment is given up on.
pub const EXPIRY_SECS: i64 = 3600;

/// The states of a payment row.
#[derive(PartialEq, Eq, Structural, Clone, Copy, Debug)]
pub enum PaymentStatus {
    Pending,
    Approved,
    Declined,
    Expired,
}

pub open spec fn status_name(s: PaymentStatus) -> Seq<char> {
    match s {
        PaymentStatus::Pending => "PENDING"@,
        PaymentStatus::Approved => "APPROVED"@,
        PaymentStatus::Declined => "DECLINED"@,
        PaymentStatus::Expired => "EXPIRED"@,
    }
}

impl PaymentStatus {
    /// The stored name of the state.
    pub fn as_str(&self) -> (r: &'static str)
        ensures
            r@ == status_name(*self),
    {
        match self {
            PaymentStatus::Pending => "PENDING",
            PaymentStatus::Approved => "APPROVED",
            PaymentStatus::Declined => "DECLINED",
            PaymentStatus::Expired => "EXPIRED",
        }
    }
}

/// The store item a charge is for, as stored.
pub struct ChargeItem {
    pub cost: i64,
    pub currency: String,
    pub is_active: bool,
}

/// Whether a charge may go to the processor: the item exists (else 404), is
/// active (else 410) and is sold for real money, currency `iap` (else 400);
/// only then is a missing processor configuration reported (503). On
/// success, the amount to charge.
pub fn check_charge(item: Option<&ChargeItem>, processor_configured: bool) -> (r: Result<i64, Rejection>)
    ensures
        match item {
            None => r == Err::<i64, Rejection>(Rejection::NotFound),
            Some(it) => if !it.is_active {
                r == Err::<i64, Rejection>(Rejection::Gone)
            } else if it.currency@ != "iap"@ {
                r == Err::<i64, Rejection>(Rejection::BadRequest)
            } else if !processor_configured {
                r == Err::<i64, Rejection>(Rejection::Unavailable)
            } else {
                r == Ok::<i64, Rejection>(it.cost)
            },
        },
{
    let it = match item {
        Some(it) => it,
        None => return Err(Rejection::NotFound),
    };
    if !it.is_active {
        return Err(Rejection::Gone);
    }
    if !str_eq(it.currency.as_str(), "iap") {
        return Err(Rejection::BadRequest);
    }
    if !processor_configured {
        return Err(Rejection::Unavailable);
    }
    Ok(it.cost)
}

/// How a sale call to the processor failed.
#[derive(PartialEq, Eq, Structural, Clone, Copy, Debug)]
pub enum SaleFailure {
    /// The processor refused our credentials.
    Auth,
    /// The processor answered with an error.
    Upstream,
    /// The request could not be made or read on our side.
    Local,
}

/// What a failed sale does: whether the payment row is marked declined, and
/// the refusal. A processor-side failure declines the payment and answers
/// 502; a local failure leaves it pending and answers 500.
pub fn sale_failure(f: SaleFailure) -> (r: (bool, Rejection))
    ensures
        f == SaleFailure::Local ==> r == (false, Rejection::Internal),
        f != SaleFailure::Local ==> r == (true, Rejection::BadGateway),
{
    match f {
        SaleFailure::Local => (false, Rejection::Internal),
        _ => (true, Rejection::BadGateway),
    }
}

/// The state a sale ends in, given the processor's status already
/// upper-cased: `APPROVED` and `PENDING` are kept; anything else declines.
pub open spec fn spec_sale_state(upper: Seq<char>) -> PaymentStatus {
    if upper == "APPROVED"@ {
        PaymentStatus::Approved
    } else if upper == "PENDING"@ {
        PaymentStatus::Pending
    } else {
        PaymentStatus::Declined
    }
}

pub fn sale_state(upper: &str) -> (r: PaymentStatus)
    ensures
        r == spec_sale_state(upper@),
{
    if str_eq(upper, "APPROVED") {
        PaymentStatus::Approved
    } else if str_eq(upper, "PENDING") {
        PaymentStatus::Pending
    } else {
        PaymentStatus::Declined
    }
}

/// The processor's status field, or `fallback` when it has none.
pub open spec fn status_or(status: Option<Seq<char>>, fallback: Seq<char>) -> Seq<char> {
    match status {
        Some(s) => s,
        None => fallback,
    }
}

/// The state a sale ends in, from the processor's `status` field (absent
/// counts as `DECLINED`), compared case-insensitively by upper-casing.
pub fn resolve_sale(status: Option<&str>) -> (r: PaymentStatus)
    ensures
        r == spec_sale_state(uppercase_of(status_or(
            match status { Some(s) => Some(s@), None => None },
            "DECLINED"@,
        ))),
{
    let s = match status {
        Some(s) => s,
        None => "DECLINED",
    };
    let upper = to_uppercase(s);
    sale_state(upper.as_str())
}

/// Whether a charge hands out the item's grants: only when the sale ends
/// approved.
pub fn grants_due(s: PaymentStatus) -> (r: bool)
    ensures
        r == (s == PaymentStatus::Approved),
{
    match s {
        PaymentStatus::Approved => true,
        _ => false,
    }
}

/// The HTTP status a charge is answered with for the state it ends in.
pub fn charge_http_status(s: PaymentStatus) -> (r: u16)
    ensures
        s == PaymentStatus::Approved ==> r == 200,
        s == PaymentStatus::Pending ==> r == 202,
        s != PaymentStatus::Approved && s != PaymentStatus::Pending ==> r == 402,
{
    match s {
        PaymentStatus::Approved => 200,
        PaymentStatus::Pending => 202,
        _ => 402,
    }
}

/// Whether a payment created at `created` is past the pending deadline at
/// `now`: strictly more than an hour has gone by.
pub open spec fn spec_expired(created: Instant, now: Instant) -> bool {
    instant_nanos(now) - instant_nanos(created) > EXPIRY_SECS as int * 1_000_000_000
}

pub fn is_expired(created: Instant, now: Instant) -> (r: bool)
    ensures
        r == spec_expired(created, now),
{
    let n = now.secs as i128 * 1_000_000_000 + now.nanos as i128;
    let c = created.secs as i128 * 1_000_000_000 + created.nanos as i128;
    n - c > 3600 * 1_000_000_000
}

/// The parts of a payment row that settling it looks at.
pub struct PendingPayment {
    pub status: String,
    pub etomin_id: Option<String>,
    pub created_at: Instant,
}

/// The first step of settling a payment.
#[derive(PartialEq, Eq, Structural, Clone, Copy, Debug)]
pub enum SettleStep {
    /// Nothing to do: no such row, not pending, or no processor id yet.
    Skip,
    /// Pending past the deadline: mark it expired (a change).
    Expire,
    /// Ask the processor for the transaction's state.
    Query,
}

pub open spec fn spec_settle_step(row: Option<&PendingPayment>, now: Instant) -> SettleStep {
    match row {
        None => SettleStep::Skip,
        Some(p) => if p.status@ != "PENDING"@ {
            SettleStep::Skip
        } else if spec_expired(p.created_at, now) {
            SettleStep::Expire
        } else if p.etomin_id is None {
            SettleStep::Skip
        } else {
            SettleStep::Query
        },
    }
}

/// The first step of settling `row` at time `now`.
pub fn settle_step_at(row: Option<&PendingPayment>, now: Instant) -> (r: SettleStep)
    ensures
        r == spec_settle_step(row, now),
{
    let p = match row {
        Some(p) => p,
        None => return SettleStep::Skip,
    };
    if !str_eq(p.status.as_str(), "PENDING") {
        return SettleStep::Skip;
    }
    if is_expired(p.created_at, now) {
        return SettleStep::Expire;
    }
    if p.etomin_id.is_none() {
        return SettleStep::Skip;
    }
    SettleStep::Query
}

/// The first step of settling `row` now. Which step it is depends on the
/// clock; it is the step `settle_step_at` gives for some current time.
pub fn settle_step(row: Option<&PendingPayment>) -> (r: SettleStep)
    ensures
        exists|now: Instant| r == #[trigger] spec_settle_step(row, now),
{
    let now = now_utc();
    settle_step_at(row, now)
}

/// What the processor's answer on a pending payment leads to.
#[derive(PartialEq, Eq, Structural, Clone, Copy, Debug)]
pub enum SettleAction {
    /// Mark approved and hand out the item's grants (a change).
    Approve,
    /// Mark declined (a change).
    Decline,
    /// Still pending: store the answer and keep waiting (no change).
    Touch,
}

pub open spec fn spec_settle_action(upper: Seq<char>) -> SettleAction {
    if upper == "APPROVED"@ {
        SettleAction::Approve
    } else if upper == "DECLINED"@ {
        SettleAction::Decline
    } else {
        SettleAction::Touch
    }
}

/// The action for the processor's status already upper-cased.
pub fn settle_action_for(upper: &str) -> (r: SettleAction)
    ensures
        r == spec_settle_action(upper@),
{
    if str_eq(upper, "APPROVED") {
        SettleAction::Approve
    } else if str_eq(upper, "DECLINED") {
        SettleAction::Decline
    } else {
        SettleAction::Touch
    }
}

/// The action for the processor's `status` field; absent counts as `PENDING`.
pub fn settle_action(status: Option<&str>) -> (r: SettleAction)
    ensures
        r == spec_settle_action(uppercase_of(status_or(
            match status { Some(s) => Some(s@), None => None },
            "PENDING"@,
        ))),
{
    let s = match status {
        Some(s) => s,
        None => "PENDING",
    };
    let upper = to_uppercase(s);
    settle_action_for(upper.as_str())
}

/// Whether settling changed the payment's state.
pub fn settle_changed(a: SettleAction) -> (r: bool)
    ensures
        r == (a != SettleAction::Touch),
{
    match a {
        SettleAction::Touch => false,
        _ => true,
    }
}

/// An approval hands out grants only when its compare-and-swap from
/// `PENDING` touched the row; otherwise another settlement won and did.
pub fn approval_won(rows_affected: u64) -> (r: bool)
    ensures
        r == (rows_affected > 0),
{
    rows_affected > 0
}

/// A read of one's own payment settles it first when it is still pending and
/// a processor is configured.
pub fn settle_on_read(status: &str, processor_configured: bool) -> (r: bool)
    ensures
        r == (status@ == "PENDING"@ && processor_configured),
{
    str_eq(status, "PENDING") && processor_configured
}

/// A payment that is no longer pending (approved, declined, expired) is
/// never settled again, whatever the time.
pub proof fn law_settled_payments_stay(p: PendingPayment, now: Instant)
    requires
        p.status@ != "PENDING"@,
    ensures
        spec_settle_step(Some(&p), now) == SettleStep::Skip,
{
}

/// Once a pending payment is past its deadline it stays past it: any later
/// time finds it expired too.
pub proof fn law_expiry_is_final(created: Instant, now: Instant, later: Instant)
    requires
        spec_expired(created, now),
        instant_nanos(now) <= instant_nanos(later),
    ensures
        spec_expired(created, later),
{
}


/// How a payment row is settled, in terms of its fields: a pending payment
/// past the one-hour deadline is expired whatever its processor id; one
/// within the deadline is asked about when it has a processor id and left
/// alone otherwise; a payment that is not pending, or no row, is left alone.
pub proof fn law_settle_steps(p: PendingPayment, now: Instant)
    ensures
        p.status@ == "PENDING"@ && instant_nanos(now) - instant_nanos(p.created_at) > 3_600_000_000_000
            ==> spec_settle_step(Some(&p), now) == SettleStep::Expire,
        p.status@ == "PENDING"@ && instant_nanos(now) - instant_nanos(p.created_at) <= 3_600_000_000_000
            && p.etomin_id is Some ==> spec_settle_step(Some(&p), now) == SettleStep::Query,
        p.status@ == "PENDING"@ && instant_nanos(now) - instant_nanos(p.created_at) <= 3_600_000_000_000
            && p.etomin_id is None ==> spec_settle_step(Some(&p), now) == SettleStep::Skip,
        p.status@ != "PENDING"@ ==> spec_settle_step(Some(&p), now) == SettleStep::Skip,
        spec_settle_step(None, now) == SettleStep::Skip,
{
}

/// The processor's answers, already upper-cased: a sale approved or pending
/// ends so, anything else declines; a settlement query approves on
/// `APPROVED`, declines on `DECLINED` and otherwise keeps waiting.
pub proof fn law_processor_answers(upper: Seq<char>)
    ensures
        spec_sale_state("APPROVED"@) == PaymentStatus::Approved,
        spec_sale_state("PENDING"@) == PaymentStatus::Pending,
        upper != "APPROVED"@ && upper != "PENDING"@ ==> spec_sale_state(upper) == PaymentStatus::Declined,
        spec_settle_action("APPROVED"@) == SettleAction::Approve,
        spec_settle_action("DECLINED"@) == SettleAction::Decline,
        upper != "APPROVED"@ && upper != "DECLINED"@ ==> spec_settle_action(upper) == SettleAction::Touch,
{
    reveal_strlit("APPROVED");
    reveal_strlit("PENDING");
    reveal_strlit("DECLINED");
    assert("APPROVED"@.len() != "PENDING"@.len());
    assert("APPROVED"@[0] != "DECLINED"@[0]);
}

} // verus!
