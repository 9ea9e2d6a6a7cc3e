//! Prize wheel: cooldown bookkeeping, wheel validation and the weighted draw.
use vstd::prelude::*;
use rand::Rng;
use crate::ids::{law_prefixed_ids_distinct, uuid_text, uuid_to_text};
use crate::status::Rejection;
use crate::text::concat;

verus! {

/// Seconds one spin locks the wheel for that user.
pub const COOLDOWN_SECS: i64 = 86400;

/// Whether the user may spin now, and how long until they may otherwise.
pub struct CooldownResponse {
    pub ready: bool,
    pub retry_after_seconds: i64,
}

/// Seconds left on a cooldown whose cache TTL reads `ttl`. A negative TTL
/// (no key, or a key without expiry) means no cooldown.
pub open spec fn spec_retry_after(ttl: i64) -> i64 {
    if ttl < 0 {
        0
    } else {
        ttl
    }
}

pub fn retry_after(ttl: i64) -> (r: i64)
    ensures
        r == spec_retry_after(ttl),
{
    if ttl < 0 {
        0
    } else {
        ttl
    }
}

/// The cooldown state reported to the user for a cache TTL of `ttl`.
pub fn cooldown_status(ttl: i64) -> (r: CooldownResponse)
    ensures
        r.retry_after_seconds == spec_retry_after(ttl),
        r.ready == (spec_retry_after(ttl) == 0),
{
    let retry_after_seconds = retry_after(ttl);
    CooldownResponse { ready: retry_after_seconds == 0, retry_after_seconds }
}

/// Cache key of a user's spin cooldown.
pub fn cooldown_key(user_id: u128) -> (r: String)
    ensures
        r@ == "prize_wheel:cooldown:"@ + uuid_text(user_id),
{
    let id = uuid_to_text(user_id);
    concat("prize_wheel:cooldown:", id.as_str())
}

/// A player's wallet after a spin.
pub struct Balances {
    pub high: i64,
    pub soft: i64,
    pub energy: i64,
}

/// Why a spin is refused.
pub enum SpinError {
    /// The user spun within the cooldown; they may retry after this many seconds.
    Cooldown { retry_after_seconds: i64 },
    /// The wheel has no items.
    WheelEmpty,
}

impl SpinError {
    pub fn status_code(&self) -> (r: u16)
        ensures
            r == match self {
                SpinError::Cooldown { .. } => 429u16,
                SpinError::WheelEmpty => 503u16,
            },
    {
        match self {
            SpinError::Cooldown { .. } => 429,
            SpinError::WheelEmpty => 503,
        }
    }
}

/// The answer to taking the cooldown lock: `acquired` tells whether the lock
/// was free; when it was not, `ttl` is the lock's TTL as read back (`None`
/// when that read failed, which counts as 0).
pub fn cooldown_gate(acquired: bool, ttl: Option<i64>) -> (r: Result<(), SpinError>)
    ensures
        acquired ==> r is Ok,
        !acquired ==> r == Err::<(), SpinError>(SpinError::Cooldown {
            retry_after_seconds: spec_retry_after(match ttl { Some(t) => t, None => 0 }),
        }),
{
    if acquired {
        Ok(())
    } else {
        let t = match ttl {
            Some(t) => t,
            None => 0,
        };
        Err(SpinError::Cooldown { retry_after_seconds: retry_after(t) })
    }
}

/// Sum of the weights.
pub open spec fn weight_sum(ws: Seq<i32>) -> int
    decreases ws.len(),
{
    if ws.len() == 0 {
        0
    } else {
        weight_sum(ws.drop_last()) + ws.last()
    }
}

/// Sum of the first `i` weights.
pub open spec fn prefix_sum(ws: Seq<i32>, i: int) -> int {
    weight_sum(ws.take(i))
}

/// The slice a roll lands on, walking the weights in order and taking the
/// first whose band holds what is left of the roll.
pub open spec fn pick_from(ws: Seq<i32>, roll: int) -> Option<int>
    decreases ws.len(),
{
    if ws.len() == 0 {
        None
    } else if roll < ws[0] {
        Some(0)
    } else {
        match pick_from(ws.drop_first(), roll - ws[0]) {
            Some(i) => Some(i + 1),
            None => None,
        }
    }
}

/// The winning index for a roll: the slice it lands on, or 0 when it lands
/// on none.
pub open spec fn won_index(ws: Seq<i32>, roll: int) -> int {
    match pick_from(ws, roll) {
        Some(i) => i,
        None => 0,
    }
}

pub open spec fn shifted(o: Option<int>, k: int) -> Option<int> {
    match o {
        Some(i) => Some(i + k),
        None => None,
    }
}

/// Sum of all weights, computed without overflow.
pub fn total_weight(weights: &Vec<i32>) -> (r: i128)
    ensures
        r == weight_sum(weights@),
{
    let mut total: i128 = 0;
    let mut i: usize = 0;
    while i < weights.len()
        invariant
            0 <= i <= weights@.len(),
            total == weight_sum(weights@.take(i as int)),
            -(i as int) * 2147483648 <= total <= (i as int) * 2147483647,
        decreases weights@.len() - i,
    {
        assert(weights@.take(i + 1).drop_last() == weights@.take(i as int));
        total = total + weights[i] as i128;
        i = i + 1;
    }
    assert(weights@.take(weights@.len() as int) == weights@);
    total
}

/// The winning index for `roll`, walking the weights as a spin does.
pub fn pick_weighted(weights: &Vec<i32>, roll: i64) -> (r: usize)
    ensures
        r == won_index(weights@, roll as int),
{
    let mut cur: i128 = roll as i128;
    let mut i: usize = 0;
    assert(weights@.skip(0) == weights@);
    while i < weights.len()
        invariant
            0 <= i <= weights@.len(),
            pick_from(weights@, roll as int) == shifted(pick_from(weights@.skip(i as int), cur as int), i as int),
            -0x8000_0000_0000_0000 - (i as int) * 2147483647 <= cur <= 0x7fff_ffff_ffff_ffff + (i as int) * 2147483648,
        decreases weights@.len() - i,
    {
        let w = weights[i] as i128;
        assert(weights@.skip(i as int)[0] == weights@[i as int]);
        assert(weights@.skip(i as int).drop_first() == weights@.skip(i + 1));
        if cur < w {
            return i;
        }
        cur = cur - w;
        i = i + 1;
    }
    0
}

/// Calls `rand::thread_rng().gen_range(0..bound)`: a value drawn from
/// `0..bound`. `gen_range` panics on an empty range, hence `bound > 0`.
#[verifier::external_body]
fn random_below(bound: i64) -> (r: i64)
    requires
        bound > 0,
    ensures
        0 <= r < bound,
{
    rand::thread_rng().gen_range(0..bound)
}

/// Draws the winning slice of a spin: a roll uniform over `0..total weight`
/// picked through the weights. An empty wheel cannot be spun.
pub fn pick_prize(weights: &Vec<i32>) -> (r: Result<usize, SpinError>)
    requires
        weight_sum(weights@) <= i64::MAX,
        weights@.len() > 0 ==> weight_sum(weights@) > 0,
    ensures
        weights@.len() == 0 ==> r == Err::<usize, SpinError>(SpinError::WheelEmpty),
        weights@.len() > 0 ==> (r matches Ok(i) && i < weights@.len() && exists|roll: int|
            0 <= roll < weight_sum(weights@) && i == won_index(weights@, roll)),
{
    if weights.len() == 0 {
        return Err(SpinError::WheelEmpty);
    }
    let total = total_weight(weights);
    let roll = random_below(total as i64);
    let i = pick_weighted(weights, roll);
    proof {
        lemma_pick_bounded(weights@, roll as int);
    }
    Ok(i)
}

/// A landed slice is a slice of the wheel.
pub proof fn lemma_pick_bounded(ws: Seq<i32>, roll: int)
    ensures
        pick_from(ws, roll) matches Some(i) ==> 0 <= i < ws.len(),
        ws.len() > 0 ==> 0 <= won_index(ws, roll) < ws.len(),
    decreases ws.len(),
{
    if ws.len() > 0 && roll >= ws[0] {
        lemma_pick_bounded(ws.drop_first(), roll - ws[0]);
    }
}

/// Checks a replacement wheel: at least one item, every weight at least 1,
/// every reward a valid grant list (`rewards_valid[i]` for item `i`).
pub fn check_wheel(weights: &Vec<i32>, rewards_valid: &Vec<bool>) -> (r: Result<(), Rejection>)
    requires
        weights@.len() == rewards_valid@.len(),
    ensures
        r is Ok <==> (weights@.len() > 0 && forall|i: int| 0 <= i < weights@.len() ==> #[trigger] weights@[i] >= 1 && rewards_valid@[i]),
        r is Err ==> r == Err::<(), Rejection>(Rejection::BadRequest),
{
    if weights.len() == 0 {
        return Err(Rejection::BadRequest);
    }
    let mut i: usize = 0;
    while i < weights.len()
        invariant
            weights@.len() == rewards_valid@.len(),
            0 <= i <= weights@.len(),
            forall|j: int| 0 <= j < i ==> #[trigger] weights@[j] >= 1 && rewards_valid@[j],
        decreases weights@.len() - i,
    {
        if weights[i] < 1 || !rewards_valid[i] {
            assert(!(weights@[i as int] >= 1 && rewards_valid@[i as int]));
            return Err(Rejection::BadRequest);
        }
        i = i + 1;
    }
    Ok(())
}

/// The sum splits off its first weight.
pub proof fn lemma_sum_front(ws: Seq<i32>)
    requires
        ws.len() > 0,
    ensures
        weight_sum(ws) == ws[0] + weight_sum(ws.drop_first()),
    decreases ws.len(),
{
    if ws.len() > 1 {
        let d = ws.drop_last();
        lemma_sum_front(d);
        assert(d.drop_first() == ws.drop_first().drop_last());
        assert(ws.drop_first().last() == ws.last());
        assert(d[0] == ws[0]);
        assert(weight_sum(ws) == weight_sum(d) + ws.last());
        assert(weight_sum(ws.drop_first()) == weight_sum(ws.drop_first().drop_last()) + ws.drop_first().last());
    } else {
        assert(ws.drop_last().len() == 0);
        assert(ws.drop_first().len() == 0);
        assert(weight_sum(ws.drop_last()) == 0);
        assert(weight_sum(ws.drop_first()) == 0);
        assert(ws.last() == ws[0]);
    }
}

/// Each prefix sum adds the next weight.
pub proof fn lemma_prefix_step(ws: Seq<i32>, k: int)
    requires
        0 <= k < ws.len(),
    ensures
        prefix_sum(ws, k + 1) == prefix_sum(ws, k) + ws[k],
{
    assert(ws.take(k + 1).drop_last() == ws.take(k));
    assert(ws.take(k + 1).last() == ws[k]);
}

/// With positive weights, prefix sums strictly increase.
pub proof fn lemma_prefix_increasing(ws: Seq<i32>, a: int, b: int)
    requires
        0 <= a < b <= ws.len(),
        forall|j: int| 0 <= j < ws.len() ==> #[trigger] ws[j] > 0,
    ensures
        prefix_sum(ws, a) < prefix_sum(ws, b),
    decreases b - a,
{
    lemma_prefix_step(ws, b - 1);
    if a < b - 1 {
        lemma_prefix_increasing(ws, a, b - 1);
    }
}

/// With positive weights, a roll below the total lands on the slice whose
/// band of prefix sums holds it.
pub proof fn lemma_pick_in_band(ws: Seq<i32>, roll: int)
    requires
        forall|j: int| 0 <= j < ws.len() ==> #[trigger] ws[j] > 0,
        0 <= roll < weight_sum(ws),
    ensures
        pick_from(ws, roll) matches Some(i) && 0 <= i < ws.len()
            && prefix_sum(ws, i) <= roll < prefix_sum(ws, i + 1),
    decreases ws.len(),
{
    if ws.len() == 0 {
        assert(false);
    } else if roll < ws[0] {
        assert(ws.take(0).len() == 0);
        lemma_prefix_step(ws, 0);
    } else {
        let rest = ws.drop_first();
        lemma_sum_front(ws);
        assert forall|j: int| 0 <= j < rest.len() implies #[trigger] rest[j] > 0 by {
            assert(rest[j] == ws[j + 1]);
        }
        lemma_pick_in_band(rest, roll - ws[0]);
        let j = pick_from(rest, roll - ws[0])->0;
        lemma_sum_front(ws.take(j + 1));
        assert(ws.take(j + 1).drop_first() == rest.take(j));
        lemma_sum_front(ws.take(j + 2));
        assert(ws.take(j + 2).drop_first() == rest.take(j + 1));
    }
}

/// The wheel's fairness law: with positive weights, a roll in `0..total`
/// wins slice `i` exactly when it falls in `i`'s band
/// `prefix_sum(i) .. prefix_sum(i + 1)`, whose width is the weight of `i`.
pub proof fn law_wheel_band(ws: Seq<i32>, roll: int, i: int)
    requires
        forall|j: int| 0 <= j < ws.len() ==> #[trigger] ws[j] > 0,
        0 <= roll < weight_sum(ws),
        0 <= i < ws.len(),
    ensures
        won_index(ws, roll) == i <==> prefix_sum(ws, i) <= roll < prefix_sum(ws, i + 1),
        prefix_sum(ws, i + 1) - prefix_sum(ws, i) == ws[i],
{
    lemma_pick_in_band(ws, roll);
    lemma_prefix_step(ws, i);
    let w = won_index(ws, roll);
    if w < i {
        lemma_prefix_increasing(ws, w + 1, i + 1);
        if w + 1 < i {
            lemma_prefix_increasing(ws, w + 1, i);
        }
    } else if w > i {
        lemma_prefix_increasing(ws, i + 1, w + 1);
        if i + 1 < w {
            lemma_prefix_increasing(ws, i + 1, w);
        }
    }
}

/// Each user's spin cooldown lives under a key of its own: two users never
/// share one, so clearing one user's cooldown leaves every other's in place.
pub proof fn law_cooldown_key_per_user(a: u128, b: u128)
    requires
        a != b,
    ensures
        "prize_wheel:cooldown:"@ + uuid_text(a) != "prize_wheel:cooldown:"@ + uuid_text(b),
{
    law_prefixed_ids_distinct("prize_wheel:cooldown:"@, a, b);
}



/// The cooldown a user is told about: with a cache TTL of `ttl` seconds left
/// they must wait exactly that long; a missing key or one without expiry
/// (a negative TTL) means no wait.
pub proof fn law_cooldown_wait(ttl: i64)
    ensures
        ttl >= 0 ==> spec_retry_after(ttl) == ttl,
        ttl < 0 ==> spec_retry_after(ttl) == 0,
        spec_retry_after(ttl) >= 0,
{
}

} // verus!
