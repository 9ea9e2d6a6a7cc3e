//! Battlepass rules: which tier rewards a player may claim, and premium unlock.
use vstd::prelude::*;
use vstd::string::*;
use crate::status::Rejection;
use crate::text::str_eq;

verus! {

/// The currency a season's premium track is priced in unless set.
pub fn default_high() -> (r: String)
    ensures
        r@ == "high"@,
{
    String::from_str("high")
}

/// The two reward tracks of a tier.
#[derive(PartialEq, Eq, Structural, Clone, Copy, Debug)]
pub enum Track {
    Free,
    Premium,
}

pub open spec fn track_named(s: Seq<char>) -> Option<Track> {
    if s == "free"@ {
        Some(Track::Free)
    } else if s == "premium"@ {
        Some(Track::Premium)
    } else {
        None
    }
}

/// The track a claim names: `free` or `premium`; anything else is refused.
pub fn parse_track(s: &str) -> (r: Result<Track, Rejection>)
    ensures
        match track_named(s@) {
            Some(t) => r == Ok::<Track, Rejection>(t),
            None => r == Err::<Track, Rejection>(Rejection::BadRequest),
        },
{
    if str_eq(s, "free") {
        Ok(Track::Free)
    } else if str_eq(s, "premium") {
        Ok(Track::Premium)
    } else {
        Err(Rejection::BadRequest)
    }
}

/// A row that must exist: its absence answers 404.
pub fn found<T>(row: Option<T>) -> (r: Result<T, Rejection>)
    ensures
        match row {
            Some(v) => r == Ok::<T, Rejection>(v),
            None => r == Err::<T, Rejection>(Rejection::NotFound),
        },
{
    match row {
        Some(v) => Ok(v),
        None => Err(Rejection::NotFound),
    }
}

/// A player's standing in a season; a player with no row has 0 XP and no
/// premium.
pub open spec fn standing(progress: Option<(i64, bool)>) -> (i64, bool) {
    match progress {
        Some(p) => p,
        None => (0, false),
    }
}

/// Whether a claim on a tier needing `xp_required` may proceed: the player
/// has at least that much battlepass XP (else 403), and a premium claim needs
/// premium unlocked (else 402).
pub fn check_claim(track: Track, xp_required: i64, progress: Option<(i64, bool)>) -> (r: Result<(), Rejection>)
    ensures
        standing(progress).0 < xp_required ==> r == Err::<(), Rejection>(Rejection::Forbidden),
        standing(progress).0 >= xp_required && track == Track::Premium && !standing(progress).1
            ==> r == Err::<(), Rejection>(Rejection::PaymentRequired),
        r is Ok <==> standing(progress).0 >= xp_required && (track == Track::Premium ==> standing(progress).1),
{
    let (bp_xp, premium_unlocked) = match progress {
        Some(p) => p,
        None => (0, false),
    };
    if bp_xp < xp_required {
        return Err(Rejection::Forbidden);
    }
    if track == Track::Premium && !premium_unlocked {
        return Err(Rejection::PaymentRequired);
    }
    Ok(())
}

/// The reward of the claimed track.
pub fn claim_reward<T>(track: Track, free_reward: T, premium_reward: T) -> (r: T)
    ensures
        r == if track == Track::Free {
            free_reward
        } else {
            premium_reward
        },
{
    match track {
        Track::Free => free_reward,
        Track::Premium => premium_reward,
    }
}

/// A claim row insert that touched nothing means the tier was claimed already.
pub fn claim_recorded(rows_affected: u64) -> (r: Result<(), Rejection>)
    ensures
        rows_affected == 0 ==> r == Err::<(), Rejection>(Rejection::Conflict),
        rows_affected > 0 ==> r is Ok,
{
    if rows_affected == 0 {
        Err(Rejection::Conflict)
    } else {
        Ok(())
    }
}

/// Premium is unlocked by flipping the flag from false; a flip that touched
/// nothing means it was unlocked already, and nothing is charged.
pub fn unlock_recorded(rows_affected: u64) -> (r: Result<(), Rejection>)
    ensures
        rows_affected == 0 ==> r == Err::<(), Rejection>(Rejection::Conflict),
        rows_affected > 0 ==> r is Ok,
{
    claim_recorded(rows_affected)
}

/// The wallet change an unlock makes: minus the premium cost when it is
/// positive, none otherwise (the reported balance is then 0).
pub fn unlock_charge(premium_cost: i64) -> (r: Option<i64>)
    ensures
        premium_cost > 0 ==> (r matches Some(d) && d == -premium_cost),
        premium_cost <= 0 ==> r is None,
{
    if premium_cost > 0 {
        Some(-premium_cost)
    } else {
        None
    }
}

/// The tiers claimed on the track named `track`, in claim order.
pub open spec fn claimed_on(claims: Seq<(i32, String)>, track: Seq<char>) -> Seq<i32>
    decreases claims.len(),
{
    if claims.len() == 0 {
        Seq::empty()
    } else {
        let rest = claimed_on(claims.drop_last(), track);
        if claims.last().1@ == track {
            rest.push(claims.last().0)
        } else {
            rest
        }
    }
}

/// A player's claims split by track: tiers claimed on `free`, then on
/// `premium`; claims on any other track are in neither.
pub fn split_claims(claims: &Vec<(i32, String)>) -> (r: (Vec<i32>, Vec<i32>))
    ensures
        r.0@ == claimed_on(claims@, "free"@),
        r.1@ == claimed_on(claims@, "premium"@),
{
    let mut free: Vec<i32> = Vec::new();
    let mut premium: Vec<i32> = Vec::new();
    let mut i: usize = 0;
    while i < claims.len()
        invariant
            0 <= i <= claims@.len(),
            free@ == claimed_on(claims@.take(i as int), "free"@),
            premium@ == claimed_on(claims@.take(i as int), "premium"@),
        decreases claims@.len() - i,
    {
        assert(claims@.take(i + 1).drop_last() == claims@.take(i as int));
        let (tier, track) = &claims[i];
        if str_eq(track.as_str(), "free") {
            free.push(*tier);
        }
        if str_eq(track.as_str(), "premium") {
            premium.push(*tier);
        }
        i = i + 1;
    }
    assert(claims@.take(claims@.len() as int) == claims@);
    (free, premium)
}

pub struct ClaimRequest {
    pub track: String,
}


/// The two claim tracks are read from their names, and no other name is a
/// track.
pub proof fn law_track_names(s: Seq<char>)
    ensures
        track_named("free"@) == Some(Track::Free),
        track_named("premium"@) == Some(Track::Premium),
        track_named(s) is Some <==> (s == "free"@ || s == "premium"@),
{
    reveal_strlit("free");
    reveal_strlit("premium");
    assert("free"@.len() != "premium"@.len());
}

/// A claim on a track adds its tier, last, to that track's list and leaves
/// the other track's list as it was.
pub proof fn law_claim_lists(claims: Seq<(i32, String)>, tier: i32, track: String)
    ensures
        track@ == "free"@ ==> claimed_on(claims.push((tier, track)), "free"@) == claimed_on(claims, "free"@).push(tier),
        track@ == "free"@ ==> claimed_on(claims.push((tier, track)), "premium"@) == claimed_on(claims, "premium"@),
        track@ == "premium"@ ==> claimed_on(claims.push((tier, track)), "premium"@) == claimed_on(claims, "premium"@).push(tier),
        track@ == "premium"@ ==> claimed_on(claims.push((tier, track)), "free"@) == claimed_on(claims, "free"@),
{
    reveal_strlit("free");
    reveal_strlit("premium");
    assert("free"@.len() != "premium"@.len());
    assert(claims.push((tier, track)).drop_last() == claims);
}

} // verus!
