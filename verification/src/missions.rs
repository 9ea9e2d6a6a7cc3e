//! Mission rules: which events advance which missions, by how much, and
//! which mission definitions an administrator may save.
use vstd::prelude::*;
use vstd::string::*;
use crate::ids::{parse_uuid, uuid_parse};
use crate::json::JsonValue;
use crate::names::{is_wallet_currency, spec_wallet_currency};
use crate::status::Rejection;
use crate::text::{str_eq, trim, trim_seq};

verus! {

/// Whether a new mission is active unless set.
pub fn default_true() -> (r: bool)
    ensures
        r,
{
    true
}

/// The kinds of event a mission can count.
#[derive(PartialEq, Eq, Structural, Clone, Copy, Debug)]
pub enum MissionTriggerEvent {
    RunCompleted,
    CurrencyCollected,
    StorePurchase,
    CharacterLevelUp,
}

/// The stored name of a trigger.
pub open spec fn trigger_name(t: MissionTriggerEvent) -> Seq<char> {
    match t {
        MissionTriggerEvent::RunCompleted => "run_completed"@,
        MissionTriggerEvent::CurrencyCollected => "currency_collected"@,
        MissionTriggerEvent::StorePurchase => "store_purchase"@,
        MissionTriggerEvent::CharacterLevelUp => "character_level_up"@,
    }
}

/// The trigger a stored name denotes.
pub open spec fn trigger_named(s: Seq<char>) -> Option<MissionTriggerEvent> {
    if s == "run_completed"@ {
        Some(MissionTriggerEvent::RunCompleted)
    } else if s == "currency_collected"@ {
        Some(MissionTriggerEvent::CurrencyCollected)
    } else if s == "store_purchase"@ {
        Some(MissionTriggerEvent::StorePurchase)
    } else if s == "character_level_up"@ {
        Some(MissionTriggerEvent::CharacterLevelUp)
    } else {
        None
    }
}

impl MissionTriggerEvent {
    pub fn as_str(&self) -> (r: &'static str)
        ensures
            r@ == trigger_name(*self),
    {
        match self {
            MissionTriggerEvent::RunCompleted => "run_completed",
            MissionTriggerEvent::CurrencyCollected => "currency_collected",
            MissionTriggerEvent::StorePurchase => "store_purchase",
            MissionTriggerEvent::CharacterLevelUp => "character_level_up",
        }
    }

    pub fn parse(s: &str) -> (r: Option<MissionTriggerEvent>)
        ensures
            r == trigger_named(s@),
    {
        if str_eq(s, "run_completed") {
            Some(MissionTriggerEvent::RunCompleted)
        } else if str_eq(s, "currency_collected") {
            Some(MissionTriggerEvent::CurrencyCollected)
        } else if str_eq(s, "store_purchase") {
            Some(MissionTriggerEvent::StorePurchase)
        } else if str_eq(s, "character_level_up") {
            Some(MissionTriggerEvent::CharacterLevelUp)
        } else {
            None
        }
    }
}

/// Something a player did that missions may count.
pub enum MissionEvent {
    RunCompleted,
    CurrencyCollected { currency: String, amount: i64 },
    StorePurchase { item_type: String },
    CharacterLevelUp { character_id: u128, level: i32 },
}

pub open spec fn spec_trigger(e: MissionEvent) -> MissionTriggerEvent {
    match e {
        MissionEvent::RunCompleted => MissionTriggerEvent::RunCompleted,
        MissionEvent::CurrencyCollected { .. } => MissionTriggerEvent::CurrencyCollected,
        MissionEvent::StorePurchase { .. } => MissionTriggerEvent::StorePurchase,
        MissionEvent::CharacterLevelUp { .. } => MissionTriggerEvent::CharacterLevelUp,
    }
}

impl MissionEvent {
    /// The trigger kind of this event.
    pub fn trigger(&self) -> (r: MissionTriggerEvent)
        ensures
            r == spec_trigger(*self),
    {
        match self {
            MissionEvent::RunCompleted => MissionTriggerEvent::RunCompleted,
            MissionEvent::CurrencyCollected { .. } => MissionTriggerEvent::CurrencyCollected,
            MissionEvent::StorePurchase { .. } => MissionTriggerEvent::StorePurchase,
            MissionEvent::CharacterLevelUp { .. } => MissionTriggerEvent::CharacterLevelUp,
        }
    }
}

/// The level a level-up mission asks for: its `level`, or 1.
pub open spec fn target_level(target: JsonValue) -> i64 {
    match target.i64_field("level"@) {
        Some(l) => l,
        None => 1,
    }
}

/// How a level-up event counts, once the mission's `character_id` has been
/// parsed (`None` when missing or not a UUID): it counts 1 when it names
/// the same character and reaches the mission's level.
pub open spec fn spec_level_up_credit(target_character: Option<u128>, character_id: u128, level: i32, wanted: i64) -> (bool, i64) {
    if target_character == Some(character_id) && level >= wanted {
        (true, 1)
    } else {
        (false, 0)
    }
}

pub fn level_up_credit(target_character: Option<u128>, character_id: u128, level: i32, wanted: i64) -> (r: (bool, i64))
    ensures
        r == spec_level_up_credit(target_character, character_id, level, wanted),
{
    match target_character {
        Some(c) if c == character_id => {
            if level as i64 >= wanted {
                (true, 1)
            } else {
                (false, 0)
            }
        },
        _ => (false, 0),
    }
}

/// Whether `event` counts toward a mission with target `target`, and by how
/// much.
pub open spec fn spec_match_event(event: MissionEvent, target: JsonValue) -> (bool, i64) {
    match event {
        MissionEvent::RunCompleted => (true, 1),
        MissionEvent::CurrencyCollected { currency, amount } => {
            match target.str_field("currency"@) {
                Some(c) => if c == currency@ {
                    (true, amount)
                } else {
                    (false, 0)
                },
                None => (false, 0),
            }
        },
        MissionEvent::StorePurchase { item_type } => {
            match target.str_field("item_type"@) {
                None => (true, 1),
                Some(t) => if t.len() == 0 || t == item_type@ {
                    (true, 1)
                } else {
                    (false, 0)
                },
            }
        },
        MissionEvent::CharacterLevelUp { character_id, level } => {
            match target.str_field("character_id"@) {
                Some(s) => spec_level_up_credit(uuid_parse(s), character_id, level, target_level(target)),
                None => (false, 0),
            }
        },
    }
}

/// Whether `event` counts toward a mission with target `target`, and by how
/// much: a run counts 1; collected currency counts its amount when the
/// target names that currency; a purchase counts 1 when the target names no
/// item type (or an empty one) or that item type; a level-up counts 1 when
/// it is the target's character at or above the target's level.
pub fn match_event(event: &MissionEvent, target: &JsonValue) -> (r: (bool, i64))
    ensures
        r == spec_match_event(*event, *target),
{
    match event {
        MissionEvent::RunCompleted => (true, 1),
        MissionEvent::CurrencyCollected { currency, amount } => {
            match target.get_str("currency") {
                Some(c) => if str_eq(c, currency.as_str()) {
                    (true, *amount)
                } else {
                    (false, 0)
                },
                None => (false, 0),
            }
        },
        MissionEvent::StorePurchase { item_type } => {
            match target.get_str("item_type") {
                None => (true, 1),
                Some(t) => if t.is_empty() || str_eq(t, item_type.as_str()) {
                    (true, 1)
                } else {
                    (false, 0)
                },
            }
        },
        MissionEvent::CharacterLevelUp { character_id, level } => {
            let wanted = match target.get_i64("level") {
                Some(l) => l,
                None => 1,
            };
            match target.get_str("character_id") {
                Some(s) => level_up_credit(parse_uuid(s), *character_id, *level, wanted),
                None => (false, 0),
            }
        },
    }
}

/// The progress at which a mission completes: its `amount`, at least 1.
pub open spec fn spec_target_cap(target: JsonValue) -> i64 {
    match target.i64_field("amount"@) {
        Some(a) => if a < 1 {
            1
        } else {
            a
        },
        None => 1,
    }
}

/// The progress a mission's target asks for: its `amount`, at least 1.
pub fn target_amount(target: &JsonValue) -> (r: i64)
    ensures
        r == spec_target_cap(*target),
        r >= 1,
{
    let a = match target.get_i64("amount") {
        Some(a) => a,
        None => 1,
    };
    if a < 1 {
        1
    } else {
        a
    }
}

/// The progress at which a mission stops counting and completes, whatever
/// the event: the target's amount, at least 1.
pub fn target_cap(event: &MissionEvent, target: &JsonValue) -> (r: i64)
    ensures
        r == spec_target_cap(*target),
        r >= 1,
{
    target_amount(target)
}

/// A mission's progress row as read: progress and completion are 0 and
/// absent when the player has no row for the current cycle.
pub fn progress_or_new<T>(row: Option<(i64, Option<T>)>) -> (r: (i64, Option<T>))
    ensures
        r == match row {
            Some(p) => p,
            None => (0, None),
        },
{
    match row {
        Some(p) => p,
        None => (0, None),
    }
}

/// The credit an event adds: its amount, but never more than the cap.
pub open spec fn capped_credit(delta: int, cap: int) -> int {
    if delta < cap {
        delta
    } else {
        cap
    }
}

/// Progress after crediting `delta` to `old`: the capped credit is added and
/// the sum saturates at `cap`.
pub open spec fn capped_progress(old: int, delta: int, cap: int) -> int {
    if old + capped_credit(delta, cap) < cap {
        old + capped_credit(delta, cap)
    } else {
        cap
    }
}

/// A step of a mission's progress in one cycle: the new progress, the
/// smaller of `old + min(delta, cap)` and `cap`, and whether this step
/// completes the mission (the cap is reached and it had not completed
/// before).
pub open spec fn spec_next_progress(old: i64, delta: i64, cap: i64, was_completed: bool) -> (i64, bool) {
    let p = capped_progress(old as int, delta as int, cap as int);
    (p as i64, p >= cap && !was_completed)
}

/// Advances a mission's progress row by one credited event: the credit is
/// first held to the cap (a new row starts at that), then added to the old
/// progress, and the sum saturates at the cap; the mission completes now
/// exactly when that reaches the cap and it had no completion before. The
/// sum is formed in 128 bits, so no credit overflows it; the one demand is
/// that the new progress fits an `i64`, which only a negative old progress
/// and a negative credit together can break.
pub fn next_progress(old: i64, delta: i64, cap: i64, was_completed: bool) -> (r: (i64, bool))
    requires
        capped_progress(old as int, delta as int, cap as int) >= i64::MIN,
    ensures
        r == spec_next_progress(old, delta, cap, was_completed),
{
    let credit: i64 = if delta < cap {
        delta
    } else {
        cap
    };
    let sum: i128 = old as i128 + credit as i128;
    let p: i64 = if sum < cap as i128 {
        sum as i64
    } else {
        cap
    };
    (p, p >= cap && !was_completed)
}

/// For a progress that is not negative and a positive credit, holding the
/// credit to the cap changes nothing: the step gives the smaller of
/// `old + delta` and the cap.
pub proof fn law_step_is_least(old: int, delta: int, cap: int)
    requires
        0 <= old,
        0 < delta,
    ensures
        capped_progress(old, delta, cap) == if old + delta < cap {
            old + delta
        } else {
            cap
        },
{
}

/// How many times a mission completes while `deltas` are credited in turn to
/// progress `p`, `done` telling whether it had completed already this cycle.
pub open spec fn completions(p: int, done: bool, deltas: Seq<int>, cap: int) -> int
    decreases deltas.len(),
{
    if deltas.len() == 0 {
        0
    } else {
        let np = capped_progress(p, deltas[0], cap);
        let newly = np >= cap && !done;
        (if newly {
            1int
        } else {
            0int
        }) + completions(np, done || newly, deltas.drop_first(), cap)
    }
}

/// A mission completed this cycle never completes again in it.
proof fn lemma_no_completion_once_done(p: int, deltas: Seq<int>, cap: int)
    ensures
        completions(p, true, deltas, cap) == 0,
    decreases deltas.len(),
{
    if deltas.len() > 0 {
        lemma_no_completion_once_done(capped_progress(p, deltas[0], cap), deltas.drop_first(), cap);
    }
}

/// Within one cycle a mission completes, and so grants its XP, at most once,
/// whatever events are credited to it; once completed it never completes
/// again. Progress never passes the cap.
pub proof fn law_completes_once_per_cycle(p: int, done: bool, deltas: Seq<int>, cap: int)
    ensures
        0 <= completions(p, done, deltas, cap) <= 1,
        done ==> completions(p, done, deltas, cap) == 0,
        deltas.len() > 0 ==> capped_progress(p, deltas[0], cap) <= cap,
    decreases deltas.len(),
{
    if deltas.len() > 0 {
        let np = capped_progress(p, deltas[0], cap);
        let newly = np >= cap && !done;
        if newly || done {
            lemma_no_completion_once_done(np, deltas.drop_first(), cap);
        } else {
            law_completes_once_per_cycle(np, false, deltas.drop_first(), cap);
        }
    }
}

/// What an event adds to one mission: `Some((delta, cap))` when the event
/// counts a positive amount, where progress is then raised by `delta` and
/// saturates at `cap`; `None` when the mission is left alone.
pub fn mission_credit(event: &MissionEvent, target: &JsonValue) -> (r: Option<(i64, i64)>)
    ensures
        ({
            let (matched, delta) = spec_match_event(*event, *target);
            if matched && delta > 0 {
                r == Some((delta, spec_target_cap(*target)))
            } else {
                r is None
            }
        }),
{
    let (matched, delta) = match_event(event, target);
    if !matched || delta <= 0 {
        return None;
    }
    Some((delta, target_cap(event, target)))
}

/// Sum of the rewards of the missions an event just completed.
pub open spec fn spec_xp_granted(rewards: Seq<i64>, completed: Seq<bool>) -> int
    decreases rewards.len(),
{
    if rewards.len() == 0 {
        0
    } else {
        spec_xp_granted(rewards.drop_last(), completed.drop_last()) + if completed.last() {
            rewards.last() as int
        } else {
            0
        }
    }
}

/// The experience an event grants: the rewards of the missions it completed
/// (`completed[i]` for mission `i`), added up.
pub fn xp_granted(rewards: &Vec<i64>, completed: &Vec<bool>) -> (r: i64)
    requires
        rewards@.len() == completed@.len(),
        forall|i: int| 0 <= i <= rewards@.len() ==> i64::MIN <= #[trigger] spec_xp_granted(rewards@.take(i), completed@.take(i)) <= i64::MAX,
    ensures
        r == spec_xp_granted(rewards@, completed@),
{
    let mut total: i64 = 0;
    let mut i: usize = 0;
    while i < rewards.len()
        invariant
            rewards@.len() == completed@.len(),
            0 <= i <= rewards@.len(),
            forall|k: int| 0 <= k <= rewards@.len() ==> i64::MIN <= #[trigger] spec_xp_granted(rewards@.take(k), completed@.take(k)) <= i64::MAX,
            total == spec_xp_granted(rewards@.take(i as int), completed@.take(i as int)),
        decreases rewards@.len() - i,
    {
        assert(rewards@.take(i + 1).drop_last() == rewards@.take(i as int));
        assert(completed@.take(i + 1).drop_last() == completed@.take(i as int));
        assert(spec_xp_granted(rewards@.take(i + 1), completed@.take(i + 1)) >= i64::MIN);
        if completed[i] {
            total = total + rewards[i];
        }
        i = i + 1;
    }
    assert(rewards@.take(rewards@.len() as int) == rewards@);
    assert(completed@.take(completed@.len() as int) == completed@);
    total
}

/// A mission target's `amount` is a positive integer.
pub open spec fn amount_ok(target: JsonValue) -> bool {
    target.i64_field("amount"@) matches Some(a) && a > 0
}

/// Whether an administrator may save `target` for a mission of trigger
/// `event`. `item_type_known` tells whether the target's `item_type`, when
/// it has one, names a store item type.
pub open spec fn spec_target_valid(event: MissionTriggerEvent, target: JsonValue, item_type_known: bool) -> bool {
    &&& target is Object
    &&& match event {
        MissionTriggerEvent::RunCompleted => amount_ok(target),
        MissionTriggerEvent::CurrencyCollected => {
            spec_wallet_currency(
                match target.str_field("currency"@) {
                    Some(c) => c,
                    None => ""@,
                },
            ) && amount_ok(target)
        },
        MissionTriggerEvent::StorePurchase => amount_ok(target) && match target.str_field(
            "item_type"@,
        ) {
            Some(t) => item_type_known,
            None => true,
        },
        MissionTriggerEvent::CharacterLevelUp => {
            &&& match target.str_field("character_id"@) {
                Some(c) => uuid_parse(c) is Some,
                None => false,
            }
            &&& ({
                let l = match target.i64_field("level"@) {
                    Some(l) => l,
                    None => 0,
                };
                1 <= l <= 20
            })
        },
    }
}

fn amount_is_positive(target: &JsonValue) -> (r: bool)
    ensures
        r == amount_ok(*target),
{
    match target.get_i64("amount") {
        Some(a) => a > 0,
        None => false,
    }
}

/// The `item_type` of a purchase target, which the caller classifies
/// against the store's item types before `validate_target`.
pub fn target_item_type(target: &JsonValue) -> (r: Option<&str>)
    ensures
        match r {
            Some(s) => target.str_field("item_type"@) == Some(s@),
            None => target.str_field("item_type"@) is None,
        },
{
    target.get_str("item_type")
}

/// Checks a mission target against its trigger's shape: a run needs a
/// positive `amount`; collected currency a wallet `currency` and a positive
/// `amount`; a purchase a positive `amount` and, if given, a known
/// `item_type` (`item_type_known`); a level-up a UUID `character_id` and a
/// `level` in 1..=20.
pub fn validate_target(event: MissionTriggerEvent, target: &JsonValue, item_type_known: bool) -> (r: Result<(), Rejection>)
    ensures
        r is Ok <==> spec_target_valid(event, *target, item_type_known),
        r is Err ==> r == Err::<(), Rejection>(Rejection::BadRequest),
{
    if !target.is_object() {
        return Err(Rejection::BadRequest);
    }
    match event {
        MissionTriggerEvent::RunCompleted => {
            if !amount_is_positive(target) {
                return Err(Rejection::BadRequest);
            }
        },
        MissionTriggerEvent::CurrencyCollected => {
            let cur = match target.get_str("currency") {
                Some(c) => c,
                None => "",
            };
            if !is_wallet_currency(cur) {
                return Err(Rejection::BadRequest);
            }
            if !amount_is_positive(target) {
                return Err(Rejection::BadRequest);
            }
        },
        MissionTriggerEvent::StorePurchase => {
            if !amount_is_positive(target) {
                return Err(Rejection::BadRequest);
            }
            if target.get_str("item_type").is_some() && !item_type_known {
                return Err(Rejection::BadRequest);
            }
        },
        MissionTriggerEvent::CharacterLevelUp => {
            proof {
                reveal_strlit("");
            }
            let cid = match target.get_str("character_id") {
                Some(c) => c,
                None => "",
            };
            if parse_uuid(cid).is_none() {
                return Err(Rejection::BadRequest);
            }
            let lvl = match target.get_i64("level") {
                Some(l) => l,
                None => 0,
            };
            if !(1 <= lvl && lvl <= 20) {
                return Err(Rejection::BadRequest);
            }
        },
    }
    Ok(())
}

/// Whether a new mission may be saved: a name that is not blank, a positive
/// reward, a known cycle (`cycle_known`), a known trigger and a target of
/// the trigger's shape.
pub open spec fn spec_new_mission_ok(
    name: Seq<char>,
    xp_reward: i64,
    cycle_known: bool,
    trigger: Seq<char>,
    target: JsonValue,
    item_type_known: bool,
) -> bool {
    &&& trim_seq(name).len() > 0
    &&& xp_reward > 0
    &&& cycle_known
    &&& trigger_named(trigger) matches Some(t) && spec_target_valid(t, target, item_type_known)
}

/// Checks a new mission; on success gives its trigger.
pub fn check_new_mission(
    name: &str,
    xp_reward: i64,
    cycle_known: bool,
    trigger_event: &str,
    target: &JsonValue,
    item_type_known: bool,
) -> (r: Result<MissionTriggerEvent, Rejection>)
    ensures
        r is Ok <==> spec_new_mission_ok(name@, xp_reward, cycle_known, trigger_event@, *target, item_type_known),
        r matches Ok(t) ==> trigger_named(trigger_event@) == Some(t),
        r is Err ==> r == Err::<MissionTriggerEvent, Rejection>(Rejection::BadRequest),
{
    if trim(name).is_empty() || xp_reward <= 0 {
        return Err(Rejection::BadRequest);
    }
    if !cycle_known {
        return Err(Rejection::BadRequest);
    }
    let trigger = match MissionTriggerEvent::parse(trigger_event) {
        Some(t) => t,
        None => return Err(Rejection::BadRequest),
    };
    validate_target(trigger, target, item_type_known)?;
    Ok(trigger)
}

/// Whether the plain fields of a mission update may be applied: a given name
/// is not blank, a given reward is positive, a given cycle is known
/// (`cycle_known`, `None` when no cycle is given) and a given trigger is known.
pub open spec fn spec_update_fields_ok(
    name: Option<Seq<char>>,
    xp_reward: Option<i64>,
    cycle_known: Option<bool>,
    trigger: Option<Seq<char>>,
) -> bool {
    &&& (name matches Some(n) ==> trim_seq(n).len() > 0)
    &&& (xp_reward matches Some(x) ==> x > 0)
    &&& cycle_known != Some(false)
    &&& (trigger matches Some(t) ==> trigger_named(t) is Some)
}

/// Checks the plain fields of a mission update; on success gives the new
/// trigger, if one was given.
pub fn check_mission_update(
    name: Option<&str>,
    xp_reward: Option<i64>,
    cycle_known: Option<bool>,
    trigger_event: Option<&str>,
) -> (r: Result<Option<MissionTriggerEvent>, Rejection>)
    ensures
        r is Ok <==> spec_update_fields_ok(
            match name { Some(n) => Some(n@), None => None },
            xp_reward,
            cycle_known,
            match trigger_event { Some(t) => Some(t@), None => None },
        ),
        r matches Ok(t) ==> t == match trigger_event {
            Some(s) => trigger_named(s@),
            None => None,
        },
        r is Err ==> r == Err::<Option<MissionTriggerEvent>, Rejection>(Rejection::BadRequest),
{
    if let Some(n) = name {
        if trim(n).is_empty() {
            return Err(Rejection::BadRequest);
        }
    }
    if let Some(x) = xp_reward {
        if x <= 0 {
            return Err(Rejection::BadRequest);
        }
    }
    if cycle_known == Some(false) {
        return Err(Rejection::BadRequest);
    }
    match trigger_event {
        Some(t) => match MissionTriggerEvent::parse(t) {
            Some(tr) => Ok(Some(tr)),
            None => Err(Rejection::BadRequest),
        },
        None => Ok(None),
    }
}

/// The trigger an updated target is checked against: the one the update
/// sets, else the stored one. `stored` is the mission's stored trigger name
/// (`None` when the mission does not exist); a stored name that is not a
/// trigger is a server fault.
pub fn target_trigger(requested: Option<MissionTriggerEvent>, stored: Option<&str>) -> (r: Result<MissionTriggerEvent, Rejection>)
    ensures
        requested matches Some(t) ==> r == Ok::<MissionTriggerEvent, Rejection>(t),
        requested is None ==> match stored {
            None => r == Err::<MissionTriggerEvent, Rejection>(Rejection::NotFound),
            Some(s) => match trigger_named(s@) {
                Some(t) => r == Ok::<MissionTriggerEvent, Rejection>(t),
                None => r == Err::<MissionTriggerEvent, Rejection>(Rejection::Internal),
            },
        },
{
    match requested {
        Some(t) => Ok(t),
        None => match stored {
            None => Err(Rejection::NotFound),
            Some(s) => match MissionTriggerEvent::parse(s) {
                Some(t) => Ok(t),
                None => Err(Rejection::Internal),
            },
        },
    }
}


/// The level-up credit rule: a level-up of the mission's own character at or
/// above the wanted level counts 1; a lower level, another character, or a
/// mission whose character id does not parse counts nothing.
pub proof fn law_level_up_credit(c: u128, other: u128, level: i32, wanted: i64)
    requires
        other != c,
    ensures
        level as int >= wanted as int ==> spec_level_up_credit(Some(c), c, level, wanted) == (true, 1i64),
        (level as int) < wanted as int ==> spec_level_up_credit(Some(c), c, level, wanted) == (false, 0i64),
        spec_level_up_credit(Some(other), c, level, wanted) == (false, 0i64),
        spec_level_up_credit(None, c, level, wanted) == (false, 0i64),
{
}

/// What each event counts toward a mission, in terms of the target's fields:
/// a run counts 1; collected currency counts its amount toward a mission on
/// that currency and nothing toward another; a purchase counts 1 toward a
/// mission with no item type, an empty one or the purchased one, and nothing
/// toward another; a level-up of the target's character at or above the
/// target's `level` (1 when absent) counts 1, a lower one nothing.
pub proof fn law_event_counts(target: JsonValue, currency: String, amount: i64, item_type: String, c: u128, level: i32)
    ensures
        spec_match_event(MissionEvent::RunCompleted, target) == (true, 1i64),
        target.str_field("currency"@) == Some(currency@)
            ==> spec_match_event(MissionEvent::CurrencyCollected { currency, amount }, target) == (true, amount),
        target.str_field("currency"@) != Some(currency@)
            ==> spec_match_event(MissionEvent::CurrencyCollected { currency, amount }, target).0 == false,
        (target.str_field("item_type"@) is None || target.str_field("item_type"@) == Some(Seq::<char>::empty())
            || target.str_field("item_type"@) == Some(item_type@))
            ==> spec_match_event(MissionEvent::StorePurchase { item_type }, target) == (true, 1i64),
        (target.str_field("item_type"@) matches Some(t) && t.len() > 0 && t != item_type@)
            ==> spec_match_event(MissionEvent::StorePurchase { item_type }, target) == (false, 0i64),
        (target.str_field("character_id"@) matches Some(t) && uuid_parse(t) == Some(c)) ==> {
            let wanted: int = match target.i64_field("level"@) {
                Some(l) => l as int,
                None => 1,
            };
            &&& level as int >= wanted ==> spec_match_event(MissionEvent::CharacterLevelUp { character_id: c, level }, target) == (true, 1i64)
            &&& (level as int) < wanted ==> spec_match_event(MissionEvent::CharacterLevelUp { character_id: c, level }, target) == (false, 0i64)
        },
        target.str_field("character_id"@) is None
            ==> spec_match_event(MissionEvent::CharacterLevelUp { character_id: c, level }, target) == (false, 0i64),
{
}

/// What an administrator may save, in terms of the target's fields: the
/// target is an object; a run, currency or purchase mission has an integer
/// `amount` above 0; a currency mission names `high`, `soft` or `energy`; a
/// purchase mission's `item_type`, when given, is a known one; a level-up
/// mission names a character id that parses and a `level` from 1 to 20.
/// Conversely every such target is accepted.
pub proof fn law_valid_targets(event: MissionTriggerEvent, target: JsonValue, item_type_known: bool)
    ensures
        spec_target_valid(event, target, item_type_known) ==> target is Object,
        spec_target_valid(event, target, item_type_known) && event != MissionTriggerEvent::CharacterLevelUp
            ==> (target.i64_field("amount"@) matches Some(a) && a > 0),
        spec_target_valid(event, target, item_type_known) && event == MissionTriggerEvent::CurrencyCollected
            ==> (target.str_field("currency"@) matches Some(cur) && (cur == "high"@ || cur == "soft"@ || cur == "energy"@)),
        spec_target_valid(event, target, item_type_known) && event == MissionTriggerEvent::StorePurchase
            && target.str_field("item_type"@) is Some ==> item_type_known,
        spec_target_valid(event, target, item_type_known) && event == MissionTriggerEvent::CharacterLevelUp
            ==> (target.str_field("character_id"@) matches Some(t) && uuid_parse(t) is Some)
                && (target.i64_field("level"@) matches Some(l) && 1 <= l <= 20),
        (target is Object && (target.i64_field("amount"@) matches Some(a) && a > 0))
            ==> spec_target_valid(MissionTriggerEvent::RunCompleted, target, item_type_known),
        (target is Object && (target.i64_field("amount"@) matches Some(a) && a > 0)
            && (target.str_field("currency"@) matches Some(cur) && (cur == "high"@ || cur == "soft"@ || cur == "energy"@)))
            ==> spec_target_valid(MissionTriggerEvent::CurrencyCollected, target, item_type_known),
        (target is Object && (target.i64_field("amount"@) matches Some(a) && a > 0)
            && (target.str_field("item_type"@) is None || item_type_known))
            ==> spec_target_valid(MissionTriggerEvent::StorePurchase, target, item_type_known),
        (target is Object && (target.str_field("character_id"@) matches Some(t) && uuid_parse(t) is Some)
            && (target.i64_field("level"@) matches Some(l) && 1 <= l <= 20))
            ==> spec_target_valid(MissionTriggerEvent::CharacterLevelUp, target, item_type_known),
{
    reveal_strlit("");
    reveal_strlit("high");
    reveal_strlit("soft");
    reveal_strlit("energy");
    if event == MissionTriggerEvent::CurrencyCollected && spec_target_valid(event, target, item_type_known) {
        let cur = match target.str_field("currency"@) {
            Some(c) => c,
            None => ""@,
        };
        assert(cur.len() > 0);
    }
}

/// The trigger names: each trigger is stored under its own name and read
/// back from it.
pub proof fn law_trigger_names(t: MissionTriggerEvent)
    ensures
        trigger_named(trigger_name(t)) == Some(t),
        trigger_named("run_completed"@) == Some(MissionTriggerEvent::RunCompleted),
        trigger_named("currency_collected"@) == Some(MissionTriggerEvent::CurrencyCollected),
        trigger_named("store_purchase"@) == Some(MissionTriggerEvent::StorePurchase),
        trigger_named("character_level_up"@) == Some(MissionTriggerEvent::CharacterLevelUp),
{
    reveal_strlit("run_completed");
    reveal_strlit("currency_collected");
    reveal_strlit("store_purchase");
    reveal_strlit("character_level_up");
    assert("currency_collected"@.len() != "run_completed"@.len());
    assert("store_purchase"@.len() != "run_completed"@.len());
    assert("store_purchase"@.len() != "currency_collected"@.len());
    assert("character_level_up"@.len() != "run_completed"@.len());
    assert("character_level_up"@.len() != "store_purchase"@.len());
    assert("character_level_up"@[1] != "currency_collected"@[1]);
}


/// The progress a mission completes at: its integer `amount` when that is at
/// least 1, and 1 otherwise (no amount, not an integer, or below 1).
pub proof fn law_completion_cap(target: JsonValue)
    ensures
        (target.i64_field("amount"@) matches Some(a) && a >= 1) ==> spec_target_cap(target) == target.i64_field("amount"@)->0,
        !(target.i64_field("amount"@) matches Some(a) && a >= 1) ==> spec_target_cap(target) == 1,
{
}

/// The XP an event grants grows by a mission's reward when that mission is
/// completed and by nothing when it is not; with no mission completed it
/// grants nothing.
pub proof fn law_xp_sums_completed(rewards: Seq<i64>, completed: Seq<bool>, reward: i64)
    requires
        rewards.len() == completed.len(),
    ensures
        spec_xp_granted(rewards.push(reward), completed.push(true)) == spec_xp_granted(rewards, completed) + reward,
        spec_xp_granted(rewards.push(reward), completed.push(false)) == spec_xp_granted(rewards, completed),
        (forall|i: int| 0 <= i < completed.len() ==> !#[trigger] completed[i]) ==> spec_xp_granted(rewards, completed) == 0,
    decreases rewards.len(),
{
    assert(rewards.push(reward).drop_last() == rewards);
    assert(completed.push(true).drop_last() == completed);
    assert(completed.push(false).drop_last() == completed);
    if rewards.len() > 0 && (forall|i: int| 0 <= i < completed.len() ==> !#[trigger] completed[i]) {
        let r = rewards.drop_last();
        let c = completed.drop_last();
        assert(rewards == r.push(rewards.last()));
        assert(completed == c.push(completed.last()));
        assert(!completed[completed.len() - 1]);
        assert forall|i: int| 0 <= i < c.len() implies !#[trigger] c[i] by {
            assert(c[i] == completed[i]);
        }
        law_xp_sums_completed(r, c, rewards.last());
    }
}


/// When a step completes a mission: from a progress below the cap, a
/// positive credit that brings the sum to the cap completes it (unless it
/// had completed already) and leaves the progress at the cap; one that falls
/// short leaves it incomplete, with the credit added.
pub proof fn law_step_completion(old: i64, delta: i64, cap: i64, was_completed: bool)
    requires
        0 <= old < cap,
        0 < delta,
    ensures
        old as int + delta as int >= cap as int && !was_completed ==> spec_next_progress(old, delta, cap, was_completed) == (cap, true),
        old as int + delta as int >= cap as int && was_completed ==> spec_next_progress(old, delta, cap, was_completed) == (cap, false),
        (old as int + delta as int) < cap as int ==> spec_next_progress(old, delta, cap, was_completed) == ((old + delta) as i64, false),
{
}

} // verus!
