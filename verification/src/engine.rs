//! The tick loop: heart decay, care and discipline deadlines, poop, sickness,
//! sleep, death and evolution.
use vstd::prelude::*;

use crate::characters::{stats_of, stats_valid, CharacterStats};
use crate::evolution::{check_evolution, evolution_step};
use crate::rng::chance;
use crate::state::{Character, LifeStage, PetState};
use crate::time::{div_toward_zero, in_range, nanos_per_hour, nanos_per_minute, nanos_per_sec, Timestamp};

verus! {

/// Minutes granted to answer a care call, a discipline call or bedtime.
pub const DEADLINE_MINUTES: i64 = 15;

/// `a - b`, or 0 where `b` exceeds `a`.
pub open spec fn sat_sub(a: u8, b: u8) -> u8 {
    if a >= b { (a - b) as u8 } else { 0 }
}

/// Whole minutes from `earlier` to `later`, rounded toward zero.
pub open spec fn minutes_between(later: Timestamp, earlier: Timestamp) -> int {
    div_toward_zero(later.instant() - earlier.instant(), nanos_per_minute())
}

/// Whole hours from `earlier` to `later`, rounded toward zero.
pub open spec fn hours_between(later: Timestamp, earlier: Timestamp) -> int {
    div_toward_zero(later.instant() - earlier.instant(), nanos_per_hour())
}

/// `a` is at or after `b`.
pub open spec fn not_before(a: Timestamp, b: Timestamp) -> bool {
    a.instant() >= b.instant()
}

/// Hour of the day (0–23) of `t`, in UTC.
pub open spec fn hour_of(t: Timestamp) -> int {
    (t.instant() / nanos_per_sec()) % 86400 / 3600
}

/// The deadline set at `now`: fifteen minutes later.
pub open spec fn deadline_from(now: Timestamp) -> Timestamp {
    now.later_by_minutes(15)
}

/// A deadline can be set at `now` without leaving the representable range.
pub open spec fn deadline_fits(now: Timestamp) -> bool {
    in_range(now.instant() + 15 * nanos_per_minute())
}

// ── Heart decay ─────────────────────────────────────────────────────────────

/// `level` less `lost`, or 0 where `lost` is as large.
pub open spec fn less_clamped(level: u8, lost: int) -> u8 {
    if lost >= level { 0 } else { (level - lost) as u8 }
}

/// A meter after `elapsed` minutes at one heart per `per_heart` minutes.
pub open spec fn drained(level: u8, elapsed: u16, per_heart: u16) -> u8 {
    less_clamped(level, (elapsed / per_heart) as int)
}

pub open spec fn decayed(s: PetState, st: CharacterStats, elapsed: u16, now: Timestamp) -> PetState {
    let hunger = drained(s.hunger, elapsed, st.hunger_decay_minutes);
    let happiness = drained(s.happiness, elapsed, st.happy_decay_minutes);
    PetState {
        hunger,
        happiness,
        pending_care_deadline: if (hunger == 0 || happiness == 0) && s.pending_care_deadline is None {
            Some(deadline_from(now))
        } else {
            s.pending_care_deadline
        },
        ..s
    }
}

pub open spec fn decay_fits(s: PetState, st: CharacterStats, elapsed: u16, now: Timestamp) -> bool {
    let hunger = drained(s.hunger, elapsed, st.hunger_decay_minutes);
    let happiness = drained(s.happiness, elapsed, st.happy_decay_minutes);
    (hunger == 0 || happiness == 0) && s.pending_care_deadline is None ==> deadline_fits(now)
}

/// Drains hunger by floor(elapsed / hunger_decay_minutes) and happiness by
/// floor(elapsed / happy_decay_minutes), each clamped at 0; where either meter is
/// then 0 and no care deadline is pending, sets one 15 minutes after `now`.
pub fn decay_hearts(state: &mut PetState, stats: &CharacterStats, elapsed_minutes: u16, now: Timestamp)
    requires
        stats.hunger_decay_minutes > 0,
        stats.happy_decay_minutes > 0,
        decay_fits(*old(state), *stats, elapsed_minutes, now),
    ensures
        *final(state) == decayed(*old(state), *stats, elapsed_minutes, now),
{
    let hunger_lost = elapsed_minutes / stats.hunger_decay_minutes;
    let happy_lost = elapsed_minutes / stats.happy_decay_minutes;

    state.hunger = if hunger_lost >= state.hunger as u16 { 0 } else { state.hunger - hunger_lost as u8 };
    state.happiness = if happy_lost >= state.happiness as u16 {
        0
    } else {
        state.happiness - happy_lost as u8
    };

    if (state.hunger == 0 || state.happiness == 0) && state.pending_care_deadline.is_none() {
        state.pending_care_deadline = Some(now.plus_minutes(DEADLINE_MINUTES));
    }
}

/// A meter and its carried minutes after `elapsed` more minutes at one heart per
/// `per_heart` minutes: the carried minutes count toward the next heart, and what
/// is left over after the hearts lost is carried on.
pub open spec fn drained_carry(level: u8, carry: u16, elapsed: int, per_heart: u16) -> (u8, u16) {
    let total = carry + elapsed;
    (less_clamped(level, total / (per_heart as int)), (total % (per_heart as int)) as u16)
}

/// The meter and carry after `elapsed` minutes, as `drained_carry` gives them.
pub fn drain_meter(level: u8, carry: u16, elapsed: i64, per_heart: u16) -> (r: (u8, u16))
    requires
        0 <= elapsed <= 1_000_000_000_000,
        per_heart > 0,
    ensures
        r == drained_carry(level, carry, elapsed as int, per_heart),
{
    let total: i64 = carry as i64 + elapsed;
    let lost: i64 = total / per_heart as i64;
    let left: i64 = total % per_heart as i64;
    let meter: u8 = if lost >= level as i64 { 0 } else { level - lost as u8 };
    (meter, left as u16)
}

/// `s` after `elapsed` minutes of heart decay, carried minutes included; where a
/// meter is then empty and no care deadline is pending, one is set.
pub open spec fn meters_decayed(s: PetState, st: CharacterStats, elapsed: int, now: Timestamp) -> PetState {
    let h = drained_carry(s.hunger, s.hunger_carry_minutes, elapsed, st.hunger_decay_minutes);
    let p = drained_carry(s.happiness, s.happy_carry_minutes, elapsed, st.happy_decay_minutes);
    PetState {
        hunger: h.0,
        hunger_carry_minutes: h.1,
        happiness: p.0,
        happy_carry_minutes: p.1,
        pending_care_deadline: if (h.0 == 0 || p.0 == 0) && s.pending_care_deadline is None {
            Some(deadline_from(now))
        } else {
            s.pending_care_deadline
        },
        ..s
    }
}

pub open spec fn meters_decay_fits(s: PetState, st: CharacterStats, elapsed: int, now: Timestamp) -> bool {
    let d = meters_decayed(s, st, elapsed, now);
    (d.hunger == 0 || d.happiness == 0) && s.pending_care_deadline is None ==> deadline_fits(now)
}

/// Decays both meters over `elapsed` minutes, counting the minutes carried from
/// earlier ticks toward the next heart, so that hearts drain at the character's
/// rate however the ticks are spaced; each meter is clamped at 0. Where a meter
/// is then empty and no care deadline is pending, sets one 15 minutes after `now`.
pub fn decay_meters(state: &mut PetState, stats: &CharacterStats, elapsed: i64, now: Timestamp)
    requires
        0 <= elapsed <= 1_000_000_000_000,
        stats.hunger_decay_minutes > 0,
        stats.happy_decay_minutes > 0,
        meters_decay_fits(*old(state), *stats, elapsed as int, now),
    ensures
        *final(state) == meters_decayed(*old(state), *stats, elapsed as int, now),
{
    let h = drain_meter(state.hunger, state.hunger_carry_minutes, elapsed, stats.hunger_decay_minutes);
    let p = drain_meter(state.happiness, state.happy_carry_minutes, elapsed, stats.happy_decay_minutes);
    state.hunger = h.0;
    state.hunger_carry_minutes = h.1;
    state.happiness = p.0;
    state.happy_carry_minutes = p.1;
    if (state.hunger == 0 || state.happiness == 0) && state.pending_care_deadline.is_none() {
        state.pending_care_deadline = Some(now.plus_minutes(DEADLINE_MINUTES));
    }
}

/// `s` with its neglect timer brought up to `now`: started where both meters are
/// empty and it was not running, stopped where either holds a heart.
pub open spec fn neglect_timed(s: PetState, now: Timestamp) -> PetState {
    if s.hunger == 0 && s.happiness == 0 {
        if s.neglect_since is None { PetState { neglect_since: Some(now), ..s } } else { s }
    } else {
        PetState { neglect_since: None, ..s }
    }
}

/// Starts the neglect timer at `now` where both meters are empty and it is not
/// running; stops it where either meter holds a heart.
pub fn track_neglect(state: &mut PetState, now: Timestamp)
    ensures
        *final(state) == neglect_timed(*old(state), now),
{
    if state.hunger == 0 && state.happiness == 0 {
        if state.neglect_since.is_none() {
            state.neglect_since = Some(now);
        }
    } else {
        state.neglect_since = None;
    }
}

// ── Poop ────────────────────────────────────────────────────────────────────

/// Poops due since `last_poop_time`: the whole minutes elapsed divided by the interval.
pub open spec fn new_poops(s: PetState, st: CharacterStats, now: Timestamp) -> int {
    minutes_between(now, s.last_poop_time) / (st.poop_interval_minutes as int)
}

pub open spec fn pooped(s: PetState, st: CharacterStats, now: Timestamp) -> PetState {
    let n = new_poops(s, st, now);
    if minutes_between(now, s.last_poop_time) < 0 || n == 0 {
        s
    } else {
        let total = s.poop_count + n;
        PetState {
            poop_count: if total < 4 { total as u8 } else { 4 },
            last_poop_time: s.last_poop_time.later_by_minutes(n * st.poop_interval_minutes),
            ..s
        }
    }
}

pub open spec fn poop_fits(s: PetState, st: CharacterStats, now: Timestamp) -> bool {
    let n = new_poops(s, st, now);
    minutes_between(now, s.last_poop_time) >= 0 && n > 0 ==> in_range(
        s.last_poop_time.instant() + n * st.poop_interval_minutes * nanos_per_minute(),
    )
}

/// Adds the poops due since `last_poop_time` (one per `poop_interval_minutes`),
/// capping the count at 4, and moves `last_poop_time` on by the poops added.
pub fn check_poop(state: &mut PetState, stats: &CharacterStats, now: Timestamp)
    requires
        stats.poop_interval_minutes > 0,
        poop_fits(*old(state), *stats, now),
    ensures
        *final(state) == pooped(*old(state), *stats, now),
{
    let elapsed = now.minutes_since(&state.last_poop_time);
    if elapsed < 0 {
        return;
    }
    proof {
        use_type_invariant(&now);
        use_type_invariant(&state.last_poop_time);
        lemma_minutes_bounded(now, state.last_poop_time);
    }
    let iv = stats.poop_interval_minutes as i64;
    let new_poops: i64 = elapsed / iv;
    if new_poops > 0 {
        let total: i64 = state.poop_count as i64 + new_poops;
        state.poop_count = if total < 4 { total as u8 } else { 4 };
        proof {
            assert(new_poops * iv <= elapsed) by (nonlinear_arith)
                requires
                    new_poops == elapsed / iv,
                    iv > 0,
                    elapsed >= 0,
            ;
        }
        let added: i64 = new_poops * iv;
        state.last_poop_time = state.last_poop_time.plus_minutes(added);
    }
}

/// The whole minutes between two timestamps lie well within 64 bits.
pub proof fn lemma_minutes_bounded(later: Timestamp, earlier: Timestamp)
    requires
        later.well_formed(),
        earlier.well_formed(),
    ensures
        -1_000_000_000_000 <= minutes_between(later, earlier) <= 1_000_000_000_000,
{
    later.lemma_in_range();
    earlier.lemma_in_range();
    let d = later.instant() - earlier.instant();
    assert(-1_000_000_000_000 <= div_toward_zero(d, nanos_per_minute()) <= 1_000_000_000_000) by (nonlinear_arith)
        requires
            -20_000_000_000_000_000_000_000 <= d <= 20_000_000_000_000_000_000_000,
            nanos_per_minute() == 60_000_000_000,
    ;
}

// ── Sickness ────────────────────────────────────────────────────────────────

pub open spec fn sickened(s: PetState) -> PetState {
    if s.poop_count >= 4 && !s.is_sick { PetState { is_sick: true, ..s } } else { s }
}

/// Makes the pet sick where 4 or more poops lie around.
pub fn check_sickness(state: &mut PetState)
    ensures
        *final(state) == sickened(*old(state)),
{
    if state.poop_count >= 4 && !state.is_sick {
        state.is_sick = true;
    }
}

/// `s` with its sickness timer brought up to `now`: started where the pet is sick
/// and it was not running, stopped where the pet is well.
pub open spec fn sick_timed(s: PetState, now: Timestamp) -> PetState {
    if s.is_sick {
        if s.sick_since is None { PetState { sick_since: Some(now), ..s } } else { s }
    } else {
        PetState { sick_since: None, ..s }
    }
}

/// Starts the sickness timer at `now` where the pet is sick and it is not running;
/// stops it where the pet is well.
pub fn track_sickness(state: &mut PetState, now: Timestamp)
    ensures
        *final(state) == sick_timed(*old(state), now),
{
    if state.is_sick {
        if state.sick_since.is_none() {
            state.sick_since = Some(now);
        }
    } else {
        state.sick_since = None;
    }
}

// ── Discipline calls ────────────────────────────────────────────────────────

/// `s` after a discipline-call draw at `now` that came out `roll`.
pub open spec fn called(s: PetState, now: Timestamp, roll: bool) -> PetState {
    if s.pending_discipline_deadline is None && roll {
        PetState { pending_discipline_deadline: Some(deadline_from(now)), ..s }
    } else {
        s
    }
}

/// Where no discipline call is pending and `roll` is true, opens one with a
/// deadline 15 minutes after `now`.
pub fn apply_discipline_roll(state: &mut PetState, now: Timestamp, roll: bool)
    requires
        old(state).pending_discipline_deadline is None && roll ==> deadline_fits(now),
    ensures
        *final(state) == called(*old(state), now, roll),
{
    if state.pending_discipline_deadline.is_none() && roll {
        state.pending_discipline_deadline = Some(now.plus_minutes(DEADLINE_MINUTES));
    }
}

/// Where no discipline call is pending, opens one with a 15-minute deadline on
/// a one-in-ten draw.
pub fn maybe_generate_discipline_call(state: &mut PetState, now: Timestamp)
    requires
        old(state).pending_discipline_deadline is None ==> deadline_fits(now),
    ensures
        *final(state) == *old(state) || *final(state) == called(*old(state), now, true),
        old(state).pending_discipline_deadline is Some ==> *final(state) == *old(state),
{
    if state.pending_discipline_deadline.is_none() {
        let roll = chance(1, 10);
        apply_discipline_roll(state, now, roll);
    }
}

pub open spec fn discipline_deadline_checked(s: PetState, now: Timestamp) -> PetState {
    match s.pending_discipline_deadline {
        Some(d) => if not_before(now, d) {
            PetState {
                discipline_mistakes: (s.discipline_mistakes + 1) as u8,
                pending_discipline_deadline: None,
                ..s
            }
        } else {
            s
        },
        None => s,
    }
}

pub open spec fn discipline_deadline_fits(s: PetState, now: Timestamp) -> bool {
    s.pending_discipline_deadline matches Some(d) && not_before(now, d) ==> s.discipline_mistakes < 255
}

/// Where the discipline deadline has passed, counts a discipline mistake and
/// clears the deadline.
pub fn check_discipline_deadline(state: &mut PetState, now: Timestamp)
    requires
        discipline_deadline_fits(*old(state), now),
    ensures
        *final(state) == discipline_deadline_checked(*old(state), now),
{
    if let Some(deadline) = state.pending_discipline_deadline {
        if !now.is_before(&deadline) {
            state.discipline_mistakes += 1;
            state.pending_discipline_deadline = None;
        }
    }
}

// ── Care deadlines ──────────────────────────────────────────────────────────

pub open spec fn care_deadline_checked(s: PetState, now: Timestamp) -> PetState {
    match s.pending_care_deadline {
        Some(d) => if not_before(now, d) {
            PetState { care_mistakes: (s.care_mistakes + 1) as u8, pending_care_deadline: None, ..s }
        } else {
            s
        },
        None => s,
    }
}

pub open spec fn care_deadline_fits(s: PetState, now: Timestamp) -> bool {
    s.pending_care_deadline matches Some(d) && not_before(now, d) ==> s.care_mistakes < 255
}

/// Where the care deadline has passed, counts a care mistake and clears the deadline.
pub fn check_care_deadlines(state: &mut PetState, now: Timestamp)
    requires
        care_deadline_fits(*old(state), now),
    ensures
        *final(state) == care_deadline_checked(*old(state), now),
{
    if let Some(deadline) = state.pending_care_deadline {
        if !now.is_before(&deadline) {
            state.care_mistakes += 1;
            state.pending_care_deadline = None;
        }
    }
}

// ── Sleep and wake ──────────────────────────────────────────────────────────

/// `hour` lies in the character's sleep window.
pub open spec fn in_sleep_window(st: CharacterStats, hour: int) -> bool {
    if st.sleep_hour > st.wake_hour {
        hour >= st.sleep_hour || hour < st.wake_hour
    } else {
        hour >= st.sleep_hour && hour < st.wake_hour
    }
}

/// `hour` lies in the character's waking window.
pub open spec fn in_wake_window(st: CharacterStats, hour: int) -> bool {
    if st.sleep_hour > st.wake_hour {
        hour >= st.wake_hour && hour < st.sleep_hour
    } else {
        hour >= st.wake_hour || hour < st.sleep_hour
    }
}

pub open spec fn bedtime_checked(s: PetState, st: CharacterStats, now: Timestamp) -> PetState {
    if in_sleep_window(st, hour_of(now)) {
        if s.lights_on {
            if s.pending_lights_deadline is None {
                PetState { pending_lights_deadline: Some(deadline_from(now)), ..s }
            } else {
                s
            }
        } else {
            PetState { is_sleeping: true, ..s }
        }
    } else {
        s
    }
}

pub open spec fn bedtime_fits(s: PetState, st: CharacterStats, now: Timestamp) -> bool {
    in_sleep_window(st, hour_of(now)) && s.lights_on && s.pending_lights_deadline is None
        ==> deadline_fits(now)
}

/// In the sleep window: with the lights on, opens a 15-minute lights deadline
/// (where none is pending); with the lights off, puts the pet to sleep.
pub fn check_sleep(state: &mut PetState, stats: &CharacterStats, now: Timestamp)
    requires
        bedtime_fits(*old(state), *stats, now),
    ensures
        *final(state) == bedtime_checked(*old(state), *stats, now),
{
    let hour = now.hour();
    let should_sleep = if stats.sleep_hour > stats.wake_hour {
        hour >= stats.sleep_hour || hour < stats.wake_hour
    } else {
        hour >= stats.sleep_hour && hour < stats.wake_hour
    };
    if should_sleep {
        if state.lights_on {
            if state.pending_lights_deadline.is_none() {
                state.pending_lights_deadline = Some(now.plus_minutes(DEADLINE_MINUTES));
            }
        } else {
            state.is_sleeping = true;
        }
    }
}

/// `s` once the lights deadline is checked at `now`, the previous tick having been
/// at `s.last_tick`: outside the sleep window a pending deadline is cleared (the
/// night is over); inside it, the tick that passes the deadline with the lights
/// still on counts one care mistake. The passed deadline stays pending until the
/// lights go off or the night ends, so that no new window opens that night.
pub open spec fn lights_deadline_checked(s: PetState, st: CharacterStats, now: Timestamp) -> PetState {
    match s.pending_lights_deadline {
        Some(d) => if !in_sleep_window(st, hour_of(now)) {
            PetState { pending_lights_deadline: None, ..s }
        } else if lights_deadline_passes(s, d, now) {
            PetState { care_mistakes: (s.care_mistakes + 1) as u8, ..s }
        } else {
            s
        },
        None => s,
    }
}

/// This tick, at `now`, is the one that passes the lights deadline `d` with the
/// lights still on.
pub open spec fn lights_deadline_passes(s: PetState, d: Timestamp, now: Timestamp) -> bool {
    s.lights_on && not_before(now, d) && s.last_tick.instant() < d.instant()
}

pub open spec fn lights_deadline_fits(s: PetState, st: CharacterStats, now: Timestamp) -> bool {
    s.pending_lights_deadline matches Some(d) && in_sleep_window(st, hour_of(now))
        && lights_deadline_passes(s, d, now) ==> s.care_mistakes < 255
}

/// Checks the lights deadline: outside the sleep window a pending deadline is
/// cleared; inside it, the tick that passes the deadline with the lights still on
/// counts one care mistake (the passed deadline stays pending for the night).
pub fn check_lights_deadline(state: &mut PetState, stats: &CharacterStats, now: Timestamp)
    requires
        lights_deadline_fits(*old(state), *stats, now),
    ensures
        *final(state) == lights_deadline_checked(*old(state), *stats, now),
{
    if let Some(deadline) = state.pending_lights_deadline {
        let hour = now.hour();
        let in_window = if stats.sleep_hour > stats.wake_hour {
            hour >= stats.sleep_hour || hour < stats.wake_hour
        } else {
            hour >= stats.sleep_hour && hour < stats.wake_hour
        };
        if !in_window {
            state.pending_lights_deadline = None;
        } else if state.lights_on && !now.is_before(&deadline) && state.last_tick.is_before(&deadline) {
            state.care_mistakes += 1;
        }
    }
}

pub open spec fn woken(s: PetState, st: CharacterStats, now: Timestamp) -> PetState {
    if in_wake_window(st, hour_of(now)) {
        PetState {
            is_sleeping: false,
            lights_on: true,
            age: (s.age + 1) as u16,
            snack_count_since_last_tick: 0,
            ..s
        }
    } else {
        s
    }
}

pub open spec fn wake_fits(s: PetState, st: CharacterStats, now: Timestamp) -> bool {
    in_wake_window(st, hour_of(now)) ==> s.age < 65535
}

/// In the waking window: wakes the pet, turns the lights on, adds a year of age
/// and resets the snack counter.
pub fn check_wake(state: &mut PetState, stats: &CharacterStats, now: Timestamp)
    requires
        wake_fits(*old(state), *stats, now),
    ensures
        *final(state) == woken(*old(state), *stats, now),
{
    let hour = now.hour();
    let should_be_awake = if stats.sleep_hour > stats.wake_hour {
        hour >= stats.wake_hour && hour < stats.sleep_hour
    } else {
        hour >= stats.wake_hour || hour < stats.sleep_hour
    };
    if should_be_awake {
        state.is_sleeping = false;
        state.lights_on = true;
        state.age += 1;
        state.snack_count_since_last_tick = 0;
    }
}

// ── Death ───────────────────────────────────────────────────────────────────

/// `s` dead: not alive, stage Dead, and no longer of a teen type.
pub open spec fn killed(s: PetState) -> PetState {
    PetState { is_alive: false, stage: LifeStage::Dead, teen_type: None, ..s }
}

/// Both meters have been empty for 12 hours or more, by the neglect timer.
pub open spec fn neglected(s: PetState, now: Timestamp) -> bool {
    &&& s.hunger == 0
    &&& s.happiness == 0
    &&& s.neglect_since matches Some(t) && hours_between(now, t) >= 12
}

/// The pet has been sick for more than 24 hours, by the sickness timer.
pub open spec fn sick_too_long(s: PetState, now: Timestamp) -> bool {
    &&& s.is_sick
    &&& s.sick_since matches Some(t) && minutes_between(now, t) > 24 * 60
}

pub open spec fn death_checked(s: PetState, st: CharacterStats, now: Timestamp) -> PetState {
    if st.max_lifespan_days > 0 && s.age >= st.max_lifespan_days {
        killed(s)
    } else if neglected(s, now) {
        killed(s)
    } else if sick_too_long(s, now) {
        killed(s)
    } else if s.stage == LifeStage::Baby && s.snack_count_since_last_tick >= 5 {
        killed(s)
    } else {
        s
    }
}

/// Kills the pet of old age (age at the character's lifespan, where it has one),
/// of neglect (both meters empty for 12 hours or more), of untreated sickness
/// (sick for more than 24 hours) or of snack overfeeding as a baby (5 snacks or
/// more).
pub fn check_death(state: &mut PetState, stats: &CharacterStats, now: Timestamp)
    ensures
        *final(state) == death_checked(*old(state), *stats, now),
{
    if stats.max_lifespan_days > 0 && state.age >= stats.max_lifespan_days {
        kill(state);
        return;
    }
    if state.hunger == 0 && state.happiness == 0 {
        if let Some(since) = state.neglect_since {
            if now.hours_since(&since) >= 12 {
                kill(state);
                return;
            }
        }
    }
    if state.is_sick {
        if let Some(since) = state.sick_since {
            if now.minutes_since(&since) > 24 * 60 {
                kill(state);
                return;
            }
        }
    }
    if state.stage == LifeStage::Baby && state.snack_count_since_last_tick >= 5 {
        kill(state);
    }
}

/// Kills the pet: not alive, stage Dead, teen type cleared.
pub fn kill(state: &mut PetState)
    ensures
        *final(state) == killed(*old(state)),
{
    state.is_alive = false;
    state.stage = LifeStage::Dead;
    state.teen_type = None;
}

// ── Hatching ────────────────────────────────────────────────────────────────

pub open spec fn hatched(s: PetState, now: Timestamp) -> PetState {
    if minutes_between(now, s.stage_start_time) >= 5 {
        PetState {
            stage: LifeStage::Baby,
            character: Character::Babytchi,
            stage_start_time: now,
            hunger: 0,
            happiness: 0,
            ..s
        }
    } else {
        s
    }
}

/// Hatches the egg into a baby 5 minutes after it was laid.
fn check_egg_hatch(state: &mut PetState, now: Timestamp)
    ensures
        *final(state) == hatched(*old(state), now),
{
    let elapsed = now.minutes_since(&state.stage_start_time);
    if elapsed >= 5 {
        state.stage = LifeStage::Baby;
        state.character = Character::Babytchi;
        state.stage_start_time = now;
        state.hunger = 0;
        state.happiness = 0;
    }
}

// ── Tick ────────────────────────────────────────────────────────────────────

/// Whole minutes since the last tick; a clock that went backwards counts as 0.
pub open spec fn tick_minutes(s: PetState, now: Timestamp) -> int {
    let m = minutes_between(now, s.last_tick);
    if m < 0 { 0 } else { m }
}

/// The awake-pet stages of a tick, up to the discipline-call draw: heart decay,
/// the neglect timer, the care deadline, poop, sickness and the sickness timer.
pub open spec fn awake_before_draw(s: PetState, now: Timestamp) -> PetState {
    let st = stats_of(s.character);
    sick_timed(
        sickened(
            pooped(care_deadline_checked(neglect_timed(meters_decayed(s, st, tick_minutes(s, now), now), now), now), st, now),
        ),
        now,
    )
}

/// The awake-pet stages of a tick from the draw on, for a state `d` just after it:
/// the discipline deadline, bedtime, the lights deadline, death and evolution.
pub open spec fn awake_after_draw(d: PetState, st: CharacterStats, now: Timestamp) -> PetState {
    evolution_step(
        death_checked(
            lights_deadline_checked(bedtime_checked(discipline_deadline_checked(d, now), st, now), st, now),
            st,
            now,
        ),
        now,
    ).0
}

/// The state after one tick at `now`, where the discipline-call draw came out `roll`.
#[verifier::opaque]
pub open spec fn ticked(s: PetState, now: Timestamp, roll: bool) -> PetState {
    if !s.is_alive {
        s
    } else if s.stage == LifeStage::Egg {
        PetState { last_tick: now, ..hatched(s, now) }
    } else if s.is_sleeping {
        PetState { last_tick: now, ..woken(s, stats_of(s.character), now) }
    } else {
        let st = stats_of(s.character);
        let d = called(awake_before_draw(s, now), now, roll);
        PetState { last_tick: now, ..awake_after_draw(d, st, now) }
    }
}

/// A tick at `now` stays within the integer and time ranges, whatever the draw.
pub open spec fn tick_fits(s: PetState, now: Timestamp) -> bool {
    let st = stats_of(s.character);
    let e = tick_minutes(s, now);
    let s1 = neglect_timed(meters_decayed(s, st, e, now), now);
    let s2 = care_deadline_checked(s1, now);
    let s4 = sick_timed(sickened(pooped(s2, st, now)), now);
    let s5 = discipline_deadline_checked(s4, now);
    let s6 = bedtime_checked(s5, st, now);
    s.is_alive && s.stage != LifeStage::Egg ==> if s.is_sleeping {
        wake_fits(s, st, now)
    } else {
        &&& meters_decay_fits(s, st, e, now)
        &&& care_deadline_fits(s1, now)
        &&& poop_fits(s2, st, now)
        &&& (s4.pending_discipline_deadline is None ==> deadline_fits(now))
        &&& discipline_deadline_fits(s4, now)
        &&& bedtime_fits(s5, st, now)
        &&& lights_deadline_fits(s6, st, now)
    }
}

/// Whether a tick at `now` stays within the integer and time ranges, whatever the
/// draw (where it does not, the tick would overflow).
pub fn tick_would_fit(state: &PetState, now: Timestamp) -> (r: bool)
    ensures
        r == tick_fits(*state, now),
{
    if !state.is_alive || state.stage == LifeStage::Egg {
        return true;
    }
    let stats = CharacterStats::for_character(&state.character);
    if state.is_sleeping {
        let hour = now.hour();
        let awake = if stats.sleep_hour > stats.wake_hour {
            hour >= stats.wake_hour && hour < stats.sleep_hour
        } else {
            hour >= stats.wake_hour || hour < stats.sleep_hour
        };
        return !awake || state.age < 65535;
    }
    let deadline_ok = now.can_shift_minutes(DEADLINE_MINUTES);
    let mut s = *state;

    let since = now.minutes_since(&s.last_tick);
    proof {
        use_type_invariant(&now);
        use_type_invariant(&s.last_tick);
        lemma_minutes_bounded(now, s.last_tick);
    }
    let elapsed: i64 = if since < 0 { 0 } else { since };
    let h = drain_meter(s.hunger, s.hunger_carry_minutes, elapsed, stats.hunger_decay_minutes);
    let p = drain_meter(s.happiness, s.happy_carry_minutes, elapsed, stats.happy_decay_minutes);
    if (h.0 == 0 || p.0 == 0) && s.pending_care_deadline.is_none() && !deadline_ok {
        return false;
    }
    decay_meters(&mut s, &stats, elapsed, now);
    track_neglect(&mut s, now);

    if let Some(d) = s.pending_care_deadline {
        if !now.is_before(&d) && s.care_mistakes == 255 {
            return false;
        }
    }
    check_care_deadlines(&mut s, now);

    let poop_elapsed = now.minutes_since(&s.last_poop_time);
    if poop_elapsed >= 0 {
        proof {
            use_type_invariant(&s.last_poop_time);
            lemma_minutes_bounded(now, s.last_poop_time);
        }
        let iv = stats.poop_interval_minutes as i64;
        let n: i64 = poop_elapsed / iv;
        if n > 0 {
            proof {
                assert(n * iv <= poop_elapsed) by (nonlinear_arith)
                    requires
                        n == poop_elapsed / iv,
                        iv > 0,
                        poop_elapsed >= 0,
                ;
            }
            if !s.last_poop_time.can_shift_minutes(n * iv) {
                return false;
            }
        }
    }
    check_poop(&mut s, &stats, now);
    check_sickness(&mut s);
    track_sickness(&mut s, now);

    if s.pending_discipline_deadline.is_none() && !deadline_ok {
        return false;
    }
    if let Some(d) = s.pending_discipline_deadline {
        if !now.is_before(&d) && s.discipline_mistakes == 255 {
            return false;
        }
    }
    check_discipline_deadline(&mut s, now);

    let hour = now.hour();
    let should_sleep = if stats.sleep_hour > stats.wake_hour {
        hour >= stats.sleep_hour || hour < stats.wake_hour
    } else {
        hour >= stats.sleep_hour && hour < stats.wake_hour
    };
    if should_sleep && s.lights_on && s.pending_lights_deadline.is_none() && !deadline_ok {
        return false;
    }
    check_sleep(&mut s, &stats, now);
    if let Some(d) = s.pending_lights_deadline {
        if should_sleep && s.lights_on && !now.is_before(&d) && s.last_tick.is_before(&d)
            && s.care_mistakes == 255 {
            return false;
        }
    }
    true
}

/// Advances the simulation to `now`, the discipline-call draw having come out `roll`.
/// Dead pets are left as they are; an egg only checks its hatch timer; a sleeping
/// pet only checks for waking; an awake pet runs the full cycle (decay with the
/// minutes carried from earlier ticks, neglect timer, care deadline, poop,
/// sickness and its timer, discipline call and deadline, bedtime and the lights
/// deadline, death, evolution). `last_tick` becomes `now` for every living pet.
pub fn tick_with_roll(state: &mut PetState, now: Timestamp, roll: bool)
    requires
        tick_fits(*old(state), now),
    ensures
        *final(state) == ticked(*old(state), now, roll),
{
    reveal(ticked);
    if !state.is_alive {
        return;
    }
    if state.stage == LifeStage::Egg {
        check_egg_hatch(state, now);
        state.last_tick = now;
        return;
    }
    if state.is_sleeping {
        let stats = CharacterStats::for_character(&state.character);
        check_wake(state, &stats, now);
        state.last_tick = now;
        return;
    }
    let stats = CharacterStats::for_character(&state.character);
    run_until_draw(state, &stats, now);
    let ghost before_draw = *state;
    apply_discipline_roll(state, now, roll);
    proof {
        if before_draw.pending_discipline_deadline is None && roll {
            use_type_invariant(&now);
            now.lemma_later_by_minutes(15);
        }
    }
    run_after_draw(state, &stats, now);
    state.last_tick = now;
}

/// The awake-pet cycle up to the discipline-call draw.
fn run_until_draw(state: &mut PetState, stats: &CharacterStats, now: Timestamp)
    requires
        *stats == stats_of(old(state).character),
        old(state).is_alive,
        old(state).stage != LifeStage::Egg,
        !old(state).is_sleeping,
        tick_fits(*old(state), now),
    ensures
        *final(state) == awake_before_draw(*old(state), now),
{
    let since = now.minutes_since(&state.last_tick);
    proof {
        use_type_invariant(&now);
        use_type_invariant(&state.last_tick);
        lemma_minutes_bounded(now, state.last_tick);
    }
    let elapsed: i64 = if since < 0 { 0 } else { since };
    decay_meters(state, stats, elapsed, now);
    track_neglect(state, now);
    check_care_deadlines(state, now);
    check_poop(state, stats, now);
    check_sickness(state);
    track_sickness(state, now);
}

/// The awake-pet cycle from the discipline-call draw on.
fn run_after_draw(state: &mut PetState, stats: &CharacterStats, now: Timestamp)
    requires
        discipline_deadline_fits(*old(state), now),
        bedtime_fits(discipline_deadline_checked(*old(state), now), *stats, now),
        lights_deadline_fits(
            bedtime_checked(discipline_deadline_checked(*old(state), now), *stats, now),
            *stats,
            now,
        ),
    ensures
        *final(state) == awake_after_draw(*old(state), *stats, now),
{
    check_discipline_deadline(state, now);
    check_sleep(state, stats, now);
    check_lights_deadline(state, stats, now);
    check_death(state, stats, now);
    check_evolution(state, now);
}

/// Advances the simulation to `now`; the discipline call is drawn with a
/// one-in-ten chance where the full cycle runs and no call is pending.
pub fn tick(state: &mut PetState, now: Timestamp)
    requires
        tick_fits(*old(state), now),
    ensures
        *final(state) == ticked(*old(state), now, false) || *final(state) == ticked(*old(state), now, true),
{
    let needs_draw = state.is_alive && state.stage != LifeStage::Egg && !state.is_sleeping
        && state.pending_discipline_deadline.is_none();
    let roll = if needs_draw { chance(1, 10) } else { false };
    tick_with_roll(state, now, roll);
}

} // verus!
