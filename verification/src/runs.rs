//! Properties of runs of ticks a minute apart, as catch-up makes them and as a
//! running front end makes them: what many ticks do, beyond what one tick does.
use vstd::prelude::*;

use crate::characters::stats_of;
use crate::engine::{
    deadline_from, drained_carry, hour_of, hours_between, in_sleep_window, minutes_between, tick_minutes,
    ticked,
};
use crate::laws::lemma_decay_composes;
use crate::persistence::{restored, run_from, step_time};
use crate::state::{Character, LifeStage, PetState};
use crate::time::{div_toward_zero, in_range, nanos_per_hour, nanos_per_minute, Timestamp};

verus! {

/// Step `i` of a run from `base` lies `i` minutes after `base`.
pub proof fn lemma_step_instant(base: Timestamp, k: int, i: int)
    requires
        base.well_formed(),
        in_range(base.instant() + k * nanos_per_minute()),
        0 <= i <= k,
    ensures
        step_time(base, i).instant() == base.instant() + i * nanos_per_minute(),
        step_time(base, i).well_formed(),
{
    base.lemma_in_range();
    base.lemma_later_by_minutes(i);
}

/// Loading a pet saved `n` whole minutes ago (and less than a minute more) gives
/// the pet after one tick at each of 1, 2, …, `n` minutes after the saved tick, in
/// order, stopping at the first tick that leaves it dead, with its clock then set
/// to `now`.
pub proof fn lemma_catch_up_ticks_each_minute(s: PetState, now: Timestamp, rolls: Seq<bool>, i: int)
    requires
        s.last_tick.well_formed(),
        now.well_formed(),
        now.instant() >= s.last_tick.instant(),
        minutes_between(now, s.last_tick) > 0,
        1 <= i <= minutes_between(now, s.last_tick),
    ensures
        restored(Some(s), now, rolls) == (PetState {
            last_tick: now,
            ..run_from(s, s.last_tick, 1, minutes_between(now, s.last_tick), rolls)
        }),
        step_time(s.last_tick, i).instant() == s.last_tick.instant() + i * nanos_per_minute(),
{
    let n = minutes_between(now, s.last_tick);
    let d = now.instant() - s.last_tick.instant();
    assert(n * nanos_per_minute() <= d) by (nonlinear_arith)
        requires
            d >= 0,
            n == div_toward_zero(d, nanos_per_minute()),
            nanos_per_minute() == 60_000_000_000,
    ;
    now.lemma_in_range();
    s.last_tick.lemma_in_range();
    lemma_step_instant(s.last_tick, n, i);
}

// ── Neglect ─────────────────────────────────────────────────────────────────

/// One tick of a living, awake pet with both meters empty and the lights on.
proof fn lemma_starving_tick(x: PetState, now: Timestamp, r: bool)
    requires
        x.is_alive,
        x.stage != LifeStage::Egg,
        !x.is_sleeping,
        x.lights_on,
        x.hunger == 0,
        x.happiness == 0,
    ensures
        ({
            let y = ticked(x, now, r);
            &&& y.is_alive ==> {
                &&& y.stage != LifeStage::Egg
                &&& !y.is_sleeping
                &&& y.lights_on
                &&& y.hunger == 0
                &&& y.happiness == 0
                &&& y.neglect_since == (if x.neglect_since is None { Some(now) } else { x.neglect_since })
            }
            &&& !y.is_alive ==> y.stage == LifeStage::Dead
            &&& (x.neglect_since matches Some(t) && hours_between(now, t) >= 12 ==> !y.is_alive)
        }),
{
    reveal(ticked);
    let st = stats_of(x.character);
    let e = tick_minutes(x, now);
    vstd::arithmetic::div_mod::lemma_div_pos_is_pos(x.hunger_carry_minutes + e, st.hunger_decay_minutes as int);
    vstd::arithmetic::div_mod::lemma_div_pos_is_pos(x.happy_carry_minutes + e, st.happy_decay_minutes as int);
}

proof fn lemma_starving_run(x: PetState, base: Timestamp, i: int, k: int, rolls: Seq<bool>)
    requires
        1 <= i <= k,
        12 * 60 + 1 <= k,
        base.well_formed(),
        in_range(base.instant() + k * nanos_per_minute()),
        x.is_alive,
        x.stage != LifeStage::Egg,
        !x.is_sleeping,
        x.lights_on,
        x.hunger == 0,
        x.happiness == 0,
        x.neglect_since matches Some(t) ==> t.instant() <= base.instant() + nanos_per_minute(),
        i >= 2 ==> x.neglect_since is Some,
    ensures
        !run_from(x, base, i, k, rolls).is_alive,
        run_from(x, base, i, k, rolls).stage == LifeStage::Dead,
    decreases k - i,
{
    let now = step_time(base, i);
    lemma_step_instant(base, k, i);
    lemma_starving_tick(x, now, rolls[i - 1]);
    let y = ticked(x, now, rolls[i - 1]);
    if i >= 12 * 60 + 1 {
        let t = x.neglect_since->0;
        let d = now.instant() - t.instant();
        assert(d >= 12 * nanos_per_hour());
        assert(div_toward_zero(d, nanos_per_hour()) >= 12) by (nonlinear_arith)
            requires
                d >= 12 * nanos_per_hour(),
                nanos_per_hour() == 3_600_000_000_000,
        ;
        assert(!y.is_alive);
    } else if y.is_alive {
        lemma_starving_run(y, base, i + 1, k, rolls);
    }
}

/// A pet left alone, awake, with both meters empty and the lights on, dies of
/// neglect within 12 hours and a minute of ticks once a minute (a neglect timer
/// already running from before the run only brings death sooner).
pub proof fn lemma_neglect_kills_over_ticks(s: PetState, base: Timestamp, k: int, rolls: Seq<bool>)
    requires
        s.is_alive,
        s.stage != LifeStage::Egg,
        !s.is_sleeping,
        s.lights_on,
        s.hunger == 0,
        s.happiness == 0,
        s.neglect_since matches Some(t) ==> t.instant() <= base.instant(),
        base.well_formed(),
        in_range(base.instant() + k * nanos_per_minute()),
        k >= 12 * 60 + 1,
    ensures
        !run_from(s, base, 1, k, rolls).is_alive,
        run_from(s, base, 1, k, rolls).stage == LifeStage::Dead,
{
    lemma_starving_run(s, base, 1, k, rolls);
}

// ── Untreated sickness ──────────────────────────────────────────────────────

/// One tick of a living, awake, sick pet with the lights on.
proof fn lemma_sick_tick(x: PetState, now: Timestamp, r: bool)
    requires
        x.is_alive,
        x.stage != LifeStage::Egg,
        !x.is_sleeping,
        x.lights_on,
        x.is_sick,
    ensures
        ({
            let y = ticked(x, now, r);
            &&& y.is_alive ==> {
                &&& y.stage != LifeStage::Egg
                &&& !y.is_sleeping
                &&& y.lights_on
                &&& y.is_sick
                &&& y.sick_since == (if x.sick_since is None { Some(now) } else { x.sick_since })
            }
            &&& !y.is_alive ==> y.stage == LifeStage::Dead
            &&& (x.sick_since matches Some(t) && minutes_between(now, t) > 24 * 60 ==> !y.is_alive)
        }),
{
    reveal(ticked);
}

proof fn lemma_sick_run(x: PetState, base: Timestamp, i: int, k: int, rolls: Seq<bool>)
    requires
        1 <= i <= k,
        24 * 60 + 2 <= k,
        base.well_formed(),
        in_range(base.instant() + k * nanos_per_minute()),
        x.is_alive,
        x.stage != LifeStage::Egg,
        !x.is_sleeping,
        x.lights_on,
        x.is_sick,
        x.sick_since matches Some(t) ==> t.instant() <= base.instant() + nanos_per_minute(),
        i >= 2 ==> x.sick_since is Some,
    ensures
        !run_from(x, base, i, k, rolls).is_alive,
        run_from(x, base, i, k, rolls).stage == LifeStage::Dead,
    decreases k - i,
{
    let now = step_time(base, i);
    lemma_step_instant(base, k, i);
    lemma_sick_tick(x, now, rolls[i - 1]);
    let y = ticked(x, now, rolls[i - 1]);
    if i >= 24 * 60 + 2 {
        let t = x.sick_since->0;
        let d = now.instant() - t.instant();
        assert(d >= (24 * 60 + 1) * nanos_per_minute());
        assert(div_toward_zero(d, nanos_per_minute()) > 24 * 60) by (nonlinear_arith)
            requires
                d >= (24 * 60 + 1) * nanos_per_minute(),
                nanos_per_minute() == 60_000_000_000,
        ;
        assert(!y.is_alive);
    } else if y.is_alive {
        lemma_sick_run(y, base, i + 1, k, rolls);
    }
}

/// A sick pet left alone, awake with the lights on and given no medicine, dies
/// of its sickness within 24 hours and two minutes of ticks once a minute (a
/// sickness timer already running from before the run only brings death sooner).
pub proof fn lemma_untreated_sickness_kills_over_ticks(s: PetState, base: Timestamp, k: int, rolls: Seq<bool>)
    requires
        s.is_alive,
        s.stage != LifeStage::Egg,
        !s.is_sleeping,
        s.lights_on,
        s.is_sick,
        s.sick_since matches Some(t) ==> t.instant() <= base.instant(),
        base.well_formed(),
        in_range(base.instant() + k * nanos_per_minute()),
        k >= 24 * 60 + 2,
    ensures
        !run_from(s, base, 1, k, rolls).is_alive,
        run_from(s, base, 1, k, rolls).stage == LifeStage::Dead,
{
    lemma_sick_run(s, base, 1, k, rolls);
}

// ── Heart decay over many ticks ─────────────────────────────────────────────

/// Every tick of the run from step `i` to step `n` finds the pet alive and awake
/// (and not an egg), and leaves it alive with the same character.
pub open spec fn steady_run(s: PetState, base: Timestamp, i: int, n: int, rolls: Seq<bool>) -> bool
    decreases n + 1 - i,
{
    i > n || {
        let next = ticked(s, step_time(base, i), rolls[i - 1]);
        &&& s.is_alive
        &&& !s.is_sleeping
        &&& s.stage != LifeStage::Egg
        &&& next.is_alive
        &&& next.character == s.character
        &&& steady_run(next, base, i + 1, n, rolls)
    }
}

/// One tick of a living, awake pet decays its meters over the whole minutes since
/// its last tick, carried minutes included, and moves its clock.
pub proof fn lemma_awake_tick_meters(x: PetState, now: Timestamp, r: bool)
    requires
        x.is_alive,
        !x.is_sleeping,
        x.stage != LifeStage::Egg,
    ensures
        ({
            let y = ticked(x, now, r);
            let st = stats_of(x.character);
            let e = tick_minutes(x, now);
            &&& (y.hunger, y.hunger_carry_minutes) == drained_carry(
                x.hunger,
                x.hunger_carry_minutes,
                e,
                st.hunger_decay_minutes,
            )
            &&& (y.happiness, y.happy_carry_minutes) == drained_carry(
                x.happiness,
                x.happy_carry_minutes,
                e,
                st.happy_decay_minutes,
            )
            &&& y.last_tick == now
        }),
{
    reveal(ticked);
}

proof fn lemma_steady_run_meters(x: PetState, base: Timestamp, i: int, n: int, rolls: Seq<bool>)
    requires
        1 <= i <= n,
        base.well_formed(),
        in_range(base.instant() + n * nanos_per_minute()),
        x.last_tick.instant() == base.instant() + (i - 1) * nanos_per_minute(),
        steady_run(x, base, i, n, rolls),
    ensures
        ({
            let r = run_from(x, base, i, n, rolls);
            let st = stats_of(x.character);
            &&& (r.hunger, r.hunger_carry_minutes) == drained_carry(
                x.hunger,
                x.hunger_carry_minutes,
                n - i + 1,
                st.hunger_decay_minutes,
            )
            &&& (r.happiness, r.happy_carry_minutes) == drained_carry(
                x.happiness,
                x.happy_carry_minutes,
                n - i + 1,
                st.happy_decay_minutes,
            )
        }),
    decreases n - i,
{
    let now = step_time(base, i);
    lemma_step_instant(base, n, i);
    lemma_awake_tick_meters(x, now, rolls[i - 1]);
    let y = ticked(x, now, rolls[i - 1]);
    assert(tick_minutes(x, now) == 1) by {
        assert(now.instant() - x.last_tick.instant() == nanos_per_minute());
    }
    assert(y.is_alive && y.character == x.character);
    if i < n {
        assert(run_from(x, base, i, n, rolls) == run_from(y, base, i + 1, n, rolls));
        lemma_steady_run_meters(y, base, i + 1, n, rolls);
        let st = stats_of(x.character);
        lemma_decay_composes(x.hunger, x.hunger_carry_minutes, 1, n - i, st.hunger_decay_minutes);
        lemma_decay_composes(x.happiness, x.happy_carry_minutes, 1, n - i, st.happy_decay_minutes);
        assert(1 + (n - i) == n - i + 1);
    } else {
        assert(run_from(y, base, i + 1, n, rolls) == y);
        assert(run_from(x, base, i, n, rolls) == y);
    }
}

/// Hearts drain at the character's rate over ticks a minute apart: `n` ticks at
/// 1, 2, …, `n` minutes after the last tick, through which the pet stays alive,
/// awake and of the same character, leave both meters and their carried minutes
/// exactly as one tick `n` minutes after the last tick leaves them.
pub proof fn lemma_minute_ticks_decay_like_one(s: PetState, n: int, rolls: Seq<bool>, roll: bool)
    requires
        n >= 1,
        s.last_tick.well_formed(),
        in_range(s.last_tick.instant() + n * nanos_per_minute()),
        steady_run(s, s.last_tick, 1, n, rolls),
    ensures
        ({
            let r = run_from(s, s.last_tick, 1, n, rolls);
            let one = ticked(s, step_time(s.last_tick, n), roll);
            &&& r.hunger == one.hunger
            &&& r.hunger_carry_minutes == one.hunger_carry_minutes
            &&& r.happiness == one.happiness
            &&& r.happy_carry_minutes == one.happy_carry_minutes
        }),
{
    let base = s.last_tick;
    lemma_steady_run_meters(s, base, 1, n, rolls);
    lemma_step_instant(base, n, n);
    let now = step_time(base, n);
    lemma_awake_tick_meters(s, now, roll);
    assert(tick_minutes(s, now) == n) by {
        assert(now.instant() - s.last_tick.instant() == n * nanos_per_minute());
        assert(div_toward_zero(n * nanos_per_minute(), nanos_per_minute()) == n) by (nonlinear_arith)
            requires
                n >= 1,
                nanos_per_minute() == 60_000_000_000,
        ;
    }
}

// ── Lights left on ──────────────────────────────────────────────────────────

/// One tick at `now`, within the pet's sleep window, of a living, awake pet with
/// the lights on that nothing kills at `now`.
#[verifier::rlimit(100)]
proof fn lemma_night_tick(x: PetState, now: Timestamp, r: bool)
    requires
        x.is_alive,
        x.stage != LifeStage::Egg,
        !x.is_sleeping,
        x.lights_on,
        in_sleep_window(stats_of(x.character), hour_of(now)),
        x.care_mistakes <= 253,
        x.snack_count_since_last_tick < 5,
        stats_of(x.character).max_lifespan_days == 0 || x.age < stats_of(x.character).max_lifespan_days,
        x.neglect_since matches Some(t) ==> hours_between(now, t) < 12,
        x.sick_since matches Some(t) ==> minutes_between(now, t) <= 24 * 60,
    ensures
        ({
            let y = ticked(x, now, r);
            &&& y.is_alive
            &&& y.stage != LifeStage::Egg
            &&& !y.is_sleeping
            &&& y.lights_on
            &&& y.age == x.age
            &&& y.snack_count_since_last_tick == x.snack_count_since_last_tick
            &&& y.last_tick == now
            &&& (y.neglect_since matches Some(t) ==> t == now || x.neglect_since == Some(t))
            &&& (y.sick_since matches Some(t) ==> t == now || x.sick_since == Some(t))
            &&& x.care_mistakes <= y.care_mistakes <= x.care_mistakes + 2
            &&& (x.pending_lights_deadline is None ==> y.pending_lights_deadline == Some(deadline_from(now)))
            &&& (x.pending_lights_deadline matches Some(d) ==> y.pending_lights_deadline == Some(d))
            &&& (x.pending_lights_deadline matches Some(d) && now.instant() >= d.instant()
                && x.last_tick.instant() < d.instant() ==> y.care_mistakes > x.care_mistakes)
        }),
{
    reveal(ticked);
}

/// Every minute of the run's first `k` lies within every character's sleep window.
pub open spec fn night_run(base: Timestamp, k: int) -> bool {
    forall|i: int, c: Character|
        1 <= i <= k ==> #[trigger] in_sleep_window(stats_of(c), hour_of(#[trigger] step_time(base, i)))
}

proof fn lemma_night_run(x: PetState, s: PetState, base: Timestamp, i: int, k: int, rolls: Seq<bool>)
    requires
        1 <= i <= k,
        16 <= k <= 60,
        base.well_formed(),
        in_range(base.instant() + k * nanos_per_minute()),
        night_run(base, k),
        s.care_mistakes + 2 * k < 255,
        x.is_alive,
        x.stage != LifeStage::Egg,
        !x.is_sleeping,
        x.lights_on,
        x.snack_count_since_last_tick < 5,
        forall|c: Character|
            #![trigger stats_of(c)]
            stats_of(c).max_lifespan_days == 0 || x.age < stats_of(c).max_lifespan_days,
        x.neglect_since matches Some(t) ==> base.instant() <= t.instant() <= base.instant() + (i - 1)
            * nanos_per_minute(),
        x.sick_since matches Some(t) ==> base.instant() <= t.instant() <= base.instant() + (i - 1)
            * nanos_per_minute(),
        s.care_mistakes <= x.care_mistakes <= s.care_mistakes + 2 * (i - 1),
        i == 1 ==> x.pending_lights_deadline is None,
        2 <= i <= 16 ==> (x.pending_lights_deadline matches Some(d) && d.instant() == base.instant() + 16
            * nanos_per_minute()),
        i >= 2 ==> x.last_tick.instant() == base.instant() + (i - 1) * nanos_per_minute(),
        i >= 17 ==> x.care_mistakes > s.care_mistakes,
    ensures
        run_from(x, base, i, k, rolls).care_mistakes > s.care_mistakes,
    decreases k - i,
{
    let now = step_time(base, i);
    lemma_step_instant(base, k, i);
    assert(in_sleep_window(stats_of(x.character), hour_of(now)));
    if let Some(t) = x.neglect_since {
        let d = now.instant() - t.instant();
        assert(0 <= d <= 60 * nanos_per_minute());
        assert(div_toward_zero(d, nanos_per_hour()) < 12) by (nonlinear_arith)
            requires
                0 <= d <= 60 * nanos_per_minute(),
                nanos_per_minute() == 60_000_000_000,
                nanos_per_hour() == 3_600_000_000_000,
        ;
    }
    if let Some(t) = x.sick_since {
        let d = now.instant() - t.instant();
        assert(div_toward_zero(d, nanos_per_minute()) <= 24 * 60) by (nonlinear_arith)
            requires
                0 <= d <= 60 * nanos_per_minute(),
                nanos_per_minute() == 60_000_000_000,
        ;
    }
    lemma_night_tick(x, now, rolls[i - 1]);
    let y = ticked(x, now, rolls[i - 1]);
    if i == 1 {
        base.lemma_in_range();
        now.lemma_later_by_minutes(15);
        assert(deadline_from(now).instant() == base.instant() + 16 * nanos_per_minute());
    }
    if i < k {
        assert(run_from(x, base, i, k, rolls) == run_from(y, base, i + 1, k, rolls));
        lemma_night_run(y, s, base, i + 1, k, rolls);
    } else {
        assert(run_from(x, base, i, k, rolls) == y);
    }
}

/// Leaving the lights on past bedtime costs a care mistake: a pet left alone,
/// awake with the lights on and no lights deadline yet, over ticks once a minute
/// for 16 to 60 minutes that all lie within every character's sleep window, ends
/// with more care mistakes than it started with. Nothing else may end the run
/// first: no neglect or sickness timer runs from before it, the pet is young
/// enough for every character's lifespan, and as a baby it has had fewer than 5
/// snacks.
pub proof fn lemma_lights_left_on_over_ticks(s: PetState, base: Timestamp, k: int, rolls: Seq<bool>)
    requires
        s.is_alive,
        s.stage != LifeStage::Egg,
        !s.is_sleeping,
        s.lights_on,
        s.pending_lights_deadline is None,
        s.neglect_since is None,
        s.sick_since is None,
        s.snack_count_since_last_tick < 5,
        forall|c: Character|
            #![trigger stats_of(c)]
            stats_of(c).max_lifespan_days == 0 || s.age < stats_of(c).max_lifespan_days,
        s.care_mistakes + 2 * k < 255,
        base.well_formed(),
        in_range(base.instant() + k * nanos_per_minute()),
        night_run(base, k),
        16 <= k <= 60,
    ensures
        run_from(s, base, 1, k, rolls).care_mistakes > s.care_mistakes,
{
    lemma_night_run(s, s, base, 1, k, rolls);
}

} // verus!
