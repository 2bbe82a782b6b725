//! Bringing a saved pet up to date: clock-skew handling and minute-by-minute
//! catch-up of the time that passed while nothing ran.
use vstd::prelude::*;

use crate::engine::{minutes_between, tick, tick_fits, tick_would_fit, ticked};
use crate::state::{egg_at, PetState};
use crate::time::{in_range, nanos_per_minute, Timestamp};

verus! {

/// The time of catch-up step `i`: `i` minutes after the saved tick `base`.
pub open spec fn step_time(base: Timestamp, i: int) -> Timestamp {
    base.later_by_minutes(i)
}

/// The catch-up run from step `i` to step `n`, one tick per minute after the saved
/// tick `base`, the discipline-call draw of step `k` having come out `rolls[k - 1]`;
/// it stops early once the pet has died.
pub open spec fn run_from(s: PetState, base: Timestamp, i: int, n: int, rolls: Seq<bool>) -> PetState
    decreases n + 1 - i,
{
    if i > n {
        s
    } else {
        let next = ticked(s, step_time(base, i), rolls[i - 1]);
        if !next.is_alive {
            next
        } else {
            run_from(next, base, i + 1, n, rolls)
        }
    }
}

/// Every step of the catch-up run from step `i` stays within the integer and
/// time ranges, whatever the draws.
pub open spec fn run_fits(s: PetState, base: Timestamp, i: int, n: int) -> bool
    decreases n + 1 - i,
{
    i > n || {
        let t = step_time(base, i);
        let quiet = ticked(s, t, false);
        let called = ticked(s, t, true);
        &&& in_range(base.instant() + i * nanos_per_minute())
        &&& tick_fits(s, t)
        &&& (quiet.is_alive ==> run_fits(quiet, base, i + 1, n))
        &&& (called.is_alive ==> run_fits(called, base, i + 1, n))
    }
}

/// The catch-up run from step `i`, with the draws `rolls`, stays within the
/// integer and time ranges at every step it takes.
pub open spec fn run_ok(s: PetState, base: Timestamp, i: int, n: int, rolls: Seq<bool>) -> bool
    decreases n + 1 - i,
{
    i > n || {
        let t = step_time(base, i);
        let next = ticked(s, t, rolls[i - 1]);
        &&& in_range(base.instant() + i * nanos_per_minute())
        &&& tick_fits(s, t)
        &&& (next.is_alive ==> run_ok(next, base, i + 1, n, rolls))
    }
}

/// A run that fits whatever the draws fits for any particular draws.
pub proof fn lemma_run_fits_any_draws(s: PetState, base: Timestamp, i: int, n: int, rolls: Seq<bool>)
    requires
        run_fits(s, base, i, n),
    ensures
        run_ok(s, base, i, n, rolls),
    decreases n + 1 - i,
{
    if i <= n {
        let t = step_time(base, i);
        let next = ticked(s, t, rolls[i - 1]);
        if next.is_alive {
            lemma_run_fits_any_draws(next, base, i + 1, n, rolls);
        }
    }
}

/// `s` after catching up to `now` with the draws `rolls`: one tick per whole
/// minute elapsed, then the clock set to `now` (also where less than a minute
/// has elapsed).
pub open spec fn caught_up(s: PetState, now: Timestamp, rolls: Seq<bool>) -> PetState {
    let n = minutes_between(now, s.last_tick);
    if n <= 0 {
        PetState { last_tick: now, ..s }
    } else {
        PetState { last_tick: now, ..run_from(s, s.last_tick, 1, n, rolls) }
    }
}

/// Catching `s` up to `now` stays within the integer and time ranges, whatever the draws.
pub open spec fn catchup_fits(s: PetState, now: Timestamp) -> bool {
    let n = minutes_between(now, s.last_tick);
    n > 0 ==> run_fits(s, s.last_tick, 1, n)
}

/// The pet as loaded at `now` from what the save held: a fresh egg where the save
/// could not be read as a pet; the saved pet resynchronised to `now` where the
/// clock went backwards; otherwise the saved pet caught up to `now`.
pub open spec fn restored(saved: Option<PetState>, now: Timestamp, rolls: Seq<bool>) -> PetState {
    match saved {
        None => egg_at(now),
        Some(s) => if now.instant() < s.last_tick.instant() {
            PetState { last_tick: now, ..s }
        } else {
            caught_up(s, now, rolls)
        },
    }
}

/// Loading stays within the integer and time ranges, whatever the draws.
pub open spec fn restore_fits(saved: Option<PetState>, now: Timestamp) -> bool {
    match saved {
        Some(s) => now.instant() >= s.last_tick.instant() ==> catchup_fits(s, now),
        None => true,
    }
}

/// Loading stays within the integer and time ranges with the draws `rolls`.
pub open spec fn restore_ok(saved: Option<PetState>, now: Timestamp, rolls: Seq<bool>) -> bool {
    match saved {
        Some(s) => {
            let n = minutes_between(now, s.last_tick);
            now.instant() >= s.last_tick.instant() && n > 0 ==> run_ok(s, s.last_tick, 1, n, rolls)
        },
        None => true,
    }
}

/// Brings a loaded pet up to `now`, as `restore` does, but checks each catch-up
/// step first: `None` where a step would overflow with the draws made so far
/// (loading panics there).
pub fn try_restore(saved: Option<PetState>, now: Timestamp) -> (r: Option<PetState>)
    ensures
        r matches Some(p) ==> exists|rolls: Seq<bool>| p == #[trigger] restored(saved, now, rolls),
        r is None ==> exists|rolls: Seq<bool>| !#[trigger] restore_ok(saved, now, rolls),
{
    match saved {
        None => {
            let r = PetState::new_egg(now);
            assert(r == restored(saved, now, Seq::empty()));
            Some(r)
        },
        Some(s) => {
            let mut state = s;
            if now.is_before(&state.last_tick) {
                state.last_tick = now;
                assert(state == restored(saved, now, Seq::empty()));
                return Some(state);
            }
            match catch_up(&mut state, now) {
                Ok(rolls) => {
                    assert(state == restored(saved, now, rolls@));
                    Some(state)
                },
                Err(rolls) => {
                    assert(!restore_ok(saved, now, rolls@));
                    None
                },
            }
        },
    }
}

/// Brings a loaded pet up to `now`. `saved` is what the save file held, `None`
/// where it was corrupt: that gives a fresh egg. Where the clock went backwards
/// (`now` before `last_tick`), `last_tick` is resynchronised to `now` and nothing
/// is simulated. Otherwise the elapsed time is simulated tick by tick.
pub fn restore(saved: Option<PetState>, now: Timestamp) -> (r: PetState)
    requires
        restore_fits(saved, now),
    ensures
        exists|rolls: Seq<bool>| r == #[trigger] restored(saved, now, rolls),
{
    let r = try_restore(saved, now);
    proof {
        if r is None {
            let rolls = choose|rolls: Seq<bool>| !#[trigger] restore_ok(saved, now, rolls);
            if let Some(s) = saved {
                let n = minutes_between(now, s.last_tick);
                if now.instant() >= s.last_tick.instant() && n > 0 {
                    lemma_run_fits_any_draws(s, s.last_tick, 1, n, rolls);
                }
            }
        }
    }
    r.unwrap()
}

/// Simulates the time from `last_tick` to `now` with one tick per whole minute
/// elapsed, at 1, 2, 3, … minutes after the saved tick, stopping early where the
/// pet dies; then sets the clock to `now`. Each step is checked first; where one would overflow, the
/// result is `Err`. Returns (as a ghost value) the discipline-call draws made.
fn catch_up(state: &mut PetState, now: Timestamp) -> (r: Result<Ghost<Seq<bool>>, Ghost<Seq<bool>>>)
    ensures
        r matches Ok(rolls) ==> *final(state) == caught_up(*old(state), now, rolls@),
        r matches Err(rolls) ==> {
            let n = minutes_between(now, old(state).last_tick);
            n > 0 && !run_ok(*old(state), old(state).last_tick, 1, n, rolls@)
        },
{
    let elapsed_minutes = now.minutes_since(&state.last_tick);
    if elapsed_minutes <= 0 {
        state.last_tick = now;
        return Ok(Ghost(Seq::empty()));
    }
    proof {
        use_type_invariant(&now);
        use_type_invariant(&state.last_tick);
        now.lemma_in_range();
        state.last_tick.lemma_in_range();
        let d = now.instant() - state.last_tick.instant();
        assert(d / nanos_per_minute() < 1_000_000_000_000) by (nonlinear_arith)
            requires
                d <= 20_000_000_000_000_000_000_000,
                nanos_per_minute() == 60_000_000_000,
        ;
    }
    let ghost start = *state;
    let base = state.last_tick;
    let ghost n = elapsed_minutes as int;
    let ghost mut prefix: Seq<bool> = Seq::empty();
    let mut i: i64 = 1;
    while i <= elapsed_minutes
        invariant_except_break
            1 <= i <= elapsed_minutes + 1,
            n == elapsed_minutes,
            n == minutes_between(now, start.last_tick),
            start == *old(state),
            base == start.last_tick,
            0 < elapsed_minutes < 1_000_000_000_000,
            prefix.len() == i - 1,
            forall|r: Seq<bool>| prefix.is_prefix_of(r) ==> #[trigger] run_from(start, base, 1, n, r)
                == run_from(*state, base, i as int, n, r),
            forall|r: Seq<bool>| prefix.is_prefix_of(r) ==> #[trigger] run_ok(start, base, 1, n, r)
                == run_ok(*state, base, i as int, n, r),
        ensures
            run_from(start, base, 1, n, prefix) == *state,
            run_ok(start, base, 1, n, prefix),
        decreases elapsed_minutes + 1 - i,
    {
        let ghost before = *state;
        if !base.can_shift_minutes(i) {
            proof {
                assert(prefix.is_prefix_of(prefix));
                assert(!run_ok(*state, base, i as int, n, prefix));
                assert(!run_ok(start, base, 1, n, prefix));
            }
            return Err(Ghost(prefix));
        }
        let t = base.plus_minutes(i);
        assert(t == step_time(base, i as int));
        if !tick_would_fit(state, t) {
            proof {
                assert(prefix.is_prefix_of(prefix));
                assert(!run_ok(*state, base, i as int, n, prefix));
                assert(!run_ok(start, base, 1, n, prefix));
            }
            return Err(Ghost(prefix));
        }
        tick(state, t);
        let ghost roll = *state == ticked(before, t, true);
        assert(*state == ticked(before, t, roll));
        proof {
            let new_prefix = prefix.push(roll);
            assert forall|r: Seq<bool>| new_prefix.is_prefix_of(r) implies prefix.is_prefix_of(r) && r[i - 1] == roll by {
                assert forall|k: int| 0 <= k < prefix.len() implies prefix[k] == r[k] by {
                    assert(new_prefix[k] == prefix[k]);
                }
                assert(r[i - 1] == new_prefix[i - 1]);
            }
            prefix = new_prefix;
        }
        if !state.is_alive {
            assert(prefix.is_prefix_of(prefix));
            break;
        }
        i = i + 1;
    }
    proof {
        assert(prefix.is_prefix_of(prefix));
    }
    state.last_tick = now;
    Ok(Ghost(prefix))
}

} // verus!
