//! Properties that hold across the library's operations.
use vstd::prelude::*;

use crate::actions::{
    clean_result, discipline_result, game_result, lights_result, meal_result, medicine_result,
    round_result, snack_result, ActionError, Choice, GameSession,
};
use crate::agent::{agent_result, AgentOutcome};
use crate::characters::stats_of;
use crate::engine::{
    awake_before_draw, bedtime_checked, called, death_checked, discipline_deadline_checked,
    drained_carry, hours_between, lights_deadline_checked, minutes_between, not_before, tick_fits,
    ticked,
};
use crate::evolution::evolution_step;
use crate::permissions::{pruned, uses_in_last_hour, PermissionDenied};
use crate::persistence::{restored, run_from};
use crate::state::{ActionType, AgentPermissions, Character, LifeStage, PetState, TeenType};
use crate::time::Timestamp;

verus! {

/// The meters lie within their bounds: hunger and happiness 0–4 hearts,
/// discipline 0–100 in steps of 25, weight at least 1, at most 4 poops.
pub open spec fn meters_valid(s: PetState) -> bool {
    &&& s.hunger <= 4
    &&& s.happiness <= 4
    &&& s.discipline <= 100
    &&& s.discipline % 25 == 0
    &&& s.weight >= 1
    &&& s.poop_count <= 4
}

/// The pet is alive exactly when its stage is not Dead.
pub open spec fn life_consistent(s: PetState) -> bool {
    s.is_alive == (s.stage != LifeStage::Dead)
}

/// The character belongs to the stage, and the teen type is recorded exactly in
/// the Teen, Adult and Special stages.
pub open spec fn stage_consistent(s: PetState) -> bool {
    &&& match s.stage {
        LifeStage::Egg | LifeStage::Baby => s.character == Character::Babytchi,
        LifeStage::Child => s.character == Character::Marutchi,
        LifeStage::Teen => s.character == Character::Tamatchi || s.character == Character::Kuchitamatchi,
        LifeStage::Adult => {
            ||| s.character == Character::Mametchi
            ||| s.character == Character::Ginjirotchi
            ||| s.character == Character::Maskutchi
            ||| s.character == Character::Kuchipatchi
            ||| s.character == Character::Nyorotchi
            ||| s.character == Character::Tarakotchi
        },
        LifeStage::Special => s.character == Character::Oyajitchi,
        LifeStage::Dead => true,
    }
    &&& match s.stage {
        LifeStage::Egg | LifeStage::Baby | LifeStage::Child => s.teen_type is None,
        LifeStage::Teen | LifeStage::Adult | LifeStage::Special => s.teen_type is Some,
        LifeStage::Dead => s.teen_type is None,
    }
}

/// Every action keeps the meters within their bounds.
pub proof fn lemma_actions_keep_meters_valid(
    s: PetState,
    now: Timestamp,
    g: GameSession,
    choice: Choice,
    sequence: Seq<Choice>,
    moves: Seq<Choice>,
)
    requires
        meters_valid(s),
    ensures
        s.weight < 255 ==> meters_valid(meal_result(s).0),
        s.weight < 254 ==> meters_valid(snack_result(s).0),
        meters_valid(round_result(s, g, choice).0),
        meters_valid(game_result(s, sequence, moves).0),
        meters_valid(discipline_result(s).0),
        meters_valid(medicine_result(s).0),
        meters_valid(clean_result(s).0),
        meters_valid(lights_result(s, now).0),
{
}

/// A tick keeps the meters within their bounds.
pub proof fn lemma_tick_keeps_meters_valid(s: PetState, now: Timestamp, roll: bool)
    requires
        meters_valid(s),
    ensures
        meters_valid(ticked(s, now, roll)),
{
    reveal(ticked);
}

/// A tick keeps life and stage consistent with each other and keeps the
/// character and teen type consistent with the stage.
pub proof fn lemma_tick_keeps_stage_consistent(s: PetState, now: Timestamp, roll: bool)
    requires
        life_consistent(s),
        stage_consistent(s),
    ensures
        life_consistent(ticked(s, now, roll)),
        stage_consistent(ticked(s, now, roll)),
{
    reveal(ticked);
    if s.is_alive && s.stage != LifeStage::Egg && !s.is_sleeping {
        let st = stats_of(s.character);
        let b = awake_before_draw(s, now);
        assert(same_identity(b, s));
        let d = called(b, now, roll);
        let x = lights_deadline_checked(bedtime_checked(discipline_deadline_checked(d, now), st, now), st, now);
        assert(same_identity(x, s));
        let y = death_checked(x, st, now);
        assert(life_consistent(y) && stage_consistent(y));
        lemma_evolution_keeps_consistent(y, now);
        assert(ticked(s, now, roll) == PetState { last_tick: now, ..evolution_step(y, now).0 });
    }
}

/// An evolution check keeps life, stage, character and teen type consistent.
proof fn lemma_evolution_keeps_consistent(s: PetState, now: Timestamp)
    requires
        life_consistent(s),
        stage_consistent(s),
    ensures
        life_consistent(evolution_step(s, now).0),
        stage_consistent(evolution_step(s, now).0),
{
}

/// A dead pet does not tick: the state stays exactly as it was.
pub proof fn lemma_dead_pets_do_not_tick(s: PetState, now: Timestamp, roll: bool)
    requires
        !s.is_alive,
    ensures
        ticked(s, now, roll) == s,
{
    reveal(ticked);
}

/// A sleeping pet's hearts do not drain while it sleeps.
pub proof fn lemma_sleeping_pets_keep_their_hearts(s: PetState, now: Timestamp, roll: bool)
    requires
        s.is_alive,
        s.is_sleeping,
        s.stage != LifeStage::Egg,
    ensures
        ticked(s, now, roll).hunger == s.hunger,
        ticked(s, now, roll).happiness == s.happiness,
{
    reveal(ticked);
}

/// Every living pet's clock moves to the time of the tick.
pub proof fn lemma_tick_moves_the_clock(s: PetState, now: Timestamp, roll: bool)
    requires
        s.is_alive,
    ensures
        ticked(s, now, roll).last_tick == now,
{
    reveal(ticked);
}

/// Mistakes and age accumulate: a tick never lowers the care mistakes, the
/// discipline mistakes or the age.
pub proof fn lemma_tick_never_forgets(s: PetState, now: Timestamp, roll: bool)
    requires
        now.well_formed(),
        tick_fits(s, now),
    ensures
        ticked(s, now, roll).care_mistakes >= s.care_mistakes,
        ticked(s, now, roll).discipline_mistakes >= s.discipline_mistakes,
        ticked(s, now, roll).age >= s.age,
{
    reveal(ticked);
    if crate::engine::deadline_fits(now) {
        now.lemma_later_by_minutes(15);
    }
}

/// A dead pet refuses every action with `PetIsDead` and is left unchanged.
pub proof fn lemma_dead_pets_refuse_everything(
    s: PetState,
    now: Timestamp,
    g: GameSession,
    choice: Choice,
    sequence: Seq<Choice>,
    moves: Seq<Choice>,
)
    requires
        !s.is_alive,
    ensures
        meal_result(s) == (s, Err::<crate::actions::ActionResult, ActionError>(ActionError::PetIsDead)),
        snack_result(s) == (s, Err::<crate::actions::ActionResult, ActionError>(ActionError::PetIsDead)),
        round_result(s, g, choice).0 == s,
        round_result(s, g, choice).2 == Err::<crate::actions::RoundOutcome, ActionError>(ActionError::PetIsDead),
        game_result(s, sequence, moves) == (s, Err::<crate::actions::GameResult, ActionError>(ActionError::PetIsDead)),
        discipline_result(s) == (s, Err::<crate::actions::ActionResult, ActionError>(ActionError::PetIsDead)),
        medicine_result(s) == (s, Err::<crate::actions::ActionResult, ActionError>(ActionError::PetIsDead)),
        clean_result(s) == (s, Err::<crate::actions::ActionResult, ActionError>(ActionError::PetIsDead)),
        lights_result(s, now) == (s, Err::<crate::actions::ActionResult, ActionError>(ActionError::PetIsDead)),
{
}

/// Two doses of medicine cure a sick pet that had none yet, and reset the count.
pub proof fn lemma_two_doses_cure(s: PetState)
    requires
        s.is_alive,
        s.is_sick,
        s.sick_dose_count == 0,
    ensures
        medicine_result(s).0.is_sick,
        medicine_result(s).0.sick_dose_count == 1,
        !medicine_result(medicine_result(s).0).0.is_sick,
        medicine_result(medicine_result(s).0).0.sick_dose_count == 0,
{
}

/// A catch-up run keeps the meters within their bounds.
pub proof fn lemma_run_keeps_meters_valid(
    s: PetState,
    base: Timestamp,
    i: int,
    n: int,
    rolls: Seq<bool>,
)
    requires
        meters_valid(s),
    ensures
        meters_valid(run_from(s, base, i, n, rolls)),
    decreases n + 1 - i,
{
    if i <= n {
        let t = crate::persistence::step_time(base, i);
        lemma_tick_keeps_meters_valid(s, t, rolls[i - 1]);
        let next = ticked(s, t, rolls[i - 1]);
        if next.is_alive {
            lemma_run_keeps_meters_valid(next, base, i + 1, n, rolls);
        }
    }
}

/// Loading keeps the meters within their bounds.
pub proof fn lemma_restore_keeps_meters_valid(saved: Option<PetState>, now: Timestamp, rolls: Seq<bool>)
    requires
        saved matches Some(s) ==> meters_valid(s),
    ensures
        meters_valid(restored(saved, now, rolls)),
{
    if let Some(s) = saved {
        let n = minutes_between(now, s.last_tick);
        if n > 0 {
            lemma_run_keeps_meters_valid(s, s.last_tick, 1, n, rolls);
        }
    }
}

/// After loading, the pet's clock reads `now`, whatever time has passed.
pub proof fn lemma_restore_resyncs_the_clock(saved: Option<PetState>, now: Timestamp, rolls: Seq<bool>)
    ensures
        restored(saved, now, rolls).last_tick == now,
{
}

/// The pet's identity: its stage, character, teen type and whether it lives.
pub open spec fn same_identity(a: PetState, b: PetState) -> bool {
    &&& a.stage == b.stage
    &&& a.character == b.character
    &&& a.teen_type == b.teen_type
    &&& a.is_alive == b.is_alive
}

/// No action changes who the pet is: stage, character, teen type and life stay
/// as they were (only ticks make a pet grow or die).
pub proof fn lemma_actions_keep_identity(
    s: PetState,
    now: Timestamp,
    g: GameSession,
    choice: Choice,
    sequence: Seq<Choice>,
    moves: Seq<Choice>,
)
    ensures
        same_identity(meal_result(s).0, s),
        same_identity(snack_result(s).0, s),
        same_identity(round_result(s, g, choice).0, s),
        same_identity(game_result(s, sequence, moves).0, s),
        same_identity(discipline_result(s).0, s),
        same_identity(medicine_result(s).0, s),
        same_identity(clean_result(s).0, s),
        same_identity(lights_result(s, now).0, s),
{
}

/// A living pet that sleeps refuses meals and games with `PetIsSleeping` and is
/// left unchanged.
pub proof fn lemma_sleeping_pets_refuse_food_and_games(s: PetState, sequence: Seq<Choice>, moves: Seq<Choice>)
    requires
        s.is_alive,
        s.is_sleeping,
    ensures
        meal_result(s) == (s, Err::<crate::actions::ActionResult, ActionError>(ActionError::PetIsSleeping)),
        game_result(s, sequence, moves).0 == s,
        game_result(s, sequence, moves).1 == Err::<crate::actions::GameResult, ActionError>(
            ActionError::PetIsSleeping,
        ),
{
}

/// An agent request that is not carried out (an unknown name, or a refusal by the
/// permissions) leaves the pet as it was; with the master switch off, every
/// known action is refused with `MasterDisabled`.
pub proof fn lemma_refused_requests_leave_the_pet_alone(
    s: PetState,
    perms: AgentPermissions,
    name: Seq<char>,
    moves: Option<[Choice; 5]>,
    now: Timestamp,
    sequence: Seq<Choice>,
)
    ensures
        ({
            let r = agent_result(s, perms, name, moves, now, sequence);
            (r.2 == AgentOutcome::UnknownAction || r.2 is Denied) ==> r.0 == s
        }),
        crate::agent::action_named(name) is Some && !perms.enabled ==> agent_result(
            s,
            perms,
            name,
            moves,
            now,
            sequence,
        ).2 == AgentOutcome::Denied(PermissionDenied::MasterDisabled),
{
}

/// An agent never gets more uses of a rate-limited action within an hour than
/// its limit: after a request that was carried out, the log holds at most
/// `limit` uses of that action in the hour before it.
pub proof fn lemma_rate_limits_hold(
    s: PetState,
    perms: AgentPermissions,
    name: Seq<char>,
    moves: Option<[Choice; 5]>,
    now: Timestamp,
    sequence: Seq<Choice>,
    a: ActionType,
    limit: u32,
)
    requires
        perms.action_log@.len() < u32::MAX,
        crate::agent::action_named(name) == Some(a),
        perms.allowed_actions@.contains_key(a),
        perms.allowed_actions@[a].max_per_hour == Some(limit),
        agent_result(s, perms, name, moves, now, sequence).2 == AgentOutcome::Done,
    ensures
        uses_in_last_hour(agent_result(s, perms, name, moves, now, sequence).1, a, now) <= limit,
{
    let kept = pruned(perms.action_log@, now);
    let entry = crate::state::ActionLogEntry { action: a, timestamp: now };
    let f = crate::permissions::use_since(a, crate::permissions::hour_before(now));
    assert(kept.len() <= perms.action_log@.len()) by {
        perms.action_log@.lemma_filter_len(crate::permissions::made_since(crate::permissions::hour_before(now)));
    }
    assert(kept.filter(f).len() <= kept.len()) by {
        kept.lemma_filter_len(f);
    }
    assert(kept.push(entry).filter(f).len() <= kept.filter(f).len() + 1) by {
        kept.lemma_filter_push(entry, f);
    }
}

/// Hearts drain at the character's rate however the elapsed time is split
/// between ticks: decaying over `e1` minutes and then over `e2` more, the spare
/// minutes carried over, leaves the meter and the carry as decaying over
/// `e1 + e2` minutes at once does.
pub proof fn lemma_decay_composes(level: u8, carry: u16, e1: int, e2: int, per_heart: u16)
    requires
        e1 >= 0,
        e2 >= 0,
        per_heart > 0,
    ensures
        ({
            let first = drained_carry(level, carry, e1, per_heart);
            drained_carry(first.0, first.1, e2, per_heart) == drained_carry(level, carry, e1 + e2, per_heart)
        }),
{
    let r = per_heart as int;
    let x1 = carry + e1;
    let q1 = x1 / r;
    let m1 = x1 % r;
    vstd::arithmetic::div_mod::lemma_fundamental_div_mod(x1, r);
    vstd::arithmetic::div_mod::lemma_mod_pos_bound(x1, r);
    vstd::arithmetic::div_mod::lemma_div_pos_is_pos(x1, r);
    let x2 = m1 + e2;
    let q2 = x2 / r;
    let m2 = x2 % r;
    vstd::arithmetic::div_mod::lemma_fundamental_div_mod(x2, r);
    vstd::arithmetic::div_mod::lemma_mod_pos_bound(x2, r);
    vstd::arithmetic::div_mod::lemma_div_pos_is_pos(x2, r);
    assert(carry + e1 + e2 == (q1 + q2) * r + m2) by (nonlinear_arith)
        requires
            x1 == r * q1 + m1,
            x2 == r * q2 + m2,
            x2 == m1 + e2,
            x1 == carry + e1,
    ;
    vstd::arithmetic::div_mod::lemma_fundamental_div_mod_converse(carry + e1 + e2, r, q1 + q2, m2);
}

/// A tick that finds both meters empty for 12 hours or more by the neglect timer
/// leaves the pet dead.
pub proof fn lemma_neglect_kills(s: PetState, now: Timestamp, roll: bool, since: Timestamp)
    requires
        s.is_alive,
        s.stage != LifeStage::Egg,
        !s.is_sleeping,
        s.hunger == 0,
        s.happiness == 0,
        s.neglect_since == Some(since),
        hours_between(now, since) >= 12,
    ensures
        !ticked(s, now, roll).is_alive,
        ticked(s, now, roll).stage == LifeStage::Dead,
{
    reveal(ticked);
}

/// A tick that finds the pet sick for more than 24 hours by the sickness timer
/// leaves it dead.
pub proof fn lemma_untreated_sickness_kills(s: PetState, now: Timestamp, roll: bool, since: Timestamp)
    requires
        s.is_alive,
        s.stage != LifeStage::Egg,
        !s.is_sleeping,
        s.is_sick,
        s.sick_since == Some(since),
        minutes_between(now, since) > 24 * 60,
    ensures
        !ticked(s, now, roll).is_alive,
        ticked(s, now, roll).stage == LifeStage::Dead,
{
    reveal(ticked);
}

/// The tick that passes the lights deadline with the lights still on, within the
/// sleep window, counts a care mistake.
pub proof fn lemma_lights_left_on_cost_a_mistake(s: PetState, now: Timestamp, roll: bool, deadline: Timestamp)
    requires
        s.is_alive,
        s.stage != LifeStage::Egg,
        !s.is_sleeping,
        s.lights_on,
        s.pending_lights_deadline == Some(deadline),
        not_before(now, deadline),
        s.last_tick.instant() < deadline.instant(),
        crate::engine::in_sleep_window(stats_of(s.character), crate::engine::hour_of(now)),
        tick_fits(s, now),
    ensures
        ticked(s, now, roll).care_mistakes > s.care_mistakes,
{
    reveal(ticked);
}

} // verus!
