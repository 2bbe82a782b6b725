//! What the player (or an agent) can do to the pet.
use vstd::prelude::*;

use crate::characters::{stats_of, CharacterStats};
use crate::engine::{hour_of, in_sleep_window};
use crate::rng::chance;
use crate::state::{LifeStage, PetState};
use crate::time::Timestamp;

verus! {

/// A side in the left-or-right guessing game.
#[derive(Clone, Copy, Debug, PartialEq, Eq, Structural)]
pub enum Choice {
    Left,
    Right,
}

/// What a successful action did.
#[derive(Clone, Copy, Debug, PartialEq, Eq, Structural)]
pub enum ActionResult {
    Fed,
    Snacked,
    Disciplined,
    MedicineGiven,
    Cleaned,
    LightsToggled,
}

/// Why an action was refused.
#[derive(Clone, Copy, Debug, PartialEq, Eq, Structural)]
pub enum ActionError {
    PetIsDead,
    PetIsSleeping,
    PetIsNotSick,
    PetIsSick,
    NoDisciplineCallPending,
    NoPoop,
    GameAlreadyFinished,
}

/// The outcome of a whole game.
#[derive(Clone, Copy, Debug, PartialEq, Eq, Structural)]
pub struct GameResult {
    pub rounds: u8,
    pub wins: u8,
    pub happiness_gained: u8,
}

/// A game in progress: the pet's five hidden choices, the round reached and the
/// rounds won so far.
#[derive(Clone, Copy, Debug, PartialEq, Eq)]
pub struct GameSession {
    pub sequence: [Choice; 5],
    pub round: usize,
    pub wins: u8,
}

/// The outcome of one round.
#[derive(Clone, Copy, Debug, PartialEq, Eq, Structural)]
pub struct RoundOutcome {
    pub pet_choice: Choice,
    pub won: bool,
    pub round: usize,
    pub wins: u8,
    pub finished: bool,
    pub happiness_gained: u8,
    pub weight: u8,
}

/// `v + 1`, capped at 4 hearts.
pub open spec fn heart_up(v: u8) -> u8 {
    if v + 1 < 4 { (v + 1) as u8 } else { 4 }
}

/// `w - 1`, but never below 1.
pub open spec fn slimmed(w: u8) -> u8 {
    if w > 1 { (w - 1) as u8 } else { 1 }
}

/// The error of an action that needs a living, awake, healthy pet, if any.
pub open spec fn fit_check(s: PetState) -> Option<ActionError> {
    if !s.is_alive {
        Some(ActionError::PetIsDead)
    } else if s.is_sleeping {
        Some(ActionError::PetIsSleeping)
    } else if s.is_sick {
        Some(ActionError::PetIsSick)
    } else {
        None
    }
}

// ── Feeding ─────────────────────────────────────────────────────────────────

pub open spec fn meal_result(s: PetState) -> (PetState, Result<ActionResult, ActionError>) {
    match fit_check(s) {
        Some(e) => (s, Err(e)),
        None => (
            PetState { hunger: heart_up(s.hunger), weight: (s.weight + 1) as u8, neglect_since: None, ..s },
            Ok(ActionResult::Fed),
        ),
    }
}

/// A meal can be fed without leaving the integer ranges.
pub open spec fn meal_fits(s: PetState) -> bool {
    fit_check(s) is None ==> s.hunger < 255 && s.weight < 255
}

/// Feeds a meal: one hunger heart (up to 4) and one unit of weight; the meters
/// are no longer both empty, so the neglect timer stops. Refused for a dead, sleeping or sick pet.
pub fn feed_meal(state: &mut PetState) -> (r: Result<ActionResult, ActionError>)
    requires
        meal_fits(*old(state)),
    ensures
        (*final(state), r) == meal_result(*old(state)),
{
    if !state.is_alive {
        return Err(ActionError::PetIsDead);
    }
    if state.is_sleeping {
        return Err(ActionError::PetIsSleeping);
    }
    if state.is_sick {
        return Err(ActionError::PetIsSick);
    }
    let h = state.hunger + 1;
    state.hunger = if h < 4 { h } else { 4 };
    state.weight += 1;
    state.neglect_since = None;
    Ok(ActionResult::Fed)
}

pub open spec fn snack_result(s: PetState) -> (PetState, Result<ActionResult, ActionError>) {
    if !s.is_alive {
        (s, Err(ActionError::PetIsDead))
    } else if s.is_sleeping {
        (s, Err(ActionError::PetIsSleeping))
    } else {
        let snacks = (s.snack_count_since_last_tick + 1) as u8;
        (
            PetState {
                happiness: heart_up(s.happiness),
                weight: (s.weight + 2) as u8,
                snack_count_since_last_tick: snacks,
                is_sick: if s.stage == LifeStage::Baby && snacks >= 3 { true } else { s.is_sick },
                neglect_since: None,
                ..s
            },
            Ok(ActionResult::Snacked),
        )
    }
}

/// A snack can be fed without leaving the integer ranges.
pub open spec fn snack_fits(s: PetState) -> bool {
    s.is_alive && !s.is_sleeping ==> {
        &&& s.happiness < 255
        &&& s.weight < 254
        &&& s.snack_count_since_last_tick < 255
    }
}

/// Feeds a snack: one happiness heart (up to 4), two units of weight, and one
/// more snack on the counter; a baby with 3 snacks or more falls sick. The
/// neglect timer stops. Refused for a dead or sleeping pet.
pub fn feed_snack(state: &mut PetState) -> (r: Result<ActionResult, ActionError>)
    requires
        snack_fits(*old(state)),
    ensures
        (*final(state), r) == snack_result(*old(state)),
{
    if !state.is_alive {
        return Err(ActionError::PetIsDead);
    }
    if state.is_sleeping {
        return Err(ActionError::PetIsSleeping);
    }
    let h = state.happiness + 1;
    state.happiness = if h < 4 { h } else { 4 };
    state.weight += 2;
    state.snack_count_since_last_tick += 1;
    state.neglect_since = None;
    if state.stage == LifeStage::Baby && state.snack_count_since_last_tick >= 3 {
        state.is_sick = true;
    }
    Ok(ActionResult::Snacked)
}

// ── The guessing game ───────────────────────────────────────────────────────

/// Starts a game: the pet draws five hidden choices, each left or right with
/// equal chance. Refused for a dead, sleeping or sick pet.
pub fn start_game(state: &PetState) -> (r: Result<GameSession, ActionError>)
    ensures
        match fit_check(*state) {
            Some(e) => r == Err::<GameSession, ActionError>(e),
            None => r matches Ok(g) && g.round == 0 && g.wins == 0,
        },
{
    if !state.is_alive {
        return Err(ActionError::PetIsDead);
    }
    if state.is_sleeping {
        return Err(ActionError::PetIsSleeping);
    }
    if state.is_sick {
        return Err(ActionError::PetIsSick);
    }
    let c0 = random_side();
    let c1 = random_side();
    let c2 = random_side();
    let c3 = random_side();
    let c4 = random_side();
    Ok(GameSession { sequence: [c0, c1, c2, c3, c4], round: 0, wins: 0 })
}

/// Left or right, with equal chance.
fn random_side() -> Choice {
    if chance(1, 2) {
        Choice::Left
    } else {
        Choice::Right
    }
}

pub open spec fn round_error(s: PetState, g: GameSession) -> Option<ActionError> {
    match fit_check(s) {
        Some(e) => Some(e),
        None => if g.round >= 5 { Some(ActionError::GameAlreadyFinished) } else { None },
    }
}

/// The state, session and outcome after playing `choice` in a round of `g`.
pub open spec fn round_result(s: PetState, g: GameSession, choice: Choice) -> (
    PetState,
    GameSession,
    Result<RoundOutcome, ActionError>,
) {
    match round_error(s, g) {
        Some(e) => (s, g, Err(e)),
        None => {
            let pet_choice = g.sequence@[g.round as int];
            let won = choice == pet_choice;
            let wins = if won { (g.wins + 1) as u8 } else { g.wins };
            let round = (g.round + 1) as usize;
            let finished = round == 5;
            let happiness = if finished && wins >= 3 { heart_up(s.happiness) } else { s.happiness };
            let weight = if finished { slimmed(s.weight) } else { s.weight };
            (
                PetState {
                    happiness,
                    weight,
                    neglect_since: if finished && wins >= 3 { None } else { s.neglect_since },
                    ..s
                },
                GameSession { sequence: g.sequence, round, wins },
                Ok(
                    RoundOutcome {
                        pet_choice,
                        won,
                        round,
                        wins,
                        finished,
                        happiness_gained: (happiness - s.happiness) as u8,
                        weight,
                    },
                ),
            )
        },
    }
}

/// The wins of `g` after a round played with `choice`.
pub open spec fn won_wins(g: GameSession, choice: Choice) -> int {
    if choice == g.sequence@[g.round as int] { g.wins + 1 } else { g.wins as int }
}

/// A round can be played without leaving the integer ranges: the win count
/// stays a byte, and a game won with 3 or more wins starts from at most 4 hearts.
pub open spec fn round_fits(s: PetState, g: GameSession, choice: Choice) -> bool {
    round_error(s, g) is None ==> {
        &&& g.wins < 255
        &&& (g.round + 1 == 5 && won_wins(g, choice) >= 3 ==> s.happiness <= 4)
    }
}

/// Plays one round: the player wins it where `choice` matches the pet's hidden
/// choice. After the fifth round, 3 or more wins give one happiness heart (up to
/// 4) and stop the neglect timer, and the pet loses one unit of weight (never
/// below 1). Refused for a dead, sleeping or sick pet, and once five rounds are
/// played.
pub fn play_round(state: &mut PetState, session: &mut GameSession, choice: Choice) -> (r: Result<
    RoundOutcome,
    ActionError,
>)
    requires
        round_fits(*old(state), *old(session), choice),
    ensures
        (*final(state), *final(session), r) == round_result(*old(state), *old(session), choice),
{
    if !state.is_alive {
        return Err(ActionError::PetIsDead);
    }
    if state.is_sleeping {
        return Err(ActionError::PetIsSleeping);
    }
    if state.is_sick {
        return Err(ActionError::PetIsSick);
    }
    if session.round >= 5 {
        return Err(ActionError::GameAlreadyFinished);
    }
    let pet_choice = session.sequence[session.round];
    let won = choice == pet_choice;
    if won {
        session.wins += 1;
    }
    session.round += 1;
    let finished = session.round == 5;
    let (happiness_gained, weight) = if finished {
        let gained = if session.wins >= 3 {
            let old_happiness = state.happiness;
            let h = old_happiness + 1;
            state.happiness = if h < 4 { h } else { 4 };
            state.neglect_since = None;
            state.happiness - old_happiness
        } else {
            0
        };
        let w = state.weight.saturating_sub(1);
        state.weight = if w < 1 { 1 } else { w };
        (gained, state.weight)
    } else {
        (0, state.weight)
    };
    Ok(RoundOutcome {
        pet_choice,
        won,
        round: session.round,
        wins: session.wins,
        finished,
        happiness_gained,
        weight,
    })
}

/// Number of rounds among the first `n` where the move matches the pet's choice.
pub open spec fn wins_in(sequence: Seq<Choice>, moves: Seq<Choice>, n: int) -> int
    decreases n,
{
    if n <= 0 {
        0
    } else {
        wins_in(sequence, moves, n - 1) + if moves[n - 1] == sequence[n - 1] { 1int } else { 0 }
    }
}

/// Rounds won lie between 0 and the rounds played.
pub proof fn lemma_wins_in_bounds(sequence: Seq<Choice>, moves: Seq<Choice>, n: int)
    requires
        n >= 0,
    ensures
        0 <= wins_in(sequence, moves, n) <= n,
    decreases n,
{
    if n > 0 {
        lemma_wins_in_bounds(sequence, moves, n - 1);
    }
}

/// The state and result of a whole game against the hidden choices `sequence`.
pub open spec fn game_result(s: PetState, sequence: Seq<Choice>, moves: Seq<Choice>) -> (
    PetState,
    Result<GameResult, ActionError>,
) {
    match fit_check(s) {
        Some(e) => (s, Err(e)),
        None => {
            let wins = wins_in(sequence, moves, 5);
            let happiness = if wins >= 3 { heart_up(s.happiness) } else { s.happiness };
            (
                PetState {
                    happiness,
                    weight: slimmed(s.weight),
                    neglect_since: if wins >= 3 { None } else { s.neglect_since },
                    ..s
                },
                Ok(
                    GameResult {
                        rounds: 5,
                        wins: wins as u8,
                        happiness_gained: (happiness - s.happiness) as u8,
                    },
                ),
            )
        },
    }
}

/// A game can be played without leaving the integer ranges, however it goes.
pub open spec fn game_fits(s: PetState) -> bool {
    fit_check(s) is None ==> s.happiness <= 4
}

/// Plays a whole game of five rounds with `moves` against five hidden choices
/// drawn by the pet. 3 or more wins give one happiness heart (up to 4) and stop
/// the neglect timer; the pet always loses one unit of weight (never below 1). Refused for a dead, sleeping
/// or sick pet.
pub fn play_game(state: &mut PetState, moves: [Choice; 5]) -> (r: Result<GameResult, ActionError>)
    requires
        game_fits(*old(state)),
    ensures
        exists|sequence: Seq<Choice>|
            sequence.len() == 5 && (*final(state), r) == #[trigger] game_result(*old(state), sequence, moves@),
{
    let mut session = match start_game(state) {
        Ok(g) => g,
        Err(e) => {
            assert((*state, Err::<GameResult, ActionError>(e)) == game_result(*state, seq![Choice::Left, Choice::Left, Choice::Left, Choice::Left, Choice::Left], moves@));
            return Err(e);
        },
    };
    let ghost start = *state;
    let ghost sequence = session.sequence@;
    let mut last: Option<RoundOutcome> = None;
    let mut i: usize = 0;
    while i < 5
        invariant
            0 <= i <= 5,
            fit_check(start) is None,
            start.happiness <= 4,
            sequence.len() == 5,
            session.sequence@ == sequence,
            session.round == i,
            session.wins == wins_in(sequence, moves@, i as int),
            i < 5 ==> *state == start,
            i == 5 ==> (*state, Ok::<GameResult, ActionError>(GameResult {
                rounds: 5,
                wins: session.wins,
                happiness_gained: last.unwrap().happiness_gained,
            })) == game_result(start, sequence, moves@),
            i > 0 <==> last is Some,
            last matches Some(o) ==> o.wins == session.wins,
        decreases 5 - i,
    {
        proof {
            lemma_wins_in_bounds(sequence, moves@, i as int);
            lemma_wins_in_bounds(sequence, moves@, 5);
        }
        let outcome = match play_round(state, &mut session, moves[i]) {
            Ok(o) => o,
            Err(e) => {
                return Err(e);
            },
        };
        last = Some(outcome);
        i = i + 1;
    }
    let outcome = last.unwrap();
    let r = Ok(GameResult { rounds: 5, wins: outcome.wins, happiness_gained: outcome.happiness_gained });
    assert((*state, r) == game_result(start, sequence, moves@));
    r
}

// ── Discipline, medicine, cleaning ──────────────────────────────────────────

pub open spec fn discipline_result(s: PetState) -> (PetState, Result<ActionResult, ActionError>) {
    if !s.is_alive {
        (s, Err(ActionError::PetIsDead))
    } else if s.pending_discipline_deadline is None {
        (s, Err(ActionError::NoDisciplineCallPending))
    } else {
        let d = s.discipline + 25;
        (
            PetState {
                discipline: if d < 100 { d as u8 } else { 100 },
                pending_discipline_deadline: None,
                ..s
            },
            Ok(ActionResult::Disciplined),
        )
    }
}

/// A discipline call can be answered without leaving the integer ranges.
pub open spec fn discipline_fits(s: PetState) -> bool {
    s.is_alive && s.pending_discipline_deadline is Some ==> s.discipline <= 230
}

/// Answers a pending discipline call: discipline rises by 25 (up to 100) and the
/// call is cleared. Refused for a dead pet, and where no call is pending.
pub fn discipline(state: &mut PetState) -> (r: Result<ActionResult, ActionError>)
    requires
        discipline_fits(*old(state)),
    ensures
        (*final(state), r) == discipline_result(*old(state)),
{
    if !state.is_alive {
        return Err(ActionError::PetIsDead);
    }
    if state.pending_discipline_deadline.is_none() {
        return Err(ActionError::NoDisciplineCallPending);
    }
    let d = state.discipline + 25;
    state.discipline = if d < 100 { d } else { 100 };
    state.pending_discipline_deadline = None;
    Ok(ActionResult::Disciplined)
}

pub open spec fn medicine_result(s: PetState) -> (PetState, Result<ActionResult, ActionError>) {
    if !s.is_alive {
        (s, Err(ActionError::PetIsDead))
    } else if !s.is_sick {
        (s, Err(ActionError::PetIsNotSick))
    } else if s.sick_dose_count + 1 >= 2 {
        (PetState { is_sick: false, sick_dose_count: 0, sick_since: None, ..s }, Ok(ActionResult::MedicineGiven))
    } else {
        (
            PetState { sick_dose_count: (s.sick_dose_count + 1) as u8, ..s },
            Ok(ActionResult::MedicineGiven),
        )
    }
}

/// A dose can be given without leaving the integer ranges.
pub open spec fn medicine_fits(s: PetState) -> bool {
    s.is_alive && s.is_sick ==> s.sick_dose_count < 255
}

/// Gives one dose of medicine to a sick pet; the second dose cures it, resets
/// the dose count and stops the sickness timer. Refused for a dead pet and for a healthy one.
pub fn give_medicine(state: &mut PetState) -> (r: Result<ActionResult, ActionError>)
    requires
        medicine_fits(*old(state)),
    ensures
        (*final(state), r) == medicine_result(*old(state)),
{
    if !state.is_alive {
        return Err(ActionError::PetIsDead);
    }
    if !state.is_sick {
        return Err(ActionError::PetIsNotSick);
    }
    state.sick_dose_count += 1;
    if state.sick_dose_count >= 2 {
        state.is_sick = false;
        state.sick_dose_count = 0;
        state.sick_since = None;
    }
    Ok(ActionResult::MedicineGiven)
}

pub open spec fn clean_result(s: PetState) -> (PetState, Result<ActionResult, ActionError>) {
    if !s.is_alive {
        (s, Err(ActionError::PetIsDead))
    } else if s.poop_count == 0 {
        (s, Err(ActionError::NoPoop))
    } else {
        (PetState { poop_count: (s.poop_count - 1) as u8, ..s }, Ok(ActionResult::Cleaned))
    }
}

/// Cleans up one poop. Refused for a dead pet and where there is none.
pub fn clean_poop(state: &mut PetState) -> (r: Result<ActionResult, ActionError>)
    ensures
        (*final(state), r) == clean_result(*old(state)),
{
    if !state.is_alive {
        return Err(ActionError::PetIsDead);
    }
    if state.poop_count == 0 {
        return Err(ActionError::NoPoop);
    }
    state.poop_count -= 1;
    Ok(ActionResult::Cleaned)
}

// ── Lights ──────────────────────────────────────────────────────────────────

pub open spec fn lights_result(s: PetState, now: Timestamp) -> (PetState, Result<ActionResult, ActionError>) {
    if !s.is_alive {
        (s, Err(ActionError::PetIsDead))
    } else if s.lights_on {
        (
            PetState {
                lights_on: false,
                pending_lights_deadline: None,
                is_sleeping: if in_sleep_window(stats_of(s.character), hour_of(now)) {
                    true
                } else {
                    s.is_sleeping
                },
                ..s
            },
            Ok(ActionResult::LightsToggled),
        )
    } else {
        (PetState { lights_on: true, ..s }, Ok(ActionResult::LightsToggled))
    }
}

/// Turns the lights off or on. Turning them off clears a pending lights deadline
/// and, within the character's sleep window, puts the pet to sleep.
/// Refused for a dead pet.
pub fn toggle_lights(state: &mut PetState, now: Timestamp) -> (r: Result<ActionResult, ActionError>)
    ensures
        (*final(state), r) == lights_result(*old(state), now),
{
    if !state.is_alive {
        return Err(ActionError::PetIsDead);
    }
    let was_on = state.lights_on;
    state.lights_on = !was_on;
    if was_on {
        state.pending_lights_deadline = None;
        let stats = CharacterStats::for_character(&state.character);
        let hour = now.hour();
        let should_sleep = if stats.sleep_hour > stats.wake_hour {
            hour >= stats.sleep_hour || hour < stats.wake_hour
        } else {
            hour >= stats.sleep_hour && hour < stats.wake_hour
        };
        if should_sleep {
            state.is_sleeping = true;
        }
    }
    Ok(ActionResult::LightsToggled)
}

} // verus!
