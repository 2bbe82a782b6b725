use chrono::{TimeZone, Utc};
use tama_core::actions::{
    clean_poop, discipline, feed_meal, feed_snack, give_medicine, play_game, play_round, start_game,
    toggle_lights, ActionError, ActionResult, Choice, GameSession,
};
use tama_core::state::{Character, LifeStage, PetState};
use tama_core::time::Timestamp;

fn at(hour: u32) -> Timestamp {
    let dt = Utc.with_ymd_and_hms(2024, 6, 15, hour, 0, 0).unwrap();
    Timestamp::from_unix(dt.timestamp(), dt.timestamp_subsec_nanos()).unwrap()
}

fn alive_baby() -> PetState {
    let now = at(12);
    let mut state = PetState::new_egg(now);
    state.stage = LifeStage::Baby;
    state.character = Character::Babytchi;
    state.stage_start_time = now;
    state.hunger = 2;
    state.happiness = 2;
    state.is_sleeping = false;
    state.lights_on = true;
    state
}

fn dead_pet() -> PetState {
    let mut state = PetState::new_egg(at(12));
    state.is_alive = false;
    state.stage = LifeStage::Dead;
    state
}

const LEFTS: [Choice; 5] = [Choice::Left, Choice::Left, Choice::Left, Choice::Left, Choice::Left];

#[test]
fn feed_meal_fills_one_heart_and_adds_weight() {
    let mut state = alive_baby();
    assert_eq!(feed_meal(&mut state), Ok(ActionResult::Fed));
    assert_eq!(state.hunger, 3);
    assert_eq!(state.weight, 6);
    state.hunger = 4;
    assert_eq!(feed_meal(&mut state), Ok(ActionResult::Fed));
    assert_eq!(state.hunger, 4);
    assert_eq!(state.weight, 7);
}

#[test]
fn feed_meal_refuses_sleeping_and_sick_pets() {
    let mut state = alive_baby();
    state.is_sleeping = true;
    assert_eq!(feed_meal(&mut state), Err(ActionError::PetIsSleeping));
    state.is_sleeping = false;
    state.is_sick = true;
    let before = state;
    assert_eq!(feed_meal(&mut state), Err(ActionError::PetIsSick));
    assert_eq!(state, before);
}

#[test]
fn feed_snack_fills_happiness_and_adds_two_weight() {
    let mut state = alive_baby();
    assert_eq!(feed_snack(&mut state), Ok(ActionResult::Snacked));
    assert_eq!(state.happiness, 3);
    assert_eq!(state.weight, 7);
    assert_eq!(state.snack_count_since_last_tick, 1);
}

#[test]
fn third_snack_makes_a_baby_sick() {
    let mut state = alive_baby();
    for _ in 0..2 {
        feed_snack(&mut state).unwrap();
        assert!(!state.is_sick);
    }
    feed_snack(&mut state).unwrap();
    assert!(state.is_sick);
}

#[test]
fn snacks_do_not_sicken_older_pets() {
    let mut state = alive_baby();
    state.stage = LifeStage::Child;
    state.character = Character::Marutchi;
    for _ in 0..6 {
        feed_snack(&mut state).unwrap();
    }
    assert!(!state.is_sick);
}

#[test]
fn discipline_with_pending_call() {
    let mut state = alive_baby();
    state.pending_discipline_deadline = Some(state.last_tick.plus_minutes(15));
    assert_eq!(discipline(&mut state), Ok(ActionResult::Disciplined));
    assert_eq!(state.discipline, 25);
    assert!(state.pending_discipline_deadline.is_none());
    state.discipline = 100;
    state.pending_discipline_deadline = Some(state.last_tick);
    discipline(&mut state).unwrap();
    assert_eq!(state.discipline, 100);
}

#[test]
fn discipline_without_pending_call_is_refused() {
    let mut state = alive_baby();
    let before = state;
    assert_eq!(discipline(&mut state), Err(ActionError::NoDisciplineCallPending));
    assert_eq!(state, before);
}

#[test]
fn two_doses_cure_sickness() {
    let mut state = alive_baby();
    state.is_sick = true;
    state.sick_dose_count = 0;
    give_medicine(&mut state).unwrap();
    assert!(state.is_sick);
    assert_eq!(state.sick_dose_count, 1);
    give_medicine(&mut state).unwrap();
    assert!(!state.is_sick);
    assert_eq!(state.sick_dose_count, 0);
}

#[test]
fn medicine_for_a_healthy_pet_is_refused() {
    let mut state = alive_baby();
    assert_eq!(give_medicine(&mut state), Err(ActionError::PetIsNotSick));
}

#[test]
fn clean_poop_removes_one() {
    let mut state = alive_baby();
    state.poop_count = 3;
    assert_eq!(clean_poop(&mut state), Ok(ActionResult::Cleaned));
    assert_eq!(state.poop_count, 2);
    state.poop_count = 0;
    assert_eq!(clean_poop(&mut state), Err(ActionError::NoPoop));
}

#[test]
fn lights_off_at_noon_does_not_put_to_sleep() {
    let mut state = alive_baby();
    state.pending_lights_deadline = Some(at(12));
    assert_eq!(toggle_lights(&mut state, at(12)), Ok(ActionResult::LightsToggled));
    assert!(!state.lights_on);
    assert!(state.pending_lights_deadline.is_none());
    assert!(!state.is_sleeping);
    toggle_lights(&mut state, at(12)).unwrap();
    assert!(state.lights_on);
}

#[test]
fn lights_off_at_night_puts_to_sleep() {
    let mut state = alive_baby();
    toggle_lights(&mut state, at(22)).unwrap();
    assert!(!state.lights_on);
    assert!(state.is_sleeping);
}

#[test]
fn dead_pet_refuses_every_action() {
    let mut s = dead_pet();
    let before = s;
    assert_eq!(feed_meal(&mut s), Err(ActionError::PetIsDead));
    assert_eq!(feed_snack(&mut s), Err(ActionError::PetIsDead));
    assert_eq!(play_game(&mut s, LEFTS), Err(ActionError::PetIsDead));
    assert_eq!(discipline(&mut s), Err(ActionError::PetIsDead));
    assert_eq!(give_medicine(&mut s), Err(ActionError::PetIsDead));
    assert_eq!(clean_poop(&mut s), Err(ActionError::PetIsDead));
    assert_eq!(toggle_lights(&mut s, at(12)), Err(ActionError::PetIsDead));
    assert_eq!(s, before);
}

#[test]
fn sleeping_pet_refuses_meals_and_games() {
    let mut state = alive_baby();
    state.is_sleeping = true;
    assert_eq!(feed_meal(&mut state), Err(ActionError::PetIsSleeping));
    assert_eq!(play_game(&mut state, LEFTS), Err(ActionError::PetIsSleeping));
    assert_eq!(start_game(&state), Err(ActionError::PetIsSleeping));
}

#[test]
fn game_always_costs_one_weight() {
    let mut state = alive_baby();
    let result = play_game(&mut state, LEFTS).unwrap();
    assert_eq!(result.rounds, 5);
    assert!(result.wins <= 5);
    assert_eq!(state.weight, 4);
    if result.wins >= 3 {
        assert_eq!(state.happiness, 3);
        assert_eq!(result.happiness_gained, 1);
    } else {
        assert_eq!(state.happiness, 2);
        assert_eq!(result.happiness_gained, 0);
    }
    state.weight = 1;
    play_game(&mut state, LEFTS).unwrap();
    assert_eq!(state.weight, 1);
}

#[test]
fn rounds_against_a_known_sequence() {
    let mut state = alive_baby();
    let mut session = GameSession {
        sequence: [Choice::Left, Choice::Right, Choice::Left, Choice::Right, Choice::Left],
        round: 0,
        wins: 0,
    };
    let moves = [Choice::Left, Choice::Right, Choice::Right, Choice::Right, Choice::Right];
    for (i, m) in moves.iter().enumerate() {
        let outcome = play_round(&mut state, &mut session, *m).unwrap();
        assert_eq!(outcome.round, i + 1);
        assert_eq!(outcome.won, moves[i] == session.sequence[i]);
        assert_eq!(outcome.finished, i == 4);
        if i < 4 {
            assert_eq!(outcome.happiness_gained, 0);
            assert_eq!(state.weight, 5);
        }
    }
    assert_eq!(session.wins, 3);
    assert_eq!(state.happiness, 3);
    assert_eq!(state.weight, 4);
    assert_eq!(play_round(&mut state, &mut session, Choice::Left), Err(ActionError::GameAlreadyFinished));
}

#[test]
fn full_hearts_stay_full_after_a_won_game() {
    let mut state = alive_baby();
    state.happiness = 4;
    let mut session = GameSession { sequence: LEFTS, round: 0, wins: 0 };
    let mut last = None;
    for _ in 0..5 {
        last = Some(play_round(&mut state, &mut session, Choice::Left).unwrap());
    }
    let outcome = last.unwrap();
    assert_eq!(outcome.wins, 5);
    assert_eq!(outcome.happiness_gained, 0);
    assert_eq!(state.happiness, 4);
}

#[test]
fn new_game_starts_at_round_zero() {
    let state = alive_baby();
    let session = start_game(&state).unwrap();
    assert_eq!(session.round, 0);
    assert_eq!(session.wins, 0);
}
