use chrono::{TimeZone, Utc};
use tama_core::actions::{ActionError, Choice};
use tama_core::agent::{
    action_type_for, action_would_fit, after_bridge_exit, handle_agent_request, next_backoff,
    AgentOutcome, BridgeStep, INITIAL_BACKOFF_SECS, MAX_BACKOFF_SECS,
};
use tama_core::permissions::PermissionDenied;
use tama_core::state::{ActionPermission, ActionType, AgentPermissions, Character, LifeStage, PetState};
use tama_core::time::Timestamp;

#[test]
fn test_next_backoff() {
    assert_eq!(next_backoff(2), 4);
    assert_eq!(next_backoff(4), 8);
    assert_eq!(next_backoff(8), 16);
    assert_eq!(next_backoff(16), 30);
    assert_eq!(next_backoff(30), 30);
}

#[test]
fn test_initial_constants() {
    assert_eq!(INITIAL_BACKOFF_SECS, 2);
    assert_eq!(MAX_BACKOFF_SECS, 30);
}

fn noon() -> Timestamp {
    let dt = Utc.with_ymd_and_hms(2024, 6, 15, 12, 0, 0).unwrap();
    Timestamp::from_unix(dt.timestamp(), dt.timestamp_subsec_nanos()).unwrap()
}

fn alive_baby() -> PetState {
    let now = noon();
    let mut state = PetState::new_egg(now);
    state.stage = LifeStage::Baby;
    state.character = Character::Babytchi;
    state.stage_start_time = now;
    state.hunger = 2;
    state.happiness = 2;
    state.is_sleeping = false;
    state.lights_on = true;
    state
}

#[test]
fn action_names_map_to_actions() {
    assert_eq!(action_type_for("feed_meal"), Some(ActionType::FeedMeal));
    assert_eq!(action_type_for("feed_snack"), Some(ActionType::FeedSnack));
    assert_eq!(action_type_for("play_game"), Some(ActionType::PlayGame));
    assert_eq!(action_type_for("discipline"), Some(ActionType::Discipline));
    assert_eq!(action_type_for("give_medicine"), Some(ActionType::GiveMedicine));
    assert_eq!(action_type_for("clean_poop"), Some(ActionType::CleanPoop));
    assert_eq!(action_type_for("toggle_lights"), Some(ActionType::ToggleLights));
    assert_eq!(action_type_for("get_status"), Some(ActionType::GetStatus));
    assert_eq!(action_type_for("feed"), None);
    assert_eq!(action_type_for("feed_meals"), None);
    assert_eq!(action_type_for(""), None);
}

#[test]
fn allowed_request_acts_and_logs() {
    let mut state = alive_baby();
    let mut perms = AgentPermissions::default();
    let now = state.last_tick;
    let outcome = handle_agent_request(&mut state, &mut perms, "feed_meal", None, now);
    assert_eq!(outcome, AgentOutcome::Done);
    assert_eq!(state.hunger, 3);
    assert_eq!(state.weight, 6);
    assert_eq!(perms.action_log.len(), 1);
    assert_eq!(perms.action_log[0].action, ActionType::FeedMeal);
    assert_eq!(perms.action_log[0].timestamp, now);
}

#[test]
fn unknown_request_changes_nothing() {
    let mut state = alive_baby();
    let before = state;
    let mut perms = AgentPermissions::default();
    let outcome = handle_agent_request(&mut state, &mut perms, "pet_the_pet", None, noon());
    assert_eq!(outcome, AgentOutcome::UnknownAction);
    assert_eq!(state, before);
    assert!(perms.action_log.is_empty());
}

#[test]
fn denied_request_leaves_the_pet_alone() {
    let mut state = alive_baby();
    let before = state;
    let mut perms = AgentPermissions::default();
    perms.enabled = false;
    let outcome = handle_agent_request(&mut state, &mut perms, "feed_meal", None, noon());
    assert_eq!(outcome, AgentOutcome::Denied(PermissionDenied::MasterDisabled));
    assert_eq!(state, before);
    assert!(perms.action_log.is_empty());
}

#[test]
fn refused_action_is_not_logged() {
    let mut state = alive_baby();
    let mut perms = AgentPermissions::default();
    let outcome = handle_agent_request(&mut state, &mut perms, "clean_poop", None, noon());
    assert_eq!(outcome, AgentOutcome::Refused(ActionError::NoPoop));
    assert!(perms.action_log.is_empty());
}

#[test]
fn game_without_moves_is_invalid() {
    let mut state = alive_baby();
    let before = state;
    let mut perms = AgentPermissions::default();
    let outcome = handle_agent_request(&mut state, &mut perms, "play_game", None, noon());
    assert_eq!(outcome, AgentOutcome::InvalidMoves);
    assert_eq!(state, before);
    assert!(perms.action_log.is_empty());
}

#[test]
fn game_with_moves_is_played_and_logged() {
    let mut state = alive_baby();
    let mut perms = AgentPermissions::default();
    let moves = [Choice::Left, Choice::Right, Choice::Left, Choice::Right, Choice::Left];
    let outcome = handle_agent_request(&mut state, &mut perms, "play_game", Some(moves), noon());
    assert_eq!(outcome, AgentOutcome::Done);
    assert_eq!(state.weight, 4);
    assert!(state.happiness == 2 || state.happiness == 3);
    assert_eq!(perms.action_log.len(), 1);
}

#[test]
fn status_requests_are_logged_and_rate_limited() {
    let mut state = alive_baby();
    let before = state;
    let mut perms = AgentPermissions::default();
    perms.allowed_actions.insert(
        ActionType::GetStatus,
        ActionPermission { allowed: true, max_per_hour: Some(1) },
    );
    let now = noon();
    assert_eq!(handle_agent_request(&mut state, &mut perms, "get_status", None, now), AgentOutcome::Done);
    assert_eq!(state, before);
    assert_eq!(
        handle_agent_request(&mut state, &mut perms, "get_status", None, now),
        AgentOutcome::Denied(PermissionDenied::RateLimited { action: ActionType::GetStatus, limit: 1, used: 1 })
    );
    assert_eq!(perms.action_log.len(), 1);
}

#[test]
fn bridge_restarts_with_growing_delay_until_shutdown() {
    assert_eq!(after_bridge_exit(false, 2), BridgeStep::Restart { wait_secs: 2, next_backoff: 4 });
    assert_eq!(after_bridge_exit(false, 16), BridgeStep::Restart { wait_secs: 16, next_backoff: 30 });
    assert_eq!(after_bridge_exit(false, 30), BridgeStep::Restart { wait_secs: 30, next_backoff: 30 });
    assert_eq!(after_bridge_exit(true, 8), BridgeStep::Stop);
}

#[test]
fn range_checks_before_actions() {
    let mut s = alive_baby();
    assert!(action_would_fit(&s, ActionType::FeedMeal));
    s.weight = 255;
    assert!(!action_would_fit(&s, ActionType::FeedMeal));
    assert!(!action_would_fit(&s, ActionType::FeedSnack));
    s.is_sleeping = true;
    assert!(action_would_fit(&s, ActionType::FeedMeal));
    s.is_sleeping = false;
    s.weight = 253;
    assert!(action_would_fit(&s, ActionType::FeedSnack));
    s.happiness = 5;
    assert!(!action_would_fit(&s, ActionType::PlayGame));
    assert!(action_would_fit(&s, ActionType::CleanPoop));
    s.pending_discipline_deadline = Some(noon());
    s.discipline = 231;
    assert!(!action_would_fit(&s, ActionType::Discipline));
}
