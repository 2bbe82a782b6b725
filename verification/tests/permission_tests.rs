use chrono::Utc;
use tama_core::permissions::{check_permission, log_action, PermissionDenied};
use tama_core::state::{ActionPermission, ActionType, AgentPermissions};
use tama_core::time::Timestamp;

fn default_permissions() -> AgentPermissions {
    AgentPermissions::default()
}

fn current_time() -> Timestamp {
    let now = Utc::now();
    Timestamp::from_unix(now.timestamp(), now.timestamp_subsec_nanos()).unwrap()
}

fn set_allowed(perms: &mut AgentPermissions, action: ActionType, allowed: bool) {
    let mut p = perms.allowed_actions.get(&action).unwrap();
    p.allowed = allowed;
    perms.allowed_actions.insert(action, p);
}

#[test]
fn master_disabled_denies_all() {
    let mut perms = default_permissions();
    perms.enabled = false;
    let now = current_time();

    let result = check_permission(&mut perms, &ActionType::FeedMeal, now);
    assert_eq!(result, Err(PermissionDenied::MasterDisabled));
}

#[test]
fn action_disabled_denies() {
    let mut perms = default_permissions();
    set_allowed(&mut perms, ActionType::FeedSnack, false);
    let now = current_time();

    let result = check_permission(&mut perms, &ActionType::FeedSnack, now);
    assert_eq!(result, Err(PermissionDenied::ActionDisabled(ActionType::FeedSnack)));
}

#[test]
fn missing_action_treated_as_disabled() {
    let mut perms = default_permissions();
    perms.allowed_actions.remove(&ActionType::Discipline);
    let now = current_time();

    let result = check_permission(&mut perms, &ActionType::Discipline, now);
    assert_eq!(result, Err(PermissionDenied::ActionDisabled(ActionType::Discipline)));
}

#[test]
fn allowed_action_passes() {
    let mut perms = default_permissions();
    let now = current_time();

    let result = check_permission(&mut perms, &ActionType::GetStatus, now);
    assert!(result.is_ok());
}

#[test]
fn rate_limit_enforced() {
    let mut perms = default_permissions();
    perms.allowed_actions.insert(
        ActionType::FeedMeal,
        ActionPermission { allowed: true, max_per_hour: Some(3) },
    );
    let now = current_time();

    for i in 0..3 {
        log_action(&mut perms, ActionType::FeedMeal, now.plus_minutes(-i));
    }

    let result = check_permission(&mut perms, &ActionType::FeedMeal, now);
    assert_eq!(
        result,
        Err(PermissionDenied::RateLimited { action: ActionType::FeedMeal, limit: 3, used: 3 })
    );
}

#[test]
fn rate_limit_allows_when_under() {
    let mut perms = default_permissions();
    perms.allowed_actions.insert(
        ActionType::FeedMeal,
        ActionPermission { allowed: true, max_per_hour: Some(3) },
    );
    let now = current_time();

    log_action(&mut perms, ActionType::FeedMeal, now.plus_minutes(-10));
    log_action(&mut perms, ActionType::FeedMeal, now.plus_minutes(-5));

    let result = check_permission(&mut perms, &ActionType::FeedMeal, now);
    assert!(result.is_ok());
}

#[test]
fn old_log_entries_pruned() {
    let mut perms = default_permissions();
    perms.allowed_actions.insert(
        ActionType::FeedMeal,
        ActionPermission { allowed: true, max_per_hour: Some(3) },
    );
    let now = current_time();

    for i in 0..3 {
        log_action(&mut perms, ActionType::FeedMeal, now.plus_minutes(-120 + i));
    }

    let result = check_permission(&mut perms, &ActionType::FeedMeal, now);
    assert!(result.is_ok());
    assert!(perms.action_log.is_empty());
}

#[test]
fn log_action_appends_entry() {
    let mut perms = default_permissions();
    let now = current_time();

    assert!(perms.action_log.is_empty());
    log_action(&mut perms, ActionType::PlayGame, now);
    assert_eq!(perms.action_log.len(), 1);
    assert_eq!(perms.action_log[0].action, ActionType::PlayGame);
    assert_eq!(perms.action_log[0].timestamp, now);
}

// ── Gating for every action ─────────────────────────────────────────────────

const ALL_ACTIONS: [ActionType; 8] = [
    ActionType::FeedMeal,
    ActionType::FeedSnack,
    ActionType::PlayGame,
    ActionType::Discipline,
    ActionType::GiveMedicine,
    ActionType::CleanPoop,
    ActionType::ToggleLights,
    ActionType::GetStatus,
];

#[test]
fn master_switch_denies_every_action() {
    let now = current_time();
    for action in ALL_ACTIONS {
        let mut perms = default_permissions();
        perms.enabled = false;
        assert_eq!(check_permission(&mut perms, &action, now), Err(PermissionDenied::MasterDisabled));
    }
}

#[test]
fn disabling_an_action_denies_only_it() {
    let now = current_time();
    for action in ALL_ACTIONS {
        let mut perms = default_permissions();
        set_allowed(&mut perms, action, false);
        assert_eq!(check_permission(&mut perms, &action, now), Err(PermissionDenied::ActionDisabled(action)));
        for other in ALL_ACTIONS {
            if other != action {
                assert!(check_permission(&mut perms, &other, now).is_ok());
            }
        }
    }
}

#[test]
fn rate_limit_at_every_level() {
    let now = current_time();
    for limit in 1u32..=10 {
        let mut perms = default_permissions();
        perms.allowed_actions.insert(
            ActionType::CleanPoop,
            ActionPermission { allowed: true, max_per_hour: Some(limit) },
        );
        for i in 0..limit - 1 {
            log_action(&mut perms, ActionType::CleanPoop, now.plus_minutes(-(i as i64)));
        }
        assert!(check_permission(&mut perms, &ActionType::CleanPoop, now).is_ok());
        log_action(&mut perms, ActionType::CleanPoop, now);
        assert_eq!(
            check_permission(&mut perms, &ActionType::CleanPoop, now),
            Err(PermissionDenied::RateLimited { action: ActionType::CleanPoop, limit, used: limit })
        );
    }
}

#[test]
fn other_actions_do_not_count_toward_a_limit() {
    let now = current_time();
    let mut perms = default_permissions();
    perms.allowed_actions.insert(
        ActionType::FeedMeal,
        ActionPermission { allowed: true, max_per_hour: Some(1) },
    );
    log_action(&mut perms, ActionType::FeedSnack, now);
    log_action(&mut perms, ActionType::PlayGame, now);
    assert!(check_permission(&mut perms, &ActionType::FeedMeal, now).is_ok());
    assert_eq!(perms.action_log.len(), 2);
}

#[test]
fn entry_exactly_one_hour_old_still_counts() {
    let now = current_time();
    let mut perms = default_permissions();
    perms.allowed_actions.insert(
        ActionType::FeedMeal,
        ActionPermission { allowed: true, max_per_hour: Some(1) },
    );
    log_action(&mut perms, ActionType::FeedMeal, now.plus_minutes(-60));
    assert_eq!(
        check_permission(&mut perms, &ActionType::FeedMeal, now),
        Err(PermissionDenied::RateLimited { action: ActionType::FeedMeal, limit: 1, used: 1 })
    );
    let mut perms2 = default_permissions();
    log_action(&mut perms2, ActionType::FeedMeal, now.plus_minutes(-61));
    assert!(check_permission(&mut perms2, &ActionType::FeedMeal, now).is_ok());
    assert!(perms2.action_log.is_empty());
}

#[test]
fn pruning_happens_even_when_denied() {
    let now = current_time();
    let mut perms = default_permissions();
    perms.enabled = false;
    log_action(&mut perms, ActionType::FeedMeal, now.plus_minutes(-90));
    log_action(&mut perms, ActionType::FeedMeal, now.plus_minutes(-30));
    assert_eq!(check_permission(&mut perms, &ActionType::FeedMeal, now), Err(PermissionDenied::MasterDisabled));
    assert_eq!(perms.action_log.len(), 1);
    assert_eq!(perms.action_log[0].timestamp, now.plus_minutes(-30));
}

#[test]
fn default_permissions_allow_everything() {
    let perms = default_permissions();
    assert!(perms.enabled);
    assert!(perms.action_log.is_empty());
    for action in ALL_ACTIONS {
        assert_eq!(
            perms.allowed_actions.get(&action),
            Some(ActionPermission { allowed: true, max_per_hour: None })
        );
    }
}
