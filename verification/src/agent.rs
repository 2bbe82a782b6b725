//! Requests from AI agents: name lookup, permission gating, the action itself and
//! the log entry; and the restart backoff of the agent bridge.
use vstd::prelude::*;
use vstd::string::StrSliceExecFns;

use crate::actions::{
    clean_poop, clean_result, discipline, discipline_fits, discipline_result, feed_meal, feed_snack,
    game_fits, game_result, give_medicine, lights_result, meal_fits, meal_result, medicine_fits,
    medicine_result, play_game, snack_fits, snack_result, toggle_lights, ActionError, ActionResult,
    Choice,
};
use crate::permissions::{check_permission, hour_before_fits, log_action, pruned, verdict, PermissionDenied};
use crate::state::{ActionLogEntry, ActionType, AgentPermissions, PetState};
use crate::time::Timestamp;

verus! {

// ── Restart backoff ─────────────────────────────────────────────────────────

/// Seconds to wait before the first restart of the agent bridge.
pub const INITIAL_BACKOFF_SECS: u64 = 2;

/// Longest wait between two restarts, in seconds.
pub const MAX_BACKOFF_SECS: u64 = 30;

/// The next restart delay: double the current one, at most `MAX_BACKOFF_SECS`.
pub fn next_backoff(current: u64) -> (r: u64)
    requires
        current * 2 <= u64::MAX,
    ensures
        r == if current * 2 < MAX_BACKOFF_SECS { current * 2 } else { MAX_BACKOFF_SECS as int },
{
    let doubled = current * 2;
    if doubled < MAX_BACKOFF_SECS {
        doubled
    } else {
        MAX_BACKOFF_SECS
    }
}

/// What the supervisor of the agent bridge does once the bridge has exited or
/// failed to start.
#[derive(Clone, Copy, Debug, PartialEq, Eq, Structural)]
pub enum BridgeStep {
    /// Shutdown was asked for: stop supervising.
    Stop,
    /// Wait `wait_secs` seconds, start the bridge again, and wait `next_backoff`
    /// seconds should that one end too.
    Restart { wait_secs: u64, next_backoff: u64 },
}

/// The supervisor's decision after the bridge ended, with `backoff` the current
/// restart delay: stop where shutdown was asked for, else restart after `backoff`
/// seconds and double the delay (at most `MAX_BACKOFF_SECS`).
pub fn after_bridge_exit(cancelled: bool, backoff: u64) -> (r: BridgeStep)
    requires
        backoff * 2 <= u64::MAX,
    ensures
        cancelled ==> r == BridgeStep::Stop,
        !cancelled ==> r == (BridgeStep::Restart {
            wait_secs: backoff,
            next_backoff: if backoff * 2 < MAX_BACKOFF_SECS { (backoff * 2) as u64 } else { MAX_BACKOFF_SECS },
        }),
{
    if cancelled {
        BridgeStep::Stop
    } else {
        BridgeStep::Restart { wait_secs: backoff, next_backoff: next_backoff(backoff) }
    }
}

// ── Action names ────────────────────────────────────────────────────────────

/// Two strings hold the same characters.
fn same_text(a: &str, b: &str) -> (r: bool)
    ensures
        r == (a@ == b@),
{
    let n = a.unicode_len();
    if n != b.unicode_len() {
        return false;
    }
    let mut i: usize = 0;
    while i < n
        invariant
            n == a@.len(),
            n == b@.len(),
            i <= n,
            forall|k: int| 0 <= k < i ==> a@[k] == b@[k],
        decreases n - i,
    {
        if a.get_char(i) != b.get_char(i) {
            return false;
        }
        i = i + 1;
    }
    assert(a@ =~= b@);
    true
}

/// The action that an agent names.
pub open spec fn action_named(name: Seq<char>) -> Option<ActionType> {
    if name == "feed_meal"@ {
        Some(ActionType::FeedMeal)
    } else if name == "feed_snack"@ {
        Some(ActionType::FeedSnack)
    } else if name == "play_game"@ {
        Some(ActionType::PlayGame)
    } else if name == "discipline"@ {
        Some(ActionType::Discipline)
    } else if name == "give_medicine"@ {
        Some(ActionType::GiveMedicine)
    } else if name == "clean_poop"@ {
        Some(ActionType::CleanPoop)
    } else if name == "toggle_lights"@ {
        Some(ActionType::ToggleLights)
    } else if name == "get_status"@ {
        Some(ActionType::GetStatus)
    } else {
        None
    }
}

/// Maps the name of an agent request to the action it asks for.
pub fn action_type_for(action: &str) -> (r: Option<ActionType>)
    ensures
        r == action_named(action@),
{
    if same_text(action, "feed_meal") {
        Some(ActionType::FeedMeal)
    } else if same_text(action, "feed_snack") {
        Some(ActionType::FeedSnack)
    } else if same_text(action, "play_game") {
        Some(ActionType::PlayGame)
    } else if same_text(action, "discipline") {
        Some(ActionType::Discipline)
    } else if same_text(action, "give_medicine") {
        Some(ActionType::GiveMedicine)
    } else if same_text(action, "clean_poop") {
        Some(ActionType::CleanPoop)
    } else if same_text(action, "toggle_lights") {
        Some(ActionType::ToggleLights)
    } else if same_text(action, "get_status") {
        Some(ActionType::GetStatus)
    } else {
        None
    }
}

// ── Handling a request ──────────────────────────────────────────────────────

/// What an agent's request came to.
#[derive(Clone, Copy, Debug, PartialEq, Eq, Structural)]
pub enum AgentOutcome {
    /// The name is not one of the actions.
    UnknownAction,
    /// The permissions refused the action.
    Denied(PermissionDenied),
    /// A game was asked for without five valid moves.
    InvalidMoves,
    /// The pet refused the action.
    Refused(ActionError),
    /// The action was performed (for a status request: nothing changed).
    Done,
}

pub open spec fn as_outcome(r: (PetState, Result<ActionResult, ActionError>)) -> (PetState, AgentOutcome) {
    (r.0, match r.1 { Ok(_) => AgentOutcome::Done, Err(e) => AgentOutcome::Refused(e) })
}

/// The pet and the outcome after performing `action` at `now`, a game being
/// played with `moves` against the hidden choices `sequence`.
pub open spec fn performed(
    s: PetState,
    action: ActionType,
    moves: Option<[Choice; 5]>,
    now: Timestamp,
    sequence: Seq<Choice>,
) -> (PetState, AgentOutcome) {
    match action {
        ActionType::GetStatus => (s, AgentOutcome::Done),
        ActionType::FeedMeal => as_outcome(meal_result(s)),
        ActionType::FeedSnack => as_outcome(snack_result(s)),
        ActionType::PlayGame => match moves {
            None => (s, AgentOutcome::InvalidMoves),
            Some(m) => {
                let g = game_result(s, sequence, m@);
                (g.0, match g.1 { Ok(_) => AgentOutcome::Done, Err(e) => AgentOutcome::Refused(e) })
            },
        },
        ActionType::Discipline => as_outcome(discipline_result(s)),
        ActionType::GiveMedicine => as_outcome(medicine_result(s)),
        ActionType::CleanPoop => as_outcome(clean_result(s)),
        ActionType::ToggleLights => as_outcome(lights_result(s, now)),
    }
}

/// The action can be performed without leaving the integer ranges.
pub open spec fn perform_fits(s: PetState, action: ActionType) -> bool {
    match action {
        ActionType::FeedMeal => meal_fits(s),
        ActionType::FeedSnack => snack_fits(s),
        ActionType::PlayGame => game_fits(s),
        ActionType::Discipline => discipline_fits(s),
        ActionType::GiveMedicine => medicine_fits(s),
        _ => true,
    }
}

/// Whether `action` can be performed on `state` without leaving the integer
/// ranges: the test that a caller makes before handing the request on.
pub fn action_would_fit(state: &PetState, action: ActionType) -> (r: bool)
    ensures
        r == perform_fits(*state, action),
{
    let refused = !state.is_alive || state.is_sleeping || state.is_sick;
    match action {
        ActionType::FeedMeal => refused || (state.hunger < 255 && state.weight < 255),
        ActionType::FeedSnack => !state.is_alive || state.is_sleeping || (state.happiness < 255
            && state.weight < 254 && state.snack_count_since_last_tick < 255),
        ActionType::PlayGame => refused || state.happiness <= 4,
        ActionType::Discipline => !state.is_alive || state.pending_discipline_deadline.is_none()
            || state.discipline <= 230,
        ActionType::GiveMedicine => !state.is_alive || !state.is_sick || state.sick_dose_count < 255,
        _ => true,
    }
}

/// The pet, the action log and the outcome after an agent asked for the action
/// named `name` at `now`.
pub open spec fn agent_result(
    s: PetState,
    perms: AgentPermissions,
    name: Seq<char>,
    moves: Option<[Choice; 5]>,
    now: Timestamp,
    sequence: Seq<Choice>,
) -> (PetState, Seq<ActionLogEntry>, AgentOutcome) {
    match action_named(name) {
        None => (s, perms.action_log@, AgentOutcome::UnknownAction),
        Some(a) => {
            let kept = pruned(perms.action_log@, now);
            match verdict(perms.enabled, perms.allowed_actions@, kept, a, now) {
                Err(d) => (s, kept, AgentOutcome::Denied(d)),
                Ok(_) => {
                    let p = performed(s, a, moves, now, sequence);
                    if p.1 == AgentOutcome::Done {
                        (p.0, kept.push(ActionLogEntry { action: a, timestamp: now }), p.1)
                    } else {
                        (p.0, kept, p.1)
                    }
                },
            }
        },
    }
}

/// Performs `action` for an agent; a game is played with `moves` (`None` where the
/// request carried no valid moves).
fn perform(state: &mut PetState, action: ActionType, moves: Option<[Choice; 5]>, now: Timestamp) -> (r:
    AgentOutcome)
    requires
        perform_fits(*old(state), action),
    ensures
        exists|sequence: Seq<Choice>|
            (*final(state), r) == #[trigger] performed(*old(state), action, moves, now, sequence),
{
    let ghost any: Seq<Choice> = Seq::empty();
    let r = match action {
        ActionType::GetStatus => {
            assert((*state, AgentOutcome::Done) == performed(*state, action, moves, now, any));
            return AgentOutcome::Done;
        },
        ActionType::FeedMeal => feed_meal(state),
        ActionType::FeedSnack => feed_snack(state),
        ActionType::PlayGame => {
            match moves {
                None => {
                    assert((*state, AgentOutcome::InvalidMoves) == performed(*state, action, moves, now, any));
                    return AgentOutcome::InvalidMoves;
                },
                Some(m) => {
                    let ghost before = *state;
                    let g = play_game(state, m);
                    let outcome = match g {
                        Ok(_) => AgentOutcome::Done,
                        Err(e) => AgentOutcome::Refused(e),
                    };
                    proof {
                        let sequence = choose|sequence: Seq<Choice>|
                            sequence.len() == 5 && (*state, g) == #[trigger] game_result(before, sequence, m@);
                        assert((*state, outcome) == performed(before, action, moves, now, sequence));
                    }
                    return outcome;
                },
            }
        },
        ActionType::Discipline => discipline(state),
        ActionType::GiveMedicine => give_medicine(state),
        ActionType::CleanPoop => clean_poop(state),
        ActionType::ToggleLights => toggle_lights(state, now),
    };
    let outcome = match r {
        Ok(_) => AgentOutcome::Done,
        Err(e) => AgentOutcome::Refused(e),
    };
    assert((*state, outcome) == performed(*old(state), action, moves, now, any));
    outcome
}

/// Handles an agent's request for the action named `action` at `now`: an unknown
/// name is refused without touching anything; otherwise the permissions are
/// checked (which prunes the log of entries older than an hour), and where they
/// allow it the action is performed, a game with `moves`. A performed action,
/// and a status request, is logged.
pub fn handle_agent_request(
    state: &mut PetState,
    permissions: &mut AgentPermissions,
    action: &str,
    moves: Option<[Choice; 5]>,
    now: Timestamp,
) -> (r: AgentOutcome)
    requires
        hour_before_fits(now),
        action_named(action@) matches Some(a) ==> perform_fits(*old(state), a),
    ensures
        final(permissions).enabled == old(permissions).enabled,
        final(permissions).allowed_actions@ == old(permissions).allowed_actions@,
        exists|sequence: Seq<Choice>|
            (*final(state), final(permissions).action_log@, r) == #[trigger] agent_result(
                *old(state),
                *old(permissions),
                action@,
                moves,
                now,
                sequence,
            ),
{
    let ghost any: Seq<Choice> = Seq::empty();
    let action_type = match action_type_for(action) {
        Some(a) => a,
        None => {
            assert((*state, permissions.action_log@, AgentOutcome::UnknownAction) == agent_result(
                *state, *permissions, action@, moves, now, any));
            return AgentOutcome::UnknownAction;
        },
    };
    let ghost perms0 = *permissions;
    if let Err(denied) = check_permission(permissions, &action_type, now) {
        assert((*state, permissions.action_log@, AgentOutcome::Denied(denied)) == agent_result(
            *state, perms0, action@, moves, now, any));
        return AgentOutcome::Denied(denied);
    }
    let ghost s0 = *state;
    let ghost log1 = permissions.action_log@;
    let outcome = perform(state, action_type, moves, now);
    if outcome == AgentOutcome::Done {
        log_action(permissions, action_type, now);
    }
    proof {
        let sequence = choose|sequence: Seq<Choice>|
            (*state, outcome) == #[trigger] performed(s0, action_type, moves, now, sequence);
        assert((*state, permissions.action_log@, outcome) == agent_result(
            s0, perms0, action@, moves, now, sequence));
    }
    outcome
}

} // verus!
