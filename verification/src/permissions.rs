//! Gating of agent actions: master switch, per-action allow/deny, hourly rate limits.
use vstd::prelude::*;
use vstd::string::StringExecFns;

use crate::display::{action_label, action_name};
use crate::engine::not_before;
use crate::screen::{decimal_text, push_decimal};
use crate::state::{ActionLogEntry, ActionPermission, ActionType, AgentPermissions};
use crate::time::{in_range, nanos_per_minute, Timestamp};

verus! {

broadcast use vstd::seq_lib::group_seq_properties;

/// Why an agent was refused.
#[derive(Clone, Copy, Debug, PartialEq, Eq, Structural)]
pub enum PermissionDenied {
    MasterDisabled,
    ActionDisabled(ActionType),
    RateLimited { action: ActionType, limit: u32, used: u32 },
}

/// The explanation given to an agent that was refused.
pub open spec fn denial_text(d: PermissionDenied) -> Seq<char> {
    match d {
        PermissionDenied::MasterDisabled => "Agent permissions are disabled (master switch off)"@,
        PermissionDenied::ActionDisabled(a) => "Action "@ + action_label(a) + " is disabled"@,
        PermissionDenied::RateLimited { action, limit, used } => "Action "@ + action_label(action)
            + " rate-limited: "@ + decimal_text(used as nat) + "/"@ + decimal_text(limit as nat)
            + " per hour"@,
    }
}

impl PermissionDenied {
    /// The explanation given to the refused agent.
    pub fn message(&self) -> (r: String)
        ensures
            r@ == denial_text(*self),
    {
        match self {
            PermissionDenied::MasterDisabled => String::from_str(
                "Agent permissions are disabled (master switch off)",
            ),
            PermissionDenied::ActionDisabled(a) => {
                let mut out = String::from_str("Action ");
                out.append(action_name(a));
                out.append(" is disabled");
                assert(out@ =~= denial_text(*self));
                out
            },
            PermissionDenied::RateLimited { action, limit, used } => {
                let mut out = String::from_str("Action ");
                out.append(action_name(action));
                out.append(" rate-limited: ");
                push_decimal(&mut out, *used as u64);
                out.append("/");
                push_decimal(&mut out, *limit as u64);
                out.append(" per hour");
                assert(out@ =~= denial_text(*self));
                out
            },
        }
    }
}

/// One hour before `now`: log entries older than this no longer count.
pub open spec fn hour_before(now: Timestamp) -> Timestamp {
    now.later_by_minutes(-60)
}

/// An entry made at or after `cutoff`.
pub open spec fn made_since(cutoff: Timestamp) -> spec_fn(ActionLogEntry) -> bool {
    |e: ActionLogEntry| not_before(e.timestamp, cutoff)
}

/// An entry for `action` made at or after `cutoff`.
pub open spec fn use_since(action: ActionType, cutoff: Timestamp) -> spec_fn(ActionLogEntry) -> bool {
    |e: ActionLogEntry| e.action == action && not_before(e.timestamp, cutoff)
}

/// The log with the entries older than an hour before `now` removed.
pub open spec fn pruned(log: Seq<ActionLogEntry>, now: Timestamp) -> Seq<ActionLogEntry> {
    log.filter(made_since(hour_before(now)))
}

/// How many times `action` was used in the hour before `now`, according to `log`.
pub open spec fn uses_in_last_hour(log: Seq<ActionLogEntry>, action: ActionType, now: Timestamp) -> nat {
    log.filter(use_since(action, hour_before(now))).len()
}

/// The answer to an agent asking for `action` at `now`, given the master switch,
/// the permission table and the (already pruned) log.
pub open spec fn verdict(
    enabled: bool,
    table: Map<ActionType, ActionPermission>,
    log: Seq<ActionLogEntry>,
    action: ActionType,
    now: Timestamp,
) -> Result<(), PermissionDenied> {
    if !enabled {
        Err(PermissionDenied::MasterDisabled)
    } else if !(table.contains_key(action) && table[action].allowed) {
        Err(PermissionDenied::ActionDisabled(action))
    } else {
        match table[action].max_per_hour {
            Some(limit) => {
                let used = uses_in_last_hour(log, action, now) as u32;
                if used >= limit {
                    Err(PermissionDenied::RateLimited { action, limit, used })
                } else {
                    Ok(())
                }
            },
            None => Ok(()),
        }
    }
}

/// The hour before `now` can be formed without leaving the representable range.
pub open spec fn hour_before_fits(now: Timestamp) -> bool {
    in_range(now.instant() - 60 * nanos_per_minute())
}

/// Checks whether an agent may perform `action` at `now`. First prunes log entries
/// older than an hour; then denies with `MasterDisabled` where the master switch is
/// off, with `ActionDisabled` where the action is missing from the table or not
/// allowed, and with `RateLimited` where its hourly limit is already used up.
pub fn check_permission(
    permissions: &mut AgentPermissions,
    action: &ActionType,
    now: Timestamp,
) -> (r: Result<(), PermissionDenied>)
    requires
        hour_before_fits(now),
    ensures
        final(permissions).action_log@ == pruned(old(permissions).action_log@, now),
        final(permissions).enabled == old(permissions).enabled,
        final(permissions).allowed_actions@ == old(permissions).allowed_actions@,
        r == verdict(
            old(permissions).enabled,
            old(permissions).allowed_actions@,
            pruned(old(permissions).action_log@, now),
            *action,
            now,
        ),
{
    let cutoff = now.plus_minutes(-60);
    let ghost keep = made_since(cutoff);
    let mut kept: Vec<ActionLogEntry> = Vec::new();
    let mut i: usize = 0;
    while i < permissions.action_log.len()
        invariant
            0 <= i <= permissions.action_log@.len(),
            keep == made_since(cutoff),
            kept@ == permissions.action_log@.take(i as int).filter(keep),
        decreases permissions.action_log@.len() - i,
    {
        let entry = permissions.action_log[i];
        proof {
            assert(permissions.action_log@.take(i + 1) =~= permissions.action_log@.take(i as int).push(entry));
            permissions.action_log@.take(i as int).lemma_filter_push(entry, keep);
        }
        if !entry.timestamp.is_before(&cutoff) {
            kept.push(entry);
        }
        i = i + 1;
    }
    proof {
        assert(permissions.action_log@.take(i as int) =~= permissions.action_log@);
    }
    permissions.action_log = kept;

    if !permissions.enabled {
        return Err(PermissionDenied::MasterDisabled);
    }

    let action_perm = match permissions.allowed_actions.get(action) {
        Some(perm) => {
            if perm.allowed {
                perm
            } else {
                return Err(PermissionDenied::ActionDisabled(*action));
            }
        },
        None => {
            return Err(PermissionDenied::ActionDisabled(*action));
        },
    };

    if let Some(limit) = action_perm.max_per_hour {
        let ghost counted = use_since(*action, cutoff);
        let mut used_count: usize = 0;
        let mut j: usize = 0;
        while j < permissions.action_log.len()
            invariant
                0 <= j <= permissions.action_log@.len(),
                counted == use_since(*action, cutoff),
                used_count == permissions.action_log@.take(j as int).filter(counted).len(),
            decreases permissions.action_log@.len() - j,
        {
            let entry = permissions.action_log[j];
            proof {
                assert(permissions.action_log@.take(j + 1) =~= permissions.action_log@.take(j as int).push(entry));
                permissions.action_log@.take(j as int).lemma_filter_push(entry, counted);
                permissions.action_log@.take(j as int).filter(counted).lemma_filter_len(counted);
                permissions.action_log@.take(j as int).lemma_filter_len(counted);
            }
            if entry.action == *action && !entry.timestamp.is_before(&cutoff) {
                used_count = used_count + 1;
            }
            j = j + 1;
        }
        proof {
            assert(permissions.action_log@.take(j as int) =~= permissions.action_log@);
        }
        let used = used_count as u32;
        if used >= limit {
            return Err(PermissionDenied::RateLimited { action: *action, limit, used });
        }
    }
    Ok(())
}

/// Appends an entry for `action` at `now` to the action log.
pub fn log_action(permissions: &mut AgentPermissions, action: ActionType, now: Timestamp)
    ensures
        final(permissions).action_log@ == old(permissions).action_log@.push(
            ActionLogEntry { action, timestamp: now },
        ),
        final(permissions).enabled == old(permissions).enabled,
        final(permissions).allowed_actions@ == old(permissions).allowed_actions@,
{
    permissions.action_log.push(ActionLogEntry { action, timestamp: now });
}

} // verus!
