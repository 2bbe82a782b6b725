//! The pet's state and the agent-permission records.
use std::collections::HashMap;
use vstd::prelude::*;

use crate::time::Timestamp;

verus! {

broadcast use vstd::std_specs::hash::group_hash_axioms;

// ── Core enums ──────────────────────────────────────────────────────────────

/// The pet's stage of life.
#[derive(Clone, Copy, Debug, PartialEq, Eq, Structural)]
pub enum LifeStage {
    Egg,
    Baby,
    Child,
    Teen,
    Adult,
    Special,
    Dead,
}

/// Every character the pet can grow into.
#[derive(Clone, Copy, Debug, PartialEq, Eq, Structural)]
pub enum Character {
    // Baby
    Babytchi,
    // Child
    Marutchi,
    // Teen
    Tamatchi,
    Kuchitamatchi,
    // Adult
    Mametchi,
    Ginjirotchi,
    Maskutchi,
    Kuchipatchi,
    Nyorotchi,
    Tarakotchi,
    // Special
    Oyajitchi,
}

/// The sub-type a teen was raised into, by its discipline mistakes.
#[derive(Clone, Copy, Debug, PartialEq, Eq, Hash, Structural)]
pub enum TeenType {
    Type1,
    Type2,
}

/// The actions that an agent may ask for.
#[derive(Clone, Copy, Debug, PartialEq, Eq, Hash, Structural)]
pub enum ActionType {
    FeedMeal,
    FeedSnack,
    PlayGame,
    Discipline,
    GiveMedicine,
    CleanPoop,
    ToggleLights,
    GetStatus,
}

/// The number that stands for an action in the permission table.
pub open spec fn action_code(a: ActionType) -> u8 {
    match a {
        ActionType::FeedMeal => 0,
        ActionType::FeedSnack => 1,
        ActionType::PlayGame => 2,
        ActionType::Discipline => 3,
        ActionType::GiveMedicine => 4,
        ActionType::CleanPoop => 5,
        ActionType::ToggleLights => 6,
        ActionType::GetStatus => 7,
    }
}

impl ActionType {
    /// The number that stands for this action in the permission table.
    pub fn code(&self) -> (r: u8)
        ensures
            r == action_code(*self),
    {
        match self {
            ActionType::FeedMeal => 0,
            ActionType::FeedSnack => 1,
            ActionType::PlayGame => 2,
            ActionType::Discipline => 3,
            ActionType::GiveMedicine => 4,
            ActionType::CleanPoop => 5,
            ActionType::ToggleLights => 6,
            ActionType::GetStatus => 7,
        }
    }
}

/// Distinct actions have distinct codes.
pub proof fn lemma_action_code_injective(a: ActionType, b: ActionType)
    ensures
        action_code(a) == action_code(b) <==> a == b,
{
}

// ── PetState ────────────────────────────────────────────────────────────────

/// Everything the simulation knows about the pet.
#[derive(Clone, Copy, Debug, PartialEq, Eq, Structural)]
pub struct PetState {
    // Identity
    pub stage: LifeStage,
    pub character: Character,
    pub teen_type: Option<TeenType>,
    // Meters
    pub hunger: u8,
    pub happiness: u8,
    pub discipline: u8,
    pub weight: u8,
    pub age: u16,
    // Mistake tracking
    pub care_mistakes: u8,
    pub discipline_mistakes: u8,
    // Status flags
    pub poop_count: u8,
    pub is_sick: bool,
    pub sick_dose_count: u8,
    pub is_sleeping: bool,
    pub is_alive: bool,
    pub lights_on: bool,
    // Timers
    pub last_tick: Timestamp,
    pub birth_time: Timestamp,
    pub stage_start_time: Timestamp,
    pub last_poop_time: Timestamp,
    // Pending deadlines
    pub pending_care_deadline: Option<Timestamp>,
    pub pending_discipline_deadline: Option<Timestamp>,
    pub pending_lights_deadline: Option<Timestamp>,
    // Snack overfeeding tracker
    pub snack_count_since_last_tick: u8,
    // Illness and neglect timers
    /// Since when the pet has been sick, as seen by the ticks; `None` while healthy.
    pub sick_since: Option<Timestamp>,
    /// Since when both meters have been empty, as seen by the ticks; `None` while
    /// either holds a heart.
    pub neglect_since: Option<Timestamp>,
    // Partial hearts
    /// Minutes of hunger decay counted toward the next lost heart.
    pub hunger_carry_minutes: u16,
    /// Minutes of happiness decay counted toward the next lost heart.
    pub happy_carry_minutes: u16,
}

/// A freshly laid egg at `now`.
pub open spec fn egg_at(now: Timestamp) -> PetState {
    PetState {
        stage: LifeStage::Egg,
        character: Character::Babytchi,
        teen_type: None,
        hunger: 0,
        happiness: 0,
        discipline: 0,
        weight: 5,
        age: 0,
        care_mistakes: 0,
        discipline_mistakes: 0,
        poop_count: 0,
        is_sick: false,
        sick_dose_count: 0,
        is_sleeping: false,
        is_alive: true,
        lights_on: true,
        last_tick: now,
        birth_time: now,
        stage_start_time: now,
        last_poop_time: now,
        pending_care_deadline: None,
        pending_discipline_deadline: None,
        pending_lights_deadline: None,
        snack_count_since_last_tick: 0,
        sick_since: None,
        neglect_since: None,
        hunger_carry_minutes: 0,
        happy_carry_minutes: 0,
    }
}

impl PetState {
    /// A freshly laid egg at `now`.
    pub fn new_egg(now: Timestamp) -> (r: PetState)
        ensures
            r == egg_at(now),
    {
        PetState {
            stage: LifeStage::Egg,
            character: Character::Babytchi,
            teen_type: None,
            hunger: 0,
            happiness: 0,
            discipline: 0,
            weight: 5,
            age: 0,
            care_mistakes: 0,
            discipline_mistakes: 0,
            poop_count: 0,
            is_sick: false,
            sick_dose_count: 0,
            is_sleeping: false,
            is_alive: true,
            lights_on: true,
            last_tick: now,
            birth_time: now,
            stage_start_time: now,
            last_poop_time: now,
            pending_care_deadline: None,
            pending_discipline_deadline: None,
            pending_lights_deadline: None,
            snack_count_since_last_tick: 0,
            sick_since: None,
            neglect_since: None,
            hunger_carry_minutes: 0,
            happy_carry_minutes: 0,
        }
    }
}

// ── Agent permissions ───────────────────────────────────────────────────────

/// Whether an agent may perform an action, and how often.
#[derive(Clone, Copy, Debug, PartialEq, Eq, Structural)]
pub struct ActionPermission {
    pub allowed: bool,
    pub max_per_hour: Option<u32>,
}

/// One action that an agent performed, and when.
#[derive(Clone, Copy, Debug, PartialEq, Eq, Structural)]
pub struct ActionLogEntry {
    pub action: ActionType,
    pub timestamp: Timestamp,
}

/// The per-action permissions, keyed by action.
#[derive(Clone, Debug)]
pub struct ActionTable {
    entries: HashMap<u8, ActionPermission>,
}

impl View for ActionTable {
    type V = Map<ActionType, ActionPermission>;

    closed spec fn view(&self) -> Map<ActionType, ActionPermission> {
        Map::new(
            |a: ActionType| self.entries@.contains_key(action_code(a)),
            |a: ActionType| self.entries@[action_code(a)],
        )
    }
}

impl ActionTable {
    /// A table with no entries.
    pub fn new() -> (r: ActionTable)
        ensures
            r@ == Map::<ActionType, ActionPermission>::empty(),
    {
        let r = ActionTable { entries: HashMap::new() };
        assert(r@ =~= Map::<ActionType, ActionPermission>::empty());
        r
    }

    /// The permission recorded for `action`, if any.
    pub fn get(&self, action: &ActionType) -> (r: Option<ActionPermission>)
        ensures
            r == (if self@.contains_key(*action) {
                Some(self@[*action])
            } else {
                None
            }),
    {
        let code = action.code();
        match self.entries.get(&code) {
            Some(p) => Some(*p),
            None => None,
        }
    }

    /// Records `permission` for `action`, replacing what was there.
    pub fn insert(&mut self, action: ActionType, permission: ActionPermission)
        ensures
            final(self)@ == old(self)@.insert(action, permission),
    {
        let code = action.code();
        self.entries.insert(code, permission);
        proof {
            assert forall|a: ActionType| #[trigger] action_code(a) == code implies a == action by {
                lemma_action_code_injective(a, action);
            }
            assert(self@ =~= old(self)@.insert(action, permission));
        }
    }

    /// Removes the entry for `action`.
    pub fn remove(&mut self, action: &ActionType)
        ensures
            final(self)@ == old(self)@.remove(*action),
    {
        let code = action.code();
        self.entries.remove(&code);
        proof {
            assert forall|a: ActionType| #[trigger] action_code(a) == code implies a == *action by {
                lemma_action_code_injective(a, *action);
            }
            assert(self@ =~= old(self)@.remove(*action));
        }
    }
}

/// The permissions a human grants to agents, and the log of what agents did.
#[derive(Clone, Debug)]
pub struct AgentPermissions {
    pub enabled: bool,
    pub allowed_actions: ActionTable,
    pub action_log: Vec<ActionLogEntry>,
}

/// Every action allowed, without a rate limit.
pub open spec fn all_allowed() -> Map<ActionType, ActionPermission> {
    Map::new(|a: ActionType| true, |a: ActionType| ActionPermission { allowed: true, max_per_hour: None })
}

impl Default for AgentPermissions {
    /// Agents enabled, every action allowed without a limit, and an empty log.
    fn default() -> (r: AgentPermissions)
        ensures
            r.enabled,
            r.allowed_actions@ == all_allowed(),
            r.action_log@.len() == 0,
    {
        let mut allowed_actions = ActionTable::new();
        let open = ActionPermission { allowed: true, max_per_hour: None };
        allowed_actions.insert(ActionType::FeedMeal, open);
        allowed_actions.insert(ActionType::FeedSnack, open);
        allowed_actions.insert(ActionType::PlayGame, open);
        allowed_actions.insert(ActionType::Discipline, open);
        allowed_actions.insert(ActionType::GiveMedicine, open);
        allowed_actions.insert(ActionType::CleanPoop, open);
        allowed_actions.insert(ActionType::ToggleLights, open);
        allowed_actions.insert(ActionType::GetStatus, open);
        assert(allowed_actions@ =~= all_allowed());
        AgentPermissions { enabled: true, allowed_actions, action_log: Vec::new() }
    }
}

} // verus!
