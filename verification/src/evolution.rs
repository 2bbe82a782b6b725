//! Stage transitions and the evolution matrix.
use vstd::prelude::*;

use crate::state::{Character, LifeStage, PetState, TeenType};
use crate::time::{div_toward_zero, nanos_per_minute, Timestamp};

verus! {

/// Minutes a baby needs before it grows into a child.
pub const BABY_STAGE_MINUTES: i64 = 65;

/// Age at which a child grows into a teen.
pub const TEEN_AGE: u16 = 3;

/// Age at which a teen grows into an adult.
pub const ADULT_AGE: u16 = 6;

/// Minutes a Maskutchi raised on the Type2 path needs before it becomes Oyajitchi.
pub const SPECIAL_STAGE_MINUTES: i64 = 5760;

/// The teen character and type that the child's mistakes lead to.
pub open spec fn teen_for(care_mistakes: u8, discipline_mistakes: u8) -> (Character, TeenType) {
    (
        if care_mistakes <= 2 { Character::Tamatchi } else { Character::Kuchitamatchi },
        if discipline_mistakes <= 2 { TeenType::Type1 } else { TeenType::Type2 },
    )
}

/// The adult that a careless teen becomes, by its discipline mistakes.
pub open spec fn careless_adult(discipline_mistakes: u8) -> Character {
    if discipline_mistakes <= 1 {
        Character::Kuchipatchi
    } else if discipline_mistakes <= 3 {
        Character::Nyorotchi
    } else {
        Character::Tarakotchi
    }
}

/// The adult character that a teen becomes (the P1 evolution matrix).
pub open spec fn adult_for(
    teen_char: Character,
    teen_type: TeenType,
    care_mistakes: u8,
    discipline_mistakes: u8,
) -> Character {
    match (teen_char, teen_type) {
        (Character::Tamatchi, TeenType::Type1) => {
            if care_mistakes <= 2 {
                if discipline_mistakes == 0 {
                    Character::Mametchi
                } else if discipline_mistakes == 1 {
                    Character::Ginjirotchi
                } else {
                    Character::Maskutchi
                }
            } else {
                careless_adult(discipline_mistakes)
            }
        },
        (Character::Tamatchi, TeenType::Type2) => {
            if care_mistakes <= 3 && discipline_mistakes >= 2 {
                Character::Maskutchi
            } else if care_mistakes >= 3 {
                careless_adult(discipline_mistakes)
            } else {
                Character::Nyorotchi
            }
        },
        (Character::Kuchitamatchi, _) => careless_adult(discipline_mistakes),
        _ => Character::Nyorotchi,
    }
}

/// `s` moved into `stage` as `character` at `now`: discipline reset, care and
/// discipline deadlines cleared.
pub open spec fn evolved(s: PetState, stage: LifeStage, character: Character, now: Timestamp) -> PetState {
    PetState {
        stage,
        character,
        stage_start_time: now,
        discipline: 0,
        pending_care_deadline: None,
        pending_discipline_deadline: None,
        ..s
    }
}

/// Whole minutes the pet has spent in its current stage at `now`.
pub open spec fn minutes_in_stage(s: PetState, now: Timestamp) -> int {
    div_toward_zero(now.instant() - s.stage_start_time.instant(), nanos_per_minute())
}

/// The state after an evolution check at `now`, and whether the pet evolved.
pub open spec fn evolution_step(s: PetState, now: Timestamp) -> (PetState, bool) {
    match s.stage {
        LifeStage::Baby => {
            if minutes_in_stage(s, now) >= 65 {
                (evolved(s, LifeStage::Child, Character::Marutchi, now), true)
            } else {
                (s, false)
            }
        },
        LifeStage::Child => {
            if s.age >= 3 {
                let (c, t) = teen_for(s.care_mistakes, s.discipline_mistakes);
                (evolved(PetState { teen_type: Some(t), ..s }, LifeStage::Teen, c, now), true)
            } else {
                (s, false)
            }
        },
        LifeStage::Teen => {
            if s.age >= 6 {
                let t = match s.teen_type {
                    Some(t) => t,
                    None => TeenType::Type1,
                };
                (
                    evolved(
                        s,
                        LifeStage::Adult,
                        adult_for(s.character, t, s.care_mistakes, s.discipline_mistakes),
                        now,
                    ),
                    true,
                )
            } else {
                (s, false)
            }
        },
        LifeStage::Adult => {
            if s.character == Character::Maskutchi && s.teen_type == Some(TeenType::Type2)
                && minutes_in_stage(s, now) >= 5760 {
                (evolved(s, LifeStage::Special, Character::Oyajitchi, now), true)
            } else {
                (s, false)
            }
        },
        _ => (s, false),
    }
}

/// Checks and applies evolution where the pet has reached the threshold of its stage:
/// Baby→Child after 65 minutes, Child→Teen at age 3, Teen→Adult at age 6,
/// Adult→Special for a Maskutchi of the Type2 path after 4 days.
/// Egg→Baby is handled by the engine. Returns true where evolution occurred.
pub fn check_evolution(state: &mut PetState, now: Timestamp) -> (evolved_now: bool)
    ensures
        (*final(state), evolved_now) == evolution_step(*old(state), now),
{
    let elapsed_in_stage = now.minutes_since(&state.stage_start_time);
    match state.stage {
        LifeStage::Baby => {
            if elapsed_in_stage >= BABY_STAGE_MINUTES {
                evolve_to(state, LifeStage::Child, Character::Marutchi, now);
                return true;
            }
        },
        LifeStage::Child => {
            if state.age >= TEEN_AGE {
                let (teen_char, teen_type) = resolve_teen(state.care_mistakes, state.discipline_mistakes);
                state.teen_type = Some(teen_type);
                evolve_to(state, LifeStage::Teen, teen_char, now);
                return true;
            }
        },
        LifeStage::Teen => {
            if state.age >= ADULT_AGE {
                let teen_type = match state.teen_type {
                    Some(t) => t,
                    None => TeenType::Type1,
                };
                let adult_char = resolve_adult(
                    &state.character,
                    teen_type,
                    state.care_mistakes,
                    state.discipline_mistakes,
                );
                evolve_to(state, LifeStage::Adult, adult_char, now);
                return true;
            }
        },
        LifeStage::Adult => {
            if state.character == Character::Maskutchi && state.teen_type == Some(TeenType::Type2)
                && elapsed_in_stage >= SPECIAL_STAGE_MINUTES {
                evolve_to(state, LifeStage::Special, Character::Oyajitchi, now);
                return true;
            }
        },
        _ => {},
    }
    false
}

/// Resolves the teen character from the mistakes made as a child:
/// care mistakes 0–2 give Tamatchi, 3+ Kuchitamatchi;
/// discipline mistakes 0–2 give Type1, 3+ Type2.
pub fn resolve_teen(care_mistakes: u8, discipline_mistakes: u8) -> (r: (Character, TeenType))
    ensures
        r == teen_for(care_mistakes, discipline_mistakes),
{
    let character = if care_mistakes <= 2 {
        Character::Tamatchi
    } else {
        Character::Kuchitamatchi
    };
    let teen_type = if discipline_mistakes <= 2 {
        TeenType::Type1
    } else {
        TeenType::Type2
    };
    (character, teen_type)
}

/// Resolves the adult character from the teen character, its type and the
/// cumulative mistakes (the full P1 matrix; Nyorotchi where nothing else applies).
pub fn resolve_adult(
    teen_char: &Character,
    teen_type: TeenType,
    care_mistakes: u8,
    discipline_mistakes: u8,
) -> (r: Character)
    ensures
        r == adult_for(*teen_char, teen_type, care_mistakes, discipline_mistakes),
{
    match (teen_char, teen_type) {
        (Character::Tamatchi, TeenType::Type1) => {
            if care_mistakes <= 2 {
                match discipline_mistakes {
                    0 => Character::Mametchi,
                    1 => Character::Ginjirotchi,
                    _ => Character::Maskutchi,
                }
            } else {
                match discipline_mistakes {
                    0..=1 => Character::Kuchipatchi,
                    2..=3 => Character::Nyorotchi,
                    _ => Character::Tarakotchi,
                }
            }
        },
        (Character::Tamatchi, TeenType::Type2) => {
            if care_mistakes <= 3 && discipline_mistakes >= 2 {
                Character::Maskutchi
            } else if care_mistakes >= 3 {
                match discipline_mistakes {
                    0..=1 => Character::Kuchipatchi,
                    2..=3 => Character::Nyorotchi,
                    _ => Character::Tarakotchi,
                }
            } else {
                Character::Nyorotchi
            }
        },
        (Character::Kuchitamatchi, TeenType::Type1) => match discipline_mistakes {
            0..=1 => Character::Kuchipatchi,
            2..=3 => Character::Nyorotchi,
            _ => Character::Tarakotchi,
        },
        (Character::Kuchitamatchi, TeenType::Type2) => match discipline_mistakes {
            0..=1 => Character::Kuchipatchi,
            2..=3 => Character::Nyorotchi,
            _ => Character::Tarakotchi,
        },
        _ => Character::Nyorotchi,
    }
}

/// Moves the pet into a new stage and character: resets discipline to 0, clears
/// the care and discipline deadlines, and restarts the stage clock at `now`.
pub fn evolve_to(state: &mut PetState, stage: LifeStage, character: Character, now: Timestamp)
    ensures
        *final(state) == evolved(*old(state), stage, character, now),
{
    state.stage = stage;
    state.character = character;
    state.stage_start_time = now;
    state.discipline = 0;
    state.pending_care_deadline = None;
    state.pending_discipline_deadline = None;
}

/// Every evolution resets discipline to 0, clears the care and discipline
/// deadlines, and restarts the stage clock at the time of the check.
pub proof fn lemma_evolution_resets(s: PetState, now: Timestamp)
    ensures
        evolution_step(s, now).1 ==> {
            let r = evolution_step(s, now).0;
            &&& r.discipline == 0
            &&& r.pending_care_deadline is None
            &&& r.pending_discipline_deadline is None
            &&& r.stage_start_time == now
        },
        !evolution_step(s, now).1 ==> evolution_step(s, now).0 == s,
{
}

} // verus!
