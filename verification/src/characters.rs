//! Per-character constants: heart decay, poop rate, sleep schedule, lifespan.
use vstd::prelude::*;

use crate::state::Character;

verus! {

/// The constants that govern how a character lives.
#[derive(Clone, Copy, Debug, PartialEq, Eq, Structural)]
pub struct CharacterStats {
    /// Minutes for one hunger heart to drain.
    pub hunger_decay_minutes: u16,
    /// Minutes for one happiness heart to drain.
    pub happy_decay_minutes: u16,
    /// Minutes between two poops.
    pub poop_interval_minutes: u16,
    /// Hour of the day (0–23) at which the character goes to bed.
    pub sleep_hour: u8,
    /// Hour of the day (0–23) at which the character wakes up.
    pub wake_hour: u8,
    /// Age at which the character dies of old age; 0 where it does not.
    pub max_lifespan_days: u16,
    /// Weight of a character at the start of its stage.
    pub base_weight: u8,
}

/// Stats whose intervals can divide elapsed time and whose hours are hours of a day.
pub open spec fn stats_valid(st: CharacterStats) -> bool {
    &&& st.hunger_decay_minutes > 0
    &&& st.happy_decay_minutes > 0
    &&& st.poop_interval_minutes > 0
    &&& st.sleep_hour < 24
    &&& st.wake_hour < 24
}

pub open spec fn make_stats(
    hunger: u16,
    happy: u16,
    poop: u16,
    sleep: u8,
    wake: u8,
    lifespan: u16,
    weight: u8,
) -> CharacterStats {
    CharacterStats {
        hunger_decay_minutes: hunger,
        happy_decay_minutes: happy,
        poop_interval_minutes: poop,
        sleep_hour: sleep,
        wake_hour: wake,
        max_lifespan_days: lifespan,
        base_weight: weight,
    }
}

/// The table of character constants.
pub open spec fn stats_of(c: Character) -> CharacterStats {
    match c {
        Character::Babytchi => make_stats(10, 12, 20, 20, 9, 0, 5),
        Character::Marutchi => make_stats(15, 18, 60, 20, 9, 0, 10),
        Character::Tamatchi => make_stats(20, 25, 90, 21, 9, 0, 20),
        Character::Kuchitamatchi => make_stats(15, 20, 75, 21, 9, 0, 20),
        Character::Mametchi => make_stats(12, 14, 120, 21, 9, 22, 30),
        Character::Ginjirotchi => make_stats(10, 12, 110, 21, 9, 18, 30),
        Character::Maskutchi => make_stats(10, 12, 100, 22, 9, 22, 40),
        Character::Kuchipatchi => make_stats(8, 9, 90, 20, 9, 12, 45),
        Character::Nyorotchi => make_stats(6, 7, 80, 22, 9, 9, 20),
        Character::Tarakotchi => make_stats(6, 7, 80, 22, 9, 10, 35),
        Character::Oyajitchi => make_stats(8, 10, 100, 22, 9, 26, 40),
    }
}

impl CharacterStats {
    /// The constants of character `c`.
    pub fn for_character(c: &Character) -> (r: CharacterStats)
        ensures
            r == stats_of(*c),
            stats_valid(r),
    {
        match c {
            Character::Babytchi => CharacterStats::from_parts(10, 12, 20, 20, 9, 0, 5),
            Character::Marutchi => CharacterStats::from_parts(15, 18, 60, 20, 9, 0, 10),
            Character::Tamatchi => CharacterStats::from_parts(20, 25, 90, 21, 9, 0, 20),
            Character::Kuchitamatchi => CharacterStats::from_parts(15, 20, 75, 21, 9, 0, 20),
            Character::Mametchi => CharacterStats::from_parts(12, 14, 120, 21, 9, 22, 30),
            Character::Ginjirotchi => CharacterStats::from_parts(10, 12, 110, 21, 9, 18, 30),
            Character::Maskutchi => CharacterStats::from_parts(10, 12, 100, 22, 9, 22, 40),
            Character::Kuchipatchi => CharacterStats::from_parts(8, 9, 90, 20, 9, 12, 45),
            Character::Nyorotchi => CharacterStats::from_parts(6, 7, 80, 22, 9, 9, 20),
            Character::Tarakotchi => CharacterStats::from_parts(6, 7, 80, 22, 9, 10, 35),
            Character::Oyajitchi => CharacterStats::from_parts(8, 10, 100, 22, 9, 26, 40),
        }
    }

    fn from_parts(
        hunger: u16,
        happy: u16,
        poop: u16,
        sleep: u8,
        wake: u8,
        lifespan: u16,
        weight: u8,
    ) -> (r: CharacterStats)
        ensures
            r == make_stats(hunger, happy, poop, sleep, wake, lifespan, weight),
    {
        CharacterStats {
            hunger_decay_minutes: hunger,
            happy_decay_minutes: happy,
            poop_interval_minutes: poop,
            sleep_hour: sleep,
            wake_hour: wake,
            max_lifespan_days: lifespan,
            base_weight: weight,
        }
    }
}

} // verus!
