//! Text shown on the terminal: meter hearts, status indicators, names.
use vstd::prelude::*;
use vstd::string::StringExecFns;

use crate::sprites::push_char;
use crate::state::{ActionType, Character, LifeStage, PetState};

verus! {

/// One heart of a meter: full (two solid blocks) or empty (two light-shade blocks).
pub open spec fn heart_cells(full: bool) -> Seq<char> {
    if full { seq!['\u{2588}', '\u{2588}'] } else { seq!['\u{2591}', '\u{2591}'] }
}

/// The first `n` hearts of a meter with `filled` full hearts, separated by spaces.
pub open spec fn hearts_text(filled: int, n: int) -> Seq<char>
    decreases n,
{
    if n <= 0 {
        seq![]
    } else if n == 1 {
        heart_cells(0 < filled)
    } else {
        hearts_text(filled, n - 1) + seq![' '] + heart_cells(n - 1 < filled)
    }
}

/// A meter of `max` hearts, the first `filled` of them full.
pub fn hearts_string(filled: u8, max: u8) -> (r: String)
    ensures
        r@ == hearts_text(filled as int, max as int),
{
    let mut s = String::new();
    let mut i: u8 = 0;
    while i < max
        invariant
            i <= max,
            s@ == hearts_text(filled as int, i as int),
        decreases max - i,
    {
        if i > 0 {
            push_char(&mut s, ' ');
        }
        if i < filled {
            push_char(&mut s, '\u{2588}');
            push_char(&mut s, '\u{2588}');
        } else {
            push_char(&mut s, '\u{2591}');
            push_char(&mut s, '\u{2591}');
        }
        proof {
            if i == 0 {
                assert(s@ =~= hearts_text(filled as int, 1));
            } else {
                assert(s@ =~= hearts_text(filled as int, i + 1));
            }
        }
        i = i + 1;
    }
    s
}

/// Parts joined by single spaces.
pub open spec fn spaced(parts: Seq<Seq<char>>) -> Seq<char>
    decreases parts.len(),
{
    if parts.len() == 0 {
        seq![]
    } else if parts.len() == 1 {
        parts[0]
    } else {
        spaced(parts.drop_last()) + seq![' '] + parts.last()
    }
}

/// The status words of a pet: its poops, a pending bedtime, sickness, sleep.
pub open spec fn indicator_parts(s: PetState) -> Seq<Seq<char>> {
    let poop: Seq<Seq<char>> = if s.poop_count > 0 {
        seq!["POOP:"@ + Seq::new(s.poop_count as nat, |i: int| 'o')]
    } else {
        seq![]
    };
    let bedtime: Seq<Seq<char>> = if s.pending_lights_deadline is Some { seq!["BEDTIME"@] } else { seq![] };
    let sick: Seq<Seq<char>> = if s.is_sick { seq!["SICK"@] } else { seq![] };
    let asleep: Seq<Seq<char>> = if s.is_sleeping { seq!["ZZZ"@] } else { seq![] };
    poop + bedtime + sick + asleep
}

/// Appends `part` to `out` as the next space-separated part.
fn add_part(out: &mut String, parts: Ghost<Seq<Seq<char>>>, first: bool, part: &str)
    requires
        old(out)@ == spaced(parts@),
        first == (parts@.len() == 0),
    ensures
        final(out)@ == spaced(parts@.push(part@)),
{
    if !first {
        push_char(out, ' ');
    }
    out.append(part);
    assert(parts@.push(part@).drop_last() =~= parts@);
    assert(final(out)@ =~= spaced(parts@.push(part@)));
}

/// The status line of a pet: "POOP:" with one 'o' per poop, "BEDTIME",
/// "SICK" and "ZZZ", where they apply, separated by spaces.
pub fn status_indicators(state: &PetState) -> (r: String)
    ensures
        r@ == spaced(indicator_parts(*state)),
{
    let mut out = String::new();
    let ghost mut parts: Seq<Seq<char>> = seq![];
    let mut first = true;
    if state.poop_count > 0 {
        let mut poop = String::new();
        poop.append("POOP:");
        let mut i: u8 = 0;
        while i < state.poop_count
            invariant
                i <= state.poop_count,
                poop@ == "POOP:"@ + Seq::new(i as nat, |k: int| 'o'),
            decreases state.poop_count - i,
        {
            push_char(&mut poop, 'o');
            assert(poop@ =~= "POOP:"@ + Seq::new((i + 1) as nat, |k: int| 'o'));
            i = i + 1;
        }
        add_part(&mut out, Ghost(parts), first, poop.as_str());
        first = false;
        proof { parts = parts.push(poop@); }
    }
    if state.pending_lights_deadline.is_some() {
        add_part(&mut out, Ghost(parts), first, "BEDTIME");
        first = false;
        proof { parts = parts.push("BEDTIME"@); }
    }
    if state.is_sick {
        add_part(&mut out, Ghost(parts), first, "SICK");
        first = false;
        proof { parts = parts.push("SICK"@); }
    }
    if state.is_sleeping {
        add_part(&mut out, Ghost(parts), first, "ZZZ");
        first = false;
        proof { parts = parts.push("ZZZ"@); }
    }
    assert(parts =~= indicator_parts(*state));
    out
}

/// The name of a character.
pub open spec fn character_label(c: Character) -> Seq<char> {
    match c {
        Character::Babytchi => "Babytchi"@,
        Character::Marutchi => "Marutchi"@,
        Character::Tamatchi => "Tamatchi"@,
        Character::Kuchitamatchi => "Kuchitamatchi"@,
        Character::Mametchi => "Mametchi"@,
        Character::Ginjirotchi => "Ginjirotchi"@,
        Character::Maskutchi => "Maskutchi"@,
        Character::Kuchipatchi => "Kuchipatchi"@,
        Character::Nyorotchi => "Nyorotchi"@,
        Character::Tarakotchi => "Tarakotchi"@,
        Character::Oyajitchi => "Oyajitchi"@,
    }
}

/// The name of the pet's character.
pub fn character_name(state: &PetState) -> (r: &'static str)
    ensures
        r@ == character_label(state.character),
{
    match state.character {
        Character::Babytchi => "Babytchi",
        Character::Marutchi => "Marutchi",
        Character::Tamatchi => "Tamatchi",
        Character::Kuchitamatchi => "Kuchitamatchi",
        Character::Mametchi => "Mametchi",
        Character::Ginjirotchi => "Ginjirotchi",
        Character::Maskutchi => "Maskutchi",
        Character::Kuchipatchi => "Kuchipatchi",
        Character::Nyorotchi => "Nyorotchi",
        Character::Tarakotchi => "Tarakotchi",
        Character::Oyajitchi => "Oyajitchi",
    }
}

/// The name of a life stage.
pub open spec fn stage_label(stage: LifeStage) -> Seq<char> {
    match stage {
        LifeStage::Egg => "Egg"@,
        LifeStage::Baby => "Baby"@,
        LifeStage::Child => "Child"@,
        LifeStage::Teen => "Teen"@,
        LifeStage::Adult => "Adult"@,
        LifeStage::Special => "Special"@,
        LifeStage::Dead => "Dead"@,
    }
}

/// The name of a life stage.
pub fn stage_name(stage: &LifeStage) -> (r: &'static str)
    ensures
        r@ == stage_label(*stage),
{
    match stage {
        LifeStage::Egg => "Egg",
        LifeStage::Baby => "Baby",
        LifeStage::Child => "Child",
        LifeStage::Teen => "Teen",
        LifeStage::Adult => "Adult",
        LifeStage::Special => "Special",
        LifeStage::Dead => "Dead",
    }
}

/// The name of an action.
pub open spec fn action_label(a: ActionType) -> Seq<char> {
    match a {
        ActionType::FeedMeal => "FeedMeal"@,
        ActionType::FeedSnack => "FeedSnack"@,
        ActionType::PlayGame => "PlayGame"@,
        ActionType::Discipline => "Discipline"@,
        ActionType::GiveMedicine => "GiveMedicine"@,
        ActionType::CleanPoop => "CleanPoop"@,
        ActionType::ToggleLights => "ToggleLights"@,
        ActionType::GetStatus => "GetStatus"@,
    }
}

/// The name of an action.
pub fn action_name(action: &ActionType) -> (r: &'static str)
    ensures
        r@ == action_label(*action),
{
    match action {
        ActionType::FeedMeal => "FeedMeal",
        ActionType::FeedSnack => "FeedSnack",
        ActionType::PlayGame => "PlayGame",
        ActionType::Discipline => "Discipline",
        ActionType::GiveMedicine => "GiveMedicine",
        ActionType::CleanPoop => "CleanPoop",
        ActionType::ToggleLights => "ToggleLights",
        ActionType::GetStatus => "GetStatus",
    }
}

} // verus!
