//! What the desktop shell tells its owner: the alerts after each background
//! tick, and the texts of its tray icon.
use vstd::prelude::*;
use vstd::string::StringExecFns;

use crate::display::{character_label, character_name, stage_label, stage_name};
use crate::screen::{decimal_text, push_decimal};
use crate::state::PetState;

verus! {

/// Something worth telling the owner after a tick.
#[derive(Clone, Copy, Debug, PartialEq, Eq, Structural)]
pub enum Alert {
    Died,
    Evolved,
    Starving,
    Unhappy,
}

/// The alerts owed after a tick took the pet from `before` to `after`, in the
/// order they are shown: its death, or else its evolution into another stage;
/// then, for a living pet, a hunger meter that just ran empty and a happiness
/// meter that just ran empty.
pub open spec fn alerts_after(before: PetState, after: PetState) -> Seq<Alert> {
    let life: Seq<Alert> = if before.is_alive && !after.is_alive {
        seq![Alert::Died]
    } else if after.stage != before.stage && after.is_alive {
        seq![Alert::Evolved]
    } else {
        seq![]
    };
    let hunger: Seq<Alert> = if after.is_alive && after.hunger == 0 && before.hunger > 0 {
        seq![Alert::Starving]
    } else {
        seq![]
    };
    let mood: Seq<Alert> = if after.is_alive && after.happiness == 0 && before.happiness > 0 {
        seq![Alert::Unhappy]
    } else {
        seq![]
    };
    life + hunger + mood
}

/// The alerts owed after a tick took the pet from `before` to `after`.
pub fn tick_alerts(before: &PetState, after: &PetState) -> (r: Vec<Alert>)
    ensures
        r@ == alerts_after(*before, *after),
{
    let mut r: Vec<Alert> = Vec::new();
    if before.is_alive && !after.is_alive {
        r.push(Alert::Died);
    } else if after.stage != before.stage && after.is_alive {
        r.push(Alert::Evolved);
    }
    if after.is_alive && after.hunger == 0 && before.hunger > 0 {
        r.push(Alert::Starving);
    }
    if after.is_alive && after.happiness == 0 && before.happiness > 0 {
        r.push(Alert::Unhappy);
    }
    assert(r@ =~= alerts_after(*before, *after));
    r
}

/// The text of an alert about the pet `s`.
pub open spec fn alert_text(a: Alert, s: PetState) -> Seq<char> {
    match a {
        Alert::Died => "Your pet has died."@,
        Alert::Evolved => "Your pet evolved to "@ + character_label(s.character) + " ("@ + stage_label(
            s.stage,
        ) + ")."@,
        Alert::Starving => "Your pet is starving."@,
        Alert::Unhappy => "Your pet is unhappy."@,
    }
}

/// The text of `alert` about the pet `state`.
pub fn alert_message(alert: Alert, state: &PetState) -> (r: String)
    ensures
        r@ == alert_text(alert, *state),
{
    match alert {
        Alert::Died => String::from_str("Your pet has died."),
        Alert::Evolved => {
            let mut out = String::from_str("Your pet evolved to ");
            out.append(character_name(state));
            out.append(" (");
            out.append(stage_name(&state.stage));
            out.append(").");
            assert(out@ =~= alert_text(alert, *state));
            out
        },
        Alert::Starving => String::from_str("Your pet is starving."),
        Alert::Unhappy => String::from_str("Your pet is unhappy."),
    }
}

/// The tooltip of the tray icon: the pet's character and stage.
pub open spec fn tooltip_text(s: PetState) -> Seq<char> {
    "tama96 \u{2014} "@ + character_label(s.character) + " ("@ + stage_label(s.stage) + ")"@
}

/// The tooltip of the tray icon.
pub fn tray_tooltip(state: &PetState) -> (r: String)
    ensures
        r@ == tooltip_text(*state),
{
    let mut out = String::from_str("tama96 \u{2014} ");
    out.append(character_name(state));
    out.append(" (");
    out.append(stage_name(&state.stage));
    out.append(")");
    assert(out@ =~= tooltip_text(*state));
    out
}

/// The status entry of the tray menu: character, age, and the two meters out of 4.
pub open spec fn tray_status_text(s: PetState) -> Seq<char> {
    character_label(s.character) + " | Age "@ + decimal_text(s.age as nat) + " | \u{2764}"@
        + decimal_text(s.hunger as nat) + "/4 \u{1F60A}"@ + decimal_text(s.happiness as nat) + "/4"@
}

/// The status entry of the tray menu.
pub fn tray_status(state: &PetState) -> (r: String)
    ensures
        r@ == tray_status_text(*state),
{
    let mut out = String::from_str(character_name(state));
    out.append(" | Age ");
    push_decimal(&mut out, state.age as u64);
    out.append(" | \u{2764}");
    push_decimal(&mut out, state.hunger as u64);
    out.append("/4 \u{1F60A}");
    push_decimal(&mut out, state.happiness as u64);
    out.append("/4");
    assert(out@ =~= tray_status_text(*state));
    out
}

} // verus!
