use chrono::{TimeZone, Utc};
use tama_core::actions::GameResult;
use tama_core::alerts::{alert_message, tick_alerts, tray_status, tray_tooltip, Alert};
use tama_core::permissions::PermissionDenied;
use tama_core::screen::{
    about_lines, animated_sprite, discipline_label, game_message, header_line, hint_line, info_line,
    loop_due, mode_line, on_key, request_name, sent_message, status_line, Command, InputMode, Key,
    LoopDue, RunMode,
};
use tama_core::sprites::get_sprite;
use tama_core::state::{ActionType, Character, LifeStage, PetState};
use tama_core::time::Timestamp;

fn noon() -> Timestamp {
    let dt = Utc.with_ymd_and_hms(2024, 6, 15, 12, 0, 0).unwrap();
    Timestamp::from_unix(dt.timestamp(), dt.timestamp_subsec_nanos()).unwrap()
}

fn child() -> PetState {
    let mut s = PetState::new_egg(noon());
    s.stage = LifeStage::Child;
    s.character = Character::Marutchi;
    s.age = 12;
    s.weight = 105;
    s.discipline = 50;
    s.hunger = 3;
    s.happiness = 0;
    s
}

#[test]
fn header_of_living_and_dead_pets() {
    let mut s = child();
    assert_eq!(header_line(&s), "Marutchi \u{2014} Child (Age 12)");
    s.is_alive = false;
    s.age = 0;
    assert_eq!(header_line(&s), "Marutchi \u{2014} R.I.P. (Age 0)");
}

#[test]
fn info_and_discipline_lines() {
    let mut s = child();
    assert_eq!(info_line(&s), "Age: 12 yr   Weight: 105 lb");
    assert_eq!(discipline_label(&s), "Discipline: 50%");
    s.discipline = 100;
    s.age = 65535;
    assert_eq!(discipline_label(&s), "Discipline: 100%");
    assert_eq!(info_line(&s), "Age: 65535 yr   Weight: 105 lb");
}

#[test]
fn status_line_ok_or_indicators() {
    let mut s = child();
    assert_eq!(status_line(&s), "Status: OK");
    s.poop_count = 2;
    s.is_sick = true;
    assert_eq!(status_line(&s), "Status: POOP:oo SICK");
}

#[test]
fn hint_line_by_mode() {
    let mut s = child();
    assert_eq!(
        hint_line(InputMode::Normal, &s, ""),
        "f:feed  g:game  d:discipline  c:clean  l:lights  i:med  a:about  q:quit"
    );
    assert_eq!(hint_line(InputMode::Feed, &s, ""), "Feed: [m]eal or [s]nack? (Esc to cancel)");
    assert_eq!(hint_line(InputMode::About, &s, ""), "Press Esc to close");
    s.pending_lights_deadline = Some(noon());
    assert_eq!(hint_line(InputMode::Normal, &s, ""), "BEDTIME: press l to turn the lights off");
    assert_eq!(hint_line(InputMode::Normal, &s, "meal sent"), "meal sent");
}

#[test]
fn game_message_counts_wins() {
    let r = GameResult { rounds: 5, wins: 3, happiness_gained: 1 };
    assert_eq!(game_message(&r), "game: 3/5 wins");
}

#[test]
fn lively_pets_sway_and_others_stand_still() {
    let mut s = child();
    let still = get_sprite(&s);
    assert_eq!(animated_sprite(&s, 0), still);
    assert_eq!(animated_sprite(&s, 2), still);
    let one: Vec<String> = still.lines().map(|l| format!(" {l}")).collect();
    assert_eq!(animated_sprite(&s, 1), one.join("\n"));
    let two: Vec<String> = still.lines().map(|l| format!("  {l}")).collect();
    assert_eq!(animated_sprite(&s, 7), two.join("\n"));
    s.is_sick = true;
    assert_eq!(animated_sprite(&s, 1), get_sprite(&s));
}

#[test]
fn keys_move_between_modes() {
    assert_eq!(on_key(InputMode::Normal, Key::Char('f')), (InputMode::Feed, Command::Nothing));
    assert_eq!(on_key(InputMode::Feed, Key::Char('m')), (InputMode::Normal, Command::FeedMeal));
    assert_eq!(on_key(InputMode::Feed, Key::Char('s')), (InputMode::Normal, Command::FeedSnack));
    assert_eq!(on_key(InputMode::Feed, Key::Char('x')), (InputMode::Feed, Command::Nothing));
    assert_eq!(on_key(InputMode::Feed, Key::Esc), (InputMode::Normal, Command::Nothing));
    assert_eq!(on_key(InputMode::Normal, Key::Char('a')), (InputMode::About, Command::Nothing));
    assert_eq!(on_key(InputMode::About, Key::Char('g')), (InputMode::About, Command::Nothing));
    assert_eq!(on_key(InputMode::About, Key::Char('q')), (InputMode::Normal, Command::Nothing));
    assert_eq!(on_key(InputMode::Normal, Key::Char('q')), (InputMode::Normal, Command::Quit));
    assert_eq!(on_key(InputMode::Normal, Key::Char('g')), (InputMode::Normal, Command::PlayGame));
    assert_eq!(on_key(InputMode::Normal, Key::Char('d')), (InputMode::Normal, Command::Discipline));
    assert_eq!(on_key(InputMode::Normal, Key::Char('c')), (InputMode::Normal, Command::CleanPoop));
    assert_eq!(on_key(InputMode::Normal, Key::Char('l')), (InputMode::Normal, Command::ToggleLights));
    assert_eq!(on_key(InputMode::Normal, Key::Char('i')), (InputMode::Normal, Command::GiveMedicine));
    assert_eq!(on_key(InputMode::Normal, Key::Other), (InputMode::Normal, Command::Nothing));
}

#[test]
fn commands_sent_to_the_app() {
    assert_eq!(request_name(Command::FeedMeal), Some("feed_meal"));
    assert_eq!(request_name(Command::GiveMedicine), Some("give_medicine"));
    assert_eq!(request_name(Command::Quit), None);
    assert_eq!(sent_message(Command::FeedSnack), "snack sent");
    assert_eq!(sent_message(Command::PlayGame), "game played");
    assert_eq!(sent_message(Command::ToggleLights), "lights toggled");
    assert_eq!(sent_message(Command::CleanPoop), "clean_poop done");
}

#[test]
fn alerts_after_a_tick() {
    let before = child();
    let mut after = before;
    after.is_alive = false;
    after.stage = LifeStage::Dead;
    after.hunger = 0;
    assert_eq!(tick_alerts(&before, &after), vec![Alert::Died]);

    let mut grown = before;
    grown.stage = LifeStage::Teen;
    grown.character = Character::Tamatchi;
    grown.hunger = 0;
    assert_eq!(tick_alerts(&before, &grown), vec![Alert::Evolved, Alert::Starving]);
    assert_eq!(alert_message(Alert::Evolved, &grown), "Your pet evolved to Tamatchi (Teen).");

    let mut sad = before;
    sad.happiness = 2;
    let mut sadder = sad;
    sadder.happiness = 0;
    assert_eq!(tick_alerts(&sad, &sadder), vec![Alert::Unhappy]);
    assert_eq!(tick_alerts(&before, &before), vec![]);
    assert_eq!(alert_message(Alert::Died, &after), "Your pet has died.");
}

#[test]
fn tray_texts() {
    let s = child();
    assert_eq!(tray_tooltip(&s), "tama96 \u{2014} Marutchi (Child)");
    assert_eq!(tray_status(&s), "Marutchi | Age 12 | \u{2764}3/4 \u{1F60A}0/4");
}

#[test]
fn denial_messages() {
    assert_eq!(
        PermissionDenied::MasterDisabled.message(),
        "Agent permissions are disabled (master switch off)"
    );
    assert_eq!(
        PermissionDenied::ActionDisabled(ActionType::FeedSnack).message(),
        "Action FeedSnack is disabled"
    );
    assert_eq!(
        PermissionDenied::RateLimited { action: ActionType::PlayGame, limit: 5, used: 5 }.message(),
        "Action PlayGame rate-limited: 5/5 per hour"
    );
}

#[test]
fn mode_row_and_about_box() {
    assert_eq!(mode_line(RunMode::Standalone), "[ standalone \u{2014} owns simulation ]");
    assert_eq!(
        mode_line(RunMode::Client),
        "[ client \u{2014} app is running, actions sent via network ]"
    );
    let about = about_lines();
    assert_eq!(about.len(), 15);
    assert_eq!(about[1], "tama96 v0.1.0");
    assert_eq!(about[14], "MIT License");
}

#[test]
fn loop_timing() {
    let minute = 60_000_000_000u64;
    assert_eq!(
        loop_due(RunMode::Standalone, minute, 0, Some(3_000_000_001)),
        LoopDue { tick: true, reload: false, clear_message: true }
    );
    assert_eq!(
        loop_due(RunMode::Standalone, minute - 1, 5_000_000_000, Some(3_000_000_000)),
        LoopDue { tick: false, reload: false, clear_message: false }
    );
    assert_eq!(
        loop_due(RunMode::Client, minute, 1_000_000_000, None),
        LoopDue { tick: false, reload: true, clear_message: false }
    );
}
