//! The terminal front end: the text lines of its screen, and the step from a key
//! press to a command.
use vstd::prelude::*;
use vstd::string::{StrSliceExecFns, StringExecFns};

use crate::actions::GameResult;
use crate::display::{
    character_label, character_name, indicator_parts, spaced, stage_label, stage_name, status_indicators,
};
use crate::sprites::{braille_text, get_sprite, push_char, shown_rows};
use crate::state::PetState;

verus! {

// ── Numbers ─────────────────────────────────────────────────────────────────

/// The character of the decimal digit `d` (0 to 9).
pub open spec fn digit_char(d: int) -> char {
    seq!['0', '1', '2', '3', '4', '5', '6', '7', '8', '9'][d]
}

/// `n` written in decimal, without leading zeros.
pub open spec fn decimal_text(n: nat) -> Seq<char>
    decreases n,
{
    if n < 10 {
        seq![digit_char(n as int)]
    } else {
        decimal_text(n / 10) + seq![digit_char((n % 10) as int)]
    }
}

fn digit(d: u64) -> (r: char)
    requires
        d < 10,
    ensures
        r == digit_char(d as int),
{
    if d == 0 {
        '0'
    } else if d == 1 {
        '1'
    } else if d == 2 {
        '2'
    } else if d == 3 {
        '3'
    } else if d == 4 {
        '4'
    } else if d == 5 {
        '5'
    } else if d == 6 {
        '6'
    } else if d == 7 {
        '7'
    } else if d == 8 {
        '8'
    } else {
        '9'
    }
}

/// Appends `n` in decimal to `out`.
pub(crate) fn push_decimal(out: &mut String, n: u64)
    ensures
        final(out)@ == old(out)@ + decimal_text(n as nat),
    decreases n,
{
    if n >= 10 {
        push_decimal(out, n / 10);
    }
    push_char(out, digit(n % 10));
    assert(final(out)@ =~= old(out)@ + decimal_text(n as nat));
}

// ── Screen lines ────────────────────────────────────────────────────────────

/// The header: name, stage and age of a living pet; name, "R.I.P." and age of a
/// dead one.
pub open spec fn header_text(s: PetState) -> Seq<char> {
    if s.is_alive {
        character_label(s.character) + " \u{2014} "@ + stage_label(s.stage) + " (Age "@ + decimal_text(
            s.age as nat,
        ) + ")"@
    } else {
        character_label(s.character) + " \u{2014} R.I.P. (Age "@ + decimal_text(s.age as nat) + ")"@
    }
}

/// The header line of the screen.
pub fn header_line(state: &PetState) -> (r: String)
    ensures
        r@ == header_text(*state),
{
    let mut out = String::new();
    out.append(character_name(state));
    if state.is_alive {
        out.append(" \u{2014} ");
        out.append(stage_name(&state.stage));
        out.append(" (Age ");
    } else {
        out.append(" \u{2014} R.I.P. (Age ");
    }
    push_decimal(&mut out, state.age as u64);
    out.append(")");
    assert(out@ =~= header_text(*state));
    out
}

/// The line under the meters: age in years and weight in pounds.
pub open spec fn info_text(s: PetState) -> Seq<char> {
    "Age: "@ + decimal_text(s.age as nat) + " yr   Weight: "@ + decimal_text(s.weight as nat) + " lb"@
}

/// The age-and-weight line of the screen.
pub fn info_line(state: &PetState) -> (r: String)
    ensures
        r@ == info_text(*state),
{
    let mut out = String::new();
    out.append("Age: ");
    push_decimal(&mut out, state.age as u64);
    out.append(" yr   Weight: ");
    push_decimal(&mut out, state.weight as u64);
    out.append(" lb");
    assert(out@ =~= info_text(*state));
    out
}

/// The label of the discipline gauge.
pub open spec fn discipline_text(s: PetState) -> Seq<char> {
    "Discipline: "@ + decimal_text(s.discipline as nat) + "%"@
}

/// The label of the discipline gauge, in percent.
pub fn discipline_label(state: &PetState) -> (r: String)
    ensures
        r@ == discipline_text(*state),
{
    let mut out = String::new();
    out.append("Discipline: ");
    push_decimal(&mut out, state.discipline as u64);
    out.append("%");
    assert(out@ =~= discipline_text(*state));
    out
}

/// The status line: "Status: OK" where no indicator applies, else the indicators.
pub open spec fn status_text(s: PetState) -> Seq<char> {
    if indicator_parts(s).len() == 0 {
        "Status: OK"@
    } else {
        "Status: "@ + spaced(indicator_parts(s))
    }
}

/// The status line of the screen.
pub fn status_line(state: &PetState) -> (r: String)
    ensures
        r@ == status_text(*state),
{
    if state.poop_count == 0 && state.pending_lights_deadline.is_none() && !state.is_sick
        && !state.is_sleeping {
        assert(indicator_parts(*state) =~= Seq::<Seq<char>>::empty());
        return String::from_str("Status: OK");
    }
    let indicators = status_indicators(state);
    let mut out = String::from_str("Status: ");
    out.append(indicators.as_str());
    out
}

/// What the keyboard is doing: normal commands, choosing a food, or showing the
/// about box.
#[derive(Clone, Copy, Debug, PartialEq, Eq, Structural)]
pub enum InputMode {
    Normal,
    Feed,
    About,
}

/// The hint line: a pending message where there is one; else the keys of the
/// current mode (in normal mode, the bedtime reminder where the lights are due off).
pub open spec fn hint_text(mode: InputMode, s: PetState, message: Seq<char>) -> Seq<char> {
    if message.len() > 0 {
        message
    } else {
        match mode {
            InputMode::Feed => "Feed: [m]eal or [s]nack? (Esc to cancel)"@,
            InputMode::About => "Press Esc to close"@,
            InputMode::Normal => if s.pending_lights_deadline is Some {
                "BEDTIME: press l to turn the lights off"@
            } else {
                "f:feed  g:game  d:discipline  c:clean  l:lights  i:med  a:about  q:quit"@
            },
        }
    }
}

/// The hint line at the bottom of the screen.
pub fn hint_line(mode: InputMode, state: &PetState, message: &str) -> (r: String)
    ensures
        r@ == hint_text(mode, *state, message@),
{
    if message.unicode_len() > 0 {
        return String::from_str(message);
    }
    match mode {
        InputMode::Feed => String::from_str("Feed: [m]eal or [s]nack? (Esc to cancel)"),
        InputMode::About => String::from_str("Press Esc to close"),
        InputMode::Normal => if state.pending_lights_deadline.is_some() {
            String::from_str("BEDTIME: press l to turn the lights off")
        } else {
            String::from_str("f:feed  g:game  d:discipline  c:clean  l:lights  i:med  a:about  q:quit")
        },
    }
}

/// The message after a game: wins out of rounds.
pub open spec fn game_text(g: GameResult) -> Seq<char> {
    "game: "@ + decimal_text(g.wins as nat) + "/"@ + decimal_text(g.rounds as nat) + " wins"@
}

/// The message shown after a game.
pub fn game_message(result: &GameResult) -> (r: String)
    ensures
        r@ == game_text(*result),
{
    let mut out = String::from_str("game: ");
    push_decimal(&mut out, result.wins as u64);
    out.append("/");
    push_decimal(&mut out, result.rounds as u64);
    out.append(" wins");
    assert(out@ =~= game_text(*result));
    out
}

// ── Idle animation ──────────────────────────────────────────────────────────

/// The indent of the sprite in animation frame `frame`: none, one space, none,
/// two spaces, in turn.
pub open spec fn idle_pad_text(frame: u8) -> Seq<char> {
    if frame % 4 == 1 {
        " "@
    } else if frame % 4 == 3 {
        "  "@
    } else {
        ""@
    }
}

fn idle_pad(frame: u8) -> (r: &'static str)
    ensures
        r@ == idle_pad_text(frame),
{
    if frame % 4 == 1 {
        " "
    } else if frame % 4 == 3 {
        "  "
    } else {
        ""
    }
}

/// `text` with `pad` put in front of each of its lines.
pub open spec fn pad_lines(text: Seq<char>, pad: Seq<char>) -> Seq<char>
    decreases text.len(),
{
    if text.len() == 0 {
        pad
    } else {
        pad_lines(text.drop_last(), pad) + if text.last() == '\n' {
            seq!['\n'] + pad
        } else {
            seq![text.last()]
        }
    }
}

/// The sprite as drawn in animation frame `frame`: a pet that is alive, awake and
/// healthy sways from side to side; any other stands still.
pub open spec fn animated_text(s: PetState, frame: u8) -> Seq<char> {
    let text = braille_text(shown_rows(s)@);
    if s.is_alive && !s.is_sleeping && !s.is_sick {
        pad_lines(text, idle_pad_text(frame))
    } else {
        text
    }
}

/// The sprite text of the pet in animation frame `frame`.
pub fn animated_sprite(state: &PetState, frame: u8) -> (r: String)
    ensures
        r@ == animated_text(*state, frame),
{
    let text = get_sprite(state);
    if !(state.is_alive && !state.is_sleeping && !state.is_sick) {
        return text;
    }
    let pad = idle_pad(frame);
    let s = text.as_str();
    let n = s.unicode_len();
    let mut out = String::from_str(pad);
    let mut i: usize = 0;
    while i < n
        invariant
            i <= n,
            n == s@.len(),
            out@ == pad_lines(s@.take(i as int), pad@),
        decreases n - i,
    {
        let c = s.get_char(i);
        if c == '\n' {
            push_char(&mut out, '\n');
            out.append(pad);
        } else {
            push_char(&mut out, c);
        }
        assert(s@.take(i + 1).drop_last() =~= s@.take(i as int));
        assert(out@ =~= pad_lines(s@.take(i + 1), pad@));
        i = i + 1;
    }
    assert(s@.take(n as int) =~= s@);
    out
}

// ── Keys and commands ───────────────────────────────────────────────────────

/// A key press, as far as the front end tells keys apart.
#[derive(Clone, Copy, Debug, PartialEq, Eq, Structural)]
pub enum Key {
    Char(char),
    Esc,
    Other,
}

/// What a key press asks the front end to do.
#[derive(Clone, Copy, Debug, PartialEq, Eq, Structural)]
pub enum Command {
    Nothing,
    Quit,
    FeedMeal,
    FeedSnack,
    PlayGame,
    Discipline,
    CleanPoop,
    ToggleLights,
    GiveMedicine,
}

/// The mode and the command after `key` is pressed in `mode`.
pub open spec fn key_step(mode: InputMode, key: Key) -> (InputMode, Command) {
    match mode {
        InputMode::About => match key {
            Key::Esc | Key::Char('a') | Key::Char('q') => (InputMode::Normal, Command::Nothing),
            _ => (InputMode::About, Command::Nothing),
        },
        InputMode::Feed => match key {
            Key::Char('m') => (InputMode::Normal, Command::FeedMeal),
            Key::Char('s') => (InputMode::Normal, Command::FeedSnack),
            Key::Esc => (InputMode::Normal, Command::Nothing),
            _ => (InputMode::Feed, Command::Nothing),
        },
        InputMode::Normal => match key {
            Key::Char('q') => (InputMode::Normal, Command::Quit),
            Key::Char('a') => (InputMode::About, Command::Nothing),
            Key::Char('f') => (InputMode::Feed, Command::Nothing),
            Key::Char('g') => (InputMode::Normal, Command::PlayGame),
            Key::Char('d') => (InputMode::Normal, Command::Discipline),
            Key::Char('c') => (InputMode::Normal, Command::CleanPoop),
            Key::Char('l') => (InputMode::Normal, Command::ToggleLights),
            Key::Char('i') => (InputMode::Normal, Command::GiveMedicine),
            _ => (InputMode::Normal, Command::Nothing),
        },
    }
}

/// Reads a key press in `mode`: the next mode and the command to carry out.
pub fn on_key(mode: InputMode, key: Key) -> (r: (InputMode, Command))
    ensures
        r == key_step(mode, key),
{
    match mode {
        InputMode::About => match key {
            Key::Esc | Key::Char('a') | Key::Char('q') => (InputMode::Normal, Command::Nothing),
            _ => (InputMode::About, Command::Nothing),
        },
        InputMode::Feed => match key {
            Key::Char('m') => (InputMode::Normal, Command::FeedMeal),
            Key::Char('s') => (InputMode::Normal, Command::FeedSnack),
            Key::Esc => (InputMode::Normal, Command::Nothing),
            _ => (InputMode::Feed, Command::Nothing),
        },
        InputMode::Normal => match key {
            Key::Char('q') => (InputMode::Normal, Command::Quit),
            Key::Char('a') => (InputMode::About, Command::Nothing),
            Key::Char('f') => (InputMode::Feed, Command::Nothing),
            Key::Char('g') => (InputMode::Normal, Command::PlayGame),
            Key::Char('d') => (InputMode::Normal, Command::Discipline),
            Key::Char('c') => (InputMode::Normal, Command::CleanPoop),
            Key::Char('l') => (InputMode::Normal, Command::ToggleLights),
            Key::Char('i') => (InputMode::Normal, Command::GiveMedicine),
            _ => (InputMode::Normal, Command::Nothing),
        },
    }
}

/// The name under which a command is sent to the running app; `None` for the
/// commands that stay in the front end.
pub open spec fn request_text(c: Command) -> Option<Seq<char>> {
    match c {
        Command::FeedMeal => Some("feed_meal"@),
        Command::FeedSnack => Some("feed_snack"@),
        Command::PlayGame => Some("play_game"@),
        Command::Discipline => Some("discipline"@),
        Command::CleanPoop => Some("clean_poop"@),
        Command::ToggleLights => Some("toggle_lights"@),
        Command::GiveMedicine => Some("give_medicine"@),
        _ => None,
    }
}

/// The name under which `command` is sent to the running app.
pub fn request_name(command: Command) -> (r: Option<&'static str>)
    ensures
        r matches Some(n) ==> request_text(command) == Some(n@),
        r is None <==> request_text(command) is None,
{
    match command {
        Command::FeedMeal => Some("feed_meal"),
        Command::FeedSnack => Some("feed_snack"),
        Command::PlayGame => Some("play_game"),
        Command::Discipline => Some("discipline"),
        Command::CleanPoop => Some("clean_poop"),
        Command::ToggleLights => Some("toggle_lights"),
        Command::GiveMedicine => Some("give_medicine"),
        _ => None,
    }
}

/// The message once the running app has carried out a sent command.
pub open spec fn sent_text(c: Command) -> Seq<char> {
    match c {
        Command::FeedMeal => "meal sent"@,
        Command::FeedSnack => "snack sent"@,
        Command::PlayGame => "game played"@,
        Command::ToggleLights => "lights toggled"@,
        Command::Discipline => "discipline"@ + " done"@,
        Command::CleanPoop => "clean_poop"@ + " done"@,
        Command::GiveMedicine => "give_medicine"@ + " done"@,
        _ => ""@,
    }
}

/// The message shown once the running app has carried out `command`.
pub fn sent_message(command: Command) -> (r: String)
    ensures
        r@ == sent_text(command),
{
    match command {
        Command::FeedMeal => String::from_str("meal sent"),
        Command::FeedSnack => String::from_str("snack sent"),
        Command::PlayGame => String::from_str("game played"),
        Command::ToggleLights => String::from_str("lights toggled"),
        Command::Discipline => String::from_str("discipline").concat(" done"),
        Command::CleanPoop => String::from_str("clean_poop").concat(" done"),
        Command::GiveMedicine => String::from_str("give_medicine").concat(" done"),
        _ => String::from_str(""),
    }
}

// ── Run mode, about box and loop timing ────────────────────────────────────

/// Whether this front end runs the simulation or forwards to the desktop app.
#[derive(Clone, Copy, Debug, PartialEq, Eq, Structural)]
pub enum RunMode {
    /// Owns the lock, ticks, and reads and writes the save file.
    Standalone,
    /// The app is running: reads the save file, sends actions over the network.
    Client,
}

/// The row that shows the run mode.
pub open spec fn mode_text(mode: RunMode) -> Seq<char> {
    match mode {
        RunMode::Standalone => "[ standalone \u{2014} owns simulation ]"@,
        RunMode::Client => "[ client \u{2014} app is running, actions sent via network ]"@,
    }
}

/// The row of the screen that shows the run mode.
pub fn mode_line(mode: RunMode) -> (r: &'static str)
    ensures
        r@ == mode_text(mode),
{
    match mode {
        RunMode::Standalone => "[ standalone \u{2014} owns simulation ]",
        RunMode::Client => "[ client \u{2014} app is running, actions sent via network ]",
    }
}

/// The lines of the about box, top to bottom.
pub open spec fn about_text() -> Seq<Seq<char>> {
    seq![
        ""@,
        "tama96 v0.1.0"@,
        ""@,
        "Made by @siegerts"@,
        "https://x.com/siegerts"@,
        ""@,
        "Built with Kiro"@,
        "https://kiro.dev/"@,
        ""@,
        "https://github.com/siegerts/tama96"@,
        ""@,
        "\"Tamagotchi\" is a trademark of Bandai Co., Ltd."@,
        "Not affiliated with or endorsed by Bandai."@,
        ""@,
        "MIT License"@,
    ]
}

/// The lines of the about box, top to bottom.
pub fn about_lines() -> (r: Vec<&'static str>)
    ensures
        r@.len() == about_text().len(),
        forall|i: int| 0 <= i < r@.len() ==> #[trigger] r@[i]@ == about_text()[i],
{
    let r: Vec<&'static str> = vec![
        "",
        "tama96 v0.1.0",
        "",
        "Made by @siegerts",
        "https://x.com/siegerts",
        "",
        "Built with Kiro",
        "https://kiro.dev/",
        "",
        "https://github.com/siegerts/tama96",
        "",
        "\"Tamagotchi\" is a trademark of Bandai Co., Ltd.",
        "Not affiliated with or endorsed by Bandai.",
        "",
        "MIT License",
    ];
    assert forall|i: int| 0 <= i < r@.len() implies #[trigger] r@[i]@ == about_text()[i] by {
        if i == 0 {} else if i == 1 {} else if i == 2 {} else if i == 3 {} else if i == 4 {}
        else if i == 5 {} else if i == 6 {} else if i == 7 {} else if i == 8 {} else if i == 9 {}
        else if i == 10 {} else if i == 11 {} else if i == 12 {} else if i == 13 {} else {}
    }
    r
}

/// Nanoseconds between two ticks of a standalone front end: a minute.
pub const TICK_INTERVAL_NANOS: u64 = 60_000_000_000;

/// Nanoseconds between two reloads of the save file by a client: a second.
pub const RELOAD_INTERVAL_NANOS: u64 = 1_000_000_000;

/// Nanoseconds a message stays on the hint line: three seconds.
pub const MESSAGE_NANOS: u64 = 3_000_000_000;

/// What the front end's loop is due to do on a pass.
#[derive(Clone, Copy, Debug, PartialEq, Eq, Structural)]
pub struct LoopDue {
    /// Run a tick and save (standalone only).
    pub tick: bool,
    /// Reload the pet from the save file (client only).
    pub reload: bool,
    /// Clear the message on the hint line.
    pub clear_message: bool,
}

/// What the loop is due to do, `since_tick` and `since_reload` nanoseconds after
/// the last tick and reload, with a message shown for `message_age` nanoseconds
/// (`None` where none is shown): a standalone front end ticks once a minute has
/// passed, a client reloads once a second has passed, and a message is cleared
/// once it has been shown for more than three seconds.
pub fn loop_due(mode: RunMode, since_tick: u64, since_reload: u64, message_age: Option<u64>) -> (r: LoopDue)
    ensures
        r.tick == (mode == RunMode::Standalone && since_tick >= TICK_INTERVAL_NANOS),
        r.reload == (mode == RunMode::Client && since_reload >= RELOAD_INTERVAL_NANOS),
        r.clear_message == (message_age matches Some(a) && a > MESSAGE_NANOS),
{
    LoopDue {
        tick: mode == RunMode::Standalone && since_tick >= TICK_INTERVAL_NANOS,
        reload: mode == RunMode::Client && since_reload >= RELOAD_INTERVAL_NANOS,
        clear_message: match message_age {
            Some(a) => a > MESSAGE_NANOS,
            None => false,
        },
    }
}

} // verus!
