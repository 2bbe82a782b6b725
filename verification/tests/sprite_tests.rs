use chrono::Utc;
use tama_core::display::{character_name, hearts_string, stage_name, status_indicators};
use tama_core::sprites::{get_sprite, idle_sprite, pixel, sprite_to_braille, DEAD, EGG, SICK, SLEEPING};
use tama_core::state::{Character, LifeStage, PetState};
use tama_core::time::Timestamp;

fn current_time() -> Timestamp {
    let now = Utc::now();
    Timestamp::from_unix(now.timestamp(), now.timestamp_subsec_nanos()).unwrap()
}

#[test]
fn braille_output_dimensions() {
    let s = sprite_to_braille(&EGG);
    let lines: Vec<&str> = s.lines().collect();
    assert_eq!(lines.len(), 4, "expected 4 lines of braille");
    for (i, line) in lines.iter().enumerate() {
        assert_eq!(
            line.chars().count(),
            8,
            "line {i} should have 8 braille chars, got {}",
            line.chars().count()
        );
    }
}

#[test]
fn blank_sprite_is_all_empty_braille() {
    let blank: [u16; 16] = [0u16; 16];
    let s = sprite_to_braille(&blank);
    for ch in s.chars() {
        if ch != '\n' {
            assert_eq!(ch, '\u{2800}', "blank sprite should produce empty braille");
        }
    }
}

#[test]
fn get_sprite_returns_egg_for_new_egg() {
    let state = PetState::new_egg(current_time());
    let s = get_sprite(&state);
    assert!(!s.is_empty());
    let expected = sprite_to_braille(&EGG);
    assert_eq!(s, expected);
}

#[test]
fn get_sprite_returns_dead_for_dead_pet() {
    let mut state = PetState::new_egg(current_time());
    state.is_alive = false;
    state.stage = LifeStage::Dead;
    let s = get_sprite(&state);
    let expected = sprite_to_braille(&DEAD);
    assert_eq!(s, expected);
}

#[test]
fn all_characters_have_sprites() {
    let chars = [
        Character::Babytchi,
        Character::Marutchi,
        Character::Tamatchi,
        Character::Kuchitamatchi,
        Character::Mametchi,
        Character::Ginjirotchi,
        Character::Maskutchi,
        Character::Kuchipatchi,
        Character::Nyorotchi,
        Character::Tarakotchi,
        Character::Oyajitchi,
    ];
    for ch in &chars {
        let sprite = idle_sprite(ch);
        let s = sprite_to_braille(&sprite);
        assert!(!s.is_empty(), "sprite for {:?} should not be empty", ch);
    }
}

// ── Exact encodings ─────────────────────────────────────────────────────────

#[test]
fn full_sprite_is_all_full_braille() {
    let full: [u16; 16] = [0xFFFF; 16];
    let s = sprite_to_braille(&full);
    assert_eq!(s, "⣿⣿⣿⣿⣿⣿⣿⣿\n⣿⣿⣿⣿⣿⣿⣿⣿\n⣿⣿⣿⣿⣿⣿⣿⣿\n⣿⣿⣿⣿⣿⣿⣿⣿");
}

#[test]
fn single_pixels_map_to_their_dots() {
    // Top-left pixel is dot 1 (0x01) of the first cell.
    let mut sprite = [0u16; 16];
    sprite[0] = 0b1000_0000_0000_0000;
    assert_eq!(sprite_to_braille(&sprite).chars().next(), Some('\u{2801}'));
    // Pixel (1, 3) is dot 8 (0x80) of the first cell.
    let mut sprite = [0u16; 16];
    sprite[3] = 0b0100_0000_0000_0000;
    assert_eq!(sprite_to_braille(&sprite).chars().next(), Some('\u{2880}'));
    // Bottom-right pixel is dot 8 of the last cell.
    let mut sprite = [0u16; 16];
    sprite[15] = 0b0000_0000_0000_0001;
    assert_eq!(sprite_to_braille(&sprite).chars().last(), Some('\u{2880}'));
}

#[test]
fn pixels_outside_the_sprite_are_unset() {
    let full: [u16; 16] = [0xFFFF; 16];
    assert!(pixel(&full, 0, 0));
    assert!(pixel(&full, 15, 15));
    assert!(!pixel(&full, 16, 0));
    assert!(!pixel(&full, 0, 16));
}

#[test]
fn sleeping_and_sick_pets_show_their_sprites() {
    let mut state = PetState::new_egg(current_time());
    state.stage = LifeStage::Baby;
    state.is_sleeping = true;
    state.is_sick = true;
    assert_eq!(get_sprite(&state), sprite_to_braille(&SLEEPING));
    state.is_sleeping = false;
    assert_eq!(get_sprite(&state), sprite_to_braille(&SICK));
    state.is_sick = false;
    assert_eq!(get_sprite(&state), sprite_to_braille(&idle_sprite(&Character::Babytchi)));
}

// ── Status text ─────────────────────────────────────────────────────────────

#[test]
fn hearts_render_full_and_empty() {
    assert_eq!(hearts_string(2, 4), "██ ██ ░░ ░░");
    assert_eq!(hearts_string(0, 4), "░░ ░░ ░░ ░░");
    assert_eq!(hearts_string(4, 4), "██ ██ ██ ██");
    assert_eq!(hearts_string(0, 0), "");
}

#[test]
fn status_line_lists_what_applies() {
    let mut state = PetState::new_egg(current_time());
    assert_eq!(status_indicators(&state), "");
    state.poop_count = 3;
    state.is_sick = true;
    assert_eq!(status_indicators(&state), "POOP:ooo SICK");
    state.pending_lights_deadline = Some(current_time());
    state.is_sleeping = true;
    assert_eq!(status_indicators(&state), "POOP:ooo BEDTIME SICK ZZZ");
    state.poop_count = 0;
    assert_eq!(status_indicators(&state), "BEDTIME SICK ZZZ");
}

#[test]
fn names_of_characters_and_stages() {
    let mut state = PetState::new_egg(current_time());
    assert_eq!(character_name(&state), "Babytchi");
    state.character = Character::Kuchitamatchi;
    assert_eq!(character_name(&state), "Kuchitamatchi");
    assert_eq!(stage_name(&LifeStage::Egg), "Egg");
    assert_eq!(stage_name(&LifeStage::Special), "Special");
    assert_eq!(stage_name(&LifeStage::Dead), "Dead");
}
