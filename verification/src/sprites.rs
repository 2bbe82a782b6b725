//! Pixel sprites of the pet, drawn as Unicode braille text.
//!
//! Each sprite is 16×16 pixels, one 16-bit mask per row (most significant bit =
//! leftmost pixel). A braille cell covers 2 columns × 4 rows, so a sprite becomes
//! 4 lines of 8 braille characters.
use vstd::prelude::*;

use crate::state::{Character, LifeStage, PetState};

verus! {

/// Width of a sprite in pixels.
pub const SPRITE_W: usize = 16;

/// Height of a sprite in pixels.
pub const SPRITE_H: usize = 16;

// ── Braille encoding ────────────────────────────────────────────────────────
// Unicode braille block U+2800–U+28FF. Bit of each dot within a cell (col, row):
//   (0,0)=0x01  (1,0)=0x08
//   (0,1)=0x02  (1,1)=0x10
//   (0,2)=0x04  (1,2)=0x20
//   (0,3)=0x40  (1,3)=0x80

/// Pixel (x, y) of the sprite `rows` is set; pixels outside the sprite are unset.
pub open spec fn pixel_on(rows: Seq<u16>, x: int, y: int) -> bool {
    0 <= x < 16 && 0 <= y < 16 && (rows[y] >> ((15 - x) as u16)) & 1u16 == 1u16
}

/// `weight` where pixel (x, y) is set, else 0.
pub open spec fn dot(rows: Seq<u16>, x: int, y: int, weight: int) -> int {
    if pixel_on(rows, x, y) { weight } else { 0 }
}

/// The dot pattern (0–255) of the braille cell at (cell_row, cell_col).
pub open spec fn cell_code(rows: Seq<u16>, cell_row: int, cell_col: int) -> int {
    let px = cell_col * 2;
    let py = cell_row * 4;
    dot(rows, px, py, 0x01) + dot(rows, px, py + 1, 0x02) + dot(rows, px, py + 2, 0x04)
        + dot(rows, px + 1, py, 0x08) + dot(rows, px + 1, py + 1, 0x10)
        + dot(rows, px + 1, py + 2, 0x20) + dot(rows, px, py + 3, 0x40)
        + dot(rows, px + 1, py + 3, 0x80)
}

/// The text of a sprite: 4 lines of 8 braille characters, lines joined by '\n'.
pub open spec fn braille_text(rows: Seq<u16>) -> Seq<char> {
    Seq::new(
        35,
        |k: int|
            if k % 9 == 8 {
                '\n'
            } else {
                (0x2800 + cell_code(rows, k / 9, k % 9)) as char
            },
    )
}

/// Reads pixel (x, y) of a sprite; pixels outside it read as unset.
pub fn pixel(sprite: &[u16; 16], x: usize, y: usize) -> (r: bool)
    ensures
        r == pixel_on(sprite@, x as int, y as int),
{
    if x >= SPRITE_W || y >= SPRITE_H {
        return false;
    }
    let shift: u16 = (SPRITE_W - 1 - x) as u16;
    (sprite[y] >> shift) & 1 == 1
}

/// The dot pattern of one braille cell.
fn cell_pattern(sprite: &[u16; 16], cell_row: usize, cell_col: usize) -> (r: u32)
    requires
        cell_row < 4,
        cell_col < 8,
    ensures
        r == cell_code(sprite@, cell_row as int, cell_col as int),
        r < 256,
{
    let px = cell_col * 2;
    let py = cell_row * 4;
    let mut code: u32 = 0;
    if pixel(sprite, px, py) { code = code + 0x01; }
    if pixel(sprite, px, py + 1) { code = code + 0x02; }
    if pixel(sprite, px, py + 2) { code = code + 0x04; }
    if pixel(sprite, px + 1, py) { code = code + 0x08; }
    if pixel(sprite, px + 1, py + 1) { code = code + 0x10; }
    if pixel(sprite, px + 1, py + 2) { code = code + 0x20; }
    if pixel(sprite, px, py + 3) { code = code + 0x40; }
    if pixel(sprite, px + 1, py + 3) { code = code + 0x80; }
    code
}

/// Calls `char::from_u32`: the character with scalar value `code`, or `None`
/// where `code` is a surrogate (0xD800–0xDFFF) or above 0x10FFFF, as std
/// documents it.
#[verifier::external_body]
fn char_from_code(code: u32) -> (r: Option<char>)
    ensures
        r is Some <==> (code <= 0xD7FF || (0xE000 <= code && code <= 0x10FFFF)),
        r matches Some(c) ==> c == code as char,
{
    char::from_u32(code)
}

/// Calls `String::push`: appends `c` to `text`.
#[verifier::external_body]
pub(crate) fn push_char(text: &mut String, c: char)
    ensures
        final(text)@ == old(text)@.push(c),
{
    text.push(c)
}

/// Converts a 16×16 sprite into 4 lines of 8 braille characters.
pub fn sprite_to_braille(sprite: &[u16; 16]) -> (r: String)
    ensures
        r@ == braille_text(sprite@),
{
    let mut out = String::new();
    let mut cell_row: usize = 0;
    while cell_row < 4
        invariant
            cell_row <= 4,
            out@.len() == if cell_row == 4 { 35 } else { cell_row * 9 },
            forall|k: int| 0 <= k < out@.len() ==> out@[k] == #[trigger] braille_text(sprite@)[k],
        decreases 4 - cell_row,
    {
        let mut cell_col: usize = 0;
        while cell_col < 8
            invariant
                cell_row < 4,
                cell_col <= 8,
                out@.len() == cell_row * 9 + cell_col,
                forall|k: int| 0 <= k < out@.len() ==> out@[k] == #[trigger] braille_text(sprite@)[k],
            decreases 8 - cell_col,
        {
            let code = cell_pattern(sprite, cell_row, cell_col);
            let c = char_from_code(0x2800 + code).unwrap();
            proof {
                let k = cell_row * 9 + cell_col;
                assert(k / 9 == cell_row && k % 9 == cell_col) by (nonlinear_arith)
                    requires
                        k == cell_row * 9 + cell_col,
                        cell_col < 8,
                ;
            }
            push_char(&mut out, c);
            cell_col = cell_col + 1;
        }
        if cell_row < 3 {
            proof {
                let k = cell_row * 9 + 8;
                assert(k % 9 == 8) by (nonlinear_arith)
                    requires
                        k == cell_row * 9 + 8,
                ;
            }
            push_char(&mut out, '\n');
        }
        cell_row = cell_row + 1;
    }
    assert(out@ =~= braille_text(sprite@));
    out
}

// ── Sprite selection ────────────────────────────────────────────────────────

/// The idle sprite of a character.
pub open spec fn idle_rows(ch: Character) -> [u16; 16] {
    match ch {
        Character::Babytchi => BABYTCHI,
        Character::Marutchi => MARUTCHI,
        Character::Tamatchi => TAMATCHI,
        Character::Kuchitamatchi => KUCHITAMATCHI,
        Character::Mametchi => MAMETCHI,
        Character::Ginjirotchi => GINJIROTCHI,
        Character::Maskutchi => MASKUTCHI,
        Character::Kuchipatchi => KUCHIPATCHI,
        Character::Nyorotchi => NYOROTCHI,
        Character::Tarakotchi => TARAKOTCHI,
        Character::Oyajitchi => OYAJITCHI,
    }
}

/// The sprite shown for a pet: dead, egg, sleeping, sick, or the character idle,
/// in that order of precedence.
pub open spec fn shown_rows(state: PetState) -> [u16; 16] {
    if !state.is_alive {
        DEAD
    } else if state.stage == LifeStage::Egg {
        EGG
    } else if state.is_sleeping {
        SLEEPING
    } else if state.is_sick {
        SICK
    } else {
        idle_rows(state.character)
    }
}

/// The idle sprite of a character.
pub fn idle_sprite(ch: &Character) -> (r: [u16; 16])
    ensures
        r == idle_rows(*ch),
{
    match ch {
        Character::Babytchi => BABYTCHI,
        Character::Marutchi => MARUTCHI,
        Character::Tamatchi => TAMATCHI,
        Character::Kuchitamatchi => KUCHITAMATCHI,
        Character::Mametchi => MAMETCHI,
        Character::Ginjirotchi => GINJIROTCHI,
        Character::Maskutchi => MASKUTCHI,
        Character::Kuchipatchi => KUCHIPATCHI,
        Character::Nyorotchi => NYOROTCHI,
        Character::Tarakotchi => TARAKOTCHI,
        Character::Oyajitchi => OYAJITCHI,
    }
}

/// The sprite shown for a pet.
pub fn select_sprite(state: &PetState) -> (r: [u16; 16])
    ensures
        r == shown_rows(*state),
{
    if !state.is_alive {
        return DEAD;
    }
    if state.stage == LifeStage::Egg {
        return EGG;
    }
    if state.is_sleeping {
        return SLEEPING;
    }
    if state.is_sick {
        return SICK;
    }
    idle_sprite(&state.character)
}

/// The braille text of the sprite shown for a pet.
pub fn get_sprite(state: &PetState) -> (r: String)
    ensures
        r@ == braille_text(shown_rows(*state)@),
{
    let sprite = select_sprite(state);
    sprite_to_braille(&sprite)
}

// ── Sprite data ─────────────────────────────────────────────────────────────

/// Egg — oval with diagonal stripe pattern (like the real P1 egg)
pub const EGG: [u16; 16] = [
    0b0000001111000000,
    0b0000111111110000,
    0b0001110110111000,
    0b0011111011011100,
    0b0011101101111100,
    0b0011110110111100,
    0b0011101101111100,
    0b0011111011011100,
    0b0011110110111100,
    0b0011101101111100,
    0b0011111011011100,
    0b0001110110111000,
    0b0000111111110000,
    0b0000001111000000,
    0b0000000000000000,
    0b0000000000000000,
];

/// Babytchi — tiny round body, tuft on top, dot eyes, small mouth, stubby feet
pub const BABYTCHI: [u16; 16] = [
    0b0000000000000000,
    0b0000000110000000,
    0b0000011111100000,
    0b0000111111110000,
    0b0001111111111000,
    0b0001101111011000,
    0b0001111111111000,
    0b0001111001111000,
    0b0001111111111000,
    0b0000111111110000,
    0b0000011111100000,
    0b0000001111000000,
    0b0000010000100000,
    0b0000010000100000,
    0b0000000000000000,
    0b0000000000000000,
];

/// Marutchi — round body, big oval eyes, wide smile, small feet
pub const MARUTCHI: [u16; 16] = [
    0b0000000000000000,
    0b0000011111100000,
    0b0000111111110000,
    0b0001111111111000,
    0b0011100110011100,
    0b0011100110011100,
    0b0011111111111100,
    0b0011100000011100,
    0b0011110000111100,
    0b0001111111111000,
    0b0000111111110000,
    0b0000011111100000,
    0b0000011001100000,
    0b0000011001100000,
    0b0000000000000000,
    0b0000000000000000,
];

/// Tamatchi — tall oval body, pointy ear tufts, round eyes, smile
pub const TAMATCHI: [u16; 16] = [
    0b0001100000011000,
    0b0000110000110000,
    0b0000111111110000,
    0b0001111111111000,
    0b0001101111011000,
    0b0001101111011000,
    0b0001111111111000,
    0b0001110000111000,
    0b0001111111111000,
    0b0000111111110000,
    0b0000011111100000,
    0b0000001111000000,
    0b0000010000100000,
    0b0000010000100000,
    0b0000000000000000,
    0b0000000000000000,
];

/// Kuchitamatchi — round body, beak/bill protruding right, dot eyes
pub const KUCHITAMATCHI: [u16; 16] = [
    0b0000000000000000,
    0b0000011111100000,
    0b0000111111110000,
    0b0001111111111000,
    0b0001101111011000,
    0b0001111111111000,
    0b0001111111111000,
    0b0001111111111110,
    0b0001111111111110,
    0b0001111111111000,
    0b0000111111110000,
    0b0000011111100000,
    0b0000010000100000,
    0b0000010000100000,
    0b0000000000000000,
    0b0000000000000000,
];

/// Mametchi — ear-cap on top (wider than head), round eyes, happy mouth
pub const MAMETCHI: [u16; 16] = [
    0b0000000000000000,
    0b0011111111111100,
    0b0011111111111100,
    0b0001111111111000,
    0b0001111111111000,
    0b0001101111011000,
    0b0001101111011000,
    0b0001111111111000,
    0b0001110000111000,
    0b0001111111111000,
    0b0000111111110000,
    0b0000011111100000,
    0b0000010000100000,
    0b0000010000100000,
    0b0000000000000000,
    0b0000000000000000,
];

/// Ginjirotchi — round body, small horns/bumps on top, gentle face
pub const GINJIROTCHI: [u16; 16] = [
    0b0000000000000000,
    0b0000010000100000,
    0b0000111111110000,
    0b0001111111111000,
    0b0011111111111100,
    0b0011011111101100,
    0b0011011111101100,
    0b0011111111111100,
    0b0011111001111100,
    0b0011111111111100,
    0b0001111111111000,
    0b0000111111110000,
    0b0000010000100000,
    0b0000010000100000,
    0b0000000000000000,
    0b0000000000000000,
];

/// Maskutchi — angular head, rectangular eyes (mask-like), stern mouth
pub const MASKUTCHI: [u16; 16] = [
    0b0000000000000000,
    0b0000111111110000,
    0b0001111111111000,
    0b0011111111111100,
    0b0011100011100100,
    0b0011100011100100,
    0b0011111111111100,
    0b0011111111111100,
    0b0011110000111100,
    0b0011111111111100,
    0b0001111111111000,
    0b0000111111110000,
    0b0000010000100000,
    0b0000110000110000,
    0b0000000000000000,
    0b0000000000000000,
];

/// Kuchipatchi — chubby round body, duck bill, happy eyes
pub const KUCHIPATCHI: [u16; 16] = [
    0b0000000000000000,
    0b0000011111100000,
    0b0000111111110000,
    0b0001111111111000,
    0b0011111111111100,
    0b0011011111101100,
    0b0011111111111100,
    0b0011111111111100,
    0b0011111111111110,
    0b0011111111111110,
    0b0001111111111000,
    0b0000111111110000,
    0b0000010000100000,
    0b0000111001110000,
    0b0000000000000000,
    0b0000000000000000,
];

/// Nyorotchi — snake/worm, long wavy body, small head with eyes
pub const NYOROTCHI: [u16; 16] = [
    0b0000000000000000,
    0b0000000000000000,
    0b0000111110000000,
    0b0001111111000000,
    0b0001101101000000,
    0b0001111111000000,
    0b0001110011000000,
    0b0000111110000000,
    0b0000011100000000,
    0b0000001110000000,
    0b0000011111000000,
    0b0000111111100000,
    0b0001111111110000,
    0b0000111111100000,
    0b0000011111000000,
    0b0000000000000000,
];

/// Tarakotchi — antennae on top, round body, frowning mouth, wide feet
pub const TARAKOTCHI: [u16; 16] = [
    0b0000100000010000,
    0b0000010000100000,
    0b0000111111110000,
    0b0001111111111000,
    0b0011111111111100,
    0b0011011111101100,
    0b0011111111111100,
    0b0011110000111100,
    0b0011111111111100,
    0b0001111111111000,
    0b0000111111110000,
    0b0000010000100000,
    0b0000111001110000,
    0b0000000000000000,
    0b0000000000000000,
    0b0000000000000000,
];

/// Oyajitchi — bald head, moustache, old man face
pub const OYAJITCHI: [u16; 16] = [
    0b0000001111000000,
    0b0000011111100000,
    0b0000111111110000,
    0b0001111111111000,
    0b0001101111011000,
    0b0001101111011000,
    0b0001111111111000,
    0b0001100110011000,
    0b0001111001111000,
    0b0001111111111000,
    0b0000111111110000,
    0b0000011111100000,
    0b0000010000100000,
    0b0000010000100000,
    0b0000000000000000,
    0b0000000000000000,
];

/// Sleeping — generic sleeping pose, closed eyes, z's
pub const SLEEPING: [u16; 16] = [
    0b0000000000000000,
    0b0000011111100000,
    0b0000111111110000,
    0b0001111111111000,
    0b0001110110111000,
    0b0001111111111000,
    0b0001111111111000,
    0b0001111111111000,
    0b0000111111110000,
    0b0000011111100000,
    0b0000000000000000,
    0b0000000000111000,
    0b0000000001000000,
    0b0000000000011000,
    0b0000000000000000,
    0b0000000000000000,
];

/// Sick — sweat drop, X eyes, wavy mouth
pub const SICK: [u16; 16] = [
    0b0000000000010000,
    0b0000011111101000,
    0b0000111111110000,
    0b0001111111111000,
    0b0001010110101000,
    0b0001111111111000,
    0b0001111001111000,
    0b0001111111111000,
    0b0000111111110000,
    0b0000011111100000,
    0b0000001111000000,
    0b0000010000100000,
    0b0000010000100000,
    0b0000000000000000,
    0b0000000000000000,
    0b0000000000000000,
];

/// Dead — ghost/angel with halo, X eyes, wavy bottom
pub const DEAD: [u16; 16] = [
    0b0000001111000000,
    0b0000010000100000,
    0b0000001111000000,
    0b0000011111100000,
    0b0000111111110000,
    0b0001111111111000,
    0b0001010110101000,
    0b0001111111111000,
    0b0001111001111000,
    0b0001111111111000,
    0b0000111111110000,
    0b0000011111100000,
    0b0000010101010000,
    0b0000001010100000,
    0b0000000000000000,
    0b0000000000000000,
];

} // verus!
