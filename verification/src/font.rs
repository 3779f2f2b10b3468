//! The built-in hexadecimal font.
//!
//! Each of the sixteen digits has a sprite five rows high and four pixels
//! wide, kept in the upper nibble of each row. The table is copied into low
//! memory once, when a machine is made.

use vstd::prelude::*;

verus! {

/// The address of the first byte of the digit `0`.
pub const FONT_BASE: u16 = 0x050;

/// The number of bytes in the sprite of one digit.
pub const SPRITE_SIZE: u16 = 5;

/// The number of bytes in the whole font.
pub const FONT_SIZE: usize = 80;

/// The sprites of the digits `0` to `F`, five bytes each.
pub const FONT: [u8; 80] = [
    0xF0, 0x90, 0x90, 0x90, 0xF0,
    0x20, 0x60, 0x20, 0x20, 0x70,
    0xF0, 0x10, 0xF0, 0x80, 0xF0,
    0xF0, 0x10, 0xF0, 0x10, 0xF0,
    0x90, 0x90, 0xF0, 0x10, 0x10,
    0xF0, 0x80, 0xF0, 0x10, 0xF0,
    0xF0, 0x80, 0xF0, 0x90, 0xF0,
    0xF0, 0x10, 0x20, 0x40, 0x40,
    0xF0, 0x90, 0xF0, 0x90, 0xF0,
    0xF0, 0x90, 0xF0, 0x10, 0xF0,
    0xF0, 0x90, 0xF0, 0x90, 0x90,
    0xE0, 0x90, 0xE0, 0x90, 0xE0,
    0xF0, 0x80, 0x80, 0x80, 0xF0,
    0xE0, 0x90, 0x90, 0x90, 0xE0,
    0xF0, 0x80, 0xF0, 0x80, 0xF0,
    0xF0, 0x80, 0xF0, 0x80, 0x80,
];

/// The address at which the sprite of `digit` begins: five bytes further for
/// each digit, counted from [`FONT_BASE`].
pub open spec fn sprite_addr(digit: u8) -> u16 {
    (FONT_BASE + SPRITE_SIZE * digit) as u16
}

/// Memory `before` with the font written over the eighty bytes that start at
/// [`FONT_BASE`].
pub open spec fn with_fonts(before: Seq<u8>) -> Seq<u8> {
    Seq::new(
        before.len(),
        |a: int|
            if FONT_BASE <= a < FONT_BASE + FONT_SIZE {
                FONT[a - FONT_BASE]
            } else {
                before[a]
            },
    )
}

/// Copies the font into `memory`, leaving every other byte as it was.
pub fn load_fonts(memory: &mut [u8; 4096])
    ensures
        final(memory)@ == with_fonts(old(memory)@),
{
    let mut k: usize = 0;
    while k < FONT_SIZE
        invariant
            k <= FONT_SIZE,
            forall|a: int|
                0 <= a < 4096 ==> memory[a] == if FONT_BASE <= a < FONT_BASE + k {
                    FONT[a - FONT_BASE]
                } else {
                    old(memory)[a]
                },
        decreases FONT_SIZE - k,
    {
        memory[FONT_BASE as usize + k] = FONT[k];
        k += 1;
    }
    assert(memory@ =~= with_fonts(old(memory)@));
}

/// The address of the sprite of `digit`.
pub fn get_sprite_addr(digit: u8) -> (addr: u16)
    ensures
        addr == sprite_addr(digit),
        addr == 0x050 + 5 * digit,
{
    FONT_BASE + SPRITE_SIZE * (digit as u16)
}

} // verus!
