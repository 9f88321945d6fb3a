//! The built-in hexadecimal font.
//!
//! Every machine starts with the same sixteen glyphs at the bottom of its
//! memory, one per hexadecimal digit. A glyph is five rows of eight pixels,
//! of which only the left four columns are ever lit.

use vstd::prelude::*;

verus! {

/// Rows (and therefore bytes) of one glyph.
pub const GLYPH_HEIGHT: usize = 5;

/// Bytes of the whole glyph table.
pub const FONT_BYTES: usize = 80;

/// The glyph table: the glyph of digit `d` occupies the bytes
/// `GLYPH_HEIGHT * d .. GLYPH_HEIGHT * (d + 1)`, top row first.
pub const FONT: [u8; 80] = [
    0xF0, 0x90, 0x90, 0x90, 0xF0,
    0x20, 0x60, 0x20, 0x20, 0x70,
    0xF0, 0x10, 0xF0, 0x80, 0xF0,
    0xF0, 0x10, 0xF0, 0x10, 0xF0,
    0x90, 0x90, 0xF0, 0x10, 0x10,
    0xF0, 0x80, 0xF0, 0x10, 0xF0,
    0xF0, 0x80, 0xF0, 0x90, 0xF0,
    0xF0, 0x10, 0x20, 0x40, 0x40,
    0xF0, 0x90, 0xF0, 0x90, 0xF0,
    0xF0, 0x90, 0xF0, 0x10, 0xF0,
    0xF0, 0x90, 0xF0, 0x90, 0x90,
    0xE0, 0x90, 0xE0, 0x90, 0xE0,
    0xF0, 0x80, 0x80, 0x80, 0xF0,
    0xE0, 0x90, 0x90, 0x90, 0xE0,
    0xF0, 0x80, 0xF0, 0x80, 0xF0,
    0xF0, 0x80, 0xF0, 0x80, 0x80,
];

} // verus!
