//! Operand fields of a 16-bit instruction word.
//!
//! Every instruction is one big-endian word. Its top four bits select the
//! instruction family; the remaining twelve bits are read as register indices
//! `x` and `y`, a 4-bit immediate `n`, an 8-bit immediate `kk` or a 12-bit
//! address `nnn`, depending on the instruction.

use vstd::prelude::*;

verus! {

/// The family selector: bits 12-15 of the word.
pub open spec fn family_of(opcode: u16) -> u8 {
    (opcode / 0x1000) as u8
}

/// The first register index: bits 8-11 of the word.
pub open spec fn x_of(opcode: u16) -> u8 {
    ((opcode / 0x100) % 0x10) as u8
}

/// The second register index: bits 4-7 of the word.
pub open spec fn y_of(opcode: u16) -> u8 {
    ((opcode / 0x10) % 0x10) as u8
}

/// The 4-bit immediate: bits 0-3 of the word.
pub open spec fn n_of(opcode: u16) -> u8 {
    (opcode % 0x10) as u8
}

/// The 8-bit immediate: bits 0-7 of the word.
pub open spec fn kk_of(opcode: u16) -> u8 {
    (opcode % 0x100) as u8
}

/// The 12-bit address: bits 0-11 of the word.
pub open spec fn nnn_of(opcode: u16) -> u16 {
    opcode % 0x1000
}

/// Whether the pixel `col` places to the right of a sprite row's left edge is
/// set. Column 0 is the most significant bit of the row byte.
pub open spec fn sprite_bit(row: u8, col: u8) -> bool {
    row & (0x80u8 >> col) != 0
}

/// The family selector of `opcode`.
pub fn family(opcode: u16) -> (f: u8)
    ensures
        f == family_of(opcode),
        f < 16,
{
    assert(opcode >> 12 == opcode / 0x1000 && (opcode >> 12) < 16) by (bit_vector);
    (opcode >> 12) as u8
}

/// The first register index of `opcode`.
pub fn reg_x(opcode: u16) -> (x: u8)
    ensures
        x == x_of(opcode),
        x < 16,
{
    assert((opcode >> 8) & 0x000f == (opcode / 0x100) % 0x10 && ((opcode >> 8) & 0x000f) < 16)
        by (bit_vector);
    ((opcode >> 8) & 0x000f) as u8
}

/// The second register index of `opcode`.
pub fn reg_y(opcode: u16) -> (y: u8)
    ensures
        y == y_of(opcode),
        y < 16,
{
    assert((opcode >> 4) & 0x000f == (opcode / 0x10) % 0x10 && ((opcode >> 4) & 0x000f) < 16)
        by (bit_vector);
    ((opcode >> 4) & 0x000f) as u8
}

/// The 4-bit immediate of `opcode`.
pub fn nibble(opcode: u16) -> (n: u8)
    ensures
        n == n_of(opcode),
        n < 16,
{
    assert(opcode & 0x000f == opcode % 0x10 && (opcode & 0x000f) < 16) by (bit_vector);
    (opcode & 0x000f) as u8
}

/// The 8-bit immediate of `opcode`.
pub fn byte(opcode: u16) -> (kk: u8)
    ensures
        kk == kk_of(opcode),
{
    assert(opcode & 0x00ff == opcode % 0x100 && (opcode & 0x00ff) < 256) by (bit_vector);
    (opcode & 0x00ff) as u8
}

/// The 12-bit address of `opcode`.
pub fn address(opcode: u16) -> (nnn: u16)
    ensures
        nnn == nnn_of(opcode),
        nnn < 0x1000,
{
    assert(opcode & 0x0fff == opcode % 0x1000 && (opcode & 0x0fff) < 0x1000) by (bit_vector);
    opcode & 0x0fff
}

} // verus!
