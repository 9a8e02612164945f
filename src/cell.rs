use vstd::prelude::*;

use vstd::std_specs::convert::FromSpecImpl;

verus! {

/// One byte of the program field.
#[derive(PartialEq, Eq, Structural, Hash, Clone, Copy, Debug)]
pub struct GridCell(pub u8);

/// One value of the execution stack.
#[derive(PartialEq, Eq, Structural, Hash, Clone, Copy, Debug)]
pub struct StackCell(pub i32);

/// The byte value of an empty cell: ASCII space.
pub const BLANK: u8 = 32;

/// A grid cell read as a stack value: the byte, zero-extended.
pub open spec fn widened(g: GridCell) -> StackCell {
    StackCell(g.0 as i32)
}

/// A stack value stored in a grid cell: its low byte, that is the value
/// modulo 256 (always from 0 to 255, negative values included).
pub open spec fn truncated(s: StackCell) -> GridCell {
    GridCell(((s.0 as int) % 256) as u8)
}

/// The remainder of `a` by `m` with the sign of `a`, as a machine `%` gives it.
pub open spec fn rem(a: int, m: int) -> int {
    if a >= 0 {
        a % m
    } else {
        -((-a) % m)
    }
}

impl Default for GridCell {
    /// An empty cell holds a space.
    fn default() -> (r: GridCell)
        ensures
            r.0 == BLANK,
    {
        GridCell(BLANK)
    }
}

impl From<u8> for GridCell {
    /// Any byte is a cell, as it is.
    fn from(value: u8) -> (r: GridCell)
        ensures
            r.0 == value,
    {
        GridCell(value)
    }
}

impl FromSpecImpl<u8> for GridCell {
    open spec fn obeys_from_spec() -> bool {
        true
    }

    open spec fn from_spec(v: u8) -> GridCell {
        GridCell(v)
    }
}

impl From<GridCell> for StackCell {
    /// Widens the byte to a stack value; the value is kept exactly.
    fn from(value: GridCell) -> (r: StackCell)
        ensures
            r == widened(value),
    {
        StackCell(value.0 as i32)
    }
}

impl FromSpecImpl<GridCell> for StackCell {
    open spec fn obeys_from_spec() -> bool {
        true
    }

    open spec fn from_spec(v: GridCell) -> StackCell {
        widened(v)
    }
}

impl From<StackCell> for GridCell {
    /// Keeps the low byte of the stack value, silently dropping the rest.
    fn from(value: StackCell) -> (r: GridCell)
        ensures
            r == truncated(value),
    {
        let v: i32 = value.0;
        // Moving the value up by 2^31, a multiple of 256, makes it
        // non-negative without changing its residue.
        let shifted: u64 = (v as i64 + 2147483648i64) as u64;
        proof {
            vstd::arithmetic::div_mod::lemma_mod_multiples_vanish(8388608, v as int, 256);
        }
        GridCell((shifted % 256) as u8)
    }
}

impl FromSpecImpl<StackCell> for GridCell {
    open spec fn obeys_from_spec() -> bool {
        true
    }

    open spec fn from_spec(v: StackCell) -> GridCell {
        truncated(v)
    }
}

/// Widening a byte and truncating it again gives back the same cell.
pub proof fn lemma_widen_then_truncate(b: u8)
    ensures
        truncated(widened(GridCell(b))) == GridCell(b),
{
}

/// The cell that a stack value truncates to holds `((v mod 256) + 256) mod
/// 256`, a byte from 0 to 255, where `mod` is the remainder with the sign of
/// `v`.
pub proof fn lemma_truncation(v: i32)
    ensures
        truncated(StackCell(v)).0 as int == ((rem(v as int, 256) + 256) % 256),
        0 <= truncated(StackCell(v)).0 <= 255,
{
}

} // verus!
