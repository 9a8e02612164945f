use vstd::prelude::*;

use crate::position::Position;

verus! {

/// A direction of travel in the program field.
#[derive(PartialEq, Eq, Structural, Hash, Clone, Copy, Debug)]
pub enum Direction {
    /// Towards smaller `y`.
    Up,
    /// Towards larger `y`.
    Down,
    /// Towards smaller `x`.
    Left,
    /// Towards larger `x`.
    Right,
}

/// How the byte under the cursor is read.
#[derive(PartialEq, Eq, Structural, Hash, Clone, Copy, Debug)]
pub enum Mode {
    /// Every byte but the double quote is pushed as its own value; a double
    /// quote returns to `Normal`.
    Quote,
    /// Bytes are read as operation codes.
    Normal,
}

/// The execution pointer: where it stands, where it goes, and how it reads.
#[derive(PartialEq, Eq, Structural, Hash, Clone, Copy, Debug)]
pub struct Cursor {
    pub pos: Position,
    pub dir: Direction,
    pub mode: Mode,
}

/// Grid sides that a byte coordinate can address: from 1 to 256 cells.
pub open spec fn valid_side(n: int) -> bool {
    1 <= n <= 256
}

/// One step from coordinate `c` along an axis of `n` cells, by `delta`
/// (-1, 0 or 1), wrapping round at both ends.
pub open spec fn wrap_step(c: int, delta: int, n: int) -> int {
    (c + delta) % n
}

/// The change in `x` that one step in direction `d` makes.
pub open spec fn delta_x(d: Direction) -> int {
    match d {
        Direction::Left => -1,
        Direction::Right => 1,
        Direction::Up => 0,
        Direction::Down => 0,
    }
}

/// The change in `y` that one step in direction `d` makes.
pub open spec fn delta_y(d: Direction) -> int {
    match d {
        Direction::Up => -1,
        Direction::Down => 1,
        Direction::Left => 0,
        Direction::Right => 0,
    }
}

/// The position one step from `p` in direction `d` on a `w` by `h` torus.
/// The coordinate along the direction of travel is reduced modulo its side;
/// the other one is left as it is.
pub open spec fn next_position(p: Position, d: Direction, w: int, h: int) -> Position {
    Position {
        x: if delta_x(d) == 0 { p.x } else { wrap_step(p.x as int, delta_x(d), w) as u8 },
        y: if delta_y(d) == 0 { p.y } else { wrap_step(p.y as int, delta_y(d), h) as u8 },
    }
}

/// Whether `p` lies inside a grid of `w` columns and `h` rows.
pub open spec fn in_grid(p: Position, w: int, h: int) -> bool {
    p.x < w && p.y < h
}

/// One step from `c` along an axis of `n` cells, one cell down (`forward`
/// false) or up (`forward` true), modulo `n`.
fn wrap_coord(c: u8, forward: bool, n: usize) -> (r: u8)
    requires
        valid_side(n as int),
    ensures
        r as int == wrap_step(c as int, if forward { 1 } else { -1 }, n as int),
{
    let wide: usize = c as usize;
    let stepped: usize = if forward { wide + 1 } else { wide + n - 1 };
    proof {
        if !forward {
            vstd::arithmetic::div_mod::lemma_mod_add_multiples_vanish(wide - 1, n as int);
        }
    }
    (stepped % n) as u8
}

impl Cursor {
    /// This cursor with its mode set to `Quote`.
    pub open spec fn quoted(self) -> Cursor {
        Cursor { mode: Mode::Quote, ..self }
    }

    /// This cursor with its mode set to `Normal`.
    pub open spec fn unquoted(self) -> Cursor {
        Cursor { mode: Mode::Normal, ..self }
    }

    /// This cursor with its direction replaced by `d`.
    pub open spec fn turned(self, d: Direction) -> Cursor {
        Cursor { dir: d, ..self }
    }

    /// This cursor moved one step on a `w` by `h` torus.
    pub open spec fn advanced(self, w: int, h: int) -> Cursor {
        Cursor { pos: next_position(self.pos, self.dir, w, h), ..self }
    }

    /// Moves one cell in the current direction on a grid of `grid_width`
    /// columns and `grid_height` rows, wrapping round at the edges, and
    /// returns the new position. Direction and mode are kept.
    pub fn advance(&mut self, grid_width: usize, grid_height: usize) -> (r: Position)
        requires
            valid_side(grid_width as int),
            valid_side(grid_height as int),
        ensures
            *final(self) == old(self).advanced(grid_width as int, grid_height as int),
            r == final(self).pos,
    {
        let p = self.pos;
        let next = match self.dir {
            Direction::Up => Position { x: p.x, y: wrap_coord(p.y, false, grid_height) },
            Direction::Down => Position { x: p.x, y: wrap_coord(p.y, true, grid_height) },
            Direction::Left => Position { x: wrap_coord(p.x, false, grid_width), y: p.y },
            Direction::Right => Position { x: wrap_coord(p.x, true, grid_width), y: p.y },
        };
        self.pos = next;
        next
    }

    /// Sets the direction to `dir`, whatever it was.
    pub fn turn(&mut self, dir: Direction)
        ensures
            *final(self) == old(self).turned(dir),
    {
        self.dir = dir;
    }

    /// Sets the mode to `Quote`; a cursor already quoting stays as it is.
    pub fn enter_quote(&mut self)
        ensures
            *final(self) == old(self).quoted(),
    {
        self.mode = Mode::Quote;
    }

    /// Sets the mode to `Normal`; a cursor already normal stays as it is.
    pub fn exit_quote(&mut self)
        ensures
            *final(self) == old(self).unquoted(),
    {
        self.mode = Mode::Normal;
    }
}

impl Default for Cursor {
    /// The state every run starts in: at the origin, heading right, normal.
    fn default() -> (r: Cursor)
        ensures
            r == (Cursor { pos: Position { x: 0, y: 0 }, dir: Direction::Right, mode: Mode::Normal }),
    {
        Cursor { pos: Position::origin(), dir: Direction::Right, mode: Mode::Normal }
    }
}

/// On any grid of at least one cell a side, a cursor that stands inside the
/// grid still stands inside it after a step.
pub proof fn lemma_advance_stays_in_grid(c: Cursor, w: int, h: int)
    requires
        valid_side(w),
        valid_side(h),
        in_grid(c.pos, w, h),
    ensures
        in_grid(c.advanced(w, h).pos, w, h),
{
}

/// On a grid of one cell a step leaves the position where it is, whatever
/// the direction.
pub proof fn lemma_single_cell_grid(c: Cursor)
    requires
        in_grid(c.pos, 1, 1),
    ensures
        c.advanced(1, 1).pos == c.pos,
{
}

/// Entering quote mode twice leaves the cursor as entering it once does, in
/// `Quote`; leaving it on a normal cursor changes nothing, and leaving it twice
/// is leaving it once.
pub proof fn lemma_quote_toggles_idempotent(c: Cursor)
    ensures
        c.quoted().quoted() == c.quoted(),
        c.quoted().mode == Mode::Quote,
        c.mode == Mode::Normal ==> c.unquoted() == c,
        c.unquoted().unquoted() == c.unquoted(),
{
}

} // verus!
