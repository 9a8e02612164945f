use vstd::prelude::*;

verus! {

/// A position in the program field.
///
/// `x` is the column, counted left to right; `y` is the row, counted top to
/// bottom. The type bounds each coordinate to a byte; keeping it inside a
/// concrete grid is the cursor's business.
#[derive(PartialEq, Eq, Structural, Hash, Clone, Copy, Debug)]
pub struct Position {
    pub x: u8,
    pub y: u8,
}

/// The decimal digits of `n`, most significant first, without leading zeros
/// (zero is written as one digit).
pub open spec fn decimal(n: nat) -> Seq<char>
    decreases n,
{
    if n < 10 {
        seq![digit_char(n)]
    } else {
        decimal(n / 10).push(digit_char(n % 10))
    }
}

/// The character of a decimal digit.
pub open spec fn digit_char(d: nat) -> char {
    (('0' as u32) + d) as char
}

/// The text of a position: `(x, y)`.
pub open spec fn position_text(p: Position) -> Seq<char> {
    seq!['('] + decimal(p.x as nat) + seq![',', ' '] + decimal(p.y as nat) + seq![')']
}

/// The one-character string for a decimal digit.
fn digit_str(d: u8) -> (r: &'static str)
    requires
        d < 10,
    ensures
        r@ == seq![digit_char(d as nat)],
{
    proof {
        reveal_strlit("0");
        reveal_strlit("1");
        reveal_strlit("2");
        reveal_strlit("3");
        reveal_strlit("4");
        reveal_strlit("5");
        reveal_strlit("6");
        reveal_strlit("7");
        reveal_strlit("8");
        reveal_strlit("9");
    }
    let r = match d {
        0 => "0",
        1 => "1",
        2 => "2",
        3 => "3",
        4 => "4",
        5 => "5",
        6 => "6",
        7 => "7",
        8 => "8",
        _ => "9",
    };
    assert(r@ =~= seq![digit_char(d as nat)]);
    r
}

/// Appends the decimal digits of `n` to `out`.
fn push_decimal(out: &mut String, n: u8)
    ensures
        final(out)@ == old(out)@ + decimal(n as nat),
{
    let ghost m: nat = n as nat;
    if n >= 100 {
        out.append(digit_str(n / 100));
        out.append(digit_str((n / 10) % 10));
        out.append(digit_str(n % 10));
        proof {
            let q: nat = m / 10;
            assert(decimal(q / 10) == seq![digit_char(q / 10)]);
            assert(decimal(q) == decimal(q / 10).push(digit_char(q % 10)));
            assert(decimal(m) == decimal(q).push(digit_char(m % 10)));
        }
    } else if n >= 10 {
        out.append(digit_str(n / 10));
        out.append(digit_str(n % 10));
        proof {
            assert(decimal(m / 10) == seq![digit_char(m / 10)]);
            assert(decimal(m) == decimal(m / 10).push(digit_char(m % 10)));
        }
    } else {
        out.append(digit_str(n));
    }
    assert(out@ =~= old(out)@ + decimal(n as nat));
}

impl Position {
    /// Returns the top-left corner, `(0, 0)`.
    pub fn origin() -> (r: Position)
        ensures
            r.x == 0 && r.y == 0,
    {
        Position { x: 0, y: 0 }
    }

    /// The position written as `(x, y)`, each coordinate in decimal.
    pub fn to_string(&self) -> (r: String)
        ensures
            r@ == position_text(*self),
    {
        let mut out = String::new();
        proof {
            reveal_strlit("(");
            reveal_strlit(", ");
            reveal_strlit(")");
        }
        out.append("(");
        push_decimal(&mut out, self.x);
        out.append(", ");
        push_decimal(&mut out, self.y);
        out.append(")");
        assert(out@ =~= position_text(*self));
        out
    }
}

impl Default for Position {
    /// The default position is the origin.
    fn default() -> (r: Position)
        ensures
            r.x == 0 && r.y == 0,
    {
        Position { x: 0, y: 0 }
    }
}

} // verus!
