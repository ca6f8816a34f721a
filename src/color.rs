use vstd::prelude::*;

use crate::error::Error;
use crate::text::chars_of;

verus! {

/// The color in which live cells are drawn.
#[derive(Clone, Copy, Debug, PartialEq, Eq, Structural)]
pub enum Color {
    /// The terminal's own white, used when a color string is malformed.
    White,
    Rgb(u8, u8, u8),
}

pub open spec fn is_hex_digit(c: char) -> bool {
    ('0' <= c <= '9') || ('a' <= c <= 'f') || ('A' <= c <= 'F')
}

/// The maximal runs of hexadecimal digits in `s`, in order; every other
/// character separates.
pub open spec fn hex_runs(s: Seq<char>) -> Seq<Seq<char>>
    decreases s.len(),
{
    if s.len() == 0 {
        Seq::empty()
    } else if !is_hex_digit(s.last()) {
        hex_runs(s.drop_last())
    } else if s.len() >= 2 && is_hex_digit(s[s.len() - 2]) {
        let init = hex_runs(s.drop_last());
        init.update(init.len() - 1, init.last().push(s.last()))
    } else {
        hex_runs(s.drop_last()).push(seq![s.last()])
    }
}

/// The number that the decimal digits of `t` write.
pub open spec fn decimal_value(t: Seq<char>) -> int
    decreases t.len(),
{
    if t.len() == 0 {
        0
    } else {
        decimal_value(t.drop_last()) * 10 + (t.last() as int - '0' as int)
    }
}

/// `t` reads as an 8-bit unsigned decimal number.
pub open spec fn is_component(t: Seq<char>) -> bool {
    &&& t.len() > 0
    &&& forall|i: int| 0 <= i < t.len() ==> '0' <= #[trigger] t[i] <= '9'
    &&& decimal_value(t) <= 255
}

/// The components that a color string gives: exactly three runs of digits,
/// each a decimal number from 0 to 255.
pub open spec fn color_of(s: Seq<char>) -> Option<(u8, u8, u8)> {
    let t = hex_runs(s);
    if t.len() == 3 && is_component(t[0]) && is_component(t[1]) && is_component(t[2]) {
        Some((decimal_value(t[0]) as u8, decimal_value(t[1]) as u8, decimal_value(t[2]) as u8))
    } else {
        None
    }
}

proof fn lemma_hex_runs_end(s: Seq<char>)
    requires
        s.len() > 0,
        is_hex_digit(s.last()),
    ensures
        hex_runs(s).len() > 0,
    decreases s.len(),
{
    if s.len() >= 2 && is_hex_digit(s[s.len() - 2]) {
        lemma_hex_runs_end(s.drop_last());
    }
}

/// The runs of hexadecimal digits in `chars`.
fn hex_tokens(chars: &Vec<char>) -> (r: Vec<Vec<char>>)
    ensures
        r@.len() == hex_runs(chars@).len(),
        forall|i: int| 0 <= i < r@.len() ==> #[trigger] r@[i]@ == hex_runs(chars@)[i],
{
    let mut tokens: Vec<Vec<char>> = Vec::new();
    let mut current: Vec<char> = Vec::new();
    let mut in_run = false;
    for k in 0..chars.len()
        invariant
            in_run == (k > 0 && is_hex_digit(chars@[k - 1])),
            in_run ==> hex_runs(chars@.take(k as int)).len() > 0,
            tokens@.len() == if in_run {
                hex_runs(chars@.take(k as int)).len() - 1
            } else {
                hex_runs(chars@.take(k as int)).len() as int
            },
            forall|i: int| 0 <= i < tokens@.len() ==> #[trigger] tokens@[i]@ == hex_runs(
                chars@.take(k as int),
            )[i],
            in_run ==> current@ == hex_runs(chars@.take(k as int)).last(),
    {
        let ghost pre = chars@.take(k as int);
        let ghost next = chars@.take(k + 1);
        assert(next.drop_last() =~= pre);
        let c = chars[k];
        let hex = ('0' <= c && c <= '9') || ('a' <= c && c <= 'f') || ('A' <= c && c <= 'F');
        if hex {
            proof {
                lemma_hex_runs_end(next);
            }
            if !in_run {
                current = Vec::new();
            }
            current.push(c);
            proof {
                if in_run {
                    assert(next[next.len() - 2] == chars@[k - 1]);
                } else if k > 0 {
                    assert(next[next.len() - 2] == chars@[k - 1]);
                }
                assert(current@ =~= hex_runs(next).last());
            }
            in_run = true;
        } else {
            if in_run {
                tokens.push(current);
                current = Vec::new();
            }
            in_run = false;
        }
    }
    if in_run {
        tokens.push(current);
    }
    assert(chars@.take(chars@.len() as int) =~= chars@);
    tokens
}

/// Reads a run of characters as an 8-bit unsigned decimal number.
fn parse_component(t: &Vec<char>) -> (r: Option<u8>)
    ensures
        r == if is_component(t@) {
            Some(decimal_value(t@) as u8)
        } else {
            None
        },
{
    if t.len() == 0 {
        return None;
    }
    let mut value: u32 = 0;
    let mut too_big = false;
    for k in 0..t.len()
        invariant
            forall|i: int| 0 <= i < k ==> '0' <= #[trigger] t@[i] <= '9',
            decimal_value(t@.take(k as int)) >= 0,
            too_big == (decimal_value(t@.take(k as int)) > 255),
            !too_big ==> value == decimal_value(t@.take(k as int)),
    {
        assert(t@.take(k + 1).drop_last() =~= t@.take(k as int));
        let c = t[k];
        if c < '0' || c > '9' {
            return None;
        }
        if !too_big {
            value = value * 10 + (c as u32 - '0' as u32);
            if value > 255 {
                too_big = true;
            }
        }
    }
    assert(t@.take(t@.len() as int) =~= t@);
    if too_big {
        None
    } else {
        Some(value as u8)
    }
}

/// Reads a color written as three decimal components from 0 to 255, apart
/// by any characters that are not hexadecimal digits (`"255,0,0"`).
pub fn parse_color(color: &str) -> (r: Result<Color, Error>)
    ensures
        r == match color_of(color@) {
            Some((red, green, blue)) => Ok::<Color, Error>(Color::Rgb(red, green, blue)),
            None => Err(Error::InvalidColorFormat),
        },
{
    let chars = chars_of(color);
    let tokens = hex_tokens(&chars);
    if tokens.len() != 3 {
        return Err(Error::InvalidColorFormat);
    }
    let red = parse_component(&tokens[0]);
    let green = parse_component(&tokens[1]);
    let blue = parse_component(&tokens[2]);
    match (red, green, blue) {
        (Some(red), Some(green), Some(blue)) => Ok(Color::Rgb(red, green, blue)),
        _ => Err(Error::InvalidColorFormat),
    }
}

/// The color that a color string gives, or `Color::White` where it is malformed.
pub fn color_or_default(color: &str) -> (r: Color)
    ensures
        r == match color_of(color@) {
            Some((red, green, blue)) => Color::Rgb(red, green, blue),
            None => Color::White,
        },
{
    match parse_color(color) {
        Ok(c) => c,
        Err(_) => Color::White,
    }
}

} // verus!
