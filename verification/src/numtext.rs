//! Decimal rendering of unsigned integers, and simple text padding, with
//! exact character-level contracts.

use vstd::prelude::*;
use vstd::string::*;

verus! {

/// The one-character text of the decimal digit `d` (0 through 9).
pub open spec fn digit_chars(d: int) -> Seq<char> {
    if d == 0 {
        "0"@
    } else if d == 1 {
        "1"@
    } else if d == 2 {
        "2"@
    } else if d == 3 {
        "3"@
    } else if d == 4 {
        "4"@
    } else if d == 5 {
        "5"@
    } else if d == 6 {
        "6"@
    } else if d == 7 {
        "7"@
    } else if d == 8 {
        "8"@
    } else {
        "9"@
    }
}

/// Decimal text of a non-negative integer, most significant digit first,
/// without leading zeros (except for the number 0 itself).
pub open spec fn nat_chars(n: int) -> Seq<char>
    decreases n,
{
    if n < 10 {
        digit_chars(n)
    } else {
        nat_chars(n / 10) + digit_chars(n % 10)
    }
}

fn digit_text(d: u128) -> (s: &'static str)
    requires
        d < 10,
    ensures
        s@ == digit_chars(d as int),
{
    if d == 0 {
        "0"
    } else if d == 1 {
        "1"
    } else if d == 2 {
        "2"
    } else if d == 3 {
        "3"
    } else if d == 4 {
        "4"
    } else if d == 5 {
        "5"
    } else if d == 6 {
        "6"
    } else if d == 7 {
        "7"
    } else if d == 8 {
        "8"
    } else {
        "9"
    }
}

/// Decimal text of `n`.
pub fn nat_text(n: u128) -> (s: String)
    ensures
        s@ == nat_chars(n as int),
    decreases n,
{
    if n < 10 {
        String::from_str(digit_text(n))
    } else {
        let mut s = nat_text(n / 10);
        s.append(digit_text(n % 10));
        s
    }
}

/// `unit` repeated `n` times.
pub open spec fn repeat_chars(unit: Seq<char>, n: int) -> Seq<char>
    decreases n,
{
    if n <= 0 {
        Seq::empty()
    } else {
        repeat_chars(unit, n - 1) + unit
    }
}

/// Builds the text that repeats `unit` exactly `n` times.
pub fn repeat_text(unit: &str, n: usize) -> (s: String)
    ensures
        s@ == repeat_chars(unit@, n as int),
{
    let mut s = String::new();
    let mut i: usize = 0;
    while i < n
        invariant
            i <= n,
            s@ == repeat_chars(unit@, i as int),
        decreases n - i,
    {
        s.append(unit);
        i = i + 1;
    }
    s
}

/// `s` left-aligned in a column of `width` characters: text shorter than the
/// column is filled with spaces on the right; longer text is kept whole.
pub open spec fn pad_chars(s: Seq<char>, width: int) -> Seq<char> {
    if s.len() >= width {
        s
    } else {
        s + repeat_chars(" "@, width - s.len())
    }
}

/// Left-aligns `s` in a column of `width` characters.
pub fn pad_text(s: &str, width: usize) -> (r: String)
    ensures
        r@ == pad_chars(s@, width as int),
{
    let len = s.unicode_len();
    let mut r = String::from_str(s);
    if len < width {
        let fill = repeat_text(" ", width - len);
        r.append(fill.as_str());
    }
    r
}

} // verus!
