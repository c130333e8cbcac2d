use vstd::prelude::*;

use crate::char_at;

verus! {

/// The largest dimension the pass works with, in hundredths of a device
/// pixel (100 000 pixels): keeps every coordinate product inside `i64`.
pub const MAX_DIMENSION: i64 = 10_000_000;

/// The geometry one pass is drawn under.  All lengths are in hundredths
/// of a device pixel; `star_count` is the upper bound on placed stars.
#[derive(Clone, Copy, PartialEq, Eq, Structural, Debug)]
pub struct CanvasOpts {
    pub width: i64,
    pub height: i64,
    pub star_size: i64,
    pub star_count: u8,
    pub font_size: i64,
}

impl CanvasOpts {
    /// A usable configuration: a positive star radius, a canvas wide and
    /// tall enough for the inset viewport to exist, a positive font, and
    /// everything under the dimension cap.
    pub open spec fn wf(self) -> bool {
        &&& 0 < self.star_size
        &&& 2 * self.star_size <= self.width <= MAX_DIMENSION
        &&& 2 * self.star_size <= self.height <= MAX_DIMENSION
        &&& 0 < self.font_size <= MAX_DIMENSION
    }

    /// Width of the inset region star centers may land in.
    pub fn viewport_width(&self) -> (r: i64)
        requires
            self.wf(),
        ensures
            r == self.width - 2 * self.star_size,
    {
        self.width - 2 * self.star_size
    }

    /// Height of the inset region star centers may land in.
    pub fn viewport_height(&self) -> (r: i64)
        requires
            self.wf(),
        ensures
            r == self.height - 2 * self.star_size,
    {
        self.height - 2 * self.star_size
    }
}

pub open spec fn is_ascii_digit(c: char) -> bool {
    48 <= c as u32 <= 57
}

pub open spec fn is_ascii_alpha(c: char) -> bool {
    97 <= c as u32 <= 122 || 65 <= c as u32 <= 90
}

pub open spec fn digit_of(c: char) -> int {
    c as u32 - 48
}

/// Index of the first ASCII letter of `s` at or after `i`; the length
/// where there is none.
pub open spec fn first_alpha_at(s: Seq<char>, i: int) -> int
    decreases s.len() - i,
{
    if i < 0 || i >= s.len() {
        s.len() as int
    } else if is_ascii_alpha(s[i]) {
        i
    } else {
        first_alpha_at(s, i + 1)
    }
}

/// Index of the first non-digit of `s` in `[i, e)`; `e` where all of the
/// range is digits.
pub open spec fn digits_end(s: Seq<char>, i: int, e: int) -> int
    decreases e - i,
{
    if i < 0 || i >= e || e > s.len() {
        e
    } else if !is_ascii_digit(s[i]) {
        i
    } else {
        digits_end(s, i + 1, e)
    }
}

/// The number the digit run `s[i..j)` spells, read left to right.
pub open spec fn digits_value(s: Seq<char>, i: int, j: int) -> int
    decreases j - i,
{
    if j <= i {
        0
    } else {
        digits_value(s, i, j - 1) * 10 + digit_of(s[j - 1])
    }
}

/// The fraction digits `s[i..e)` in hundredths, truncated past two places.
pub open spec fn frac_centi(s: Seq<char>, i: int, e: int) -> int {
    if e - i <= 0 {
        0
    } else if e - i == 1 {
        digit_of(s[i]) * 10
    } else {
        digit_of(s[i]) * 10 + digit_of(s[i + 1])
    }
}

/// What a CSS dimension string is worth, in hundredths of a pixel.
///
/// The prefix before the first letter (before the unit) must be an
/// unsigned decimal numeral, `digits` or `digits.digits`, with at most
/// five integer digits; fraction digits past the second are dropped.
/// Anything else, the empty string included, falls back to the default.
pub open spec fn css_dimension_centi(s: Seq<char>, default_value: i64) -> int {
    let e = first_alpha_at(s, 0);
    let d = digits_end(s, 0, e);
    if d == 0 || d > 5 {
        default_value as int
    } else if d == e {
        digits_value(s, 0, d) * 100
    } else if s[d] == '.' && digits_end(s, d + 1, e) == e {
        digits_value(s, 0, d) * 100 + frac_centi(s, d + 1, e)
    } else {
        default_value as int
    }
}

fn is_ascii_digit_exec(c: char) -> (r: bool)
    ensures
        r == is_ascii_digit(c),
{
    let x: u32 = c as u32;
    48 <= x && x <= 57
}

fn is_ascii_alpha_exec(c: char) -> (r: bool)
    ensures
        r == is_ascii_alpha(c),
{
    let x: u32 = c as u32;
    (97 <= x && x <= 122) || (65 <= x && x <= 90)
}

fn digit_of_exec(c: char) -> (r: i64)
    requires
        is_ascii_digit(c),
    ensures
        r == digit_of(c),
        0 <= r <= 9,
{
    (c as u32 - 48) as i64
}

/// A digit run of at most five digits spells a number under 100 000.
proof fn lemma_digits_value_bounds(s: Seq<char>, j: int)
    requires
        0 <= j <= 5,
        forall|k: int| 0 <= k < j ==> is_ascii_digit(#[trigger] s[k]),
    ensures
        0 <= digits_value(s, 0, j),
        j <= 1 ==> digits_value(s, 0, j) <= 9,
        j <= 2 ==> digits_value(s, 0, j) <= 99,
        j <= 3 ==> digits_value(s, 0, j) <= 999,
        j <= 4 ==> digits_value(s, 0, j) <= 9999,
        digits_value(s, 0, j) <= 99999,
    decreases j,
{
    if j > 0 {
        lemma_digits_value_bounds(s, j - 1);
        assert(0 <= digit_of(s[j - 1]) <= 9);
    }
}

/// Read a CSS dimension string, as a character vector, into hundredths
/// of a pixel, falling back to `default_value` where no numeral stands.
pub fn parse_css_dimension(chars: &Vec<char>, default_value: i64) -> (r: i64)
    ensures
        r == css_dimension_centi(chars@, default_value),
{
    let n: usize = chars.len();
    let mut cut: usize = 0;
    while cut < n
        invariant
            n == chars@.len(),
            cut <= n,
            first_alpha_at(chars@, 0) == first_alpha_at(chars@, cut as int),
        ensures
            cut <= n,
            first_alpha_at(chars@, 0) == cut,
        decreases n - cut,
    {
        if is_ascii_alpha_exec(char_at(chars, cut)) {
            break;
        }
        cut = cut + 1;
    }
    let mut d: usize = 0;
    while d < cut
        invariant
            n == chars@.len(),
            cut <= n,
            d <= cut,
            digits_end(chars@, 0, cut as int) == digits_end(chars@, d as int, cut as int),
            forall|k: int| 0 <= k < d ==> is_ascii_digit(#[trigger] chars@[k]),
        ensures
            d <= cut,
            digits_end(chars@, 0, cut as int) == d,
            forall|k: int| 0 <= k < d ==> is_ascii_digit(#[trigger] chars@[k]),
        decreases cut - d,
    {
        if !is_ascii_digit_exec(char_at(chars, d)) {
            break;
        }
        d = d + 1;
    }
    if d == 0 || d > 5 {
        return default_value;
    }
    let mut acc: i64 = 0;
    let mut k: usize = 0;
    while k < d
        invariant
            n == chars@.len(),
            d <= cut <= n,
            1 <= d <= 5,
            k <= d,
            forall|i: int| 0 <= i < d ==> is_ascii_digit(#[trigger] chars@[i]),
            acc == digits_value(chars@, 0, k as int),
        decreases d - k,
    {
        proof {
            lemma_digits_value_bounds(chars@, k as int);
        }
        acc = acc * 10 + digit_of_exec(char_at(chars, k));
        k = k + 1;
    }
    proof {
        lemma_digits_value_bounds(chars@, d as int);
    }
    if d == cut {
        return acc * 100;
    }
    if char_at(chars, d) != '.' {
        return default_value;
    }
    let mut f: usize = d + 1;
    while f < cut
        invariant
            n == chars@.len(),
            d + 1 <= f <= cut <= n,
            digits_end(chars@, d + 1, cut as int) == digits_end(chars@, f as int, cut as int),
            forall|k2: int| d + 1 <= k2 < f ==> is_ascii_digit(#[trigger] chars@[k2]),
        ensures
            d + 1 <= f <= cut,
            digits_end(chars@, d + 1, cut as int) == digits_end(chars@, f as int, cut as int),
            f < cut ==> !is_ascii_digit(chars@[f as int]),
            forall|k2: int| d + 1 <= k2 < f ==> is_ascii_digit(#[trigger] chars@[k2]),
        decreases cut - f,
    {
        if !is_ascii_digit_exec(char_at(chars, f)) {
            break;
        }
        f = f + 1;
    }
    if f < cut {
        proof {
            assert(digits_end(chars@, f as int, cut as int) == f);
        }
        return default_value;
    }
    let frac: i64 = if cut - (d + 1) == 0 {
        0
    } else if cut - (d + 1) == 1 {
        digit_of_exec(char_at(chars, d + 1)) * 10
    } else {
        digit_of_exec(char_at(chars, d + 1)) * 10 + digit_of_exec(char_at(chars, d + 2))
    };
    acc * 100 + frac
}

} // verus!
