use vstd::prelude::*;

verus! {

/// A color as the drawing surface takes it: three 8-bit channels and an
/// opacity in hundredths (100 meaning fully opaque).
#[derive(Clone, Copy, PartialEq, Eq, Structural, Debug)]
pub struct Rgba {
    pub red: u8,
    pub green: u8,
    pub blue: u8,
    pub opacity_hundredths: u8,
}

/// Two colors count as the same when their `R,G,B` prefix matches;
/// opacity is deliberately left out of the comparison.
pub open spec fn rgb_matches(a: Rgba, b: Rgba) -> bool {
    a.red == b.red && a.green == b.green && a.blue == b.blue
}

/// The three near-white colors the background is drawn from.
pub open spec fn background_palette() -> Seq<Rgba> {
    seq![
        Rgba { red: 232, green: 232, blue: 232, opacity_hundredths: 100 },
        Rgba { red: 242, green: 242, blue: 242, opacity_hundredths: 100 },
        Rgba { red: 252, green: 252, blue: 252, opacity_hundredths: 100 },
    ]
}

pub open spec fn is_background_color(c: Rgba) -> bool {
    background_palette().contains(c)
}

/// The `i`-th background palette entry.
pub fn background_color_at(i: usize) -> (r: Rgba)
    requires
        i < 3,
    ensures
        r == background_palette()[i as int],
{
    if i == 0 {
        Rgba { red: 232, green: 232, blue: 232, opacity_hundredths: 100 }
    } else if i == 1 {
        Rgba { red: 242, green: 242, blue: 242, opacity_hundredths: 100 }
    } else {
        Rgba { red: 252, green: 252, blue: 252, opacity_hundredths: 100 }
    }
}

/// The four colors glyphs are drawn in: red, dark green, blue, black.
pub open spec fn glyph_palette() -> Seq<Rgba> {
    seq![
        Rgba { red: 255, green: 0, blue: 0, opacity_hundredths: 100 },
        Rgba { red: 0, green: 100, blue: 0, opacity_hundredths: 100 },
        Rgba { red: 0, green: 0, blue: 255, opacity_hundredths: 100 },
        Rgba { red: 0, green: 0, blue: 0, opacity_hundredths: 100 },
    ]
}

pub open spec fn is_glyph_color(c: Rgba) -> bool {
    glyph_palette().contains(c)
}

/// The `i`-th glyph palette entry.
pub fn glyph_color_at(i: usize) -> (r: Rgba)
    requires
        i < 4,
    ensures
        r == glyph_palette()[i as int],
{
    if i == 0 {
        Rgba { red: 255, green: 0, blue: 0, opacity_hundredths: 100 }
    } else if i == 1 {
        Rgba { red: 0, green: 100, blue: 0, opacity_hundredths: 100 }
    } else if i == 2 {
        Rgba { red: 0, green: 0, blue: 255, opacity_hundredths: 100 }
    } else {
        Rgba { red: 0, green: 0, blue: 0, opacity_hundredths: 100 }
    }
}

/// Report whether `c` has the same `R,G,B` prefix as some color in `used`.
pub fn rgb_matches_any(c: Rgba, used: &Vec<Rgba>) -> (r: bool)
    ensures
        r == exists|i: int| 0 <= i < used@.len() && rgb_matches(c, #[trigger] used@[i]),
{
    let mut k: usize = 0;
    while k < used.len()
        invariant
            k <= used@.len(),
            forall|i: int| 0 <= i < k ==> !rgb_matches(c, #[trigger] used@[i]),
        decreases used@.len() - k,
    {
        let u = used[k];
        if c.red == u.red && c.green == u.green && c.blue == u.blue {
            assert(rgb_matches(c, used@[k as int]));
            return true;
        }
        k = k + 1;
    }
    false
}

} // verus!
