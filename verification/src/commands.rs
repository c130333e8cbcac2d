use vstd::prelude::*;

use crate::color::Rgba;

verus! {

/// A star center, in hundredths of a device pixel.
#[derive(Clone, Copy, PartialEq, Eq, Structural, Debug)]
pub struct Point {
    pub x: i64,
    pub y: i64,
}

/// The font style chosen once per pass and shared by every glyph of it.
#[derive(Clone, Copy, PartialEq, Eq, Structural, Debug)]
pub enum FontStyle {
    Normal,
    Italic,
    Oblique,
}

/// Everything one placed star is drawn from.
#[derive(Clone, Copy, PartialEq, Eq, Structural, Debug)]
pub struct StarSpec {
    pub center: Point,
    /// Rotation in thousandths of a degree, in `[0, 360000)`.
    pub rotation_millidegrees: i64,
    pub color: Rgba,
    /// Number of outer points of the star polygon, in `[3, 7]`.
    pub corner_count: u8,
}

/// Everything one laid-out challenge character is drawn from.
#[derive(Clone, Copy, PartialEq, Eq, Structural, Debug)]
pub struct GlyphSpec {
    pub glyph: char,
    /// Anchor point in hundredths of a device pixel.
    pub x: i64,
    pub y: i64,
    /// Rotation in thousandths of a degree, in `[-20000, 20000]`.
    pub rotation_millidegrees: i64,
    pub color: Rgba,
}

/// One primitive operation against the drawing surface.
///
/// Lengths and coordinates are in hundredths of a device pixel; angles in
/// thousandths of a degree, except `LineToPolar`, whose angle is in units
/// of 1/420 of a degree so that every star vertex angle is exact.  A pass
/// is a sequence of these commands; the host replays them against a real
/// surface, turning polar vertices into cartesian ones as it goes.
#[derive(Clone, Copy, PartialEq, Eq, Structural, Debug)]
pub enum DrawCmd {
    /// Clear the whole `width x height` surface.
    ClearRect { width: i64, height: i64 },
    /// Fill the whole `width x height` surface with the current color.
    FillRect { width: i64, height: i64 },
    /// Push the surface's drawing state.
    Save,
    /// Pop the surface's drawing state.
    Restore,
    /// Move the origin to `(x, y)`.
    Translate { x: i64, y: i64 },
    /// Rotate the frame by the angle, in thousandths of a degree.
    RotateMillidegrees { millidegrees: i64 },
    /// Set the fill color for later `Fill` and `FillText` commands.
    SetFillColor { color: Rgba },
    /// Start a fresh path.
    BeginPath,
    /// Extend the path to the point at `radius` from the origin, at
    /// `angle_units` (1/420 of a degree each) from the positive x axis.
    LineToPolar { angle_units: i64, radius: i64 },
    /// Close the current path.
    ClosePath,
    /// Fill the current path.
    Fill,
    /// Center text on its anchor, horizontally and vertically.
    CenterText,
    /// Set the font: chosen style, bold weight, `size` (hundredths of a
    /// pixel) of the pass's fixed typeface.
    SetFont { style: FontStyle, size: i64 },
    /// Draw one character at the origin.
    FillText { glyph: char },
}

} // verus!
