use vstd::prelude::*;

use crate::canvas_options::{CanvasOpts, MAX_DIMENSION};
use crate::color::{background_color_at, is_background_color, Rgba};
use crate::commands::{DrawCmd, FontStyle, GlyphSpec, StarSpec};
use crate::glyphs::{draw_text, glyphs_wf, text_cmds};
use crate::rng::RandomSource;
use crate::stars::{draw_stars, stars_path_cmds, stars_wf};

verus! {

/// The commands of the background stage: state saved, one palette color
/// set, the whole surface filled, state restored.
pub open spec fn background_cmds(color: Rgba, width: i64, height: i64) -> Seq<DrawCmd> {
    seq![
        DrawCmd::Save,
        DrawCmd::SetFillColor { color },
        DrawCmd::FillRect { width, height },
        DrawCmd::Restore,
    ]
}

/// Fill the surface with one of the three near-white palette colors,
/// chosen uniformly, and hand the choice back so that the star stage can
/// keep its colors apart from it.
pub fn draw_background_color(
    opts: &CanvasOpts,
    source: &mut RandomSource,
    cmds: &mut Vec<DrawCmd>,
) -> (color: Rgba)
    ensures
        is_background_color(color),
        final(cmds)@ == old(cmds)@ + background_cmds(color, opts.width, opts.height),
{
    let i: usize = source.next_below(3) as usize;
    let color = background_color_at(i);
    proof {
        assert(crate::color::background_palette()[i as int] == color);
    }
    cmds.push(DrawCmd::Save);
    cmds.push(DrawCmd::SetFillColor { color });
    cmds.push(DrawCmd::FillRect { width: opts.width, height: opts.height });
    cmds.push(DrawCmd::Restore);
    proof {
        assert(cmds@ =~= old(cmds)@ + background_cmds(color, opts.width, opts.height));
    }
    color
}

/// Everything one finished pass produced: the chosen background, the
/// placed stars, the pass's font style, the laid-out glyphs, and the
/// full command sequence that draws them all.
pub struct DrawPass {
    pub background: Rgba,
    pub stars: Vec<StarSpec>,
    pub font_style: FontStyle,
    pub glyphs: Vec<GlyphSpec>,
    pub commands: Vec<DrawCmd>,
}

/// The full command sequence of a pass: clear, background, stars, text,
/// strictly in that order.
pub open spec fn pass_cmds(opts: CanvasOpts, pass: DrawPass) -> Seq<DrawCmd> {
    seq![DrawCmd::ClearRect { width: opts.width, height: opts.height }] + background_cmds(
        pass.background,
        opts.width,
        opts.height,
    ) + stars_path_cmds(opts.star_size, pass.stars@) + text_cmds(
        pass.font_style,
        opts.font_size,
        pass.glyphs@,
    )
}

/// One full pass over the surface.
///
/// `text` is the challenge string to draw; `widths[i]` is the measured
/// width of `text[i]` at the pass's font, in hundredths of a pixel, as
/// only the drawing surface can measure it.  The result carries every
/// guarantee of the stages: a palette background, stars placed apart,
/// inside the viewport and pairwise unique in color and rotation, glyphs
/// laid out cell by cell, and the exact command sequence of it all.
pub fn redraw(
    opts: &CanvasOpts,
    text: &Vec<char>,
    widths: &Vec<i64>,
    source: &mut RandomSource,
) -> (pass: DrawPass)
    requires
        opts.wf(),
        widths@.len() == text@.len(),
        text@.len() <= 255,
        forall|i: int| 0 <= i < widths@.len() ==> 0 <= #[trigger] widths@[i] <= MAX_DIMENSION,
    ensures
        is_background_color(pass.background),
        pass.stars@.len() <= opts.star_count,
        opts.star_count >= 1 ==> pass.stars@.len() >= 1,
        stars_wf(pass.stars@, *opts, pass.background),
        glyphs_wf(pass.glyphs@, text@, widths@, *opts),
        pass.commands@ == pass_cmds(*opts, pass),
{
    let mut cmds: Vec<DrawCmd> = Vec::new();
    cmds.push(DrawCmd::ClearRect { width: opts.width, height: opts.height });
    let background = draw_background_color(opts, source, &mut cmds);
    let stars = draw_stars(opts, background, source, &mut cmds);
    let (font_style, glyphs) = draw_text(opts, text, widths, source, &mut cmds);
    let pass = DrawPass { background, stars, font_style, glyphs, commands: cmds };
    proof {
        assert(pass.commands@ =~= pass_cmds(*opts, pass));
    }
    pass
}

/// One full pass, on any configuration: a degenerate one — no positive
/// star radius, a canvas too small for its inset viewport, no positive
/// font — draws nothing at all rather than failing, as an over-long text
/// or mismeasured widths do too.
pub fn redraw_or_empty(
    opts: &CanvasOpts,
    text: &Vec<char>,
    widths: &Vec<i64>,
    source: &mut RandomSource,
) -> (pass: DrawPass)
    ensures
        opts.wf() && widths@.len() == text@.len() && text@.len() <= 255 && (forall|i: int|
            0 <= i < widths@.len() ==> 0 <= #[trigger] widths@[i] <= MAX_DIMENSION) ==> {
            &&& is_background_color(pass.background)
            &&& pass.stars@.len() <= opts.star_count
            &&& (opts.star_count >= 1 ==> pass.stars@.len() >= 1)
            &&& stars_wf(pass.stars@, *opts, pass.background)
            &&& glyphs_wf(pass.glyphs@, text@, widths@, *opts)
            &&& pass.commands@ == pass_cmds(*opts, pass)
        },
        !(opts.wf() && widths@.len() == text@.len() && text@.len() <= 255 && (forall|i: int|
            0 <= i < widths@.len() ==> 0 <= #[trigger] widths@[i] <= MAX_DIMENSION)) ==> {
            &&& pass.commands@.len() == 0
            &&& pass.stars@.len() == 0
            &&& pass.glyphs@.len() == 0
        },
{
    let geometry_usable = 0 < opts.star_size && opts.star_size <= MAX_DIMENSION && 2
        * opts.star_size <= opts.width && opts.width <= MAX_DIMENSION && 2 * opts.star_size
        <= opts.height && opts.height <= MAX_DIMENSION && 0 < opts.font_size && opts.font_size
        <= MAX_DIMENSION;
    proof {
        assert(geometry_usable == opts.wf());
    }
    let mut widths_usable = widths.len() == text.len() && text.len() <= 255;
    let mut k: usize = 0;
    while k < widths.len()
        invariant
            k <= widths@.len(),
            forall|i: int| 0 <= i < k ==> 0 <= #[trigger] widths@[i] <= MAX_DIMENSION,
        ensures
            k <= widths@.len(),
            forall|i: int| 0 <= i < k ==> 0 <= #[trigger] widths@[i] <= MAX_DIMENSION,
            k == widths@.len() || !(0 <= widths@[k as int] <= MAX_DIMENSION),
        decreases widths@.len() - k,
    {
        let w = widths[k];
        if w < 0 || w > MAX_DIMENSION {
            break;
        }
        k = k + 1;
    }
    if k < widths.len() {
        widths_usable = false;
    }
    if geometry_usable && widths_usable {
        redraw(opts, text, widths, source)
    } else {
        DrawPass {
            background: background_color_at(0),
            stars: Vec::new(),
            font_style: FontStyle::Normal,
            glyphs: Vec::new(),
            commands: Vec::new(),
        }
    }
}

} // verus!
