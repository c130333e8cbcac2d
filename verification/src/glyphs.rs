use vstd::prelude::*;

use crate::canvas_options::{CanvasOpts, MAX_DIMENSION};
use crate::color::{glyph_color_at, is_glyph_color};
use crate::commands::{DrawCmd, FontStyle, GlyphSpec};
use crate::char_at;
use crate::rng::RandomSource;

verus! {

/// The three font styles a pass may draw its text in.
pub open spec fn font_styles() -> Seq<FontStyle> {
    seq![FontStyle::Normal, FontStyle::Italic, FontStyle::Oblique]
}

/// The `i`-th font style.
fn font_style_at(i: usize) -> (r: FontStyle)
    requires
        i < 3,
    ensures
        r == font_styles()[i as int],
{
    if i == 0 {
        FontStyle::Normal
    } else if i == 1 {
        FontStyle::Italic
    } else {
        FontStyle::Oblique
    }
}

/// The commands of one glyph: state saved, frame moved to the jittered
/// anchor and rotated, color set, the one character drawn, state restored.
pub open spec fn glyph_cmds(g: GlyphSpec) -> Seq<DrawCmd> {
    seq![
        DrawCmd::Save,
        DrawCmd::Translate { x: g.x, y: g.y },
        DrawCmd::RotateMillidegrees { millidegrees: g.rotation_millidegrees },
        DrawCmd::SetFillColor { color: g.color },
        DrawCmd::FillText { glyph: g.glyph },
        DrawCmd::Restore,
    ]
}

/// The commands of all glyphs of a pass, left to right.
pub open spec fn glyphs_cmds(gs: Seq<GlyphSpec>) -> Seq<DrawCmd>
    decreases gs.len(),
{
    if gs.len() == 0 {
        Seq::empty()
    } else {
        glyphs_cmds(gs.drop_last()) + glyph_cmds(gs.last())
    }
}

/// All commands of the text stage: centering and the pass's one font set
/// up once, every glyph drawn under its own saved state.
pub open spec fn text_cmds(style: FontStyle, font_size: i64, gs: Seq<GlyphSpec>) -> Seq<DrawCmd> {
    seq![
        DrawCmd::Save,
        DrawCmd::CenterText,
        DrawCmd::SetFont { style, size: font_size },
    ] + glyphs_cmds(gs) + seq![DrawCmd::Restore]
}

/// The horizontal midpoint of layout cell `i` when `count` equal cells
/// span the viewport.
pub open spec fn cell_center_x(opts: CanvasOpts, count: int, i: int) -> int {
    opts.star_size + i * ((opts.width - 2 * opts.star_size) / count) + ((opts.width - 2
        * opts.star_size) / count) / 2
}

/// What the text stage guarantees of its glyphs: one per character in
/// order, colors from the fixed four-color palette, rotations within 20
/// degrees either way, anchors jittered from the cell midpoint by at most
/// a fifth of the measured character width, and from the vertical middle
/// by at most half the font size.
pub open spec fn glyphs_wf(
    gs: Seq<GlyphSpec>,
    text: Seq<char>,
    widths: Seq<i64>,
    opts: CanvasOpts,
) -> bool {
    &&& gs.len() == text.len()
    &&& forall|i: int| 0 <= i < gs.len() ==> (#[trigger] gs[i]).glyph == text[i]
    &&& forall|i: int| 0 <= i < gs.len() ==> is_glyph_color((#[trigger] gs[i]).color)
    &&& forall|i: int|
        0 <= i < gs.len() ==> -20000 <= (#[trigger] gs[i]).rotation_millidegrees <= 20000
    &&& forall|i: int|
        0 <= i < gs.len() ==> -(widths[i] / 5) <= (#[trigger] gs[i]).x - cell_center_x(
            opts,
            gs.len() as int,
            i,
        ) <= widths[i] / 5
    &&& forall|i: int|
        0 <= i < gs.len() ==> -(opts.font_size / 2) <= (#[trigger] gs[i]).y - opts.height / 2
            <= opts.font_size / 2
}

/// Lay the text out over equal-width cells and append the commands that
/// draw it: one font style for the whole pass, and per character a
/// jittered anchor, a rotation of up to 20 degrees either way with a
/// random sign, and a palette color.  Empty text lays out no glyphs.
pub fn draw_text(
    opts: &CanvasOpts,
    text: &Vec<char>,
    widths: &Vec<i64>,
    source: &mut RandomSource,
    cmds: &mut Vec<DrawCmd>,
) -> (r: (FontStyle, Vec<GlyphSpec>))
    requires
        opts.wf(),
        widths@.len() == text@.len(),
        text@.len() <= 255,
        forall|i: int| 0 <= i < widths@.len() ==> 0 <= #[trigger] widths@[i] <= MAX_DIMENSION,
    ensures
        glyphs_wf(r.1@, text@, widths@, *opts),
        final(cmds)@ == old(cmds)@ + text_cmds(r.0, opts.font_size, r.1@),
{
    let style = font_style_at(source.next_below(3) as usize);
    cmds.push(DrawCmd::Save);
    cmds.push(DrawCmd::CenterText);
    cmds.push(DrawCmd::SetFont { style, size: opts.font_size });
    let ghost head = cmds@;
    let mut glyphs: Vec<GlyphSpec> = Vec::new();
    proof {
        assert(glyphs_cmds(glyphs@) == Seq::<DrawCmd>::empty());
        assert(cmds@ =~= head + glyphs_cmds(glyphs@));
    }
    if text.len() > 0 {
        let count: i64 = text.len() as i64;
        let vw: i64 = opts.viewport_width();
        let width_unit: i64 = vw / count;
        proof {
            vstd::arithmetic::div_mod::lemma_div_pos_is_pos(vw as int, count as int);
            vstd::arithmetic::div_mod::lemma_div_nonincreasing(vw as int, count as int);
        }
        let half_unit: i64 = width_unit / 2;
        let middle_y: i64 = opts.height / 2;
        let mut k: usize = 0;
        while k < text.len()
            invariant
                opts.wf(),
                widths@.len() == text@.len(),
                1 <= count == text@.len() <= 255,
                forall|i: int| 0 <= i < widths@.len() ==> 0 <= #[trigger] widths@[i]
                    <= MAX_DIMENSION,
                0 <= width_unit <= MAX_DIMENSION,
                width_unit == (opts.width - 2 * opts.star_size) / (count as int),
                half_unit == width_unit / 2,
                middle_y == opts.height / 2,
                k <= text@.len(),
                glyphs@.len() == k,
                cmds@ == head + glyphs_cmds(glyphs@),
                forall|i: int| 0 <= i < k ==> (#[trigger] glyphs@[i]).glyph == text@[i],
                forall|i: int| 0 <= i < k ==> is_glyph_color((#[trigger] glyphs@[i]).color),
                forall|i: int|
                    0 <= i < k ==> -20000 <= (#[trigger] glyphs@[i]).rotation_millidegrees
                        <= 20000,
                forall|i: int|
                    0 <= i < k ==> -(widths@[i] / 5) <= (#[trigger] glyphs@[i]).x - cell_center_x(
                        *opts,
                        count as int,
                        i,
                    ) <= widths@[i] / 5,
                forall|i: int|
                    0 <= i < k ==> -(opts.font_size / 2) <= (#[trigger] glyphs@[i]).y - opts.height
                        / 2 <= opts.font_size / 2,
            decreases text@.len() - k,
        {
            let ch: char = char_at(text, k);
            let m: i64 = widths[k];
            let jx_mag: i64 = source.next_below((m / 5 + 1) as u64) as i64;
            let jx: i64 = if source.next_below(2) == 0 {
                jx_mag
            } else {
                -jx_mag
            };
            let ki: i64 = k as i64;
            proof {
                assert(0 <= ki * width_unit <= 2_550_000_000) by (nonlinear_arith)
                    requires
                        0 <= ki <= 255,
                        0 <= width_unit <= 10_000_000,
                ;
            }
            let x: i64 = opts.star_size + ki * width_unit + half_unit + jx;
            let jy_mag: i64 = source.next_below((opts.font_size / 2 + 1) as u64) as i64;
            let jy: i64 = if source.next_below(2) == 0 {
                jy_mag
            } else {
                -jy_mag
            };
            let y: i64 = middle_y + jy;
            let rot_mag: i64 = source.next_below(20001) as i64;
            let rot: i64 = if source.next_below(2) == 0 {
                rot_mag
            } else {
                -rot_mag
            };
            let color = glyph_color_at(source.next_below(4) as usize);
            let laid = GlyphSpec { glyph: ch, x, y, rotation_millidegrees: rot, color };
            cmds.push(DrawCmd::Save);
            cmds.push(DrawCmd::Translate { x, y });
            cmds.push(DrawCmd::RotateMillidegrees { millidegrees: rot });
            cmds.push(DrawCmd::SetFillColor { color });
            cmds.push(DrawCmd::FillText { glyph: ch });
            cmds.push(DrawCmd::Restore);
            proof {
                let prev = glyphs@;
                let pushed = prev.push(laid);
                assert(pushed.drop_last() =~= prev);
                assert(pushed.last() == laid);
                assert(glyphs_cmds(pushed) == glyphs_cmds(prev) + glyph_cmds(laid));
                assert(cmds@ =~= head + glyphs_cmds(pushed));
                assert(x - cell_center_x(*opts, count as int, k as int) == jx);
            }
            glyphs.push(laid);
            k = k + 1;
        }
    }
    cmds.push(DrawCmd::Restore);
    proof {
        assert(cmds@ =~= old(cmds)@ + text_cmds(style, opts.font_size, glyphs@));
    }
    (style, glyphs)
}

} // verus!
