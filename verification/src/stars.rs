use vstd::prelude::*;

use crate::canvas_options::{CanvasOpts, MAX_DIMENSION};
use crate::color::{rgb_matches, rgb_matches_any, Rgba};
use crate::commands::{DrawCmd, Point, StarSpec};
use crate::rng::RandomSource;

verus! {

/// Squared Euclidean distance between two centers.
pub open spec fn dist2(a: Point, b: Point) -> int {
    (a.x - b.x) * (a.x - b.x) + (a.y - b.y) * (a.y - b.y)
}

/// The centers are at least `threshold` apart, compared on squares so
/// that the statement is exact over integers.
pub open spec fn far_apart(a: Point, b: Point, threshold: int) -> bool {
    dist2(a, b) >= threshold * threshold
}

/// `p` lies in the inset viewport: at least a star radius from every edge.
pub open spec fn in_viewport(p: Point, opts: CanvasOpts) -> bool {
    &&& opts.star_size <= p.x <= opts.width - opts.star_size
    &&& opts.star_size <= p.y <= opts.height - opts.star_size
}

/// Report whether `candidate` keeps the space threshold to every placed
/// center.
fn far_from_all(candidate: Point, points: &Vec<Point>, threshold: i64) -> (r: bool)
    requires
        0 <= candidate.x <= MAX_DIMENSION,
        0 <= candidate.y <= MAX_DIMENSION,
        0 <= threshold <= MAX_DIMENSION,
        forall|i: int|
            0 <= i < points@.len() ==> 0 <= (#[trigger] points@[i]).x <= MAX_DIMENSION
                && 0 <= points@[i].y <= MAX_DIMENSION,
    ensures
        r == forall|i: int|
            0 <= i < points@.len() ==> far_apart(candidate, #[trigger] points@[i], threshold as int),
{
    let mut k: usize = 0;
    while k < points.len()
        invariant
            k <= points@.len(),
            0 <= candidate.x <= MAX_DIMENSION,
            0 <= candidate.y <= MAX_DIMENSION,
            0 <= threshold <= MAX_DIMENSION,
            forall|i: int|
                0 <= i < points@.len() ==> 0 <= (#[trigger] points@[i]).x <= MAX_DIMENSION
                    && 0 <= points@[i].y <= MAX_DIMENSION,
            forall|i: int| 0 <= i < k ==> far_apart(candidate, #[trigger] points@[i], threshold as int),
        decreases points@.len() - k,
    {
        let p = points[k];
        let dx: i64 = candidate.x - p.x;
        let dy: i64 = candidate.y - p.y;
        proof {
            assert(0 <= dx * dx <= 100_000_000_000_000 && 0 <= dy * dy
                <= 100_000_000_000_000 && 0 <= threshold * threshold
                <= 100_000_000_000_000) by (nonlinear_arith)
                requires
                    -10_000_000 <= dx <= 10_000_000,
                    -10_000_000 <= dy <= 10_000_000,
                    0 <= threshold <= 10_000_000,
            ;
        }
        if dx * dx + dy * dy < threshold * threshold {
            assert(!far_apart(candidate, points@[k as int], threshold as int));
            return false;
        }
        k = k + 1;
    }
    true
}

/// A list of `n` values is too short to hold every value of `0..=n`:
/// some value of that range is missing from it.
proof fn lemma_some_value_missing(xs: Seq<i64>)
    requires
        xs.len() <= 65535,
    ensures
        exists|w: i64| 0 <= w <= xs.len() && !xs.contains(w),
    decreases xs.len(),
{
    let n: i64 = xs.len() as i64;
    if !xs.contains(n) {
        assert(0 <= n <= xs.len() && !xs.contains(n));
    } else {
        let idx = choose|i: int| 0 <= i < xs.len() && xs[i] == n;
        let ys = xs.remove(idx);
        lemma_some_value_missing(ys);
        let w = choose|w: i64| 0 <= w <= ys.len() && !ys.contains(w);
        assert(w < n);
        assert(!xs.contains(w)) by {
            if xs.contains(w) {
                let j = choose|j: int| 0 <= j < xs.len() && xs[j] == w;
                assert(j != idx);
                if j < idx {
                    assert(ys[j] == w);
                } else {
                    assert(ys[j - 1] == w);
                }
            }
        }
        assert(0 <= w <= xs.len() && !xs.contains(w));
    }
}

/// Report whether `xs` holds `x`.
fn contains_value(xs: &Vec<i64>, x: i64) -> (r: bool)
    ensures
        r == xs@.contains(x),
{
    let mut k: usize = 0;
    while k < xs.len()
        invariant
            k <= xs@.len(),
            forall|i: int| 0 <= i < k ==> xs@[i] != x,
        decreases xs@.len() - k,
    {
        if xs[k] == x {
            assert(xs@[k as int] == x);
            return true;
        }
        k = k + 1;
    }
    false
}

/// The smallest non-negative value absent from `xs`; it is at most
/// `xs.len()`, since `xs` is too short to hold all of `0..=len`.
fn first_value_not_in(xs: &Vec<i64>) -> (r: i64)
    requires
        xs@.len() <= 65535,
    ensures
        0 <= r <= xs@.len(),
        !xs@.contains(r),
{
    let n: usize = xs.len();
    let mut v: i64 = 0;
    while v <= n as i64
        invariant
            0 <= v <= n + 1,
            n == xs@.len(),
            n <= 65535,
            forall|w: i64| 0 <= w < v ==> xs@.contains(w),
        decreases n + 1 - v,
    {
        if !contains_value(xs, v) {
            return v;
        }
        v = v + 1;
    }
    proof {
        lemma_some_value_missing(xs@);
    }
    assert(false);
    0
}

/// The `R,G,B` prefix of a color read as one number.
pub open spec fn rgb_key(c: Rgba) -> int {
    c.red * 65536 + c.green * 256 + c.blue
}

/// The prefixes of all used colors, for the fallback search.
fn keys_of(used: &Vec<Rgba>) -> (r: Vec<i64>)
    ensures
        r@.len() == used@.len(),
        forall|i: int| 0 <= i < used@.len() ==> r@[i] == rgb_key(#[trigger] used@[i]),
{
    let mut keys: Vec<i64> = Vec::new();
    let mut k: usize = 0;
    while k < used.len()
        invariant
            k <= used@.len(),
            keys@.len() == k,
            forall|i: int| 0 <= i < k ==> keys@[i] == rgb_key(#[trigger] used@[i]),
        decreases used@.len() - k,
    {
        let c = used[k];
        let key: i64 = (c.red as i64) * 65536 + (c.green as i64) * 256 + (c.blue as i64);
        keys.push(key);
        k = k + 1;
    }
    keys
}

/// Propose a star center by rejection sampling: up to 600 fresh uniform
/// points of the viewport, each kept only if it stays `space_threshold`
/// away from every placed center.  The first point is always kept; when
/// all 600 proposals land too close, placement has run out of room and
/// `None` says so.
pub fn calc_point_rel_to(
    points: &Vec<Point>,
    space_threshold: i64,
    opts: &CanvasOpts,
    source: &mut RandomSource,
) -> (r: Option<Point>)
    requires
        opts.wf(),
        0 <= space_threshold <= MAX_DIMENSION,
        forall|i: int| 0 <= i < points@.len() ==> in_viewport(#[trigger] points@[i], *opts),
    ensures
        match r {
            Some(p) => in_viewport(p, *opts) && forall|i: int|
                0 <= i < points@.len() ==> far_apart(p, #[trigger] points@[i], space_threshold as int),
            None => points@.len() > 0,
        },
{
    let vw: i64 = opts.viewport_width();
    let vh: i64 = opts.viewport_height();
    let mut attempt: u16 = 0;
    while attempt < 600
        invariant
            opts.wf(),
            0 <= space_threshold <= MAX_DIMENSION,
            vw == opts.width - 2 * opts.star_size,
            vh == opts.height - 2 * opts.star_size,
            forall|i: int| 0 <= i < points@.len() ==> in_viewport(#[trigger] points@[i], *opts),
            attempt > 0 ==> points@.len() > 0,
        decreases 600 - attempt,
    {
        let x: i64 = opts.star_size + source.next_below((vw + 1) as u64) as i64;
        let y: i64 = opts.star_size + source.next_below((vh + 1) as u64) as i64;
        let candidate = Point { x, y };
        assert(in_viewport(candidate, *opts));
        if far_from_all(candidate, points, space_threshold) {
            return Some(candidate);
        }
        assert(points@.len() > 0);
        attempt = attempt + 1;
    }
    None
}

/// Draw a rotation, in thousandths of a degree, that no placed star uses
/// yet: uniform redraws while a collision lasts, and after 600 of them
/// the smallest unused value, so the search always ends.
pub fn calc_rotation_rel_to(degrees: &Vec<i64>, source: &mut RandomSource) -> (r: i64)
    requires
        degrees@.len() <= 65535,
    ensures
        0 <= r < 360000,
        !degrees@.contains(r),
{
    let mut tries: u16 = 0;
    while tries < 600
        invariant
            degrees@.len() <= 65535,
        decreases 600 - tries,
    {
        let d: i64 = source.next_below(360000) as i64;
        if !contains_value(degrees, d) {
            return d;
        }
        tries = tries + 1;
    }
    first_value_not_in(degrees)
}

/// Draw a color whose `R,G,B` prefix differs from every used one.  The
/// opacity is drawn once, in hundredths, uniform over `[0.40, 0.70]`; the
/// channels are redrawn while the prefix collides, and after 600 redraws
/// the smallest unused prefix is taken, so the search always ends.
pub fn calc_color_rel_to(used: &Vec<Rgba>, source: &mut RandomSource) -> (r: Rgba)
    requires
        used@.len() <= 60000,
    ensures
        forall|i: int| 0 <= i < used@.len() ==> !rgb_matches(r, #[trigger] used@[i]),
        40 <= r.opacity_hundredths <= 70,
{
    let opacity: u8 = 40 + source.next_below(31) as u8;
    let mut tries: u16 = 0;
    while tries < 600
        invariant
            used@.len() <= 60000,
            40 <= opacity <= 70,
        decreases 600 - tries,
    {
        let red: u8 = source.next_below(256) as u8;
        let green: u8 = source.next_below(256) as u8;
        let blue: u8 = source.next_below(256) as u8;
        let candidate = Rgba { red, green, blue, opacity_hundredths: opacity };
        if !rgb_matches_any(candidate, used) {
            return candidate;
        }
        tries = tries + 1;
    }
    let keys = keys_of(used);
    let v: i64 = first_value_not_in(&keys);
    let fallback = Rgba {
        red: 0,
        green: (v / 256) as u8,
        blue: (v % 256) as u8,
        opacity_hundredths: opacity,
    };
    proof {
        vstd::arithmetic::div_mod::lemma_fundamental_div_mod(v as int, 256);
        assert(rgb_key(fallback) == v);
        assert forall|i: int| 0 <= i < used@.len() implies !rgb_matches(
            fallback,
            #[trigger] used@[i],
        ) by {
            assert(keys@[i] == rgb_key(used@[i]));
            assert(keys@[i] != v);
        }
    }
    fallback
}

/// Draw the number of outer points of the next star: uniform over 3 to 7.
pub fn calc_corner_count(source: &mut RandomSource) -> (r: u8)
    ensures
        3 <= r <= 7,
{
    3 + source.next_below(5) as u8
}

/// `360/corner_count` degrees, the step between like vertices, in units
/// of 1/420 of a degree; exact for every corner count of `[3, 7]`.
pub open spec fn turn_step_units(corner_count: u8) -> int {
    if corner_count == 3 {
        50400
    } else if corner_count == 4 {
        37800
    } else if corner_count == 5 {
        30240
    } else if corner_count == 6 {
        25200
    } else {
        21600
    }
}

/// `90/corner_count` degrees, where outer vertex 0 sits, in the same units.
pub open spec fn outer_start_units(corner_count: u8) -> int {
    if corner_count == 3 {
        12600
    } else if corner_count == 4 {
        9450
    } else if corner_count == 5 {
        7560
    } else if corner_count == 6 {
        6300
    } else {
        5400
    }
}

/// `270/corner_count` degrees, where inner vertex 0 sits, in the same units.
pub open spec fn inner_start_units(corner_count: u8) -> int {
    if corner_count == 3 {
        37800
    } else if corner_count == 4 {
        28350
    } else if corner_count == 5 {
        22680
    } else if corner_count == 6 {
        18900
    } else {
        16200
    }
}

/// Angle of outer vertex `i` of a star with `corner_count` points:
/// `90/corner_count + i * 360/corner_count` degrees, in 1/420-degree units.
pub open spec fn outer_angle_units(corner_count: u8, i: int) -> int {
    outer_start_units(corner_count) + i * turn_step_units(corner_count)
}

/// Angle of the inner vertex following outer vertex `i`:
/// `270/corner_count + i * 360/corner_count` degrees, in the same units.
pub open spec fn inner_angle_units(corner_count: u8, i: int) -> int {
    inner_start_units(corner_count) + i * turn_step_units(corner_count)
}

/// The inner radius of a star: the outer one over 2.5.
pub open spec fn short_radius(star_size: i64) -> int {
    star_size * 2 / 5
}

/// The path vertices of one star: outer and inner vertices alternating,
/// in the star's own translated, rotated frame.
pub open spec fn star_vertex_cmds(star_size: i64, corner_count: u8) -> Seq<DrawCmd> {
    Seq::new(
        (2 * corner_count) as nat,
        |k: int|
            if k % 2 == 0 {
                DrawCmd::LineToPolar {
                    angle_units: outer_angle_units(corner_count, k / 2) as i64,
                    radius: star_size,
                }
            } else {
                DrawCmd::LineToPolar {
                    angle_units: inner_angle_units(corner_count, k / 2) as i64,
                    radius: short_radius(star_size) as i64,
                }
            },
    )
}

/// Every command one star is drawn with: state saved, frame moved and
/// rotated, the alternating polygon built, filled, and state restored.
pub open spec fn star_path_cmds(star_size: i64, star: StarSpec) -> Seq<DrawCmd> {
    seq![
        DrawCmd::Save,
        DrawCmd::Translate { x: star.center.x, y: star.center.y },
        DrawCmd::RotateMillidegrees { millidegrees: star.rotation_millidegrees },
        DrawCmd::SetFillColor { color: star.color },
        DrawCmd::BeginPath,
    ] + star_vertex_cmds(star_size, star.corner_count) + seq![
        DrawCmd::ClosePath,
        DrawCmd::Fill,
        DrawCmd::Restore,
    ]
}

/// Append the commands that draw `star` as a filled alternating-radius
/// polygon of `star.corner_count` outer points.
pub fn draw_star(star_size: i64, star: &StarSpec, cmds: &mut Vec<DrawCmd>)
    requires
        0 < star_size <= MAX_DIMENSION,
        3 <= star.corner_count <= 7,
    ensures
        final(cmds)@ == old(cmds)@ + star_path_cmds(star_size, *star),
{
    cmds.push(DrawCmd::Save);
    cmds.push(DrawCmd::Translate { x: star.center.x, y: star.center.y });
    cmds.push(DrawCmd::RotateMillidegrees { millidegrees: star.rotation_millidegrees });
    cmds.push(DrawCmd::SetFillColor { color: star.color });
    cmds.push(DrawCmd::BeginPath);
    let (c1, c2, c3): (i64, i64, i64) = match star.corner_count {
        3 => (50400, 12600, 37800),
        4 => (37800, 9450, 28350),
        5 => (30240, 7560, 22680),
        6 => (25200, 6300, 18900),
        _ => (21600, 5400, 16200),
    };
    let short: i64 = star_size * 2 / 5;
    let ghost head = cmds@;
    let mut i: u8 = 0;
    while i < star.corner_count
        invariant
            3 <= star.corner_count <= 7,
            i <= star.corner_count,
            0 < star_size <= MAX_DIMENSION,
            c1 == turn_step_units(star.corner_count),
            c2 == outer_start_units(star.corner_count),
            c3 == inner_start_units(star.corner_count),
            0 <= c1 <= 50400,
            0 <= c2 <= 12600,
            0 <= c3 <= 37800,
            short == short_radius(star_size),
            cmds@ == head + star_vertex_cmds(star_size, star.corner_count).take(2 * i),
        decreases star.corner_count - i,
    {
        let ii: i64 = i as i64;
        proof {
            assert(0 <= ii * c1 <= 302400) by (nonlinear_arith)
                requires
                    0 <= ii <= 6,
                    0 <= c1 <= 50400,
            ;
        }
        cmds.push(DrawCmd::LineToPolar { angle_units: c2 + ii * c1, radius: star_size });
        cmds.push(DrawCmd::LineToPolar { angle_units: c3 + ii * c1, radius: short });
        proof {
            let vs = star_vertex_cmds(star_size, star.corner_count);
            assert(vs[2 * i as int] == (DrawCmd::LineToPolar {
                angle_units: (c2 + ii * c1) as i64,
                radius: star_size,
            }));
            assert(vs[2 * i as int + 1] == (DrawCmd::LineToPolar {
                angle_units: (c3 + ii * c1) as i64,
                radius: short,
            }));
            assert(vs.take(2 * (i + 1)) =~= vs.take(2 * i) + seq![
                vs[2 * i as int],
                vs[2 * i as int + 1],
            ]);
        }
        i = i + 1;
    }
    proof {
        let vs = star_vertex_cmds(star_size, star.corner_count);
        assert(vs.take(2 * star.corner_count) =~= vs);
    }
    cmds.push(DrawCmd::ClosePath);
    cmds.push(DrawCmd::Fill);
    cmds.push(DrawCmd::Restore);
    proof {
        assert(cmds@ =~= old(cmds)@ + star_path_cmds(star_size, *star));
    }
}

/// Distance is symmetric, so being far apart is too.
proof fn lemma_far_apart_symmetric(a: Point, b: Point, t: int)
    ensures
        far_apart(a, b, t) == far_apart(b, a, t),
{
    assert((a.x - b.x) * (a.x - b.x) == (b.x - a.x) * (b.x - a.x)) by (nonlinear_arith);
    assert((a.y - b.y) * (a.y - b.y) == (b.y - a.y) * (b.y - a.y)) by (nonlinear_arith);
}

/// What a finished pass guarantees of its stars: every center inside the
/// viewport, centers pairwise at least `2 * star_size` apart, colors
/// pairwise distinct from each other and from the background on the
/// `R,G,B` prefix, rotations pairwise distinct and in `[0, 360)` degrees,
/// corner counts in `[3, 7]`, opacities in `[0.40, 0.70]`.
pub open spec fn stars_wf(stars: Seq<StarSpec>, opts: CanvasOpts, background: Rgba) -> bool {
    &&& forall|i: int, j: int|
        0 <= i < j < stars.len() ==> #[trigger] far_apart(
            stars[i].center,
            stars[j].center,
            2 * opts.star_size,
        )
    &&& forall|i: int| 0 <= i < stars.len() ==> in_viewport((#[trigger] stars[i]).center, opts)
    &&& forall|i: int, j: int|
        0 <= i < j < stars.len() ==> !#[trigger] rgb_matches(stars[i].color, stars[j].color)
    &&& forall|i: int| 0 <= i < stars.len() ==> !rgb_matches((#[trigger] stars[i]).color, background)
    &&& forall|i: int, j: int|
        #![trigger stars[i].rotation_millidegrees, stars[j].rotation_millidegrees]
        0 <= i < j < stars.len() ==> stars[i].rotation_millidegrees
            != stars[j].rotation_millidegrees
    &&& forall|i: int|
        0 <= i < stars.len() ==> 0 <= (#[trigger] stars[i]).rotation_millidegrees < 360000
    &&& forall|i: int| 0 <= i < stars.len() ==> 3 <= (#[trigger] stars[i]).corner_count <= 7
    &&& forall|i: int|
        0 <= i < stars.len() ==> 40 <= (#[trigger] stars[i]).color.opacity_hundredths <= 70
}

/// The commands of all stars of a pass, in placement order.
pub open spec fn stars_path_cmds(star_size: i64, stars: Seq<StarSpec>) -> Seq<DrawCmd>
    decreases stars.len(),
{
    if stars.len() == 0 {
        Seq::empty()
    } else {
        stars_path_cmds(star_size, stars.drop_last()) + star_path_cmds(star_size, stars.last())
    }
}

/// Place up to `star_count` stars and append their drawing commands.
///
/// Placement may stop early when 600 proposals in a row find no free
/// point; that is a normal end of the pass, not an error, and it can
/// only happen once at least one star stands, so a positive `star_count`
/// always yields at least one star.
pub fn draw_stars(
    opts: &CanvasOpts,
    background_color: Rgba,
    source: &mut RandomSource,
    cmds: &mut Vec<DrawCmd>,
) -> (stars: Vec<StarSpec>)
    requires
        opts.wf(),
    ensures
        stars@.len() <= opts.star_count,
        opts.star_count >= 1 ==> stars@.len() >= 1,
        stars_wf(stars@, *opts, background_color),
        final(cmds)@ == old(cmds)@ + stars_path_cmds(opts.star_size, stars@),
{
    let mut points: Vec<Point> = Vec::new();
    let mut degrees: Vec<i64> = Vec::new();
    let mut rgbas: Vec<Rgba> = Vec::new();
    rgbas.push(background_color);
    let mut stars: Vec<StarSpec> = Vec::new();
    let space_threshold: i64 = opts.star_size * 2;
    let mut slot: u8 = 0;
    while slot < opts.star_count
        invariant
            opts.wf(),
            space_threshold == 2 * opts.star_size,
            slot <= opts.star_count,
            stars@.len() == slot,
            points@.len() == stars@.len(),
            degrees@.len() == stars@.len(),
            rgbas@.len() == stars@.len() + 1,
            rgbas@[0] == background_color,
            forall|i: int| 0 <= i < points@.len() ==> in_viewport(#[trigger] points@[i], *opts),
            forall|i: int| 0 <= i < stars@.len() ==> points@[i] == (#[trigger] stars@[i]).center,
            forall|i: int|
                0 <= i < stars@.len() ==> degrees@[i] == (#[trigger] stars@[i]).rotation_millidegrees,
            forall|i: int| 0 <= i < stars@.len() ==> rgbas@[i + 1] == (#[trigger] stars@[i]).color,
            stars_wf(stars@, *opts, background_color),
            cmds@ == old(cmds)@ + stars_path_cmds(opts.star_size, stars@),
        ensures
            stars@.len() <= opts.star_count,
            opts.star_count >= 1 ==> stars@.len() >= 1,
            stars_wf(stars@, *opts, background_color),
            cmds@ == old(cmds)@ + stars_path_cmds(opts.star_size, stars@),
        decreases opts.star_count - slot,
    {
        let picked = calc_point_rel_to(&points, space_threshold, opts, source);
        if picked.is_none() {
            break;
        }
        let point = picked.unwrap();
        let degree = calc_rotation_rel_to(&degrees, source);
        let rgba = calc_color_rel_to(&rgbas, source);
        let corner_count = calc_corner_count(source);
        let star = StarSpec {
            center: point,
            rotation_millidegrees: degree,
            color: rgba,
            corner_count,
        };
        draw_star(opts.star_size, &star, cmds);
        proof {
            let prev = stars@;
            let pushed = prev.push(star);
            let t: int = 2 * opts.star_size;
            assert(pushed.drop_last() =~= prev);
            assert(pushed.last() == star);
            assert(cmds@ =~= old(cmds)@ + stars_path_cmds(opts.star_size, pushed));
            assert forall|i: int, j: int| 0 <= i < j < pushed.len() implies #[trigger] far_apart(
                pushed[i].center,
                pushed[j].center,
                t,
            ) by {
                if j < prev.len() {
                    assert(far_apart(prev[i].center, prev[j].center, t));
                } else {
                    assert(pushed[j] == star);
                    assert(points@[i] == prev[i].center);
                    assert(far_apart(point, points@[i], space_threshold as int));
                    lemma_far_apart_symmetric(point, prev[i].center, t);
                }
            }
            assert forall|i: int| 0 <= i < pushed.len() implies in_viewport(
                (#[trigger] pushed[i]).center,
                *opts,
            ) by {
                if i < prev.len() {
                    assert(in_viewport(prev[i].center, *opts));
                }
            }
            assert forall|i: int, j: int| 0 <= i < j < pushed.len() implies !#[trigger] rgb_matches(
                pushed[i].color,
                pushed[j].color,
            ) by {
                if j < prev.len() {
                    assert(!rgb_matches(prev[i].color, prev[j].color));
                } else {
                    assert(rgbas@[i + 1] == prev[i].color);
                    assert(!rgb_matches(rgba, rgbas@[i + 1]));
                }
            }
            assert forall|i: int| 0 <= i < pushed.len() implies !rgb_matches(
                (#[trigger] pushed[i]).color,
                background_color,
            ) by {
                if i < prev.len() {
                    assert(!rgb_matches(prev[i].color, background_color));
                } else {
                    assert(!rgb_matches(rgba, rgbas@[0]));
                }
            }
            assert forall|i: int, j: int|
                #![trigger pushed[i].rotation_millidegrees, pushed[j].rotation_millidegrees]
                0 <= i < j < pushed.len() implies pushed[i].rotation_millidegrees
                != pushed[j].rotation_millidegrees by {
                if j < prev.len() {
                    assert(prev[i].rotation_millidegrees != prev[j].rotation_millidegrees);
                } else {
                    assert(degrees@[i] == prev[i].rotation_millidegrees);
                    assert(!degrees@.contains(degree));
                    assert(degrees@[i] != degree);
                }
            }
            assert forall|i: int|
                0 <= i < pushed.len() implies 0 <= (
            #[trigger] pushed[i]).rotation_millidegrees < 360000 by {
                if i < prev.len() {
                    assert(0 <= prev[i].rotation_millidegrees < 360000);
                }
            }
            assert forall|i: int| 0 <= i < pushed.len() implies 3 <= (
            #[trigger] pushed[i]).corner_count <= 7 by {
                if i < prev.len() {
                    assert(3 <= prev[i].corner_count <= 7);
                }
            }
            assert forall|i: int| 0 <= i < pushed.len() implies 40 <= (
            #[trigger] pushed[i]).color.opacity_hundredths <= 70 by {
                if i < prev.len() {
                    assert(40 <= prev[i].color.opacity_hundredths <= 70);
                }
            }
        }
        points.push(point);
        degrees.push(degree);
        rgbas.push(rgba);
        stars.push(star);
        slot = slot + 1;
    }
    stars
}

} // verus!
