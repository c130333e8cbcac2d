use canvas_checkcode::canvas_options::CanvasOpts;
use canvas_checkcode::color::Rgba;
use canvas_checkcode::commands::DrawCmd;
use canvas_checkcode::drawing::redraw;
use canvas_checkcode::drawing::draw_background_color;
use canvas_checkcode::gen_random_characters;
use canvas_checkcode::rng::RandomSource;
use canvas_checkcode::CheckCode;
use canvas_checkcode::canvas_options::parse_css_dimension;
use canvas_checkcode::drawing::redraw_or_empty;

const ALPHABET: [char; 67] = [
    '0', '1', '2', '3', '4', '5', '6', '7', '8', '9', 'a', 'b', 'c', 'd', 'e', 'f', 'g', 'h', 'i',
    'j', 'k', 'l', 'm', 'n', 'o', 'p', 'q', 'r', 's', 't', 'u', 'v', 'w', 'x', 'y', 'z', 'A', 'B',
    'C', 'D', 'E', 'F', 'G', 'H', 'I', 'J', 'K', 'L', 'M', 'N', 'O', 'P', 'Q', 'R', 'S', 'T', 'U',
    'V', 'W', 'X', 'Y', 'Z', '你', '我', '他', '她', '它',
];

fn demo_opts() -> CanvasOpts {
    // 150 x 50 pixels, star radius 7, up to 25 stars, 22px font, in
    // hundredths of a pixel.
    CanvasOpts { width: 15000, height: 5000, star_size: 700, star_count: 25, font_size: 2200 }
}

fn dist2(a: (i64, i64), b: (i64, i64)) -> i64 {
    (a.0 - b.0) * (a.0 - b.0) + (a.1 - b.1) * (a.1 - b.1)
}

#[test]
fn generate_zero_is_empty() {
    let mut source = RandomSource::seeded(7);
    assert_eq!(gen_random_characters(0, &mut source), "");
}

#[test]
fn generate_length_and_alphabet() {
    let mut source = RandomSource::seeded(99);
    let text = gen_random_characters(50, &mut source);
    assert_eq!(text.chars().count(), 50);
    for c in text.chars() {
        assert!(ALPHABET.contains(&c), "character {c:?} outside the alphabet");
    }
}

#[test]
fn seeded_source_is_deterministic_and_in_range() {
    let mut a = RandomSource::seeded(123);
    let mut b = RandomSource::seeded(123);
    for _ in 0..100 {
        let x = a.next_below(360000);
        let y = b.next_below(360000);
        assert_eq!(x, y);
        assert!(x < 360000);
    }
}

#[test]
fn os_source_stays_below_bound() {
    let mut source = RandomSource::Os;
    for _ in 0..50 {
        assert!(source.next_below(10) < 10);
    }
}

#[test]
fn background_is_one_of_three_palette_entries() {
    let palette = [
        Rgba { red: 232, green: 232, blue: 232, opacity_hundredths: 100 },
        Rgba { red: 242, green: 242, blue: 242, opacity_hundredths: 100 },
        Rgba { red: 252, green: 252, blue: 252, opacity_hundredths: 100 },
    ];
    let opts = demo_opts();
    for seed in 0..20u64 {
        let mut source = RandomSource::seeded(seed);
        let mut cmds: Vec<DrawCmd> = Vec::new();
        let color = draw_background_color(&opts, &mut source, &mut cmds);
        assert!(palette.contains(&color));
        assert_eq!(cmds.len(), 4);
    }
}

#[test]
fn stars_keep_all_their_guarantees() {
    let opts = demo_opts();
    for seed in 0..10u64 {
        let mut source = RandomSource::seeded(seed);
        let text: Vec<char> = vec!['a', 'b', 'c'];
        let widths: Vec<i64> = vec![900, 900, 900];
        let pass = redraw(&opts, &text, &widths, &mut source);
        let stars = &pass.stars;
        assert!(!stars.is_empty());
        assert!(stars.len() <= 25);
        for s in stars.iter() {
            assert!((3..=7).contains(&s.corner_count));
            assert!((0..360000).contains(&s.rotation_millidegrees));
            assert!((40..=70).contains(&s.color.opacity_hundredths));
            assert!(s.center.x >= opts.star_size && s.center.x <= opts.width - opts.star_size);
            assert!(s.center.y >= opts.star_size && s.center.y <= opts.height - opts.star_size);
            let b = pass.background;
            assert!(
                (s.color.red, s.color.green, s.color.blue) != (b.red, b.green, b.blue),
                "star shares the background's R,G,B prefix"
            );
        }
        for i in 0..stars.len() {
            for j in i + 1..stars.len() {
                let a = &stars[i];
                let b = &stars[j];
                let threshold = 2 * opts.star_size;
                assert!(
                    dist2((a.center.x, a.center.y), (b.center.x, b.center.y))
                        >= threshold * threshold,
                    "two stars closer than twice the star size"
                );
                assert_ne!(a.rotation_millidegrees, b.rotation_millidegrees);
                assert_ne!(
                    (a.color.red, a.color.green, a.color.blue),
                    (b.color.red, b.color.green, b.color.blue),
                    "two stars share an R,G,B prefix"
                );
            }
        }
    }
}

#[test]
fn end_to_end_demo_configuration() {
    let opts = demo_opts();
    let mut source = RandomSource::seeded(4242);
    let text_string = gen_random_characters(5, &mut source);
    assert_eq!(text_string.chars().count(), 5);
    for c in text_string.chars() {
        assert!(ALPHABET.contains(&c));
    }
    let text: Vec<char> = text_string.chars().collect();
    let widths: Vec<i64> = vec![1000; 5];
    let pass = redraw(&opts, &text, &widths, &mut source);
    assert!(pass.stars.len() >= 1 && pass.stars.len() <= 25);
    assert_eq!(pass.glyphs.len(), 5);
    // Five equal cells of (150 - 14) / 5 = 27.2 pixels across the viewport:
    // every anchor sits within a fifth of the measured width of its cell's
    // midpoint, and within half the font size of the vertical middle.
    let unit = (opts.width - 2 * opts.star_size) / 5;
    assert_eq!(unit, 2720);
    for (i, g) in pass.glyphs.iter().enumerate() {
        assert_eq!(g.glyph, text[i]);
        let center = opts.star_size + (i as i64) * unit + unit / 2;
        assert!((g.x - center).abs() <= 1000 / 5);
        assert!((g.y - opts.height / 2).abs() <= opts.font_size / 2);
        assert!(g.rotation_millidegrees.abs() <= 20000);
    }
}

#[test]
fn glyph_colors_come_from_the_four_color_palette() {
    let palette = [
        Rgba { red: 255, green: 0, blue: 0, opacity_hundredths: 100 },
        Rgba { red: 0, green: 100, blue: 0, opacity_hundredths: 100 },
        Rgba { red: 0, green: 0, blue: 255, opacity_hundredths: 100 },
        Rgba { red: 0, green: 0, blue: 0, opacity_hundredths: 100 },
    ];
    let opts = demo_opts();
    for seed in 0..10u64 {
        let mut source = RandomSource::seeded(seed);
        let text: Vec<char> = vec!['x', 'y', 'z', '0'];
        let widths: Vec<i64> = vec![800; 4];
        let pass = redraw(&opts, &text, &widths, &mut source);
        for g in pass.glyphs.iter() {
            assert!(palette.contains(&g.color));
        }
        // One font style for the whole pass: exactly one SetFont command.
        let set_fonts = pass
            .commands
            .iter()
            .filter(|c| matches!(c, DrawCmd::SetFont { .. }))
            .count();
        assert_eq!(set_fonts, 1);
    }
}

#[test]
fn same_seed_gives_byte_identical_commands() {
    let opts = demo_opts();
    let text: Vec<char> = vec!['W', '7', 'q', 'm', 'Z'];
    let widths: Vec<i64> = vec![1100, 700, 950, 1400, 1050];
    let mut first = RandomSource::seeded(20240101);
    let mut second = RandomSource::seeded(20240101);
    let a = redraw(&opts, &text, &widths, &mut first);
    let b = redraw(&opts, &text, &widths, &mut second);
    assert_eq!(a.commands, b.commands);
    assert_eq!(a.stars, b.stars);
    assert_eq!(a.glyphs, b.glyphs);
    assert_eq!(a.background, b.background);
    assert_eq!(a.font_style, b.font_style);
}

#[test]
fn different_seeds_change_the_pass() {
    let opts = demo_opts();
    let text: Vec<char> = vec!['a', 'b'];
    let widths: Vec<i64> = vec![900, 900];
    let mut first = RandomSource::seeded(1);
    let mut second = RandomSource::seeded(2);
    let a = redraw(&opts, &text, &widths, &mut first);
    let b = redraw(&opts, &text, &widths, &mut second);
    assert_ne!(a.commands, b.commands);
}

#[test]
fn empty_text_draws_no_glyphs() {
    let opts = demo_opts();
    let mut source = RandomSource::seeded(5);
    let text: Vec<char> = Vec::new();
    let widths: Vec<i64> = Vec::new();
    let pass = redraw(&opts, &text, &widths, &mut source);
    assert!(pass.glyphs.is_empty());
    assert!(!pass.commands.iter().any(|c| matches!(c, DrawCmd::FillText { .. })));
}

#[test]
fn zero_star_count_places_no_stars() {
    let mut opts = demo_opts();
    opts.star_count = 0;
    let mut source = RandomSource::seeded(11);
    let text: Vec<char> = vec!['a'];
    let widths: Vec<i64> = vec![900];
    let pass = redraw(&opts, &text, &widths, &mut source);
    assert!(pass.stars.is_empty());
}

#[test]
fn tight_viewport_exhausts_after_one_star() {
    // The viewport is a single point: the first star takes it and every
    // later proposal lands too close, so placement stops early.
    let opts = CanvasOpts { width: 1400, height: 1400, star_size: 700, star_count: 25, font_size: 2200 };
    let mut source = RandomSource::seeded(3);
    let text: Vec<char> = vec!['a'];
    let widths: Vec<i64> = vec![900];
    let pass = redraw(&opts, &text, &widths, &mut source);
    assert_eq!(pass.stars.len(), 1);
    assert_eq!(pass.stars[0].center.x, 700);
    assert_eq!(pass.stars[0].center.y, 700);
}

#[test]
fn viewport_insets_by_twice_the_star_size() {
    let opts = demo_opts();
    assert_eq!(opts.viewport_width(), 13600);
    assert_eq!(opts.viewport_height(), 3600);
}

#[test]
fn check_code_carries_the_generated_text() {
    let mut source = RandomSource::seeded(8);
    let text = gen_random_characters(5, &mut source);
    let initialize = CheckCode::Initialize(text.clone());
    match initialize {
        CheckCode::Initialize(s) => assert_eq!(s, text),
        CheckCode::Update(_) => panic!("expected an initialize event"),
    }
}

fn chars_of(s: &str) -> Vec<char> {
    s.chars().collect()
}

#[test]
fn css_dimension_parses_whole_pixels() {
    assert_eq!(parse_css_dimension(&chars_of("150px"), 4200), 15000);
    assert_eq!(parse_css_dimension(&chars_of("150"), 4200), 15000);
}

#[test]
fn css_dimension_parses_fractions_to_hundredths() {
    assert_eq!(parse_css_dimension(&chars_of("27.2px"), 4200), 2720);
    assert_eq!(parse_css_dimension(&chars_of("27.25px"), 4200), 2725);
    assert_eq!(parse_css_dimension(&chars_of("27.259px"), 4200), 2725);
    assert_eq!(parse_css_dimension(&chars_of("7.px"), 4200), 700);
}

#[test]
fn css_dimension_falls_back_to_the_default() {
    assert_eq!(parse_css_dimension(&chars_of(""), 4200), 4200);
    assert_eq!(parse_css_dimension(&chars_of("auto"), 4200), 4200);
    assert_eq!(parse_css_dimension(&chars_of("-5px"), 4200), 4200);
    assert_eq!(parse_css_dimension(&chars_of("123456px"), 4200), 4200);
    assert_eq!(parse_css_dimension(&chars_of("12.3.4px"), 4200), 4200);
}

#[test]
fn degenerate_geometry_draws_nothing() {
    // The canvas is narrower than two star radii: no viewport exists.
    let opts = CanvasOpts { width: 1000, height: 5000, star_size: 700, star_count: 25, font_size: 2200 };
    let mut source = RandomSource::seeded(6);
    let text: Vec<char> = vec!['a'];
    let widths: Vec<i64> = vec![900];
    let pass = redraw_or_empty(&opts, &text, &widths, &mut source);
    assert!(pass.commands.is_empty());
    assert!(pass.stars.is_empty());
    assert!(pass.glyphs.is_empty());
}

#[test]
fn usable_geometry_passes_through_unchanged() {
    let opts = demo_opts();
    let text: Vec<char> = vec!['a', 'b'];
    let widths: Vec<i64> = vec![900, 900];
    let mut first = RandomSource::seeded(77);
    let mut second = RandomSource::seeded(77);
    let a = redraw_or_empty(&opts, &text, &widths, &mut first);
    let b = redraw(&opts, &text, &widths, &mut second);
    assert_eq!(a.commands, b.commands);
}

#[test]
fn star_commands_match_the_placed_stars() {
    let opts = demo_opts();
    let mut source = RandomSource::seeded(31415);
    let text: Vec<char> = vec!['a'];
    let widths: Vec<i64> = vec![900];
    let pass = redraw(&opts, &text, &widths, &mut source);
    // Each star is one filled path of alternating outer and inner
    // vertices: two polar vertices per corner, one Fill per star (and no
    // other Fill command in the whole pass).
    let vertex_count: usize = pass
        .commands
        .iter()
        .filter(|c| matches!(c, DrawCmd::LineToPolar { .. }))
        .count();
    let expected: usize = pass.stars.iter().map(|s| 2 * s.corner_count as usize).sum();
    assert_eq!(vertex_count, expected);
    let fill_count = pass.commands.iter().filter(|c| matches!(c, DrawCmd::Fill)).count();
    assert_eq!(fill_count, pass.stars.len());
    // The outer radius drawn is the configured star size; the inner one
    // is that over 2.5.
    for c in pass.commands.iter() {
        if let DrawCmd::LineToPolar { radius, .. } = c {
            assert!(*radius == opts.star_size || *radius == opts.star_size * 2 / 5);
        }
    }
}
