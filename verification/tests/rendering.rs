use livesplit_core::component::{graph, key_value};
use livesplit_core::layout::{ComponentState, LayoutState};
use livesplit_core::rendering::component::graph::{
    path_steps, render as render_graph, Draw, Shape, Step,
};
use livesplit_core::rendering::font::glyph_cache::GlyphCache;
use livesplit_core::rendering::font::layout::{
    layout_centered, layout_left_aligned, layout_right_aligned, layout_tabular_numbers, width,
    Cursor, PositionedGlyph, ShapedGlyph,
};
use livesplit_core::rendering::font::{render as render_glyphs, Font};
use livesplit_core::rendering::icon::{create_icon, fit_icon, icon_of, IconBox};
use livesplit_core::rendering::{
    choose_abbreviation, component_height, component_origins, component_width, decode_color,
    decode_gradient, measure_numbers, measure_text, pick_abbreviation, render_key_value_component,
    render_numbers, render_text_align, render_text_centered, render_text_ellipsis,
    render_text_right_align, render_timer, solid, total_extent, update_cached_size, CachedSize,
    Renderer, Resize, Shader, DEFAULT_TEXT_SIZE,
};
use livesplit_core::run::{Run, Segment};
use livesplit_core::settings::{
    Color, Font as FontSetting, FontStretch, FontStyle, FontWeight, Gradient, LayoutDirection,
};

fn be16(out: &mut Vec<u8>, v: u16) {
    out.push((v >> 8) as u8);
    out.push(v as u8);
}

fn be32(out: &mut Vec<u8>, v: u32) {
    be16(out, (v >> 16) as u16);
    be16(out, v as u16);
}

/// The advances of the glyphs of the test font, by glyph id: the missing
/// glyph, the digits 0 to 9, the letters A to C, the space, the full stop,
/// the colon and the ellipsis.
const ADVANCES: [u16; 18] = [
    500, 400, 300, 420, 430, 440, 450, 460, 470, 480, 490, 600, 650, 700, 250, 200, 200, 800,
];

/// Builds a font with the glyphs of `ADVANCES`, 800 units above and 200
/// units below the baseline.
fn test_font() -> Vec<u8> {
    let mut head = Vec::new();
    be32(&mut head, 0x0001_0000);
    be32(&mut head, 0x0001_0000);
    be32(&mut head, 0);
    be32(&mut head, 0x5F0F_3CF5);
    be16(&mut head, 0);
    be16(&mut head, 1000);
    head.extend_from_slice(&[0; 16]);
    for v in [0u16, 0, 1000, 1000, 0, 8, 2, 0, 0] {
        be16(&mut head, v);
    }

    let mut hhea = Vec::new();
    be32(&mut hhea, 0x0001_0000);
    be16(&mut hhea, 800);
    be16(&mut hhea, (-200i16) as u16);
    be16(&mut hhea, 0);
    hhea.extend_from_slice(&[0; 24]);
    be16(&mut hhea, ADVANCES.len() as u16);

    let mut maxp = Vec::new();
    be32(&mut maxp, 0x0000_5000);
    be16(&mut maxp, ADVANCES.len() as u16);

    let mut hmtx = Vec::new();
    for advance in ADVANCES {
        be16(&mut hmtx, advance);
        be16(&mut hmtx, 0);
    }

    // start code, end code, first glyph
    let segments: [(u16, u16, u16); 7] = [
        (0x20, 0x20, 14),
        (0x2E, 0x2E, 15),
        (0x30, 0x39, 1),
        (0x3A, 0x3A, 16),
        (0x41, 0x43, 11),
        (0x2026, 0x2026, 17),
        (0xFFFF, 0xFFFF, 0),
    ];
    let count = segments.len() as u16;
    let mut cmap = Vec::new();
    be16(&mut cmap, 0);
    be16(&mut cmap, 1);
    be16(&mut cmap, 3);
    be16(&mut cmap, 1);
    be32(&mut cmap, 12);
    be16(&mut cmap, 4);
    be16(&mut cmap, 16 + 8 * count);
    be16(&mut cmap, 0);
    be16(&mut cmap, 2 * count);
    be16(&mut cmap, 8);
    be16(&mut cmap, 2);
    be16(&mut cmap, 2 * count - 8);
    for s in segments {
        be16(&mut cmap, s.1);
    }
    be16(&mut cmap, 0);
    for s in segments {
        be16(&mut cmap, s.0);
    }
    for s in segments {
        be16(&mut cmap, s.2.wrapping_sub(s.0));
    }
    for _ in segments {
        be16(&mut cmap, 0);
    }

    let tables: [(&[u8; 4], Vec<u8>); 5] = [
        (b"cmap", cmap),
        (b"head", head),
        (b"hhea", hhea),
        (b"hmtx", hmtx),
        (b"maxp", maxp),
    ];
    let mut font = Vec::new();
    be32(&mut font, 0x0001_0000);
    be16(&mut font, tables.len() as u16);
    be16(&mut font, 64);
    be16(&mut font, 2);
    be16(&mut font, 16);
    let mut offset = 12 + 16 * tables.len();
    for (tag, data) in &tables {
        font.extend_from_slice(&tag[..]);
        be32(&mut font, 0);
        be32(&mut font, offset as u32);
        be32(&mut font, data.len() as u32);
        offset += (data.len() + 3) / 4 * 4;
    }
    for (_, data) in &tables {
        font.extend_from_slice(data);
        while font.len() % 4 != 0 {
            font.push(0);
        }
    }
    font
}

fn font() -> Font {
    Font::from_slice(
        &test_font(),
        0,
        FontStyle::Normal,
        FontWeight::Normal,
        FontStretch::Normal,
    )
    .unwrap()
}

fn glyph(id: u32, x_advance: i32) -> ShapedGlyph {
    ShapedGlyph::new(id, x_advance, 0, 0, 0)
}

fn at(id: u32, x: i128, y: i128) -> PositionedGlyph {
    PositionedGlyph { id, x, y }
}

fn color(alpha: u32) -> Color {
    Color::from_bits(1, 2, 3, alpha)
}

fn key_value_state(display_two_rows: bool) -> key_value::State {
    key_value::State {
        background: Gradient::Transparent,
        key_color: None,
        value_color: None,
        key: String::from("Previous Segment"),
        value: String::from("0.0"),
        key_abbreviations: vec![String::from("Prev. Segment")],
        display_two_rows,
    }
}

fn graph_state(points: Vec<bool>, is_live_delta_active: bool) -> graph::State {
    let count = points.len().max(1) as f32;
    graph::State {
        points: points
            .into_iter()
            .enumerate()
            .map(|(i, is_best_segment)| graph::Point {
                x: (i as f32 / count).to_bits(),
                y: 0.5f32.to_bits(),
                is_best_segment,
            })
            .collect(),
        horizontal_grid_lines: vec![0.25f32.to_bits()],
        vertical_grid_lines: vec![0.25f32.to_bits(), 0.75f32.to_bits()],
        middle: 0.5f32.to_bits(),
        is_live_delta_active,
        height: 80,
        top_background_color: color(10),
        bottom_background_color: color(11),
        grid_lines_color: color(12),
        graph_lines_color: color(13),
        partial_fill_color: color(14),
        complete_fill_color: color(15),
        best_segment_color: color(16),
    }
}

fn default_layout(splits: u32) -> LayoutState {
    LayoutState {
        components: vec![
            ComponentState::Title,
            ComponentState::Splits {
                splits,
                display_two_rows: false,
                column_labels: false,
            },
            ComponentState::Timer { height: 60 },
            ComponentState::KeyValue(key_value_state(false)),
        ],
        direction: LayoutDirection::Vertical,
        timer_font: None,
        times_font: None,
        text_font: None,
        background: Gradient::Plain(Color::white()),
    }
}

fn no_font(_: &FontSetting) -> Option<Font> {
    None
}

fn build_path(glyph: u32) -> Vec<(Option<Color>, String)> {
    vec![(None, format!("glyph {}", glyph))]
}

#[test]
fn default() {
    // The frame of the default layout is prepared here, not drawn: this
    // library makes no pixels, so there is no image to compare. What is
    // held to account is what the renderer decides before anything is
    // drawn.
    let mut run = Run::new();
    for name in ["A", "B", "C", "D"] {
        run.push_segment(Segment::new(String::from(name)));
    }
    run.set_category_name(String::from("Some Category Name"));
    run.set_attempt_count(1337);

    let state = default_layout(run.len() as u32);
    let data = test_font();
    let mut renderer: Renderer<String, ()> = Renderer::new(&data, &data).unwrap();

    let frame = renderer.render(&state, &no_font);
    assert_eq!(frame.resize, None);
    assert!(frame.freed.is_empty());
    assert_eq!(frame.origins, vec![0, 216, 696, 996, 1116]);
    assert_eq!(renderer.cached_size, Some(CachedSize::Vertical(1116)));

    let attempts = run.attempt_count().to_string();
    let times = renderer.times.font.scale(DEFAULT_TEXT_SIZE);
    assert_eq!(measure_numbers(times, &attempts), 4 * 980);

    let again = renderer.render(&state, &no_font);
    assert_eq!(again.resize, None);
    assert!(again.freed.is_empty());
    assert_eq!(again.origins, frame.origins);
}

#[test]
fn the_font_states_its_metrics() {
    let font = font();
    assert_eq!(font.descender(), -200);
    assert_eq!(font.height(), 1000);
    assert_eq!(font.glyph_index('A'), Some(11));
    assert_eq!(font.glyph_index('7'), Some(8));
    assert_eq!(font.glyph_index('x'), None);
    assert_eq!(font.glyph_hor_advance(11), Some(600));
    assert_eq!(font.glyph_hor_advance(17), Some(800));
    assert_eq!(font.ellipsis(), (17, 800));
}

#[test]
fn bytes_that_are_no_font_give_no_font() {
    assert!(
        Font::from_slice(b"not a font", 0, FontStyle::Normal, FontWeight::Bold, FontStretch::Normal)
            .is_none()
    );
    assert!(Renderer::<String, ()>::new(b"", &test_font()).is_none());
    assert!(Renderer::<String, ()>::new(&test_font(), b"").is_none());
}

#[test]
fn digits_get_the_widest_advance() {
    let font = font();
    let (digits, digit_width) = font.digit_metrics();
    assert_eq!(digits, [1, 2, 3, 4, 5, 6, 7, 8, 9, 10]);
    assert_eq!(digit_width, 490);
}

#[test]
fn shaping_maps_characters_to_glyphs() {
    let font = font();
    let glyphs = font.scale(DEFAULT_TEXT_SIZE).shape("AB 1").into_glyphs();
    assert_eq!(
        glyphs,
        vec![glyph(11, 600), glyph(12, 650), glyph(14, 250), glyph(2, 300)]
    );
    let numbers = font
        .scale(DEFAULT_TEXT_SIZE)
        .shape_tabular_numbers("1:2")
        .into_glyphs();
    assert_eq!(numbers, vec![glyph(2, 300), glyph(16, 200), glyph(3, 420)]);
}

#[test]
fn the_width_is_the_sum_of_the_advances() {
    assert_eq!(width(&vec![]), 0);
    assert_eq!(width(&vec![glyph(1, 600), glyph(2, -50), glyph(3, 7)]), 557);
    let font = font();
    assert_eq!(font.scale(DEFAULT_TEXT_SIZE).shape("ABC").width(), 1950);
}

#[test]
fn left_aligned_text_that_fits_is_drawn_whole() {
    let glyphs = vec![
        ShapedGlyph::new(11, 600, 10, 5, -3),
        ShapedGlyph::new(12, 650, 0, 0, 0),
    ];
    let mut cursor = Cursor::new(100, 50);
    let out = layout_left_aligned(&glyphs, &mut cursor, 2600, 17, 800);
    assert_eq!(out, vec![at(11, 110, 44), at(12, 1300, 70)]);
    assert_eq!(cursor, Cursor { x: 2600, y: 70 });
}

#[test]
fn text_that_overshoots_is_cut_and_closed_with_an_ellipsis() {
    let glyphs = vec![glyph(11, 600), glyph(12, 650), glyph(13, 700)];
    let mut cursor = Cursor::new(0, 7);
    let out = layout_left_aligned(&glyphs, &mut cursor, 3000, 17, 800);
    assert_eq!(out, vec![at(11, 0, 7), at(17, 1200, 7)]);
    assert_eq!(cursor, Cursor { x: 1200, y: 7 });
    // Neither the glyph that stayed nor the ellipsis reaches beyond 3000.
    assert!(1200 + 2 * 800 <= 3000);
}

#[test]
fn a_span_narrower_than_the_ellipsis_still_gets_the_ellipsis() {
    let glyphs = vec![glyph(11, 600)];
    let mut cursor = Cursor::new(0, 0);
    let out = layout_left_aligned(&glyphs, &mut cursor, 100, 17, 800);
    assert_eq!(out, vec![at(17, 0, 0)]);
    assert_eq!(cursor, Cursor { x: 0, y: 0 });
}

#[test]
fn an_empty_run_past_the_limit_is_only_an_ellipsis() {
    let mut cursor = Cursor::new(10, 0);
    let out = layout_left_aligned(&vec![], &mut cursor, 5, 17, 800);
    assert_eq!(out, vec![at(17, 10, 0)]);
}

#[test]
fn right_aligned_text_ends_at_the_cursor() {
    let glyphs = vec![
        ShapedGlyph::new(11, 600, 0, 0, 0),
        ShapedGlyph::new(12, 650, 4, 3, 1),
    ];
    let mut cursor = Cursor::new(5000, 100);
    let out = layout_right_aligned(&glyphs, &mut cursor);
    assert_eq!(out, vec![at(12, 3706, 94), at(11, 2500, 92)]);
    assert_eq!(cursor, Cursor { x: 2500, y: 92 });
}

#[test]
fn centered_text_is_placed_around_the_cursor() {
    let glyphs = vec![glyph(11, 600)];
    let mut cursor = Cursor::new(5000, 0);
    let out = layout_centered(&glyphs, &mut cursor, 0, 10000, 17, 800);
    assert_eq!(out, vec![at(11, 4400, 0)]);
    assert_eq!(cursor.x, 5600);
}

#[test]
fn centered_text_is_pulled_back_inside_its_span() {
    let glyphs = vec![glyph(11, 600)];
    // Too far to the right: the text ends at the right edge.
    let mut cursor = Cursor::new(9900, 0);
    let out = layout_centered(&glyphs, &mut cursor, 0, 10000, 17, 800);
    assert_eq!(out, vec![at(11, 8800, 0)]);
    // Too far to the left: the text starts at the left edge.
    let mut cursor = Cursor::new(100, 0);
    let out = layout_centered(&glyphs, &mut cursor, 0, 10000, 17, 800);
    assert_eq!(out, vec![at(11, 0, 0)]);
}

#[test]
fn centered_text_as_wide_as_its_span_has_no_ellipsis() {
    let glyphs = vec![glyph(11, 600), glyph(12, 650)];
    let mut cursor = Cursor::new(1250, 0);
    let out = layout_centered(&glyphs, &mut cursor, 0, 2500, 17, 800);
    assert_eq!(out, vec![at(11, 0, 0), at(12, 1200, 0)]);
}

#[test]
fn centered_text_wider_than_its_span_starts_left_and_is_cut() {
    let glyphs = vec![glyph(11, 600), glyph(12, 650), glyph(13, 700)];
    let mut cursor = Cursor::new(1500, 0);
    let out = layout_centered(&glyphs, &mut cursor, 0, 3000, 17, 800);
    assert_eq!(out, vec![at(11, 0, 0), at(17, 1200, 0)]);
}

#[test]
fn tabular_numbers_give_every_digit_the_same_cell() {
    let digits = [1, 2, 3, 4, 5, 6, 7, 8, 9, 10];
    let glyphs = vec![glyph(2, 300), glyph(16, 200), glyph(3, 420)];
    let mut cursor = Cursor::new(10000, 0);
    let out = layout_tabular_numbers(&glyphs, &mut cursor, &digits, 490);
    assert_eq!(out, vec![at(3, 9090, 0), at(16, 8620, 0), at(2, 7830, 0)]);
    assert_eq!(cursor.x, 7640);
    // Both digits moved the pen by twice the width of the cell.
    assert_eq!(10000 - 9020, 2 * 490);
    assert_eq!(8620 - 7640, 2 * 490);
}

#[test]
fn numbers_are_measured_in_cells() {
    let font = font();
    let scaled = font.scale(DEFAULT_TEXT_SIZE);
    assert_eq!(measure_numbers(scaled, " 1:23 "), 3 * 980 + 400);
    assert_eq!(measure_text(scaled, " AB "), 2500);
    assert_eq!(measure_text(scaled, ""), 0);
}

#[test]
fn text_is_trimmed_before_it_is_laid_out() {
    let font = font();
    let scaled = font.scale(DEFAULT_TEXT_SIZE);
    let (glyphs, end) = render_text_ellipsis(scaled, "  AB\t", Cursor::new(0, 0), 100_000);
    assert_eq!(glyphs, vec![at(11, 0, 0), at(12, 1200, 0)]);
    assert_eq!(end.x, 2500);

    let (glyphs, end) = render_text_ellipsis(scaled, "ABC", Cursor::new(0, 0), 3000);
    assert_eq!(glyphs, vec![at(11, 0, 0), at(17, 1200, 0)]);
    assert_eq!(end.x, 1200);

    let (glyphs, start) = render_text_right_align(scaled, "AB ", Cursor::new(2500, 0));
    assert_eq!(glyphs, vec![at(12, 1200, 0), at(11, 0, 0)]);
    assert_eq!(start.x, 0);

    let (glyphs, _) = render_text_centered(scaled, " A", 0, 10000, Cursor::new(5000, 0));
    assert_eq!(glyphs, vec![at(11, 4400, 0)]);

    let (glyphs, _) = render_text_align(scaled, "A", 0, 10000, Cursor::new(5000, 0), true);
    assert_eq!(glyphs, vec![at(11, 4400, 0)]);
    let (glyphs, _) = render_text_align(scaled, "A", 0, 10000, Cursor::new(5000, 0), false);
    assert_eq!(glyphs, vec![at(11, 5000, 0)]);

    let (glyphs, start) = render_numbers(scaled, "12", Cursor::new(10000, 0));
    assert_eq!(glyphs, vec![at(3, 9090, 0), at(2, 8230, 0)]);
    assert_eq!(start.x, 8040);
    let (timer, timer_start) = render_timer(scaled, "12", Cursor::new(10000, 0));
    assert_eq!(timer, glyphs);
    assert_eq!(timer_start, start);
}

#[test]
fn the_longest_abbreviation_that_fits_is_chosen() {
    assert_eq!(pick_abbreviation(&vec![160, 130, 40], 200), Some(0));
    assert_eq!(pick_abbreviation(&vec![160, 130, 40], 150), Some(1));
    assert_eq!(pick_abbreviation(&vec![160, 130, 40], 50), Some(2));
    // Nothing fits: the longest of all, for the caller to cut short.
    assert_eq!(pick_abbreviation(&vec![160, 130, 40], 30), Some(0));
    // The order does not matter, and the first of two equals wins.
    assert_eq!(pick_abbreviation(&vec![40, 130, 130], 150), Some(1));
    assert_eq!(pick_abbreviation(&vec![40, 160, 160], 30), Some(1));
    assert_eq!(pick_abbreviation(&vec![130, 40, 160, 130], 150), Some(0));
    assert_eq!(pick_abbreviation(&vec![], 30), None);
}

#[test]
fn a_candidate_that_takes_no_room_is_chosen_where_it_alone_fits() {
    // An empty text fits and the key does not: the empty text is chosen.
    assert_eq!(pick_abbreviation(&vec![0, 100], 50), Some(0));
    assert_eq!(pick_abbreviation(&vec![100, 0], 50), Some(1));
    assert_eq!(pick_abbreviation(&vec![100, 0, 0], 50), Some(1));
    // Widths below nothing are widths like any other.
    assert_eq!(pick_abbreviation(&vec![100, -20, -10], 50), Some(2));
    assert_eq!(pick_abbreviation(&vec![-20, -30], -25), Some(1));
    assert_eq!(pick_abbreviation(&vec![-20, -30], -40), Some(0));
}

#[test]
fn abbreviations_are_measured_with_the_font() {
    let font = font();
    let scaled = font.scale(DEFAULT_TEXT_SIZE);
    let texts = vec![String::from("ABC"), String::from("AB"), String::from("A")];
    assert_eq!(choose_abbreviation(scaled, &texts, 4000), Some(0));
    assert_eq!(choose_abbreviation(scaled, &texts, 3000), Some(1));
    assert_eq!(choose_abbreviation(scaled, &texts, 1200), Some(2));
    assert_eq!(choose_abbreviation(scaled, &texts, 1000), Some(0));
}

#[test]
fn lengths_are_converted_between_steps_and_font_units() {
    let font = font();
    let scaled = font.scale(DEFAULT_TEXT_SIZE);
    // One row of text size is one face height: 96 steps are 1000 units.
    assert_eq!(scaled.half_units(96), 2000);
    assert_eq!(scaled.half_units(42), 875);
    assert_eq!(scaled.half_units(-36), -750);
    assert_eq!(scaled.half_units(1), 20);
    assert_eq!(scaled.half_units(-1), -20);
    assert_eq!(scaled.carry_over(1234, &font), 1234);
}

#[test]
fn a_key_and_its_value_share_a_row() {
    let font = font();
    let key = String::from("ABC");
    let abbreviations = vec![String::from("AB"), String::from("A")];
    // 720 steps wide: the value ends at 678 steps, 14125 half units.
    let layout =
        render_key_value_component(&font, &font, &key, &abbreviations, "12", 720, 120, false);
    assert_eq!(layout.value, vec![at(3, 13215, 1750), at(2, 12355, 1750)]);
    assert_eq!(layout.value_start, Cursor { x: 12165, y: 1750 });
    assert_eq!(layout.choice, 0);
    assert_eq!(
        layout.key,
        vec![at(11, 875, 1750), at(12, 2075, 1750), at(13, 3375, 1750)]
    );
    assert_eq!(layout.key_end.x, 4775);
}

#[test]
fn a_key_gives_way_to_its_value() {
    let font = font();
    let key = String::from("ABC");
    let abbreviations = vec![String::from("AB"), String::from("A")];
    // 240 steps wide: the value ends at 198 steps, 4125 half units, and
    // starts at 2165. That leaves 2165 - 1750 = 415 for the key: nothing
    // fits, so the key is written in full and cut short.
    let layout =
        render_key_value_component(&font, &font, &key, &abbreviations, "12", 240, 120, false);
    assert_eq!(layout.value_start.x, 2165);
    assert_eq!(layout.choice, 0);
    assert_eq!(layout.key, vec![at(17, 875, 1750)]);
    // With a row of its own the key has the whole width: 5000 - 1750.
    let layout =
        render_key_value_component(&font, &font, &key, &abbreviations, "12", 240, 216, true);
    assert_eq!(layout.choice, 1);
    assert_eq!(layout.key, vec![at(11, 875, 1750), at(12, 2075, 1750)]);
}

#[test]
fn glyphs_are_built_once_and_keep_their_slot() {
    let mut cache: GlyphCache<String> = GlyphCache::new();
    assert_eq!(cache.len(), 0);
    assert_eq!(cache.lookup(7), None);
    let first = cache.lookup_or_insert(7, &build_path);
    let second = cache.lookup_or_insert(9, &build_path);
    assert_eq!((first, second), (0, 1));
    let refused = |_: u32| -> Vec<(Option<Color>, String)> { panic!("built twice") };
    assert_eq!(cache.lookup_or_insert(7, &refused), 0);
    assert_eq!(cache.lookup_or_insert(9, &refused), 1);
    assert_eq!(cache.lookup(9), Some(1));
    assert_eq!(cache.len(), 2);
    assert_eq!(cache.layers(0), &vec![(None, String::from("glyph 7"))]);
    assert_eq!(cache.layers(1), &vec![(None, String::from("glyph 9"))]);
}

#[test]
fn clearing_the_cache_hands_out_every_path_once() {
    let mut cache: GlyphCache<String> = GlyphCache::new();
    let two_layers = |glyph: u32| {
        vec![
            (None, format!("{} a", glyph)),
            (Some(color(0)), format!("{} b", glyph)),
        ]
    };
    cache.lookup_or_insert(1, &two_layers);
    cache.lookup_or_insert(2, &two_layers);
    let freed = cache.clear();
    assert_eq!(freed, vec!["2 b", "2 a", "1 b", "1 a"]);
    assert_eq!(cache.len(), 0);
    assert_eq!(cache.lookup(1), None);
    assert!(cache.clear().is_empty());
    assert_eq!(cache.lookup_or_insert(2, &two_layers), 0);
}

#[test]
fn a_glyph_that_is_drawn_first_is_cached_as_it_was_built() {
    let mut cache: GlyphCache<String> = GlyphCache::new();
    cache.lookup_or_insert(11, &build_path);
    let other = |glyph: u32| vec![(Some(color(glyph)), format!("other {}", glyph))];
    let layout = vec![at(12, 0, 0), at(11, 10, 0), at(13, 20, 0), at(12, 30, 0)];
    let fills = render_glyphs(&layout, Shader::SolidColor([0, 0, 0, 0]), &mut cache, &other);
    assert_eq!(
        fills.iter().map(|f| f.slot).collect::<Vec<_>>(),
        vec![1, 0, 2, 1]
    );
    // What was cached before stays; what is new holds what was built.
    assert_eq!(cache.len(), 3);
    assert_eq!(cache.layers(0), &vec![(None, String::from("glyph 11"))]);
    assert_eq!(cache.layers(1), &vec![(Some(color(12)), String::from("other 12"))]);
    assert_eq!(cache.layers(2), &vec![(Some(color(13)), String::from("other 13"))]);
    assert_eq!(cache.lookup(14), None);
    assert_eq!(fills[0].shaders, vec![Shader::SolidColor([1, 2, 3, 12])]);
    assert_eq!(fills[1].shaders, vec![Shader::SolidColor([0, 0, 0, 0])]);
}

#[test]
fn layers_with_a_tint_keep_their_tint() {
    let mut cache: GlyphCache<String> = GlyphCache::new();
    let tinted = |glyph: u32| {
        vec![
            (None, format!("{} outline", glyph)),
            (Some(color(9)), format!("{} tint", glyph)),
        ]
    };
    let shader = Shader::VerticalGradient([1, 1, 1, 1], [2, 2, 2, 2]);
    let layout = vec![at(11, 0, 0), at(12, 1200, 5), at(11, 2500, 0)];
    let fills = render_glyphs(&layout, shader, &mut cache, &tinted);
    assert_eq!(fills.len(), 3);
    assert_eq!(
        fills.iter().map(|f| (f.slot, f.x, f.y)).collect::<Vec<_>>(),
        vec![(0, 0, 0), (1, 1200, 5), (0, 2500, 0)]
    );
    for fill in &fills {
        assert_eq!(fill.shaders, vec![shader, Shader::SolidColor([1, 2, 3, 9])]);
    }
    assert_eq!(cache.len(), 2);

    // Drawing the same text again builds nothing.
    let refused = |_: u32| -> Vec<(Option<Color>, String)> { panic!("built twice") };
    let again = render_glyphs(&layout, shader, &mut cache, &refused);
    assert_eq!(again.len(), 3);
    assert_eq!(cache.len(), 2);
}

#[test]
fn gradients_become_shaders() {
    let a = Color::from_bits(1, 2, 3, 4);
    let b = Color::from_bits(5, 6, 7, 8);
    assert_eq!(decode_color(&a), [1, 2, 3, 4]);
    assert_eq!(solid(&b), Shader::SolidColor([5, 6, 7, 8]));
    assert_eq!(decode_gradient(&Gradient::Transparent), None);
    assert_eq!(
        decode_gradient(&Gradient::Plain(a)),
        Some(Shader::SolidColor([1, 2, 3, 4]))
    );
    assert_eq!(
        decode_gradient(&Gradient::Vertical(a, b)),
        Some(Shader::VerticalGradient([1, 2, 3, 4], [5, 6, 7, 8]))
    );
    assert_eq!(
        decode_gradient(&Gradient::Horizontal(a, b)),
        Some(Shader::HorizontalGradient([1, 2, 3, 4], [5, 6, 7, 8]))
    );
}

#[test]
fn every_component_has_its_size() {
    let splits = |splits, display_two_rows, column_labels| ComponentState::Splits {
        splits,
        display_two_rows,
        column_labels,
    };
    let text = |display_two_rows| {
        ComponentState::Text(livesplit_core::component::text::State {
            background: Gradient::Transparent,
            display_two_rows,
            left_center_color: None,
            right_color: None,
            text: livesplit_core::component::text::Text::Center(String::new()),
        })
    };
    let cases = [
        (ComponentState::BlankSpace { size: 24 }, 120, 120),
        (ComponentState::BlankSpace { size: 7 }, 35, 35),
        (ComponentState::DetailedTimer, 840, 300),
        (ComponentState::Graph(graph_state(vec![false], false)), 840, 400),
        (ComponentState::KeyValue(key_value_state(false)), 720, 120),
        (ComponentState::KeyValue(key_value_state(true)), 720, 216),
        (ComponentState::Separator, 12, 12),
        (splits(0, false, false), 0, 0),
        (splits(3, false, false), 2700, 360),
        (splits(3, true, false), 2700, 648),
        (splits(3, false, true), 2700, 480),
        (splits(3, true, true), 2700, 768),
        (text(false), 720, 120),
        (text(true), 720, 216),
        (ComponentState::Timer { height: 60 }, 990, 300),
        (ComponentState::Title, 960, 216),
    ];
    for (component, width, height) in &cases {
        assert_eq!(component_width(component), *width);
        assert_eq!(component_height(component), *height);
        // The same state always has the same size.
        assert_eq!(component_width(component), component_width(component));
        assert_eq!(component_height(component), component_height(component));
    }
}

#[test]
fn the_largest_sizes_do_not_overflow() {
    let largest = ComponentState::Splits {
        splits: u32::MAX,
        display_two_rows: true,
        column_labels: true,
    };
    assert_eq!(component_height(&largest), u32::MAX as u64 * 216 + 120);
    assert_eq!(component_width(&largest), u32::MAX as u64 * 900);
    let blank = ComponentState::BlankSpace { size: u32::MAX };
    assert_eq!(component_height(&blank), u32::MAX as u64 * 5);
}

#[test]
fn components_are_stacked_one_after_another() {
    let state = default_layout(4);
    assert_eq!(
        component_origins(&state.components, LayoutDirection::Vertical),
        vec![0, 216, 696, 996, 1116]
    );
    assert_eq!(
        component_origins(&state.components, LayoutDirection::Horizontal),
        vec![0, 960, 4560, 5550, 6270]
    );
    assert_eq!(total_extent(&state.components, LayoutDirection::Vertical), 1116);
    assert_eq!(total_extent(&state.components, LayoutDirection::Horizontal), 6270);
    assert_eq!(total_extent(&vec![], LayoutDirection::Vertical), 0);
    assert_eq!(component_origins(&vec![], LayoutDirection::Horizontal), vec![0]);
}

#[test]
fn the_surface_follows_the_shape_of_the_layout() {
    let mut cached = None;
    // The first frame only remembers.
    assert_eq!(
        update_cached_size(&mut cached, LayoutDirection::Vertical, 1116),
        None
    );
    assert_eq!(cached, Some(CachedSize::Vertical(1116)));
    // The same shape again: nothing.
    assert_eq!(
        update_cached_size(&mut cached, LayoutDirection::Vertical, 1116),
        None
    );
    // Another height: the surface is scaled.
    assert_eq!(
        update_cached_size(&mut cached, LayoutDirection::Vertical, 996),
        Some(Resize::Height {
            from: 1116,
            to: 996
        })
    );
    assert_eq!(cached, Some(CachedSize::Vertical(996)));
    // Another direction.
    assert_eq!(
        update_cached_size(&mut cached, LayoutDirection::Horizontal, 6270),
        Some(Resize::ToHorizontal {
            height_before: 996,
            width: 6270
        })
    );
    assert_eq!(cached, Some(CachedSize::Horizontal(6270)));
    assert_eq!(
        update_cached_size(&mut cached, LayoutDirection::Horizontal, 6270),
        None
    );
    assert_eq!(
        update_cached_size(&mut cached, LayoutDirection::Horizontal, 5550),
        Some(Resize::Width {
            from: 6270,
            to: 5550
        })
    );
    assert_eq!(
        update_cached_size(&mut cached, LayoutDirection::Vertical, 1116),
        Some(Resize::ToVertical { height: 1116 })
    );
    assert_eq!(cached, Some(CachedSize::Vertical(1116)));
}

#[test]
fn a_changed_font_empties_its_glyph_cache() {
    let data = test_font();
    let mut renderer: Renderer<String, ()> = Renderer::new(&data, &data).unwrap();
    let mut state = default_layout(4);
    renderer.render(&state, &no_font);
    renderer.text.glyph_cache.lookup_or_insert(11, &build_path);
    renderer.text.glyph_cache.lookup_or_insert(12, &build_path);
    renderer.times.glyph_cache.lookup_or_insert(3, &build_path);

    // An unchanged layout keeps everything.
    let frame = renderer.render(&state, &no_font);
    assert!(frame.freed.is_empty());
    assert_eq!(renderer.text.glyph_cache.len(), 2);
    assert_eq!(renderer.times.glyph_cache.len(), 1);

    // A new font for text: its glyphs go, those of the times font stay.
    let asked = FontSetting {
        family: String::from("Some Family"),
        style: FontStyle::Italic,
        weight: FontWeight::Light,
        stretch: FontStretch::Condensed,
    };
    state.text_font = Some(asked.duplicate());
    let load = |setting: &FontSetting| {
        Font::from_slice(&test_font(), 0, setting.style, setting.weight, setting.stretch)
    };
    let frame = renderer.render(&state, &load);
    assert_eq!(frame.freed, vec!["glyph 12", "glyph 11"]);
    assert_eq!(renderer.text.glyph_cache.len(), 0);
    assert_eq!(renderer.times.glyph_cache.len(), 1);
    assert!(renderer.text.setting.as_ref().unwrap().is_same(&asked));
    assert!(renderer.times.setting.is_none());

    // The same font again: nothing happens.
    renderer.text.glyph_cache.lookup_or_insert(11, &build_path);
    let frame = renderer.render(&state, &load);
    assert!(frame.freed.is_empty());
    assert_eq!(renderer.text.glyph_cache.len(), 1);

    // Back to the built-in font, which is also what a font that cannot be
    // loaded falls back to.
    state.text_font = None;
    let frame = renderer.render(&state, &no_font);
    assert_eq!(frame.freed, vec!["glyph 11"]);
    assert!(renderer.text.setting.is_none());
    assert_eq!(renderer.text.font.height(), 1000);
    state.timer_font = Some(asked.duplicate());
    renderer.render(&state, &no_font);
    assert!(renderer.timer.setting.as_ref().unwrap().is_same(&asked));
    assert_eq!(renderer.timer.font.height(), 1000);
}

#[test]
fn the_unit_rectangle_is_built_once() {
    let data = test_font();
    let mut renderer: Renderer<String, ()> = Renderer::new(&data, &data).unwrap();
    assert_eq!(renderer.rectangle, None);
    renderer.ensure_rectangle(|| String::from("rectangle"));
    assert_eq!(renderer.rectangle.as_deref(), Some("rectangle"));
    renderer.ensure_rectangle(|| panic!("built twice"));
    assert_eq!(renderer.rectangle.as_deref(), Some("rectangle"));
}

#[test]
fn icons_are_fitted_into_their_box() {
    // A square icon in a wide box is as high as the box and centered.
    assert_eq!(
        fit_icon(300, 100, 64, 64),
        IconBox {
            x: 12800,
            y: 0,
            width: 12800,
            height: 12800,
            denominator: 128
        }
    );
    // A wide icon in a square box is as wide as the box and centered.
    assert_eq!(
        fit_icon(100, 100, 200, 50),
        IconBox {
            x: 0,
            y: 15000,
            width: 40000,
            height: 10000,
            denominator: 400
        }
    );
    // An icon of the shape of the box fills the box.
    assert_eq!(
        fit_icon(200, 100, 64, 32),
        IconBox {
            x: 0,
            y: 0,
            width: 200,
            height: 100,
            denominator: 1
        }
    );
    assert_eq!(
        fit_icon(0, 0, 0, 0),
        IconBox {
            x: 0,
            y: 0,
            width: 0,
            height: 0,
            denominator: 1
        }
    );
}

/// A PNG of two pixels by one: a red pixel and a half transparent blue one.
const TWO_PIXELS: [u8; 71] = [
    0x89, 0x50, 0x4E, 0x47, 0x0D, 0x0A, 0x1A, 0x0A, 0x00, 0x00, 0x00, 0x0D, 0x49, 0x48, 0x44, 0x52,
    0x00, 0x00, 0x00, 0x02, 0x00, 0x00, 0x00, 0x01, 0x08, 0x06, 0x00, 0x00, 0x00, 0xF4, 0x22, 0x7F,
    0x8A, 0x00, 0x00, 0x00, 0x0E, 0x49, 0x44, 0x41, 0x54, 0x78, 0xDA, 0x63, 0xF8, 0xCF, 0xC0, 0x00,
    0x42, 0x0D, 0x00, 0x0F, 0x7A, 0x03, 0x7E, 0x6A, 0x81, 0x31, 0xE1, 0x00, 0x00, 0x00, 0x00, 0x49,
    0x45, 0x4E, 0x44, 0xAE, 0x42, 0x60, 0x82,
];

#[test]
fn icons_are_decoded_into_textures() {
    let icon = create_icon(&TWO_PIXELS, |width, height, pixels| (width, height, pixels)).unwrap();
    assert_eq!((icon.width, icon.height), (2, 1));
    assert_eq!(icon.texture, (2, 1, vec![255, 0, 0, 255, 0, 0, 255, 128]));
}

#[test]
fn an_icon_is_made_of_what_was_decoded() {
    let icon = icon_of(Some((3, 2, vec![7; 24])), |width, height, pixels: Vec<u8>| {
        (width * 10 + height, pixels.len())
    })
    .unwrap();
    assert_eq!((icon.width, icon.height), (3, 2));
    assert_eq!(icon.texture, (32, 24));
    let refused = |_: u32, _: u32, _: Vec<u8>| -> () { panic!("no image to upload") };
    assert!(icon_of(None, refused).is_none());
}

#[test]
fn broken_icons_are_dropped() {
    let refused = |_: u32, _: u32, _: Vec<u8>| -> () { panic!("no image to upload") };
    assert!(create_icon(&[], refused).is_none());
    assert!(create_icon(b"not an image", refused).is_none());
}

#[test]
fn a_graph_is_drawn_back_to_front() {
    let draws = render_graph(&graph_state(vec![false, true, false], false));
    let expected = vec![
        (Shape::TopBackground, 10),
        (Shape::BottomBackground, 11),
        (Shape::HorizontalGridLine(0), 12),
        (Shape::VerticalGridLine(0), 12),
        (Shape::VerticalGridLine(1), 12),
        (Shape::CompleteFill(3), 15),
        (Shape::Line(0, 1), 16),
        (Shape::Line(1, 2), 13),
        (Shape::Circle(1), 16),
        (Shape::Circle(2), 13),
    ];
    assert_eq!(
        draws,
        expected
            .into_iter()
            .map(|(shape, alpha)| Draw {
                shape,
                color: color(alpha)
            })
            .collect::<Vec<_>>()
    );
}

#[test]
fn the_live_delta_is_filled_apart_and_has_no_circle() {
    let draws = render_graph(&graph_state(vec![false, false, true], true));
    let shapes: Vec<Shape> = draws.iter().map(|d| d.shape).collect();
    assert_eq!(
        shapes,
        vec![
            Shape::TopBackground,
            Shape::BottomBackground,
            Shape::HorizontalGridLine(0),
            Shape::VerticalGridLine(0),
            Shape::VerticalGridLine(1),
            Shape::PartialFill(1, 2),
            Shape::CompleteFill(2),
            Shape::Line(0, 1),
            Shape::Line(1, 2),
            Shape::Circle(1),
        ]
    );
    assert_eq!(draws[5].color, color(14));
    assert_eq!(draws[8].color, color(16));
}

#[test]
fn a_graph_without_its_points_shows_its_grid_only() {
    let grid = vec![
        Shape::TopBackground,
        Shape::BottomBackground,
        Shape::HorizontalGridLine(0),
        Shape::VerticalGridLine(0),
        Shape::VerticalGridLine(1),
    ];
    for state in [
        graph_state(vec![], false),
        graph_state(vec![], true),
        graph_state(vec![true], true),
    ] {
        let shapes: Vec<Shape> = render_graph(&state).iter().map(|d| d.shape).collect();
        assert_eq!(shapes, grid);
    }
}

#[test]
fn every_path_of_a_graph_is_built_used_and_released_in_turn() {
    let draws = render_graph(&graph_state(vec![false, false, true], true));
    let steps = path_steps(&draws);
    assert_eq!(
        steps,
        vec![
            Step::Rectangle(Shape::TopBackground, color(10)),
            Step::Rectangle(Shape::BottomBackground, color(11)),
            Step::Rectangle(Shape::HorizontalGridLine(0), color(12)),
            Step::Rectangle(Shape::VerticalGridLine(0), color(12)),
            Step::Rectangle(Shape::VerticalGridLine(1), color(12)),
            Step::Build(Shape::PartialFill(1, 2)),
            Step::Fill(color(14)),
            Step::Free,
            Step::Build(Shape::CompleteFill(2)),
            Step::Fill(color(15)),
            Step::Free,
            Step::Build(Shape::Line(0, 1)),
            Step::Stroke(color(13)),
            Step::Free,
            Step::Build(Shape::Line(1, 2)),
            Step::Stroke(color(16)),
            Step::Free,
            Step::Build(Shape::Circle(1)),
            Step::Fill(color(13)),
            Step::Free,
        ]
    );
    // As many paths are released as are built, and never two in a row.
    let mut alive = false;
    for step in &steps {
        match step {
            Step::Build(_) => {
                assert!(!alive);
                alive = true;
            }
            Step::Fill(_) | Step::Stroke(_) => assert!(alive),
            Step::Free => {
                assert!(alive);
                alive = false;
            }
            Step::Rectangle(_, _) => {}
        }
    }
    assert!(!alive);
    assert!(path_steps(&vec![]).is_empty());
}

#[test]
fn a_graph_of_one_point_has_no_lines() {
    let draws = render_graph(&graph_state(vec![true], false));
    let shapes: Vec<Shape> = draws.iter().map(|d| d.shape).collect();
    assert_eq!(
        shapes,
        vec![
            Shape::TopBackground,
            Shape::BottomBackground,
            Shape::HorizontalGridLine(0),
            Shape::VerticalGridLine(0),
            Shape::VerticalGridLine(1),
            Shape::CompleteFill(1),
        ]
    );
}
