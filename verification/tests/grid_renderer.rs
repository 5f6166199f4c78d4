use std::sync::Arc;

use grid_renderer::canvas::{
    BlendKind, ColorSpec, DashPattern, DrawCommand, PaintSpec, PixelRect, Point, RecordingCanvas,
};
use grid_renderer::dimensions::Dimensions;
use grid_renderer::renderer::{FontMetrics, GridRenderer, RendererSettings};
use grid_renderer::style::{Color, Colors, Style, UnderlineVariant};

fn red() -> Color {
    Color { r: 200, g: 10, b: 10, a: 255 }
}

fn black() -> Color {
    Color { r: 0, g: 0, b: 0, a: 255 }
}

fn grey() -> Color {
    Color { r: 128, g: 128, b: 128, a: 255 }
}

fn white() -> Color {
    Color { r: 255, g: 255, b: 255, a: 255 }
}

fn metrics_10x20() -> FontMetrics {
    FontMetrics {
        em_size_milli: 14000,
        cell_dimensions: Dimensions { width: 10, height: 20 },
        underline_position_milli: 2000,
        y_adjustment_milli: 3000,
    }
}

fn settings_plain() -> RendererSettings {
    RendererSettings { debug_renderer: false, underline_stroke_scale_milli: 1000 }
}

fn renderer_plain() -> GridRenderer {
    GridRenderer::new(1000, settings_plain(), metrics_10x20())
}

fn style_plain() -> Style {
    Style {
        colors: Colors { foreground: None, background: None, special: None },
        blend: 0,
        underline: None,
        strikethrough: false,
    }
}

fn solid_paint(c: Color) -> PaintSpec {
    PaintSpec {
        color: ColorSpec::Solid { color: c },
        alpha_override_pct: None,
        blend: BlendKind::Over,
        anti_alias: false,
    }
}

#[test]
fn background_no_style_is_no_op() {
    let r = renderer_plain();
    let mut canvas = RecordingCanvas::new();
    let info = r.draw_background(&mut canvas, (3, 4), 2, &None);
    assert!(!info.custom_color);
    assert!(!info.transparent);
    assert_eq!(canvas.commands.len(), 0);
}

#[test]
fn background_default_color_skips_rectangle() {
    // A style that resolves to the default background exactly: no fill.
    let r = renderer_plain();
    let mut canvas = RecordingCanvas::new();
    let info = r.draw_background(&mut canvas, (0, 0), 1, &Some(Arc::new(style_plain())));
    assert!(!info.custom_color);
    assert!(!info.transparent);
    assert_eq!(canvas.commands.len(), 0);
}

#[test]
fn background_custom_color_draws_one_rectangle() {
    let r = renderer_plain();
    let mut canvas = RecordingCanvas::new();
    let style = Style { colors: Colors { foreground: None, background: Some(red()), special: None }, ..style_plain() };
    let info = r.draw_background(&mut canvas, (2, 3), 4, &Some(Arc::new(style)));
    assert!(info.custom_color);
    assert!(!info.transparent);
    assert_eq!(
        canvas.commands,
        vec![DrawCommand::FillRect {
            region: PixelRect { left: 20, top: 60, right: 60, bottom: 80 },
            paint: PaintSpec {
                color: ColorSpec::Solid { color: red() },
                alpha_override_pct: Some(100),
                blend: BlendKind::Replace,
                anti_alias: false,
            },
        }]
    );
}

#[test]
fn background_blend_reports_transparent_and_half_alpha() {
    let r = renderer_plain();
    let mut canvas = RecordingCanvas::new();
    let style = Style { colors: Colors { foreground: None, background: Some(red()), special: None }, blend: 50, ..style_plain() };
    let info = r.draw_background(&mut canvas, (0, 0), 1, &Some(Arc::new(style)));
    assert!(info.custom_color);
    assert!(info.transparent);
    assert_eq!(canvas.commands.len(), 1);
    match &canvas.commands[0] {
        DrawCommand::FillRect { region, paint } => {
            assert_eq!(*region, PixelRect { left: 0, top: 0, right: 10, bottom: 20 });
            assert_eq!(paint.alpha_override_pct, Some(50));
        }
        other => panic!("expected a fill, got {other:?}"),
    }
}

#[test]
fn background_blend_with_default_color_still_transparent() {
    // Blending alone changes the effective paint, so the rectangle is
    // drawn even though the color channels match the default.
    let r = renderer_plain();
    let mut canvas = RecordingCanvas::new();
    let style = Style { blend: 30, ..style_plain() };
    let info = r.draw_background(&mut canvas, (0, 0), 1, &Some(Arc::new(style)));
    assert!(info.custom_color);
    assert!(info.transparent);
    assert_eq!(canvas.commands.len(), 1);
}

#[test]
fn background_debug_paints_random_muted_color() {
    let settings = RendererSettings { debug_renderer: true, underline_stroke_scale_milli: 1000 };
    let r = GridRenderer::new(1000, settings, metrics_10x20());
    let mut canvas = RecordingCanvas::new();
    let info = r.draw_background(&mut canvas, (0, 0), 1, &None);
    assert!(info.custom_color);
    assert!(!info.transparent);
    assert_eq!(canvas.commands.len(), 1);
    match &canvas.commands[0] {
        DrawCommand::FillRect { paint, .. } => match paint.color {
            ColorSpec::RandomHsv { hue_milli, saturation_pct, value_pct } => {
                assert!(hue_milli < 360000);
                assert_eq!(saturation_pct, 30);
                assert_eq!(value_pct, 30);
            }
            ref other => panic!("expected a random debug color, got {other:?}"),
        },
        other => panic!("expected a fill, got {other:?}"),
    }
}

#[test]
fn foreground_clip_region_spans_widened_columns() {
    let r = renderer_plain();
    let mut canvas = RecordingCanvas::new();
    r.draw_foreground(&mut canvas, "x", (5, 3), 2, &None);
    assert_eq!(
        canvas.commands[1],
        DrawCommand::ClipRect { region: PixelRect { left: 40, top: 60, right: 80, bottom: 80 } }
    );
}

#[test]
fn foreground_clip_region_clamps_at_left_edge() {
    let r = renderer_plain();
    let mut canvas = RecordingCanvas::new();
    r.draw_foreground(&mut canvas, "x", (0, 0), 1, &None);
    assert_eq!(
        canvas.commands[1],
        DrawCommand::ClipRect { region: PixelRect { left: 0, top: 0, right: 30, bottom: 20 } }
    );
}

#[test]
fn foreground_trims_whitespace_and_shifts_origin() {
    let r = renderer_plain();
    let mut canvas = RecordingCanvas::new();
    let drawn = r.draw_foreground(&mut canvas, "  hi ", (0, 0), 5, &None);
    assert!(drawn);
    assert_eq!(canvas.commands.len(), 4);
    assert_eq!(canvas.commands[0], DrawCommand::Save);
    match &canvas.commands[2] {
        DrawCommand::TextRun { text, origin, paint } => {
            assert_eq!(text, "hi");
            // Two leading spaces shift the run right by two cell widths.
            assert_eq!(*origin, Point { x: 20000, y: 3000 });
            assert_eq!(*paint, solid_paint(white()));
        }
        other => panic!("expected a glyph run, got {other:?}"),
    }
    assert_eq!(canvas.commands[3], DrawCommand::Restore);
}

#[test]
fn foreground_whitespace_only_draws_nothing() {
    let r = renderer_plain();
    let mut canvas = RecordingCanvas::new();
    let drawn = r.draw_foreground(&mut canvas, "   ", (0, 0), 3, &None);
    assert!(!drawn);
    assert_eq!(canvas.commands.len(), 3);
    assert_eq!(canvas.commands[0], DrawCommand::Save);
    assert_eq!(canvas.commands[2], DrawCommand::Restore);
}

#[test]
fn foreground_strikethrough_centers_on_clip_region() {
    let r = renderer_plain();
    let mut canvas = RecordingCanvas::new();
    let style = Style { strikethrough: true, ..style_plain() };
    let drawn = r.draw_foreground(&mut canvas, "", (0, 0), 1, &Some(Arc::new(style)));
    assert!(drawn);
    // Save, clip, strikethrough line, restore: nothing else.
    assert_eq!(canvas.commands.len(), 4);
    assert_eq!(
        canvas.commands[2],
        DrawCommand::Line {
            p1: Point { x: 0, y: 10000 },
            p2: Point { x: 10000, y: 10000 },
            paint: solid_paint(grey()),
            stroke_width: 0,
            dash: None,
        }
    );
}

fn underline_commands(variant: UnderlineVariant) -> Vec<DrawCommand> {
    let r = renderer_plain();
    let mut canvas = RecordingCanvas::new();
    let style = Style { underline: Some(variant), ..style_plain() };
    let drawn = r.draw_foreground(&mut canvas, "", (0, 0), 1, &Some(Arc::new(style)));
    assert!(drawn);
    assert_eq!(canvas.commands[0], DrawCommand::Save);
    // The trailing save, clip and restore follow the underline block.
    let tail = canvas.commands.len() - 3;
    assert_eq!(canvas.commands[tail - 1], DrawCommand::Restore);
    canvas.commands[1..tail - 1].to_vec()
}

fn underline_paint(anti_alias: bool) -> PaintSpec {
    PaintSpec { anti_alias, ..solid_paint(grey()) }
}

#[test]
fn underline_single_draws_one_line() {
    // Baseline: bottom of row 0 at 20 px, raised by the 2 px underline
    // offset; stroke 14 pt * 1.0 / 10 = 1.4 px.
    let cmds = underline_commands(UnderlineVariant::Underline);
    assert_eq!(
        cmds,
        vec![DrawCommand::Line {
            p1: Point { x: 0, y: 18000 },
            p2: Point { x: 10000, y: 18000 },
            paint: underline_paint(false),
            stroke_width: 1400,
            dash: None,
        }]
    );
}

#[test]
fn underline_double_draws_two_lines_two_pixels_apart() {
    let cmds = underline_commands(UnderlineVariant::DoubleUnderline);
    assert_eq!(cmds.len(), 2);
    assert_eq!(
        cmds[0],
        DrawCommand::Line {
            p1: Point { x: 0, y: 18000 },
            p2: Point { x: 10000, y: 18000 },
            paint: underline_paint(false),
            stroke_width: 1400,
            dash: None,
        }
    );
    assert_eq!(
        cmds[1],
        DrawCommand::Line {
            p1: Point { x: 0, y: 16000 },
            p2: Point { x: 10000, y: 16000 },
            paint: underline_paint(false),
            stroke_width: 1400,
            dash: None,
        }
    );
}

#[test]
fn underline_dashed_uses_six_to_two_pattern() {
    let cmds = underline_commands(UnderlineVariant::DashedUnderline);
    assert_eq!(cmds.len(), 1);
    match &cmds[0] {
        DrawCommand::Line { dash, .. } => {
            assert_eq!(*dash, Some(DashPattern { on: 8400, off: 2800 }));
        }
        other => panic!("expected a line, got {other:?}"),
    }
}

#[test]
fn underline_dotted_uses_one_to_one_pattern() {
    let cmds = underline_commands(UnderlineVariant::DottedUnderline);
    assert_eq!(cmds.len(), 1);
    match &cmds[0] {
        DrawCommand::Line { dash, .. } => {
            assert_eq!(*dash, Some(DashPattern { on: 1400, off: 1400 }));
        }
        other => panic!("expected a line, got {other:?}"),
    }
}

#[test]
fn underline_curly_draws_alternating_quad_path() {
    let cmds = underline_commands(UnderlineVariant::CurlyUnderline);
    assert_eq!(cmds.len(), 1);
    match &cmds[0] {
        DrawCommand::QuadPath { start, segments, paint, stroke_width } => {
            // Base: 18000 - 3000 + 1400; step: half a 10 px cell.
            assert_eq!(*start, Point { x: 0, y: 16400 });
            assert_eq!(*stroke_width, 1400);
            assert_eq!(paint.anti_alias, true);
            assert_eq!(segments.len(), 2);
            assert_eq!(segments[0].control, Point { x: 2500, y: 16400 + 2800 });
            assert_eq!(segments[0].end, Point { x: 5000, y: 16400 });
            assert_eq!(segments[1].control, Point { x: 7500, y: 16400 - 2800 });
            assert_eq!(segments[1].end, Point { x: 10000, y: 16400 });
        }
        other => panic!("expected a stroked path, got {other:?}"),
    }
}

#[test]
fn underline_precedes_clip_and_combines_with_text() {
    let r = renderer_plain();
    let mut canvas = RecordingCanvas::new();
    let style = Style { underline: Some(UnderlineVariant::Underline), ..style_plain() };
    let drawn = r.draw_foreground(&mut canvas, "ab", (1, 1), 2, &Some(Arc::new(style)));
    assert!(drawn);
    // Save/line/restore for the underline, then save, clip, text, restore.
    assert_eq!(canvas.commands.len(), 7);
    assert_eq!(canvas.commands[0], DrawCommand::Save);
    assert!(matches!(canvas.commands[1], DrawCommand::Line { .. }));
    assert_eq!(canvas.commands[2], DrawCommand::Restore);
    assert_eq!(canvas.commands[3], DrawCommand::Save);
    assert!(matches!(canvas.commands[4], DrawCommand::ClipRect { .. }));
    assert!(matches!(canvas.commands[5], DrawCommand::TextRun { .. }));
    assert_eq!(canvas.commands[6], DrawCommand::Restore);
}

#[test]
fn stroke_width_never_below_one_pixel() {
    let tiny = FontMetrics { em_size_milli: 1, ..metrics_10x20() };
    let zero_scale = RendererSettings { debug_renderer: false, underline_stroke_scale_milli: 0 };
    let r = GridRenderer::new(1000, zero_scale, tiny);
    assert_eq!(r.underline_stroke_width(), 1000);
    let r2 = GridRenderer::new(1000, settings_plain(), metrics_10x20());
    assert_eq!(r2.underline_stroke_width(), 1400);
}

#[test]
fn physical_and_grid_conversions_are_elementwise() {
    let r = renderer_plain();
    let grid = r.convert_physical_to_grid(Dimensions { width: 105, height: 200 });
    assert_eq!(grid, Dimensions { width: 10, height: 10 });
    let phys = r.convert_grid_to_physical(Dimensions { width: 3, height: 2 });
    assert_eq!(phys, Dimensions { width: 30, height: 40 });
}

#[test]
fn new_renderer_uses_default_palette_and_is_not_ready() {
    let r = renderer_plain();
    assert_eq!(r.get_default_background(), black());
    assert!(!r.is_ready);
    assert_eq!(r.em_size_milli, 14000);
    assert_eq!(r.font_dimensions, Dimensions { width: 10, height: 20 });
}

#[test]
fn font_updates_replace_metrics_and_mark_ready() {
    let mut r = renderer_plain();
    let bigger = FontMetrics {
        em_size_milli: 28000,
        cell_dimensions: Dimensions { width: 20, height: 40 },
        underline_position_milli: 4000,
        y_adjustment_milli: 6000,
    };
    r.update_font(bigger);
    assert!(r.is_ready);
    assert_eq!(r.em_size_milli, 28000);
    assert_eq!(r.font_dimensions, Dimensions { width: 20, height: 40 });
    assert_eq!(r.underline_position_milli, 4000);
    assert_eq!(r.y_adjustment_milli, 6000);
    r.handle_scale_factor_update(2000, metrics_10x20());
    assert_eq!(r.scale_factor_milli, 2000);
    assert_eq!(r.font_dimensions, Dimensions { width: 10, height: 20 });
    r.update_linespace(bigger);
    assert_eq!(r.font_dimensions, Dimensions { width: 20, height: 40 });
    r.update_font_options(metrics_10x20());
    assert_eq!(r.font_dimensions, Dimensions { width: 10, height: 20 });
}

#[test]
fn foreground_resolves_explicit_colors_over_default() {
    let r = renderer_plain();
    let mut canvas = RecordingCanvas::new();
    let style = Style {
        colors: Colors { foreground: Some(red()), background: None, special: None },
        ..style_plain()
    };
    r.draw_foreground(&mut canvas, "a", (0, 0), 1, &Some(Arc::new(style)));
    match &canvas.commands[2] {
        DrawCommand::TextRun { paint, .. } => assert_eq!(*paint, solid_paint(red())),
        other => panic!("expected a glyph run, got {other:?}"),
    }
}

#[test]
fn foreground_trailing_whitespace_needs_no_shift() {
    let r = renderer_plain();
    let mut canvas = RecordingCanvas::new();
    let drawn = r.draw_foreground(&mut canvas, "ab  ", (1, 0), 4, &None);
    assert!(drawn);
    match &canvas.commands[2] {
        DrawCommand::TextRun { text, origin, .. } => {
            assert_eq!(text, "ab");
            assert_eq!(*origin, Point { x: 10000, y: 3000 });
        }
        other => panic!("expected a glyph run, got {other:?}"),
    }
}

#[test]
fn foreground_empty_text_draws_nothing() {
    let r = renderer_plain();
    let mut canvas = RecordingCanvas::new();
    let drawn = r.draw_foreground(&mut canvas, "", (0, 0), 1, &None);
    assert!(!drawn);
    assert_eq!(
        canvas.commands,
        vec![
            DrawCommand::Save,
            DrawCommand::ClipRect { region: PixelRect { left: 0, top: 0, right: 30, bottom: 20 } },
            DrawCommand::Restore,
        ]
    );
}
