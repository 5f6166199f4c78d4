use vstd::prelude::*;
use vstd::string::{StrSliceExecFns, StringExecFns};

use std::sync::Arc;

use crate::canvas::{
    BlendKind, ColorSpec, DashPattern, DrawCommand, PaintSpec, PixelRect, Point, QuadSegment,
    RecordingCanvas,
};
use crate::dimensions::Dimensions;
use crate::random::random_hue_milli;
use crate::style::{spec_black, spec_grey, spec_white, Color, Colors, Style, UnderlineVariant};
use crate::text::{trim_spec, trim_whitespace, ws_prefix_len};

verus! {

/// Largest grid coordinate or cell count a draw call accepts. Grid
/// positions fit in 32 bits so that every pixel and subpixel product in
/// the geometry fits comfortably in 64 bits.
pub const GRID_LIMIT: u64 = 0x1_0000_0000;

/// Largest pixel extent of one font cell.
pub const CELL_LIMIT: u64 = 0x1_0000;

/// Largest magnitude, in subpixel units, of a font metric or of the
/// underline stroke-scale setting.
pub const METRIC_LIMIT: u64 = 0x100_0000;

/// Exclusive upper bound of a debug hue, in thousandths of a degree.
pub const HUE_LIMIT: u32 = 360000;

/// The font state the external glyph shaper reports: the em size and the
/// underline and vertical-adjustment offsets in subpixel units, and the
/// extent of one grid cell in whole pixels.
#[derive(Clone, Copy, PartialEq, Eq, Structural, Debug)]
pub struct FontMetrics {
    pub em_size_milli: u64,
    pub cell_dimensions: Dimensions,
    pub underline_position_milli: i64,
    pub y_adjustment_milli: i64,
}

impl FontMetrics {
    /// Sanity bounds on what a shaper can report: cells are at least one
    /// pixel and all lengths stay far below the 64-bit range, so that
    /// region arithmetic cannot overflow.
    pub open spec fn wf(self) -> bool {
        &&& 1 <= self.cell_dimensions.width <= CELL_LIMIT
        &&& 1 <= self.cell_dimensions.height <= CELL_LIMIT
        &&& self.em_size_milli <= METRIC_LIMIT
        &&& -(METRIC_LIMIT as int) <= self.underline_position_milli <= METRIC_LIMIT as int
        &&& -(METRIC_LIMIT as int) <= self.y_adjustment_milli <= METRIC_LIMIT as int
    }
}

/// The configuration snapshot the renderer reads: whether the debug
/// visualization paints every redrawn cell in a random color, and the
/// underline stroke-scale factor in subpixel units.
#[derive(Clone, Copy, PartialEq, Eq, Structural, Debug)]
pub struct RendererSettings {
    pub debug_renderer: bool,
    pub underline_stroke_scale_milli: u64,
}

impl RendererSettings {
    pub open spec fn wf(self) -> bool {
        self.underline_stroke_scale_milli <= METRIC_LIMIT
    }
}

/// What a background draw found out about the cell, for the caller's
/// later compositing decisions.
#[derive(Clone, Copy, PartialEq, Eq, Structural, Debug)]
pub struct BackgroundInfo {
    pub custom_color: bool,
    pub transparent: bool,
}

/// Renders runs of grid cells onto a drawing surface: paints background
/// rectangles, then glyph runs with underline and strikethrough
/// decorations, as a stream of surface commands.
pub struct GridRenderer {
    pub default_style: Arc<Style>,
    pub em_size_milli: u64,
    pub font_dimensions: Dimensions,
    pub scale_factor_milli: u64,
    pub is_ready: bool,
    pub underline_position_milli: i64,
    pub y_adjustment_milli: i64,
    pub settings: RendererSettings,
}

/// The per-cell style if one was given, seen through its shared pointer.
pub open spec fn style_opt_view(style: Option<Arc<Style>>) -> Option<Style> {
    match style {
        Some(s) => Some(*s),
        None => None,
    }
}

/// Whether a paint's effective color, with its alpha override applied,
/// equals the given color exactly. The alpha override is a percentage,
/// the color's own alpha an 8-bit channel; they are compared without
/// rounding. A debug color never counts as equal.
pub open spec fn spec_paint_matches_color(paint: PaintSpec, c: Color) -> bool {
    match paint.color {
        ColorSpec::Solid { color } => {
            &&& color.r == c.r
            &&& color.g == c.g
            &&& color.b == c.b
            &&& match paint.alpha_override_pct {
                Some(p) => p * 255 == c.a * 100,
                None => color.a == c.a,
            }
        },
        ColorSpec::RandomHsv { .. } => false,
    }
}

/// Executable counterpart of `spec_paint_matches_color`.
pub fn paint_matches_color(paint: &PaintSpec, c: Color) -> (r: bool)
    ensures
        r == spec_paint_matches_color(*paint, c),
{
    match paint.color {
        ColorSpec::Solid { color } => {
            let alpha_matches: bool = match paint.alpha_override_pct {
                Some(p) => (p as u32) * 255 == (c.a as u32) * 100,
                None => color.a == c.a,
            };
            color.r == c.r && color.g == c.g && color.b == c.b && alpha_matches
        },
        ColorSpec::RandomHsv { .. } => false,
    }
}

/// Largest magnitude of a subpixel coordinate a draw call hands the
/// underline routine; the geometry it derives then stays inside `i64`.
pub const POINT_LIMIT: i64 = 0x1000_0000_0000_0000;

/// The quadratic segments of a curly underline. Starting at `i`, the
/// horizontal cursor steps right by `step` until it reaches `end_x`;
/// each step emits one segment whose control point sits at the
/// half-step, vertically offset from the baseline `base_y` by the
/// alternating amplitude `-sin`, and which ends back on the baseline.
pub open spec fn spec_curl_segments(i: int, end_x: int, base_y: int, sin: int, step: int) -> Seq<
    QuadSegment,
>
    decreases vstd::math::max(end_x - i, 0) when step > 0
{
    if i >= end_x {
        Seq::empty()
    } else {
        let flipped = -sin;
        let next = i + step;
        seq![
            (QuadSegment {
                control: Point { x: (next - step / 2) as i64, y: (base_y + flipped) as i64 },
                end: Point { x: next as i64, y: base_y as i64 },
            }),
        ] + spec_curl_segments(next, end_x, base_y, flipped, step)
    }
}

/// Grid coordinates bounded by `GRID_LIMIT` times cell extents bounded
/// by `CELL_LIMIT` stay far inside the 64-bit range.
pub(crate) proof fn lemma_grid_products_bounded(gx: int, gy: int, cw: int, w: int, h: int)
    requires
        0 <= gx <= GRID_LIMIT,
        0 <= gy <= GRID_LIMIT,
        0 <= cw <= GRID_LIMIT + 2,
        0 <= w <= CELL_LIMIT,
        0 <= h <= CELL_LIMIT,
    ensures
        0 <= gx * w <= GRID_LIMIT * CELL_LIMIT,
        0 <= gy * h <= GRID_LIMIT * CELL_LIMIT,
        0 <= cw * w <= (GRID_LIMIT + 2) * CELL_LIMIT,
        (gx + cw) * w == gx * w + cw * w,
        (gy + 1) * h == gy * h + h,
{
    assert(0 <= gx * w <= GRID_LIMIT * CELL_LIMIT) by (nonlinear_arith)
        requires
            0 <= gx <= GRID_LIMIT,
            0 <= w <= CELL_LIMIT,
    ;
    assert(0 <= gy * h <= GRID_LIMIT * CELL_LIMIT) by (nonlinear_arith)
        requires
            0 <= gy <= GRID_LIMIT,
            0 <= h <= CELL_LIMIT,
    ;
    assert(0 <= cw * w <= (GRID_LIMIT + 2) * CELL_LIMIT) by (nonlinear_arith)
        requires
            0 <= cw <= GRID_LIMIT + 2,
            0 <= w <= CELL_LIMIT,
    ;
    assert((gx + cw) * w == gx * w + cw * w) by (nonlinear_arith);
    assert((gy + 1) * h == gy * h + h) by (nonlinear_arith);
}

impl GridRenderer {
    /// The renderer's invariant: a complete, opaque default palette and
    /// font state within the metric bounds.
    pub open spec fn wf(self) -> bool {
        &&& (*self.default_style).colors.complete()
        &&& (*self.default_style).wf()
        &&& 1 <= self.font_dimensions.width <= CELL_LIMIT
        &&& 1 <= self.font_dimensions.height <= CELL_LIMIT
        &&& self.em_size_milli <= METRIC_LIMIT
        &&& -(METRIC_LIMIT as int) <= self.underline_position_milli <= METRIC_LIMIT as int
        &&& -(METRIC_LIMIT as int) <= self.y_adjustment_milli <= METRIC_LIMIT as int
        &&& self.settings.wf()
    }

    pub open spec fn spec_default_colors(self) -> Colors {
        (*self.default_style).colors
    }

    pub open spec fn spec_default_background(self) -> Color {
        (*self.default_style).colors.background.unwrap()
    }

    /// The process-wide default style: white text and grey decorations
    /// on an opaque black background, no decorations.
    pub open spec fn spec_default_style() -> Style {
        Style {
            colors: Colors {
                foreground: Some(spec_white()),
                background: Some(spec_black()),
                special: Some(spec_grey()),
            },
            blend: 0,
            underline: None,
            strikethrough: false,
        }
    }

    /// The style a draw call works with: the given one, or the default.
    pub open spec fn spec_resolved_style(self, style: Option<Style>) -> Style {
        match style {
            Some(s) => s,
            None => *self.default_style,
        }
    }

    pub fn new(scale_factor_milli: u64, settings: RendererSettings, metrics: FontMetrics) -> (r:
        GridRenderer)
        requires
            settings.wf(),
            metrics.wf(),
        ensures
            r.wf(),
            *r.default_style == Self::spec_default_style(),
            r.em_size_milli == metrics.em_size_milli,
            r.font_dimensions == metrics.cell_dimensions,
            r.underline_position_milli == metrics.underline_position_milli,
            r.y_adjustment_milli == metrics.y_adjustment_milli,
            r.scale_factor_milli == scale_factor_milli,
            r.settings == settings,
            !r.is_ready,
    {
        let default_style = Arc::new(
            Style::new(
                Colors::new(
                    Some(Color { r: 255, g: 255, b: 255, a: 255 }),
                    Some(Color { r: 0, g: 0, b: 0, a: 255 }),
                    Some(Color { r: 128, g: 128, b: 128, a: 255 }),
                ),
            ),
        );
        GridRenderer {
            default_style,
            em_size_milli: metrics.em_size_milli,
            font_dimensions: metrics.cell_dimensions,
            scale_factor_milli,
            is_ready: false,
            underline_position_milli: metrics.underline_position_milli,
            y_adjustment_milli: metrics.y_adjustment_milli,
            settings,
        }
    }

    /// Convert a pixel extent to a grid extent, elementwise.
    pub fn convert_physical_to_grid(&self, physical: Dimensions) -> (r: Dimensions)
        requires
            self.wf(),
        ensures
            r.width == physical.width / self.font_dimensions.width,
            r.height == physical.height / self.font_dimensions.height,
    {
        physical.div_elementwise(&self.font_dimensions)
    }

    /// Convert a grid extent to a pixel extent, elementwise.
    pub fn convert_grid_to_physical(&self, grid: Dimensions) -> (r: Dimensions)
        requires
            self.wf(),
            grid.width <= GRID_LIMIT,
            grid.height <= GRID_LIMIT,
        ensures
            r.width == grid.width * self.font_dimensions.width,
            r.height == grid.height * self.font_dimensions.height,
    {
        proof {
            lemma_grid_products_bounded(
                grid.width as int,
                grid.height as int,
                0,
                self.font_dimensions.width as int,
                self.font_dimensions.height as int,
            );
        }
        grid.mul_elementwise(&self.font_dimensions)
    }

    /// The state after taking over a fresh set of font metrics.
    pub open spec fn spec_with_metrics(self, metrics: FontMetrics) -> GridRenderer {
        GridRenderer {
            em_size_milli: metrics.em_size_milli,
            font_dimensions: metrics.cell_dimensions,
            underline_position_milli: metrics.underline_position_milli,
            y_adjustment_milli: metrics.y_adjustment_milli,
            is_ready: true,
            ..self
        }
    }

    /// Recompute the cached font state from what the shaper now reports,
    /// and mark the renderer ready.
    fn update_font_dimensions(&mut self, metrics: FontMetrics)
        requires
            old(self).wf(),
            metrics.wf(),
        ensures
            final(self).wf(),
            *final(self) == old(self).spec_with_metrics(metrics),
    {
        self.em_size_milli = metrics.em_size_milli;
        self.font_dimensions = metrics.cell_dimensions;
        self.underline_position_milli = metrics.underline_position_milli;
        self.y_adjustment_milli = metrics.y_adjustment_milli;
        self.is_ready = true;
    }

    /// A scale-factor change: record the new scale and the metrics the
    /// shaper derived for it.
    pub fn handle_scale_factor_update(&mut self, scale_factor_milli: u64, metrics: FontMetrics)
        requires
            old(self).wf(),
            metrics.wf(),
        ensures
            final(self).wf(),
            *final(self) == (GridRenderer {
                scale_factor_milli,
                ..old(self).spec_with_metrics(metrics)
            }),
    {
        self.scale_factor_milli = scale_factor_milli;
        self.update_font_dimensions(metrics);
    }

    /// A font-family change: take over the metrics the shaper derived
    /// for the new font.
    pub fn update_font(&mut self, metrics: FontMetrics)
        requires
            old(self).wf(),
            metrics.wf(),
        ensures
            final(self).wf(),
            *final(self) == old(self).spec_with_metrics(metrics),
    {
        self.update_font_dimensions(metrics);
    }

    /// A font-options change: take over the metrics the shaper derived
    /// for the new options.
    pub fn update_font_options(&mut self, metrics: FontMetrics)
        requires
            old(self).wf(),
            metrics.wf(),
        ensures
            final(self).wf(),
            *final(self) == old(self).spec_with_metrics(metrics),
    {
        self.update_font_dimensions(metrics);
    }

    /// A line-spacing change: take over the metrics the shaper derived
    /// for the new spacing.
    pub fn update_linespace(&mut self, metrics: FontMetrics)
        requires
            old(self).wf(),
            metrics.wf(),
        ensures
            final(self).wf(),
            *final(self) == old(self).spec_with_metrics(metrics),
    {
        self.update_font_dimensions(metrics);
    }

    /// The pixel rectangle a run of cells covers: top-left at the grid
    /// position scaled by the cell extent, `cell_width` cells wide, one
    /// cell tall.
    pub open spec fn spec_cell_region(self, grid_position: (u64, u64), cell_width: u64) -> PixelRect {
        PixelRect {
            left: (grid_position.0 * self.font_dimensions.width) as u64,
            top: (grid_position.1 * self.font_dimensions.height) as u64,
            right: ((grid_position.0 + cell_width) * self.font_dimensions.width) as u64,
            bottom: ((grid_position.1 + 1) * self.font_dimensions.height) as u64,
        }
    }

    pub fn compute_text_region(&self, grid_position: (u64, u64), cell_width: u64) -> (r: PixelRect)
        requires
            self.wf(),
            grid_position.0 <= GRID_LIMIT,
            grid_position.1 <= GRID_LIMIT,
            cell_width <= GRID_LIMIT + 2,
        ensures
            r == self.spec_cell_region(grid_position, cell_width),
    {
        proof {
            lemma_grid_products_bounded(
                grid_position.0 as int,
                grid_position.1 as int,
                cell_width as int,
                self.font_dimensions.width as int,
                self.font_dimensions.height as int,
            );
        }
        let x = grid_position.0 * self.font_dimensions.width;
        let y = grid_position.1 * self.font_dimensions.height;
        let width = cell_width * self.font_dimensions.width;
        let height = self.font_dimensions.height;
        PixelRect { left: x, top: y, right: x + width, bottom: y + height }
    }

    /// The default style's background color; the default palette is
    /// complete, so the lookup cannot fail.
    pub fn get_default_background(&self) -> (r: Color)
        requires
            self.wf(),
        ensures
            r == self.spec_default_background(),
    {
        self.default_style.colors.background.unwrap()
    }

    /// The underline stroke width in subpixel units: the em size scaled
    /// by the stroke-scale setting and a fixed divisor, and never thinner
    /// than one pixel, which would alias badly.
    pub open spec fn spec_stroke_width(self) -> int {
        let scaled = self.em_size_milli * self.settings.underline_stroke_scale_milli / 10000;
        if scaled < 1000 {
            1000
        } else {
            scaled as int
        }
    }

    pub fn underline_stroke_width(&self) -> (w: u64)
        requires
            self.wf(),
        ensures
            w == self.spec_stroke_width(),
            1000 <= w <= 0x1_0000_0000_0000,
    {
        proof {
            assert(self.em_size_milli * self.settings.underline_stroke_scale_milli
                <= METRIC_LIMIT * METRIC_LIMIT) by (nonlinear_arith)
                requires
                    self.em_size_milli <= METRIC_LIMIT,
                    self.settings.underline_stroke_scale_milli <= METRIC_LIMIT,
            ;
        }
        let scaled = self.em_size_milli * self.settings.underline_stroke_scale_milli / 10000;
        if scaled < 1000 {
            1000
        } else {
            scaled
        }
    }

    /// The paint a background draw uses: the resolved style's background
    /// color, or a muted random color in debug mode, with the alpha
    /// forced to the blend-derived opacity and composited in replace
    /// mode so repeated redraws cannot stack partial transparency.
    pub open spec fn spec_background_paint(self, st: Style, hue_milli: u32) -> PaintSpec {
        PaintSpec {
            color: if self.settings.debug_renderer {
                ColorSpec::RandomHsv { hue_milli, saturation_pct: 30, value_pct: 30 }
            } else {
                ColorSpec::Solid { color: st.spec_background(self.spec_default_colors()) }
            },
            alpha_override_pct: Some(
                (if st.blend > 0 {
                    (100 - st.blend) as u8
                } else {
                    100u8
                }),
            ),
            blend: BlendKind::Replace,
            anti_alias: false,
        }
    }

    /// What a background draw returns and appends to the canvas. With no
    /// style and debugging off it is a pure no-op; otherwise the cell's
    /// rectangle is filled exactly when the paint differs from the
    /// default background, and the cell counts as transparent exactly
    /// when the resolved style blends.
    pub open spec fn spec_draw_background(
        self,
        grid_position: (u64, u64),
        cell_width: u64,
        style: Option<Style>,
        hue_milli: u32,
    ) -> (BackgroundInfo, Seq<DrawCommand>) {
        if style is None && !self.settings.debug_renderer {
            (BackgroundInfo { custom_color: false, transparent: false }, Seq::empty())
        } else {
            let st = self.spec_resolved_style(style);
            let paint = self.spec_background_paint(st, hue_milli);
            let custom_color = !spec_paint_matches_color(paint, self.spec_default_background());
            let cmds: Seq<DrawCommand> = if custom_color {
                seq![
                    (DrawCommand::FillRect {
                        region: self.spec_cell_region(grid_position, cell_width),
                        paint,
                    }),
                ]
            } else {
                Seq::empty()
            };
            (BackgroundInfo { custom_color, transparent: st.blend > 0 }, cmds)
        }
    }

    /// Draw the background of one run of cells. Returns whether a custom
    /// color was painted and whether the cell is transparent; the caller
    /// uses both for later compositing decisions.
    pub fn draw_background(
        &self,
        canvas: &mut RecordingCanvas,
        grid_position: (u64, u64),
        cell_width: u64,
        style: &Option<Arc<Style>>,
    ) -> (info: BackgroundInfo)
        requires
            self.wf(),
            grid_position.0 <= GRID_LIMIT,
            grid_position.1 <= GRID_LIMIT,
            cell_width <= GRID_LIMIT,
            (style matches Some(s) ==> (*s).wf()),
        ensures
            exists|hue: u32|
                #![trigger self.spec_draw_background(grid_position, cell_width, style_opt_view(*style), hue)]
                {
                    &&& hue < HUE_LIMIT
                    &&& {
                        let (si, cs) = self.spec_draw_background(
                            grid_position,
                            cell_width,
                            style_opt_view(*style),
                            hue,
                        );
                        info == si && final(canvas).commands@ == old(canvas).commands@ + cs
                    }
                },
            !self.settings.debug_renderer ==> {
                let (si, cs) = self.spec_draw_background(
                    grid_position,
                    cell_width,
                    style_opt_view(*style),
                    0,
                );
                info == si && final(canvas).commands@ == old(canvas).commands@ + cs
            },
    {
        let debug = self.settings.debug_renderer;
        if style.is_none() && !debug {
            let info = BackgroundInfo { custom_color: false, transparent: false };
            proof {
                let (si, cs) = self.spec_draw_background(
                    grid_position,
                    cell_width,
                    style_opt_view(*style),
                    0,
                );
                assert(info == si && final(canvas).commands@ == old(canvas).commands@ + cs);
            }
            return info;
        }
        let region = self.compute_text_region(grid_position, cell_width);
        let st: &Style = match style {
            Some(s) => &*s,
            None => &self.default_style,
        };
        let mut hue: u32 = 0;
        let color: ColorSpec;
        if debug {
            hue = random_hue_milli();
            color = ColorSpec::RandomHsv { hue_milli: hue, saturation_pct: 30, value_pct: 30 };
        } else {
            color = ColorSpec::Solid { color: st.background(&self.default_style.colors) };
        }
        let alpha: u8 = if st.blend > 0 {
            100 - st.blend
        } else {
            100
        };
        let paint = PaintSpec {
            color,
            alpha_override_pct: Some(alpha),
            blend: BlendKind::Replace,
            anti_alias: false,
        };
        let custom_color = !paint_matches_color(&paint, self.get_default_background());
        if custom_color {
            canvas.push(DrawCommand::FillRect { region, paint });
        }
        let info = BackgroundInfo { custom_color, transparent: st.blend > 0 };
        proof {
            let (si, cs) = self.spec_draw_background(
                grid_position,
                cell_width,
                style_opt_view(*style),
                hue,
            );
            assert(paint == self.spec_background_paint(
                self.spec_resolved_style(style_opt_view(*style)),
                hue,
            ));
            assert(info == si && final(canvas).commands@ == old(canvas).commands@ + cs);
        }
        info
    }

    /// The paint every underline variant uses: the style's special color
    /// with fallback, source-over compositing, anti-aliased only for the
    /// curly variant's curved path.
    pub open spec fn spec_underline_paint(self, st: Style, curly: bool) -> PaintSpec {
        PaintSpec {
            color: ColorSpec::Solid { color: st.spec_special(self.spec_default_colors()) },
            alpha_override_pct: None,
            blend: BlendKind::Over,
            anti_alias: curly,
        }
    }

    /// The horizontal step of the curly underline: half a cell width, in
    /// subpixel units.
    pub open spec fn spec_curl_step(self) -> int {
        self.font_dimensions.width * 500
    }

    /// How many commands stand between the save and the restore of one
    /// underline draw.
    pub open spec fn spec_underline_body_len(variant: UnderlineVariant) -> int {
        match variant {
            UnderlineVariant::DoubleUnderline => 2,
            _ => 1,
        }
    }

    /// What the commands between save and restore must be for each
    /// underline variant, given the baseline endpoints `p1` and `p2`.
    pub open spec fn spec_underline_body_ok(
        self,
        st: Style,
        variant: UnderlineVariant,
        p1: Point,
        p2: Point,
        cmds: Seq<DrawCommand>,
    ) -> bool {
        let w = self.spec_stroke_width();
        let paint = self.spec_underline_paint(st, variant is CurlyUnderline);
        cmds.len() == Self::spec_underline_body_len(variant) && match variant {
            UnderlineVariant::Underline => cmds[0] == (DrawCommand::Line {
                p1,
                p2,
                paint,
                stroke_width: w as u64,
                dash: None,
            }),
            UnderlineVariant::DoubleUnderline => {
                &&& cmds[0] == (DrawCommand::Line {
                    p1,
                    p2,
                    paint,
                    stroke_width: w as u64,
                    dash: None,
                })
                &&& cmds[1] == (DrawCommand::Line {
                    p1: Point { x: p1.x, y: (p1.y - 2000) as i64 },
                    p2: Point { x: p2.x, y: (p2.y - 2000) as i64 },
                    paint,
                    stroke_width: w as u64,
                    dash: None,
                })
            },
            UnderlineVariant::CurlyUnderline => {
                let base_y = p1.y - 3000 + w;
                &&& cmds[0] matches DrawCommand::QuadPath { start, segments, paint: p, stroke_width }
                &&& cmds[0]->QuadPath_start == (Point { x: p1.x, y: base_y as i64 })
                &&& cmds[0]->QuadPath_segments@ == spec_curl_segments(
                    p1.x as int,
                    p2.x as int,
                    base_y,
                    -2 * w,
                    self.spec_curl_step(),
                )
                &&& cmds[0]->QuadPath_paint == paint
                &&& cmds[0]->QuadPath_stroke_width == w as u64
            },
            UnderlineVariant::DashedUnderline => cmds[0] == (DrawCommand::Line {
                p1,
                p2,
                paint,
                stroke_width: w as u64,
                dash: Some(DashPattern { on: (6 * w) as u64, off: (2 * w) as u64 }),
            }),
            UnderlineVariant::DottedUnderline => cmds[0] == (DrawCommand::Line {
                p1,
                p2,
                paint,
                stroke_width: w as u64,
                dash: Some(DashPattern { on: w as u64, off: w as u64 }),
            }),
        }
    }

    /// One whole underline draw: the paint state is saved, the variant's
    /// geometry issued, and the state restored, whichever variant ran.
    pub open spec fn spec_underline_draw_ok(
        self,
        st: Style,
        variant: UnderlineVariant,
        p1: Point,
        p2: Point,
        cmds: Seq<DrawCommand>,
    ) -> bool {
        &&& cmds.len() == Self::spec_underline_body_len(variant) + 2
        &&& cmds.first() == DrawCommand::Save
        &&& cmds.last() == DrawCommand::Restore
        &&& self.spec_underline_body_ok(st, variant, p1, p2, cmds.subrange(1, cmds.len() - 1))
    }

    /// The paint a foreground draw uses for glyphs: the resolved
    /// foreground color, or a saturated random color in debug mode,
    /// composited source-over without anti-aliasing so glyphs stay
    /// crisp on the pixel grid.
    pub open spec fn spec_foreground_paint(self, st: Style, hue_milli: u32) -> PaintSpec {
        PaintSpec {
            color: if self.settings.debug_renderer {
                ColorSpec::RandomHsv { hue_milli, saturation_pct: 100, value_pct: 100 }
            } else {
                ColorSpec::Solid { color: st.spec_foreground(self.spec_default_colors()) }
            },
            alpha_override_pct: None,
            blend: BlendKind::Over,
            anti_alias: false,
        }
    }

    /// The paint of a strikethrough mark: the style's special color with
    /// fallback, source-over, hairline width.
    pub open spec fn spec_strike_paint(self, st: Style) -> PaintSpec {
        PaintSpec {
            color: ColorSpec::Solid { color: st.spec_special(self.spec_default_colors()) },
            alpha_override_pct: None,
            blend: BlendKind::Over,
            anti_alias: false,
        }
    }

    /// Where the clip rectangle of a foreground draw sits: one cell to
    /// the left of the drawn run, clamped at the left edge, so that
    /// glyphs may overhang horizontally while the row is clipped exactly.
    pub open spec fn spec_clip_position(grid_position: (u64, u64)) -> (u64, u64) {
        (
            (if grid_position.0 >= 1 {
                (grid_position.0 - 1) as u64
            } else {
                0u64
            }),
            grid_position.1,
        )
    }

    /// The clip rectangle of a foreground draw: the run widened by one
    /// cell on each side, one row tall.
    pub open spec fn spec_clip_region(self, grid_position: (u64, u64), cell_width: u64) -> PixelRect {
        self.spec_cell_region(Self::spec_clip_position(grid_position), (cell_width + 2) as u64)
    }

    /// The subpixel height of the underline baseline in row `grid_y`:
    /// the row's bottom edge raised by the shaper's underline offset.
    pub open spec fn spec_underline_baseline_y(self, grid_y: u64) -> int {
        (grid_y + 1) * self.font_dimensions.height * 1000 - self.underline_position_milli
    }

    /// The two endpoints of the underline baseline under a run of cells.
    pub open spec fn spec_underline_endpoints(self, grid_position: (u64, u64), cell_width: u64) -> (
        Point,
        Point,
    ) {
        let y = self.spec_underline_baseline_y(grid_position.1);
        (
            Point { x: (grid_position.0 * self.font_dimensions.width * 1000) as i64, y: y as i64 },
            Point {
                x: ((grid_position.0 + cell_width) * self.font_dimensions.width * 1000) as i64,
                y: y as i64,
            },
        )
    }

    /// The subpixel height of a strikethrough mark: the vertical center
    /// of the clip region, not of the cell region.
    pub open spec fn spec_strike_y(self, grid_position: (u64, u64), cell_width: u64) -> int {
        let r = self.spec_clip_region(grid_position, cell_width);
        (r.top + r.bottom) * 500
    }

    /// Where a glyph run starts: the run's left edge shifted right by
    /// one cell per stripped leading whitespace character, and the row
    /// top shifted by the shaper's vertical adjustment.
    pub open spec fn spec_text_origin(self, grid_position: (u64, u64), leading: int) -> Point {
        Point {
            x: ((grid_position.0 + leading) * self.font_dimensions.width * 1000) as i64,
            y: (grid_position.1 * self.font_dimensions.height * 1000
                + self.y_adjustment_milli) as i64,
        }
    }

    /// What one foreground draw must have appended to the canvas, and
    /// what it must have returned: the underline block first if the
    /// style asks for one, then a save and the widened clip, one glyph
    /// run for the trimmed text if any is left, a strikethrough line if
    /// asked for, and the closing restore.
    pub open spec fn spec_draw_foreground_ok(
        self,
        text: Seq<char>,
        grid_position: (u64, u64),
        cell_width: u64,
        style: Option<Style>,
        hue_milli: u32,
        drawn: bool,
        cmds: Seq<DrawCommand>,
    ) -> bool {
        let st = self.spec_resolved_style(style);
        let trimmed = trim_spec(text);
        let has_text = trimmed.len() > 0;
        let ul: int = match st.underline {
            Some(v) => Self::spec_underline_body_len(v) + 2,
            None => 0,
        };
        let nt: int = if has_text {
            1
        } else {
            0
        };
        let ns: int = if st.strikethrough {
            1
        } else {
            0
        };
        let endpoints = self.spec_underline_endpoints(grid_position, cell_width);
        &&& cmds.len() == ul + 2 + nt + ns + 1
        &&& match st.underline {
            Some(v) => self.spec_underline_draw_ok(
                st,
                v,
                endpoints.0,
                endpoints.1,
                cmds.subrange(0, ul),
            ),
            None => true,
        }
        &&& cmds[ul] == DrawCommand::Save
        &&& cmds[ul + 1] == (DrawCommand::ClipRect {
            region: self.spec_clip_region(grid_position, cell_width),
        })
        &&& (has_text ==> {
            &&& cmds[ul + 2] matches DrawCommand::TextRun { .. }
            &&& cmds[ul + 2]->TextRun_text@ == trimmed
            &&& cmds[ul + 2]->TextRun_origin == self.spec_text_origin(
                grid_position,
                ws_prefix_len(text) as int,
            )
            &&& cmds[ul + 2]->TextRun_paint == self.spec_foreground_paint(st, hue_milli)
        })
        &&& (st.strikethrough ==> cmds[ul + 2 + nt] == (DrawCommand::Line {
            p1: Point { x: endpoints.0.x, y: self.spec_strike_y(grid_position, cell_width) as i64 },
            p2: Point { x: endpoints.1.x, y: self.spec_strike_y(grid_position, cell_width) as i64 },
            paint: self.spec_strike_paint(st),
            stroke_width: 0,
            dash: None,
        }))
        &&& cmds.last() == DrawCommand::Restore
        &&& drawn == (st.underline is Some || has_text || st.strikethrough)
    }

    /// Draw the foreground of one run of cells: underline decoration,
    /// clipped glyph runs for the trimmed text, and strikethrough.
    /// Returns whether anything was drawn.
    pub fn draw_foreground(
        &self,
        canvas: &mut RecordingCanvas,
        text: &str,
        grid_position: (u64, u64),
        cell_width: u64,
        style: &Option<Arc<Style>>,
    ) -> (drawn: bool)
        requires
            self.wf(),
            grid_position.0 <= GRID_LIMIT,
            grid_position.1 <= GRID_LIMIT,
            cell_width <= GRID_LIMIT,
            text@.len() <= GRID_LIMIT,
            (style matches Some(s) ==> (*s).wf()),
        ensures
            final(canvas).commands@.len() >= old(canvas).commands@.len() + 3,
            final(canvas).commands@.subrange(0, old(canvas).commands@.len() as int) == old(
                canvas,
            ).commands@,
            exists|hue: u32|
                #![trigger self.spec_draw_foreground_ok(text@, grid_position, cell_width, style_opt_view(*style), hue, drawn, final(canvas).commands@.skip(old(canvas).commands@.len() as int))]
                {
                    &&& hue < HUE_LIMIT
                    &&& self.spec_draw_foreground_ok(
                        text@,
                        grid_position,
                        cell_width,
                        style_opt_view(*style),
                        hue,
                        drawn,
                        final(canvas).commands@.skip(old(canvas).commands@.len() as int),
                    )
                },
            !self.settings.debug_renderer ==> self.spec_draw_foreground_ok(
                text@,
                grid_position,
                cell_width,
                style_opt_view(*style),
                0,
                drawn,
                final(canvas).commands@.skip(old(canvas).commands@.len() as int),
            ),
    {
        proof {
            lemma_grid_products_bounded(
                grid_position.0 as int,
                grid_position.1 as int,
                cell_width as int,
                self.font_dimensions.width as int,
                self.font_dimensions.height as int,
            );
        }
        let ghost base = old(canvas).commands@.len() as int;
        let x = grid_position.0 * self.font_dimensions.width;
        let y = grid_position.1 * self.font_dimensions.height;
        let width = cell_width * self.font_dimensions.width;
        let st: &Style = match style {
            Some(s) => &*s,
            None => &self.default_style,
        };
        let mut drawn = false;
        let clip_x = if grid_position.0 >= 1 {
            grid_position.0 - 1
        } else {
            0
        };
        let region = self.compute_text_region((clip_x, grid_position.1), cell_width + 2);
        if let Some(v) = st.underline {
            let line_y: i64 = ((y + self.font_dimensions.height) * 1000) as i64
                - self.underline_position_milli;
            let p1 = Point { x: (x * 1000) as i64, y: line_y };
            let p2 = Point { x: ((x + width) * 1000) as i64, y: line_y };
            self.draw_underline(canvas, st, v, p1, p2);
            drawn = true;
        }
        let ghost mid = canvas.commands@;
        canvas.push(DrawCommand::Save);
        canvas.push(DrawCommand::ClipRect { region });
        let mut hue: u32 = 0;
        let fg_color: ColorSpec;
        if self.settings.debug_renderer {
            hue = random_hue_milli();
            fg_color = ColorSpec::RandomHsv { hue_milli: hue, saturation_pct: 100, value_pct: 100 };
        } else {
            fg_color = ColorSpec::Solid { color: st.foreground(&self.default_style.colors) };
        }
        let fg_paint = PaintSpec {
            color: fg_color,
            alpha_override_pct: None,
            blend: BlendKind::Over,
            anti_alias: false,
        };
        let (leading, trimmed) = trim_whitespace(text);
        if trimmed.unicode_len() > 0 {
            proof {
                lemma_grid_products_bounded(
                    grid_position.0 as int,
                    0,
                    leading as int,
                    self.font_dimensions.width as int,
                    self.font_dimensions.height as int,
                );
            }
            let x_adjustment = (leading as u64) * self.font_dimensions.width;
            let origin = Point {
                x: ((x + x_adjustment) * 1000) as i64,
                y: (y * 1000) as i64 + self.y_adjustment_milli,
            };
            canvas.push(
                DrawCommand::TextRun { text: String::from_str(trimmed), origin, paint: fg_paint },
            );
            drawn = true;
        }
        if st.strikethrough {
            let line_y: i64 = ((region.top + region.bottom) * 500) as i64;
            let sp = PaintSpec {
                color: ColorSpec::Solid { color: st.special(&self.default_style.colors) },
                alpha_override_pct: None,
                blend: BlendKind::Over,
                anti_alias: false,
            };
            canvas.push(
                DrawCommand::Line {
                    p1: Point { x: (x * 1000) as i64, y: line_y },
                    p2: Point { x: ((x + width) * 1000) as i64, y: line_y },
                    paint: sp,
                    stroke_width: 0,
                    dash: None,
                },
            );
            drawn = true;
        }
        canvas.push(DrawCommand::Restore);
        proof {
            let appended = final(canvas).commands@.skip(base);
            let stv = self.spec_resolved_style(style_opt_view(*style));
            let ul: int = match stv.underline {
                Some(v) => Self::spec_underline_body_len(v) + 2,
                None => 0,
            };
            assert(final(canvas).commands@.subrange(0, base) =~= old(canvas).commands@);
            if stv.underline is Some {
                assert(appended.subrange(0, ul) =~= mid.skip(base));
            }
            assert(self.spec_draw_foreground_ok(
                text@,
                grid_position,
                cell_width,
                style_opt_view(*style),
                hue,
                drawn,
                appended,
            ));
        }
        drawn
    }

    /// Draw one underline decoration along the baseline from `p1` to
    /// `p2`, in the geometry the variant asks for.
    pub fn draw_underline(
        &self,
        canvas: &mut RecordingCanvas,
        style: &Style,
        variant: UnderlineVariant,
        p1: Point,
        p2: Point,
    )
        requires
            self.wf(),
            -POINT_LIMIT <= p1.x <= POINT_LIMIT,
            -POINT_LIMIT <= p1.y <= POINT_LIMIT,
            -POINT_LIMIT <= p2.x <= POINT_LIMIT,
            -POINT_LIMIT <= p2.y <= POINT_LIMIT,
        ensures
            final(canvas).commands@.len() == old(canvas).commands@.len()
                + Self::spec_underline_body_len(variant) + 2,
            final(canvas).commands@.subrange(0, old(canvas).commands@.len() as int) == old(
                canvas,
            ).commands@,
            self.spec_underline_draw_ok(
                *style,
                variant,
                p1,
                p2,
                final(canvas).commands@.skip(old(canvas).commands@.len() as int),
            ),
    {
        canvas.push(DrawCommand::Save);
        let w = self.underline_stroke_width();
        let paint = PaintSpec {
            color: ColorSpec::Solid { color: style.special(&self.default_style.colors) },
            alpha_override_pct: None,
            blend: BlendKind::Over,
            anti_alias: false,
        };
        match variant {
            UnderlineVariant::Underline => {
                canvas.push(DrawCommand::Line { p1, p2, paint, stroke_width: w, dash: None });
            },
            UnderlineVariant::DoubleUnderline => {
                canvas.push(DrawCommand::Line { p1, p2, paint, stroke_width: w, dash: None });
                let q1 = Point { x: p1.x, y: p1.y - 2000 };
                let q2 = Point { x: p2.x, y: p2.y - 2000 };
                canvas.push(
                    DrawCommand::Line { p1: q1, p2: q2, paint, stroke_width: w, dash: None },
                );
            },
            UnderlineVariant::CurlyUnderline => {
                let curly_paint = PaintSpec { anti_alias: true, ..paint };
                let base_y: i64 = p1.y - 3000 + (w as i64);
                let step: i64 = (self.font_dimensions.width * 500) as i64;
                let mut segments: Vec<QuadSegment> = Vec::new();
                let mut i: i64 = p1.x;
                let mut sin: i64 = -2 * (w as i64);
                while i < p2.x
                    invariant
                        step == self.spec_curl_step(),
                        500 <= step <= CELL_LIMIT * 500,
                        w == self.spec_stroke_width(),
                        1000 <= w <= 0x1_0000_0000_0000,
                        sin == 2 * w || sin == -2 * w,
                        -POINT_LIMIT <= p1.x <= POINT_LIMIT,
                        -POINT_LIMIT <= p2.x <= POINT_LIMIT,
                        -POINT_LIMIT - 0x10000 <= base_y <= POINT_LIMIT + 0x1_0000_0000_0000,
                        p1.x <= i,
                        i == p1.x || i <= p2.x + step,
                        spec_curl_segments(p1.x as int, p2.x as int, base_y as int, -2 * w, step as int)
                            == segments@ + spec_curl_segments(
                            i as int,
                            p2.x as int,
                            base_y as int,
                            sin as int,
                            step as int,
                        ),
                    decreases vstd::math::max(p2.x - i, 0),
                {
                    proof {
                        assert(spec_curl_segments(
                            i as int,
                            p2.x as int,
                            base_y as int,
                            sin as int,
                            step as int,
                        ) == seq![
                            (QuadSegment {
                                control: Point {
                                    x: ((i + step) - step / 2) as i64,
                                    y: (base_y + -sin) as i64,
                                },
                                end: Point { x: (i + step) as i64, y: base_y as i64 },
                            }),
                        ] + spec_curl_segments(
                            (i + step) as int,
                            p2.x as int,
                            base_y as int,
                            (-sin) as int,
                            step as int,
                        ));
                    }
                    sin = -sin;
                    i = i + step;
                    segments.push(
                        QuadSegment {
                            control: Point { x: i - step / 2, y: base_y + sin },
                            end: Point { x: i, y: base_y },
                        },
                    );
                }
                canvas.push(
                    DrawCommand::QuadPath {
                        start: Point { x: p1.x, y: base_y },
                        segments,
                        paint: curly_paint,
                        stroke_width: w,
                    },
                );
            },
            UnderlineVariant::DashedUnderline => {
                canvas.push(
                    DrawCommand::Line {
                        p1,
                        p2,
                        paint,
                        stroke_width: w,
                        dash: Some(DashPattern { on: 6 * w, off: 2 * w }),
                    },
                );
            },
            UnderlineVariant::DottedUnderline => {
                canvas.push(
                    DrawCommand::Line {
                        p1,
                        p2,
                        paint,
                        stroke_width: w,
                        dash: Some(DashPattern { on: w, off: w }),
                    },
                );
            },
        }
        canvas.push(DrawCommand::Restore);
        proof {
            let appended = final(canvas).commands@.skip(old(canvas).commands@.len() as int);
            assert(appended.subrange(1, appended.len() - 1) =~= final(canvas).commands@.skip(
                old(canvas).commands@.len() as int,
            ).subrange(1, appended.len() - 1));
            assert(final(canvas).commands@.subrange(0, old(canvas).commands@.len() as int)
                =~= old(canvas).commands@);
            assert(self.spec_underline_body_ok(
                *style,
                variant,
                p1,
                p2,
                appended.subrange(1, appended.len() - 1),
            ));
        }
    }
}

} // verus!
