use vstd::prelude::*;

use crate::canvas::{DashPattern, DrawCommand, Point};
use crate::renderer::{
    lemma_grid_products_bounded, spec_curl_segments, spec_paint_matches_color, GridRenderer,
    CELL_LIMIT, GRID_LIMIT, METRIC_LIMIT, POINT_LIMIT,
};
use crate::style::{Style, UnderlineVariant};

verus! {

/// With no per-cell style and the debug visualization off, a background
/// draw issues no drawing command at all and reports neither a custom
/// color nor transparency.
pub proof fn lemma_background_no_style_no_op(
    r: GridRenderer,
    grid_position: (u64, u64),
    cell_width: u64,
    hue_milli: u32,
)
    requires
        !r.settings.debug_renderer,
    ensures
        ({
            let (info, cmds) = r.spec_draw_background(grid_position, cell_width, None, hue_milli);
            &&& !info.custom_color
            &&& !info.transparent
            &&& cmds.len() == 0
        }),
{
}

/// A background draw reports a custom color exactly when its resolved
/// paint differs from the default background color, and fills the
/// cell's rectangle exactly in that case.
pub proof fn lemma_background_rect_iff_custom_color(
    r: GridRenderer,
    grid_position: (u64, u64),
    cell_width: u64,
    style: Option<Style>,
    hue_milli: u32,
)
    requires
        style is Some || r.settings.debug_renderer,
    ensures
        ({
            let st = r.spec_resolved_style(style);
            let paint = r.spec_background_paint(st, hue_milli);
            let (info, cmds) = r.spec_draw_background(grid_position, cell_width, style, hue_milli);
            &&& info.custom_color == !spec_paint_matches_color(paint, r.spec_default_background())
            &&& (info.custom_color ==> cmds =~= seq![
                (DrawCommand::FillRect {
                    region: r.spec_cell_region(grid_position, cell_width),
                    paint,
                }),
            ])
            &&& (!info.custom_color ==> cmds.len() == 0)
        }),
{
}

/// A background draw with a style reports transparency exactly when the
/// style's blend level is positive, regardless of whether a rectangle
/// was drawn or which debug color came up.
pub proof fn lemma_background_transparent_iff_blend(
    r: GridRenderer,
    grid_position: (u64, u64),
    cell_width: u64,
    style: Style,
    hue_milli: u32,
)
    ensures
        ({
            let (info, _) = r.spec_draw_background(
                grid_position,
                cell_width,
                Some(style),
                hue_milli,
            );
            info.transparent == (style.blend > 0)
        }),
{
}

/// The clip region of a foreground draw at grid position (x, y) with a
/// run of w cells spans grid columns x - 1 (clamped at zero) up to
/// x + w + 1, and exactly the one row y.
pub proof fn lemma_clip_region_spans(r: GridRenderer, grid_position: (u64, u64), cell_width: u64)
    requires
        r.wf(),
        grid_position.0 <= GRID_LIMIT,
        grid_position.1 <= GRID_LIMIT,
        cell_width <= GRID_LIMIT,
    ensures
        ({
            let c = r.spec_clip_region(grid_position, cell_width);
            let left_col: int = if grid_position.0 >= 1 {
                grid_position.0 - 1
            } else {
                0
            };
            &&& c.left == left_col * r.font_dimensions.width
            &&& c.right == (left_col + cell_width + 2) * r.font_dimensions.width
            &&& c.top == grid_position.1 * r.font_dimensions.height
            &&& c.bottom == (grid_position.1 + 1) * r.font_dimensions.height
        }),
{
    let left_col: int = if grid_position.0 >= 1 {
        grid_position.0 - 1
    } else {
        0
    };
    lemma_grid_products_bounded(
        left_col,
        grid_position.1 as int,
        cell_width + 2,
        r.font_dimensions.width as int,
        r.font_dimensions.height as int,
    );
}

/// The underline stroke width never falls below one pixel, whatever the
/// font size and stroke-scale setting, including degenerate near-zero
/// combinations.
pub proof fn lemma_stroke_width_at_least_one_pixel(r: GridRenderer)
    ensures
        r.spec_stroke_width() >= 1000,
{
}

/// How many line-draw commands a sequence holds.
pub open spec fn line_count(cmds: Seq<DrawCommand>) -> int
    decreases cmds.len(),
{
    if cmds.len() == 0 {
        0
    } else {
        line_count(cmds.drop_last()) + (if cmds.last() is Line {
            1int
        } else {
            0int
        })
    }
}

/// How many stroked-path commands a sequence holds.
pub open spec fn quad_path_count(cmds: Seq<DrawCommand>) -> int
    decreases cmds.len(),
{
    if cmds.len() == 0 {
        0
    } else {
        quad_path_count(cmds.drop_last()) + (if cmds.last() is QuadPath {
            1int
        } else {
            0int
        })
    }
}

/// Every curly segment ends on the baseline, and the control points'
/// vertical offsets alternate in sign with constant magnitude, starting
/// above the baseline.
proof fn lemma_curl_segments_alternate(i: int, end_x: int, base_y: int, sin: int, step: int)
    requires
        0 < step <= 0x1_0000_0000,
        -0x4000_0000_0000_0000 <= i <= 0x4000_0000_0000_0000,
        -0x2000_0000_0000_0000 <= end_x <= 0x2000_0000_0000_0000,
        -0x2000_0000_0000_0000 <= base_y <= 0x2000_0000_0000_0000,
        -0x1_0000_0000_0000 <= sin <= 0x1_0000_0000_0000,
    ensures
        ({
            let segs = spec_curl_segments(i, end_x, base_y, sin, step);
            forall|k: int|
                0 <= k < segs.len() ==> (#[trigger] segs[k]).end.y == base_y
                    && segs[k].control.y == (if k % 2 == 0 {
                    base_y - sin
                } else {
                    base_y + sin
                })
        }),
    decreases vstd::math::max(end_x - i, 0),
{
    if i < end_x {
        lemma_curl_segments_alternate(i + step, end_x, base_y, -sin, step);
        let segs = spec_curl_segments(i, end_x, base_y, sin, step);
        let rest = spec_curl_segments(i + step, end_x, base_y, -sin, step);
        assert forall|k: int|
            0 <= k < segs.len() implies (#[trigger] segs[k]).end.y == base_y
            && segs[k].control.y == (if k % 2 == 0 {
            base_y - sin
        } else {
            base_y + sin
        }) by {
            if k > 0 {
                assert(segs[k] == rest[k - 1]);
                assert((k - 1) % 2 == (if k % 2 == 0 {
                    1int
                } else {
                    0int
                }));
            }
        }
    }
}

/// Each underline variant draws what its name says: a single straight
/// line; two parallel lines two pixels apart; a single dashed or dotted
/// line with a 6:2 or 1:1 on-off pattern in stroke widths; or, for the
/// curly variant, a single stroked path of alternating-sign quadratic
/// arcs and no straight line at all.
pub proof fn lemma_underline_variant_shape(
    r: GridRenderer,
    st: Style,
    variant: UnderlineVariant,
    p1: Point,
    p2: Point,
    cmds: Seq<DrawCommand>,
)
    requires
        r.wf(),
        -POINT_LIMIT <= p1.x <= POINT_LIMIT,
        -POINT_LIMIT <= p1.y <= POINT_LIMIT,
        -POINT_LIMIT <= p2.x <= POINT_LIMIT,
        -POINT_LIMIT <= p2.y <= POINT_LIMIT,
        r.spec_underline_draw_ok(st, variant, p1, p2, cmds),
    ensures
        ({
            let w = r.spec_stroke_width();
            match variant {
                UnderlineVariant::Underline => line_count(cmds) == 1 && quad_path_count(cmds) == 0
                    && cmds[1]->Line_dash is None && cmds[1]->Line_p1 == p1 && cmds[1]->Line_p2
                    == p2,
                UnderlineVariant::DoubleUnderline => line_count(cmds) == 2 && quad_path_count(cmds)
                    == 0 && cmds[1]->Line_dash is None && cmds[2]->Line_dash is None
                    && cmds[2]->Line_p1.y == cmds[1]->Line_p1.y - 2000 && cmds[2]->Line_p2.y
                    == cmds[1]->Line_p2.y - 2000 && cmds[2]->Line_p1.x == cmds[1]->Line_p1.x
                    && cmds[2]->Line_p2.x == cmds[1]->Line_p2.x,
                UnderlineVariant::DashedUnderline => line_count(cmds) == 1 && quad_path_count(cmds)
                    == 0 && cmds[1]->Line_dash == Some(
                    DashPattern { on: (6 * w) as u64, off: (2 * w) as u64 },
                ),
                UnderlineVariant::DottedUnderline => line_count(cmds) == 1 && quad_path_count(cmds)
                    == 0 && cmds[1]->Line_dash == Some(
                    DashPattern { on: w as u64, off: w as u64 },
                ),
                UnderlineVariant::CurlyUnderline => {
                    let base_y = p1.y - 3000 + w;
                    let segs = cmds[1]->QuadPath_segments@;
                    &&& line_count(cmds) == 0
                    &&& quad_path_count(cmds) == 1
                    &&& forall|k: int|
                        0 <= k < segs.len() ==> (#[trigger] segs[k]).end.y == base_y
                            && segs[k].control.y == (if k % 2 == 0 {
                            base_y + 2 * w
                        } else {
                            base_y - 2 * w
                        })
                },
            }
        }),
{
    let body = cmds.subrange(1, cmds.len() - 1);
    assert(cmds[0] == DrawCommand::Save);
    assert(cmds.last() == DrawCommand::Restore);
    match variant {
        UnderlineVariant::DoubleUnderline => {
            assert(cmds =~= seq![cmds[0], cmds[1], cmds[2], cmds[3]]);
            assert(body[0] == cmds[1] && body[1] == cmds[2]);
            reveal_with_fuel(line_count, 5);
            reveal_with_fuel(quad_path_count, 5);
        },
        UnderlineVariant::CurlyUnderline => {
            assert(cmds =~= seq![cmds[0], cmds[1], cmds[2]]);
            assert(body[0] == cmds[1]);
            reveal_with_fuel(line_count, 4);
            reveal_with_fuel(quad_path_count, 4);
            let w = r.spec_stroke_width();
            assert(r.em_size_milli * r.settings.underline_stroke_scale_milli <= METRIC_LIMIT
                * METRIC_LIMIT) by (nonlinear_arith)
                requires
                    r.em_size_milli <= METRIC_LIMIT,
                    r.settings.underline_stroke_scale_milli <= METRIC_LIMIT,
            ;
            let base_y = p1.y - 3000 + w;
            lemma_curl_segments_alternate(
                p1.x as int,
                p2.x as int,
                base_y,
                -2 * w,
                r.spec_curl_step(),
            );
        },
        _ => {
            assert(cmds =~= seq![cmds[0], cmds[1], cmds[2]]);
            assert(body[0] == cmds[1]);
            reveal_with_fuel(line_count, 4);
            reveal_with_fuel(quad_path_count, 4);
        },
    }
}

} // verus!
