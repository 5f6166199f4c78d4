use vstd::prelude::*;

use crate::style::Color;

verus! {

/// Geometry is carried in subpixel units: one pixel is `SUBPIXELS_PER_PIXEL`
/// units. This keeps all region and stroke arithmetic in integers while
/// still expressing sub-pixel offsets such as half-row centers.
pub const SUBPIXELS_PER_PIXEL: u64 = 1000;

/// A point in subpixel units, measured from the surface origin.
#[derive(Clone, Copy, PartialEq, Eq, Structural, Debug)]
pub struct Point {
    pub x: i64,
    pub y: i64,
}

/// An axis-aligned rectangle in whole pixels: covers columns
/// `[left, right)` and rows `[top, bottom)`.
#[derive(Clone, Copy, PartialEq, Eq, Structural, Debug)]
pub struct PixelRect {
    pub left: u64,
    pub top: u64,
    pub right: u64,
    pub bottom: u64,
}

/// What color a paint asks the surface for: either an exact color, or a
/// pseudo-random debug color given as an HSV triple that the surface
/// converts itself (hue in thousandths of a degree, saturation and value
/// in percent).
#[derive(Clone, Copy, PartialEq, Eq, Structural, Debug)]
pub enum ColorSpec {
    Solid { color: Color },
    RandomHsv { hue_milli: u32, saturation_pct: u8, value_pct: u8 },
}

/// How a draw composites onto what is already on the surface.
#[derive(Clone, Copy, PartialEq, Eq, Structural, Debug)]
pub enum BlendKind {
    /// Source overwrites destination, destination alpha ignored.
    Replace,
    /// Ordinary source-over alpha compositing.
    Over,
}

/// The paint state one draw command carries.
#[derive(Clone, Copy, PartialEq, Eq, Structural, Debug)]
pub struct PaintSpec {
    pub color: ColorSpec,
    /// When present, overrides the color's own alpha with this percentage.
    pub alpha_override_pct: Option<u8>,
    pub blend: BlendKind,
    pub anti_alias: bool,
}

/// A dash pattern for a stroked line: `on` units drawn, `off` units
/// skipped, repeating, starting at phase zero. Lengths in subpixel units.
#[derive(Clone, Copy, PartialEq, Eq, Structural, Debug)]
pub struct DashPattern {
    pub on: u64,
    pub off: u64,
}

/// One quadratic Bezier segment of a path: a control point and the
/// segment's end point.
#[derive(Clone, Copy, PartialEq, Eq, Structural, Debug)]
pub struct QuadSegment {
    pub control: Point,
    pub end: Point,
}

/// One primitive the renderer asks the drawing surface to perform.
/// The renderer records commands; an executor replays them against a
/// real surface. `Save`, `ClipRect` and `Restore` mirror the surface's
/// stacked paint-and-clip state.
#[derive(Clone, PartialEq, Eq, Debug)]
pub enum DrawCommand {
    FillRect { region: PixelRect, paint: PaintSpec },
    Line {
        p1: Point,
        p2: Point,
        paint: PaintSpec,
        stroke_width: u64,
        dash: Option<DashPattern>,
    },
    QuadPath { start: Point, segments: Vec<QuadSegment>, paint: PaintSpec, stroke_width: u64 },
    TextRun { text: String, origin: Point, paint: PaintSpec },
    Save,
    ClipRect { region: PixelRect },
    Restore,
}

/// A drawing surface that records the commands issued to it, in order.
pub struct RecordingCanvas {
    pub commands: Vec<DrawCommand>,
}

impl RecordingCanvas {
    pub fn new() -> (r: RecordingCanvas)
        ensures
            r.commands@ == Seq::<DrawCommand>::empty(),
    {
        RecordingCanvas { commands: Vec::new() }
    }

    pub fn push(&mut self, cmd: DrawCommand)
        ensures
            final(self).commands@ == old(self).commands@.push(cmd),
    {
        self.commands.push(cmd);
    }
}

} // verus!
