//! The geometry mapper: from `(position, peak)` and an orientation to the
//! filled shapes a renderer paints.
//!
//! The bounding box arrives in whole pixels with a top-left origin and y
//! growing downward.  Output coordinates are subpixels: pixel values scaled
//! by [`SCALE`], so every fraction of the mapping table is represented
//! exactly and the mapping is a pure function with an exact contract.

use crate::level::SCALE;
use vstd::prelude::*;

verus! {

/// Default threshold below which the bar is suppressed: the fixed-point
/// form of 0.001.
pub const DEFAULT_EPSILON: u32 = 1_000;

/// Thickness of the peak indicator strip in subpixels: two pixels at
/// [`SCALE`] subpixels each.
pub const PEAK_STRIP_THICKNESS: u32 = 2_000_000;

/// Largest level or box coordinate [`GeometryMapper::map`] accepts.  The
/// bound keeps every product of a level and a box side inside `i64`; it is
/// two thousand times full scale, far beyond any meaningful meter value.
pub const MAP_INPUT_LIMIT: u32 = 2_000_000_000;

/// The geometric direction or shape convention of the meter.  Fixed per
/// widget instance at construction.
#[derive(Clone, Copy, Debug, PartialEq, Eq, Structural)]
pub enum Orientation {
    /// The standard vertical meter, filling from the bottom edge upward.
    DownToUp,
    /// The inverted vertical meter, filling from the top edge downward.
    UpToDown,
    /// The standard horizontal meter, filling from the left edge rightward.
    LeftToRight,
    /// The inverted horizontal meter, filling from the right edge leftward.
    RightToLeft,
    /// A round meter: a centered circle whose radius follows the position.
    Radial,
}

/// The widget's layout box, in whole pixels of the drawing surface.
#[derive(Clone, Copy, Debug, PartialEq, Eq, Structural)]
pub struct Rect {
    /// Left edge.
    pub x: u32,
    /// Top edge.
    pub y: u32,
    /// Width.
    pub w: u32,
    /// Height.
    pub h: u32,
}

impl Rect {
    /// All sides of the box are within [`MAP_INPUT_LIMIT`].
    pub open spec fn fits(self) -> bool {
        self.x <= MAP_INPUT_LIMIT && self.y <= MAP_INPUT_LIMIT && self.w <= MAP_INPUT_LIMIT
            && self.h <= MAP_INPUT_LIMIT
    }

    /// The shorter of the two box sides.
    pub open spec fn spec_min_side(self) -> u32 {
        if self.w <= self.h {
            self.w
        } else {
            self.h
        }
    }
}

/// A solid color, handed through to the renderer unmodified.
#[derive(Clone, Copy, Debug, PartialEq, Eq, Structural)]
pub struct Color {
    pub red: u8,
    pub green: u8,
    pub blue: u8,
    pub alpha: u8,
}

/// An axis-aligned filled rectangle in subpixels.
#[derive(Clone, Copy, Debug, PartialEq, Eq, Structural)]
pub struct FillRect {
    pub x: i64,
    pub y: i64,
    pub w: i64,
    pub h: i64,
    pub color: Color,
}

/// A filled circle in subpixels.
#[derive(Clone, Copy, Debug, PartialEq, Eq, Structural)]
pub struct FillCircle {
    pub center_x: i64,
    pub center_y: i64,
    pub radius: i64,
    pub color: Color,
}

/// One draw call of a render plan.
#[derive(Clone, Copy, Debug, PartialEq, Eq, Structural)]
pub enum Shape {
    Rect(FillRect),
    Circle(FillCircle),
}

/// The ordered list of shapes one tick paints: the bar (unless suppressed)
/// first, then the thin peak strip for the bar orientations.  The unfilled
/// background is the renderer's own business and is never emitted here.
#[derive(Clone, Debug, PartialEq, Eq)]
pub struct RenderPlan {
    pub shapes: Vec<Shape>,
}

/// A pixel coordinate scaled to subpixels.
pub open spec fn spec_px(c: u32) -> int {
    c * SCALE
}

/// The span `level * dim`: the fraction `level / SCALE` of `dim` pixels,
/// in subpixels.
pub open spec fn spec_span(level: u32, dim: u32) -> int {
    level * dim
}

/// The complementary span `(SCALE - level) * dim`: the remaining fraction
/// of `dim` pixels, in subpixels.  Negative when `level` overshoots full
/// scale, which simply places the shape outside the box.
pub open spec fn spec_inv_span(level: u32, dim: u32) -> int {
    (SCALE - level) * dim
}

/// The stateless mapper: an epsilon below which the bar is suppressed, and
/// the two colors it stamps onto the shapes it emits.
#[derive(Clone, Copy, Debug, PartialEq, Eq, Structural)]
pub struct GeometryMapper {
    /// Positions strictly below this level emit no bar shape.
    pub epsilon: u32,
    /// Color of the bar (and of the radial circle).
    pub bar_color: Color,
    /// Color of the peak indicator strip.
    pub peak_color: Color,
}

impl GeometryMapper {
    /// The bar shape for a position: a rectangle spanning the filled
    /// fraction of the box, or the centered circle in radial mode.
    pub open spec fn spec_bar(self, position: u32, orientation: Orientation, bounds: Rect) -> Shape {
        match orientation {
            Orientation::DownToUp => Shape::Rect(FillRect {
                x: spec_px(bounds.x) as i64,
                y: (spec_px(bounds.y) + spec_inv_span(position, bounds.h)) as i64,
                w: spec_px(bounds.w) as i64,
                h: spec_span(position, bounds.h) as i64,
                color: self.bar_color,
            }),
            Orientation::UpToDown => Shape::Rect(FillRect {
                x: spec_px(bounds.x) as i64,
                y: spec_px(bounds.y) as i64,
                w: spec_px(bounds.w) as i64,
                h: spec_span(position, bounds.h) as i64,
                color: self.bar_color,
            }),
            Orientation::LeftToRight => Shape::Rect(FillRect {
                x: spec_px(bounds.x) as i64,
                y: spec_px(bounds.y) as i64,
                w: spec_span(position, bounds.w) as i64,
                h: spec_px(bounds.h) as i64,
                color: self.bar_color,
            }),
            Orientation::RightToLeft => Shape::Rect(FillRect {
                x: (spec_px(bounds.x) + spec_inv_span(position, bounds.w)) as i64,
                y: spec_px(bounds.y) as i64,
                w: spec_span(position, bounds.w) as i64,
                h: spec_px(bounds.h) as i64,
                color: self.bar_color,
            }),
            Orientation::Radial => Shape::Circle(FillCircle {
                center_x: (spec_px(bounds.x) + spec_px(bounds.w) / 2) as i64,
                center_y: (spec_px(bounds.y) + spec_px(bounds.h) / 2) as i64,
                radius: (spec_span(position, bounds.spec_min_side()) / 2) as i64,
                color: self.bar_color,
            }),
        }
    }

    /// The thin strip marking the peak, for the bar orientations; radial
    /// mode renders no peak.
    pub open spec fn spec_peak_strip(self, peak: u32, orientation: Orientation, bounds: Rect) -> Option<
        Shape,
    > {
        match orientation {
            Orientation::DownToUp => Some(Shape::Rect(FillRect {
                x: spec_px(bounds.x) as i64,
                y: (spec_px(bounds.y) + spec_inv_span(peak, bounds.h)) as i64,
                w: spec_px(bounds.w) as i64,
                h: PEAK_STRIP_THICKNESS as i64,
                color: self.peak_color,
            })),
            Orientation::UpToDown => Some(Shape::Rect(FillRect {
                x: spec_px(bounds.x) as i64,
                y: (spec_px(bounds.y) + spec_span(peak, bounds.h)) as i64,
                w: spec_px(bounds.w) as i64,
                h: PEAK_STRIP_THICKNESS as i64,
                color: self.peak_color,
            })),
            Orientation::LeftToRight => Some(Shape::Rect(FillRect {
                x: (spec_px(bounds.x) + spec_span(peak, bounds.w)) as i64,
                y: spec_px(bounds.y) as i64,
                w: PEAK_STRIP_THICKNESS as i64,
                h: spec_px(bounds.h) as i64,
                color: self.peak_color,
            })),
            Orientation::RightToLeft => Some(Shape::Rect(FillRect {
                x: (spec_px(bounds.x) + spec_inv_span(peak, bounds.w)) as i64,
                y: spec_px(bounds.y) as i64,
                w: PEAK_STRIP_THICKNESS as i64,
                h: spec_px(bounds.h) as i64,
                color: self.peak_color,
            })),
            Orientation::Radial => None,
        }
    }

    /// The full plan: the bar when the position reaches epsilon, then the
    /// peak strip where the orientation has one.
    pub open spec fn spec_plan(
        self,
        position: u32,
        peak: u32,
        orientation: Orientation,
        bounds: Rect,
    ) -> Seq<Shape> {
        let bar = if position < self.epsilon {
            Seq::<Shape>::empty()
        } else {
            seq![self.spec_bar(position, orientation, bounds)]
        };
        match self.spec_peak_strip(peak, orientation, bounds) {
            Some(strip) => bar.push(strip),
            None => bar,
        }
    }

    /// Builds a mapper with the default epsilon.
    pub fn new(bar_color: Color, peak_color: Color) -> (m: GeometryMapper)
        ensures
            m == (GeometryMapper { epsilon: DEFAULT_EPSILON, bar_color, peak_color }),
    {
        GeometryMapper { epsilon: DEFAULT_EPSILON, bar_color, peak_color }
    }

    /// Maps one `(position, peak)` pair into the shapes to paint, exactly as
    /// [`GeometryMapper::spec_plan`] lays them out.  Levels beyond full
    /// scale are not clamped: the shapes then simply overflow the box.
    pub fn map(&self, position: u32, peak: u32, orientation: Orientation, bounds: Rect) -> (plan:
        RenderPlan)
        requires
            position <= MAP_INPUT_LIMIT,
            peak <= MAP_INPUT_LIMIT,
            bounds.fits(),
        ensures
            plan.shapes@ == self.spec_plan(position, peak, orientation, bounds),
    {
        let mut shapes: Vec<Shape> = Vec::new();
        match orientation {
            Orientation::DownToUp => {
                if position >= self.epsilon {
                    shapes.push(Shape::Rect(FillRect {
                        x: px(bounds.x),
                        y: px(bounds.y) + inv_span(position, bounds.h),
                        w: px(bounds.w),
                        h: span(position, bounds.h),
                        color: self.bar_color,
                    }));
                }
                shapes.push(Shape::Rect(FillRect {
                    x: px(bounds.x),
                    y: px(bounds.y) + inv_span(peak, bounds.h),
                    w: px(bounds.w),
                    h: PEAK_STRIP_THICKNESS as i64,
                    color: self.peak_color,
                }));
            }
            Orientation::UpToDown => {
                if position >= self.epsilon {
                    shapes.push(Shape::Rect(FillRect {
                        x: px(bounds.x),
                        y: px(bounds.y),
                        w: px(bounds.w),
                        h: span(position, bounds.h),
                        color: self.bar_color,
                    }));
                }
                shapes.push(Shape::Rect(FillRect {
                    x: px(bounds.x),
                    y: px(bounds.y) + span(peak, bounds.h),
                    w: px(bounds.w),
                    h: PEAK_STRIP_THICKNESS as i64,
                    color: self.peak_color,
                }));
            }
            Orientation::LeftToRight => {
                if position >= self.epsilon {
                    shapes.push(Shape::Rect(FillRect {
                        x: px(bounds.x),
                        y: px(bounds.y),
                        w: span(position, bounds.w),
                        h: px(bounds.h),
                        color: self.bar_color,
                    }));
                }
                shapes.push(Shape::Rect(FillRect {
                    x: px(bounds.x) + span(peak, bounds.w),
                    y: px(bounds.y),
                    w: PEAK_STRIP_THICKNESS as i64,
                    h: px(bounds.h),
                    color: self.peak_color,
                }));
            }
            Orientation::RightToLeft => {
                if position >= self.epsilon {
                    shapes.push(Shape::Rect(FillRect {
                        x: px(bounds.x) + inv_span(position, bounds.w),
                        y: px(bounds.y),
                        w: span(position, bounds.w),
                        h: px(bounds.h),
                        color: self.bar_color,
                    }));
                }
                shapes.push(Shape::Rect(FillRect {
                    x: px(bounds.x) + inv_span(peak, bounds.w),
                    y: px(bounds.y),
                    w: PEAK_STRIP_THICKNESS as i64,
                    h: px(bounds.h),
                    color: self.peak_color,
                }));
            }
            Orientation::Radial => {
                if position >= self.epsilon {
                    let side = if bounds.w <= bounds.h {
                        bounds.w
                    } else {
                        bounds.h
                    };
                    shapes.push(Shape::Circle(FillCircle {
                        center_x: px(bounds.x) + px(bounds.w) / 2,
                        center_y: px(bounds.y) + px(bounds.h) / 2,
                        radius: span(position, side) / 2,
                        color: self.bar_color,
                    }));
                }
            }
        }
        proof {
            assert(shapes@ =~= self.spec_plan(position, peak, orientation, bounds));
        }
        RenderPlan { shapes }
    }
}

/// Scales a pixel coordinate to subpixels.
fn px(c: u32) -> (r: i64)
    ensures
        r == spec_px(c),
        0 <= r <= 4_300_000_000_000_000,
{
    proof {
        assert((c as int) * (SCALE as int) <= 4_300_000_000_000_000 && (c as int) * (SCALE as int)
            >= 0) by (nonlinear_arith)
            requires
                0 <= c <= u32::MAX,
        ;
    }
    (c as i64) * (SCALE as i64)
}

/// Computes `level * dim` in subpixels.
fn span(level: u32, dim: u32) -> (r: i64)
    requires
        level <= MAP_INPUT_LIMIT,
        dim <= MAP_INPUT_LIMIT,
    ensures
        r == spec_span(level, dim),
        0 <= r <= 4_000_000_000_000_000_000,
{
    proof {
        assert((level as int) * (dim as int) <= 4_000_000_000_000_000_000 && (level as int) * (
        dim as int) >= 0) by (nonlinear_arith)
            requires
                0 <= level <= MAP_INPUT_LIMIT,
                0 <= dim <= MAP_INPUT_LIMIT,
        ;
    }
    (level as i64) * (dim as i64)
}

/// Computes `(SCALE - level) * dim` in subpixels; negative when `level`
/// overshoots full scale.
fn inv_span(level: u32, dim: u32) -> (r: i64)
    requires
        level <= MAP_INPUT_LIMIT,
        dim <= MAP_INPUT_LIMIT,
    ensures
        r == spec_inv_span(level, dim),
        -4_000_000_000_000_000_000 <= r <= 4_000_000_000_000_000_000,
{
    proof {
        assert((SCALE as int - level as int) * (dim as int) <= 4_000_000_000_000_000_000 && (
        SCALE as int - level as int) * (dim as int) >= -4_000_000_000_000_000_000)
            by (nonlinear_arith)
            requires
                0 <= level <= MAP_INPUT_LIMIT,
                0 <= dim <= MAP_INPUT_LIMIT,
                SCALE == 1_000_000,
        ;
    }
    (SCALE as i64 - level as i64) * (dim as i64)
}

/// Law: the mapper is a pure function.  Two plans drawn from identical
/// inputs are identical, shape for shape.
pub proof fn lemma_map_deterministic(
    plan1: Seq<Shape>,
    plan2: Seq<Shape>,
    m: GeometryMapper,
    position: u32,
    peak: u32,
    orientation: Orientation,
    bounds: Rect,
)
    requires
        plan1 == m.spec_plan(position, peak, orientation, bounds),
        plan2 == m.spec_plan(position, peak, orientation, bounds),
    ensures
        plan1 == plan2,
{
}

/// Law: epsilon suppression.  A position strictly below the mapper's
/// epsilon emits no bar: the plan is exactly the peak strip where the
/// orientation has one, and empty in radial mode.
pub proof fn lemma_epsilon_suppression(
    m: GeometryMapper,
    position: u32,
    peak: u32,
    orientation: Orientation,
    bounds: Rect,
)
    requires
        position < m.epsilon,
    ensures
        m.spec_peak_strip(peak, orientation, bounds) matches Some(strip) ==> m.spec_plan(
            position,
            peak,
            orientation,
            bounds,
        ) =~= seq![strip],
        m.spec_peak_strip(peak, orientation, bounds) is None ==> m.spec_plan(
            position,
            peak,
            orientation,
            bounds,
        ) =~= Seq::<Shape>::empty(),
{
}

} // verus!
