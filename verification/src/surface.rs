//! The rendering surface, modelled as an operation log: every drawing
//! primitive appends one record of what it drew, and clearing the canvas
//! empties the log. The visual state of a surface is exactly the sequence of
//! operations performed since it was last cleared; a host that owns a real
//! 2D context renders a surface by performing its operations in order.

use vstd::prelude::*;

use crate::geometry::{Color, Point};

verus! {

/// One primitive operation performed on a rendering surface.
#[derive(Clone, Copy, Debug, PartialEq, Eq, Structural)]
pub enum SurfaceOp {
    /// Reset the path cursor; the next stroked point starts a fresh stroke.
    BeginPath,
    /// Stroke a segment from the current path cursor to `p`.
    DrawPoint { p: Point, color: Color, line_width: u32 },
    /// Clear an axis-aligned square of side `size` centered at `p`.
    EraseSquare { p: Point, size: u32 },
    /// Stroke a straight segment from `start` to `end`.
    DrawLine { start: Point, end: Point, color: Color, line_width: u32 },
    /// Stroke the rectangle spanned by `start` and `end`; the extents are
    /// `end - start` and may be negative, which a canvas normalizes.
    DrawRect { start: Point, end: Point, color: Color, line_width: u32 },
    /// Stroke the full circle of the given center and radius.
    DrawCircle { center: Point, radius: u64, color: Color, line_width: u32 },
    /// Stroke the outline of a circle, in the given color, with the current
    /// line width of the context; used for the color-picker markers.
    OutlineCircle { center: Point, radius: u64, color: Color },
    /// Clear the axis-aligned rectangle with top-left corner `(x, y)`.
    ClearRect { x: i32, y: i32, width: u32, height: u32 },
    /// Fill the axis-aligned rectangle with top-left corner `(x, y)`.
    FillRect { x: i32, y: i32, width: u32, height: u32, color: Color },
}

/// The identity and extent of one canvas element.
#[derive(Clone, Copy, Debug)]
pub struct CanvasProperties {
    pub name: &'static str,
    pub width: u32,
    pub height: u32,
}

/// The committed drawing surface (or the ephemeral preview surface laid over
/// it): a canvas identity together with the log of operations performed since
/// the surface was last cleared.
#[derive(Debug)]
pub struct DrawingCanvas {
    pub properties: CanvasProperties,
    pub ops: Vec<SurfaceOp>,
}

impl View for DrawingCanvas {
    type V = Seq<SurfaceOp>;

    /// The visual state of the surface: the operations since the last clear.
    open spec fn view(&self) -> Seq<SurfaceOp> {
        self.ops@
    }
}

impl DrawingCanvas {
    /// A freshly mounted canvas shows nothing.
    pub fn new(properties: CanvasProperties) -> (canvas: DrawingCanvas)
        ensures
            canvas@ == Seq::<SurfaceOp>::empty(),
            canvas.properties == properties,
    {
        DrawingCanvas { properties, ops: Vec::new() }
    }

    pub fn properties(&self) -> (p: &CanvasProperties)
        ensures
            p == self.properties,
    {
        &self.properties
    }

    /// The operations performed since the surface was last cleared, oldest
    /// first; a host renders the surface by performing them in order.
    pub fn ops(&self) -> (ops: &Vec<SurfaceOp>)
        ensures
            ops@ == self@,
    {
        &self.ops
    }

    /// Clears the entire drawing region.
    pub fn clear_canvas(&mut self)
        ensures
            final(self)@ == Seq::<SurfaceOp>::empty(),
            final(self).properties == old(self).properties,
    {
        self.ops.clear();
    }

    /// Resets the path cursor; called once per gesture before the first
    /// stroked point.
    pub fn begin_path(&mut self)
        ensures
            final(self)@ == old(self)@.push(SurfaceOp::BeginPath),
            final(self).properties == old(self).properties,
    {
        self.ops.push(SurfaceOp::BeginPath);
    }

    /// Strokes a segment from the path cursor to `point`, in the given style.
    pub fn draw_point(&mut self, point: &Point, color: Color, line_width: u32)
        ensures
            final(self)@ == old(self)@.push(
                SurfaceOp::DrawPoint { p: *point, color, line_width },
            ),
            final(self).properties == old(self).properties,
    {
        self.ops.push(SurfaceOp::DrawPoint { p: *point, color, line_width });
    }

    /// Clears a square of side `line_width` centered at `point`, revealing
    /// the background.
    pub fn erase(&mut self, point: Point, line_width: u32)
        ensures
            final(self)@ == old(self)@.push(SurfaceOp::EraseSquare { p: point, size: line_width }),
            final(self).properties == old(self).properties,
    {
        self.ops.push(SurfaceOp::EraseSquare { p: point, size: line_width });
    }

    /// Strokes a straight segment from `start` to `end`.
    pub fn draw_line(&mut self, start: &Point, end: &Point, color: &Color, line_width: u32)
        ensures
            final(self)@ == old(self)@.push(
                SurfaceOp::DrawLine { start: *start, end: *end, color: *color, line_width },
            ),
            final(self).properties == old(self).properties,
    {
        self.ops.push(SurfaceOp::DrawLine { start: *start, end: *end, color: *color, line_width });
    }

    /// Strokes the rectangle spanned by `start` and `end`. The recorded
    /// extents are `end - start` and may be negative; rendering normalizes
    /// them, so swapping the two corners draws the same rectangle.
    pub fn draw_rect(&mut self, start: &Point, end: &Point, color: &Color, line_width: u32)
        ensures
            final(self)@ == old(self)@.push(
                SurfaceOp::DrawRect { start: *start, end: *end, color: *color, line_width },
            ),
            final(self).properties == old(self).properties,
    {
        self.ops.push(SurfaceOp::DrawRect { start: *start, end: *end, color: *color, line_width });
    }

    /// Strokes the circle centered at `start` whose radius is the Euclidean
    /// distance from `start` to `end`, rounded down to a whole pixel: the
    /// drag from `start` to `end` defines a radius handle, not a bounding
    /// box.
    pub fn draw_circle(&mut self, start: &Point, end: &Point, color: &Color, line_width: u32)
        ensures
            final(self)@ == old(self)@.push(
                SurfaceOp::DrawCircle {
                    center: *start,
                    radius: circle_radius(*start, *end) as u64,
                    color: *color,
                    line_width,
                },
            ),
            final(self).properties == old(self).properties,
    {
        let radius = distance(start, end);
        self.ops.push(SurfaceOp::DrawCircle { center: *start, radius, color: *color, line_width });
    }
}

/// The square of the Euclidean distance between two points.
pub open spec fn distance_squared(a: Point, b: Point) -> nat {
    (((b.x - a.x) * (b.x - a.x)) + ((b.y - a.y) * (b.y - a.y))) as nat
}

/// The radius used when a circle is defined by a center and a radius handle:
/// the Euclidean distance between the two, rounded down to a whole pixel.
pub open spec fn circle_radius(a: Point, b: Point) -> nat {
    sqrt_floor(distance_squared(a, b))
}

/// The integer square root: the largest `r` with `r * r <= n`.
pub open spec fn sqrt_floor(n: nat) -> nat
    decreases n,
{
    if n == 0 {
        0
    } else {
        let r = sqrt_floor((n - 1) as nat);
        if (r + 1) * (r + 1) <= n {
            r + 1
        } else {
            r
        }
    }
}

pub proof fn lemma_sqrt_floor_bounds(n: nat)
    ensures
        sqrt_floor(n) * sqrt_floor(n) <= n,
        n < (sqrt_floor(n) + 1) * (sqrt_floor(n) + 1),
    decreases n,
{
    if n == 0 {
        assert(sqrt_floor(0) == 0);
        assert(n < (sqrt_floor(n) + 1) * (sqrt_floor(n) + 1)) by (nonlinear_arith)
            requires
                sqrt_floor(n) == 0,
                n == 0,
        ;
    } else {
        lemma_sqrt_floor_bounds((n - 1) as nat);
        let r = sqrt_floor((n - 1) as nat);
        if (r + 1) * (r + 1) <= n {
            assert(sqrt_floor(n) == r + 1);
            assert(sqrt_floor(n) * sqrt_floor(n) <= n) by (nonlinear_arith)
                requires
                    sqrt_floor(n) == r + 1,
                    (r + 1) * (r + 1) <= n,
            ;
            assert(n < (sqrt_floor(n) + 1) * (sqrt_floor(n) + 1)) by (nonlinear_arith)
                requires
                    sqrt_floor(n) == r + 1,
                    n <= (r + 1) * (r + 1),
            ;
        } else {
            assert(sqrt_floor(n) == r);
            assert(sqrt_floor(n) * sqrt_floor(n) <= n) by (nonlinear_arith)
                requires
                    sqrt_floor(n) == r,
                    r * r <= n - 1,
            ;
            assert(n < (sqrt_floor(n) + 1) * (sqrt_floor(n) + 1)) by (nonlinear_arith)
                requires
                    sqrt_floor(n) == r,
                    n < (r + 1) * (r + 1),
            ;
        }
    }
}

pub proof fn lemma_sqrt_floor_unique(n: nat, r: nat)
    requires
        r * r <= n,
        n < (r + 1) * (r + 1),
    ensures
        r == sqrt_floor(n),
{
    lemma_sqrt_floor_bounds(n);
    let s = sqrt_floor(n);
    if r < s {
        assert((r + 1) * (r + 1) <= s * s) by (nonlinear_arith)
            requires
                r + 1 <= s,
        ;
    } else if s < r {
        assert((s + 1) * (s + 1) <= r * r) by (nonlinear_arith)
            requires
                s + 1 <= r,
        ;
    }
}

/// The integer square root of `n`, by binary search on the answer.
fn isqrt(n: u128) -> (r: u64)
    requires
        n < 0x4_0000_0000_0000_0000,  // (2^33)^2
    ensures
        r == sqrt_floor(n as nat),
{
    if n == 0 {
        proof {
            assert(sqrt_floor(0) == 0);
        }
        return 0;
    }
    let mut lo: u64 = 0;
    let mut hi: u64 = 0x2_0000_0000;  // 2^33
    proof {
        assert((hi as nat) * (hi as nat) == 0x4_0000_0000_0000_0000) by (nonlinear_arith)
            requires
                hi == 0x2_0000_0000,
        ;
    }
    while lo + 1 < hi
        invariant
            lo < hi <= 0x2_0000_0000,
            (lo as nat) * (lo as nat) <= n as nat,
            (n as nat) < (hi as nat) * (hi as nat),
        decreases hi - lo,
    {
        let mid = lo + (hi - lo) / 2;
        proof {
            assert((mid as u128) * (mid as u128) <= 0x4_0000_0000_0000_0000) by (nonlinear_arith)
                requires
                    mid <= 0x2_0000_0000,
            ;
        }
        if (mid as u128) * (mid as u128) <= n {
            lo = mid;
        } else {
            hi = mid;
        }
    }
    proof {
        assert((n as nat) < ((lo as nat) + 1) * ((lo as nat) + 1)) by (nonlinear_arith)
            requires
                hi == lo + 1,
                (n as nat) < (hi as nat) * (hi as nat),
        ;
        lemma_sqrt_floor_unique(n as nat, lo as nat);
    }
    lo
}

/// The Euclidean distance between two points, rounded down to a whole pixel.
pub fn distance(a: &Point, b: &Point) -> (d: u64)
    ensures
        d == circle_radius(*a, *b),
{
    let dx: i128 = (b.x as i128) - (a.x as i128);
    let dy: i128 = (b.y as i128) - (a.y as i128);
    proof {
        assert(0 <= dx * dx <= 0xFFFF_FFFF * 0xFFFF_FFFF) by (nonlinear_arith)
            requires
                -0xFFFF_FFFF <= dx <= 0xFFFF_FFFF,
        ;
        assert(0 <= dy * dy <= 0xFFFF_FFFF * 0xFFFF_FFFF) by (nonlinear_arith)
            requires
                -0xFFFF_FFFF <= dy <= 0xFFFF_FFFF,
        ;
    }
    let sq: u128 = ((dx * dx) + (dy * dy)) as u128;
    assert(sq == distance_squared(*a, *b));
    isqrt(sq)
}

/// The axis-aligned region a stroked rectangle covers, normalized so that
/// negative extents (an `end` corner above or left of `start`) describe the
/// same region as the corresponding positive ones.
pub open spec fn rect_region(start: Point, end: Point) -> (int, int, int, int) {
    (
        if start.x <= end.x { start.x as int } else { end.x as int },
        if start.y <= end.y { start.y as int } else { end.y as int },
        if start.x <= end.x { end.x as int } else { start.x as int },
        if start.y <= end.y { end.y as int } else { start.y as int },
    )
}

/// A rectangle spanned from `start` to `end` covers the same region as one
/// spanned from `end` to `start`: negative extents normalize.
pub proof fn lemma_rect_normalizes(start: Point, end: Point)
    ensures
        rect_region(start, end) == rect_region(end, start),
{
}

} // verus!
