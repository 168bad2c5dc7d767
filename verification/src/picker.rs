//! The two color-picker canvases: the saturation/value square, whose
//! gradient is painted pixel by pixel from the active hue, and the hue bar.
//! Saturation maps to horizontal position and value to inverted vertical
//! position (value increases upward).

use vstd::prelude::*;

use vstd::arithmetic::div_mod::lemma_fundamental_div_mod_converse;

use crate::color::{hsv_to_rgb, spec_bar_hue, spec_hsv_to_rgb, Frac, Hue};
use crate::geometry::{Color, Point};
use crate::surface::{CanvasProperties, SurfaceOp};

verus! {

/// The gradient color at sampled pixel `(x, y)` of a saturation/value
/// square: saturation is `x / width` and value is `y / height`, converted
/// with the active hue.
pub open spec fn spec_gradient_color(hue: Hue, x: int, y: int, width: int, height: int) -> Color {
    spec_hsv_to_rgb(
        hue,
        Frac { num: x as u32, den: width as u32 },
        Frac { num: y as u32, den: height as u32 },
    )
}

/// The fill painted for sampled pixel `(x, y)`: value increases upward, so
/// the sample lands on raster row `height - 1 - y`.
pub open spec fn gradient_pixel_op(hue: Hue, x: int, y: int, width: int, height: int) -> SurfaceOp {
    SurfaceOp::FillRect {
        x: x as i32,
        y: (height - 1 - y) as i32,
        width: 1,
        height: 1,
        color: spec_gradient_color(hue, x, y, width, height),
    }
}

/// The whole gradient of a saturation/value square: one single-pixel fill
/// per sample, column by column, bottom of each column first.
pub open spec fn gradient_ops(hue: Hue, width: int, height: int) -> Seq<SurfaceOp> {
    Seq::new(
        (width * height) as nat,
        |k: int| gradient_pixel_op(hue, k / height, k % height, width, height),
    )
}

/// The saturation/value square of the color picker: its canvas identity,
/// the hue its gradient was last painted with, and its operation log.
#[derive(Debug)]
pub struct SatValCanvas {
    pub properties: CanvasProperties,
    pub hue: Hue,
    pub ops: Vec<SurfaceOp>,
}

impl View for SatValCanvas {
    type V = Seq<SurfaceOp>;

    /// The visual state of the square: the operations since the last clear.
    open spec fn view(&self) -> Seq<SurfaceOp> {
        self.ops@
    }
}

impl SatValCanvas {
    /// Both extents are positive canvas extents and the active hue is a
    /// fraction of the color wheel.
    pub open spec fn wf(self) -> bool {
        &&& self.hue.wf()
        &&& 1 <= self.properties.width <= 0xFFFF
        &&& 1 <= self.properties.height <= 0xFFFF
    }

    /// A freshly mounted picker square: nothing painted, hue at zero.
    pub fn new(properties: CanvasProperties) -> (canvas: SatValCanvas)
        requires
            1 <= properties.width <= 0xFFFF,
            1 <= properties.height <= 0xFFFF,
        ensures
            canvas.wf(),
            canvas@ == Seq::<SurfaceOp>::empty(),
            canvas.properties == properties,
            canvas.hue == (Hue { num: 0, den: 1 }),
    {
        SatValCanvas { properties, hue: Hue::from_degrees(0), ops: Vec::new() }
    }

    pub fn properties(&self) -> (p: &CanvasProperties)
        ensures
            p == self.properties,
    {
        &self.properties
    }

    /// The operations performed since the square was last cleared.
    pub fn ops(&self) -> (ops: &Vec<SurfaceOp>)
        ensures
            ops@ == self@,
    {
        &self.ops
    }

    /// Clears the whole square.
    pub fn clear_canvas(&mut self)
        ensures
            final(self)@ == Seq::<SurfaceOp>::empty(),
            final(self).properties == old(self).properties,
            final(self).hue == old(self).hue,
    {
        self.ops.clear();
    }

    /// Paints the full saturation/value gradient for `hue`, one pixel at a
    /// time: the sample at `(x, y)` has saturation `x / width` and value
    /// `y / height`, and lands on raster row `height - 1 - y`.
    pub fn draw_color_picker(&mut self, hue: Hue)
        requires
            old(self).wf(),
            hue.wf(),
        ensures
            final(self).wf(),
            final(self)@ == old(self)@ + gradient_ops(
                hue,
                old(self).properties.width as int,
                old(self).properties.height as int,
            ),
            final(self).properties == old(self).properties,
            final(self).hue == hue,
    {
        self.hue = hue;
        let width = self.properties.width;
        let height = self.properties.height;
        let ghost base = self.ops@;
        let ghost whole = gradient_ops(hue, width as int, height as int);
        let mut px_x: u32 = 0;
        while px_x < width
            invariant
                px_x <= width,
                1 <= width <= 0xFFFF,
                1 <= height <= 0xFFFF,
                hue.wf(),
                self.hue == hue,
                self.properties == old(self).properties,
                self.properties.width == width,
                self.properties.height == height,
                whole == gradient_ops(hue, width as int, height as int),
                self.ops@ == base + whole.take(px_x as int * height as int),
            decreases width - px_x,
        {
            let mut px_y: u32 = 0;
            proof {
                lemma_sample_index_bound(px_x as int, 0, width as int, height as int);
            }
            while px_y < height
                invariant
                    px_y <= height,
                    px_x < width,
                    1 <= width <= 0xFFFF,
                    1 <= height <= 0xFFFF,
                    hue.wf(),
                    self.hue == hue,
                    self.properties == old(self).properties,
                    self.properties.width == width,
                    self.properties.height == height,
                    whole == gradient_ops(hue, width as int, height as int),
                    self.ops@ == base + whole.take(px_x as int * height as int + px_y as int),
                decreases height - px_y,
            {
                let color = hsv_to_rgb(hue, Frac::new(px_x, width), Frac::new(px_y, height));
                let fill_y = height - 1 - px_y;
                self.ops.push(
                    SurfaceOp::FillRect {
                        x: px_x as i32,
                        y: fill_y as i32,
                        width: 1,
                        height: 1,
                        color,
                    },
                );
                proof {
                    let k = px_x as int * height as int + px_y as int;
                    lemma_sample_index_bound(px_x as int, px_y as int, width as int, height as int);
                    lemma_fundamental_div_mod_converse(
                        k,
                        height as int,
                        px_x as int,
                        px_y as int,
                    );
                    assert(whole[k] == gradient_pixel_op(
                        hue,
                        px_x as int,
                        px_y as int,
                        width as int,
                        height as int,
                    ));
                    assert(self.ops@ =~= base + whole.take(k + 1));
                }
                px_y = px_y + 1;
            }
            px_x = px_x + 1;
            proof {
                assert((px_x as int) * (height as int) == (px_x as int - 1) * (height as int)
                    + (height as int)) by (nonlinear_arith);
            }
        }
        proof {
            assert((px_x as int) * (height as int) == (width as int) * (height as int));
            assert(self.ops@ =~= base + whole);
        }
    }

    /// Draws the round pointer marking the selected coordinate: a small
    /// white outlined circle, three pixels in radius.
    pub fn draw_sat_val_pointer(&mut self, sat_val_coord: (u32, u32))
        requires
            sat_val_coord.0 <= 0xFFFF,
            sat_val_coord.1 <= 0xFFFF,
        ensures
            final(self)@ == old(self)@ + seq![
                SurfaceOp::BeginPath,
                SurfaceOp::OutlineCircle {
                    center: Point { x: sat_val_coord.0 as i32, y: sat_val_coord.1 as i32 },
                    radius: 3,
                    color: Color(255, 255, 255),
                },
            ],
            final(self).properties == old(self).properties,
            final(self).hue == old(self).hue,
    {
        self.ops.push(SurfaceOp::BeginPath);
        self.ops.push(
            SurfaceOp::OutlineCircle {
                center: Point { x: sat_val_coord.0 as i32, y: sat_val_coord.1 as i32 },
                radius: 3,
                color: Color(255, 255, 255),
            },
        );
        proof {
            assert(self.ops@ =~= old(self).ops@ + seq![
                SurfaceOp::BeginPath,
                SurfaceOp::OutlineCircle {
                    center: Point { x: sat_val_coord.0 as i32, y: sat_val_coord.1 as i32 },
                    radius: 3,
                    color: Color(255, 255, 255),
                },
            ]);
        }
    }

    /// The color under a click at `sat_val_coord`, computed analytically
    /// from the hue the gradient was last painted with: sampling the
    /// rendered pixel would read back the same gradient, but this exact
    /// recomputation is deterministic and free of raster rounding.
    pub fn read_color(&self, sat_val_coord: (u32, u32)) -> (color: Color)
        requires
            self.wf(),
            sat_val_coord.0 < self.properties.width,
            sat_val_coord.1 < self.properties.height,
        ensures
            color == spec_gradient_color(
                self.hue,
                sat_val_coord.0 as int,
                self.properties.height - 1 - sat_val_coord.1,
                self.properties.width as int,
                self.properties.height as int,
            ),
    {
        let width = self.properties.width;
        let height = self.properties.height;
        hsv_to_rgb(
            self.hue,
            Frac::new(sat_val_coord.0, width),
            Frac::new(height - 1 - sat_val_coord.1, height),
        )
    }
}

/// A sample position within the square indexes within the gradient.
proof fn lemma_sample_index_bound(x: int, y: int, width: int, height: int)
    requires
        0 <= x < width,
        0 <= y <= height,
        height >= 1,
    ensures
        x * height + y <= width * height,
        y < height ==> x * height + y < width * height,
{
    assert(x * height + height <= width * height) by (nonlinear_arith)
        requires
            x < width,
            height >= 1,
    ;
}

/// The gradient paints the raster pixel under a click exactly once, and
/// with exactly the color `read_color` reads back for that click: the fill
/// at gradient index `x * height + (height - 1 - y)` targets raster pixel
/// `(x, y)` and carries the read-back color.
pub proof fn lemma_read_color_matches_gradient(hue: Hue, x: int, y: int, width: int, height: int)
    requires
        0 <= x < width <= 0xFFFF,
        0 <= y < height <= 0xFFFF,
    ensures
        gradient_ops(hue, width, height)[x * height + (height - 1 - y)] == (SurfaceOp::FillRect {
            x: x as i32,
            y: y as i32,
            width: 1,
            height: 1,
            color: spec_gradient_color(hue, x, height - 1 - y, width, height),
        }),
{
    let k = x * height + (height - 1 - y);
    lemma_sample_index_bound(x, height - 1 - y, width, height);
    lemma_fundamental_div_mod_converse(k, height, x, height - 1 - y);
    assert(gradient_ops(hue, width, height)[k] == gradient_pixel_op(
        hue,
        x,
        height - 1 - y,
        width,
        height,
    ));
}

/// The horizontal pixel where the hue pointer stands: the hue's fraction of
/// the wheel, scaled to the bar's width.
pub open spec fn spec_hue_pointer_x(hue: Hue, width: int) -> int {
    (hue.num * width) / (360 * hue.den)
}

/// What drawing the hue pointer performs: the pointer strip across the top
/// half of the bar is cleared, then a two-pixel-wide black mark is filled at
/// the hue's position.
pub open spec fn hue_pointer_ops(hue: Hue, width: int, height: int) -> Seq<SurfaceOp> {
    seq![
        SurfaceOp::ClearRect { x: 0, y: 0, width: width as u32, height: (height / 2) as u32 },
        SurfaceOp::FillRect {
            x: spec_hue_pointer_x(hue, width) as i32,
            y: 0,
            width: 2,
            height: (height / 2) as u32,
            color: Color(0, 0, 0),
        },
    ]
}

/// The gradient of the hue bar: across its bottom half, each column `x` is
/// filled with the fully saturated, full-value color of hue
/// `360 * x / width` degrees.
pub open spec fn hue_bar_gradient_ops(width: int, height: int) -> Seq<SurfaceOp> {
    Seq::new(
        width as nat,
        |x: int| SurfaceOp::FillRect {
            x: x as i32,
            y: (height / 2 + 1) as i32,
            width: 1,
            height: (height / 2) as u32,
            color: spec_hsv_to_rgb(
                Hue { num: (360 * x) as u32, den: width as u32 },
                Frac { num: 1, den: 1 },
                Frac { num: 1, den: 1 },
            ),
        },
    )
}

/// The hue bar of the color picker: a canvas identity and its operation
/// log.
#[derive(Debug)]
pub struct HueCanvas {
    pub properties: CanvasProperties,
    pub ops: Vec<SurfaceOp>,
}

impl View for HueCanvas {
    type V = Seq<SurfaceOp>;

    /// The visual state of the bar: the operations since the last clear.
    open spec fn view(&self) -> Seq<SurfaceOp> {
        self.ops@
    }
}

impl HueCanvas {
    /// Both extents are positive canvas extents.
    pub open spec fn wf(self) -> bool {
        &&& 1 <= self.properties.width <= 0xFFFF
        &&& 1 <= self.properties.height <= 0xFFFF
    }

    /// A freshly mounted hue bar: nothing painted.
    pub fn new(properties: CanvasProperties) -> (canvas: HueCanvas)
        requires
            1 <= properties.width <= 0xFFFF,
            1 <= properties.height <= 0xFFFF,
        ensures
            canvas.wf(),
            canvas@ == Seq::<SurfaceOp>::empty(),
            canvas.properties == properties,
    {
        HueCanvas { properties, ops: Vec::new() }
    }

    pub fn properties(&self) -> (p: &CanvasProperties)
        ensures
            p == self.properties,
    {
        &self.properties
    }

    /// The operations performed since the bar was last cleared.
    pub fn ops(&self) -> (ops: &Vec<SurfaceOp>)
        ensures
            ops@ == self@,
    {
        &self.ops
    }

    /// Clears the whole bar.
    pub fn clear_canvas(&mut self)
        ensures
            final(self)@ == Seq::<SurfaceOp>::empty(),
            final(self).properties == old(self).properties,
    {
        self.ops.clear();
    }

    /// Moves the hue pointer: clears the pointer strip across the top half
    /// of the bar and fills a two-pixel black mark at the hue's position.
    pub fn draw_hue_pointer(&mut self, hue: Hue)
        requires
            old(self).wf(),
            hue.wf(),
        ensures
            final(self).wf(),
            final(self)@ == old(self)@ + hue_pointer_ops(
                hue,
                old(self).properties.width as int,
                old(self).properties.height as int,
            ),
            final(self).properties == old(self).properties,
    {
        let width = self.properties.width;
        let height = self.properties.height;
        let divisor: u64 = 360 * (hue.den as u64);
        proof {
            assert((hue.num as int) * (width as int) < (divisor as int) * (width as int)
                && (hue.num as int) * (width as int) <= 0x168_0018_0000) by (nonlinear_arith)
                requires
                    (hue.num as int) < (divisor as int),
                    1 <= (width as int) <= 0x1_0000,
                    (divisor as int) <= 0x168_0018,
            ;
        }
        let scaled: u64 = (hue.num as u64) * (width as u64);
        proof {
            vstd::arithmetic::div_mod::lemma_multiply_divide_lt(
                scaled as int,
                divisor as int,
                width as int,
            );
        }
        let pointer_x: u64 = scaled / divisor;
        self.ops.push(
            SurfaceOp::ClearRect { x: 0, y: 0, width, height: height / 2 },
        );
        self.ops.push(
            SurfaceOp::FillRect {
                x: pointer_x as i32,
                y: 0,
                width: 2,
                height: height / 2,
                color: Color(0, 0, 0),
            },
        );
        proof {
            assert(self.ops@ =~= old(self).ops@ + hue_pointer_ops(
                hue,
                width as int,
                height as int,
            ));
        }
    }

    /// Paints the hue bar gradient across its bottom half — each column
    /// takes the fully saturated, full-value color of the hue it maps to —
    /// then draws the hue pointer.
    pub fn draw_hue_bar(&mut self, hue: Hue)
        requires
            old(self).wf(),
            hue.wf(),
        ensures
            final(self).wf(),
            final(self)@ == old(self)@ + hue_bar_gradient_ops(
                old(self).properties.width as int,
                old(self).properties.height as int,
            ) + hue_pointer_ops(
                hue,
                old(self).properties.width as int,
                old(self).properties.height as int,
            ),
            final(self).properties == old(self).properties,
    {
        let width = self.properties.width;
        let height = self.properties.height;
        let ghost base = self.ops@;
        let ghost bar = hue_bar_gradient_ops(width as int, height as int);
        let mut px_x: u32 = 0;
        while px_x < width
            invariant
                px_x <= width,
                1 <= width <= 0xFFFF,
                1 <= height <= 0xFFFF,
                self.properties == old(self).properties,
                self.properties.width == width,
                self.properties.height == height,
                bar == hue_bar_gradient_ops(width as int, height as int),
                self.ops@ == base + bar.take(px_x as int),
            decreases width - px_x,
        {
            let column_hue = Hue::from_bar_position(px_x, width);
            let color = hsv_to_rgb(column_hue, Frac::one(), Frac::one());
            self.ops.push(
                SurfaceOp::FillRect {
                    x: px_x as i32,
                    y: (height / 2 + 1) as i32,
                    width: 1,
                    height: height / 2,
                    color,
                },
            );
            px_x = px_x + 1;
            proof {
                assert(self.ops@ =~= base + bar.take(px_x as int));
            }
        }
        proof {
            assert(base + bar.take(width as int) =~= base + bar);
        }
        self.draw_hue_pointer(hue);
        proof {
            assert(self.ops@ =~= base + bar + hue_pointer_ops(
                hue,
                width as int,
                height as int,
            ));
        }
    }
}

/// The two operations `draw_sat_val_pointer` performs for a click.
pub open spec fn sat_val_pointer_ops(sat_val_coord: (u32, u32)) -> Seq<SurfaceOp> {
    seq![
        SurfaceOp::BeginPath,
        SurfaceOp::OutlineCircle {
            center: Point { x: sat_val_coord.0 as i32, y: sat_val_coord.1 as i32 },
            radius: 3,
            color: Color(255, 255, 255),
        },
    ]
}

/// Handles a click on the saturation/value square: the color under the
/// click is read back, then the square is repainted — cleared, the gradient
/// for the active hue, and the pointer at the click.
pub fn sat_val_click(sat_val_canvas: &mut SatValCanvas, sat_val_coord: (u32, u32)) -> (color:
    Color)
    requires
        old(sat_val_canvas).wf(),
        sat_val_coord.0 < old(sat_val_canvas).properties.width,
        sat_val_coord.1 < old(sat_val_canvas).properties.height,
    ensures
        final(sat_val_canvas).wf(),
        final(sat_val_canvas).hue == old(sat_val_canvas).hue,
        final(sat_val_canvas).properties == old(sat_val_canvas).properties,
        color == spec_gradient_color(
            old(sat_val_canvas).hue,
            sat_val_coord.0 as int,
            old(sat_val_canvas).properties.height - 1 - sat_val_coord.1,
            old(sat_val_canvas).properties.width as int,
            old(sat_val_canvas).properties.height as int,
        ),
        final(sat_val_canvas)@ == gradient_ops(
            old(sat_val_canvas).hue,
            old(sat_val_canvas).properties.width as int,
            old(sat_val_canvas).properties.height as int,
        ) + sat_val_pointer_ops(sat_val_coord),
{
    let color = sat_val_canvas.read_color(sat_val_coord);
    let hue = sat_val_canvas.hue;
    sat_val_canvas.clear_canvas();
    sat_val_canvas.draw_color_picker(hue);
    sat_val_canvas.draw_sat_val_pointer(sat_val_coord);
    proof {
        assert(sat_val_canvas@ =~= gradient_ops(
            old(sat_val_canvas).hue,
            old(sat_val_canvas).properties.width as int,
            old(sat_val_canvas).properties.height as int,
        ) + sat_val_pointer_ops(sat_val_coord));
    }
    color
}

/// Handles a click at `click_x` on the hue bar: the clicked hue takes
/// effect — the bar's pointer moves, the saturation/value gradient is
/// repainted over the square with its pointer — and the color now under the
/// stored square coordinate is read back.
pub fn hue_click(
    sat_val_canvas: &mut SatValCanvas,
    hue_canvas: &mut HueCanvas,
    click_x: u32,
    sat_val_coord: (u32, u32),
) -> (color: Color)
    requires
        old(sat_val_canvas).wf(),
        old(hue_canvas).wf(),
        sat_val_coord.0 < old(sat_val_canvas).properties.width,
        sat_val_coord.1 < old(sat_val_canvas).properties.height,
    ensures
        final(sat_val_canvas).wf(),
        final(hue_canvas).wf(),
        final(sat_val_canvas).properties == old(sat_val_canvas).properties,
        final(hue_canvas).properties == old(hue_canvas).properties,
        final(sat_val_canvas).hue == spec_bar_hue(
            click_x as int,
            old(hue_canvas).properties.width as int,
        ),
        final(hue_canvas)@ == old(hue_canvas)@ + hue_pointer_ops(
            spec_bar_hue(click_x as int, old(hue_canvas).properties.width as int),
            old(hue_canvas).properties.width as int,
            old(hue_canvas).properties.height as int,
        ),
        final(sat_val_canvas)@ == old(sat_val_canvas)@ + gradient_ops(
            spec_bar_hue(click_x as int, old(hue_canvas).properties.width as int),
            old(sat_val_canvas).properties.width as int,
            old(sat_val_canvas).properties.height as int,
        ) + sat_val_pointer_ops(sat_val_coord),
        color == spec_gradient_color(
            spec_bar_hue(click_x as int, old(hue_canvas).properties.width as int),
            sat_val_coord.0 as int,
            old(sat_val_canvas).properties.height - 1 - sat_val_coord.1,
            old(sat_val_canvas).properties.width as int,
            old(sat_val_canvas).properties.height as int,
        ),
{
    let hue = Hue::from_bar_position(click_x, hue_canvas.properties.width);
    hue_canvas.draw_hue_pointer(hue);
    sat_val_canvas.draw_color_picker(hue);
    sat_val_canvas.draw_sat_val_pointer(sat_val_coord);
    let color = sat_val_canvas.read_color(sat_val_coord);
    proof {
        assert(sat_val_canvas@ =~= old(sat_val_canvas)@ + gradient_ops(
            spec_bar_hue(click_x as int, old(hue_canvas).properties.width as int),
            old(sat_val_canvas).properties.width as int,
            old(sat_val_canvas).properties.height as int,
        ) + sat_val_pointer_ops(sat_val_coord));
    }
    color
}

} // verus!
