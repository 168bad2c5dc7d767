use lets_draw::color::Hue;
use lets_draw::geometry::{Color, Point};
use lets_draw::picker::{HueCanvas, SatValCanvas};
use lets_draw::surface::{CanvasProperties, SurfaceOp};

fn sat_val_canvas(width: u32, height: u32) -> SatValCanvas {
    SatValCanvas::new(CanvasProperties { name: "sat-val-canvas", width, height })
}

fn hue_canvas(width: u32, height: u32) -> HueCanvas {
    HueCanvas::new(CanvasProperties { name: "hue-canvas", width, height })
}

#[test]
fn gradient_paints_every_pixel_with_its_sample_color() {
    // On a 4x4 square the saturations and values are exact quarters, so the
    // floating-point reference conversion is exact for every sample.
    let mut canvas = sat_val_canvas(4, 4);
    canvas.draw_color_picker(Hue::from_degrees(0));
    let ops = canvas.ops();
    assert_eq!(ops.len(), 16);
    for x in 0..4u32 {
        for y in 0..4u32 {
            let k = (x * 4 + y) as usize;
            let (r, g, b) = hsv::hsv_to_rgb(0.0, x as f64 / 4.0, y as f64 / 4.0);
            assert_eq!(
                ops[k],
                SurfaceOp::FillRect {
                    x: x as i32,
                    y: (4 - 1 - y) as i32,
                    width: 1,
                    height: 1,
                    color: Color(r, g, b),
                },
                "sample ({}, {})",
                x,
                y
            );
        }
    }
}

#[test]
fn read_color_agrees_with_the_painted_gradient() {
    // The color read back for a click is exactly the color the gradient
    // painted on that raster pixel.
    let mut canvas = sat_val_canvas(4, 4);
    canvas.draw_color_picker(Hue::from_degrees(90));
    for click_x in 0..4u32 {
        for click_y in 0..4u32 {
            let read = canvas.read_color((click_x, click_y));
            let painted = canvas
                .ops()
                .iter()
                .filter_map(|op| match op {
                    SurfaceOp::FillRect { x, y, color, .. }
                        if *x == click_x as i32 && *y == click_y as i32 => Some(*color),
                    _ => None,
                })
                .last()
                .expect("every pixel is painted");
            assert_eq!(read, painted, "click ({}, {})", click_x, click_y);
        }
    }
}

#[test]
fn sat_val_pointer_draws_a_white_outline() {
    let mut canvas = sat_val_canvas(150, 150);
    canvas.draw_sat_val_pointer((40, 60));
    assert_eq!(
        canvas.ops(),
        &vec![
            SurfaceOp::BeginPath,
            SurfaceOp::OutlineCircle {
                center: Point { x: 40, y: 60 },
                radius: 3,
                color: Color(255, 255, 255),
            },
        ]
    );
}

#[test]
fn clearing_the_square_resets_its_state() {
    let mut canvas = sat_val_canvas(4, 4);
    canvas.draw_color_picker(Hue::from_degrees(45));
    canvas.clear_canvas();
    assert!(canvas.ops().is_empty());
}

#[test]
fn hue_bar_paints_each_column_with_its_hue() {
    // On a 4-wide bar the column hues are 0, 90, 180 and 270 degrees, all
    // exact in the floating-point reference conversion.
    let mut canvas = hue_canvas(4, 20);
    canvas.draw_hue_bar(Hue::from_degrees(180));
    let ops = canvas.ops();
    assert_eq!(ops.len(), 4 + 2);
    for x in 0..4u32 {
        let (r, g, b) = hsv::hsv_to_rgb(360.0 * x as f64 / 4.0, 1.0, 1.0);
        assert_eq!(
            ops[x as usize],
            SurfaceOp::FillRect {
                x: x as i32,
                y: 11,
                width: 1,
                height: 10,
                color: Color(r, g, b),
            },
            "column {}",
            x
        );
    }
}

#[test]
fn hue_pointer_lands_at_the_scaled_position() {
    let mut canvas = hue_canvas(150, 20);
    canvas.draw_hue_pointer(Hue::from_degrees(180));
    assert_eq!(
        canvas.ops(),
        &vec![
            SurfaceOp::ClearRect { x: 0, y: 0, width: 150, height: 10 },
            SurfaceOp::FillRect { x: 75, y: 0, width: 2, height: 10, color: Color(0, 0, 0) },
        ]
    );
}

#[test]
fn sat_val_click_reads_then_repaints() {
    let mut canvas = sat_val_canvas(4, 4);
    canvas.draw_color_picker(Hue::from_degrees(90));
    let color = lets_draw::picker::sat_val_click(&mut canvas, (1, 1));
    // The click at (1,1) samples saturation 1/4 and value (4-1-1)/4 = 1/2.
    let (r, g, b) = hsv::hsv_to_rgb(90.0, 0.25, 0.5);
    assert_eq!(color, Color(r, g, b));
    // Repainted: 16 gradient fills, then the pointer pair.
    assert_eq!(canvas.ops().len(), 18);
    assert!(matches!(canvas.ops()[16], SurfaceOp::BeginPath));
    assert!(matches!(
        canvas.ops()[17],
        SurfaceOp::OutlineCircle { center: Point { x: 1, y: 1 }, radius: 3, .. }
    ));
}

#[test]
fn hue_click_applies_the_new_hue_everywhere() {
    let mut square = sat_val_canvas(4, 4);
    let mut bar = hue_canvas(4, 20);
    // A click at 2 of 4 selects 180 degrees.
    let color = lets_draw::picker::hue_click(&mut square, &mut bar, 2, (1, 1));
    let (r, g, b) = hsv::hsv_to_rgb(180.0, 0.25, 0.5);
    assert_eq!(color, Color(r, g, b));
    assert_eq!((square.hue.num, square.hue.den), (720, 4));
    // The bar got its pointer pair; the square its gradient and pointer.
    assert_eq!(bar.ops().len(), 2);
    assert_eq!(square.ops().len(), 18);
}
