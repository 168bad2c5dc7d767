use lets_draw::color::{hsv_to_rgb, Frac, Hue};
use lets_draw::geometry::Color;

#[test]
fn primary_hues_at_full_saturation_and_value() {
    // HSV(0,1,1) is red, HSV(120,1,1) green, HSV(240,1,1) blue.
    assert_eq!(hsv_to_rgb(Hue::from_degrees(0), Frac::one(), Frac::one()), Color(255, 0, 0));
    assert_eq!(hsv_to_rgb(Hue::from_degrees(120), Frac::one(), Frac::one()), Color(0, 255, 0));
    assert_eq!(hsv_to_rgb(Hue::from_degrees(240), Frac::one(), Frac::one()), Color(0, 0, 255));
}

#[test]
fn named_colors() {
    let zero = Frac::new(0, 1);
    assert_eq!(hsv_to_rgb(Hue::from_degrees(0), zero, zero), Color(0, 0, 0));
    assert_eq!(hsv_to_rgb(Hue::from_degrees(0), zero, Frac::one()), Color(255, 255, 255));
    assert_eq!(hsv_to_rgb(Hue::from_degrees(60), Frac::one(), Frac::one()), Color(255, 255, 0));
    assert_eq!(hsv_to_rgb(Hue::from_degrees(180), Frac::one(), Frac::one()), Color(0, 255, 255));
    assert_eq!(hsv_to_rgb(Hue::from_degrees(300), Frac::one(), Frac::one()), Color(255, 0, 255));
}

#[test]
fn matches_reference_conversion_on_exact_samples() {
    // At whole hues that are multiples of 30 and quarter-step saturations
    // and values, the floating-point reference conversion is exact, so the
    // integer conversion must agree byte for byte.
    for hue_degrees in (0..360).step_by(30) {
        for s_quarters in 0..=4 {
            for v_quarters in 0..=4 {
                let ours = hsv_to_rgb(
                    Hue::from_degrees(hue_degrees),
                    Frac::new(s_quarters, 4),
                    Frac::new(v_quarters, 4),
                );
                let (r, g, b) = hsv::hsv_to_rgb(
                    hue_degrees as f64,
                    s_quarters as f64 / 4.0,
                    v_quarters as f64 / 4.0,
                );
                assert_eq!(
                    ours,
                    Color(r, g, b),
                    "hue {} sat {}/4 val {}/4",
                    hue_degrees,
                    s_quarters,
                    v_quarters
                );
            }
        }
    }
}

#[test]
fn hue_bar_position_maps_linearly() {
    let h = Hue::from_bar_position(0, 150);
    assert_eq!((h.num, h.den), (0, 150));
    let h = Hue::from_bar_position(75, 150);
    assert_eq!((h.num, h.den), (27000, 150));  // 180 degrees
    let quarter = Hue::from_bar_position(1, 4);
    let (r, g, b) = hsv::hsv_to_rgb(90.0, 1.0, 1.0);
    assert_eq!(hsv_to_rgb(quarter, Frac::one(), Frac::one()), Color(r, g, b));
}

#[test]
fn hue_bar_position_clamps_below_full_turn() {
    let h = Hue::from_bar_position(150, 150);
    assert_eq!((h.num, h.den), (150 * 360 - 1, 150));
    assert!(h.num < 360 * h.den);
    let h = Hue::from_bar_position(200, 150);
    assert_eq!((h.num, h.den), (150 * 360 - 1, 150));
}

#[test]
fn color_dissolves_into_channels() {
    assert_eq!(Color(1, 2, 3).dissolve(), (1, 2, 3));
}
