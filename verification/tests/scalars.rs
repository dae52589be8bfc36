use kayak_text::{to_render_color, Color, RenderColor, Scalar, Vec2, LINE_HEIGHT_FACTOR};

fn s(value: f32) -> Scalar {
    Scalar::from_bits(value.to_bits())
}

const SAMPLES: [f32; 22] = [
    0.0,
    -0.0,
    1.0,
    -1.0,
    1.2,
    10.0,
    14.0,
    0.1,
    0.2,
    0.3,
    1.0e-45,
    1.0e-40,
    1.1754944e-38,
    3.4028235e38,
    -3.4028235e38,
    16777216.0,
    16777217.0,
    0.33333334,
    123456.79,
    -7.5e-3,
    f32::INFINITY,
    f32::NEG_INFINITY,
];

#[test]
fn bits_go_in_and_out_unchanged() {
    for bits in [0u32, 1, 0x3F80_0000, 0x7FC0_0000, 0x8000_0000, u32::MAX] {
        assert_eq!(Scalar::from_bits(bits).to_bits(), bits);
        assert_eq!(Scalar::from_bits(bits).bits, bits);
    }
    assert_eq!(Scalar::zero().to_bits(), 0);
}

#[test]
fn one_plus_two_is_three() {
    assert_eq!(s(1.0).plus(s(2.0)), s(3.0));
    assert_eq!(s(0.1).plus(s(0.2)).to_bits(), 0x3E99_999A);
}

#[test]
fn three_times_four_is_twelve() {
    assert_eq!(s(3.0).times(s(4.0)), s(12.0));
    assert_eq!(s(10.0).times(Scalar::from_bits(LINE_HEIGHT_FACTOR)), s(12.0));
}

#[test]
fn line_height_factor_is_the_single_nearest_six_fifths() {
    assert_eq!(LINE_HEIGHT_FACTOR, 1.2f32.to_bits());
}

#[test]
fn sums_are_those_of_the_machine() {
    for a in SAMPLES {
        for b in SAMPLES {
            let sum = a + b;
            let got = s(a).plus(s(b));
            if sum.is_nan() {
                assert!(f32::from_bits(got.to_bits()).is_nan());
            } else {
                assert_eq!(got.to_bits(), sum.to_bits(), "{a} + {b}");
            }
        }
    }
}

#[test]
fn products_are_those_of_the_machine() {
    for a in SAMPLES {
        for b in SAMPLES {
            let product = a * b;
            let got = s(a).times(s(b));
            if product.is_nan() {
                assert!(f32::from_bits(got.to_bits()).is_nan());
            } else {
                assert_eq!(got.to_bits(), product.to_bits(), "{a} * {b}");
            }
        }
    }
}

#[test]
fn vectors_add_by_component() {
    let sum = Vec2::new(s(1.5), s(-2.0)).plus(Vec2::new(s(0.25), s(2.0)));
    assert_eq!(sum, Vec2 { x: s(1.75), y: s(0.0) });
    assert_eq!(Vec2::new(s(3.0), s(4.0)), Vec2 { x: s(3.0), y: s(4.0) });
}

#[test]
fn color_keeps_its_components() {
    let color = Color { r: s(0.1), g: s(0.2), b: s(0.3), a: s(0.4) };
    assert_eq!(
        to_render_color(&color),
        RenderColor::Rgba { red: s(0.1), green: s(0.2), blue: s(0.3), alpha: s(0.4) }
    );
}
