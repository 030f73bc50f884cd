use qkukeb_engine::double::Double;

fn bits(x: f64) -> Double {
    Double::from_bits(x.to_bits())
}

#[test]
fn comparisons_agree_with_the_hardware() {
    let samples = [
        0.0,
        -0.0,
        1.0,
        -1.0,
        0.04,
        0.05,
        f64::MIN_POSITIVE,
        f64::MIN_POSITIVE / 2.0,
        f64::from_bits(1),
        -f64::from_bits(1),
        f64::MAX,
        f64::MIN,
        f64::INFINITY,
        f64::NEG_INFINITY,
        f64::NAN,
    ];
    for a in samples {
        for b in samples {
            assert_eq!(bits(a).exceeds(bits(b)), a > b, "{} > {}", a, b);
        }
        assert_eq!(bits(a).is_nan(), a.is_nan());
    }
}

#[test]
fn whole_numbers_have_the_encoding_of_the_hardware() {
    for n in [0u32, 1, 2, 3, 5, 50, 255, 256, 1_000_000, u32::MAX - 1, u32::MAX] {
        assert_eq!(Double::from_u32(n), bits(n as f64));
    }
}
