use gpui3d::scalar::Scalar;

fn bits(x: f32) -> Scalar {
    Scalar::from_bits(x.to_bits())
}

fn samples() -> Vec<f32> {
    vec![
        f32::NEG_INFINITY,
        -3.5,
        -1.0,
        -0.0,
        0.0,
        f32::MIN_POSITIVE,
        0.5,
        1.5,
        f32::MAX,
        f32::INFINITY,
        f32::NAN,
        -f32::NAN,
    ]
}

#[test]
fn order_of_bits_is_order_of_floats() {
    for &a in &samples() {
        assert_eq!(bits(a).is_nan(), a.is_nan());
        for &b in &samples() {
            assert_eq!(bits(a).lt(bits(b)), a < b);
        }
    }
}

#[test]
fn clamp_of_bits_is_clamp_of_floats() {
    for &x in &samples() {
        for &low in &samples() {
            for &high in &samples() {
                if low <= high {
                    let want = x.clamp(low, high);
                    assert_eq!(bits(x).clamp(bits(low), bits(high)).bits, want.to_bits());
                }
            }
        }
    }
}

#[test]
fn max_and_min_of_bits_are_those_of_floats() {
    for &a in &samples() {
        for &b in &samples() {
            if b.is_nan() || (a == 0.0 && b == 0.0) {
                continue;
            }
            assert_eq!(bits(a).max(bits(b)).bits, a.max(b).to_bits());
            assert_eq!(bits(a).min(bits(b)).bits, a.min(b).to_bits());
        }
    }
}
