use vvec3::ABS_MASK;
use vvec3::SIGN_BIT;
use vvec3::Vec3;
use vvec3::scalar_eq_zero;
use vvec3::scalar_lt;
use vvec3::scalar_lt_zero;

fn v(x: f32, y: f32, z: f32) -> Vec3 {
    Vec3::new(x.to_bits(), y.to_bits(), z.to_bits())
}

#[test]
fn new_keeps_components() {
    let vec = v(1., 1., 0.);
    assert_eq!(f32::from_bits(vec.x), 1.);
    assert_eq!(f32::from_bits(vec.y), 1.);
    assert_eq!(f32::from_bits(vec.z), 0.);

    let odd = v(f32::NAN, f32::INFINITY, -0.);
    assert!(f32::from_bits(odd.x).is_nan());
    assert_eq!(f32::from_bits(odd.y), f32::INFINITY);
    assert_eq!(odd.z, (-0.0f32).to_bits());
}

#[test]
fn default_is_zero_vector() {
    let zero = Vec3::default();
    assert_eq!(zero, v(0., 0., 0.));
    assert_eq!(f32::from_bits(zero.x), 0.);
    assert_eq!(f32::from_bits(zero.y), 0.);
    assert_eq!(f32::from_bits(zero.z), 0.);
    assert!(f32::from_bits(zero.z).is_sign_positive());
}

#[test]
fn flatten_zeroes_z() {
    let samples: [f32; 6] = [0.5, -4.25, 0., -0., f32::INFINITY, f32::NAN];
    for z in samples {
        let flat = v(1., 1., z).flatten();
        assert_eq!(flat.x, 1.0f32.to_bits());
        assert_eq!(flat.y, 1.0f32.to_bits());
        assert_eq!(flat.z, 0);
        assert_eq!(f32::from_bits(flat.z), 0.);
        assert!(f32::from_bits(flat.z).is_sign_positive());
    }
}

#[test]
fn neg_matches_float_negation() {
    let samples: [f32; 10] = [
        0.,
        -0.,
        1.5,
        -7.25,
        5.2,
        1e-45,
        f32::INFINITY,
        f32::NEG_INFINITY,
        f32::NAN,
        -f32::NAN,
    ];
    for f in samples {
        let neg = v(f, f, f).neg();
        assert_eq!(neg.x, (-f).to_bits());
        assert_eq!(neg.y, (-f).to_bits());
        assert_eq!(neg.z, (-f).to_bits());
    }
}

#[test]
fn neg_is_an_involution() {
    let vec = v(1., -5.2, f32::NAN);
    assert_eq!(vec.neg().neg(), vec);
}

#[test]
fn neg_keeps_magnitude_bits() {
    let samples: [f32; 5] = [0., -0., 5.2, f32::NAN, f32::NEG_INFINITY];
    for f in samples {
        let neg = v(f, f, f).neg();
        assert_eq!(neg.x & ABS_MASK, f.to_bits() & ABS_MASK);
        assert_ne!(neg.x & SIGN_BIT, f.to_bits() & SIGN_BIT);
    }
}

#[test]
fn scalar_eq_zero_matches_float_compare() {
    let samples: [f32; 8] = [
        0.,
        -0.,
        1e-45,
        -1e-45,
        1.,
        f32::NAN,
        f32::INFINITY,
        f32::NEG_INFINITY,
    ];
    for f in samples {
        assert_eq!(scalar_eq_zero(f.to_bits()), f == 0., "pattern {:#010x}", f.to_bits());
    }
}

#[test]
fn scalar_lt_matches_float_compare_on_all_pairs() {
    let samples: [f32; 16] = [
        0.,
        -0.,
        1e-45,
        -1e-45,
        f32::MIN_POSITIVE,
        -f32::MIN_POSITIVE,
        1.,
        -1.,
        5.2,
        -5.2,
        f32::MAX,
        f32::MIN,
        f32::INFINITY,
        f32::NEG_INFINITY,
        f32::NAN,
        -f32::NAN,
    ];
    for a in samples {
        for b in samples {
            assert_eq!(
                scalar_lt(a.to_bits(), b.to_bits()),
                a < b,
                "patterns {:#010x} {:#010x}",
                a.to_bits(),
                b.to_bits()
            );
        }
    }
}

#[test]
fn scalar_lt_zero_matches_float_compare() {
    let samples: [f32; 10] = [
        0.,
        -0.,
        1.5,
        -1.5,
        1e-45,
        -1e-45,
        f32::INFINITY,
        f32::NEG_INFINITY,
        f32::NAN,
        -f32::NAN,
    ];
    for f in samples {
        assert_eq!(scalar_lt_zero(f.to_bits()), f < 0., "pattern {:#010x}", f.to_bits());
    }
}
