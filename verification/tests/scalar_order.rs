use noise_map_builder::scalar::F64_NEG_NINETY_BITS;
use noise_map_builder::scalar::F64_NEG_ONE_BITS;
use noise_map_builder::scalar::F64_NINETY_BITS;
use noise_map_builder::scalar::F64_ONE_BITS;
use noise_map_builder::scalar::ge_bits;

const SAMPLES: [f64; 18] = [
    0.0,
    -0.0,
    1.0,
    -1.0,
    90.0,
    -90.0,
    1.5,
    -2.5,
    1e-300,
    -1e-300,
    5e-324,
    -5e-324,
    1e300,
    -1e300,
    f64::INFINITY,
    f64::NEG_INFINITY,
    f64::NAN,
    f64::MAX,
];

#[test]
fn ge_bits_matches_the_float_comparison() {
    for &a in SAMPLES.iter() {
        for &b in SAMPLES.iter() {
            assert_eq!(
                ge_bits(a.to_bits(), b.to_bits()),
                a >= b,
                "comparing {a} >= {b}"
            );
        }
    }
}

#[test]
fn ge_bits_rejects_every_nan_comparison() {
    let quiet = f64::NAN;
    assert!(!ge_bits(quiet.to_bits(), quiet.to_bits()));
    assert!(!ge_bits(quiet.to_bits(), 0.0f64.to_bits()));
    assert!(!ge_bits(0.0f64.to_bits(), quiet.to_bits()));
}

#[test]
fn ge_bits_treats_signed_zeros_as_equal() {
    assert!(ge_bits((-0.0f64).to_bits(), 0.0f64.to_bits()));
    assert!(ge_bits(0.0f64.to_bits(), (-0.0f64).to_bits()));
}

#[test]
fn named_bit_patterns_match_the_values() {
    assert_eq!(F64_ONE_BITS, 1.0f64.to_bits());
    assert_eq!(F64_NEG_ONE_BITS, (-1.0f64).to_bits());
    assert_eq!(F64_NINETY_BITS, 90.0f64.to_bits());
    assert_eq!(F64_NEG_NINETY_BITS, (-90.0f64).to_bits());
}
