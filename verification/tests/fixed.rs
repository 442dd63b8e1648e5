use aicc_core::fixed::{micro_from_bits, scale_micro};

#[test]
fn exact_fractions_convert_exactly() {
    assert_eq!(0, micro_from_bits(0.0f32.to_bits()));
    assert_eq!(0, micro_from_bits((-0.0f32).to_bits()));
    assert_eq!(500_000, micro_from_bits(0.5f32.to_bits()));
    assert_eq!(-500_000, micro_from_bits((-0.5f32).to_bits()));
    assert_eq!(250_000, micro_from_bits(0.25f32.to_bits()));
    assert_eq!(1_000_000, micro_from_bits(1.0f32.to_bits()));
    assert_eq!(-1_000_000, micro_from_bits((-1.0f32).to_bits()));
}

#[test]
fn inexact_fractions_round_to_the_nearest_millionth() {
    assert_eq!(300_000, micro_from_bits(0.3f32.to_bits()));
    assert_eq!(-987_000, micro_from_bits((-0.987f32).to_bits()));
    assert_eq!(100_000, micro_from_bits(0.1f32.to_bits()));
}

#[test]
fn out_of_range_values_saturate() {
    assert_eq!(1_000_000, micro_from_bits(1.5f32.to_bits()));
    assert_eq!(1_000_000, micro_from_bits(823.263f32.to_bits()));
    assert_eq!(-1_000_000, micro_from_bits((-132.321f32).to_bits()));
    assert_eq!(1_000_000, micro_from_bits(f32::INFINITY.to_bits()));
    assert_eq!(-1_000_000, micro_from_bits(f32::NEG_INFINITY.to_bits()));
}

#[test]
fn not_a_number_reads_as_zero() {
    assert_eq!(0, micro_from_bits(f32::NAN.to_bits()));
}

#[test]
fn tiny_values_round_to_zero() {
    assert_eq!(0, micro_from_bits(1.0e-7f32.to_bits()));
    assert_eq!(0, micro_from_bits(f32::MIN_POSITIVE.to_bits()));
    // A denormal.
    assert_eq!(0, micro_from_bits(1));
}

#[test]
fn scaling_by_unit_factors_is_exact() {
    assert_eq!(-500_000, scale_micro(500_000, -1_000_000));
    assert_eq!(500_000, scale_micro(500_000, 1_000_000));
    assert_eq!(0, scale_micro(0, -1_000_000));
}

#[test]
fn scaling_rounds_to_the_nearest_millionth() {
    // 0.5 * 0.01625 = 0.008125 exactly.
    assert_eq!(8_125, scale_micro(500_000, 16_250));
    // 0.25 * 0.01625 = 0.0040625 rounds up, away from zero.
    assert_eq!(4_063, scale_micro(250_000, 16_250));
    assert_eq!(-4_063, scale_micro(-250_000, 16_250));
}
