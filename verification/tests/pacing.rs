use studigo::pacing::frame_interval_us;

#[test]
fn frame_interval_of_common_rates() {
    assert_eq!(frame_interval_us(30.0f32.to_bits()), 33333);
    assert_eq!(frame_interval_us(60.0f32.to_bits()), 16666);
    assert_eq!(frame_interval_us(29.97f32.to_bits()), 33366);
    assert_eq!(frame_interval_us(1.0f32.to_bits()), 1_000_000);
    assert_eq!(frame_interval_us(0.5f32.to_bits()), 2_000_000);
}

#[test]
fn frame_interval_of_degenerate_rates() {
    assert_eq!(frame_interval_us(0.0f32.to_bits()), 0);
    assert_eq!(frame_interval_us((-30.0f32).to_bits()), 0);
    assert_eq!(frame_interval_us(f32::NAN.to_bits()), 0);
    assert_eq!(frame_interval_us(f32::INFINITY.to_bits()), 0);
    assert_eq!(frame_interval_us(1.0e30f32.to_bits()), 0);
    assert_eq!(frame_interval_us(1.0e-30f32.to_bits()), u64::MAX);
    assert_eq!(frame_interval_us(f32::MIN_POSITIVE.to_bits()), u64::MAX);
}
