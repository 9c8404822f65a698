use color_pipeline::ColorDepth;
use color_pipeline::format::sample_count;

#[test]
fn depth_scales_match_the_integer_ranges() {
    assert_eq!(ColorDepth::EightBit.scale(), 255);
    assert_eq!(ColorDepth::SixteenBit.scale(), 65535);
}

#[test]
fn depth_bit_widths() {
    assert_eq!(ColorDepth::EightBit.bits(), 8);
    assert_eq!(ColorDepth::SixteenBit.bits(), 16);
    assert_eq!(ColorDepth::EightBit.bytes_per_sample(), 1);
    assert_eq!(ColorDepth::SixteenBit.bytes_per_sample(), 2);
}

#[test]
fn sample_count_is_three_per_pixel() {
    assert_eq!(sample_count(10, 20), Some(600));
    assert_eq!(sample_count(1, 1), Some(3));
    assert_eq!(sample_count(0, 12345), Some(0));
}

#[test]
fn sample_count_rejects_overflow() {
    assert_eq!(sample_count(usize::MAX, 2), None);
    assert_eq!(sample_count(usize::MAX / 2, 3), None);
}
