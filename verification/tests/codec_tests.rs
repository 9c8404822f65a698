use color_pipeline::ColorDepth;
use color_pipeline::codec::be_pair_to_sample;
use color_pipeline::codec::bytes_to_samples;
use color_pipeline::codec::sample_to_be_pair;
use color_pipeline::codec::samples_to_bytes;

#[test]
fn be_pair_reads_big_endian() {
    assert_eq!(be_pair_to_sample(0x80, 0x00), 32768);
    assert_eq!(be_pair_to_sample(0x01, 0xFF), 511);
    assert_eq!(be_pair_to_sample(0x00, 0x00), 0);
    assert_eq!(be_pair_to_sample(0xFF, 0xFF), 65535);
}

#[test]
fn sample_splits_big_endian() {
    assert_eq!(sample_to_be_pair(32768), (0x80, 0x00));
    assert_eq!(sample_to_be_pair(511), (0x01, 0xFF));
    assert_eq!(sample_to_be_pair(0), (0x00, 0x00));
    assert_eq!(sample_to_be_pair(65535), (0xFF, 0xFF));
}

#[test]
fn pair_round_trips_through_sample() {
    for hi in 0..=255u16 {
        for lo in 0..=255u16 {
            let v = be_pair_to_sample(hi as u8, lo as u8);
            assert_eq!(sample_to_be_pair(v), (hi as u8, lo as u8));
        }
    }
}

#[test]
fn eight_bit_bytes_are_samples() {
    let bytes = vec![0u8, 1, 127, 255];
    let samples = bytes_to_samples(&bytes, ColorDepth::EightBit);
    assert_eq!(samples, vec![0u16, 1, 127, 255]);
    assert_eq!(samples_to_bytes(&samples, ColorDepth::EightBit), bytes);
}

#[test]
fn sixteen_bit_bytes_pair_up() {
    let bytes = vec![0x80u8, 0x00, 0x01, 0xFF, 0x00, 0x2A];
    let samples = bytes_to_samples(&bytes, ColorDepth::SixteenBit);
    assert_eq!(samples, vec![32768u16, 511, 42]);
    assert_eq!(samples_to_bytes(&samples, ColorDepth::SixteenBit), bytes);
}

#[test]
fn empty_buffers_stay_empty() {
    let no_bytes: Vec<u8> = Vec::new();
    let no_samples: Vec<u16> = Vec::new();
    assert!(bytes_to_samples(&no_bytes, ColorDepth::EightBit).is_empty());
    assert!(bytes_to_samples(&no_bytes, ColorDepth::SixteenBit).is_empty());
    assert!(samples_to_bytes(&no_samples, ColorDepth::EightBit).is_empty());
    assert!(samples_to_bytes(&no_samples, ColorDepth::SixteenBit).is_empty());
}

#[test]
fn sixteen_bit_samples_round_trip_through_bytes() {
    let samples = vec![0u16, 1, 255, 256, 32768, 65534, 65535];
    let bytes = samples_to_bytes(&samples, ColorDepth::SixteenBit);
    assert_eq!(bytes.len(), 2 * samples.len());
    assert_eq!(bytes_to_samples(&bytes, ColorDepth::SixteenBit), samples);
}
