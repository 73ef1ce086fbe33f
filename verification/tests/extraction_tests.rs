use optical_entropy::analysis::Ratio;
use optical_entropy::capture::Frame;
use optical_entropy::extraction::{Extractor, RawBits, SpatialMixer, TemporalDifferencer};

fn value(ratio: Ratio) -> f64 {
    ratio.num as f64 / ratio.den as f64
}

#[test]
fn test_unbiased_data() {
    // Alternating bits: 0xAA = 10101010
    let data = vec![0xAA; 100];
    let bits = RawBits::from_bytes(data, 1);

    // Should be perfectly unbiased
    assert!(value(bits.bit_bias()).abs() < 0.001);
}

#[test]
fn test_all_ones_bias() {
    let data = vec![0xFF; 100];
    let bits = RawBits::from_bytes(data, 1);

    // All ones = bias of +0.5
    assert!((value(bits.bit_bias()) - 0.5).abs() < 0.001);
}

#[test]
fn test_all_zeros_bias() {
    let data = vec![0x00; 100];
    let bits = RawBits::from_bytes(data, 1);

    // All zeros = bias of -0.5
    assert!((value(bits.bit_bias()) + 0.5).abs() < 0.001);
}

#[test]
fn test_bias_is_an_exact_ratio() {
    // 0x0F, 0x01: five set bits of sixteen, so 5/16 - 1/2 = -3/16.
    let bits = RawBits::from_bytes(vec![0x0F, 0x01], 1);
    let bias = bits.bit_bias();
    assert_eq!(bias, Ratio { num: -6, den: 32 });
    assert_eq!(value(bias), -0.1875);

    let ones = RawBits::from_bytes(vec![0xFF; 3], 1).bit_bias();
    assert_eq!(2 * ones.num, ones.den);
    let zeros = RawBits::from_bytes(vec![0x00; 3], 1).bit_bias();
    assert_eq!(2 * zeros.num, -zeros.den);
    let even = RawBits::from_bytes(vec![0xAA; 3], 1).bit_bias();
    assert_eq!(even.num, 0);
}

#[test]
fn test_bias_of_empty_buffer_is_zero() {
    let bits = RawBits::from_bytes(Vec::new(), 0);
    assert_eq!(bits.bit_bias(), Ratio { num: 0, den: 1 });
}

#[test]
fn test_bias_stays_within_half() {
    for byte in 0..=255u8 {
        let bias = RawBits::from_bytes(vec![byte; 7], 1).bit_bias();
        assert!(bias.den > 0);
        assert!(-bias.den <= 2 * bias.num && 2 * bias.num <= bias.den);
    }
}

#[test]
fn test_raw_bits_accessors() {
    let bits = RawBits::from_bytes(vec![0x01, 0x03, 0x07, 0xFF], 42);
    assert_eq!(bits.data(), &[0x01u8, 0x03, 0x07, 0xFF][..]);
    assert_eq!(bits.len(), 4);
    assert!(!bits.is_empty());
    assert_eq!(bits.bit_count(), 32);
    assert_eq!(bits.source_frames(), 42);
    assert_eq!(bits.popcount(), 1 + 2 + 3 + 8);

    let copy = bits.clone();
    assert_eq!(copy.data(), bits.data());
    assert_eq!(copy.source_frames(), 42);

    let empty = RawBits::from_bytes(Vec::new(), 0);
    assert!(empty.is_empty());
    assert_eq!(empty.popcount(), 0);
    assert_eq!(empty.bit_count(), 0);
}

#[test]
fn test_popcount_of_every_byte() {
    for byte in 0..=255u8 {
        let bits = RawBits::from_bytes(vec![byte], 1);
        let mut expected = 0;
        for shift in 0..8 {
            expected += ((byte >> shift) & 1) as usize;
        }
        assert_eq!(bits.popcount(), expected);
    }
}

#[test]
fn test_extractor_needs_two_frames() {
    let mut extractor = Extractor::new();

    let frame1 = Frame::new(vec![100u8; 64], 8, 8, 1);
    let frame2 = Frame::new(vec![150u8; 64], 8, 8, 2);

    // First frame: no output (need previous for differencing)
    assert!(extractor.process(&frame1).is_none());

    // Second frame: should produce output
    let bits = extractor.process(&frame2);
    assert!(bits.is_some());
}

#[test]
fn test_extractor_differences_then_mixes() {
    let mut extractor = Extractor::default();
    let frame1 = Frame::new(vec![10, 20, 30, 40], 2, 2, 7);
    let frame2 = Frame::new(vec![11, 18, 34, 32], 2, 2, 8);
    assert!(extractor.process(&frame1).is_none());

    // Differences 1, 2, 4, 8; each XORed with its right neighbour.
    let bits = extractor.process(&frame2).unwrap();
    assert_eq!(bits.data(), &[1u8 ^ 2, 2 ^ 4, 4 ^ 8, 8 ^ 1][..]);
    assert_eq!(bits.source_frames(), 8);
}

#[test]
fn test_extractor_reset_requires_priming_again() {
    let mut extractor = Extractor::new();
    let frame = Frame::new(vec![1u8; 16], 4, 4, 1);
    assert!(extractor.process(&frame).is_none());
    assert!(extractor.process(&frame).is_some());
    extractor.reset();
    assert!(extractor.process(&frame).is_none());
    assert!(extractor.process(&frame).is_some());
}

#[test]
fn test_empty_input() {
    let mixer = SpatialMixer::new();
    assert!(mixer.mix(&[]).is_empty());
}

#[test]
fn test_self_xor_with_stride_zero() {
    // With stride 0 (treated as 1), each byte XORs with next
    let mixer = SpatialMixer::with_stride(0);
    let data = vec![0xAA, 0x55, 0xAA, 0x55];
    let result = mixer.mix(&data);

    // 0xAA ^ 0x55 = 0xFF for all positions
    assert!(result.iter().all(|&v| v == 0xFF));
}

#[test]
fn test_identical_data_zeros() {
    let mixer = SpatialMixer::new();
    let data = vec![0x42; 100];
    let result = mixer.mix(&data);

    // Identical bytes XOR to zero
    assert!(result.iter().all(|&v| v == 0));
}

#[test]
fn test_varied_data_nonzero() {
    let mixer = SpatialMixer::with_stride(7);
    let data: Vec<u8> = (0..100).collect();
    let result = mixer.mix(&data);

    // Should produce non-zero output for varied input
    assert!(result.iter().any(|&v| v != 0));
}

#[test]
fn test_mix_exact_values_and_wraparound() {
    let data = vec![1u8, 2, 4, 8, 16];
    let mixed = SpatialMixer::with_stride(2).mix(&data);
    assert_eq!(mixed, vec![1 ^ 4, 2 ^ 8, 4 ^ 16, 8 ^ 1, 16 ^ 2]);
    assert_eq!(SpatialMixer::default().mix(&data), vec![3, 6, 12, 24, 17]);
}

#[test]
fn test_mix_stride_is_taken_modulo_the_length() {
    let data = vec![1u8, 2, 4, 8, 16];
    // 7 mod 5 is 2.
    assert_eq!(
        SpatialMixer::with_stride(7).mix(&data),
        SpatialMixer::with_stride(2).mix(&data)
    );
    // A stride that is a multiple of the length pairs each byte with itself.
    assert_eq!(SpatialMixer::with_stride(5).mix(&data), vec![0u8; 5]);
    assert_eq!(SpatialMixer::new().mix(&[9]), vec![0u8]);
}

#[test]
fn test_mix_keeps_the_length() {
    for len in 0..40usize {
        let data: Vec<u8> = (0..len).map(|i| (i * 37) as u8).collect();
        assert_eq!(SpatialMixer::with_stride(3).mix(&data).len(), len);
    }
}

#[test]
fn test_mix_twice_is_not_the_identity() {
    let mixer = SpatialMixer::new();
    let data = vec![1u8, 2, 4, 8];
    let once = mixer.mix(&data);
    let twice = mixer.mix(&once);
    assert_eq!(once, vec![3, 6, 12, 9]);
    assert_eq!(twice, vec![5, 10, 5, 10]);
    assert_ne!(twice, data);
}

#[test]
fn test_first_frame_returns_none() {
    let mut diff = TemporalDifferencer::new();
    let frame = Frame::new(vec![100u8; 64], 8, 8, 1);

    assert!(diff.difference(&frame).is_none());
    assert!(diff.is_primed());
}

#[test]
fn test_second_frame_returns_difference() {
    let mut diff = TemporalDifferencer::new();

    let frame1 = Frame::new(vec![100u8; 64], 8, 8, 1);
    let frame2 = Frame::new(vec![150u8; 64], 8, 8, 2);

    diff.difference(&frame1);
    let result = diff.difference(&frame2).unwrap();

    // All pixels should have difference of 50
    assert!(result.iter().all(|&v| v == 50));
}

#[test]
fn test_identical_frames_zero_difference() {
    let mut diff = TemporalDifferencer::new();

    let frame1 = Frame::new(vec![100u8; 64], 8, 8, 1);
    let frame2 = Frame::new(vec![100u8; 64], 8, 8, 2);

    diff.difference(&frame1);
    let result = diff.difference(&frame2).unwrap();

    // Identical frames = zero difference
    assert!(result.iter().all(|&v| v == 0));
}

#[test]
fn test_reset_requires_new_prime() {
    let mut diff = TemporalDifferencer::new();

    let frame = Frame::new(vec![100u8; 64], 8, 8, 1);
    diff.difference(&frame);
    assert!(diff.is_primed());

    diff.reset();
    assert!(!diff.is_primed());
}

#[test]
fn test_difference_is_unsigned_in_both_directions() {
    let mut diff = TemporalDifferencer::default();
    assert!(!diff.is_primed());
    diff.difference(&Frame::new(vec![0, 255, 10, 200], 2, 2, 1));
    let result = diff.difference(&Frame::new(vec![255, 0, 13, 190], 2, 2, 2)).unwrap();
    assert_eq!(result, vec![255, 255, 3, 10]);
    assert_eq!(result.len(), 4);
}

#[test]
fn test_difference_is_against_the_frame_before() {
    let mut diff = TemporalDifferencer::new();
    diff.difference(&Frame::new(vec![10u8; 4], 2, 2, 1));
    diff.difference(&Frame::new(vec![30u8; 4], 2, 2, 2));
    let result = diff.difference(&Frame::new(vec![35u8; 4], 2, 2, 3)).unwrap();
    assert_eq!(result, vec![5u8; 4]);
}

#[test]
fn test_difference_reaches_as_far_as_the_shorter_frame() {
    let mut diff = TemporalDifferencer::new();
    diff.difference(&Frame::new(vec![5u8; 6], 3, 2, 1));
    let result = diff.difference(&Frame::new(vec![9u8; 4], 2, 2, 2)).unwrap();
    assert_eq!(result, vec![4u8; 4]);
}
