use optical_entropy::conditioning::ConditionedSeed;
use optical_entropy::reseeding::{ReseedableRng, ReseedingError};
use rand_chacha::ChaCha20Rng;
use rand_core::{RngCore, SeedableRng};

fn make_test_seed(data: [u8; 32], entropy: usize) -> ConditionedSeed {
    ConditionedSeed::new_for_testing(data, entropy)
}

/// The next `len` bytes of a plain ChaCha20 generator keyed with `seed`.
fn reference_stream(seed: [u8; 32], len: usize) -> Vec<u8> {
    let mut rng = ChaCha20Rng::from_seed(seed);
    let mut out = vec![0u8; len];
    rng.fill_bytes(&mut out);
    out
}

/// The seed material after a reseed, computed with the hash itself.
fn mixed_material(counter: u64, material: &[u8; 32], seed: &[u8; 32]) -> [u8; 32] {
    let mut hasher = blake3::Hasher::new();
    hasher.update(b"optical-entropy-reseed-v1");
    hasher.update(&counter.to_le_bytes());
    hasher.update(material);
    hasher.update(seed);
    *hasher.finalize().as_bytes()
}

#[test]
fn test_reseed_increments_count() {
    let mut rng = ReseedableRng::with_min_entropy(64);
    assert_eq!(rng.reseed_count(), 0);

    let seed = make_test_seed([0x42u8; 32], 128);
    rng.reseed(&seed).unwrap();

    assert_eq!(rng.reseed_count(), 1);
}

#[test]
fn test_insufficient_entropy_rejected() {
    let mut rng = ReseedableRng::with_min_entropy(256);

    let seed = make_test_seed([0x42u8; 32], 128);
    let result = rng.reseed(&seed);

    assert!(matches!(
        result,
        Err(ReseedingError::InsufficientEntropy { .. })
    ));
}

#[test]
fn test_bytes_since_reseed_tracking() {
    let mut rng = ReseedableRng::from_os_entropy();

    let mut buf = [0u8; 100];
    rng.fill_bytes(&mut buf);

    assert_eq!(rng.bytes_since_reseed(), 100);
}

#[test]
fn test_reseed_changes_output() {
    let initial_seed = [0x01u8; 32];
    let mut rng1 = ReseedableRng::from_seed_for_testing(initial_seed);
    let mut rng2 = ReseedableRng::from_seed_for_testing(initial_seed);

    // Before reseed: same output
    let mut out1 = [0u8; 32];
    let mut out2 = [0u8; 32];
    rng1.fill_bytes(&mut out1);
    rng2.fill_bytes(&mut out2);
    assert_eq!(out1, out2);

    // Reseed rng1 only
    let new_entropy = make_test_seed([0xAB; 32], 256);
    rng1.reseed(&new_entropy).unwrap();

    // After reseed: different output
    rng1.fill_bytes(&mut out1);
    rng2.fill_bytes(&mut out2);
    assert_ne!(out1, out2);
}

#[test]
fn test_different_entropy_different_result() {
    let initial_seed = [0x01u8; 32];
    let mut rng1 = ReseedableRng::from_seed_for_testing(initial_seed);
    let mut rng2 = ReseedableRng::from_seed_for_testing(initial_seed);

    let entropy1 = make_test_seed([0xAA; 32], 256);
    let entropy2 = make_test_seed([0xBB; 32], 256);

    rng1.reseed(&entropy1).unwrap();
    rng2.reseed(&entropy2).unwrap();

    let mut out1 = [0u8; 32];
    let mut out2 = [0u8; 32];
    rng1.fill_bytes(&mut out1);
    rng2.fill_bytes(&mut out2);

    assert_ne!(out1, out2);
}

#[test]
fn test_reseed_counter_affects_output() {
    // Same entropy applied at different reseed counts should differ
    let initial_seed = [0x01u8; 32];
    let mut rng1 = ReseedableRng::from_seed_for_testing(initial_seed);
    let mut rng2 = ReseedableRng::from_seed_for_testing(initial_seed);

    let entropy = make_test_seed([0xAA; 32], 256);
    let dummy = make_test_seed([0x00; 32], 256);

    // rng1: reseed once
    rng1.reseed(&entropy).unwrap();

    // rng2: reseed twice (with dummy first)
    rng2.reseed(&dummy).unwrap();
    rng2.reseed(&entropy).unwrap();

    // Even though final entropy is same, counter differs
    let mut out1 = [0u8; 32];
    let mut out2 = [0u8; 32];
    rng1.fill_bytes(&mut out1);
    rng2.fill_bytes(&mut out2);

    assert_ne!(out1, out2);
}

#[test]
fn test_generator_gives_the_chacha20_stream_of_its_seed() {
    let seed = [0x5Au8; 32];
    let mut rng = ReseedableRng::from_seed_for_testing(seed);
    let mut out = [0u8; 100];
    rng.fill_bytes(&mut out);
    assert_eq!(&out[..], &reference_stream(seed, 100)[..]);
    assert_ne!(&out[..32], &seed[..]);

    let mut reference = ChaCha20Rng::from_seed(seed);
    let mut words = ReseedableRng::from_seed(seed, 1);
    assert_eq!(words.next_u32(), reference.next_u32());
    assert_eq!(words.next_u64(), reference.next_u64());
    assert_eq!(words.next_u32(), reference.next_u32());
    assert_eq!(words.bytes_since_reseed(), 16);
}

#[test]
fn test_reseed_message_layout() {
    let mut material = [0u8; 32];
    let mut seed = [0u8; 32];
    for i in 0..32 {
        material[i] = i as u8;
        seed[i] = 0xE0 + i as u8;
    }
    let message = ReseedableRng::build_reseed_message(0x0102030405060708, &material, &seed);
    assert_eq!(message.len(), 25 + 8 + 32 + 32);
    assert_eq!(&message[..25], b"optical-entropy-reseed-v1");
    assert_eq!(&message[25..33], &[8u8, 7, 6, 5, 4, 3, 2, 1]);
    assert_eq!(&message[33..65], &material);
    assert_eq!(&message[65..], &seed);
}

#[test]
fn test_reseed_message_differs_with_the_counter() {
    let material = [3u8; 32];
    let seed = [4u8; 32];
    let at_zero = ReseedableRng::build_reseed_message(0, &material, &seed);
    let at_one = ReseedableRng::build_reseed_message(1, &material, &seed);
    let at_256 = ReseedableRng::build_reseed_message(256, &material, &seed);
    assert_ne!(at_zero, at_one);
    assert_ne!(at_one, at_256);
    assert_eq!(at_zero[25], 0);
    assert_eq!(at_one[25], 1);
    assert_eq!(&at_256[25..27], &[0u8, 1]);
}

#[test]
fn test_reseed_rekeys_with_the_hash_of_the_message() {
    let initial = [0x01u8; 32];
    let entropy = [0xABu8; 32];
    let mut rng = ReseedableRng::from_seed_for_testing(initial);
    rng.reseed(&make_test_seed(entropy, 256)).unwrap();

    let first = mixed_material(0, &initial, &entropy);
    let mut out = [0u8; 64];
    rng.fill_bytes(&mut out);
    assert_eq!(&out[..], &reference_stream(first, 64)[..]);

    // The second reseed mixes the material the first one left, at counter 1.
    rng.reseed(&make_test_seed(entropy, 256)).unwrap();
    let second = mixed_material(1, &first, &entropy);
    assert_ne!(first, second);
    rng.fill_bytes(&mut out);
    assert_eq!(&out[..], &reference_stream(second, 64)[..]);
    assert_eq!(rng.reseed_count(), 2);
}

#[test]
fn test_install_material_rekeys_without_a_gate() {
    let mut rng = ReseedableRng::with_min_entropy(usize::MAX);
    let mut out = [0u8; 10];
    rng.fill_bytes(&mut out);
    rng.install_material([0x77; 32]);
    assert_eq!(rng.reseed_count(), 1);
    assert_eq!(rng.bytes_since_reseed(), 0);
    let mut out = [0u8; 48];
    rng.fill_bytes(&mut out);
    assert_eq!(&out[..], &reference_stream([0x77; 32], 48)[..]);
}

#[test]
fn test_rejected_reseed_changes_nothing() {
    let seed = [0x33u8; 32];
    let mut rng = ReseedableRng::from_seed(seed, 200);
    let mut untouched = ReseedableRng::from_seed(seed, 200);
    let mut out = [0u8; 7];
    rng.fill_bytes(&mut out);
    untouched.fill_bytes(&mut out);

    let result = rng.reseed(&make_test_seed([0x42; 32], 199));
    assert_eq!(
        result,
        Err(ReseedingError::InsufficientEntropy { got: 199, need: 200 })
    );
    assert_eq!(rng.reseed_count(), 0);
    assert_eq!(rng.bytes_since_reseed(), 7);

    let mut after = [0u8; 64];
    let mut expected = [0u8; 64];
    rng.fill_bytes(&mut after);
    untouched.fill_bytes(&mut expected);
    assert_eq!(after, expected);

    // On the threshold the seed is taken.
    assert_eq!(rng.reseed(&make_test_seed([0x42; 32], 200)), Ok(()));
    assert_eq!(rng.reseed_count(), 1);
}

#[test]
fn test_default_minimum_is_128_bits() {
    let mut rng = ReseedableRng::from_os_entropy();
    assert_eq!(
        rng.reseed(&make_test_seed([1; 32], 127)),
        Err(ReseedingError::InsufficientEntropy { got: 127, need: 128 })
    );
    assert_eq!(rng.reseed(&make_test_seed([1; 32], 128)), Ok(()));

    let mut fixed = ReseedableRng::from_seed_for_testing([0; 32]);
    assert!(fixed.reseed(&make_test_seed([1; 32], 127)).is_err());
    assert!(fixed.reseed(&make_test_seed([1; 32], 128)).is_ok());
}

#[test]
fn test_bytes_since_reseed_counts_every_output_and_restarts() {
    let mut rng = ReseedableRng::from_seed_for_testing([9; 32]);
    assert_eq!(rng.bytes_since_reseed(), 0);
    rng.next_u32();
    assert_eq!(rng.bytes_since_reseed(), 4);
    rng.next_u64();
    assert_eq!(rng.bytes_since_reseed(), 12);
    let mut buf = [0u8; 33];
    rng.fill_bytes(&mut buf);
    assert_eq!(rng.bytes_since_reseed(), 45);
    rng.fill_bytes(&mut []);
    assert_eq!(rng.bytes_since_reseed(), 45);

    rng.reseed(&make_test_seed([1; 32], 256)).unwrap();
    assert_eq!(rng.bytes_since_reseed(), 0);
    rng.fill_bytes(&mut buf);
    assert_eq!(rng.bytes_since_reseed(), 33);

    assert!(rng.reseed(&make_test_seed([1; 32], 1)).is_err());
    assert_eq!(rng.bytes_since_reseed(), 33);
}

#[test]
fn test_generators_from_the_operating_system_differ() {
    let mut a = ReseedableRng::from_os_entropy();
    let mut b = ReseedableRng::with_min_entropy(64);
    let mut out_a = [0u8; 32];
    let mut out_b = [0u8; 32];
    a.fill_bytes(&mut out_a);
    b.fill_bytes(&mut out_b);
    assert_ne!(out_a, out_b);
    assert_ne!(out_a, [0u8; 32]);
}

#[test]
fn test_reseed_supplements_the_initial_seed() {
    // The same entropy, on two generators with different initial seeds,
    // leaves them different.
    let mut rng1 = ReseedableRng::from_seed_for_testing([1; 32]);
    let mut rng2 = ReseedableRng::from_seed_for_testing([2; 32]);
    let entropy = make_test_seed([0xCC; 32], 256);
    rng1.reseed(&entropy).unwrap();
    rng2.reseed(&entropy).unwrap();
    let mut out1 = [0u8; 32];
    let mut out2 = [0u8; 32];
    rng1.fill_bytes(&mut out1);
    rng2.fill_bytes(&mut out2);
    assert_ne!(out1, out2);
}
