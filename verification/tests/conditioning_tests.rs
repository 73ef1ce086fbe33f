use optical_entropy::conditioning::{
    ConditionedSeed, Conditioner, EntropyPool, HashAlgorithm, PoolConfig,
};
use optical_entropy::extraction::RawBits;
use sha2::Digest;

const BLAKE3_OF_NOTHING: [u8; 32] = [
    0xaf, 0x13, 0x49, 0xb9, 0xf5, 0xf9, 0xa1, 0xa6, 0xa0, 0x40, 0x4d, 0xea, 0x36, 0xdc, 0xc9, 0x49,
    0x9b, 0xcb, 0x25, 0xc9, 0xad, 0xc1, 0x12, 0xb7, 0xcc, 0x9a, 0x93, 0xca, 0xe4, 0x1f, 0x32, 0x62,
];

const BLAKE3_OF_ABC: [u8; 32] = [
    0x64, 0x37, 0xb3, 0xac, 0x38, 0x46, 0x51, 0x33, 0xff, 0xb6, 0x3b, 0x75, 0x27, 0x3a, 0x8d, 0xb5,
    0x48, 0xc5, 0x58, 0x46, 0x5d, 0x79, 0xdb, 0x03, 0xfd, 0x35, 0x9c, 0x6c, 0xd5, 0xbd, 0x9d, 0x85,
];

const SHA256_OF_ABC: [u8; 32] = [
    0xba, 0x78, 0x16, 0xbf, 0x8f, 0x01, 0xcf, 0xea, 0x41, 0x41, 0x40, 0xde, 0x5d, 0xae, 0x22, 0x23,
    0xb0, 0x03, 0x61, 0xa3, 0x96, 0x17, 0x7a, 0x9c, 0xb4, 0x10, 0xff, 0x61, 0xf2, 0x00, 0x15, 0xad,
];

#[test]
fn test_blake3_conditioning() {
    let conditioner = Conditioner::new(HashAlgorithm::Blake3);
    let raw = RawBits::from_bytes(vec![0x42; 1000], 1);

    let seed = conditioner.condition(&raw);
    assert_eq!(seed.as_bytes().len(), 32);
    assert_eq!(seed.entropy_estimate(), 256); // capped at output size
}

#[test]
fn test_sha256_conditioning() {
    let conditioner = Conditioner::new(HashAlgorithm::Sha256);
    let raw = RawBits::from_bytes(vec![0x42; 1000], 1);

    let seed = conditioner.condition(&raw);
    assert_eq!(seed.as_bytes().len(), 32);
}

#[test]
fn test_different_input_different_output() {
    let conditioner = Conditioner::default();

    let raw1 = RawBits::from_bytes(vec![0x00; 100], 1);
    let raw2 = RawBits::from_bytes(vec![0x01; 100], 1);

    let seed1 = conditioner.condition(&raw1);
    let seed2 = conditioner.condition(&raw2);

    assert_ne!(seed1.as_bytes(), seed2.as_bytes());
}

#[test]
fn test_small_input_limited_entropy() {
    let conditioner = Conditioner::default();
    let raw = RawBits::from_bytes(vec![0x42; 10], 1);

    let seed = conditioner.condition(&raw);
    assert_eq!(seed.entropy_estimate(), 10); // limited by input size
}

#[test]
fn test_blake3_known_answers() {
    let conditioner = Conditioner::new(HashAlgorithm::Blake3);
    let nothing = conditioner.condition(&RawBits::from_bytes(Vec::new(), 0));
    assert_eq!(nothing.as_bytes(), &BLAKE3_OF_NOTHING);
    assert_eq!(nothing.entropy_estimate(), 0);
    let abc = conditioner.condition(&RawBits::from_bytes(b"abc".to_vec(), 0));
    assert_eq!(abc.as_bytes(), &BLAKE3_OF_ABC);
    assert_eq!(abc.entropy_estimate(), 3);
}

#[test]
fn test_sha256_known_answer() {
    let conditioner = Conditioner::new(HashAlgorithm::Sha256);
    let abc = conditioner.condition(&RawBits::from_bytes(b"abc".to_vec(), 0));
    assert_eq!(abc.as_bytes(), &SHA256_OF_ABC);
}

#[test]
fn test_conditioning_is_the_hash_of_the_whole_buffer() {
    let data: Vec<u8> = (0..5000u32).map(|i| (i * 7919 >> 3) as u8).collect();
    let raw = RawBits::from_bytes(data.clone(), 3);

    let blake3 = Conditioner::new(HashAlgorithm::Blake3).condition(&raw);
    assert_eq!(blake3.as_bytes(), blake3::hash(&data).as_bytes());

    let sha256 = Conditioner::new(HashAlgorithm::Sha256).condition(&raw);
    assert_eq!(&sha256.as_bytes()[..], &sha2::Sha256::digest(&data)[..]);
    assert_ne!(blake3.as_bytes(), sha256.as_bytes());
}

#[test]
fn test_default_algorithm_is_blake3() {
    assert_eq!(HashAlgorithm::default(), HashAlgorithm::Blake3);
    let seed = Conditioner::default().condition(&RawBits::from_bytes(b"abc".to_vec(), 0));
    assert_eq!(seed.as_bytes(), &BLAKE3_OF_ABC);
}

#[test]
fn test_entropy_estimate_is_one_bit_per_byte_up_to_256() {
    let conditioner = Conditioner::default();
    for (len, expected) in [(0, 0), (1, 1), (10, 10), (255, 255), (256, 256), (257, 256), (1000, 256)]
    {
        let seed = conditioner.condition(&RawBits::from_bytes(vec![0x42; len], 1));
        assert_eq!(seed.entropy_estimate(), expected);
    }
}

#[test]
fn test_seed_from_digest_and_for_testing() {
    let seed = ConditionedSeed::from_digest([7u8; 32], 40);
    assert_eq!(seed.as_bytes(), &[7u8; 32]);
    assert_eq!(seed.entropy_estimate(), 40);
    assert_eq!(ConditionedSeed::from_digest([7u8; 32], 4000).entropy_estimate(), 256);

    let chosen = ConditionedSeed::new_for_testing([9u8; 32], 12345);
    assert_eq!(chosen.as_bytes(), &[9u8; 32]);
    assert_eq!(chosen.entropy_estimate(), 12345);
}

#[test]
fn test_pool_not_ready_initially() {
    let pool = EntropyPool::default();
    assert!(!pool.is_ready());
}

#[test]
fn test_pool_ready_after_sufficient_entropy() {
    let config = PoolConfig {
        min_bits: 80, // 10 bytes
        ..Default::default()
    };
    let mut pool = EntropyPool::new(config);

    pool.add(&RawBits::from_bytes(vec![0u8; 10], 1));
    assert!(pool.is_ready());
}

#[test]
fn test_extraction_clears_pool() {
    let config = PoolConfig {
        min_bits: 80,
        ..Default::default()
    };
    let mut pool = EntropyPool::new(config);

    pool.add(&RawBits::from_bytes(vec![0u8; 20], 1));
    assert!(pool.is_ready());

    let seed = pool.extract();
    assert!(seed.is_some());
    assert!(!pool.is_ready());
    assert_eq!(pool.size_bytes(), 0);
}

#[test]
fn test_max_bytes_limit() {
    let config = PoolConfig {
        min_bits: 8,
        max_bytes: 10,
        ..Default::default()
    };
    let mut pool = EntropyPool::new(config);

    // Try to add more than max
    pool.add(&RawBits::from_bytes(vec![0u8; 100], 1));

    // Should be capped at max_bytes
    assert_eq!(pool.size_bytes(), 10);
}

#[test]
fn test_default_pool_config() {
    let config = PoolConfig::default();
    assert_eq!(config.min_bits, 512);
    assert_eq!(config.max_bytes, 64 * 1024);
    assert_eq!(config.algorithm, HashAlgorithm::Blake3);
}

#[test]
fn test_pool_below_minimum_is_not_ready() {
    let config = PoolConfig {
        min_bits: 80,
        ..Default::default()
    };
    let mut pool = EntropyPool::new(config);
    pool.add(&RawBits::from_bytes(vec![0u8; 9], 1));
    assert!(!pool.is_ready());
    assert!(pool.extract().is_none());
    assert_eq!(pool.size_bytes(), 9);
    assert_eq!(pool.total_extractions(), 0);

    pool.add(&RawBits::from_bytes(vec![0u8; 1], 1));
    assert!(pool.is_ready());
}

#[test]
fn test_pool_minimum_that_is_no_whole_number_of_bytes() {
    let config = PoolConfig {
        min_bits: 81,
        ..Default::default()
    };
    let mut pool = EntropyPool::new(config);
    pool.add(&RawBits::from_bytes(vec![0u8; 10], 1));
    assert!(!pool.is_ready());
    pool.add(&RawBits::from_bytes(vec![0u8; 1], 1));
    assert!(pool.is_ready());

    let empty_suffices = EntropyPool::new(PoolConfig {
        min_bits: 0,
        ..Default::default()
    });
    assert!(empty_suffices.is_ready());
}

#[test]
fn test_pool_counts_only_the_bytes_it_kept() {
    let config = PoolConfig {
        min_bits: 8,
        max_bytes: 10,
        ..Default::default()
    };
    let mut pool = EntropyPool::new(config);
    pool.add(&RawBits::from_bytes(vec![1u8; 6], 1));
    assert_eq!(pool.size_bytes(), 6);
    assert_eq!(pool.size_bits(), 48);
    assert_eq!(pool.total_bits_added(), 48);

    pool.add(&RawBits::from_bytes(vec![2u8; 100], 1));
    assert_eq!(pool.size_bytes(), 10);
    assert_eq!(pool.total_bits_added(), 80);

    pool.add(&RawBits::from_bytes(vec![3u8; 5], 1));
    assert_eq!(pool.size_bytes(), 10);
    assert_eq!(pool.total_bits_added(), 80);
}

#[test]
fn test_pool_extracts_the_hash_of_what_it_kept_in_order() {
    let config = PoolConfig {
        min_bits: 8,
        max_bytes: 10,
        algorithm: HashAlgorithm::Blake3,
    };
    let mut pool = EntropyPool::new(config);
    pool.add(&RawBits::from_bytes(vec![1, 2, 3, 4, 5, 6], 1));
    pool.add(&RawBits::from_bytes(vec![7, 8, 9, 10, 11, 12], 2));

    let seed = pool.extract().unwrap();
    assert_eq!(
        seed.as_bytes(),
        blake3::hash(&[1, 2, 3, 4, 5, 6, 7, 8, 9, 10]).as_bytes()
    );
    assert_eq!(seed.entropy_estimate(), 10);
    assert_eq!(pool.total_extractions(), 1);
    assert_eq!(pool.total_bits_added(), 80);
    assert_eq!(pool.size_bytes(), 0);

    // The pool starts over.
    assert!(pool.extract().is_none());
    pool.add(&RawBits::from_bytes(vec![42], 3));
    let next = pool.extract().unwrap();
    assert_eq!(next.as_bytes(), blake3::hash(&[42]).as_bytes());
    assert_eq!(pool.total_extractions(), 2);
}

#[test]
fn test_pool_uses_the_configured_algorithm() {
    let config = PoolConfig {
        min_bits: 8,
        max_bytes: 16,
        algorithm: HashAlgorithm::Sha256,
    };
    let mut pool = EntropyPool::new(config);
    pool.add(&RawBits::from_bytes(b"abc".to_vec(), 1));
    assert_eq!(pool.extract().unwrap().as_bytes(), &SHA256_OF_ABC);
}

#[test]
fn test_pool_clear_drops_the_buffer_and_keeps_the_counters() {
    let mut pool = EntropyPool::default();
    pool.add(&RawBits::from_bytes(vec![0u8; 100], 1));
    assert!(pool.is_ready());
    pool.clear();
    assert!(!pool.is_ready());
    assert_eq!(pool.size_bytes(), 0);
    assert_eq!(pool.total_bits_added(), 800);
    assert_eq!(pool.total_extractions(), 0);
}
