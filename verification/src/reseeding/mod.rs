//! Reseeding of a ChaCha20 stream generator from conditioned entropy.

mod csprng;

pub use csprng::{
    chacha20_after_fill, chacha20_after_wide_word, chacha20_after_word, chacha20_filled,
    chacha20_seeded, chacha20_wide_word, chacha20_word, domain_tag,
    law_reseed_message_binds_its_parts, lemma_material_is_32_bytes, reseed_message,
    ReseedableRng, ReseedingError, DEFAULT_MIN_ENTROPY_BITS,
};
