//! A verified registry of uniquely identified digital collectible assets:
//! issuance, genetic combination of two existing assets into a new one, and
//! ownership transfer, over a ledger of three persistent cells (an identifier
//! counter and two identifier-keyed maps).

mod genome;
mod pallet;
mod randomness;

pub use genome::bit_of;
pub use genome::combine;
pub use genome::combine_byte;
pub use genome::combine_genomes;
pub use genome::lemma_combine_byte_is_mux;
pub use genome::Kitty;
pub use pallet::AccountId;
pub use pallet::Error;
pub use pallet::Event;
pub use pallet::GetDefaultValue;
pub use pallet::KittyIndex;
pub use pallet::Pallet;
pub use randomness::blake2_128_of;
pub use randomness::lemma_distinct_sequence_distinct_payload;
pub use randomness::option_u32_bytes;
pub use randomness::random_payload;
pub use randomness::random_value;
pub use randomness::u32_le_bytes;
pub use randomness::u64_le_bytes;
