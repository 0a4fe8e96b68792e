//! Decoder for the obfuscated 8-byte frames emitted by a low-cost
//! CO2 / temperature / humidity sensor.
//!
//! The pipeline is: test a raw frame for obfuscation ([`is_encrypted`]),
//! reverse the vendor transform ([`decrypt`]), check the checksum and the
//! marker byte ([`checksum`]), and classify the decoded record into a typed
//! measurement ([`parse_record`]). Every step is a pure function over
//! fixed-size byte arrays; transport, configuration loading and publishing
//! live outside this crate.

mod cipher;
mod config;
mod frame;
mod record;

pub use cipher::decrypt;
pub use cipher::lemma_decrypt_deterministic;
pub use cipher::nibble_swap;
pub use cipher::spec_cipher_state;
pub use cipher::spec_decrypt;
pub use cipher::spec_mixed;
pub use cipher::spec_output;
pub use cipher::spec_permuted;
pub use cipher::spec_rotated;
pub use cipher::spec_shuffle;
pub use frame::checksum;
pub use frame::is_encrypted;
pub use frame::lemma_checksum_detects_bit_flip;
pub use frame::lemma_marker_required;
pub use frame::lemma_validate_stateless;
pub use frame::spec_checksum;
pub use frame::spec_frame_valid;
pub use frame::spec_is_encrypted;
pub use config::Config;
pub use frame::Errors;
pub use record::get_topic_suffix;
pub use record::parse_record;
pub use record::Metrics;
pub use record::Record;
