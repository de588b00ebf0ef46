//! Brute-force search for rejection events in the sampling of field elements
//! from a pseudorandom byte stream.
//!
//! A worker draws a random seed, expands it with prio's SHA-3 based PRG, reads
//! the stream in chunks of one encoded field element, and stops at the first
//! chunk whose little-endian value is not below the field's modulus.
pub mod config;
pub mod le;
pub mod prg;
pub mod search;

pub use config::{Config, ConfigError, FieldDescriptor};
pub use le::decode_le;
pub use search::{scan_seed, search_round, Rejection};
