//! Cardboard: the verified core of an anonymous imageboard.
//!
//! The crate holds the rules of the board service as plain, verified Rust:
//! request validation, the shape of stored rows, tripcode derivation, the
//! daily-salt rotation policy, paging limits and the multi-step flows that
//! create threads and replies. Storage and HTTP live outside this crate and
//! feed these functions plain values; the outside crates that only compute or
//! draw randomness (sha2, hex, rand, uuid, chrono's clock) are called here
//! behind small trusted wrappers.

pub mod boards;
pub mod error;
pub mod flows;
pub mod ids;
pub mod posts;
pub mod salt;
pub mod schema;
pub mod threads;
pub mod time;
pub mod tripcode;
pub mod validation;
