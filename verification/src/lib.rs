//! Core logic of a fund dispersal and collection service.
//!
//! The library validates dispersal and collection requests, converts
//! basis-point percentage splits into per-recipient amounts, and models the
//! sequential, fail-fast submission of collection transfers as an explicit
//! state machine. Network transport, signing and HTTP plumbing live outside
//! the library and only consume the plans and decisions produced here.
//!
//! Amounts are plain 128-bit unsigned base units; every arithmetic step on
//! them is proved free of overflow, and a total that cannot be represented
//! is rejected as a validation error rather than wrapped or truncated.

pub mod collect;
pub mod disperse;
pub mod errors;
pub mod hex;
pub mod response;
pub mod split;
pub mod sums;
pub mod types;
