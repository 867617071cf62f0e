//! A minimal proof-of-work ledger: blocks bound to their predecessors by
//! SHA-256 digests, each mined against a numeric difficulty target.

pub mod block;
pub mod bytes;
pub mod chain;
pub mod clock;
pub mod digest;
pub mod hex;
pub mod target;

