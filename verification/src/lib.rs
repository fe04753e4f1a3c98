//! Discovery of on-chain balances for addresses derived from a
//! hierarchical-deterministic wallet public key.
//!
//! The library normalizes an extended public key (`xpub` or `vpub`),
//! derives a bounded, interleaved sequence of receiving and change
//! addresses, and drives a resilient balance-query workflow: a shared
//! rate limiter, provider fallback with exponential backoff, and
//! paginated aggregation that keeps partial results on failure.
//! All network and timer activity stays outside; the library makes
//! every decision and is verified.

pub mod codec;
pub mod controller;
pub mod derive;
pub mod engine;
pub mod errors;
pub mod keys;
pub mod fallback;
pub mod provider;
pub mod rate;
