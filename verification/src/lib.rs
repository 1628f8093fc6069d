//! Timing rules and syncer task bookkeeping of an atomic swap between an
//! arbitrating chain (Bitcoin) and an accordant chain (Monero).
pub mod chain;
pub mod opts;
pub mod outside;
pub mod runtime;
pub mod syncer;
pub mod syncer_client;
pub mod temporal_safety;
