//! Sink configurations: each destination supplies its batching thresholds,
//! concurrency/rate-limit/retry parameters and encoding, and builds the
//! generic HTTP sink configuration from them.

pub mod new_relic_logs;
