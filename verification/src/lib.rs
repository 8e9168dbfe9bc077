//! Streaming trade-feature extraction.
//!
//! A fixed vocabulary of scalar statistics is computed over a stream of trade
//! ticks. Each feature module owns one accumulator, folds every trade of the
//! current interval into it via `update`, and exposes the current statistic
//! via `value`. A reset happens in place whenever `update` is called with
//! `init = true`: the prior state is discarded and the reset trade is counted
//! as the first observation of the new interval.
//!
//! Prices and sizes are integers in the caller's fixed-point scale, and every
//! statistic is reported as an exact rational (`Ratio`), so all accumulator
//! arithmetic here is exact; transcendental finishing steps (square roots for
//! standard deviations, logarithms for entropies) belong to the caller.

pub mod common;
pub mod laws;
pub mod modules;
pub mod stats;
