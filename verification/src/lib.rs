//! A verified core for a small signal-synthesis service.
//!
//! The service synthesizes two sinusoidal signals, combines them with an
//! element-wise arithmetic operation, and reports summary statistics of the
//! combined signal. This crate verifies everything about that pipeline that
//! does not itself consist of floating-point arithmetic: operation parsing
//! and its fallback policy, the element-wise pairing and truncation rules,
//! the empty-sequence sentinel policies of the statistics, and the shape
//! invariants of the final result.
//!
//! Samples are carried as `u64` IEEE-754 double bit patterns, and the scalar
//! arithmetic itself (addition of two samples, evaluation of a sinusoid at a
//! time point, and so on) is supplied by the caller as closures. Every
//! contract pins the structure of the result down exactly and relates each
//! produced sample to the supplied closures through their own contracts.

pub mod compute;
pub mod operation;
pub mod pipeline;
pub mod signal;
