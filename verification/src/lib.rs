//! Aggregation engine for per-file static-analysis metric reports.
//!
//! A report describes one source file as a tree of named spaces whose root
//! optionally carries a record of metric categories (argument counts, exit
//! counts, complexity, Halstead, lines of code, method counts,
//! maintainability index, ABC). Every field of every category is optional.
//! The engine folds any number of such reports into one summary: per
//! category an accumulator with sums, per-file-mean sums, minima, maxima
//! and a contribution count.
//!
//! Numeric metric values are fixed-point: an `i64` counting hundredths of
//! the reported value, so that two-decimal display is exact and the fold is
//! order independent.

use vstd::prelude::*;

pub mod analysis;
pub mod command;
pub mod error;
pub mod format;
pub mod laws;
pub mod metrics;
pub mod model;
pub mod navigator;
pub mod present;

verus! {

/// Largest magnitude, in hundredths, that a single report may contribute to
/// any summed field. Together with [`MAX_REPORTS`] it keeps every running
/// sum within `i64`.
pub const METRIC_BOUND: i64 = 0x8000_0000;

/// Largest number of reports one summary may fold.
pub const MAX_REPORTS: usize = 0x8000_0000;

} // verus!
