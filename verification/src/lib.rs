//! Precision, recall and F-beta statistics for multi-class classifiers,
//! built on an elementwise division that never divides by zero.

pub mod aggregate;
pub mod array;
pub mod division;
pub mod error;
pub mod options;
mod parallel;
pub mod scalar;
pub mod scores;
pub mod scoring;
