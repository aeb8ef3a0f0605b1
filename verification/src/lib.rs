//! A benchmarking harness for classifiers on a labelled flower dataset:
//! schema checking of parsed rows, label encoding, shuffled train/test
//! partitioning, projection into a row-major matrix, and scoring.
//!
//! Feature values are carried as IEEE 754 single-precision bit patterns in
//! `u32`, so that every rule of the harness is stated over plain integers.

pub mod error;
pub mod label;
pub mod table;
pub mod ingest;
pub mod record;
pub mod split;
pub mod metrics;
pub mod project;
pub mod report;
