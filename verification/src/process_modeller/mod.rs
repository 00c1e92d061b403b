//! The process modeller: runs the benchmarker as a separate program for each
//! benchmark and access size.

pub mod benchmark_wrapper;
pub mod cli;
pub mod frontend;
pub mod subprograms;
