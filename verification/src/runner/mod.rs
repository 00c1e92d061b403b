//! The benchmark runner: which benchmarks exist, which access sizes are
//! still to be measured, and whether the command line can be acted on.

pub mod benchmark;
pub mod cli;
pub mod progress;
pub mod measurements;
