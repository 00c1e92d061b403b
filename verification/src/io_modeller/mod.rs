//! The modeller variant that calls the benchmarker as a linked library
//! instead of running it as a program.

pub mod benchmark_wrapper;
