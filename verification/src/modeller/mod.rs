//! The modeller: runs the benchmarker once per benchmark and access size,
//! and turns the measurements into prediction models with a web frontend.

pub mod benchmark_wrapper;
pub mod cli;
pub mod prediction_model;
pub mod frontend;
pub mod use_model;
pub mod json_reader;
