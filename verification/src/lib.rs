//! Verified core of the blackheap I/O performance modeller: benchmark
//! configurations, progress bookkeeping, command line validation and the
//! text that is handed to the benchmarker.

pub mod text;
pub mod benchmarker;
pub mod runner;
pub mod modeller;
pub mod io_modeller;
pub mod process_modeller;
pub mod analysis;
