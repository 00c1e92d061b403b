//! The process modeller's command line.

use vstd::prelude::*;

verus! {

/// Default directory the model is saved to.
pub const DEFAULT_MODEL_PATH: &'static str = "./default-model";
/// Default path of the file the benchmarks run on.
pub const DEFAULT_BENCHMARK_FILE_PATH: &'static str = "/tmp/io_benchmark_test_file.dat";

/// Name of the program.
pub const NAME: &'static str = "io-modeller";
/// Author of the program.
pub const AUTHOR: &'static str = "Lars Quentin <lars.quentin@gwdg.de>";
/// Version of the program.
pub const VERSION: &'static str = "0.1";
/// One line description of the program.
pub const ABOUT: &'static str = "A blackbox modeller for I/O-classification";

/// What the process modeller was asked to do.
#[derive(Debug, Clone)]
pub struct Cli {
    pub command: Commands,
}

/// The process modeller's subcommands.
#[derive(Debug, Clone)]
pub enum Commands {
    /// Create a new performance model.
    CreateModel {
        /// Path to where the models will be saved.
        to: String,
        /// Path to where the benchmark should be done.
        file: String,
        /// Path to the benchmarker program.
        benchmarker: String,
    },
    /// Evaluate recorded I/O accesses according to a previously created model.
    UseModel {
        /// Path to the model the accesses are evaluated on.
        model: String,
        /// Path to the recorded I/O accesses.
        file: String,
    },
}

} // verus!
