//! The modeller's command line.

use vstd::prelude::*;

verus! {

/// Default directory the models are saved to.
pub const DEFAULT_MODEL_PATH: &'static str = "./default-model";
/// Default path of the file the benchmarks run on.
pub const DEFAULT_BENCHMARK_FILE_PATH: &'static str = "/tmp/blackheap_benchmark_test_file.dat";

/// Name of the program.
pub const NAME: &'static str = "blackheap";
/// Author of the program.
pub const AUTHOR: &'static str = "Lars Quentin <lars.quentin@gwdg.de>";
/// Version of the program.
pub const VERSION: &'static str = "0.1";
/// One line description of the program.
pub const ABOUT: &'static str = "A blackbox modeller for I/O-classification";

/// Which prediction model to build.
#[derive(Copy, Clone, Debug, PartialEq, Eq, PartialOrd, Ord, Structural)]
pub enum ModelEnum {
    Linear,
    ConstantLinear,
}

/// What the modeller was asked to do.
#[derive(Debug, Clone)]
pub struct Cli {
    /// Path to where the models will be saved.
    pub to: String,
    /// Path to where the benchmark should be done.
    pub file: String,
    /// Which prediction model to use.
    pub model: ModelEnum,
    /// Whether the benchmark can be skipped (already computed).
    pub analyze_only: bool,
    /// Whether root is available (used to drop caches).
    pub root: bool,
}

impl Cli {
    /// Whether the linear model (rather than the constant-linear one) is built.
    pub fn use_linear(&self) -> (r: bool)
        ensures
            r == (self.model == ModelEnum::Linear),
    {
        match self.model {
            ModelEnum::Linear => true,
            ModelEnum::ConstantLinear => false,
        }
    }
}

} // verus!
