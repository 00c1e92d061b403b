//! Checks before a model is created.

use vstd::prelude::*;

use crate::process_modeller::subprograms::helper::{path_exists, PathError};

verus! {

/// A model can be created when the benchmarker exists; otherwise the error
/// names the benchmarker's path.
pub fn validate(model_path: &str, benchmarker_path: &str, benchmarker_exists: bool) -> (r: Result<(), PathError>)
    ensures
        benchmarker_exists ==> r is Ok,
        !benchmarker_exists ==> (r matches Err(PathError::NotFound(p)) && p@ == benchmarker_path@),
{
    path_exists(benchmarker_path, benchmarker_exists)
}

} // verus!
