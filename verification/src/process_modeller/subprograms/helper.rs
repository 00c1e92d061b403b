//! Checks on paths, decided from whether the path exists.

use vstd::prelude::*;

use crate::text::join2;

verus! {

/// What `std::path::Path`'s `Debug` renders for the path `path` (quoted,
/// with special characters escaped).
pub uninterp spec fn path_debug(path: Seq<char>) -> Seq<char>;

/// Renders `path` with `Debug` of `std::path::Path` (through `format!`);
/// the result is named, not spelled out: it is the path in double quotes
/// with its special characters escaped.
#[verifier::external_body]
fn debug_path(path: &str) -> (text: String)
    ensures
        text@ == path_debug(path@),
{
    format!("{:?}", std::path::Path::new(path))
}

/// A path that should exist does not, or one that should not exists.
#[derive(Debug, Clone, PartialEq, Eq)]
pub enum PathError {
    /// The path does not exist.
    NotFound(String),
    /// The path already exists.
    AlreadyExists(String),
}

impl PathError {
    /// The error's message: the path as `Debug` renders it, then
    /// ` does not exist!` or ` already exists!`.
    pub fn message(&self) -> (text: String)
        ensures
            text@ == match self {
                PathError::NotFound(p) => path_debug(p@) + " does not exist!"@,
                PathError::AlreadyExists(p) => path_debug(p@) + " already exists!"@,
            },
    {
        match self {
            PathError::NotFound(p) => join2(debug_path(p.as_str()).as_str(), " does not exist!"),
            PathError::AlreadyExists(p) => join2(debug_path(p.as_str()).as_str(), " already exists!"),
        }
    }
}

/// Succeeds when the path exists, and names it otherwise.
pub fn path_exists(path: &str, exists: bool) -> (r: Result<(), PathError>)
    ensures
        exists ==> r is Ok,
        !exists ==> (r matches Err(PathError::NotFound(p)) && p@ == path@),
{
    if !exists {
        return Err(PathError::NotFound(path.to_owned()));
    }
    Ok(())
}

/// Succeeds when the path does not exist, and names it otherwise.
pub fn path_does_not_exist(path: &str, exists: bool) -> (r: Result<(), PathError>)
    ensures
        !exists ==> r is Ok,
        exists ==> (r matches Err(PathError::AlreadyExists(p)) && p@ == path@),
{
    if exists {
        return Err(PathError::AlreadyExists(path.to_owned()));
    }
    Ok(())
}

} // verus!
