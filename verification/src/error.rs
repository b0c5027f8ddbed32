//! Typed failures of asset loading.
//!
//! Asset and parsing failures are the one error class surfaced to the
//! caller; GPU object creation failures are fatal and never reach this
//! type.

use vstd::prelude::*;

verus! {

/// Why a load operation failed.
#[derive(Debug)]
pub enum Error {
    /// A primitive's position and normal attribute counts differ.
    MismatchedVerticesNormals,
    /// The named file could not be read.
    NoSuchFile(String),
    /// A primitive carries no position attribute.
    NoVerticesFound,
}

impl Error {
    /// A short description of the failure.
    pub fn message(&self) -> (r: &'static str)
        ensures
            (self is MismatchedVerticesNormals ==> r@ =~= "mismatched vertex and normal counts"@),
            (self is NoSuchFile ==> r@ =~= "no such file"@),
            (self is NoVerticesFound ==> r@ =~= "no vertices found"@),
    {
        match self {
            Error::MismatchedVerticesNormals => "mismatched vertex and normal counts",
            Error::NoSuchFile(_) => "no such file",
            Error::NoVerticesFound => "no vertices found",
        }
    }
}

} // verus!
