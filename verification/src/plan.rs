//! Plans: what a caller has to do to the file system.

use vstd::prelude::*;
use crate::error::{IOError, IOErrorModel};

verus! {

/// One copy of a file's bytes from `src` to `dest`.
#[derive(Debug, Clone)]
pub struct CopyOp {
    pub src: String,
    pub dest: String,
}

/// A `CopyOp` as the contracts see it.
pub struct CopyModel {
    pub src: Seq<char>,
    pub dest: Seq<char>,
}

impl DeepView for CopyOp {
    type V = CopyModel;

    open spec fn deep_view(&self) -> CopyModel {
        CopyModel { src: self.src@, dest: self.dest@ }
    }
}

/// One file to create, or to replace, with the given bytes.
#[derive(Debug, Clone)]
pub struct FileWrite {
    pub path: String,
    pub bytes: Vec<u8>,
}

/// A `FileWrite` as the contracts see it.
pub struct WriteModel {
    pub path: Seq<char>,
    pub bytes: Seq<u8>,
}

impl DeepView for FileWrite {
    type V = WriteModel;

    open spec fn deep_view(&self) -> WriteModel {
        WriteModel { path: self.path@, bytes: self.bytes@ }
    }
}

impl CopyOp {
    /// The error to report where this copy fails: it names the source.
    pub fn failure(&self) -> (error: IOError)
        ensures
            error.deep_view() == (IOErrorModel::CopyFailed { source: self.src@ }),
    {
        IOError::CopyFailed { source: self.src.clone() }
    }
}

impl FileWrite {
    /// The error to report where this write fails: it names the path.
    pub fn failure(&self) -> (error: IOError)
        ensures
            error.deep_view() == (IOErrorModel::WriteFailed { path: self.path@ }),
    {
        IOError::WriteFailed { path: self.path.clone() }
    }
}

/// The error to report where the directory `path` cannot be created.
pub fn create_failure(path: &str) -> (error: IOError)
    ensures
        error.deep_view() == (IOErrorModel::CreateFailed { path: path@ }),
{
    IOError::CreateFailed { path: path.to_owned() }
}

} // verus!
