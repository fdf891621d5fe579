use vstd::prelude::*;

use crate::compression::CompressionError;

verus! {

/// Errors of the local-file backend.
#[derive(Debug)]
pub enum FileUtilFsError {
    IOError(std::io::Error),
    CompressionError(CompressionError),
    /// The local-file backend does not offer this operation.
    UnsupportedOperation(String),
}

/// A path on the local file system.
pub struct FileAccessor {
    pub path: String,
}

impl FileAccessor {
    pub fn new(file_path: String) -> (r: Result<FileAccessor, FileUtilFsError>)
        ensures
            r is Ok && r->Ok_0.path@ == file_path@,
    {
        Ok(FileAccessor { path: file_path })
    }

    /// Local files are never deleted through this layer: the call always fails.
    pub fn delete(&self) -> (r: Result<(), FileUtilFsError>)
        ensures
            r is Err && r->Err_0 is UnsupportedOperation,
    {
        Err(FileUtilFsError::UnsupportedOperation(self.path.clone()))
    }
}

} // verus!
