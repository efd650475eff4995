//! The errors of identification from the file system.

use vstd::prelude::*;

verus! {

#[verifier::external_type_specification]
#[verifier::external_body]
pub struct ExIoError(std::io::Error);

/// Errors that can occur during file identification.
#[derive(Debug)]
pub enum IdentifyError {
    /// The path does not exist on the file system.
    PathNotFound { path: String },
    /// An I/O error occurred while the file was accessed.
    IoError { source: std::io::Error },
    /// The path holds invalid UTF-8.
    InvalidPath { path: String },
    /// The content is not valid UTF-8 where UTF-8 is expected.
    InvalidUtf8,
}

} // verus!
