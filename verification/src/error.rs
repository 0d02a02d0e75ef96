//! The errors of opening a file and of writing a tag.

use vstd::prelude::*;

verus! {

/// Why a file could not be opened, or a tag could not be written.
#[derive(Debug, PartialEq, Eq)]
pub enum FileError {
    /// Nothing exists at the path.
    FileNotFound,
    /// The path is not valid UTF-8, or holds a zero byte, so that no C string can carry it.
    PathEncodingError,
    /// The native library does not recognise the file's format. Carries the path.
    UnsupportedFormatError(String),
    /// A tag value holds a zero byte, so that no C string can carry it.
    EmbeddedNulError,
}

} // verus!
