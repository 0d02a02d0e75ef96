//! The path that the native library is given.

use crate::error::FileError;
use crate::text::{from_utf8, to_c_string};
use vstd::prelude::*;
use vstd::utf8::*;

verus! {

/// Whether a C string can carry the path `bytes` as text: they are valid UTF-8 and none
/// of them is zero.
pub open spec fn is_encodable_path(bytes: Seq<u8>) -> bool {
    valid_utf8(bytes) && !bytes.contains(0u8)
}

/// The path that the native library is given to open a file: the bytes of `path` and the
/// terminating zero. `exists` says whether anything is at the path.
///
/// Fails with `FileNotFound` where nothing is there, whatever the path holds, and with
/// `PathEncodingError` where no C string can carry the path as text. The native library
/// must never be given a path at which nothing exists.
pub fn get_path(exists: bool, path: &[u8]) -> (c_path: Result<Vec<u8>, FileError>)
    ensures
        !exists ==> (c_path matches Err(e) && e is FileNotFound),
        exists && !is_encodable_path(path@) ==> (c_path matches Err(e) && e is PathEncodingError),
        exists && is_encodable_path(path@) ==> (c_path matches Ok(c) && c@ == path@.push(0u8)),
{
    if !exists {
        return Err(FileError::FileNotFound);
    }
    match from_utf8(path) {
        None => Err(FileError::PathEncodingError),
        Some(text) => {
            proof {
                decode_utf8_encode_utf8(path@);
                crate::text::lemma_encode_utf8_nul(text@);
            }
            match to_c_string(text) {
                Ok(c_path) => Ok(c_path),
                Err(_) => Err(FileError::PathEncodingError),
            }
        },
    }
}

} // verus!
