//! Paths as the resolver sees them: owned buffers of bytes that can be made
//! from a string and joined with a name. Both are left to the standard
//! library; this module only gives them a contract.

use std::path::PathBuf;
use vstd::prelude::*;
use vstd::utf8::encode_utf8;

verus! {

/// `std::path::PathBuf`, carried through verified code as an opaque value.
#[verifier::external_type_specification]
#[verifier::external_body]
pub struct ExPathBuf(std::path::PathBuf);

/// The bytes a path holds, as `OsStr::as_encoded_bytes` hands them out.
pub uninterp spec fn path_bytes(path: PathBuf) -> Seq<u8>;

/// The bytes of the path that `Path::join` builds from a base path with the
/// given bytes and a name.
pub uninterp spec fn joined_bytes(base: Seq<u8>, name: Seq<char>) -> Seq<u8>;

/// `PathBuf::clone`: the copy holds the same bytes.
pub assume_specification[ <PathBuf as Clone>::clone ](path: &PathBuf) -> (copy: PathBuf)
    ensures
        path_bytes(copy) == path_bytes(*path),
;

/// `Path::join`: the result holds the bytes that joining `name` onto `base` gives.
#[verifier::external_body]
pub(crate) fn join_path(base: &PathBuf, name: &str) -> (joined: PathBuf)
    ensures
        path_bytes(joined) == joined_bytes(path_bytes(*base), name@),
{
    base.join(name)
}

/// `PathBuf::from` on a string slice: the path holds the string's UTF-8 encoding.
#[verifier::external_body]
pub(crate) fn path_from_str(text: &str) -> (path: PathBuf)
    ensures
        path_bytes(path) == encode_utf8(text@),
{
    PathBuf::from(text)
}

} // verus!
