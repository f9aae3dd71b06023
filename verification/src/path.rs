//! File-system paths as the library sees them.
//!
//! A [`std::path::PathBuf`] is opaque to the verifier. The contracts of this
//! library speak of a path through [`path_text`], the bytes it is made of, and
//! every operation on a path is a call into the standard library whose
//! contract is stated here and taken on trust.

use std::path::PathBuf;
use vstd::prelude::*;
use vstd::utf8::encode_utf8;

verus! {

/// Makes `std::path::PathBuf` known to the verifier, as a type whose inside
/// it does not see.
#[verifier::external_type_specification]
#[verifier::external_body]
pub struct ExPathBuf(std::path::PathBuf);

/// The bytes that a path holds: what `as_os_str().as_encoded_bytes()` gives
/// for it. A path made from a string holds that string's UTF-8 encoding.
pub uninterp spec fn path_text(path: PathBuf) -> Seq<u8>;

/// The bytes of a path that may be absent.
pub open spec fn opt_path_text(path: Option<PathBuf>) -> Option<Seq<u8>> {
    match path {
        Some(p) => Some(path_text(p)),
        None => None,
    }
}

/// The bytes of the path that `std::path::Path::join` makes of a path with
/// the bytes `base` and the string `part`, by the path rules of the platform
/// the library is built for.
pub uninterp spec fn joined_text(base: Seq<u8>, part: Seq<char>) -> Seq<u8>;

/// Calls `std::path::PathBuf::from` on a string. The path that comes back
/// holds the string's UTF-8 encoding, byte for byte.
#[verifier::external_body]
pub(crate) fn path_of(text: &str) -> (path: PathBuf)
    ensures
        path_text(path) == encode_utf8(text@),
{
    PathBuf::from(text)
}

/// Calls `std::path::Path::join`. What comes back is a function of the two
/// arguments alone, and is named [`joined_text`]; nothing more is claimed.
#[verifier::external_body]
pub(crate) fn join(base: &PathBuf, part: &str) -> (path: PathBuf)
    ensures
        path_text(path) == joined_text(path_text(*base), part@),
{
    base.join(part)
}

/// What `std::path::Path::display` writes for a path with the bytes `text`.
pub uninterp spec fn shown_text(text: Seq<u8>) -> Seq<char>;

/// What the `Debug` impl of `std::path::PathBuf` writes for a path with the
/// bytes `text`.
pub uninterp spec fn quoted_text(text: Seq<u8>) -> Seq<char>;

/// Writes a path out through `std::path::Path::display`. The string is a
/// function of the path's bytes alone, and is named [`shown_text`].
#[verifier::external_body]
pub(crate) fn shown(path: &PathBuf) -> (text: String)
    ensures
        text@ == shown_text(path_text(*path)),
{
    path.display().to_string()
}

/// Writes a path out through the `Debug` impl of `std::path::PathBuf`. The
/// string is a function of the path's bytes alone, and is named
/// [`quoted_text`].
#[verifier::external_body]
pub(crate) fn quoted(path: &PathBuf) -> (text: String)
    ensures
        text@ == quoted_text(path_text(*path)),
{
    format!("{:?}", path)
}

/// `Clone` for `std::path::PathBuf`: the copy holds the same bytes.
pub assume_specification[ <std::path::PathBuf as Clone>::clone ](
    path: &PathBuf,
) -> (copy: PathBuf)
    ensures
        path_text(copy) == path_text(*path),
;

} // verus!
