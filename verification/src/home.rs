//! The one question the library puts to the machine it runs on.

use std::path::PathBuf;
use vstd::prelude::*;

verus! {

/// Calls `dirs::home_dir`. The answer hangs on the variables of the process
/// and on the user database of the machine, so nothing is claimed of it:
/// there may be no home directory, and two calls may differ.
#[verifier::external_body]
pub(crate) fn home_dir() -> (home: Option<PathBuf>) {
    dirs::home_dir()
}

} // verus!
