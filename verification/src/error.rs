//! The ways an installation fails by its own rules.

use std::path::PathBuf;
use vstd::prelude::*;
use vstd::string::StringExecFns;
use crate::path::{path_text, quoted, quoted_text};

verus! {

/// Why an installation stopped.
pub enum InstallError {
    /// The build command ran and reported failure.
    BuildFailed,
    /// The build succeeded, yet no file lies where the executable should be.
    BinaryMissing { path: PathBuf },
}

/// An [`InstallError`] as the contracts see it.
pub enum InstallErrorView {
    BuildFailed,
    BinaryMissing { path: Seq<u8> },
}

impl View for InstallError {
    type V = InstallErrorView;

    open spec fn view(&self) -> InstallErrorView {
        match *self {
            InstallError::BuildFailed => InstallErrorView::BuildFailed,
            InstallError::BinaryMissing { path } => InstallErrorView::BinaryMissing {
                path: path_text(path),
            },
        }
    }
}

/// The message for a missing executable whose path reads `quoted` in its
/// `Debug` form.
pub open spec fn missing_binary_text(quoted: Seq<char>) -> Seq<char> {
    "expected binary at "@ + quoted
}

/// The message that goes with an error.
pub open spec fn message_text(error: InstallErrorView) -> Seq<char> {
    match error {
        InstallErrorView::BuildFailed => "cargo build failed"@,
        InstallErrorView::BinaryMissing { path } => missing_binary_text(quoted_text(path)),
    }
}

/// The message for a missing executable, from the `Debug` form of its path.
pub fn missing_binary_message(quoted: &str) -> (text: String)
    ensures
        text@ == missing_binary_text(quoted@),
{
    String::from_str("expected binary at ").concat(quoted)
}

impl InstallError {
    /// The message that goes with this error.
    pub fn message(&self) -> (text: String)
        ensures
            text@ == message_text(self@),
    {
        match self {
            InstallError::BuildFailed => String::from_str("cargo build failed"),
            InstallError::BinaryMissing { path } => {
                let form = quoted(path);
                missing_binary_message(form.as_str())
            },
        }
    }
}

} // verus!
