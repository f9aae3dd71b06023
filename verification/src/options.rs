//! What an installation is asked to do.

use std::path::PathBuf;
use vstd::prelude::*;
use crate::path::opt_path_text;

verus! {

/// The name of the executable to install, and the directory to install it
/// into when the usual place is not wanted.
pub struct InstallOptions {
    /// The file name of the built executable.
    pub bin_name: String,
    /// Where to install. `None` stands for `.local/bin` under the home
    /// directory.
    pub dest_dir: Option<PathBuf>,
}

/// An [`InstallOptions`] as the contracts see it.
pub struct InstallOptionsView {
    pub bin_name: Seq<char>,
    pub dest_dir: Option<Seq<u8>>,
}

impl View for InstallOptions {
    type V = InstallOptionsView;

    open spec fn view(&self) -> InstallOptionsView {
        InstallOptionsView {
            bin_name: self.bin_name@,
            dest_dir: opt_path_text(self.dest_dir),
        }
    }
}

impl InstallOptions {
    /// Options for the executable `bin_name`, installed in the usual place.
    pub fn default(bin_name: &str) -> (opts: InstallOptions)
        ensures
            opts.bin_name@ == bin_name@,
            opts.dest_dir is None,
    {
        InstallOptions { bin_name: bin_name.to_owned(), dest_dir: None }
    }
}

} // verus!
