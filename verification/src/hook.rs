//! The line that puts an install directory on a shell's search path, and
//! the startup file it belongs in.
//!
//! Nothing is written here: a [`PathHook`] says which line to append to
//! which file, and the caller appends it.

use std::path::PathBuf;
use vstd::prelude::*;
use vstd::string::StringExecFns;
use crate::home::home_dir;
use crate::path::{join, joined_text, opt_path_text, path_text, shown, shown_text};

verus! {

/// A line to append to a shell's startup file.
pub struct PathHook {
    /// The startup file: `.zshrc` in the home directory.
    pub file: PathBuf,
    /// The text to append, from its leading line break to its closing one.
    pub line: String,
}

/// A [`PathHook`] as the contracts see it.
pub struct PathHookView {
    pub file: Seq<u8>,
    pub line: Seq<char>,
}

impl View for PathHook {
    type V = PathHookView;

    open spec fn view(&self) -> PathHookView {
        PathHookView { file: path_text(self.file), line: self.line@ }
    }
}

/// The view of a hook that may be absent.
pub open spec fn opt_hook_view(hook: Option<PathHook>) -> Option<PathHookView> {
    match hook {
        Some(h) => Some(h@),
        None => None,
    }
}

/// The text that puts a directory, shown as `shown`, in front of `PATH`: an
/// empty line's break, a comment that says where the line came from, and the
/// export itself.
pub open spec fn hook_line_text(shown: Seq<char>) -> Seq<char> {
    "\n# added by toolchain installer\nexport PATH=\""@ + shown + ":$PATH\"\n"@
}

/// The hook for the directory with the bytes `dir`, where `home` is the home
/// directory as far as one is known. Without a home directory there is no
/// startup file, and no hook.
pub open spec fn path_hook_view(home: Option<Seq<u8>>, dir: Seq<u8>) -> Option<PathHookView> {
    match home {
        Some(h) => Some(
            PathHookView { file: joined_text(h, ".zshrc"@), line: hook_line_text(shown_text(dir)) },
        ),
        None => None,
    }
}

/// The text to append for a directory that is shown as `shown`.
pub fn hook_line(shown: &str) -> (line: String)
    ensures
        line@ == hook_line_text(shown@),
{
    String::from_str("\n# added by toolchain installer\nexport PATH=\"").concat(shown).concat(
        ":$PATH\"\n",
    )
}

/// The hook that puts `dir` on the search path, with the home directory
/// handed in: `None` exactly where `home` is.
pub fn path_hook_with(home: Option<PathBuf>, dir: &PathBuf) -> (hook: Option<PathHook>)
    ensures
        opt_hook_view(hook) == path_hook_view(opt_path_text(home), path_text(*dir)),
{
    match home {
        Some(h) => {
            let file = join(&h, ".zshrc");
            let text = shown(dir);
            Some(PathHook { file, line: hook_line(text.as_str()) })
        },
        None => None,
    }
}

/// The hook that puts `dir` on the search path. The machine is asked for the
/// home directory; `None` says that it knows of none.
pub fn path_hook(dir: &PathBuf) -> (hook: Option<PathHook>)
    ensures
        exists|home: Option<Seq<u8>>|
            opt_hook_view(hook) == #[trigger] path_hook_view(home, path_text(*dir)),
{
    path_hook_with(home_dir(), dir)
}

} // verus!
