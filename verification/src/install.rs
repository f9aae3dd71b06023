//! Building and installing an executable, as a machine of states.
//!
//! The [`Installer`] never acts. In each state it names the one [`Action`]
//! it waits for; whoever drives it carries the action out and answers with
//! an [`Event`], and [`Installer::advance`] moves on. The order is fixed:
//! build, find the executable, make the install directory, copy, announce.

use std::path::PathBuf;
use vstd::prelude::*;
use vstd::string::StringExecFns;
use vstd::utf8::encode_utf8;
use crate::error::{message_text, InstallError, InstallErrorView};
use crate::home::home_dir;
use crate::options::{InstallOptions, InstallOptionsView};
use crate::path::{
    join, joined_text, opt_path_text, path_of, path_text, quoted_text, shown, shown_text,
};

verus! {

/// What happened to the action that an [`Installer`] waited for.
#[derive(Clone, Copy, Debug)]
pub enum Event {
    /// The build command ran to its end; `success` says whether it exited
    /// well.
    BuildExited { success: bool },
    /// Somebody looked for the built executable.
    BinaryProbed { exists: bool },
    /// The install directory is there, with every directory above it.
    DirectoryCreated,
    /// The executable has been copied to its target.
    BinaryCopied,
}

/// What the driver of an [`Installer`] is to do next.
pub enum Action {
    /// Run `program` with `args` and report whether it succeeded.
    Build { program: String, args: Vec<String> },
    /// Report whether a file lies at `path`.
    Probe { path: PathBuf },
    /// Make the directory `dir`, and those above it that are missing.
    CreateDir { dir: PathBuf },
    /// Copy the file at `from` to `to`.
    Copy { from: PathBuf, to: PathBuf },
    /// Print `notice`; the executable is installed at `target`.
    Finish { target: PathBuf, notice: String },
    /// Stop: the installation failed with `error`.
    Fail { error: InstallError },
    /// Stop: no directory was given and no home directory is known, so there
    /// is no place to install into.
    GiveUp,
}

/// An [`Action`] as the contracts see it.
pub enum ActionView {
    Build { program: Seq<char>, args: Seq<Seq<char>> },
    Probe { path: Seq<u8> },
    CreateDir { dir: Seq<u8> },
    Copy { from: Seq<u8>, to: Seq<u8> },
    Finish { target: Seq<u8>, notice: Seq<char> },
    Fail { error: InstallErrorView },
    GiveUp,
}

impl View for Action {
    type V = ActionView;

    open spec fn view(&self) -> ActionView {
        match *self {
            Action::Build { program, args } => ActionView::Build {
                program: program@,
                args: args.deep_view(),
            },
            Action::Probe { path } => ActionView::Probe { path: path_text(path) },
            Action::CreateDir { dir } => ActionView::CreateDir { dir: path_text(dir) },
            Action::Copy { from, to } => ActionView::Copy {
                from: path_text(from),
                to: path_text(to),
            },
            Action::Finish { target, notice } => ActionView::Finish {
                target: path_text(target),
                notice: notice@,
            },
            Action::Fail { error } => ActionView::Fail { error: error@ },
            Action::GiveUp => ActionView::GiveUp,
        }
    }
}

/// How far an installation has come, with what the rest of it needs.
pub enum Installer {
    /// Waiting for the build.
    Building { opts: InstallOptions },
    /// Built; waiting to hear whether the executable lies at `binary`.
    Locating { opts: InstallOptions, binary: PathBuf },
    /// The executable is there; waiting for the directory `dir`.
    Preparing { bin_name: String, binary: PathBuf, dir: PathBuf },
    /// Waiting for the copy from `binary` to `target`.
    Copying { binary: PathBuf, target: PathBuf },
    /// Done: the executable lies at `target`.
    Installed { target: PathBuf },
    /// Done: the installation failed.
    Failed { error: InstallError },
    /// Done: there is no place to install into.
    Stranded,
}

/// An [`Installer`] as the contracts see it.
pub enum InstallerView {
    Building { opts: InstallOptionsView },
    Locating { opts: InstallOptionsView, binary: Seq<u8> },
    Preparing { bin_name: Seq<char>, binary: Seq<u8>, dir: Seq<u8> },
    Copying { binary: Seq<u8>, target: Seq<u8> },
    Installed { target: Seq<u8> },
    Failed { error: InstallErrorView },
    Stranded,
}

impl View for Installer {
    type V = InstallerView;

    open spec fn view(&self) -> InstallerView {
        match *self {
            Installer::Building { opts } => InstallerView::Building { opts: opts@ },
            Installer::Locating { opts, binary } => InstallerView::Locating {
                opts: opts@,
                binary: path_text(binary),
            },
            Installer::Preparing { bin_name, binary, dir } => InstallerView::Preparing {
                bin_name: bin_name@,
                binary: path_text(binary),
                dir: path_text(dir),
            },
            Installer::Copying { binary, target } => InstallerView::Copying {
                binary: path_text(binary),
                target: path_text(target),
            },
            Installer::Installed { target } => InstallerView::Installed {
                target: path_text(target),
            },
            Installer::Failed { error } => InstallerView::Failed { error: error@ },
            Installer::Stranded => InstallerView::Stranded,
        }
    }
}

/// The program that builds the project.
pub open spec fn build_program() -> Seq<char> {
    "cargo"@
}

/// The arguments of the build.
pub open spec fn build_args() -> Seq<Seq<char>> {
    seq!["build"@, "--release"@]
}

/// Where the build leaves the executable `bin_name`: under `target`, then
/// `release`, relative to the directory the build ran in.
pub open spec fn built_binary_text(bin_name: Seq<char>) -> Seq<u8> {
    joined_text(joined_text(encode_utf8("target"@), "release"@), bin_name)
}

/// The directory to install into: the one asked for, else `.local/bin` under
/// the home directory, else none.
pub open spec fn install_dir_text(
    dest_dir: Option<Seq<u8>>,
    home: Option<Seq<u8>>,
) -> Option<Seq<u8>> {
    match dest_dir {
        Some(dir) => Some(dir),
        None => match home {
            Some(h) => Some(joined_text(h, ".local/bin"@)),
            None => None,
        },
    }
}

/// The line that announces an installation at a target that is shown as
/// `shown`.
pub open spec fn notice_text(shown: Seq<char>) -> Seq<char> {
    "Installed → "@ + shown
}

/// The action that a state waits for.
pub open spec fn pending(state: InstallerView) -> ActionView {
    match state {
        InstallerView::Building { opts } => ActionView::Build {
            program: build_program(),
            args: build_args(),
        },
        InstallerView::Locating { opts, binary } => ActionView::Probe { path: binary },
        InstallerView::Preparing { bin_name, binary, dir } => ActionView::CreateDir { dir },
        InstallerView::Copying { binary, target } => ActionView::Copy { from: binary, to: target },
        InstallerView::Installed { target } => ActionView::Finish {
            target,
            notice: notice_text(shown_text(target)),
        },
        InstallerView::Failed { error } => ActionView::Fail { error },
        InstallerView::Stranded => ActionView::GiveUp,
    }
}

/// True where the next state hangs on the home directory: the executable
/// was found and no install directory was asked for.
pub open spec fn asks_for_home(state: InstallerView, event: Event) -> bool {
    &&& state matches InstallerView::Locating { opts, .. }
    &&& opts.dest_dir is None
    &&& event matches Event::BinaryProbed { exists }
    &&& exists
}

/// The state that follows `state` on `event`, where `home` is the home
/// directory as far as one is known. An event that does not answer the
/// pending action changes nothing, and neither does any event once the
/// installation is done.
pub open spec fn advanced(
    state: InstallerView,
    event: Event,
    home: Option<Seq<u8>>,
) -> InstallerView {
    match (state, event) {
        (InstallerView::Building { opts }, Event::BuildExited { success }) => {
            if success {
                InstallerView::Locating { opts, binary: built_binary_text(opts.bin_name) }
            } else {
                InstallerView::Failed { error: InstallErrorView::BuildFailed }
            }
        },
        (InstallerView::Locating { opts, binary }, Event::BinaryProbed { exists }) => {
            if !exists {
                InstallerView::Failed { error: InstallErrorView::BinaryMissing { path: binary } }
            } else {
                match install_dir_text(opts.dest_dir, home) {
                    Some(dir) => InstallerView::Preparing { bin_name: opts.bin_name, binary, dir },
                    None => InstallerView::Stranded,
                }
            }
        },
        (InstallerView::Preparing { bin_name, binary, dir }, Event::DirectoryCreated) => {
            InstallerView::Copying { binary, target: joined_text(dir, bin_name) }
        },
        (InstallerView::Copying { binary, target }, Event::BinaryCopied) => {
            InstallerView::Installed { target }
        },
        _ => state,
    }
}

/// True of the states in which an installation has ended, well or badly.
pub open spec fn is_done(state: InstallerView) -> bool {
    state is Installed || state is Failed || state is Stranded
}

/// The state after the first `answered` actions of an installation have
/// gone well: the build succeeded, then the executable was found, then the
/// directory was made, then the copy was done.
pub open spec fn after_good_answers(
    opts: InstallOptionsView,
    home: Option<Seq<u8>>,
    answered: nat,
) -> InstallerView {
    let begun = InstallerView::Building { opts };
    let built = advanced(begun, Event::BuildExited { success: true }, home);
    let found = advanced(built, Event::BinaryProbed { exists: true }, home);
    let made = advanced(found, Event::DirectoryCreated, home);
    let copied = advanced(made, Event::BinaryCopied, home);
    if answered == 0 {
        begun
    } else if answered == 1 {
        built
    } else if answered == 2 {
        found
    } else if answered == 3 {
        made
    } else {
        copied
    }
}

/// What an installation asks for, one action after the other, while each
/// goes well: the release build; a look at the executable under
/// `target/release`; the install directory; the copy of the executable into
/// it, under its own name; and the notice that names the copy.
pub proof fn lemma_good_run(opts: InstallOptionsView, home: Option<Seq<u8>>)
    requires
        install_dir_text(opts.dest_dir, home) is Some,
    ensures
        ({
            let binary = built_binary_text(opts.bin_name);
            let dir = install_dir_text(opts.dest_dir, home)->0;
            let target = joined_text(dir, opts.bin_name);
            &&& pending(after_good_answers(opts, home, 0)) == (ActionView::Build {
                program: build_program(),
                args: build_args(),
            })
            &&& pending(after_good_answers(opts, home, 1)) == (ActionView::Probe { path: binary })
            &&& pending(after_good_answers(opts, home, 2)) == (ActionView::CreateDir { dir })
            &&& pending(after_good_answers(opts, home, 3)) == (ActionView::Copy {
                from: binary,
                to: target,
            })
            &&& pending(after_good_answers(opts, home, 4)) == (ActionView::Finish {
                target,
                notice: notice_text(shown_text(target)),
            })
        }),
{
}

/// Without a directory to install into, an installation stops as soon as
/// the executable is found: nothing is made and nothing is copied.
pub proof fn lemma_no_place_no_copy(opts: InstallOptionsView, home: Option<Seq<u8>>)
    requires
        install_dir_text(opts.dest_dir, home) is None,
    ensures
        opts.dest_dir is None,
        home is None,
        pending(after_good_answers(opts, home, 2)) == ActionView::GiveUp,
        pending(after_good_answers(opts, home, 4)) == ActionView::GiveUp,
{
}

/// The two ways an installation fails: a build that reports failure ends
/// it at once, and so does a build that leaves no executable where one is
/// looked for. Each failure carries its message.
pub proof fn lemma_bad_answers_fail(opts: InstallOptionsView, home: Option<Seq<u8>>)
    ensures
        ({
            let begun = InstallerView::Building { opts };
            let failed = advanced(begun, Event::BuildExited { success: false }, home);
            let missing = advanced(
                after_good_answers(opts, home, 1),
                Event::BinaryProbed { exists: false },
                home,
            );
            let binary = built_binary_text(opts.bin_name);
            &&& pending(failed) == (ActionView::Fail { error: InstallErrorView::BuildFailed })
            &&& message_text(InstallErrorView::BuildFailed) == "cargo build failed"@
            &&& pending(missing) == (ActionView::Fail {
                error: InstallErrorView::BinaryMissing { path: binary },
            })
            &&& message_text(InstallErrorView::BinaryMissing { path: binary })
                == "expected binary at "@ + quoted_text(binary)
        }),
{
}

/// Once an installation has ended, no event moves it.
pub proof fn lemma_done_stays_done(state: InstallerView, event: Event, home: Option<Seq<u8>>)
    requires
        is_done(state),
    ensures
        advanced(state, event, home) == state,
{
}

/// An installation ends only by the answer it waits for: it is installed by
/// the copy, fails by a failed build or a missing executable, and is left
/// without a place only where the home directory was asked for.
pub proof fn lemma_ends_only_on_answer(state: InstallerView, event: Event, home: Option<Seq<u8>>)
    requires
        !is_done(state),
        is_done(advanced(state, event, home)),
    ensures
        advanced(state, event, home) is Installed ==> state is Copying && event is BinaryCopied,
        advanced(state, event, home) is Failed ==> {
            ||| state is Building && event == (Event::BuildExited { success: false })
            ||| state is Locating && event == (Event::BinaryProbed { exists: false })
        },
        advanced(state, event, home) is Stranded ==> asks_for_home(state, event) && home is None,
{
}

/// The home directory bears on the next state only where it is asked for.
pub proof fn lemma_home_bears_only_when_asked(
    state: InstallerView,
    event: Event,
    home: Option<Seq<u8>>,
    other: Option<Seq<u8>>,
)
    requires
        !asks_for_home(state, event),
    ensures
        advanced(state, event, home) == advanced(state, event, other),
{
}

/// The path at which the build leaves the executable `bin_name`.
pub fn built_binary(bin_name: &str) -> (path: PathBuf)
    ensures
        path_text(path) == built_binary_text(bin_name@),
{
    let root = path_of("target");
    let release = join(&root, "release");
    join(&release, bin_name)
}

/// The directory to install into: `dest_dir` where one is given, else
/// `.local/bin` under `home`, and `None` where neither is known.
pub fn install_dir(dest_dir: Option<PathBuf>, home: Option<PathBuf>) -> (dir: Option<PathBuf>)
    ensures
        opt_path_text(dir) == install_dir_text(opt_path_text(dest_dir), opt_path_text(home)),
{
    match dest_dir {
        Some(dir) => Some(dir),
        None => match home {
            Some(h) => Some(join(&h, ".local/bin")),
            None => None,
        },
    }
}

/// The line that announces an installation, from the target as it is shown.
pub fn installed_notice(shown: &str) -> (notice: String)
    ensures
        notice@ == notice_text(shown@),
{
    String::from_str("Installed → ").concat(shown)
}

impl Installer {
    /// An installation that has not begun: it waits for the build.
    pub fn new(opts: InstallOptions) -> (state: Installer)
        ensures
            state@ == (InstallerView::Building { opts: opts@ }),
    {
        Installer::Building { opts }
    }

    /// The action that this state waits for. It does not change until
    /// [`Installer::advance`] has moved the state on.
    pub fn action(&self) -> (action: Action)
        ensures
            action@ == pending(self@),
    {
        match self {
            Installer::Building { opts } => {
                let mut args: Vec<String> = Vec::new();
                args.push(String::from_str("build"));
                args.push(String::from_str("--release"));
                assert(args.deep_view() =~= build_args());
                Action::Build { program: String::from_str("cargo"), args }
            },
            Installer::Locating { opts, binary } => Action::Probe { path: binary.clone() },
            Installer::Preparing { bin_name, binary, dir } => Action::CreateDir {
                dir: dir.clone(),
            },
            Installer::Copying { binary, target } => Action::Copy {
                from: binary.clone(),
                to: target.clone(),
            },
            Installer::Installed { target } => {
                let text = shown(target);
                Action::Finish { target: target.clone(), notice: installed_notice(text.as_str()) }
            },
            Installer::Failed { error } => match error {
                InstallError::BuildFailed => Action::Fail { error: InstallError::BuildFailed },
                InstallError::BinaryMissing { path } => Action::Fail {
                    error: InstallError::BinaryMissing { path: path.clone() },
                },
            },
            Installer::Stranded => Action::GiveUp,
        }
    }

    /// True where [`Installer::advance`] on `event` has to know the home
    /// directory.
    pub fn needs_home(&self, event: Event) -> (needed: bool)
        ensures
            needed == asks_for_home(self@, event),
    {
        match self {
            Installer::Locating { opts, binary } => match event {
                Event::BinaryProbed { exists } => exists && opts.dest_dir.is_none(),
                _ => false,
            },
            _ => false,
        }
    }

    /// Moves on by one event, with the home directory handed in.
    pub fn advance_with(self, event: Event, home: Option<PathBuf>) -> (next: Installer)
        ensures
            next@ == advanced(self@, event, opt_path_text(home)),
    {
        match self {
            Installer::Building { opts } => match event {
                Event::BuildExited { success } => {
                    if success {
                        let binary = built_binary(opts.bin_name.as_str());
                        Installer::Locating { opts, binary }
                    } else {
                        Installer::Failed { error: InstallError::BuildFailed }
                    }
                },
                _ => Installer::Building { opts },
            },
            Installer::Locating { opts, binary } => match event {
                Event::BinaryProbed { exists } => {
                    if !exists {
                        Installer::Failed { error: InstallError::BinaryMissing { path: binary } }
                    } else {
                        let InstallOptions { bin_name, dest_dir } = opts;
                        match install_dir(dest_dir, home) {
                            Some(dir) => Installer::Preparing { bin_name, binary, dir },
                            None => Installer::Stranded,
                        }
                    }
                },
                _ => Installer::Locating { opts, binary },
            },
            Installer::Preparing { bin_name, binary, dir } => match event {
                Event::DirectoryCreated => {
                    let target = join(&dir, bin_name.as_str());
                    Installer::Copying { binary, target }
                },
                _ => Installer::Preparing { bin_name, binary, dir },
            },
            Installer::Copying { binary, target } => match event {
                Event::BinaryCopied => Installer::Installed { target },
                _ => Installer::Copying { binary, target },
            },
            Installer::Installed { target } => Installer::Installed { target },
            Installer::Failed { error } => Installer::Failed { error },
            Installer::Stranded => Installer::Stranded,
        }
    }

    /// Moves on by one event. Where the next state hangs on the home
    /// directory, the machine is asked for it, and only then.
    pub fn advance(self, event: Event) -> (next: Installer)
        ensures
            exists|home: Option<Seq<u8>>| next@ == #[trigger] advanced(self@, event, home),
            !asks_for_home(self@, event) ==> next@ == advanced(self@, event, None),
    {
        let home = if self.needs_home(event) {
            home_dir()
        } else {
            None
        };
        self.advance_with(event, home)
    }
}

} // verus!
