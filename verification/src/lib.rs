//! Decisions of a small installer: which command builds the project, where
//! the built executable lies, where it is copied to, and which line makes a
//! shell find it.
//!
//! Nothing here touches the file system or starts a process. A caller carries
//! out each [`Action`] that an [`Installer`] names and reports back with an
//! [`Event`]; a [`PathHook`] says what to append to which file.

pub mod error;
mod home;
pub mod hook;
pub mod install;
pub mod options;
pub mod path;

pub use crate::error::InstallError;
pub use crate::hook::PathHook;
pub use crate::install::{Action, Event, Installer};
pub use crate::options::InstallOptions;
