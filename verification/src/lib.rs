//! Recognition of package-manager install commands in shell lines.
//!
//! The crate models, for every supported package manager, the grammar of its
//! install invocation: the command words, the sub-commands that mark an
//! install, the flags that take values, the flags worth capturing and the
//! flags that disqualify a line.  On top of that model it parses raw shell
//! lines into packages, and keeps sets of packages sorted and deduplicated so
//! they can be mirrored to another machine.

pub mod chars;
pub mod config;
pub mod history;
pub mod laws;
pub mod migrate;
pub mod package;
pub mod package_manager;
pub mod package_manager_impl;
pub mod paint;
pub mod strutil;

use vstd::prelude::*;

verus! {

/// The operating system whose command-name conventions matching follows.
///
/// On Windows every command word also matches with an `.exe` or `.cmd`
/// suffix; elsewhere only the bare word matches.
#[derive(Debug, Copy, Clone, PartialEq, Eq, Structural)]
pub enum Os {
    Posix,
    Windows,
}

} // verus!
