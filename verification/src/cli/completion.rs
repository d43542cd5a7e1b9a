//! The `completion` command: scripts for the shell.

use vstd::prelude::*;

verus! {

/// A shell that completion scripts are written for.
#[derive(Debug, Clone, Copy, PartialEq, Eq, Structural)]
pub enum Shell {
    Bash,
    Elvish,
    Fish,
    PowerShell,
    Zsh,
}

/// The arguments of `completion`.
#[derive(Debug, Clone, PartialEq, Eq)]
pub struct CompletionArgs {
    /// The shell to write the script for.
    pub shell: Shell,
}

} // verus!
