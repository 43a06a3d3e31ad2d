use vstd::prelude::*;

verus! {

/// Commands for generating shell completions.
#[derive(Debug)]
pub enum ShellCommands {
    /// Generate completions for a shell; needs no configuration file.
    Completions(Completions),
}

/// The shells completions can be generated for.
#[derive(Clone, Copy, Debug, PartialEq, Eq, Structural)]
pub enum Shell {
    Bash,
    Elvish,
    Fish,
    PowerShell,
    Zsh,
}

/// Arguments of completion generation.
#[derive(Debug)]
pub struct Completions {
    pub shell: Shell,
}

} // verus!
