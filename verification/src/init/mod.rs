//! Initializing the dotfiles environment: arguments and the rendered shell
//! environment file.

pub mod zsh;

use vstd::prelude::*;

verus! {

/// Arguments of the init subcommand.
#[derive(Debug)]
pub struct InitArgs {
    /// Url of the dot git repository.
    pub repo: String,
    /// Copy from the repo instead of cloning.
    pub copy: bool,
    /// The shell to initialize dotfile environments for.
    pub shell: Shell,
    /// Custom rc file name in case the default one is read-only.
    pub rc_file: Option<String>,
}

/// The shells whose environment file can be generated.
#[derive(Debug, Clone, Copy, PartialEq, Eq, Structural)]
pub enum Shell {
    Zsh,
}

} // verus!
