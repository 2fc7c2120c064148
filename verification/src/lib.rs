//! Environment-bootstrapping toolkit: resolves download URLs for prebuilt
//! binaries, drives an atomic install pipeline, renders shell and ssh
//! configuration, and plans per-repository git settings.

pub mod git;
pub mod init;
pub mod install;
pub mod platform;
pub mod prefix;
pub mod ssh;
pub mod utils;

use vstd::prelude::*;

verus! {

/// The subcommands of the tool.
#[derive(Debug)]
pub enum Command {
    /// Initialize the dot environment.
    Init(crate::init::InitArgs),
    /// Install a binary from the internet.
    Install(crate::install::InstallArgs),
    /// Generate ssh keys and configuration stanzas.
    Ssh(crate::ssh::SshArgs),
    /// Work with git repositories.
    Git(crate::git::GitArgs),
}

} // verus!
