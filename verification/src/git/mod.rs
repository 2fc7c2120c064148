//! Git conveniences: per-repository identity profiles and clone planning.

pub mod clone;
pub mod profile;
pub mod utils;

use vstd::prelude::*;

use crate::git::clone::{entry_git_clone, plans_clone, ClonePlan};
use crate::git::profile::{entry_git_profile, selects_profile, GitProfileSelection};
use crate::prefix::Prefix;

verus! {

/// What can go wrong while planning git work.
#[derive(Debug, Clone, Copy, PartialEq, Eq, Structural)]
pub enum GitError {
    /// A required argument was missing.
    MissingArgument,
    /// A predefined profile document could not be parsed.
    Parse,
    /// A predefined profile entry lacks its name or email.
    MissingField,
    /// A remote URL names a host that matches neither the profile key nor its
    /// hostname.
    HostMismatch,
    /// A remote URL or configuration line has an unusable shape.
    Invalid,
    /// The ssh stanza of the profile holds no hostname line.
    NoHostname,
}

/// Arguments of the git subcommand.
#[derive(Debug)]
pub struct GitArgs {
    pub command: GitCommand,
}

/// The git subcommands.
#[derive(Debug)]
pub enum GitCommand {
    /// Set git remote url and per-repo config.
    Profile(GitProfileKeyArgs),
    /// Utility for cloning git repo.
    Clone(GitCloneArgs),
}

/// Arguments of the profile subcommand: a predefined profile takes precedence
/// over an ad-hoc description.
#[derive(Debug)]
pub struct GitProfileKeyArgs {
    /// Set git remote url and config from a predefined config.
    pub config: Option<String>,
    pub profile: GitProfileArgs,
}

/// Ad-hoc description of one git profile.
#[derive(Debug)]
pub struct GitProfileArgs {
    /// Key of the ssh config to use for authentication.
    pub key: Option<String>,
    /// Name of the repository author.
    pub name: Option<String>,
    /// Email of the repository author.
    pub email: Option<String>,
    /// Additional configuration entries for the repository.
    pub additions: Vec<(String, String)>,
}

/// Arguments of the clone subcommand.
#[derive(Debug)]
pub struct GitCloneArgs {
    /// Git repository path to clone.
    pub repo: String,
    /// Predefined git profile to use for cloning the remote repository.
    pub config: Option<String>,
    /// Destination directory; the last path segment of the repository inside
    /// the current working directory when absent.
    pub destination: Option<String>,
}

/// What the git subcommand decided to do.
#[derive(Debug)]
pub enum GitPlan {
    Profile(GitProfileSelection),
    Clone(ClonePlan),
}

/// Dispatches the git subcommand: a profile command yields the profile
/// selection of `selects_profile`, a clone command the plan of `plans_clone`.
pub fn entry_git(args: &GitArgs, prefix: &Prefix, default_profile: Option<&str>) -> (r: Result<
    GitPlan,
    GitError,
>)
    ensures
        match args.command {
            GitCommand::Profile(pa) => match r {
                Ok(plan) => (plan matches GitPlan::Profile(sel) && selects_profile(
                    pa,
                    default_profile,
                    Ok(sel),
                )),
                Err(e) => selects_profile(pa, default_profile, Err(e)),
            },
            GitCommand::Clone(ca) => match r {
                Ok(plan) => (plan matches GitPlan::Clone(cp) && plans_clone(
                    ca,
                    prefix@,
                    default_profile,
                    Ok(cp),
                )),
                Err(e) => plans_clone(ca, prefix@, default_profile, Err(e)),
            },
        },
{
    match &args.command {
        GitCommand::Profile(pa) => match entry_git_profile(pa, default_profile) {
            Ok(s) => Ok(GitPlan::Profile(s)),
            Err(e) => Err(e),
        },
        GitCommand::Clone(ca) => match entry_git_clone(ca, prefix, default_profile) {
            Ok(p) => Ok(GitPlan::Clone(p)),
            Err(e) => Err(e),
        },
    }
}

} // verus!
