//! Per-host ssh key generation and client-configuration stanzas.

pub mod key;

use vstd::prelude::*;
use vstd::string::*;

use crate::ssh::key::SshKey;
use crate::utils::{content_has_line, has_line};

verus! {

/// What can go wrong while planning ssh work.
#[derive(Debug, Clone, Copy, PartialEq, Eq, Structural)]
pub enum SshError {
    /// A required argument was missing.
    MissingArgument,
    /// A predefined key document could not be parsed.
    Parse,
    /// A predefined key entry has no hostname.
    MissingHostname,
}

/// Arguments of the ssh subcommand: a predefined key takes precedence over an
/// ad-hoc description.
#[derive(Debug)]
pub struct SshArgs {
    /// Generate a ssh key with this predefined config.
    pub config: Option<String>,
    pub key: SshKeyArgs,
}

/// Ad-hoc description of one ssh key.
#[derive(Debug)]
pub struct SshKeyArgs {
    /// Name of the public/private key pair.
    pub key: Option<String>,
    /// Hostname of the destination server.
    pub hostname: Option<String>,
    /// Comment to add to the public/private key pair.
    pub comment: Option<String>,
    /// Additional configuration lines for the generated stanza.
    pub addition: Vec<(String, String)>,
}

/// The line that makes the ssh client read the generated stanza directory.
pub const SSH_INCLUDE_CONFIG_DIR_LINE: &'static str = "Include config.d/*";

/// The ssh configuration with the include line ensured: content that already
/// holds the line (on any line, however indented) is left alone; otherwise
/// the line is appended.
pub open spec fn with_include_spec(content: Seq<char>) -> Seq<char> {
    if has_line(content, "Include config.d/*"@) {
        content
    } else {
        content + "Include config.d/*"@ + "\n"@
    }
}

/// Ensures the include line is present in the ssh configuration content.
pub fn with_include_line(content: &str) -> (r: String)
    ensures
        r@ == with_include_spec(content@),
{
    if content_has_line(content, SSH_INCLUDE_CONFIG_DIR_LINE) {
        String::from_str(content)
    } else {
        let mut s = String::from_str(content);
        s.append(SSH_INCLUDE_CONFIG_DIR_LINE);
        s.append("\n");
        s
    }
}

/// How the ssh subcommand proceeds: with a predefined key looked up by name,
/// or with the ad-hoc key built from the arguments.
#[derive(Debug)]
pub enum SshSelection {
    Predefined(String),
    AdHoc(SshKey),
}

/// Chooses what the ssh subcommand works on: an explicitly named predefined
/// key wins; otherwise a complete ad-hoc description is used; otherwise the
/// caller-supplied default key name; with none of the three, a required
/// argument is missing.
pub fn entry_ssh(args: &SshArgs, default_key: Option<&str>) -> (r: Result<SshSelection, SshError>)
    ensures
        match args.config {
            Some(c) => (r matches Ok(SshSelection::Predefined(k)) && k@ == c@),
            None => {
                if args.key.key is Some && args.key.hostname is Some {
                    r matches Ok(SshSelection::AdHoc(k)) && k.describes_args(args.key)
                } else {
                    match default_key {
                        Some(d) => (r matches Ok(SshSelection::Predefined(k)) && k@ == d@),
                        None => r == Err::<SshSelection, SshError>(SshError::MissingArgument),
                    }
                }
            },
        },
{
    match &args.config {
        Some(c) => Ok(SshSelection::Predefined(c.clone())),
        None => {
            match SshKey::from_args(&args.key) {
                Ok(k) => Ok(SshSelection::AdHoc(k)),
                Err(e) => {
                    match default_key {
                        Some(d) => Ok(SshSelection::Predefined(String::from_str(d))),
                        None => Err(e),
                    }
                },
            }
        },
    }
}

} // verus!
