//! The directory layout of the managed environment, rooted at one prefix
//! directory. Every path the crate touches is derived from the prefix by the
//! functions here, with `/` as the separator.

use vstd::prelude::*;
use vstd::string::*;

verus! {

/// Name of the directory holding per-host ssh configuration stanzas.
pub const SSH_CONFIG_DIR_NAME: &'static str = "config.d";

/// The root directory of the environment.
#[derive(Debug)]
pub struct Prefix {
    root: String,
}

pub open spec fn dot_dir(root: Seq<char>) -> Seq<char> {
    root + "/.dot"@
}

pub open spec fn ssh_dir(root: Seq<char>) -> Seq<char> {
    root + "/.ssh"@
}

pub open spec fn ssh_config_dir(root: Seq<char>) -> Seq<char> {
    ssh_dir(root) + "/"@ + "config.d"@
}

pub open spec fn code_dir(root: Seq<char>) -> Seq<char> {
    root + "/code"@
}

pub open spec fn local_dir(root: Seq<char>) -> Seq<char> {
    dot_dir(root) + "/.local"@
}

pub open spec fn bin_dir(root: Seq<char>) -> Seq<char> {
    local_dir(root) + "/bin"@
}

pub open spec fn skm_dir(root: Seq<char>) -> Seq<char> {
    local_dir(root) + "/skm"@
}

pub open spec fn config_dir(root: Seq<char>) -> Seq<char> {
    dot_dir(root) + "/config"@
}

pub open spec fn config_git_dir(root: Seq<char>) -> Seq<char> {
    config_dir(root) + "/git"@
}

pub open spec fn config_ssh_dir(root: Seq<char>) -> Seq<char> {
    config_dir(root) + "/ssh"@
}

pub open spec fn config_binary_dir(root: Seq<char>) -> Seq<char> {
    config_dir(root) + "/binary"@
}

impl View for Prefix {
    type V = Seq<char>;

    closed spec fn view(&self) -> Seq<char> {
        self.root@
    }
}

impl Prefix {
    /// Wraps an already-resolved root directory.
    pub fn new(root: String) -> (r: Self)
        ensures
            r@ == root@,
    {
        Prefix { root }
    }

    /// The root directory itself.
    pub fn prefix(&self) -> (r: &str)
        ensures
            r@ == self@,
    {
        self.root.as_str()
    }

    /// The dotfiles repository checkout.
    pub fn dot(&self) -> (r: String)
        ensures
            r@ == dot_dir(self@),
    {
        let mut s = self.root.clone();
        s.append("/.dot");
        s
    }

    /// The user's ssh directory.
    pub fn ssh(&self) -> (r: String)
        ensures
            r@ == ssh_dir(self@),
    {
        let mut s = self.root.clone();
        s.append("/.ssh");
        s
    }

    /// The directory of generated per-host ssh stanzas.
    pub fn ssh_config(&self) -> (r: String)
        ensures
            r@ == ssh_config_dir(self@),
    {
        let mut s = self.ssh();
        s.append("/");
        s.append(SSH_CONFIG_DIR_NAME);
        s
    }

    /// Where working repositories are cloned.
    pub fn code(&self) -> (r: String)
        ensures
            r@ == code_dir(self@),
    {
        let mut s = self.root.clone();
        s.append("/code");
        s
    }

    /// Machine-local state below the dotfiles checkout.
    pub fn local(&self) -> (r: String)
        ensures
            r@ == local_dir(self@),
    {
        let mut s = self.dot();
        s.append("/.local");
        s
    }

    /// Where binaries are installed.
    pub fn bin(&self) -> (r: String)
        ensures
            r@ == bin_dir(self@),
    {
        let mut s = self.local();
        s.append("/bin");
        s
    }

    /// The ssh key store.
    pub fn skm(&self) -> (r: String)
        ensures
            r@ == skm_dir(self@),
    {
        let mut s = self.local();
        s.append("/skm");
        s
    }

    /// Configuration inside the dotfiles checkout.
    pub fn config(&self) -> (r: String)
        ensures
            r@ == config_dir(self@),
    {
        let mut s = self.dot();
        s.append("/config");
        s
    }

    /// Predefined git profiles.
    pub fn config_git(&self) -> (r: String)
        ensures
            r@ == config_git_dir(self@),
    {
        let mut s = self.config();
        s.append("/git");
        s
    }

    /// Predefined ssh keys.
    pub fn config_ssh(&self) -> (r: String)
        ensures
            r@ == config_ssh_dir(self@),
    {
        let mut s = self.config();
        s.append("/ssh");
        s
    }

    /// Predefined binary versions.
    pub fn config_binary(&self) -> (r: String)
        ensures
            r@ == config_binary_dir(self@),
    {
        let mut s = self.config();
        s.append("/binary");
        s
    }
}

/// Joins one further component onto a directory path.
pub fn join_path(dir: &str, name: &str) -> (r: String)
    ensures
        r@ == dir@ + "/"@ + name@,
{
    let mut s = String::from_str(dir);
    s.append("/");
    s.append(name);
    s
}

} // verus!
