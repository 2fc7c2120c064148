//! Planning the clone subcommand: resolving the repository argument to a
//! clone URL and a default destination name.

use vstd::prelude::*;
use vstd::string::*;

use crate::git::utils::{after_last, parse_url, suffix_after_last, url_parts_of};
use crate::git::{GitCloneArgs, GitError};
use crate::prefix::{ssh_config_dir, Prefix};
use crate::utils::{find_char, first_at, str_eq};

verus! {

/// `s` with every trailing `.git` removed.
pub open spec fn trim_dot_git(s: Seq<char>) -> Seq<char>
    decreases s.len(),
{
    if s.len() >= 4 && s.subrange(s.len() - 4, s.len() as int) == ".git"@ {
        trim_dot_git(s.take(s.len() - 4))
    } else {
        s
    }
}

/// Removes every trailing `.git` from `s`.
pub fn trim_git_suffix(s: &str) -> (r: String)
    ensures
        r@ == trim_dot_git(s@),
{
    let s_len = s.unicode_len();
    let mut n: usize = s_len;
    proof {
        reveal_strlit(".git");
        assert(s@.take(s_len as int) =~= s@);
    }
    while n >= 4 && (s.get_char(n - 4) == '.' && s.get_char(n - 3) == 'g' && s.get_char(n - 2)
        == 'i' && s.get_char(n - 1) == 't')
        invariant
            n <= s_len,
            s_len == s@.len(),
            trim_dot_git(s@) == trim_dot_git(s@.take(n as int)),
        decreases n,
    {
        proof {
            reveal_strlit(".git");
            let part = s@.take(n as int);
            assert(part.subrange(n - 4, n as int) =~= ".git"@);
            assert(part.take(n - 4) =~= s@.take(n - 4));
        }
        n = n - 4;
    }
    let r = String::from_str(s.substring_char(0, n));
    proof {
        reveal_strlit(".git");
        let part = s@.take(n as int);
        if n >= 4 {
            // the loop stopped on a mismatch, so no `.git` suffix remains
            assert(part.subrange(n - 4, n as int) != ".git"@) by {
                if part.subrange(n - 4, n as int) == ".git"@ {
                    assert(part.subrange(n - 4, n as int)[0] == s@[n - 4]);
                    assert(part.subrange(n - 4, n as int)[1] == s@[n - 3]);
                    assert(part.subrange(n - 4, n as int)[2] == s@[n - 2]);
                    assert(part.subrange(n - 4, n as int)[3] == s@[n - 1]);
                }
            }
        }
        assert(r@ =~= s@.take(n as int));
    }
    r
}

/// Everything the clone subcommand needs: the URL to clone, the ssh stanza
/// that must exist when a profile authenticates the clone, and the
/// repository's short name for the default destination directory.
#[derive(Debug)]
pub struct ClonePlan {
    pub repo_url: String,
    pub stanza_path: Option<String>,
    pub dir_name: String,
}

/// The profile name the clone uses: the explicit argument first, then the
/// caller-supplied default.
pub open spec fn chosen_config(args: GitCloneArgs, default_profile: Option<&str>) -> Option<
    Seq<char>,
> {
    match args.config {
        Some(c) => Some(c@),
        None => match default_profile {
            Some(d) => Some(d@),
            None => None,
        },
    }
}

/// The clone URL of the profile branch: `profile:repo`, with `vnghia/`
/// prefixed to a bare repository name.
pub open spec fn profile_repo_url(repo: Seq<char>, c: Seq<char>) -> Seq<char> {
    if first_at(repo, '/') < repo.len() {
        c + ":"@ + repo
    } else {
        c + ":"@ + "vnghia/"@ + repo
    }
}

/// The repository argument stands for an http(s) URL of its own.
pub open spec fn is_http_repo(repo: Seq<char>) -> bool {
    url_parts_of(repo) matches Some(t) && (t.0 == "http"@ || t.0 == "https"@)
}

/// The clone subcommand's plan: an http(s) repository argument is cloned as
/// it stands; anything else is reached through a profile's ssh host, so a
/// profile must be named or a default supplied, and its stanza must exist.
/// The short name for the default destination drops a `.git` suffix and
/// takes the last URL segment.
pub open spec fn plans_clone(
    args: GitCloneArgs,
    prefix: Seq<char>,
    default_profile: Option<&str>,
    r: Result<ClonePlan, GitError>,
) -> bool {
    match r {
        Ok(plan) => {
            &&& plan.dir_name@ == after_last(trim_dot_git(plan.repo_url@), '/')
            &&& if is_http_repo(args.repo@) {
                plan.repo_url@ == args.repo@ && plan.stanza_path is None
            } else {
                chosen_config(args, default_profile) matches Some(c) && plan.repo_url@
                    == profile_repo_url(args.repo@, c) && (plan.stanza_path matches Some(p) && p@
                    == ssh_config_dir(prefix) + "/"@ + c)
            }
        },
        Err(e) => {
            &&& e == GitError::MissingArgument
            &&& !is_http_repo(args.repo@)
            &&& chosen_config(args, default_profile) is None
        },
    }
}

/// Plans the clone, exactly as `plans_clone` describes.
pub fn entry_git_clone(args: &GitCloneArgs, prefix: &Prefix, default_profile: Option<&str>) -> (r:
    Result<ClonePlan, GitError>)
    ensures
        plans_clone(*args, prefix@, default_profile, r),
{
    let parts = parse_url(args.repo.as_str());
    let is_http = match &parts {
        Some(p) => str_eq(p.scheme.as_str(), "http") || str_eq(p.scheme.as_str(), "https"),
        None => false,
    };
    let (repo_url, stanza_path) = if is_http {
        (args.repo.clone(), None)
    } else {
        let config = match &args.config {
            Some(c) => c.clone(),
            None => match default_profile {
                Some(d) => String::from_str(d),
                None => { return Err(GitError::MissingArgument) },
            },
        };
        let repo_len = args.repo.as_str().unicode_len();
        let slash = find_char(args.repo.as_str(), 0, '/');
        proof {
            assert(args.repo@.skip(0) =~= args.repo@);
        }
        let mut url = config.clone();
        url.append(":");
        if slash >= repo_len {
            url.append("vnghia/");
        }
        url.append(args.repo.as_str());
        let mut stanza = prefix.ssh_config();
        stanza.append("/");
        stanza.append(config.as_str());
        (url, Some(stanza))
    };
    let dir_name = suffix_after_last(trim_git_suffix(repo_url.as_str()).as_str(), '/');
    Ok(ClonePlan { repo_url, stanza_path, dir_name })
}

} // verus!
