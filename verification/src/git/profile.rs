//! Per-repository git identity profiles, loaded from a predefined document or
//! given ad hoc, and the hostname extraction from a profile's ssh stanza.

use vstd::prelude::*;
use vstd::seq_lib::*;
use vstd::string::*;

use crate::git::{GitError, GitProfileArgs, GitProfileKeyArgs};
use crate::utils::{
    assoc_lookup, clone_pairs, find_char, first_at, lines_of, load_predefined_and_local,
    loaded_nested, lookup_spec, some_table_lacks, str_eq, trim_spec, trimmed,
};

verus! {

/// The identity and extra configuration one profile sets on a repository.
#[derive(Debug)]
pub struct GitConfig {
    pub name: String,
    pub email: String,
    pub additions: Vec<(String, String)>,
}

/// A named profile: the ssh key it authenticates with and the configuration
/// it sets.
#[derive(Debug)]
pub struct GitProfile {
    pub key: String,
    pub config: GitConfig,
}

impl GitConfig {
    /// The configuration entries to set on the repository, in order: the
    /// author name, the author email, then every addition.
    pub fn config_pairs(&self) -> (r: Vec<(String, String)>)
        ensures
            r.deep_view() == seq![("user.name"@, self.name@), ("user.email"@, self.email@)]
                + self.additions.deep_view(),
    {
        let mut r: Vec<(String, String)> = Vec::new();
        r.push((String::from_str("user.name"), self.name.clone()));
        r.push((String::from_str("user.email"), self.email.clone()));
        let mut i: usize = 0;
        while i < self.additions.len()
            invariant
                i <= self.additions@.len(),
                r@.len() == 2 + i,
                r@[0].deep_view() == ("user.name"@, self.name@),
                r@[1].deep_view() == ("user.email"@, self.email@),
                forall|k: int|
                    2 <= k < 2 + i ==> (#[trigger] r@[k]).deep_view()
                        == self.additions@[k - 2].deep_view(),
            decreases self.additions@.len() - i,
        {
            r.push((self.additions[i].0.clone(), self.additions[i].1.clone()));
            i = i + 1;
        }
        proof {
            assert(r.deep_view() =~= seq![
                ("user.name"@, self.name@),
                ("user.email"@, self.email@),
            ] + self.additions.deep_view());
        }
        r
    }
}

impl GitProfile {
    /// `self` was built from exactly these arguments.
    pub open spec fn describes_args(self, args: GitProfileArgs) -> bool {
        &&& args.key matches Some(k) && self.key == k
        &&& args.name matches Some(n) && self.config.name == n
        &&& args.email matches Some(e) && self.config.email == e
        &&& self.config.additions.deep_view() == args.additions.deep_view()
    }

    /// Builds an ad-hoc profile from command-line arguments; the key, name
    /// and email are all required.
    pub fn from_args(args: &GitProfileArgs) -> (r: Result<GitProfile, GitError>)
        ensures
            match r {
                Ok(p) => p.describes_args(*args) && args.key is Some && args.name is Some
                    && args.email is Some,
                Err(e) => {
                    &&& e == GitError::MissingArgument
                    &&& (args.key is None || args.name is None || args.email is None)
                },
            },
    {
        let key = match &args.key {
            Some(k) => k.clone(),
            None => { return Err(GitError::MissingArgument) },
        };
        let name = match &args.name {
            Some(n) => n.clone(),
            None => { return Err(GitError::MissingArgument) },
        };
        let email = match &args.email {
            Some(e) => e.clone(),
            None => { return Err(GitError::MissingArgument) },
        };
        Ok(
            GitProfile {
                key,
                config: GitConfig { name, email, additions: clone_pairs(&args.additions) },
            },
        )
    }

    /// One predefined entry holds this profile: its key, the author name
    /// under `name`, the email under `email`, and every other pair as an
    /// addition, in order.
    pub open spec fn describes_entry(
        self,
        key: Seq<char>,
        entries: Seq<(Seq<char>, Seq<char>)>,
    ) -> bool {
        &&& self.key@ == key
        &&& lookup_spec(entries, "name"@) matches Some(n) && self.config.name@ == n
        &&& lookup_spec(entries, "email"@) matches Some(e) && self.config.email@ == e
        &&& self.config.additions.deep_view() == entries.filter(
            |p: (Seq<char>, Seq<char>)| p.0 != "name"@ && p.0 != "email"@,
        )
    }

    /// Parses the predefined profile document and the optional local override
    /// behind it: one table per profile, each with a required name and email
    /// and any further pairs as additions. It fails with a parse error
    /// exactly when a document does not parse, and with a missing field
    /// exactly when some parsed table lacks its name or email.
    pub fn load_predefined_profile(text: &str, local_text: Option<&str>) -> (r: Result<
        Vec<GitProfile>,
        GitError,
    >)
        ensures
            ({
                let merged = loaded_nested(
                    text@,
                    match local_text {
                        Some(l) => Some(l@),
                        None => None,
                    },
                );
                match r {
                    Ok(profiles) => (merged matches Some(nested) && profiles@.len()
                        == nested.len() && (forall|i: int|
                        0 <= i < profiles@.len() ==> (#[trigger] profiles@[i]).describes_entry(
                            nested[i].0,
                            nested[i].1,
                        ))),
                    Err(e) => {
                        &&& (e == GitError::Parse || e == GitError::MissingField)
                        &&& (e == GitError::Parse ==> merged is None)
                        &&& (e == GitError::MissingField ==> (merged matches Some(nested)
                            && some_table_lacks(nested, "name"@, "email"@)))
                    },
                }
            }),
    {
        let entries = match load_predefined_and_local(text, local_text) {
            Some(v) => v,
            None => { return Err(GitError::Parse) },
        };
        let ghost nested = entries.deep_view();
        let mut profiles: Vec<GitProfile> = Vec::new();
        let mut i: usize = 0;
        while i < entries.len()
            invariant
                i <= entries@.len(),
                entries.deep_view() == nested,
                entries@.len() == nested.len(),
                loaded_nested(
                    text@,
                    match local_text {
                        Some(l) => Some(l@),
                        None => None,
                    },
                ) == Some(nested),
                profiles@.len() == i,
                forall|k: int|
                    0 <= k < i ==> (#[trigger] profiles@[k]).describes_entry(
                        nested[k].0,
                        nested[k].1,
                    ),
            decreases entries@.len() - i,
        {
            let config = match entry_to_config(&entries[i].1) {
                Ok(c) => c,
                Err(e) => {
                    proof {
                        assert(entries@[i as int].deep_view() == nested[i as int]);
                        assert(lookup_spec(nested[i as int].1, "name"@) is None || lookup_spec(
                            nested[i as int].1,
                            "email"@,
                        ) is None);
                    }
                    return Err(e)
                },
            };
            profiles.push(GitProfile { key: entries[i].0.clone(), config });
            i = i + 1;
        }
        Ok(profiles)
    }
}

/// Turns the pairs of one predefined table into a profile configuration: the
/// name and email are required, and everything else is an addition.
fn entry_to_config(entries: &Vec<(String, String)>) -> (r: Result<GitConfig, GitError>)
    ensures
        match r {
            Ok(c) => {
                &&& lookup_spec(entries.deep_view(), "name"@) matches Some(n) && c.name@ == n
                &&& lookup_spec(entries.deep_view(), "email"@) matches Some(e) && c.email@ == e
                &&& c.additions.deep_view() == entries.deep_view().filter(
                    |p: (Seq<char>, Seq<char>)| p.0 != "name"@ && p.0 != "email"@,
                )
            },
            Err(e) => {
                &&& e == GitError::MissingField
                &&& (lookup_spec(entries.deep_view(), "name"@) is None || lookup_spec(
                    entries.deep_view(),
                    "email"@,
                ) is None)
            },
        },
{
    let name = match assoc_lookup(entries, "name") {
        Some(n) => n,
        None => { return Err(GitError::MissingField) },
    };
    let email = match assoc_lookup(entries, "email") {
        Some(e) => e,
        None => { return Err(GitError::MissingField) },
    };
    let ghost all = entries.deep_view();
    let mut additions: Vec<(String, String)> = Vec::new();
    let mut i: usize = 0;
    proof {
        assert(all.take(0) =~= Seq::<(Seq<char>, Seq<char>)>::empty());
        reveal(Seq::filter);
    }
    while i < entries.len()
        invariant
            i <= entries@.len(),
            all == entries.deep_view(),
            all.len() == entries@.len(),
            additions.deep_view() == all.take(i as int).filter(
                |p: (Seq<char>, Seq<char>)| p.0 != "name"@ && p.0 != "email"@,
            ),
        decreases entries@.len() - i,
    {
        let ghost part = all.take(i + 1);
        proof {
            reveal(Seq::filter);
            assert(part.drop_last() =~= all.take(i as int));
            assert(part.last() == all[i as int]);
            assert(entries@[i as int].deep_view() == all[i as int]);
        }
        let keep = !str_eq(entries[i].0.as_str(), "name") && !str_eq(
            entries[i].0.as_str(),
            "email",
        );
        if keep {
            additions.push((entries[i].0.clone(), entries[i].1.clone()));
            proof {
                assert(additions.deep_view() =~= part.filter(
                    |p: (Seq<char>, Seq<char>)| p.0 != "name"@ && p.0 != "email"@,
                ));
            }
        }
        i = i + 1;
    }
    proof {
        assert(all.take(all.len() as int) =~= all);
    }
    Ok(GitConfig { name, email, additions })
}

/// How the profile subcommand proceeds: with a predefined profile looked up
/// by name, or with the ad-hoc profile built from the arguments.
#[derive(Debug)]
pub enum GitProfileSelection {
    Predefined(String),
    AdHoc(GitProfile),
}

/// The profile subcommand's choice: an explicitly named predefined profile
/// wins; otherwise a complete ad-hoc description; otherwise the
/// caller-supplied default profile name; with none of the three, a required
/// argument is missing.
pub open spec fn selects_profile(
    args: GitProfileKeyArgs,
    default_profile: Option<&str>,
    r: Result<GitProfileSelection, GitError>,
) -> bool {
    match args.config {
        Some(c) => (r matches Ok(GitProfileSelection::Predefined(k)) && k@ == c@),
        None => {
            if args.profile.key is Some && args.profile.name is Some && args.profile.email
                is Some {
                r matches Ok(GitProfileSelection::AdHoc(p)) && p.describes_args(args.profile)
            } else {
                match default_profile {
                    Some(d) => (r matches Ok(GitProfileSelection::Predefined(k)) && k@ == d@),
                    None => r == Err::<GitProfileSelection, GitError>(GitError::MissingArgument),
                }
            }
        },
    }
}

/// Chooses what the profile subcommand works on, exactly as `selects_profile`
/// describes.
pub fn entry_git_profile(args: &GitProfileKeyArgs, default_profile: Option<&str>) -> (r: Result<
    GitProfileSelection,
    GitError,
>)
    ensures
        selects_profile(*args, default_profile, r),
{
    match &args.config {
        Some(c) => Ok(GitProfileSelection::Predefined(c.clone())),
        None => {
            match GitProfile::from_args(&args.profile) {
                Ok(p) => Ok(GitProfileSelection::AdHoc(p)),
                Err(e) => {
                    match default_profile {
                        Some(d) => Ok(GitProfileSelection::Predefined(String::from_str(d))),
                        None => Err(e),
                    }
                },
            }
        },
    }
}

/// What scanning a profile's ssh stanza yields, line by line: blank lines and
/// comments are skipped; a line without a space is unusable; a `Host` line
/// naming another key is unusable; the first `Hostname` line answers; a
/// stanza without one holds no hostname.
pub open spec fn scan_hostname(lines: Seq<Seq<char>>, key: Seq<char>) -> Result<
    Seq<char>,
    GitError,
>
    decreases lines.len(),
{
    if lines.len() == 0 {
        Err(GitError::NoHostname)
    } else {
        let t = trim_spec(lines[0]);
        if t.len() == 0 || t[0] == '#' {
            scan_hostname(lines.drop_first(), key)
        } else {
            let i = first_at(t, ' ');
            if i >= t.len() {
                Err(GitError::Invalid)
            } else {
                let k = t.take(i);
                let v = t.skip(i + 1);
                if k == "Host"@ && v != key {
                    Err(GitError::Invalid)
                } else if k == "Hostname"@ {
                    Ok(v)
                } else {
                    scan_hostname(lines.drop_first(), key)
                }
            }
        }
    }
}

/// The executable result carries exactly the specified value.
pub open spec fn matches_scan(r: Result<String, GitError>, s: Result<Seq<char>, GitError>) -> bool {
    match (r, s) {
        (Ok(v), Ok(w)) => v@ == w,
        (Err(a), Err(b)) => a == b,
        _ => false,
    }
}

/// Reads the hostname out of the generated ssh stanza of the profile named
/// `key`, exactly as `scan_hostname` describes.
pub fn extract_ssh_hostname(content: &str, key: &str) -> (r: Result<String, GitError>)
    ensures
        matches_scan(r, scan_hostname(lines_of(content@), key@)),
{
    let s_len = content.unicode_len();
    let mut p: usize = 0;
    proof {
        assert(content@.skip(0) =~= content@);
    }
    loop
        invariant
            p <= s_len,
            s_len == content@.len(),
            scan_hostname(lines_of(content@), key@) == scan_hostname(
                lines_of(content@.skip(p as int)),
                key@,
            ),
        decreases s_len - p,
    {
        let ghost tail = content@.skip(p as int);
        let ghost lines = lines_of(tail);
        let e = find_char(content, p, '\n');
        let line = content.substring_char(p, e);
        proof {
            crate::utils::lemma_lines_step(tail);
            assert(line@ =~= tail.subrange(0, e - p));
            assert(lines[0] == tail.subrange(0, e - p));
        }
        let t = trimmed(line);
        let t_len = t.as_str().unicode_len();
        let skip_line = t_len == 0 || t.as_str().get_char(0) == '#';
        if !skip_line {
            let i = find_char(t.as_str(), 0, ' ');
            proof {
                assert(t@.skip(0) =~= t@);
            }
            if i >= t_len {
                return Err(GitError::Invalid);
            }
            let k = t.as_str().substring_char(0, i);
            let v = t.as_str().substring_char(i + 1, t_len);
            proof {
                assert(k@ =~= t@.take(i as int));
                assert(v@ =~= t@.skip(i + 1));
                reveal_strlit("Host");
                reveal_strlit("Hostname");
            }
            if str_eq(k, "Host") && !str_eq(v, key) {
                return Err(GitError::Invalid);
            }
            if str_eq(k, "Hostname") {
                return Ok(String::from_str(v));
            }
        }
        if e == s_len {
            proof {
                assert(tail.subrange(0, e - p) =~= tail);
                assert(lines =~= seq![tail]);
                assert(lines.drop_first() =~= Seq::<Seq<char>>::empty());
                assert(scan_hostname(Seq::<Seq<char>>::empty(), key@) == Err::<
                    Seq<char>,
                    GitError,
                >(GitError::NoHostname));
                assert(lines[0] == tail);
            }
            return Err(GitError::NoHostname);
        }
        proof {
            assert(tail.skip(e - p + 1) =~= content@.skip(e + 1));
        }
        p = e + 1;
    }
}

} // verus!
