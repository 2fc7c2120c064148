//! One ssh key pair with its generated client-configuration stanza.

use vstd::prelude::*;
use vstd::seq_lib::*;
use vstd::string::*;

use crate::platform::Kernel;
use crate::prefix::{bin_dir, skm_dir, ssh_config_dir, ssh_dir, Prefix};
use crate::ssh::{with_include_line, with_include_spec, SshError, SshKeyArgs};
use crate::utils::{
    assoc_lookup, clone_pairs, load_predefined_and_local, lookup_spec, pascal_of,
    some_table_lacks, str_eq, to_pascal_case, toml_nested_entries,
};

verus! {

/// Configuration of one ssh destination: the hostname, an optional comment
/// for the generated key pair, and further stanza lines.
#[derive(Debug)]
pub struct SshConfig {
    pub hostname: String,
    pub comment: Option<String>,
    pub additions: Vec<(String, String)>,
}

/// A named ssh key pair together with its destination configuration.
#[derive(Debug)]
pub struct SshKey {
    pub key: String,
    pub config: SshConfig,
}

/// The additional stanza lines: one tab-indented `PascalKey value` line per
/// addition, in order.
pub open spec fn additions_block(adds: Seq<(Seq<char>, Seq<char>)>) -> Seq<char>
    decreases adds.len(),
{
    if adds.len() == 0 {
        Seq::<char>::empty()
    } else {
        additions_block(adds.drop_last()) + "\t"@ + pascal_of(adds.last().0) + " "@
            + adds.last().1 + "\n"@
    }
}

/// The keychain line that macOS hosts need.
pub open spec fn use_keychain_block(k: Kernel) -> Seq<char> {
    if k is MacOs {
        "\tUseKeychain yes\n"@
    } else {
        Seq::<char>::empty()
    }
}

/// The full generated stanza for one host.
pub open spec fn ssh_stanza_spec(
    key: Seq<char>,
    hostname: Seq<char>,
    key_path: Seq<char>,
    adds: Seq<(Seq<char>, Seq<char>)>,
    kernel: Kernel,
) -> Seq<char> {
    "# AUTO GENERATED FILE. DO NOT EDIT\n\n"@ + "Host "@ + key + "\n"@ + "\tHostname "@ + hostname
        + "\n"@ + "\tAddKeysToAgent yes\n"@ + "\tIdentitiesOnly yes\n"@ + "\tIdentityFile "@
        + key_path + "\n"@ + additions_block(adds) + use_keychain_block(kernel)
}

/// Renders the stanza for one host, exactly as `ssh_stanza_spec` describes.
pub fn ssh_stanza(
    key: &str,
    hostname: &str,
    key_path: &str,
    additions: &Vec<(String, String)>,
    kernel: Kernel,
) -> (r: String)
    ensures
        r@ == ssh_stanza_spec(key@, hostname@, key_path@, additions.deep_view(), kernel),
{
    let mut s = String::from_str("# AUTO GENERATED FILE. DO NOT EDIT\n\n");
    s.append("Host ");
    s.append(key);
    s.append("\n");
    s.append("\tHostname ");
    s.append(hostname);
    s.append("\n");
    s.append("\tAddKeysToAgent yes\n");
    s.append("\tIdentitiesOnly yes\n");
    s.append("\tIdentityFile ");
    s.append(key_path);
    s.append("\n");
    let ghost head = s@;
    let ghost adds = additions.deep_view();
    let mut i: usize = 0;
    proof {
        assert(adds.take(0) =~= Seq::<(Seq<char>, Seq<char>)>::empty());
    }
    while i < additions.len()
        invariant
            i <= additions@.len(),
            adds == additions.deep_view(),
            adds.len() == additions@.len(),
            s@ == head + additions_block(adds.take(i as int)),
        decreases additions@.len() - i,
    {
        let p = to_pascal_case(additions[i].0.as_str());
        s.append("\t");
        s.append(p.as_str());
        s.append(" ");
        s.append(additions[i].1.as_str());
        s.append("\n");
        proof {
            assert(adds.take(i + 1).drop_last() =~= adds.take(i as int));
            assert(adds.take(i + 1).last() == adds[i as int]);
            assert(additions@[i as int].deep_view() == adds[i as int]);
        }
        i = i + 1;
    }
    proof {
        assert(adds.take(adds.len() as int) =~= adds);
    }
    match kernel {
        Kernel::MacOs => {
            s.append("\tUseKeychain yes\n");
        },
        Kernel::Linux => {},
    }
    s
}

/// Everything the ssh subcommand must do for one key, computed up front: the
/// files to write with their exact content, the directory to create, and the
/// key-manager command to run. The caller performs the filesystem and
/// subprocess work in this order: rewrite the ssh configuration, create the
/// stanza directory, run the key manager, check that both key files exist,
/// then write the stanza.
#[derive(Debug)]
pub struct SshPlan {
    pub ssh_config_path: String,
    pub ssh_config_content: String,
    pub config_dir: String,
    pub skm_bin: String,
    pub skm_args: Vec<String>,
    pub public_key_path: String,
    pub private_key_path: String,
    pub stanza_path: String,
    pub stanza_content: String,
}

impl SshKey {
    /// `self` was built from exactly these arguments.
    pub open spec fn describes_args(self, args: SshKeyArgs) -> bool {
        &&& args.key matches Some(k) && self.key == k
        &&& args.hostname matches Some(h) && self.config.hostname == h
        &&& match args.comment {
            Some(c) => (self.config.comment matches Some(c2) && c2 == c),
            None => self.config.comment is None,
        }
        &&& self.config.additions.deep_view() == args.addition.deep_view()
    }

    /// Builds an ad-hoc key from command-line arguments; the key name and the
    /// hostname are both required.
    pub fn from_args(args: &SshKeyArgs) -> (r: Result<SshKey, SshError>)
        ensures
            match r {
                Ok(k) => k.describes_args(*args) && args.key is Some && args.hostname is Some,
                Err(e) => {
                    &&& e == SshError::MissingArgument
                    &&& (args.key is None || args.hostname is None)
                },
            },
    {
        let key = match &args.key {
            Some(k) => k.clone(),
            None => { return Err(SshError::MissingArgument) },
        };
        let hostname = match &args.hostname {
            Some(h) => h.clone(),
            None => { return Err(SshError::MissingArgument) },
        };
        let comment = match &args.comment {
            Some(c) => Some(c.clone()),
            None => None,
        };
        Ok(
            SshKey {
                key,
                config: SshConfig { hostname, comment, additions: clone_pairs(&args.addition) },
            },
        )
    }

    /// The paths of the public and the private key file inside the key store.
    pub fn key_paths(&self, prefix: &Prefix) -> (r: (String, String))
        ensures
            r.0@ == skm_dir(prefix@) + "/"@ + self.key@ + "/id_ed25519.pub"@,
            r.1@ == skm_dir(prefix@) + "/"@ + self.key@ + "/id_ed25519"@,
    {
        let mut base = prefix.skm();
        base.append("/");
        base.append(self.key.as_str());
        let mut public = base.clone();
        public.append("/id_ed25519.pub");
        let mut private = base;
        private.append("/id_ed25519");
        (public, private)
    }

    /// The arguments of the key-manager invocation that creates this key: the
    /// key comment falls back to the hostname.
    pub fn skm_create_args(&self, prefix: &Prefix) -> (r: Vec<String>)
        ensures
            r.deep_view() == seq![
                "--store-path"@,
                skm_dir(prefix@),
                "create"@,
                self.key@,
                "-C"@,
                (match self.config.comment {
                    Some(c) => c@,
                    None => self.config.hostname@,
                }),
                "-t"@,
                "ed25519"@,
            ],
    {
        let mut v: Vec<String> = Vec::new();
        v.push(String::from_str("--store-path"));
        v.push(prefix.skm());
        v.push(String::from_str("create"));
        v.push(self.key.clone());
        v.push(String::from_str("-C"));
        match &self.config.comment {
            Some(c) => v.push(c.clone()),
            None => v.push(self.config.hostname.clone()),
        }
        v.push(String::from_str("-t"));
        v.push(String::from_str("ed25519"));
        proof {
            assert(v.deep_view() =~= seq![
                "--store-path"@,
                skm_dir(prefix@),
                "create"@,
                self.key@,
                "-C"@,
                (match self.config.comment {
                    Some(c) => c@,
                    None => self.config.hostname@,
                }),
                "-t"@,
                "ed25519"@,
            ]);
        }
        v
    }

    /// Plans the whole generation for this key: the ssh configuration content
    /// with the include line ensured, the key-manager command, the key file
    /// paths to check, and the stanza file with its exact content.
    pub fn generate(&self, prefix: &Prefix, kernel: Kernel, ssh_config: &str) -> (r: SshPlan)
        ensures
            r.ssh_config_path@ == ssh_dir(prefix@) + "/config"@,
            r.ssh_config_content@ == with_include_spec(ssh_config@),
            r.config_dir@ == ssh_config_dir(prefix@),
            r.skm_bin@ == bin_dir(prefix@) + "/skm"@,
            r.skm_args.deep_view() == seq![
                "--store-path"@,
                skm_dir(prefix@),
                "create"@,
                self.key@,
                "-C"@,
                (match self.config.comment {
                    Some(c) => c@,
                    None => self.config.hostname@,
                }),
                "-t"@,
                "ed25519"@,
            ],
            r.public_key_path@ == skm_dir(prefix@) + "/"@ + self.key@ + "/id_ed25519.pub"@,
            r.private_key_path@ == skm_dir(prefix@) + "/"@ + self.key@ + "/id_ed25519"@,
            r.stanza_path@ == ssh_config_dir(prefix@) + "/"@ + self.key@,
            r.stanza_content@ == ssh_stanza_spec(
                self.key@,
                self.config.hostname@,
                skm_dir(prefix@) + "/"@ + self.key@ + "/id_ed25519"@,
                self.config.additions.deep_view(),
                kernel,
            ),
    {
        let mut ssh_config_path = prefix.ssh();
        ssh_config_path.append("/config");
        let ssh_config_content = with_include_line(ssh_config);
        let config_dir = prefix.ssh_config();
        let mut skm_bin = prefix.bin();
        skm_bin.append("/skm");
        let skm_args = self.skm_create_args(prefix);
        let (public_key_path, private_key_path) = self.key_paths(prefix);
        let mut stanza_path = prefix.ssh_config();
        stanza_path.append("/");
        stanza_path.append(self.key.as_str());
        let stanza_content = ssh_stanza(
            self.key.as_str(),
            self.config.hostname.as_str(),
            private_key_path.as_str(),
            &self.config.additions,
            kernel,
        );
        SshPlan {
            ssh_config_path,
            ssh_config_content,
            config_dir,
            skm_bin,
            skm_args,
            public_key_path,
            private_key_path,
            stanza_path,
            stanza_content,
        }
    }

    /// One predefined entry holds this key: its name, the hostname under
    /// `hostname`, the comment under `comment`, and every other pair as an
    /// addition, in order.
    pub open spec fn describes_entry(
        self,
        name: Seq<char>,
        entries: Seq<(Seq<char>, Seq<char>)>,
    ) -> bool {
        &&& self.key@ == name
        &&& lookup_spec(entries, "hostname"@) matches Some(h) && self.config.hostname@ == h
        &&& match lookup_spec(entries, "comment"@) {
            Some(c) => (self.config.comment matches Some(c2) && c2@ == c),
            None => self.config.comment is None,
        }
        &&& self.config.additions.deep_view() == entries.filter(
            |p: (Seq<char>, Seq<char>)| p.0 != "hostname"@ && p.0 != "comment"@,
        )
    }

    /// Parses the predefined key document: one table per key, each with a
    /// required hostname, an optional comment, and any further pairs as
    /// additions. It fails with a parse error exactly when the document does
    /// not parse, and with a missing hostname exactly when some parsed table
    /// lacks one.
    pub fn load_predefined_key(text: &str) -> (r: Result<Vec<SshKey>, SshError>)
        ensures
            ({
                let parsed = toml_nested_entries(text@);
                match r {
                    Ok(keys) => (parsed matches Some(nested) && keys@.len() == nested.len() && (
                    forall|i: int|
                        0 <= i < keys@.len() ==> (#[trigger] keys@[i]).describes_entry(
                            nested[i].0,
                            nested[i].1,
                        ))),
                    Err(e) => {
                        &&& (e == SshError::Parse || e == SshError::MissingHostname)
                        &&& (e == SshError::Parse ==> parsed is None)
                        &&& (e == SshError::MissingHostname ==> (parsed matches Some(nested)
                            && some_table_lacks(nested, "hostname"@, "hostname"@)))
                    },
                }
            }),
    {
        let entries = match load_predefined_and_local(text, None) {
            Some(v) => v,
            None => { return Err(SshError::Parse) },
        };
        let ghost nested = entries.deep_view();
        let mut keys: Vec<SshKey> = Vec::new();
        let mut i: usize = 0;
        while i < entries.len()
            invariant
                i <= entries@.len(),
                entries.deep_view() == nested,
                entries@.len() == nested.len(),
                toml_nested_entries(text@) == Some(nested),
                keys@.len() == i,
                forall|k: int|
                    0 <= k < i ==> (#[trigger] keys@[k]).describes_entry(
                        nested[k].0,
                        nested[k].1,
                    ),
            decreases entries@.len() - i,
        {
            let config = match entry_to_config(&entries[i].1) {
                Ok(c) => c,
                Err(e) => {
                    proof {
                        assert(entries@[i as int].deep_view() == nested[i as int]);
                        assert(lookup_spec(nested[i as int].1, "hostname"@) is None);
                    }
                    return Err(e)
                },
            };
            keys.push(SshKey { key: entries[i].0.clone(), config });
            i = i + 1;
        }
        Ok(keys)
    }
}

/// Turns the pairs of one predefined table into a destination configuration:
/// the hostname is required, the comment optional, and everything else is an
/// addition.
fn entry_to_config(entries: &Vec<(String, String)>) -> (r: Result<SshConfig, SshError>)
    ensures
        match r {
            Ok(c) => {
                &&& lookup_spec(entries.deep_view(), "hostname"@) matches Some(h)
                    && c.hostname@ == h
                &&& match lookup_spec(entries.deep_view(), "comment"@) {
                    Some(cm) => (c.comment matches Some(c2) && c2@ == cm),
                    None => c.comment is None,
                }
                &&& c.additions.deep_view() == entries.deep_view().filter(
                    |p: (Seq<char>, Seq<char>)| p.0 != "hostname"@ && p.0 != "comment"@,
                )
            },
            Err(e) => {
                &&& e == SshError::MissingHostname
                &&& lookup_spec(entries.deep_view(), "hostname"@) is None
            },
        },
{
    let hostname = match assoc_lookup(entries, "hostname") {
        Some(h) => h,
        None => { return Err(SshError::MissingHostname) },
    };
    let comment = assoc_lookup(entries, "comment");
    let ghost all = entries.deep_view();
    let ghost pred = |p: (Seq<char>, Seq<char>)| p.0 != "hostname"@ && p.0 != "comment"@;
    let mut additions: Vec<(String, String)> = Vec::new();
    let mut i: usize = 0;
    proof {
        assert(all.take(0) =~= Seq::<(Seq<char>, Seq<char>)>::empty());
        reveal(Seq::filter);
    }
    while i < entries.len()
        invariant
            i <= entries@.len(),
            all == entries.deep_view(),
            all.len() == entries@.len(),
            additions.deep_view() == all.take(i as int).filter(
                |p: (Seq<char>, Seq<char>)| p.0 != "hostname"@ && p.0 != "comment"@,
            ),
        decreases entries@.len() - i,
    {
        let ghost part = all.take(i + 1);
        proof {
            reveal(Seq::filter);
            assert(part.drop_last() =~= all.take(i as int));
            assert(part.last() == all[i as int]);
            assert(entries@[i as int].deep_view() == all[i as int]);
        }
        let keep = !str_eq(entries[i].0.as_str(), "hostname") && !str_eq(
            entries[i].0.as_str(),
            "comment",
        );
        if keep {
            additions.push((entries[i].0.clone(), entries[i].1.clone()));
            proof {
                assert(additions.deep_view() =~= part.filter(
                    |p: (Seq<char>, Seq<char>)| p.0 != "hostname"@ && p.0 != "comment"@,
                ));
            }
        }
        i = i + 1;
    }
    proof {
        assert(all.take(all.len() as int) =~= all);
    }
    Ok(SshConfig { hostname, comment, additions })
}

} // verus!
