//! The predefined tool table: one descriptor per known tool, built from the
//! platform tokens, together with the version table that assigns each tool
//! the version to install.

use vstd::prelude::*;
use vstd::string::*;

use crate::install::binary::{ArchiveType, Binary, VERSION_PATTERN};
use crate::install::InstallError;
use crate::platform::{
    arch_croc_spec, arch_full_spec, arch_short_spec, os_croc_spec, os_full_spec,
    os_pascal_uname_spec, PlatformTokens,
};
use crate::utils::{assoc_lookup, lookup_spec, replace_all, str_eq, subst_all};

verus! {

/// The closed set of predefined tools.
#[derive(Debug, Clone, Copy, PartialEq, Eq, Structural)]
pub enum InstallConfig {
    Starship,
    Direnv,
    Rye,
    Eza,
    Croc,
    Just,
    Skm,
    Dot,
    Zoxide,
    Zellij,
    Bat,
    Ripgrep,
}

/// The target triplet with its libc spelled `musl`, used by tools that only
/// publish musl builds.
pub open spec fn musl_triplet_spec(t: PlatformTokens) -> Seq<char> {
    subst_all(t.triplet@, "gnu"@, "musl"@)
}

impl InstallConfig {
    /// The identifier under which the tool appears in the version table and
    /// on the command line.
    pub open spec fn key_spec(self) -> Seq<char> {
        match self {
            InstallConfig::Starship => "starship"@,
            InstallConfig::Direnv => "direnv"@,
            InstallConfig::Rye => "rye"@,
            InstallConfig::Eza => "eza"@,
            InstallConfig::Croc => "croc"@,
            InstallConfig::Just => "just"@,
            InstallConfig::Skm => "skm"@,
            InstallConfig::Dot => "dot"@,
            InstallConfig::Zoxide => "zoxide"@,
            InstallConfig::Zellij => "zellij"@,
            InstallConfig::Bat => "bat"@,
            InstallConfig::Ripgrep => "ripgrep"@,
        }
    }

    /// `b` is exactly the descriptor of this tool for platform `t`: the
    /// on-disk name, the URL template with the platform tokens already filled
    /// in and the version placeholder left standing, the archive framing with
    /// the in-archive path of the executable, and `--version` as the flag
    /// every predefined tool answers.
    pub open spec fn describes(self, b: Binary, t: PlatformTokens) -> bool {
        &&& b.version_arg@ == "--version"@
        &&& match self {
            InstallConfig::Starship => {
                &&& b.name@ == "starship"@
                &&& b.url@ == "https://github.com/starship/starship/releases/download/v"@
                    + VERSION_PATTERN@ + "/starship-"@ + t.triplet@ + ".tar.gz"@
                &&& b.archive matches Some(a) && a.0 == ArchiveType::TarGz && (a.1 matches Some(p)
                    && p.deep_view() == seq!["starship"@])
            },
            InstallConfig::Direnv => {
                &&& b.name@ == "direnv"@
                &&& b.url@ == "https://github.com/direnv/direnv/releases/download/v"@
                    + VERSION_PATTERN@ + "/direnv."@ + crate::platform::os_uname_spec(t.kernel)
                    + "-"@ + arch_short_spec(t.cpu)
                &&& b.archive is None
            },
            InstallConfig::Rye => {
                &&& b.name@ == "rye"@
                &&& b.url@ == "https://github.com/astral-sh/rye/releases/download/"@
                    + VERSION_PATTERN@ + "/rye-"@ + arch_full_spec(t.cpu) + "-"@ + os_full_spec(
                    t.kernel,
                ) + ".gz"@
                &&& b.archive matches Some(a) && a.0 == ArchiveType::Gz && a.1 is None
            },
            InstallConfig::Eza => {
                &&& b.name@ == "eza"@
                &&& b.url@ == "https://github.com/eza-community/eza/releases/download/v"@
                    + VERSION_PATTERN@ + "/eza_"@ + t.triplet@ + ".tar.gz"@
                &&& b.archive matches Some(a) && a.0 == ArchiveType::TarGz && (a.1 matches Some(p)
                    && p.deep_view() == seq!["eza"@])
            },
            InstallConfig::Croc => {
                &&& b.name@ == "croc"@
                &&& b.url@ == "https://github.com/schollz/croc/releases/download/v"@
                    + VERSION_PATTERN@ + "/croc_v"@ + VERSION_PATTERN@ + "_"@ + os_croc_spec(
                    t.kernel,
                ) + "-"@ + arch_croc_spec(t.cpu) + ".tar.gz"@
                &&& b.archive matches Some(a) && a.0 == ArchiveType::TarGz && (a.1 matches Some(p)
                    && p.deep_view() == seq!["croc"@])
            },
            InstallConfig::Just => {
                &&& b.name@ == "just"@
                &&& b.url@ == "https://github.com/casey/just/releases/download/"@
                    + VERSION_PATTERN@ + "/just-"@ + VERSION_PATTERN@ + "-"@ + musl_triplet_spec(t)
                    + ".tar.gz"@
                &&& b.archive matches Some(a) && a.0 == ArchiveType::TarGz && (a.1 matches Some(p)
                    && p.deep_view() == seq!["just"@])
            },
            InstallConfig::Skm => {
                &&& b.name@ == "skm"@
                &&& b.url@ == "https://github.com/TimothyYe/skm/releases/download/v"@
                    + VERSION_PATTERN@ + "/skm_"@ + VERSION_PATTERN@ + "_"@ + os_pascal_uname_spec(
                    t.kernel,
                ) + "_"@ + arch_short_spec(t.cpu) + ".tar.gz"@
                &&& b.archive matches Some(a) && a.0 == ArchiveType::TarGz && (a.1 matches Some(p)
                    && p.deep_view() == seq!["skm"@])
            },
            InstallConfig::Dot => {
                &&& b.name@ == "dot"@
                &&& b.url@ == "https://github.com/vnghia/dot/releases/download/v"@
                    + VERSION_PATTERN@ + "/dot."@ + t.triplet@
                &&& b.archive is None
            },
            InstallConfig::Zoxide => {
                &&& b.name@ == "zoxide"@
                &&& b.url@ == "https://github.com/ajeetdsouza/zoxide/releases/download/v"@
                    + VERSION_PATTERN@ + "/zoxide-"@ + VERSION_PATTERN@ + "-"@ + musl_triplet_spec(
                    t,
                ) + ".tar.gz"@
                &&& b.archive matches Some(a) && a.0 == ArchiveType::TarGz && (a.1 matches Some(p)
                    && p.deep_view() == seq!["zoxide"@])
            },
            InstallConfig::Zellij => {
                &&& b.name@ == "zellij"@
                &&& b.url@ == "https://github.com/zellij-org/zellij/releases/download/v"@
                    + VERSION_PATTERN@ + "/zellij-"@ + musl_triplet_spec(t) + ".tar.gz"@
                &&& b.archive matches Some(a) && a.0 == ArchiveType::TarGz && (a.1 matches Some(p)
                    && p.deep_view() == seq!["zellij"@])
            },
            InstallConfig::Bat => {
                &&& b.name@ == "bat"@
                &&& b.url@ == "https://github.com/sharkdp/bat/releases/download/v"@
                    + VERSION_PATTERN@ + "/bat-v"@ + VERSION_PATTERN@ + "-"@ + t.triplet@
                    + ".tar.gz"@
                &&& b.archive matches Some(a) && a.0 == ArchiveType::TarGz && (a.1 matches Some(p)
                    && p.deep_view() == seq![
                    "bat-v"@ + VERSION_PATTERN@ + "-"@ + t.triplet@,
                    "bat"@,
                ])
            },
            InstallConfig::Ripgrep => {
                &&& b.name@ == "rg"@
                &&& b.url@ == "https://github.com/BurntSushi/ripgrep/releases/download/"@
                    + VERSION_PATTERN@ + "/ripgrep-"@ + VERSION_PATTERN@ + "-"@ + musl_triplet_spec(
                    t,
                ) + ".tar.gz"@
                &&& b.archive matches Some(a) && a.0 == ArchiveType::TarGz && (a.1 matches Some(p)
                    && p.deep_view() == seq![
                    "ripgrep-"@ + VERSION_PATTERN@ + "-"@ + musl_triplet_spec(t),
                    "rg"@,
                ])
            },
        }
    }

    /// The identifier under which the tool appears in the version table.
    pub fn key(&self) -> (r: &'static str)
        ensures
            r@ == self.key_spec(),
    {
        match self {
            InstallConfig::Starship => "starship",
            InstallConfig::Direnv => "direnv",
            InstallConfig::Rye => "rye",
            InstallConfig::Eza => "eza",
            InstallConfig::Croc => "croc",
            InstallConfig::Just => "just",
            InstallConfig::Skm => "skm",
            InstallConfig::Dot => "dot",
            InstallConfig::Zoxide => "zoxide",
            InstallConfig::Zellij => "zellij",
            InstallConfig::Bat => "bat",
            InstallConfig::Ripgrep => "ripgrep",
        }
    }

    /// Looks a tool identifier up in the closed set.
    pub fn from_key(s: &str) -> (r: Option<InstallConfig>)
        ensures
            match r {
                Some(c) => c.key_spec() == s@,
                None => {
                    &&& s@ != "starship"@
                    &&& s@ != "direnv"@
                    &&& s@ != "rye"@
                    &&& s@ != "eza"@
                    &&& s@ != "croc"@
                    &&& s@ != "just"@
                    &&& s@ != "skm"@
                    &&& s@ != "dot"@
                    &&& s@ != "zoxide"@
                    &&& s@ != "zellij"@
                    &&& s@ != "bat"@
                    &&& s@ != "ripgrep"@
                },
            },
    {
        if str_eq(s, "starship") {
            Some(InstallConfig::Starship)
        } else if str_eq(s, "direnv") {
            Some(InstallConfig::Direnv)
        } else if str_eq(s, "rye") {
            Some(InstallConfig::Rye)
        } else if str_eq(s, "eza") {
            Some(InstallConfig::Eza)
        } else if str_eq(s, "croc") {
            Some(InstallConfig::Croc)
        } else if str_eq(s, "just") {
            Some(InstallConfig::Just)
        } else if str_eq(s, "skm") {
            Some(InstallConfig::Skm)
        } else if str_eq(s, "dot") {
            Some(InstallConfig::Dot)
        } else if str_eq(s, "zoxide") {
            Some(InstallConfig::Zoxide)
        } else if str_eq(s, "zellij") {
            Some(InstallConfig::Zellij)
        } else if str_eq(s, "bat") {
            Some(InstallConfig::Bat)
        } else if str_eq(s, "ripgrep") {
            Some(InstallConfig::Ripgrep)
        } else {
            None
        }
    }

    /// Builds the descriptor of this tool for platform `t`.
    pub fn descriptor(&self, t: &PlatformTokens) -> (r: Binary)
        ensures
            r.wf(),
            self.describes(r, *t),
    {
        match self {
            InstallConfig::Starship => {
                let mut url = String::from_str(
                    "https://github.com/starship/starship/releases/download/v",
                );
                url.append(VERSION_PATTERN);
                url.append("/starship-");
                url.append(t.triplet());
                url.append(".tar.gz");
                proof {
                    reveal_strlit("starship");
                }
                Binary {
                    name: String::from_str("starship"),
                    url,
                    archive: Some((ArchiveType::TarGz, Some(one_seg("starship")))),
                    version_arg: String::from_str("--version"),
                }
            },
            InstallConfig::Direnv => {
                let mut url = String::from_str(
                    "https://github.com/direnv/direnv/releases/download/v",
                );
                url.append(VERSION_PATTERN);
                url.append("/direnv.");
                url.append(t.os_uname());
                url.append("-");
                url.append(t.arch_short());
                proof {
                    reveal_strlit("direnv");
                }
                Binary {
                    name: String::from_str("direnv"),
                    url,
                    archive: None,
                    version_arg: String::from_str("--version"),
                }
            },
            InstallConfig::Rye => {
                let mut url = String::from_str("https://github.com/astral-sh/rye/releases/download/");
                url.append(VERSION_PATTERN);
                url.append("/rye-");
                url.append(t.arch_full());
                url.append("-");
                url.append(t.os_full());
                url.append(".gz");
                proof {
                    reveal_strlit("rye");
                }
                Binary {
                    name: String::from_str("rye"),
                    url,
                    archive: Some((ArchiveType::Gz, None)),
                    version_arg: String::from_str("--version"),
                }
            },
            InstallConfig::Eza => {
                let mut url = String::from_str(
                    "https://github.com/eza-community/eza/releases/download/v",
                );
                url.append(VERSION_PATTERN);
                url.append("/eza_");
                url.append(t.triplet());
                url.append(".tar.gz");
                proof {
                    reveal_strlit("eza");
                }
                Binary {
                    name: String::from_str("eza"),
                    url,
                    archive: Some((ArchiveType::TarGz, Some(one_seg("eza")))),
                    version_arg: String::from_str("--version"),
                }
            },
            InstallConfig::Croc => {
                let mut url = String::from_str("https://github.com/schollz/croc/releases/download/v");
                url.append(VERSION_PATTERN);
                url.append("/croc_v");
                url.append(VERSION_PATTERN);
                url.append("_");
                url.append(t.os_croc());
                url.append("-");
                url.append(t.arch_croc());
                url.append(".tar.gz");
                proof {
                    reveal_strlit("croc");
                }
                Binary {
                    name: String::from_str("croc"),
                    url,
                    archive: Some((ArchiveType::TarGz, Some(one_seg("croc")))),
                    version_arg: String::from_str("--version"),
                }
            },
            InstallConfig::Just => {
                let musl = replace_all(t.triplet(), "gnu", "musl");
                let mut url = String::from_str("https://github.com/casey/just/releases/download/");
                url.append(VERSION_PATTERN);
                url.append("/just-");
                url.append(VERSION_PATTERN);
                url.append("-");
                url.append(musl.as_str());
                url.append(".tar.gz");
                proof {
                    reveal_strlit("just");
                }
                Binary {
                    name: String::from_str("just"),
                    url,
                    archive: Some((ArchiveType::TarGz, Some(one_seg("just")))),
                    version_arg: String::from_str("--version"),
                }
            },
            InstallConfig::Skm => {
                let mut url = String::from_str("https://github.com/TimothyYe/skm/releases/download/v");
                url.append(VERSION_PATTERN);
                url.append("/skm_");
                url.append(VERSION_PATTERN);
                url.append("_");
                url.append(t.os_pascal_uname());
                url.append("_");
                url.append(t.arch_short());
                url.append(".tar.gz");
                proof {
                    reveal_strlit("skm");
                }
                Binary {
                    name: String::from_str("skm"),
                    url,
                    archive: Some((ArchiveType::TarGz, Some(one_seg("skm")))),
                    version_arg: String::from_str("--version"),
                }
            },
            InstallConfig::Dot => {
                let mut url = String::from_str("https://github.com/vnghia/dot/releases/download/v");
                url.append(VERSION_PATTERN);
                url.append("/dot.");
                url.append(t.triplet());
                proof {
                    reveal_strlit("dot");
                }
                Binary {
                    name: String::from_str("dot"),
                    url,
                    archive: None,
                    version_arg: String::from_str("--version"),
                }
            },
            InstallConfig::Zoxide => {
                let musl = replace_all(t.triplet(), "gnu", "musl");
                let mut url = String::from_str(
                    "https://github.com/ajeetdsouza/zoxide/releases/download/v",
                );
                url.append(VERSION_PATTERN);
                url.append("/zoxide-");
                url.append(VERSION_PATTERN);
                url.append("-");
                url.append(musl.as_str());
                url.append(".tar.gz");
                proof {
                    reveal_strlit("zoxide");
                }
                Binary {
                    name: String::from_str("zoxide"),
                    url,
                    archive: Some((ArchiveType::TarGz, Some(one_seg("zoxide")))),
                    version_arg: String::from_str("--version"),
                }
            },
            InstallConfig::Zellij => {
                let musl = replace_all(t.triplet(), "gnu", "musl");
                let mut url = String::from_str(
                    "https://github.com/zellij-org/zellij/releases/download/v",
                );
                url.append(VERSION_PATTERN);
                url.append("/zellij-");
                url.append(musl.as_str());
                url.append(".tar.gz");
                proof {
                    reveal_strlit("zellij");
                }
                Binary {
                    name: String::from_str("zellij"),
                    url,
                    archive: Some((ArchiveType::TarGz, Some(one_seg("zellij")))),
                    version_arg: String::from_str("--version"),
                }
            },
            InstallConfig::Bat => {
                let mut seg = String::from_str("bat-v");
                seg.append(VERSION_PATTERN);
                seg.append("-");
                seg.append(t.triplet());
                let mut url = String::from_str("https://github.com/sharkdp/bat/releases/download/v");
                url.append(VERSION_PATTERN);
                url.append("/bat-v");
                url.append(VERSION_PATTERN);
                url.append("-");
                url.append(t.triplet());
                url.append(".tar.gz");
                let mut segs: Vec<String> = Vec::new();
                segs.push(seg);
                segs.push(String::from_str("bat"));
                proof {
                    reveal_strlit("bat");
                    assert(segs.deep_view() =~= seq![
                        "bat-v"@ + VERSION_PATTERN@ + "-"@ + t.triplet@,
                        "bat"@,
                    ]);
                }
                Binary {
                    name: String::from_str("bat"),
                    url,
                    archive: Some((ArchiveType::TarGz, Some(segs))),
                    version_arg: String::from_str("--version"),
                }
            },
            InstallConfig::Ripgrep => {
                let musl = replace_all(t.triplet(), "gnu", "musl");
                let mut seg = String::from_str("ripgrep-");
                seg.append(VERSION_PATTERN);
                seg.append("-");
                seg.append(musl.as_str());
                let mut url = String::from_str(
                    "https://github.com/BurntSushi/ripgrep/releases/download/",
                );
                url.append(VERSION_PATTERN);
                url.append("/ripgrep-");
                url.append(VERSION_PATTERN);
                url.append("-");
                url.append(musl.as_str());
                url.append(".tar.gz");
                let mut segs: Vec<String> = Vec::new();
                segs.push(seg);
                segs.push(String::from_str("rg"));
                proof {
                    reveal_strlit("rg");
                    assert(segs.deep_view() =~= seq![
                        "ripgrep-"@ + VERSION_PATTERN@ + "-"@ + musl_triplet_spec(*t),
                        "rg"@,
                    ]);
                }
                Binary {
                    name: String::from_str("rg"),
                    url,
                    archive: Some((ArchiveType::TarGz, Some(segs))),
                    version_arg: String::from_str("--version"),
                }
            },
        }
    }
}

/// A single-element path below the unpack root.
fn one_seg(s: &str) -> (r: Vec<String>)
    ensures
        r.deep_view() == seq![s@],
{
    let mut v: Vec<String> = Vec::new();
    v.push(String::from_str(s));
    proof {
        assert(v.deep_view() =~= seq![s@]);
    }
    v
}

/// What parsing a TOML document of string keys and string values yields: its
/// key/value pairs ordered by key, or nothing when the document has any
/// other shape. Both the outcome and the pairs are a function of the
/// document text alone.
pub uninterp spec fn toml_string_entries(s: Seq<char>) -> Option<Seq<(Seq<char>, Seq<char>)>>;

/// Relies on toml::from_str deserializing into std::collections::BTreeMap
/// with String keys and values: parses a TOML document whose top-level values
/// are all strings into its entries, ordered by key; a document of any other
/// shape is rejected.
#[verifier::external_body]
fn parse_string_table(s: &str) -> (r: Option<Vec<(String, String)>>)
    ensures
        r is Some <==> toml_string_entries(s@) is Some,
        r matches Some(v) ==> (toml_string_entries(s@) matches Some(t) && v.deep_view() == t),
{
    match toml::from_str::<std::collections::BTreeMap<String, String>>(s) {
        Ok(m) => Some(m.into_iter().collect()),
        Err(_) => None,
    }
}

/// The merged entries of the predefined document and the optional local
/// override: the predefined entries first, the local ones behind them, or
/// nothing when either document fails to parse.
pub open spec fn loaded_entries(text: Seq<char>, local: Option<Seq<char>>) -> Option<
    Seq<(Seq<char>, Seq<char>)>,
> {
    match toml_string_entries(text) {
        None => None,
        Some(base) => match local {
            None => Some(base),
            Some(l) => match toml_string_entries(l) {
                None => None,
                Some(extra) => Some(base + extra),
            },
        },
    }
}

/// The merged tool-to-version mapping: the predefined entries followed by the
/// local overrides, looked up back to front so that the later source wins.
#[derive(Debug)]
pub struct VersionTable {
    entries: Vec<(String, String)>,
}

impl View for VersionTable {
    type V = Seq<(Seq<char>, Seq<char>)>;

    closed spec fn view(&self) -> Seq<(Seq<char>, Seq<char>)> {
        self.entries.deep_view()
    }
}

impl VersionTable {
    /// An empty table.
    pub fn new() -> (r: Self)
        ensures
            r@ == Seq::<(Seq<char>, Seq<char>)>::empty(),
    {
        let r = VersionTable { entries: Vec::new() };
        proof {
            assert(r@ =~= Seq::<(Seq<char>, Seq<char>)>::empty());
        }
        r
    }

    /// Parses the predefined version document, and behind it the optional
    /// local override document; on a key collision the local entry wins,
    /// because lookups run back to front. It fails, with a configuration
    /// error, exactly when one of the documents does not parse.
    pub fn load(text: &str, local_text: Option<&str>) -> (r: Result<VersionTable, InstallError>)
        ensures
            ({
                let merged = loaded_entries(
                    text@,
                    match local_text {
                        Some(l) => Some(l@),
                        None => None,
                    },
                );
                match r {
                    Ok(t) => (merged matches Some(es) && t@ == es),
                    Err(e) => e == InstallError::Config && merged is None,
                }
            }),
    {
        let mut entries = match parse_string_table(text) {
            Some(v) => v,
            None => { return Err(InstallError::Config) },
        };
        match local_text {
            Some(l) => {
                let more = match parse_string_table(l) {
                    Some(v) => v,
                    None => { return Err(InstallError::Config) },
                };
                let ghost base = entries.deep_view();
                let ghost extra = more.deep_view();
                let ghost n0 = entries@.len();
                let mut i: usize = 0;
                while i < more.len()
                    invariant
                        i <= more@.len(),
                        extra == more.deep_view(),
                        entries@.len() == n0 + i,
                        base.len() == n0,
                        extra.len() == more@.len(),
                        forall|k: int| 0 <= k < n0 ==> (#[trigger] entries@[k]).deep_view()
                            == base[k],
                        forall|k: int|
                            n0 <= k < n0 + i ==> (#[trigger] entries@[k]).deep_view() == extra[k
                                - n0],
                    decreases more@.len() - i,
                {
                    let pair = (more[i].0.clone(), more[i].1.clone());
                    entries.push(pair);
                    i = i + 1;
                }
                proof {
                    assert(entries.deep_view().len() == base.len() + extra.len());
                    assert(forall|k: int|
                        0 <= k < entries.deep_view().len() ==> #[trigger] entries.deep_view()[k]
                            == entries@[k].deep_view());
                    assert(entries.deep_view() =~= base + extra);
                }
                Ok(VersionTable { entries })
            },
            None => Ok(VersionTable { entries }),
        }
    }

    /// The version recorded for `key`, the later of two colliding entries
    /// winning.
    pub fn lookup(&self, key: &str) -> (r: Option<String>)
        ensures
            match r {
                Some(v) => lookup_spec(self@, key@) matches Some(vv) && v@ == vv,
                None => lookup_spec(self@, key@) is None,
            },
    {
        assoc_lookup(&self.entries, key)
    }
}

impl InstallConfig {
    /// Plans the download of this predefined tool: the version to install
    /// comes from the explicit override or else from the version table, and
    /// the descriptor is built for the given platform. A tool without a
    /// version anywhere is a configuration error.
    pub fn download(&self, tokens: &PlatformTokens, explicit_version: Option<&str>, table:
        &VersionTable) -> (r: Result<crate::install::InstallJob, InstallError>)
        ensures
            match r {
                Ok(job) => {
                    &&& job.binary.wf()
                    &&& self.describes(job.binary, *tokens)
                    &&& match explicit_version {
                        Some(v) => job.version@ == v@,
                        None => lookup_spec(table@, self.key_spec()) matches Some(vv)
                            && job.version@ == vv,
                    }
                },
                Err(e) => {
                    &&& e == InstallError::Config
                    &&& explicit_version is None
                    &&& lookup_spec(table@, self.key_spec()) is None
                },
            },
    {
        let version = match resolve_version(self.key(), explicit_version, table) {
            Ok(v) => v,
            Err(e) => { return Err(e) },
        };
        let binary = self.descriptor(tokens);
        Ok(crate::install::InstallJob { binary, version })
    }
}

/// Resolves the version to install for `key`: an explicit override is taken
/// unchanged; otherwise the version table decides, and a tool absent from it
/// is a configuration error.
pub fn resolve_version(key: &str, explicit: Option<&str>, table: &VersionTable) -> (r: Result<
    String,
    InstallError,
>)
    ensures
        match explicit {
            Some(v) => r matches Ok(rv) && rv@ == v@,
            None => match lookup_spec(table@, key@) {
                Some(vv) => r matches Ok(rv) && rv@ == vv,
                None => r matches Err(e) && e == InstallError::Config,
            },
        },
{
    match explicit {
        Some(v) => Ok(String::from_str(v)),
        None => match table.lookup(key) {
            Some(v) => Ok(v),
            None => Err(InstallError::Config),
        },
    }
}

/// Later entries shadow earlier ones: whatever the override table records for
/// a key is what the merged table answers, whether or not the base table also
/// records that key.
pub proof fn lemma_override_wins(
    base: Seq<(Seq<char>, Seq<char>)>,
    over: Seq<(Seq<char>, Seq<char>)>,
    k: Seq<char>,
)
    requires
        lookup_spec(over, k) is Some,
    ensures
        lookup_spec(base + over, k) == lookup_spec(over, k),
    decreases over.len(),
{
    if over.len() == 0 {
    } else {
        assert((base + over).last() == over.last());
        if over.last().0 == k {
        } else {
            assert((base + over).drop_last() =~= base + over.drop_last());
            lemma_override_wins(base, over.drop_last(), k);
        }
    }
}

/// A key the override table does not mention falls through to the base table.
pub proof fn lemma_base_fallback(
    base: Seq<(Seq<char>, Seq<char>)>,
    over: Seq<(Seq<char>, Seq<char>)>,
    k: Seq<char>,
)
    requires
        lookup_spec(over, k) is None,
    ensures
        lookup_spec(base + over, k) == lookup_spec(base, k),
    decreases over.len(),
{
    if over.len() == 0 {
        assert(base + over =~= base);
    } else {
        assert((base + over).last() == over.last());
        assert((base + over).drop_last() =~= base + over.drop_last());
        lemma_base_fallback(base, over.drop_last(), k);
    }
}

} // verus!
