//! The binary installation subsystem: descriptors, archive extraction and the
//! staged install pipeline.

pub mod binary;
pub mod config;

use vstd::prelude::*;
use vstd::string::*;

use crate::install::binary::{binary_args_incomplete, ArchiveType, Binary, VERSION_PATTERN};
use crate::install::config::{InstallConfig, VersionTable};
use crate::utils::{lookup_spec, subst_all};

verus! {

/// One failure class for each stage of the install pipeline that can go wrong
/// (the error taxonomy: configuration, network, archive, filesystem,
/// verification).
#[derive(Debug, Clone, Copy, PartialEq, Eq, Structural)]
pub enum InstallError {
    /// A required identifier or argument was missing or unknown.
    Config,
    /// Connection failure, non-success HTTP status or a failed body read.
    Network,
    /// Malformed or truncated archive content, or a missing in-archive path.
    Archive,
    /// A write, copy, rename or permission change failed.
    Filesystem,
    /// The installed binary failed to spawn or exited non-zero.
    Verification,
}

/// Ad-hoc description of a binary absent from the predefined table.
#[derive(Debug)]
pub struct BinaryArgs {
    /// Name of the binary.
    pub name: Option<String>,
    /// Url to download the binary from.
    pub url: Option<String>,
    /// Archive type of the payload behind the url.
    pub archive_type: Option<ArchiveType>,
    /// The path to the binary inside the archive.
    pub archive_paths: Option<Vec<String>>,
    /// Flag that prints the version of the downloaded binary. It may be
    /// wrapped in `^` to avoid argument-parsing trouble.
    pub version_arg: Option<String>,
}

/// Arguments of the install subcommand: predefined tools take precedence over
/// an ad-hoc binary description.
#[derive(Debug)]
pub struct InstallArgs {
    pub configs: Vec<InstallConfig>,
    pub bin_version: Option<String>,
    pub binary: BinaryArgs,
}

/// How far one install has progressed.
#[derive(Debug, Clone, Copy, PartialEq, Eq, Structural)]
pub enum InstallStage {
    /// The download URL is resolved; nothing has been fetched.
    Resolved,
    /// The payload is in memory.
    Downloaded,
    /// The payload is unpacked (or decompressed in memory).
    Extracted,
    /// The executable was found inside the unpacked tree.
    Located,
    /// The executable sits at its final path.
    Placed,
    /// The executable's mode bits are set.
    Permitted,
    /// The installed binary answered its version flag.
    Done,
    /// The pipeline aborted; nothing further will run.
    Failed(InstallError),
}

/// The outside work the driver must perform next. Every action but `Finish`
/// and `Abort` reports back through `InstallPipeline::advance`.
#[derive(Debug)]
pub enum InstallAction {
    /// Issue an HTTP GET for this URL and gather the whole body.
    Fetch(String),
    /// Unpack or decompress the payload into the scratch directory.
    Extract(ArchiveType),
    /// Check that the executable exists at these segments below the scratch
    /// directory.
    Locate(Vec<String>),
    /// Write the payload bytes to a fresh temporary file inside the
    /// destination directory, then rename it over the final path.
    PlaceBytes,
    /// Copy the located file to a fresh temporary file inside the destination
    /// directory, then rename it over the final path.
    PlaceFile(Vec<String>),
    /// Set the destination file's mode bits.
    SetMode(u32),
    /// Run the installed binary with this flag and require exit status zero.
    RunVersion(String),
    /// The install is complete.
    Finish,
    /// The install failed at some stage; no further work runs.
    Abort(InstallError),
}

/// Drives one tool through download, extraction, atomic placement, permission
/// setting and verification. The pipeline owns every decision; the driver
/// performs the I/O each `InstallAction` asks for and reports success or
/// failure back.
#[derive(Debug)]
pub struct InstallPipeline {
    pub binary: Binary,
    pub version: String,
    pub resolved_url: String,
    pub stage: InstallStage,
}

impl InstallPipeline {
    pub open spec fn wf(self) -> bool {
        &&& self.binary.wf()
        &&& self.resolved_url@ == subst_all(self.binary.url@, VERSION_PATTERN@, self.version@)
    }

    /// The stage reached when the current step succeeds.
    pub open spec fn next_stage_ok(self) -> InstallStage {
        match self.stage {
            InstallStage::Resolved => InstallStage::Downloaded,
            InstallStage::Downloaded => match self.binary.archive {
                None => InstallStage::Placed,
                Some(_) => InstallStage::Extracted,
            },
            InstallStage::Extracted => match self.binary.archive {
                Some(a) => if a.0 is Gz {
                    InstallStage::Placed
                } else {
                    InstallStage::Located
                },
                None => InstallStage::Placed,
            },
            InstallStage::Located => InstallStage::Placed,
            InstallStage::Placed => InstallStage::Permitted,
            InstallStage::Permitted => InstallStage::Done,
            InstallStage::Done => InstallStage::Done,
            InstallStage::Failed(e) => InstallStage::Failed(e),
        }
    }

    /// The error charged to the current step when it fails.
    pub open spec fn failure_error(self) -> InstallError {
        match self.stage {
            InstallStage::Resolved => InstallError::Network,
            InstallStage::Downloaded => match self.binary.archive {
                None => InstallError::Filesystem,
                Some(_) => InstallError::Archive,
            },
            InstallStage::Extracted => match self.binary.archive {
                Some(a) => if a.0 is Gz {
                    InstallError::Filesystem
                } else {
                    InstallError::Archive
                },
                None => InstallError::Filesystem,
            },
            InstallStage::Located => InstallError::Filesystem,
            InstallStage::Placed => InstallError::Filesystem,
            InstallStage::Permitted => InstallError::Verification,
            InstallStage::Done => InstallError::Verification,
            InstallStage::Failed(e) => e,
        }
    }

    /// The full transition relation of the pipeline.
    pub open spec fn next_stage(self, ok: bool) -> InstallStage {
        match self.stage {
            InstallStage::Done => InstallStage::Done,
            InstallStage::Failed(e) => InstallStage::Failed(e),
            _ => if ok {
                self.next_stage_ok()
            } else {
                InstallStage::Failed(self.failure_error())
            },
        }
    }

    /// Starts an install of `binary` at `version`: the URL is resolved by
    /// substituting the version placeholder, and nothing has run yet.
    pub fn new(binary: Binary, version: String) -> (r: Self)
        requires
            binary.wf(),
        ensures
            r.wf(),
            r.binary == binary,
            r.version == version,
            r.stage == InstallStage::Resolved,
    {
        let resolved_url = binary.resolve_url(version.as_str());
        InstallPipeline { binary, version, resolved_url, stage: InstallStage::Resolved }
    }

    /// What the driver must do next. Placement is only ever requested after
    /// the stages before it succeeded, the mode set on the installed file is
    /// always `0o777`, and a failed pipeline only asks to abort.
    pub fn current_action(&self) -> (r: InstallAction)
        ensures
            self.stage is Resolved ==> (r matches InstallAction::Fetch(u) && u@
                == self.resolved_url@),
            self.stage is Downloaded ==> match self.binary.archive {
                None => r is PlaceBytes,
                Some(a) => (r matches InstallAction::Extract(k) && k == a.0),
            },
            self.stage is Extracted ==> match self.binary.archive {
                Some(a) => if a.0 is Gz {
                    r is PlaceBytes
                } else {
                    r matches InstallAction::Locate(segs) && segs.deep_view()
                        == self.binary.rel_segments()
                },
                None => r is PlaceBytes,
            },
            self.stage is Located ==> (r matches InstallAction::PlaceFile(segs)
                && segs.deep_view() == self.binary.rel_segments()),
            self.stage is Placed ==> (r matches InstallAction::SetMode(m) && m == 0o777),
            self.stage is Permitted ==> (r matches InstallAction::RunVersion(a) && a@
                == self.binary.version_arg@),
            self.stage is Done ==> r is Finish,
            self.stage matches InstallStage::Failed(e) ==> (r matches InstallAction::Abort(e2)
                && e2 == e),
    {
        match self.stage {
            InstallStage::Resolved => InstallAction::Fetch(self.resolved_url.clone()),
            InstallStage::Downloaded => match &self.binary.archive {
                None => InstallAction::PlaceBytes,
                Some(a) => InstallAction::Extract(a.0),
            },
            InstallStage::Extracted => match &self.binary.archive {
                Some(a) => {
                    if matches!(a.0, ArchiveType::Gz) {
                        InstallAction::PlaceBytes
                    } else {
                        InstallAction::Locate(self.binary.executable_rel_path())
                    }
                },
                None => InstallAction::PlaceBytes,
            },
            InstallStage::Located => InstallAction::PlaceFile(self.binary.executable_rel_path()),
            InstallStage::Placed => InstallAction::SetMode(0o777),
            InstallStage::Permitted => InstallAction::RunVersion(self.binary.version_arg.clone()),
            InstallStage::Done => InstallAction::Finish,
            InstallStage::Failed(e) => InstallAction::Abort(e),
        }
    }

    /// Reports the outcome of the current step; the stage moves exactly as
    /// `next_stage` describes and nothing else changes.
    pub fn advance(&mut self, ok: bool)
        ensures
            final(self).stage == old(self).next_stage(ok),
            final(self).binary == old(self).binary,
            final(self).version == old(self).version,
            final(self).resolved_url == old(self).resolved_url,
            old(self).wf() ==> final(self).wf(),
    {
        let next = match self.stage {
            InstallStage::Done => InstallStage::Done,
            InstallStage::Failed(e) => InstallStage::Failed(e),
            InstallStage::Resolved => {
                if ok {
                    InstallStage::Downloaded
                } else {
                    InstallStage::Failed(InstallError::Network)
                }
            },
            InstallStage::Downloaded => match &self.binary.archive {
                None => {
                    if ok {
                        InstallStage::Placed
                    } else {
                        InstallStage::Failed(InstallError::Filesystem)
                    }
                },
                Some(_) => {
                    if ok {
                        InstallStage::Extracted
                    } else {
                        InstallStage::Failed(InstallError::Archive)
                    }
                },
            },
            InstallStage::Extracted => match &self.binary.archive {
                Some(a) => {
                    if matches!(a.0, ArchiveType::Gz) {
                        if ok {
                            InstallStage::Placed
                        } else {
                            InstallStage::Failed(InstallError::Filesystem)
                        }
                    } else {
                        if ok {
                            InstallStage::Located
                        } else {
                            InstallStage::Failed(InstallError::Archive)
                        }
                    }
                },
                None => {
                    if ok {
                        InstallStage::Placed
                    } else {
                        InstallStage::Failed(InstallError::Filesystem)
                    }
                },
            },
            InstallStage::Located => {
                if ok {
                    InstallStage::Placed
                } else {
                    InstallStage::Failed(InstallError::Filesystem)
                }
            },
            InstallStage::Placed => {
                if ok {
                    InstallStage::Permitted
                } else {
                    InstallStage::Failed(InstallError::Filesystem)
                }
            },
            InstallStage::Permitted => {
                if ok {
                    InstallStage::Done
                } else {
                    InstallStage::Failed(InstallError::Verification)
                }
            },
        };
        self.stage = next;
    }
}

/// A failed pipeline stays failed: no later outcome revives it or changes the
/// error it reports.
pub proof fn lemma_failure_absorbing(p: InstallPipeline, ok: bool)
    requires
        p.stage is Failed,
    ensures
        p.next_stage(ok) == p.stage,
{
}

/// A failed download aborts the install with a network error before anything
/// is extracted or placed.
pub proof fn lemma_fetch_failure_is_network(p: InstallPipeline)
    requires
        p.stage is Resolved,
    ensures
        p.next_stage(false) == InstallStage::Failed(InstallError::Network),
{
}

/// Two installs of the same descriptor at the same version resolve the same
/// URL, and on equal payloads they place the same bytes: repeating an install
/// that downloads the same payload rewrites identical content over the
/// destination.
pub proof fn lemma_install_deterministic(a: InstallPipeline, b: InstallPipeline, payload: Seq<u8>)
    requires
        a.wf(),
        b.wf(),
        a.binary == b.binary,
        a.version@ == b.version@,
    ensures
        a.resolved_url@ == b.resolved_url@,
        crate::install::binary::install_source_bytes(a.binary, payload)
            == crate::install::binary::install_source_bytes(b.binary, payload),
{
}

/// One planned install: a descriptor together with the version to fetch.
#[derive(Debug)]
pub struct InstallJob {
    pub binary: Binary,
    pub version: String,
}

/// Plans the install subcommand. A non-empty list of predefined tools is
/// installed in order, each at its explicitly given version or at the version
/// the table holds; with no predefined tool, the ad-hoc binary description is
/// used and its version must be given explicitly. It fails, with a
/// configuration error, exactly when some requested tool has no version
/// anywhere, or when the ad-hoc description is incomplete or lacks a version.
pub fn entry_install(args: &InstallArgs, tokens: &crate::platform::PlatformTokens, table:
    &VersionTable) -> (r: Result<Vec<InstallJob>, InstallError>)
    ensures
        match r {
            Ok(jobs) => {
                &&& (if args.configs@.len() > 0 {
                    &&& jobs@.len() == args.configs@.len()
                    &&& forall|i: int|
                        0 <= i < jobs@.len() ==> (#[trigger] jobs@[i]).binary.wf()
                            && args.configs@[i].describes(jobs@[i].binary, *tokens)
                            && (match args.bin_version {
                            Some(v) => jobs@[i].version@ == v@,
                            None => lookup_spec(table@, args.configs@[i].key_spec()) matches Some(
                                vv,
                            ) && jobs@[i].version@ == vv,
                        })
                } else {
                    &&& jobs@.len() == 1
                    &&& jobs@[0].binary.wf()
                    &&& jobs@[0].binary.describes_args(args.binary)
                    &&& args.bin_version matches Some(v) && jobs@[0].version@ == v@
                })
            },
            Err(e) => {
                &&& e == InstallError::Config
                &&& if args.configs@.len() > 0 {
                    args.bin_version is None && exists|i: int|
                        0 <= i < args.configs@.len() && lookup_spec(
                            table@,
                            (#[trigger] args.configs@[i]).key_spec(),
                        ) is None
                } else {
                    args.bin_version is None || binary_args_incomplete(args.binary)
                }
            },
        },
{
    let mut jobs: Vec<InstallJob> = Vec::new();
    if args.configs.len() > 0 {
        let mut i: usize = 0;
        while i < args.configs.len()
            invariant
                i <= args.configs@.len(),
                jobs@.len() == i,
                forall|k: int|
                    0 <= k < i ==> (#[trigger] jobs@[k]).binary.wf()
                        && args.configs@[k].describes(jobs@[k].binary, *tokens)
                        && (match args.bin_version {
                        Some(v) => jobs@[k].version@ == v@,
                        None => lookup_spec(table@, args.configs@[k].key_spec()) matches Some(vv)
                            && jobs@[k].version@ == vv,
                    }),
            decreases args.configs@.len() - i,
        {
            let config = args.configs[i];
            let explicit = match &args.bin_version {
                Some(v) => Some(v.as_str()),
                None => None,
            };
            let job = match config.download(tokens, explicit, table) {
                Ok(j) => j,
                Err(e) => {
                    proof {
                        assert(lookup_spec(table@, args.configs@[i as int].key_spec()) is None);
                    }
                    return Err(e)
                },
            };
            jobs.push(job);
            i = i + 1;
        }
        Ok(jobs)
    } else {
        let version = match &args.bin_version {
            Some(v) => v.clone(),
            None => { return Err(InstallError::Config) },
        };
        let binary = match Binary::from_args(&args.binary) {
            Ok(b) => b,
            Err(e) => { return Err(e) },
        };
        jobs.push(InstallJob { binary, version });
        Ok(jobs)
    }
}

} // verus!
