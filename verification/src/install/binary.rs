//! Binary descriptors: how one tool is fetched, unpacked and located, plus the
//! archive kind dispatch and the download buffer.

use vstd::prelude::*;
use vstd::string::*;

use crate::install::{BinaryArgs, InstallError};
use crate::utils::{replace_all, subst_all, trim_char_spec, trim_matches};

verus! {

/// Size of one download chunk: the body is read in pieces of this many bytes
/// so that progress can be reported between reads.
pub const CHUNK_SIZE: usize = 1024 * 1024;

/// The placeholder inside a URL template that the resolved version replaces.
pub const VERSION_PATTERN: &'static str = "%VERSION%";

/// The archive framings a downloaded payload can arrive in.
#[derive(Debug, Clone, Copy, PartialEq, Eq, Structural)]
pub enum ArchiveType {
    TarGz,
    Gz,
    Zip,
}

/// Describes one installable tool: its on-disk name, the URL template its
/// releases are downloaded from, the optional archive framing together with
/// the in-archive path to the executable, and the flag that prints its
/// version.
#[derive(Debug)]
pub struct Binary {
    pub name: String,
    pub url: String,
    pub archive: Option<(ArchiveType, Option<Vec<String>>)>,
    pub version_arg: String,
}

impl Binary {
    /// A valid descriptor: it has a name, and a gzip-only payload carries no
    /// in-archive path (the decompressed bytes are the executable itself).
    pub open spec fn wf(self) -> bool {
        &&& self.name@.len() > 0
        &&& match self.archive {
            Some(a) => a.0 is Gz ==> a.1 is None,
            None => true,
        }
    }

    /// The in-archive path of the executable, as segments below the unpack
    /// root: the declared segments, or the tool name when none are declared.
    pub open spec fn rel_segments(self) -> Seq<Seq<char>> {
        match self.archive {
            Some(a) => match a.1 {
                Some(paths) => paths.deep_view(),
                None => seq![self.name@],
            },
            None => seq![self.name@],
        }
    }

    /// Substitutes the resolved version for every occurrence of the version
    /// placeholder in the URL template; a template without the placeholder is
    /// returned unchanged.
    pub fn resolve_url(&self, version: &str) -> (r: String)
        ensures
            r@ == subst_all(self.url@, VERSION_PATTERN@, version@),
    {
        replace_all(self.url.as_str(), VERSION_PATTERN, version)
    }

    /// The executable's path segments below the unpack root, cloned for the
    /// caller.
    pub fn executable_rel_path(&self) -> (r: Vec<String>)
        ensures
            r.deep_view() == self.rel_segments(),
    {
        match &self.archive {
            Some(a) => match &a.1 {
                Some(paths) => clone_strings(paths),
                None => {
                    let mut v: Vec<String> = Vec::new();
                    v.push(self.name.clone());
                    proof {
                        assert(v.deep_view() =~= seq![self.name@]);
                    }
                    v
                },
            },
            None => {
                let mut v: Vec<String> = Vec::new();
                v.push(self.name.clone());
                proof {
                    assert(v.deep_view() =~= seq![self.name@]);
                }
                v
            },
        }
    }

    /// `self` was built from exactly these arguments.
    pub open spec fn describes_args(self, args: BinaryArgs) -> bool {
        &&& args.name matches Some(n) && self.name == n
        &&& args.url matches Some(u) && self.url == u
        &&& args.version_arg matches Some(va) && self.version_arg@ == trim_char_spec(va@, '^')
        &&& match args.archive_type {
            None => self.archive is None,
            Some(t) => (self.archive matches Some(a) && a.0 == t && (if t is Gz {
                a.1 is None
            } else {
                match args.archive_paths {
                    Some(ps) => (a.1 matches Some(q) && q.deep_view() == ps.deep_view()),
                    None => a.1 is None,
                }
            })),
        }
        &&& self.name@.len() > 0
    }

    /// Builds an ad-hoc descriptor from command-line arguments; the name, URL
    /// and version flag are all required and the name must not be empty,
    /// exactly as `binary_args_incomplete` describes. The version flag may be
    /// wrapped in `^` characters to survive argument parsing; they are
    /// stripped here. A gzip-only payload discards any declared path
    /// segments, since they have no meaning for it.
    pub fn from_args(args: &BinaryArgs) -> (r: Result<Binary, InstallError>)
        ensures
            match r {
                Ok(b) => b.describes_args(*args) && !binary_args_incomplete(*args),
                Err(e) => e == InstallError::Config && binary_args_incomplete(*args),
            },
    {
        let name = match &args.name {
            Some(n) => n.clone(),
            None => { return Err(InstallError::Config) },
        };
        if name.as_str().unicode_len() == 0 {
            return Err(InstallError::Config);
        }
        let url = match &args.url {
            Some(u) => u.clone(),
            None => { return Err(InstallError::Config) },
        };
        let version_arg = match &args.version_arg {
            Some(va) => trim_matches(va.as_str(), '^'),
            None => { return Err(InstallError::Config) },
        };
        let archive: Option<(ArchiveType, Option<Vec<String>>)> = match &args.archive_type {
            None => None,
            Some(t) => {
                if matches!(t, ArchiveType::Gz) {
                    Some((*t, None))
                } else {
                    match &args.archive_paths {
                        Some(ps) => Some((*t, Some(clone_strings(ps)))),
                        None => Some((*t, None)),
                    }
                }
            },
        };
        Ok(Binary { name, url, archive, version_arg })
    }
}

/// The ad-hoc binary description cannot be used: the name, the URL or the
/// version flag is missing, or the name is empty.
pub open spec fn binary_args_incomplete(args: BinaryArgs) -> bool {
    args.name is None || args.url is None || args.version_arg is None || (args.name matches Some(n)
        && n@.len() == 0)
}

/// An element-wise copy of a list of strings.
pub fn clone_strings(v: &Vec<String>) -> (r: Vec<String>)
    ensures
        r.deep_view() == v.deep_view(),
{
    let mut r: Vec<String> = Vec::new();
    let mut i: usize = 0;
    while i < v.len()
        invariant
            i <= v@.len(),
            r@.len() == i,
            forall|k: int| 0 <= k < i ==> r@[k]@ == v@[k]@,
        decreases v@.len() - i,
    {
        r.push(v[i].clone());
        i = i + 1;
    }
    proof {
        assert(r.deep_view() =~~= v.deep_view());
    }
    r
}

/// What decompressing a gzip stream yields: the decompressed bytes, or
/// nothing when the stream is malformed or truncated. Both the outcome and
/// the bytes are a function of the compressed bytes alone.
pub uninterp spec fn gunzip_of(data: Seq<u8>) -> Option<Seq<u8>>;

/// The bytes placed at the destination, as a function of the descriptor and
/// the fetched payload alone: the payload itself for a raw binary, the
/// decompressed payload for a gzip-only one; a tar or zip payload is placed
/// by copying the located file out of the unpacked tree instead.
pub open spec fn install_source_bytes(b: Binary, payload: Seq<u8>) -> Option<Seq<u8>> {
    match b.archive {
        None => Some(payload),
        Some(a) => if a.0 is Gz {
            gunzip_of(payload)
        } else {
            None
        },
    }
}

/// Relies on flate2::bufread::GzDecoder driven by std::io::Read::read_to_end:
/// decompresses the single gzip member held in `data` fully into memory; a
/// malformed or truncated stream reports an error instead. The decoder reads
/// from memory only, so success and result depend on `data` alone.
#[verifier::external_body]
fn gunzip(data: &[u8]) -> (r: Option<Vec<u8>>)
    ensures
        r is Some <==> gunzip_of(data@) is Some,
        r matches Some(out) ==> (gunzip_of(data@) matches Some(g) && out@ == g),
{
    let mut buf = vec![];
    match std::io::Read::read_to_end(&mut flate2::bufread::GzDecoder::new(data), &mut buf) {
        Ok(_) => Some(buf),
        Err(_) => None,
    }
}

/// Relies on tar::Archive::unpack over flate2::bufread::GzDecoder: unpacks the
/// gzip-compressed tarball below `dir`, preserving each entry's relative path
/// and file mode, and reports whether every entry was written.
#[verifier::external_body]
fn untar_gz(data: &[u8], dir: &str) -> (r: bool) {
    tar::Archive::new(flate2::bufread::GzDecoder::new(data)).unpack(dir).is_ok()
}

/// Relies on zip::ZipArchive::extract over std::io::Cursor: unpacks the zip
/// archive below `dir`, sanitizing entry paths, and reports whether every
/// entry was written.
#[verifier::external_body]
fn unzip(data: &[u8], dir: &str) -> (r: bool) {
    match zip::ZipArchive::new(std::io::Cursor::new(data)) {
        Ok(mut a) => a.extract(dir).is_ok(),
        Err(_) => false,
    }
}

impl ArchiveType {
    /// Unpacks `data` according to the archive kind. A tar-gz or zip payload
    /// is unpacked below `dir` and nothing is returned; a gzip-only payload is
    /// decompressed fully into memory and returned, leaving `dir` untouched —
    /// it succeeds exactly when the gzip stream decodes. Malformed input of
    /// any kind is an archive error.
    pub fn extract(self, data: &[u8], dir: &str) -> (r: Result<Option<Vec<u8>>, InstallError>)
        ensures
            r matches Ok(out) ==> (out is Some <==> self is Gz),
            self is Gz ==> (r is Ok <==> gunzip_of(data@) is Some),
            r matches Ok(Some(b)) ==> (gunzip_of(data@) matches Some(g) && b@ == g),
            r matches Err(e) ==> e == InstallError::Archive,
    {
        match self {
            ArchiveType::TarGz => {
                if untar_gz(data, dir) {
                    Ok(None)
                } else {
                    Err(InstallError::Archive)
                }
            },
            ArchiveType::Gz => {
                match gunzip(data) {
                    Some(buf) => Ok(Some(buf)),
                    None => Err(InstallError::Archive),
                }
            },
            ArchiveType::Zip => {
                if unzip(data, dir) {
                    Ok(None)
                } else {
                    Err(InstallError::Archive)
                }
            },
        }
    }
}

/// Accumulates the downloaded body; each network read appends one chunk.
pub struct DownloadBuffer {
    data: Vec<u8>,
}

impl DownloadBuffer {
    /// The bytes received so far.
    pub closed spec fn view(&self) -> Seq<u8> {
        self.data@
    }

    pub fn new() -> (r: Self)
        ensures
            r@ == Seq::<u8>::empty(),
    {
        DownloadBuffer { data: Vec::new() }
    }

    pub fn len(&self) -> (r: usize)
        ensures
            r == self@.len(),
    {
        self.data.len()
    }

    /// Appends the filled part of one chunk to the buffer.
    pub fn push_chunk(&mut self, chunk: &[u8])
        requires
            old(self)@.len() + chunk@.len() <= usize::MAX,
        ensures
            final(self)@ == old(self)@ + chunk@,
    {
        let mut i: usize = 0;
        while i < chunk.len()
            invariant
                i <= chunk@.len(),
                self@ == old(self)@ + chunk@.subrange(0, i as int),
                old(self)@.len() + chunk@.len() <= usize::MAX,
            decreases chunk@.len() - i,
        {
            self.data.push(chunk[i]);
            i = i + 1;
            proof {
                assert(self@ == old(self)@ + chunk@.subrange(0, i as int));
            }
        }
        proof {
            assert(chunk@.subrange(0, chunk@.len() as int) == chunk@);
        }
    }

    /// Hands the accumulated payload out.
    pub fn into_bytes(self) -> (r: Vec<u8>)
        ensures
            r@ == self@,
    {
        self.data
    }
}

} // verus!
