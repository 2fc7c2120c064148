//! Rewriting remote URLs onto a profile's ssh host.

use vstd::prelude::*;
use vstd::string::*;

use crate::git::GitError;
use crate::utils::{find_char, first_at, replace_all, str_eq, subst_all};

verus! {

/// The components of a parsed absolute URL, as plain strings.
#[derive(Debug)]
pub struct UrlParts {
    pub scheme: String,
    pub host: Option<String>,
    pub path: String,
}

/// What parsing an absolute URL yields: its scheme, host and path, with the
/// normalizations the url crate applies, or nothing when the text is no
/// absolute URL; a function of the text alone.
pub uninterp spec fn url_parts_of(s: Seq<char>) -> Option<
    (Seq<char>, Option<Seq<char>>, Seq<char>),
>;

/// Relies on url::Url::parse together with Url::scheme, Url::host_str and
/// Url::path: splits an absolute URL into its scheme, host and path; None
/// when the text is no absolute URL.
#[verifier::external_body]
pub(crate) fn parse_url(s: &str) -> (r: Option<UrlParts>)
    ensures
        match r {
            Some(p) => (url_parts_of(s@) matches Some(t) && p.scheme@ == t.0 && (match p.host {
                Some(h) => (t.1 matches Some(th) && h@ == th),
                None => t.1 is None,
            }) && p.path@ == t.2),
            None => url_parts_of(s@) is None,
        },
{
    match url::Url::parse(s) {
        Ok(u) => Some(
            UrlParts {
                scheme: u.scheme().to_string(),
                host: u.host_str().map(|h| h.to_string()),
                path: u.path().to_string(),
            },
        ),
        Err(_) => None,
    }
}

/// The part of `s` after its last `c`, or all of `s` when `c` does not occur.
pub open spec fn after_last(s: Seq<char>, c: char) -> Seq<char>
    decreases s.len(),
{
    if s.len() == 0 {
        s
    } else if s.last() == c {
        Seq::<char>::empty()
    } else {
        after_last(s.drop_last(), c).push(s.last())
    }
}

proof fn lemma_after_last_at(s: Seq<char>, c: char, a: int)
    requires
        0 <= a <= s.len(),
        forall|j: int| a <= j < s.len() ==> s[j] != c,
        a > 0 ==> s[a - 1] == c,
    ensures
        after_last(s, c) == s.skip(a),
    decreases s.len() - a,
{
    if a == s.len() {
        if a == 0 {
            assert(s.skip(0) =~= s);
        } else {
            assert(s.last() == c);
            assert(s.skip(a) =~= Seq::<char>::empty());
        }
    } else {
        assert(s.last() != c);
        lemma_after_last_at(s.drop_last(), c, a);
        assert(s.drop_last().skip(a).push(s.last()) =~= s.skip(a));
    }
}

/// The suffix of `s` after its last `c`.
pub fn suffix_after_last(s: &str, c: char) -> (r: String)
    ensures
        r@ == after_last(s@, c),
{
    let s_len = s.unicode_len();
    let mut a: usize = s_len;
    while a > 0 && s.get_char(a - 1) != c
        invariant
            a <= s_len,
            s_len == s@.len(),
            forall|j: int| a <= j < s_len ==> s@[j] != c,
        decreases a,
    {
        a = a - 1;
    }
    let r = String::from_str(s.substring_char(a, s_len));
    proof {
        lemma_after_last_at(s@, c, a as int);
        assert(s@.subrange(a as int, s_len as int) =~= s@.skip(a as int));
    }
    r
}

/// What rewriting an ssh-style remote (`[user@]host:path`) yields: nothing to
/// do when the remote already names the profile key, a rewrite of every
/// occurrence of the hostname when it names the hostname, and an error for
/// any other host or for a remote without `:`.
pub open spec fn convert_ssh_spec(url: Seq<char>, host: Seq<char>, hostname: Seq<char>) -> Result<
    Option<Seq<char>>,
    GitError,
> {
    let i = first_at(url, ':');
    if i >= url.len() {
        Err(GitError::Invalid)
    } else {
        let old_host = after_last(url.take(i), '@');
        if old_host == host {
            Ok(None)
        } else if old_host == hostname {
            Ok(Some(subst_all(url, hostname, host)))
        } else {
            Err(GitError::HostMismatch)
        }
    }
}

/// What rewriting an http(s) remote yields: `host:path` without the leading
/// slash when the remote's host names the profile key or its hostname, and an
/// error otherwise.
pub open spec fn convert_http_spec(
    old_host: Option<Seq<char>>,
    path: Seq<char>,
    host: Seq<char>,
    hostname: Seq<char>,
) -> Result<Option<Seq<char>>, GitError> {
    match old_host {
        None => Err(GitError::Invalid),
        Some(oh) => {
            if oh == hostname || oh == host {
                if path.len() > 0 && path[0] == '/' {
                    Ok(Some(host + ":"@ + path.skip(1)))
                } else {
                    Err(GitError::Invalid)
                }
            } else {
                Err(GitError::HostMismatch)
            }
        },
    }
}

/// The executable result carries exactly the specified value.
pub open spec fn matches_converted(
    r: Result<Option<String>, GitError>,
    s: Result<Option<Seq<char>>, GitError>,
) -> bool {
    match (r, s) {
        (Ok(None), Ok(None)) => true,
        (Ok(Some(v)), Ok(Some(w))) => v@ == w,
        (Err(a), Err(b)) => a == b,
        _ => false,
    }
}

/// Rewrites one remote onto the profile's ssh host, deciding from the parsed
/// URL components: an http(s) remote follows `convert_http_spec`, anything
/// else follows `convert_ssh_spec`.
pub fn convert_remote_with_parts(
    parts: Option<&UrlParts>,
    url: &str,
    host: &str,
    hostname: &str,
) -> (r: Result<Option<String>, GitError>)
    ensures
        match parts {
            Some(p) => {
                if p.scheme@ == "http"@ || p.scheme@ == "https"@ {
                    matches_converted(
                        r,
                        convert_http_spec(
                            match p.host {
                                Some(h) => Some(h@),
                                None => None,
                            },
                            p.path@,
                            host@,
                            hostname@,
                        ),
                    )
                } else {
                    matches_converted(r, convert_ssh_spec(url@, host@, hostname@))
                }
            },
            None => matches_converted(r, convert_ssh_spec(url@, host@, hostname@)),
        },
{
    let is_http = match parts {
        Some(p) => str_eq(p.scheme.as_str(), "http") || str_eq(p.scheme.as_str(), "https"),
        None => false,
    };
    if is_http {
        let p = match parts {
            Some(p) => p,
            None => { return Err(GitError::Invalid) },
        };
        let old_host = match &p.host {
            Some(h) => h,
            None => { return Err(GitError::Invalid) },
        };
        if str_eq(old_host.as_str(), hostname) || str_eq(old_host.as_str(), host) {
            let path_len = p.path.as_str().unicode_len();
            if path_len > 0 && p.path.as_str().get_char(0) == '/' {
                let mut out = String::from_str(host);
                out.append(":");
                out.append(p.path.as_str().substring_char(1, path_len));
                proof {
                    assert(p.path@.subrange(1, p.path@.len() as int) =~= p.path@.skip(1));
                }
                Ok(Some(out))
            } else {
                Err(GitError::Invalid)
            }
        } else {
            Err(GitError::HostMismatch)
        }
    } else {
        let url_len = url.unicode_len();
        let i = find_char(url, 0, ':');
        proof {
            assert(url@.skip(0) =~= url@);
        }
        if i >= url_len {
            return Err(GitError::Invalid);
        }
        let before = url.substring_char(0, i);
        proof {
            assert(before@ =~= url@.take(i as int));
        }
        let old_host = suffix_after_last(before, '@');
        if str_eq(old_host.as_str(), host) {
            Ok(None)
        } else if str_eq(old_host.as_str(), hostname) {
            Ok(Some(replace_all(url, hostname, host)))
        } else {
            Err(GitError::HostMismatch)
        }
    }
}

/// What rewriting one remote onto the profile's ssh host yields: the http
/// rule for a remote that parses as an http(s) URL, the ssh rule for
/// everything else.
pub open spec fn convert_remote_spec(
    url: Seq<char>,
    host: Seq<char>,
    hostname: Seq<char>,
) -> Result<Option<Seq<char>>, GitError> {
    match url_parts_of(url) {
        Some(t) => {
            if t.0 == "http"@ || t.0 == "https"@ {
                convert_http_spec(t.1, t.2, host, hostname)
            } else {
                convert_ssh_spec(url, host, hostname)
            }
        },
        None => convert_ssh_spec(url, host, hostname),
    }
}

/// Rewrites one remote onto the profile's ssh host, exactly as
/// `convert_remote_spec` describes.
pub fn convert_remote(url: &str, host: &str, hostname: &str) -> (r: Result<
    Option<String>,
    GitError,
>)
    ensures
        matches_converted(r, convert_remote_spec(url@, host@, hostname@)),
{
    let parts = parse_url(url);
    convert_remote_with_parts(parts.as_ref(), url, host, hostname)
}

} // verus!
