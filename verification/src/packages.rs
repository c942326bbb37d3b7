//! The package cache and fetcher support: where a package lives under a
//! cache root, which registry URL serves its archive, how a downloaded
//! archive is decoded, and the serialized cache model under which repeated
//! resolutions of one package perform exactly one download.
//!
//! The filesystem and network sides (existence checks, the HTTP GET, the
//! archive unpacking onto disk) live with the caller; everything that
//! decides or computes is here.

use vstd::prelude::*;

use crate::error::TypstError;
use crate::text::{chars_to_string, spec_dec, string_chars, u64_chars};

verus! {

/// A fetchable unit: namespace, name, and a version triple rendered as
/// `major.minor.patch`. Immutable once parsed.
#[derive(Clone, PartialEq, Eq, Debug)]
pub struct PackageId {
    pub namespace: String,
    pub name: String,
    pub major: u32,
    pub minor: u32,
    pub patch: u32,
}

/// The mathematical shape of a package identifier.
pub struct PkgView {
    pub namespace: Seq<char>,
    pub name: Seq<char>,
    pub major: int,
    pub minor: int,
    pub patch: int,
}

impl View for PackageId {
    type V = PkgView;

    open spec fn view(&self) -> PkgView {
        PkgView {
            namespace: self.namespace@,
            name: self.name@,
            major: self.major as int,
            minor: self.minor as int,
            patch: self.patch as int,
        }
    }
}

/// The version triple rendered as `major.minor.patch`.
pub open spec fn spec_version(p: PkgView) -> Seq<char> {
    spec_dec(p.major) + "."@ + spec_dec(p.minor) + "."@ + spec_dec(p.patch)
}

/// The directory a package occupies under a root:
/// `root/namespace/name/version`.
pub open spec fn spec_package_dir(root: Seq<char>, p: PkgView) -> Seq<char> {
    root + "/"@ + p.namespace + "/"@ + p.name + "/"@ + spec_version(p)
}

/// The registry URL that serves the package's archive:
/// `<registry>/<namespace>/<name>-<version>.tar.gz`.
pub open spec fn spec_package_url(p: PkgView) -> Seq<char> {
    "https://packages.typst.org"@ + "/"@ + p.namespace + "/"@ + p.name + "-"@ + spec_version(p)
        + ".tar.gz"@
}

impl PackageId {
    /// The version triple rendered as `major.minor.patch`.
    pub fn version_string(&self) -> (r: String)
        ensures
            r@ == spec_version(self@),
    {
        let mut out = u64_chars(self.major as u64);
        out.push('.');
        let mut minor = u64_chars(self.minor as u64);
        out.append(&mut minor);
        out.push('.');
        let mut patch = u64_chars(self.patch as u64);
        out.append(&mut patch);
        proof {
            reveal_strlit(".");
            assert("."@ =~= seq!['.']);
            assert(out@ =~= spec_version(self@));
        }
        chars_to_string(&out)
    }

    /// Whether two identifiers denote the same package.
    pub fn same_package(&self, other: &PackageId) -> (r: bool)
        ensures
            r == (self@ == other@),
    {
        let r = self.namespace == other.namespace && self.name == other.name && self.major
            == other.major && self.minor == other.minor && self.patch == other.patch;
        proof {
            if r {
                assert(self@ == other@);
            }
        }
        r
    }
}

/// The directory the package occupies under `root`.
pub fn package_dir_path(root: &str, pkg: &PackageId) -> (r: String)
    ensures
        r@ == spec_package_dir(root@, pkg@),
{
    let mut out = string_chars(root);
    out.push('/');
    let mut ns = string_chars(pkg.namespace.as_str());
    out.append(&mut ns);
    out.push('/');
    let mut name = string_chars(pkg.name.as_str());
    out.append(&mut name);
    out.push('/');
    let version = pkg.version_string();
    let mut vcs = string_chars(version.as_str());
    out.append(&mut vcs);
    proof {
        reveal_strlit("/");
        assert("/"@ =~= seq!['/']);
        assert(out@ =~= spec_package_dir(root@, pkg@));
    }
    chars_to_string(&out)
}

/// The registry URL that serves the package's archive.
pub fn package_archive_url(pkg: &PackageId) -> (r: String)
    ensures
        r@ == spec_package_url(pkg@),
{
    let mut out = string_chars("https://packages.typst.org");
    out.push('/');
    let mut ns = string_chars(pkg.namespace.as_str());
    out.append(&mut ns);
    out.push('/');
    let mut name = string_chars(pkg.name.as_str());
    out.append(&mut name);
    out.push('-');
    let version = pkg.version_string();
    let mut vcs = string_chars(version.as_str());
    out.append(&mut vcs);
    let mut suffix = string_chars(".tar.gz");
    out.append(&mut suffix);
    proof {
        reveal_strlit("/");
        reveal_strlit("-");
        assert("/"@ =~= seq!['/']);
        assert("-"@ =~= seq!['-']);
        assert(out@ =~= spec_package_url(pkg@));
    }
    chars_to_string(&out)
}

/// The package cache root under a platform cache directory: the caller
/// reads the platform's cache base from its environment and hands it in;
/// without one there is nowhere to cache.
pub fn get_cache_dir(cache_base: Option<String>) -> (r: Result<String, TypstError>)
    ensures
        (match cache_base {
            Some(base) => (r matches Ok(p) && p@ == base@ + "/typst/packages"@),
            None => (r matches Err(e) && e matches TypstError::IoError(m) && m@
                == "Failed to determine cache directory"@),
        }),
{
    match cache_base {
        Some(base) => {
            let mut p = base;
            p.append("/typst/packages");
            Ok(p)
        },
        None => Err(TypstError::IoError("Failed to determine cache directory".to_owned())),
    }
}

/// Whether an HTTP status grants the download: only a success status
/// (2xx) does; anything else is a package error naming the package's
/// archive name and the status.
pub fn check_download_status(status: u16, pkg: &PackageId) -> (r: Result<(), TypstError>)
    ensures
        r is Ok <==> (200 <= status < 300),
        (r matches Err(e) ==> (e matches TypstError::PackageError(m) && m@
            == "Failed to download package "@ + pkg@.name + "-"@ + spec_version(pkg@) + ": HTTP "@
            + spec_dec(status as int))),
{
    if 200 <= status && status < 300 {
        Ok(())
    } else {
        let mut msg = "Failed to download package ".to_owned();
        msg.append(pkg.name.as_str());
        msg.append("-");
        let version = pkg.version_string();
        msg.append(version.as_str());
        msg.append(": HTTP ");
        let code = chars_to_string(&u64_chars(status as u64));
        msg.append(code.as_str());
        Err(TypstError::PackageError(msg))
    }
}

/// What decompressing a byte buffer as a gzip stream yields, when the
/// stream is well-formed.
pub uninterp spec fn gunzip_of(b: Seq<u8>) -> Option<Seq<u8>>;

/// Relies on flate2's `GzDecoder` read over an in-memory buffer:
/// decompression of a gzip stream is a function of the bytes alone, and
/// fails exactly on malformed streams.
#[verifier::external_body]
fn gunzip(data: &Vec<u8>) -> (r: Result<Vec<u8>, String>)
    ensures
        (match r {
            Ok(out) => gunzip_of(data@) == Some(out@),
            Err(_) => gunzip_of(data@) is None,
        }),
{
    let mut out: Vec<u8> = Vec::new();
    let mut decoder = flate2::read::GzDecoder::new(&data[..]);
    match std::io::Read::read_to_end(&mut decoder, &mut out) {
        Ok(_) => Ok(out),
        Err(e) => Err(e.to_string()),
    }
}

/// Decompresses a downloaded package archive into the tar stream to
/// unpack; a malformed archive is a package error, as extraction
/// failures are.
pub fn decode_package_archive(data: &Vec<u8>) -> (r: Result<Vec<u8>, TypstError>)
    ensures
        (match r {
            Ok(out) => gunzip_of(data@) == Some(out@),
            Err(e) => (gunzip_of(data@) is None && e matches TypstError::PackageError(_)),
        }),
{
    match gunzip(data) {
        Ok(out) => Ok(out),
        Err(m) => {
            let mut msg = "Failed to extract package: ".to_owned();
            msg.append(m.as_str());
            Err(TypstError::PackageError(msg))
        },
    }
}

/// The element-wise view of the populated-package list.
pub open spec fn spec_pkgs_view(ps: Seq<PackageId>) -> Seq<PkgView> {
    Seq::new(ps.len(), |i: int| ps[i]@)
}

/// Whether the model state holds the package.
pub open spec fn spec_cache_contains(state: Seq<PkgView>, p: PkgView) -> bool {
    exists|i: int| 0 <= i < state.len() && state[i] == p
}

/// One serialized resolution step against the cache model: a package
/// already present is returned without a download; an absent one is
/// downloaded (the `true` component) and becomes present.
pub open spec fn spec_resolve_step(state: Seq<PkgView>, p: PkgView) -> (Seq<PkgView>, bool) {
    if spec_cache_contains(state, p) {
        (state, false)
    } else {
        (state.push(p), true)
    }
}

/// How many downloads `n` serialized resolutions of the same package
/// perform, starting from `state`.
pub open spec fn spec_fetch_count(state: Seq<PkgView>, p: PkgView, n: nat) -> nat
    decreases n,
{
    if n == 0 {
        0
    } else {
        let stepped = spec_resolve_step(state, p);
        (if stepped.1 {
            1nat
        } else {
            0nat
        }) + spec_fetch_count(stepped.0, p, (n - 1) as nat)
    }
}

/// Law: resolutions of a package the cache already holds perform no
/// download, however many there are.
pub proof fn lemma_no_refetch(state: Seq<PkgView>, p: PkgView, n: nat)
    requires
        spec_cache_contains(state, p),
    ensures
        spec_fetch_count(state, p, n) == 0,
    decreases n,
{
    if n > 0 {
        lemma_no_refetch(state, p, (n - 1) as nat);
    }
}

/// Law: any number of serialized resolutions of the same uncached package
/// perform exactly one download — the first fills the cache, every later
/// one finds it. Resolutions through one World instance are serialized by
/// its download lock, so this model covers its concurrent callers; the
/// directory each returns is `spec_package_dir` of the unchanged cache
/// root, hence the same for all of them.
pub proof fn lemma_single_fetch(state: Seq<PkgView>, p: PkgView, n: nat)
    requires
        n >= 1,
        !spec_cache_contains(state, p),
    ensures
        spec_fetch_count(state, p, n) == 1,
{
    let filled = state.push(p);
    assert(filled[state.len() as int] == p);
    assert(spec_cache_contains(filled, p));
    lemma_no_refetch(filled, p, (n - 1) as nat);
}

/// Law: a first resolution of an uncached package downloads it; a second
/// resolution of the same package on the same cache finds it and
/// downloads nothing further, leaving the cache as the first left it.
pub proof fn lemma_second_resolution(state: Seq<PkgView>, p: PkgView)
    requires
        !spec_cache_contains(state, p),
    ensures
        spec_resolve_step(state, p).1,
        !spec_resolve_step(spec_resolve_step(state, p).0, p).1,
        spec_resolve_step(spec_resolve_step(state, p).0, p).0 == spec_resolve_step(state, p).0,
{
    let filled = state.push(p);
    assert(filled[state.len() as int] == p);
    assert(spec_cache_contains(filled, p));
}

/// The in-process model of the on-disk package cache, as one World
/// instance observes it: the cache root and the packages whose
/// directories are known to be populated. The caller holds its download
/// lock across each `resolve` call, which serializes the steps.
pub struct PackageCache {
    pub cache_root: String,
    pub populated: Vec<PackageId>,
}

impl PackageCache {
    /// A fresh model over a cache root, with nothing known populated.
    pub fn new(cache_root: String) -> (r: PackageCache)
        ensures
            r.cache_root@ == cache_root@,
            r.populated@.len() == 0,
    {
        PackageCache { cache_root, populated: Vec::new() }
    }

    /// Whether the model holds the package.
    pub open spec fn contains_pkg(&self, p: PkgView) -> bool {
        spec_cache_contains(spec_pkgs_view(self.populated@), p)
    }

    fn contains_package(&self, pkg: &PackageId) -> (r: bool)
        ensures
            r == self.contains_pkg(pkg@),
    {
        let mut i: usize = 0;
        while i < self.populated.len()
            invariant
                i <= self.populated@.len(),
                forall|j: int|
                    0 <= j < i ==> spec_pkgs_view(self.populated@)[j] != pkg@,
            decreases self.populated@.len() - i,
        {
            if self.populated[i].same_package(pkg) {
                proof {
                    assert(spec_pkgs_view(self.populated@)[i as int] == pkg@);
                }
                return true;
            }
            i = i + 1;
        }
        false
    }

    /// One resolution: reports whether a download is required (the
    /// package was absent) and the directory the package occupies. After
    /// the call the package is present, and nothing else changed.
    pub fn resolve(&mut self, pkg: &PackageId) -> (r: (bool, String))
        ensures
            r.0 <==> !old(self).contains_pkg(pkg@),
            r.1@ == spec_package_dir(old(self).cache_root@, pkg@),
            final(self).cache_root == old(self).cache_root,
            (spec_pkgs_view(final(self).populated@), r.0) == spec_resolve_step(
                spec_pkgs_view(old(self).populated@),
                pkg@,
            ),
            final(self).contains_pkg(pkg@),
    {
        let dir = package_dir_path(self.cache_root.as_str(), pkg);
        let needs_fetch = !self.contains_package(pkg);
        if needs_fetch {
            let ghost prev = spec_pkgs_view(self.populated@);
            let copy = PackageId {
                namespace: pkg.namespace.clone(),
                name: pkg.name.clone(),
                major: pkg.major,
                minor: pkg.minor,
                patch: pkg.patch,
            };
            proof {
                assert(copy@ == pkg@);
            }
            self.populated.push(copy);
            proof {
                assert(spec_pkgs_view(self.populated@) =~= prev.push(pkg@));
                assert(spec_pkgs_view(self.populated@)[prev.len() as int] == pkg@);
            }
        }
        (needs_fetch, dir)
    }
}

} // verus!
