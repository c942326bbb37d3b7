//! The Document World model: the assembled main source, the in-memory
//! source and byte caches, the search roots, and the path resolution the
//! engine's queries go through. The filesystem reads themselves live with
//! the caller; what is resolved, in which order, and what is answered from
//! the caches is decided — and verified — here.

use vstd::prelude::*;

use chrono::Datelike;

use crate::assemble::{assemble_source, spec_assembled, spec_decls};
use crate::convert::spec_vpairs_view;
use crate::datetime::Datetime;
use crate::metadata::{spec_document_metadata, spec_mpairs_view};
use crate::packages::{package_dir_path, spec_package_dir, PackageId, PkgView};
use crate::text::{chars_to_string, copy_range, string_chars};
use crate::value::Value;

verus! {

/// A virtual path plus an optional package: identifies any source or
/// binary file the engine may request. The virtual path is rootless,
/// `/`-separated.
#[derive(PartialEq, Eq, Debug)]
pub struct FileIdentity {
    pub package: Option<PackageId>,
    pub vpath: String,
}

/// The mathematical shape of a file identity.
pub struct FileIdView {
    pub package: Option<PkgView>,
    pub vpath: Seq<char>,
}

impl View for FileIdentity {
    type V = FileIdView;

    open spec fn view(&self) -> FileIdView {
        FileIdView {
            package: match &self.package {
                Some(p) => Some(p@),
                None => None,
            },
            vpath: self.vpath@,
        }
    }
}

/// The `/`-separated segments of a virtual path, scanning from `i` with
/// the current segment opened at `start`.
pub open spec fn spec_split_path(s: Seq<char>, start: int, i: int) -> Seq<Seq<char>>
    recommends
        0 <= start <= i <= s.len(),
    decreases s.len() - i,
{
    if i < 0 || i >= s.len() {
        seq![s.subrange(start, s.len() as int)]
    } else if s[i] == '/' {
        seq![s.subrange(start, i)] + spec_split_path(s, i + 1, i + 1)
    } else {
        spec_split_path(s, start, i + 1)
    }
}

/// Whether a virtual path tries to climb out of its root: some segment is
/// a parent reference.
pub open spec fn spec_path_escapes(vpath: Seq<char>) -> bool {
    exists|j: int|
        0 <= j < spec_split_path(vpath, 0, 0).len() && spec_split_path(vpath, 0, 0)[j] == ".."@
}

/// The filesystem path a virtual path resolves to under a base directory:
/// the two joined with a separator, or nothing when the virtual path
/// escapes the base.
pub open spec fn spec_resolved(base: Seq<char>, vpath: Seq<char>) -> Option<Seq<char>> {
    if spec_path_escapes(vpath) {
        None
    } else {
        Some(base + "/"@ + vpath)
    }
}

fn chars_eq(a: &Vec<char>, b: &Vec<char>) -> (r: bool)
    ensures
        r == (a@ == b@),
{
    if a.len() != b.len() {
        assert(a@ != b@);
        return false;
    }
    let mut i: usize = 0;
    while i < a.len()
        invariant
            i <= a@.len(),
            a@.len() == b@.len(),
            forall|j: int| 0 <= j < i ==> a@[j] == b@[j],
        decreases a@.len() - i,
    {
        if a[i] != b[i] {
            return false;
        }
        i = i + 1;
    }
    proof {
        assert(a@ =~= b@);
    }
    true
}

impl FileIdentity {
    /// The fixed identity of the assembled compilation unit.
    pub fn main_identity() -> (r: FileIdentity)
        ensures
            r@.package is None,
            r@.vpath == "main.typ"@,
    {
        FileIdentity { package: None, vpath: "main.typ".to_owned() }
    }

    /// Whether two identities denote the same file.
    pub fn same_identity(&self, other: &FileIdentity) -> (r: bool)
        ensures
            r == (self@ == other@),
    {
        let packages_match = match (&self.package, &other.package) {
            (None, None) => true,
            (Some(a), Some(b)) => a.same_package(b),
            _ => false,
        };
        let r = packages_match && self.vpath == other.vpath;
        proof {
            if r {
                assert(self@ == other@);
            }
        }
        r
    }

    /// The filesystem path this identity resolves to under a base
    /// directory, or nothing when its virtual path escapes the base.
    #[verifier::loop_isolation(false)]
    pub fn resolve_against(&self, base: &str) -> (r: Option<String>)
        ensures
            (match r {
                Some(p) => spec_resolved(base@, self.vpath@) == Some(p@),
                None => spec_resolved(base@, self.vpath@) is None,
            }),
    {
        let cs = string_chars(self.vpath.as_str());
        let parent = string_chars("..");
        let ghost segsv = spec_split_path(self.vpath@, 0, 0);
        let ghost mut donev = Seq::<Seq<char>>::empty();
        let mut seg_start: usize = 0;
        let mut i: usize = 0;
        proof {
            assert(donev + spec_split_path(self.vpath@, 0, 0) =~= segsv);
        }
        while i < cs.len()
            invariant
                seg_start <= i <= cs@.len(),
                cs@ == self.vpath@,
                parent@ == ".."@,
                segsv =~= donev + spec_split_path(self.vpath@, seg_start as int, i as int),
                forall|j: int| 0 <= j < donev.len() ==> donev[j] != ".."@,
            decreases cs@.len() - i,
        {
            if cs[i] == '/' {
                let seg = copy_range(&cs, seg_start, i);
                if chars_eq(&seg, &parent) {
                    proof {
                        assert(spec_split_path(self.vpath@, seg_start as int, i as int)[0] == ".."@);
                        assert(segsv[donev.len() as int] == ".."@);
                    }
                    return None;
                }
                proof {
                    donev = donev.push(seg@);
                }
                seg_start = i + 1;
            }
            i = i + 1;
        }
        let seg = copy_range(&cs, seg_start, cs.len());
        if chars_eq(&seg, &parent) {
            proof {
                assert(spec_split_path(self.vpath@, seg_start as int, cs@.len() as int)[0]
                    == ".."@);
                assert(segsv[donev.len() as int] == ".."@);
            }
            return None;
        }
        proof {
            donev = donev.push(seg@);
            assert(segsv =~= donev);
            assert(forall|j: int| 0 <= j < segsv.len() ==> segsv[j] != ".."@);
        }
        let mut out = string_chars(base);
        out.push('/');
        let mut vcs = string_chars(self.vpath.as_str());
        out.append(&mut vcs);
        proof {
            reveal_strlit("/");
            assert("/"@ =~= seq!['/']);
            assert(out@ =~= base@ + "/"@ + self.vpath@);
        }
        Some(chars_to_string(&out))
    }
}

/// The element-wise view of the in-memory source cache.
pub open spec fn spec_sources_view(es: Seq<(FileIdentity, String)>) -> Seq<(FileIdView, Seq<char>)> {
    Seq::new(es.len(), |i: int| (es[i].0@, es[i].1@))
}

/// The element-wise view of the in-memory byte cache.
pub open spec fn spec_files_view(es: Seq<(FileIdentity, Vec<u8>)>) -> Seq<(FileIdView, Seq<u8>)> {
    Seq::new(es.len(), |i: int| (es[i].0@, es[i].1@))
}

/// The first entry for `id`, scanning from `i`.
pub open spec fn spec_entry_first<T>(
    entries: Seq<(FileIdView, T)>,
    id: FileIdView,
    i: int,
) -> Option<T>
    decreases entries.len() - i,
{
    if i < 0 || i >= entries.len() {
        None
    } else if entries[i].0 == id {
        Some(entries[i].1)
    } else {
        spec_entry_first(entries, id, i + 1)
    }
}

/// The cached entry for `id`, when there is one.
pub open spec fn spec_entry_lookup<T>(entries: Seq<(FileIdView, T)>, id: FileIdView) -> Option<T> {
    spec_entry_first(entries, id, 0)
}

/// The capability state the engine queries during one compilation: the
/// root directory for ordinary files, the extra package search roots, the
/// package cache root, the in-memory source and byte caches, and the main
/// identity. One instance serves one compile request.
pub struct TypstWorld {
    /// The root directory for resolving ordinary (non-package) files.
    pub root: String,
    /// Extra package directories, searched before the cache.
    pub package_paths: Vec<String>,
    /// The on-disk package cache root.
    pub package_cache_dir: String,
    /// Already-materialized text sources, keyed by identity.
    pub sources: Vec<(FileIdentity, String)>,
    /// Already-materialized byte blobs, keyed by identity.
    pub files: Vec<(FileIdentity, Vec<u8>)>,
    /// The identity of the assembled compilation unit.
    pub main: FileIdentity,
}

impl TypstWorld {
    /// Builds the world around a compile request: assembles the final
    /// source from the template, the metadata statement and the variable
    /// declarations, and seeds the source cache with it under the main
    /// identity.
    pub fn new(
        template: &str,
        metadata: &Vec<(String, String)>,
        variables: &Vec<(String, Value)>,
        package_paths: Vec<String>,
        root_path: String,
        package_cache_dir: String,
    ) -> (w: TypstWorld)
        ensures
            w.main@.package is None,
            w.main@.vpath == "main.typ"@,
            w.sources@.len() == 1,
            w.sources@[0].0 == w.main,
            w.sources@[0].1@ == spec_assembled(
                template@,
                spec_document_metadata(spec_mpairs_view(metadata@)),
                spec_decls(spec_vpairs_view(variables@), variables@.len() as int),
            ),
            w.files@.len() == 0,
            w.root == root_path,
            w.package_paths == package_paths,
            w.package_cache_dir == package_cache_dir,
    {
        let full_source = assemble_source(template, metadata, variables);
        let main = FileIdentity::main_identity();
        let main_key = FileIdentity { package: None, vpath: main.vpath.clone() };
        let mut sources: Vec<(FileIdentity, String)> = Vec::new();
        sources.push((main_key, full_source));
        proof {
            assert(sources@[0].0@ == FileIdentity::main_identity_view());
        }
        TypstWorld {
            root: root_path,
            package_paths,
            package_cache_dir,
            sources,
            files: Vec::new(),
            main,
        }
    }

    /// The main identity the engine starts from.
    pub fn main_id(&self) -> (r: &FileIdentity)
        ensures
            r == &self.main,
    {
        &self.main
    }

    /// The cached text source for `id`, when the cache holds one.
    pub fn lookup_source<'a>(&'a self, id: &FileIdentity) -> (r: Option<&'a String>)
        ensures
            (match r {
                Some(s) => spec_entry_lookup(spec_sources_view(self.sources@), id@) == Some(s@),
                None => spec_entry_lookup(spec_sources_view(self.sources@), id@) is None,
            }),
    {
        let ghost ev = spec_sources_view(self.sources@);
        let mut i: usize = 0;
        while i < self.sources.len()
            invariant
                i <= self.sources@.len(),
                ev == spec_sources_view(self.sources@),
                spec_entry_first(ev, id@, 0) == spec_entry_first(ev, id@, i as int),
            decreases self.sources@.len() - i,
        {
            if self.sources[i].0.same_identity(id) {
                proof {
                    assert(ev[i as int].0 == id@);
                }
                return Some(&self.sources[i].1);
            }
            proof {
                assert(ev[i as int].0 != id@);
            }
            i = i + 1;
        }
        None
    }

    /// The cached byte blob for `id`, when the cache holds one.
    pub fn lookup_file<'a>(&'a self, id: &FileIdentity) -> (r: Option<&'a Vec<u8>>)
        ensures
            (match r {
                Some(b) => spec_entry_lookup(spec_files_view(self.files@), id@) == Some(b@),
                None => spec_entry_lookup(spec_files_view(self.files@), id@) is None,
            }),
    {
        let ghost ev = spec_files_view(self.files@);
        let mut i: usize = 0;
        while i < self.files.len()
            invariant
                i <= self.files@.len(),
                ev == spec_files_view(self.files@),
                spec_entry_first(ev, id@, 0) == spec_entry_first(ev, id@, i as int),
            decreases self.files@.len() - i,
        {
            if self.files[i].0.same_identity(id) {
                proof {
                    assert(ev[i as int].0 == id@);
                }
                return Some(&self.files[i].1);
            }
            proof {
                assert(ev[i as int].0 != id@);
            }
            i = i + 1;
        }
        None
    }

    /// The directories a package may occupy, in search order: each extra
    /// package root first, the cache root last.
    pub fn candidate_package_dirs(&self, pkg: &PackageId) -> (r: Vec<String>)
        ensures
            r@.len() == self.package_paths@.len() + 1,
            forall|i: int|
                0 <= i < self.package_paths@.len() ==> r@[i]@ == spec_package_dir(
                    self.package_paths@[i]@,
                    pkg@,
                ),
            r@[r@.len() - 1]@ == spec_package_dir(self.package_cache_dir@, pkg@),
    {
        let mut r: Vec<String> = Vec::new();
        let mut i: usize = 0;
        while i < self.package_paths.len()
            invariant
                i <= self.package_paths@.len(),
                r@.len() == i,
                forall|j: int|
                    0 <= j < i ==> r@[j]@ == spec_package_dir(self.package_paths@[j]@, pkg@),
            decreases self.package_paths@.len() - i,
        {
            let dir = package_dir_path(self.package_paths[i].as_str(), pkg);
            r.push(dir);
            i = i + 1;
        }
        let cache_dir = package_dir_path(self.package_cache_dir.as_str(), pkg);
        r.push(cache_dir);
        r
    }
}

impl FileIdentity {
    /// The view of the main identity (a reading aid for the proofs above).
    pub open spec fn main_identity_view() -> FileIdView {
        FileIdView { package: None, vpath: "main.typ"@ }
    }
}

/// The first present candidate, in search order: first match wins.
pub fn pick_first_present(present: &Vec<bool>) -> (r: Option<usize>)
    ensures
        (match r {
            Some(i) => (i < present@.len() && present@[i as int] && (forall|j: int|
                0 <= j < i ==> !present@[j])),
            None => (forall|j: int| 0 <= j < present@.len() ==> !present@[j]),
        }),
{
    let mut i: usize = 0;
    while i < present.len()
        invariant
            i <= present@.len(),
            forall|j: int| 0 <= j < i ==> !present@[j],
        decreases present@.len() - i,
    {
        if present[i] {
            return Some(i);
        }
        i = i + 1;
    }
    None
}

/// Relies on chrono's local clock (`Local::now`, `TimeDelta::try_hours`,
/// `checked_add_signed`) and its `Datelike` accessors: whatever instant
/// the clock reports, the month lies in 1..=12 and the day in 1..=31;
/// nothing is promised of which date comes back, and an offset or instant
/// chrono cannot represent yields nothing.
#[verifier::external_body]
fn local_date_shifted(offset_hours: i64) -> (r: Option<(i64, i64, i64)>)
    ensures
        (r matches Some(ymd) ==> 1 <= ymd.1 <= 12 && 1 <= ymd.2 <= 31),
{
    let delta = chrono::TimeDelta::try_hours(offset_hours)?;
    let adjusted = chrono::Local::now().checked_add_signed(delta)?;
    Some((adjusted.year() as i64, adjusted.month() as i64, adjusted.day() as i64))
}

/// The current date shifted by the given hour offset (zero when absent),
/// as a date-only calendar value; nothing when the shifted instant has no
/// representable calendar date.
pub fn today(offset: Option<i64>) -> (r: Option<Datetime>)
    ensures
        (r matches Some(dt) ==> (dt.wf() && dt.date is Some && dt.time is None)),
{
    let hours: i64 = match offset {
        Some(h) => h,
        None => 0,
    };
    match local_date_shifted(hours) {
        Some(ymd) => Datetime::from_ymd(ymd.0, ymd.1, ymd.2),
        None => None,
    }
}

} // verus!
