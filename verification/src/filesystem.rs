//! What the filesystem holds at the paths a configuration speaks of.
//!
//! The library never touches the disk. Whoever loads a configuration looks
//! at the paths the library asks about and records what stands there in a
//! [`Filesystem`]; validation then reads that record.

use vstd::prelude::*;

verus! {

/// What stands at a path.
#[derive(Debug, Clone, Copy, PartialEq, Eq)]
pub enum PathKind {
    /// Nothing exists at the path.
    Missing,
    /// Something exists at the path and it is no directory.
    NotDirectory,
    /// A directory.
    Directory,
}

/// What stands at a path, from the two answers of the disk: whether
/// anything exists there, and whether it is a directory.
pub fn path_kind(exists: bool, is_dir: bool) -> (kind: PathKind)
    ensures
        kind == (if !exists {
            PathKind::Missing
        } else if !is_dir {
            PathKind::NotDirectory
        } else {
            PathKind::Directory
        }),
{
    if !exists {
        PathKind::Missing
    } else if !is_dir {
        PathKind::NotDirectory
    } else {
        PathKind::Directory
    }
}

/// A record of what exists: the directories and everything else, by path.
/// A path that the record does not list is missing. A path listed on both
/// sides counts as a directory.
#[derive(Debug, PartialEq, Eq)]
pub struct Filesystem {
    pub directories: Vec<String>,
    pub files: Vec<String>,
}

/// The path that results from adjoining `path` to `base`, by the rules of
/// the platform the library is built for.
pub uninterp spec fn joined_path(base: Seq<char>, path: Seq<char>) -> Seq<char>;

/// Adjoins `path` to `base` with `std::path::Path::join`.
///
/// Trusted: the joined path depends on the two paths alone, so it is the one
/// named by [`joined_path`]. Both arguments are valid UTF-8, hence so is the
/// result, and turning it back into a string loses nothing.
#[verifier::external_body]
pub(crate) fn join_path(base: &String, path: &String) -> (joined: String)
    ensures
        joined@ == joined_path(base@, path@),
{
    std::path::Path::new(base).join(path).to_string_lossy().into_owned()
}

/// Tells whether `path` is among `paths`.
fn contains_path(paths: &Vec<String>, path: &String) -> (found: bool)
    ensures
        found == paths.deep_view().contains(path@),
{
    let mut i: usize = 0;
    while i < paths.len()
        invariant
            i <= paths.len(),
            forall|k: int| 0 <= k < i ==> (#[trigger] paths@[k])@ != path@,
        decreases paths.len() - i,
    {
        if paths[i] == *path {
            assert(paths.deep_view()[i as int] == path@);
            return true;
        }
        i += 1;
    }
    false
}

impl Filesystem {
    /// What the record holds at a path.
    pub open spec fn kind_at(&self, path: Seq<char>) -> PathKind {
        if self.directories.deep_view().contains(path) {
            PathKind::Directory
        } else if self.files.deep_view().contains(path) {
            PathKind::NotDirectory
        } else {
            PathKind::Missing
        }
    }

    /// The record in which every path is missing.
    pub fn new() -> (filesystem: Filesystem)
        ensures
            filesystem.directories@.len() == 0,
            filesystem.files@.len() == 0,
            forall|path: Seq<char>| filesystem.kind_at(path) is Missing,
    {
        Filesystem { directories: Vec::new(), files: Vec::new() }
    }

    /// Records what was found at a path. Recording `Missing` changes
    /// nothing; what was recorded before stays.
    pub fn record(&mut self, path: String, kind: PathKind)
        ensures
            final(self).directories.deep_view() == if kind is Directory {
                old(self).directories.deep_view().push(path@)
            } else {
                old(self).directories.deep_view()
            },
            final(self).files.deep_view() == if kind is NotDirectory {
                old(self).files.deep_view().push(path@)
            } else {
                old(self).files.deep_view()
            },
            forall|other: Seq<char>|
                other != path@ ==> final(self).kind_at(other) == old(self).kind_at(other),
            old(self).kind_at(path@) is Missing ==> final(self).kind_at(path@) == kind,
    {
        let ghost before_directories = self.directories.deep_view();
        let ghost before_files = self.files.deep_view();
        match kind {
            PathKind::Directory => {
                self.directories.push(path);
                assert(self.directories.deep_view() =~= before_directories.push(path@));
            },
            PathKind::NotDirectory => {
                self.files.push(path);
                assert(self.files.deep_view() =~= before_files.push(path@));
            },
            PathKind::Missing => {},
        }
        assert forall|other: Seq<char>| other != path@ implies self.kind_at(other) == old(
            self,
        ).kind_at(other) by {
            lemma_push_contains(before_directories, path@, other);
            lemma_push_contains(before_files, path@, other);
        }
        proof {
            lemma_push_contains(before_directories, path@, path@);
            lemma_push_contains(before_files, path@, path@);
        }
    }

    /// Looks up what the record holds at a path.
    pub fn kind_of(&self, path: &String) -> (kind: PathKind)
        ensures
            kind == self.kind_at(path@),
    {
        if contains_path(&self.directories, path) {
            PathKind::Directory
        } else if contains_path(&self.files, path) {
            PathKind::NotDirectory
        } else {
            PathKind::Missing
        }
    }
}

/// A sequence with one more item holds what it held before, and that item.
pub proof fn lemma_push_contains(paths: Seq<Seq<char>>, pushed: Seq<char>, path: Seq<char>)
    ensures
        paths.push(pushed).contains(path) <==> paths.contains(path) || path == pushed,
{
    if paths.contains(path) {
        let at = choose|k: int| 0 <= k < paths.len() && paths[k] == path;
        assert(paths.push(pushed)[at] == path);
    }
    if path == pushed {
        assert(paths.push(pushed)[paths.len() as int] == path);
    }
}

} // verus!
