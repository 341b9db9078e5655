//! What the editor knows of the open source file and of the open Cargo project.

use vstd::prelude::*;
use crate::digest::{keccak512, keccak512_digest, digests_equal};
use crate::paths::{parent_of, file_name_of, path_parent, path_file_name};

verus! {

/// The open source file: where it lives and a fingerprint of the contents it
/// had when it was last loaded or saved.
pub struct ActiveMetadata {
    path: String,
    sum: [u8; 64],
}

/// The abstract value of an [`ActiveMetadata`]: the path and the 64-byte
/// fingerprint.
pub ghost struct ActiveFile {
    pub path: Seq<char>,
    pub sum: Seq<u8>,
}

impl ActiveFile {
    /// The metadata of a file at `path` whose contents are `data`.
    pub open spec fn loaded(path: Seq<char>, data: Seq<u8>) -> ActiveFile {
        ActiveFile { path, sum: keccak512_digest(data) }
    }

    /// The same file, fingerprinted anew from `data`.
    pub open spec fn resummed(self, data: Seq<u8>) -> ActiveFile {
        ActiveFile { path: self.path, sum: keccak512_digest(data) }
    }

    /// `data` has the fingerprint recorded for the file.
    pub open spec fn matches(self, data: Seq<u8>) -> bool {
        keccak512_digest(data) == self.sum
    }
}

impl View for ActiveMetadata {
    type V = ActiveFile;

    closed spec fn view(&self) -> ActiveFile {
        ActiveFile { path: self.path@, sum: self.sum@ }
    }
}

impl ActiveMetadata {
    /// Metadata for the file at `path` whose contents are `data`.
    pub fn new(path: String, data: &[u8]) -> (meta: ActiveMetadata)
        ensures
            meta@ == ActiveFile::loaded(path@, data@),
    {
        ActiveMetadata { path, sum: keccak512(data) }
    }

    /// The path of the file.
    pub fn get_path(&self) -> (path: &str)
        ensures
            path@ == self@.path,
    {
        self.path.as_str()
    }

    /// The directory that holds the file, if its path has one.
    pub fn get_dir(&self) -> (dir: Option<String>)
        ensures
            dir.deep_view() == path_parent(self@.path),
    {
        parent_of(self.path.as_str())
    }

    /// Whether `data` has the fingerprint recorded for the file, that is,
    /// whether it is what was last loaded or saved.
    pub fn is_same_as(&self, data: &[u8]) -> (same: bool)
        ensures
            same == self@.matches(data@),
    {
        let sum = keccak512(data);
        digests_equal(&sum, &self.sum)
    }

    /// Records `data` as the file's contents.
    pub fn set_sum(&mut self, data: &[u8])
        ensures
            final(self)@ == old(self)@.resummed(data@),
    {
        self.sum = keccak512(data);
    }
}

/// The open Cargo project: the directory that holds its `Cargo.toml`.
pub struct ProjectMetadata {
    path: String,
}

impl View for ProjectMetadata {
    type V = Seq<char>;

    closed spec fn view(&self) -> Seq<char> {
        self.path@
    }
}

impl ProjectMetadata {
    /// Metadata for the project in the directory `path`.
    pub fn new(path: String) -> (meta: ProjectMetadata)
        ensures
            meta@ == path@,
    {
        ProjectMetadata { path }
    }

    /// The project's directory.
    pub fn get_path(&self) -> (path: &str)
        ensures
            path@ == self@,
    {
        self.path.as_str()
    }

    /// The name of the project's directory, if its path has a final component.
    pub fn get_name(&self) -> (name: Option<String>)
        ensures
            name.deep_view() == path_file_name(self@),
    {
        file_name_of(self.path.as_str())
    }
}

/// A file's metadata, taken when it was loaded, recognises the contents it
/// was loaded with.
pub proof fn law_loaded_file_matches_its_contents(path: Seq<char>, data: Seq<u8>)
    ensures
        ActiveFile::loaded(path, data).matches(data),
{
}

/// After the fingerprint is taken anew from some contents, the file keeps its
/// path and recognises exactly those contents (and any with the same digest).
pub proof fn law_resummed_file_matches_new_contents(file: ActiveFile, data: Seq<u8>, other: Seq<u8>)
    ensures
        file.resummed(data).path == file.path,
        file.resummed(data).matches(data),
        file.resummed(data).matches(other) <==> keccak512_digest(other) == keccak512_digest(data),
{
}

/// Whether a file recognises some contents depends on the digests alone: a
/// file loaded from `data` recognises `other` exactly when the two digests
/// agree, whatever the path.
pub proof fn law_match_is_digest_equality(path: Seq<char>, data: Seq<u8>, other: Seq<u8>)
    ensures
        ActiveFile::loaded(path, data).matches(other) <==> keccak512_digest(other) == keccak512_digest(data),
{
}

/// Loading records the path and the Keccak-512 digest of the contents;
/// fingerprinting anew keeps the path and records the digest of the new
/// contents.
pub proof fn law_fingerprint_is_digest(file: ActiveFile, path: Seq<char>, data: Seq<u8>)
    ensures
        ActiveFile::loaded(path, data).path == path,
        ActiveFile::loaded(path, data).sum == keccak512_digest(data),
        file.resummed(data).path == file.path,
        file.resummed(data).sum == keccak512_digest(data),
        file.matches(data) <==> keccak512_digest(data) == file.sum,
{
}

} // verus!
