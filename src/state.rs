//! The file that the editor has open: where it lives and a digest of the
//! contents last read from or written to it.

use vstd::prelude::*;
use crate::digest::{digests_equal, keccak512, keccak512_of};
use crate::paths::{opt_chars, parent_of, parent_text};

verus! {

/// The open file's path and the Keccak-512 digest of its contents as last
/// read or saved. Comparing the digest of the buffer's text with it tells
/// whether there are unsaved edits.
pub struct ActiveMetadata {
    path: String,
    sum: [u8; 64],
}

impl ActiveMetadata {
    /// The path of the file.
    pub closed spec fn path_view(&self) -> Seq<char> {
        self.path@
    }

    /// The digest of the contents last read or saved.
    pub closed spec fn digest_view(&self) -> Seq<u8> {
        self.sum@
    }

    /// Whether `data` counts as the file's saved contents: its digest is the
    /// recorded one.
    pub open spec fn reports_unchanged(&self, data: Seq<u8>) -> bool {
        keccak512_of(data) == self.digest_view()
    }

    /// Records `path` with the digest of `data`.
    pub fn new(path: String, data: &[u8]) -> (r: ActiveMetadata)
        ensures
            r.path_view() == path@,
            r.digest_view() == keccak512_of(data@),
    {
        ActiveMetadata { path, sum: keccak512(data) }
    }

    /// The path of the file.
    pub fn get_path(&self) -> (r: &str)
        ensures
            r@ == self.path_view(),
    {
        self.path.as_str()
    }

    /// The directory that holds the file, where the path has one.
    pub fn get_dir(&self) -> (r: Option<String>)
        ensures
            opt_chars(r) == parent_of(self.path_view()),
    {
        parent_text(self.path.as_str())
    }

    /// Whether `data` hashes to the recorded digest, that is whether the text
    /// holds no unsaved edits.
    pub fn is_same_as(&self, data: &[u8]) -> (r: bool)
        ensures
            r == self.reports_unchanged(data@),
    {
        let fresh = keccak512(data);
        self.matches_digest(&fresh)
    }

    /// Whether `digest` is the recorded digest.
    pub fn matches_digest(&self, digest: &[u8; 64]) -> (r: bool)
        ensures
            r == (digest@ == self.digest_view()),
    {
        digests_equal(digest, &self.sum)
    }

    /// Records the digest of `data` as that of the saved contents; the path
    /// stays.
    pub fn set_sum(&mut self, data: &[u8])
        ensures
            final(self).path_view() == old(self).path_view(),
            final(self).digest_view() == keccak512_of(data@),
    {
        self.sum = keccak512(data);
    }
}

/// A record made from contents `a` reports contents `b` unchanged exactly when
/// `a` and `b` have the same Keccak-512 digest; in particular it reports `a`
/// itself unchanged.
pub proof fn lemma_unchanged_iff_same_digest(m: ActiveMetadata, a: Seq<u8>, b: Seq<u8>)
    requires
        m.digest_view() == keccak512_of(a),
    ensures
        m.reports_unchanged(b) <==> keccak512_of(a) == keccak512_of(b),
        m.reports_unchanged(a),
{
}

} // verus!
