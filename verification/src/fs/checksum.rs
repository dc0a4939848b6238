//! Content hashes of files.

use vstd::prelude::*;
use vstd::array::*;

verus! {

/// The BLAKE3 digest of `input`, as the `blake3` crate computes it.
pub uninterp spec fn blake3_digest(input: Seq<u8>) -> Seq<u8>;

/// Calls `blake3::hash`, the crate's default hash function, on `input` and
/// copies the 32 bytes of its result. The contract names that result: the
/// digest depends on the bytes of the input alone.
#[verifier::external_body]
fn digest(input: &[u8]) -> (out: [u8; 32])
    ensures
        out@ == blake3_digest(input@),
{
    *blake3::hash(input).as_bytes()
}

/// Width of a content hash, in bytes.
pub const HASH_LEN: usize = 32;

/// The digest of a file's bytes, 256 bits wide. It is recorded when the file
/// is written and compared when the file is read back.
#[derive(Clone, Copy, Debug)]
pub struct ContentHash {
    pub bytes: [u8; 32],
}

impl View for ContentHash {
    type V = Seq<u8>;

    open spec fn view(&self) -> Seq<u8> {
        self.bytes@
    }
}

impl ContentHash {
    /// Every hash is 32 bytes wide.
    pub proof fn lemma_width(self)
        ensures
            self@.len() == HASH_LEN,
    {
        broadcast use vstd::array::array_len_matches_n;

    }

    /// The hash of `content`.
    pub fn of(content: &[u8]) -> (hash: ContentHash)
        ensures
            hash@ == blake3_digest(content@),
    {
        ContentHash { bytes: digest(content) }
    }

    /// Whether `content` is what this hash was taken of, as far as the
    /// digest can tell: whether the hash of `content` is this hash.
    pub fn verifies(&self, content: &[u8]) -> (intact: bool)
        ensures
            intact == (self@ == blake3_digest(content@)),
    {
        let actual = ContentHash::of(content);
        self.matches(&actual)
    }

    /// Reads a hash from stored bytes: there must be exactly 32 of them.
    pub fn from_bytes(bytes: &Vec<u8>) -> (hash: Option<ContentHash>)
        ensures
            hash is Some == (bytes@.len() == HASH_LEN),
            hash matches Some(h) ==> h@ == bytes@,
    {
        broadcast use vstd::array::array_len_matches_n;

        if bytes.len() != HASH_LEN {
            return None;
        }
        let mut out: [u8; 32] = [0u8;32];
        let mut i: usize = 0;
        while i < HASH_LEN
            invariant
                i <= HASH_LEN,
                bytes@.len() == HASH_LEN,
                out@.len() == HASH_LEN,
                forall|j: int| 0 <= j < i ==> out@[j] == bytes@[j],
            decreases HASH_LEN - i,
        {
            out[i] = bytes[i];
            i += 1;
        }
        assert(out@ =~= bytes@);
        Some(ContentHash { bytes: out })
    }

    /// The bytes of the hash, as they are stored.
    pub fn to_bytes(&self) -> (bytes: Vec<u8>)
        ensures
            bytes@ == self@,
    {
        broadcast use vstd::array::array_len_matches_n;

        let mut bytes: Vec<u8> = Vec::new();
        let mut i: usize = 0;
        while i < HASH_LEN
            invariant
                i <= HASH_LEN,
                self.bytes@.len() == HASH_LEN,
                bytes@.len() == i,
                forall|j: int| 0 <= j < i ==> bytes@[j] == self.bytes@[j],
            decreases HASH_LEN - i,
        {
            bytes.push(self.bytes[i]);
            i += 1;
        }
        assert(bytes@ =~= self@);
        bytes
    }

    /// Whether two hashes are the same digest: the integrity check of a read.
    pub fn matches(&self, other: &ContentHash) -> (same: bool)
        ensures
            same == (self@ == other@),
    {
        broadcast use vstd::array::array_len_matches_n;

        let mut i: usize = 0;
        while i < HASH_LEN
            invariant
                i <= HASH_LEN,
                self.bytes@.len() == HASH_LEN,
                other.bytes@.len() == HASH_LEN,
                forall|j: int| 0 <= j < i ==> self.bytes@[j] == other.bytes@[j],
            decreases HASH_LEN - i,
        {
            if self.bytes[i] != other.bytes[i] {
                return false;
            }
            i += 1;
        }
        assert(self@ =~= other@);
        true
    }
}

} // verus!
