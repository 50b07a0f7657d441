//! Content-addressed version identifiers for edits.
//!
//! A version is a rolling hash of the textual diff an edit carries; the root
//! version is the hash of the empty text and stands for "no edits yet".
use vstd::prelude::*;

verus! {

/// Modulus keeping the rolling hash inside 32 bits.
pub const HASH_MOD: u64 = 0x1_0000_0000;
/// Initial value of the rolling hash; also the value of the root version.
pub const HASH_SEED: u64 = 5381;
/// Multiplier of the rolling hash.
pub const HASH_FACTOR: u64 = 131;

/// Rolling hash of the first `n` characters of `s`.
pub open spec fn hash_prefix(s: Seq<char>, n: int) -> u64
    decreases n,
{
    if n <= 0 {
        HASH_SEED
    } else {
        (((hash_prefix(s, n - 1) as int) * (HASH_FACTOR as int) + (s[n - 1] as u32) as int)
            % (HASH_MOD as int)) as u64
    }
}

/// Hash of a whole text.
pub open spec fn content_hash(s: Seq<char>) -> u64 {
    hash_prefix(s, s.len() as int)
}

/// A point in an article's history, addressed by the hash of the diff that
/// produced it.
#[derive(Clone, Copy, PartialEq, Eq, Structural, Debug, Hash)]
pub struct EditVersion {
    pub value: u64,
}

/// The version an edit with the given diff gets.
pub open spec fn version_of(diff: Seq<char>) -> EditVersion {
    EditVersion { value: content_hash(diff) }
}

/// The fixed sentinel version of an article with no edits.
pub open spec fn root_version() -> EditVersion {
    EditVersion { value: HASH_SEED }
}

proof fn lemma_hash_prefix_bound(s: Seq<char>, n: int)
    ensures
        hash_prefix(s, n) < HASH_MOD,
    decreases n,
{
    if n > 0 {
        lemma_hash_prefix_bound(s, n - 1);
    }
}

impl EditVersion {
    /// Computes the content address of a diff.
    pub fn new(diff: &str) -> (r: Self)
        ensures
            r == version_of(diff@),
    {
        let n = diff.unicode_len();
        let mut h: u64 = HASH_SEED;
        let mut i: usize = 0;
        while i < n
            invariant
                n == diff@.len(),
                0 <= i <= n,
                h == hash_prefix(diff@, i as int),
            decreases n - i,
        {
            let c = diff.get_char(i);
            proof {
                lemma_hash_prefix_bound(diff@, i as int);
            }
            h = (h * HASH_FACTOR + (c as u32) as u64) % HASH_MOD;
            i = i + 1;
        }
        EditVersion { value: h }
    }

    /// The root sentinel.
    pub fn root() -> (r: Self)
        ensures
            r == root_version(),
    {
        EditVersion { value: HASH_SEED }
    }
}

} // verus!
