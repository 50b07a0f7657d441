//! Textual diffs, computed and applied by the `diffy` crate.
//!
//! What a diff looks like and what applying one returns is named, not spelled
//! out: `patch_of` is the diff between two texts, `apply_patch_spec` the
//! outcome of applying a serialized diff to a base text. The one fact the
//! library builds on is the round trip: applying `patch_of(a, b)` to `a`
//! yields `b`.
use vstd::prelude::*;

verus! {

/// The serialized diff that transforms `old` into `new`.
pub uninterp spec fn patch_of(old: Seq<char>, new: Seq<char>) -> Seq<char>;

/// The outcome of parsing `patch` and applying it to `base`: the patched
/// text, or nothing when the patch is malformed or does not apply cleanly.
pub uninterp spec fn apply_patch_spec(base: Seq<char>, patch: Seq<char>) -> Option<Seq<char>>;

/// Relies on `diffy::create_patch` and `diffy::Patch`'s display form: the
/// patch between two texts, serialized in the unified format that
/// `diffy::Patch::from_str` parses back, such that `diffy::apply` on the
/// original text reconstructs the modified text.
#[verifier::external_body]
pub fn create_patch_string(old: &str, new: &str) -> (r: String)
    ensures
        r@ == patch_of(old@, new@),
        apply_patch_spec(old@, r@) == Some(new@),
{
    diffy::create_patch(old, new).to_string()
}

/// Relies on `diffy::Patch::from_str` and `diffy::apply`: parses a serialized
/// patch and applies it to `base`; both steps depend on their text arguments
/// alone.
#[verifier::external_body]
pub fn apply_patch(base: &str, patch: &str) -> (r: Option<String>)
    ensures
        match apply_patch_spec(base@, patch@) {
            Some(t) => r is Some && r->0@ == t,
            None => r is None,
        },
{
    match diffy::Patch::from_str(patch) {
        Ok(p) => diffy::apply(base, &p).ok(),
        Err(_) => None,
    }
}

} // verus!
