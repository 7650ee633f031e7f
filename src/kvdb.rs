//! Options and key-range logic of the local key-value store.
//!
//! The store keeps byte keys in ascending byte order; a scan by prefix walks
//! forward from the prefix and stops at the first key that lies outside it.

use vstd::prelude::*;

verus! {

/// std's `PathBuf`, carried through as an opaque value.
#[verifier::external_type_specification]
#[verifier::external_body]
pub struct ExPathBuf(std::path::PathBuf);

/// Where the store lives and whether to create it there when it is missing.
pub struct KvDbOptions {
    pub path: std::path::PathBuf,
    pub create_if_missing: bool,
}

/// The value of `create_if_missing` when the configuration leaves it out.
pub fn t() -> (r: bool)
    ensures
        r,
{
    true
}

/// Whether `key` lies in the range of keys that start with `prefix`.
pub fn key_in_prefix(key: &[u8], prefix: &[u8]) -> (r: bool)
    ensures
        r == prefix@.is_prefix_of(key@),
{
    if prefix.len() > key.len() {
        return false;
    }
    let mut i: usize = 0;
    while i < prefix.len()
        invariant
            i <= prefix@.len() <= key@.len(),
            forall|j: int| 0 <= j < i ==> prefix@[j] == key@[j],
        decreases prefix@.len() - i,
    {
        if prefix[i] != key[i] {
            return false;
        }
        i = i + 1;
    }
    assert(prefix@ =~= key@.subrange(0, prefix@.len() as int));
    true
}

} // verus!
