//! Paths of files, compared as the file system reads them.
use vstd::prelude::*;
use super::search::{any, lemma_first_index};
use super::text::texts;

verus! {

/// What the equality of `std::path::Path` says of two paths: whether they
/// are made of the same components, whatever the number of separators
/// between them.
pub uninterp spec fn same_path(a: Seq<char>, b: Seq<char>) -> bool;

/// The equality of `std::path::Path`: whether the two paths are made of
/// the same components, which depends on the two texts alone.
#[verifier::external_body]
pub(crate) fn paths_equal(a: &str, b: &str) -> (r: bool)
    ensures
        r == same_path(a@, b@),
{
    std::path::Path::new(a) == std::path::Path::new(b)
}

/// The paths that are the path `path`.
pub open spec fn path_is(path: Seq<char>) -> spec_fn(Seq<char>) -> bool {
    |other: Seq<char>| same_path(path, other)
}

/// Whether a list of paths holds the path `path`.
pub fn has_path(list: &Vec<String>, path: &str) -> (r: bool)
    ensures
        r == any(texts(list@), path_is(path@)),
{
    let mut i: usize = 0;
    while i < list.len()
        invariant
            i <= list.len(),
            forall|k: int| 0 <= k < i ==> !path_is(path@)(#[trigger] texts(list@)[k]),
        decreases list.len() - i,
    {
        if paths_equal(path, list[i].as_str()) {
            proof {
                lemma_first_index(texts(list@), path_is(path@), i as int);
            }
            return true;
        }
        i = i + 1;
    }
    proof {
        lemma_first_index(texts(list@), path_is(path@), i as int);
    }
    false
}

} // verus!
