//! Matching of service names against allowed domain suffixes.
//!
//! Profile discovery is consulted only for names under configured domains:
//! a name is allowed when it equals one of the configured suffixes or ends
//! with a dot followed by one. Names are byte strings as they appear in an
//! authority.

use vstd::prelude::*;
use vstd::slice::slice_subrange;
use crate::http::bytes_eq;

verus! {

/// Whether `name` lies under `suffix`: it is the suffix itself, or ends
/// with a dot followed by it.
pub open spec fn spec_name_matches(name: Seq<u8>, suffix: Seq<u8>) -> bool {
    ||| name == suffix
    ||| (name.len() > suffix.len() && name.skip(name.len() - suffix.len()) == suffix && name[
        name.len() - suffix.len() - 1
    ] == 0x2e)
}

/// Whether `name` lies under `suffix`.
pub fn suffix_matches(name: &[u8], suffix: &[u8]) -> (r: bool)
    ensures
        r == spec_name_matches(name@, suffix@),
{
    let n = name.len();
    let m = suffix.len();
    if n == m {
        bytes_eq(name, suffix)
    } else if n > m {
        let dot = name[n - m - 1];
        let tail = slice_subrange(name, n - m, n);
        let r = dot == 0x2e && bytes_eq(tail, suffix);
        proof {
            assert(tail@ == name@.skip(n - m));
        }
        r
    } else {
        false
    }
}

/// The configured set of allowed domain suffixes.
#[derive(Debug)]
pub struct NameMatch {
    pub suffixes: Vec<Vec<u8>>,
}

impl NameMatch {
    /// A matcher allowing these suffixes.
    pub fn new(suffixes: Vec<Vec<u8>>) -> (r: NameMatch)
        ensures
            r.suffixes@ == suffixes@,
    {
        NameMatch { suffixes }
    }

    /// Whether discovery may be consulted for this name: it lies under one
    /// of the allowed suffixes.
    pub fn matches(&self, name: &[u8]) -> (r: bool)
        ensures
            r == exists|i: int|
                0 <= i < self.suffixes@.len() && spec_name_matches(
                    name@,
                    #[trigger] self.suffixes@[i]@,
                ),
    {
        let mut i: usize = 0;
        while i < self.suffixes.len()
            invariant
                i <= self.suffixes@.len(),
                forall|j: int|
                    0 <= j < i ==> !spec_name_matches(name@, #[trigger] self.suffixes@[j]@),
            decreases self.suffixes@.len() - i,
        {
            if suffix_matches(name, self.suffixes[i].as_slice()) {
                return true;
            }
            i = i + 1;
        }
        false
    }
}

} // verus!
