use vstd::prelude::*;

verus! {

/// Whether one pattern byte accepts one haystack byte (`None` is a wildcard).
pub open spec fn byte_accepts(p: Option<u8>, b: u8) -> bool {
    match p {
        Some(x) => x == b,
        None => true,
    }
}

/// Whether `pattern` occurs in `haystack` starting at index `i`.
pub open spec fn matches_at(pattern: Seq<Option<u8>>, haystack: Seq<u8>, i: int) -> bool {
    &&& 0 <= i
    &&& i + pattern.len() <= haystack.len()
    &&& forall|j: int| 0 <= j < pattern.len() ==> byte_accepts(#[trigger] pattern[j], haystack[i + j])
}

/// `i` is the leftmost occurrence of `pattern` in `haystack`.
pub open spec fn is_first_match(pattern: Seq<Option<u8>>, haystack: Seq<u8>, i: int) -> bool {
    &&& matches_at(pattern, haystack, i)
    &&& forall|k: int| 0 <= k < i ==> !matches_at(pattern, haystack, k)
}

/// `pattern` occurs nowhere in `haystack`.
pub open spec fn never_matches(pattern: Seq<Option<u8>>, haystack: Seq<u8>) -> bool {
    forall|k: int| !matches_at(pattern, haystack, k)
}

fn matches_here(pattern: &[Option<u8>], haystack: &[u8], i: usize) -> (r: bool)
    requires
        i + pattern@.len() <= haystack@.len(),
    ensures
        r == matches_at(pattern@, haystack@, i as int),
{
    let n = haystack.len();
    let mut j: usize = 0;
    while j < pattern.len()
        invariant
            n == haystack@.len(),
            i + pattern@.len() <= haystack@.len(),
            0 <= j <= pattern@.len(),
            forall|t: int| 0 <= t < j ==> byte_accepts(#[trigger] pattern@[t], haystack@[i + t]),
        decreases pattern@.len() - j,
    {
        let ok = match pattern[j] {
            Some(x) => x == haystack[i + j],
            None => true,
        };
        if !ok {
            assert(!byte_accepts(pattern@[j as int], haystack@[i + j]));
            return false;
        }
        j = j + 1;
    }
    true
}

/// Finds the leftmost occurrence of `pattern` in `haystack` and returns its
/// start index; `None` exactly when the pattern occurs nowhere.
pub fn scan(pattern: &[Option<u8>], haystack: &[u8]) -> (r: Option<usize>)
    ensures
        match r {
            Some(i) => is_first_match(pattern@, haystack@, i as int),
            None => never_matches(pattern@, haystack@),
        },
{
    if pattern.len() > haystack.len() {
        return None;
    }
    let last = haystack.len() - pattern.len();
    let mut i: usize = 0;
    while i <= last
        invariant
            last + pattern@.len() == haystack@.len(),
            0 <= i <= last + 1,
            forall|k: int| 0 <= k < i ==> !matches_at(pattern@, haystack@, k),
        decreases last + 1 - i,
    {
        if matches_here(pattern, haystack, i) {
            return Some(i);
        }
        if i == last {
            return None;
        }
        i = i + 1;
    }
    None
}

} // verus!
