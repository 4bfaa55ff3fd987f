//! Character-level text utilities: substring occurrence, stated over
//! the character sequences of the strings involved.

use vstd::prelude::*;
use vstd::string::*;

verus! {

/// `needle` occurs in `hay` starting at position `i`.
pub open spec fn is_match_at(hay: Seq<char>, needle: Seq<char>, i: int) -> bool {
    0 <= i && i + needle.len() <= hay.len() && hay.subrange(i, i + needle.len()) == needle
}

/// `needle` occurs somewhere in `hay`.
pub open spec fn contains_seq(hay: Seq<char>, needle: Seq<char>) -> bool {
    exists|i: int| is_match_at(hay, needle, i)
}

/// Decides whether `needle` occurs in `hay`, by characters.
pub fn contains_substring(hay: &str, needle: &str) -> (b: bool)
    ensures
        b == contains_seq(hay@, needle@),
{
    let n = hay.unicode_len();
    let m = needle.unicode_len();
    if m > n {
        return false;
    }
    let mut i: usize = 0;
    while i <= n - m
        invariant
            m <= n <= usize::MAX,
            n == hay@.len(),
            m == needle@.len(),
            i <= n - m + 1,
            forall|k: int| 0 <= k < i ==> !is_match_at(hay@, needle@, k),
        decreases n - m + 1 - i,
    {
        let mut j: usize = 0;
        let mut matches_here = true;
        while j < m
            invariant
                m <= n,
                n == hay@.len(),
                m == needle@.len(),
                i + m <= n,
                j <= m,
                matches_here ==> forall|t: int| 0 <= t < j ==> hay@[i + t] == needle@[t],
                !matches_here ==> exists|t: int| 0 <= t < m && hay@[i + t] != needle@[t],
            decreases m - j,
        {
            if hay.get_char(i + j) != needle.get_char(j) {
                matches_here = false;
            }
            j += 1;
        }
        if matches_here {
            proof {
                assert(hay@.subrange(i as int, i + needle@.len()) =~= needle@);
                assert(is_match_at(hay@, needle@, i as int));
            }
            return true;
        }
        proof {
            assert(!is_match_at(hay@, needle@, i as int)) by {
                if is_match_at(hay@, needle@, i as int) {
                    let t = choose|t: int| 0 <= t < m && hay@[i + t] != needle@[t];
                    assert(hay@.subrange(i as int, i + needle@.len())[t] == hay@[i + t]);
                }
            }
        }
        i += 1;
    }
    proof {
        assert(!contains_seq(hay@, needle@)) by {
            if contains_seq(hay@, needle@) {
                let k = choose|k: int| is_match_at(hay@, needle@, k);
                assert(k + m <= n);
                assert(!is_match_at(hay@, needle@, k));
            }
        }
    }
    false
}

} // verus!
