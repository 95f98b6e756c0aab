//! Substring containment over character sequences: the marker check applied
//! to each response body.

use vstd::prelude::*;
use vstd::string::StrSliceExecFns;

verus! {

/// `pat` occurs in `text` as the contiguous run of characters starting at `i`.
pub open spec fn matches_at(text: Seq<char>, pat: Seq<char>, i: int) -> bool {
    &&& 0 <= i
    &&& i + pat.len() <= text.len()
    &&& text.subrange(i, i + pat.len() as int) == pat
}

/// `pat` occurs somewhere in `text` as a contiguous run of characters.
pub open spec fn contains_seq(text: Seq<char>, pat: Seq<char>) -> bool {
    exists|i: int| matches_at(text, pat, i)
}

/// Whether `pat` occurs in `text`, by a character-by-character scan.
pub fn contains_str(text: &str, pat: &str) -> (r: bool)
    ensures
        r == contains_seq(text@, pat@),
{
    let n: usize = text.unicode_len();
    let m: usize = pat.unicode_len();
    if m > n {
        assert forall|k: int| !matches_at(text@, pat@, k) by {
            if matches_at(text@, pat@, k) {
                assert(k + pat@.len() <= text@.len());
            }
        }
        return false;
    }
    if m == 0 {
        proof {
            assert(text@.subrange(0, 0) =~= pat@);
            assert(matches_at(text@, pat@, 0));
        }
        return true;
    }
    let mut i: usize = 0;
    while i <= n - m
        invariant
            1 <= m <= n,
            n == text@.len(),
            m == pat@.len(),
            i <= n - m + 1,
            forall|k: int| 0 <= k < i ==> !matches_at(text@, pat@, k),
        decreases n - m + 1 - i,
    {
        let mut j: usize = 0;
        let mut mismatch = false;
        while j < m
            invariant
                m <= n,
                n == text@.len(),
                m == pat@.len(),
                i + m <= n,
                j <= m,
                !mismatch ==> forall|t: int| 0 <= t < j ==> text@[i + t] == pat@[t],
                mismatch ==> !matches_at(text@, pat@, i as int),
            decreases m - j,
        {
            if text.get_char(i + j) != pat.get_char(j) {
                proof {
                    if matches_at(text@, pat@, i as int) {
                        assert(text@.subrange(i as int, i + m as int)[j as int] == pat@[j as int]);
                    }
                }
                mismatch = true;
                j = m;
            } else {
                j = j + 1;
            }
        }
        if !mismatch {
            proof {
                assert(text@.subrange(i as int, i + m as int) =~= pat@);
                assert(matches_at(text@, pat@, i as int));
            }
            return true;
        }
        i = i + 1;
    }
    proof {
        assert forall|k: int| !matches_at(text@, pat@, k) by {
            if matches_at(text@, pat@, k) {
                assert(k + pat@.len() <= text@.len());
                assert(k < i);
            }
        }
    }
    false
}

} // verus!
