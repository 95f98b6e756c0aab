//! The configured worker limit: a decimal argument parsed with a fallback
//! to the default on anything but a positive in-range digit string.

use vstd::prelude::*;
use vstd::string::StrSliceExecFns;
use crate::DEFAULT_WORKERS;

verus! {

/// Every character of `s` is a decimal digit.
pub open spec fn is_digit_seq(s: Seq<char>) -> bool {
    forall|k: int| 0 <= k < s.len() ==> '0' <= #[trigger] s[k] <= '9'
}

/// The numeric value of a decimal digit string, most significant digit first.
pub open spec fn digits_val(s: Seq<char>) -> int
    decreases s.len(),
{
    if s.len() == 0 {
        0
    } else {
        digits_val(s.drop_last()) * 10 + (s.last() as int - '0' as int)
    }
}

proof fn lemma_digits_val_nonneg(s: Seq<char>)
    requires
        is_digit_seq(s),
    ensures
        0 <= digits_val(s),
    decreases s.len(),
{
    if s.len() > 0 {
        assert(is_digit_seq(s.drop_last()));
        lemma_digits_val_nonneg(s.drop_last());
    }
}

/// Appending further digits never shrinks the value: the value of a prefix
/// is a lower bound for the value of the whole digit string.
proof fn lemma_digits_val_prefix_bound(s: Seq<char>, i: int)
    requires
        is_digit_seq(s),
        0 <= i <= s.len(),
    ensures
        digits_val(s.subrange(0, i)) <= digits_val(s),
    decreases s.len() - i,
{
    if i < s.len() {
        lemma_digits_val_prefix_bound(s, i + 1);
        let pre = s.subrange(0, i);
        let ext = s.subrange(0, i + 1);
        assert(ext.drop_last() =~= pre);
        assert(is_digit_seq(pre));
        lemma_digits_val_nonneg(pre);
        assert(digits_val(pre) <= digits_val(pre) * 10 + (ext.last() as int - '0' as int))
            by (nonlinear_arith)
            requires 0 <= digits_val(pre) && '0' <= ext.last() <= '9';
    } else {
        assert(s.subrange(0, i) =~= s);
    }
}

/// A well-formed worker-count argument: a non-empty digit string whose value
/// is positive and representable.
pub open spec fn valid_worker_count(s: Seq<char>) -> bool {
    &&& 0 < s.len()
    &&& is_digit_seq(s)
    &&& 1 <= digits_val(s) <= usize::MAX
}

/// The worker limit configured by an optional argument: its decimal value
/// when it is a well-formed positive count, and the default otherwise.
pub open spec fn workers_spec(arg: Option<Seq<char>>) -> int {
    match arg {
        Some(s) => if valid_worker_count(s) {
            digits_val(s)
        } else {
            DEFAULT_WORKERS as int
        },
        None => DEFAULT_WORKERS as int,
    }
}

/// Parse a decimal digit string. Returns its value exactly when the string
/// is non-empty, all digits, and the value fits in `usize`.
fn parse_decimal(s: &str) -> (r: Option<usize>)
    ensures
        match r {
            Some(v) => 0 < s@.len() && is_digit_seq(s@) && v == digits_val(s@),
            None => !(0 < s@.len() && is_digit_seq(s@) && digits_val(s@) <= usize::MAX),
        },
{
    let n = s.unicode_len();
    if n == 0 {
        return None;
    }
    let mut i: usize = 0;
    let mut val: usize = 0;
    while i < n
        invariant
            n == s@.len(),
            i <= n,
            is_digit_seq(s@.subrange(0, i as int)),
            val == digits_val(s@.subrange(0, i as int)),
        decreases n - i,
    {
        let c = s.get_char(i);
        if c < '0' || c > '9' {
            return None;
        }
        let d: usize = (c as u32 - 48) as usize;
        let ghost pre = s@.subrange(0, i as int);
        let ghost ext = s@.subrange(0, i + 1 as int);
        proof {
            assert(ext.drop_last() =~= pre);
            assert(digits_val(ext) == val * 10 + d);
            assert(is_digit_seq(ext));
        }
        let scaled = match val.checked_mul(10) {
            Some(x) => x,
            None => {
                proof {
                    if is_digit_seq(s@) {
                        lemma_digits_val_prefix_bound(s@, i + 1 as int);
                    }
                }
                return None;
            }
        };
        let next = match scaled.checked_add(d) {
            Some(x) => x,
            None => {
                proof {
                    if is_digit_seq(s@) {
                        lemma_digits_val_prefix_bound(s@, i + 1 as int);
                    }
                }
                return None;
            }
        };
        val = next;
        i = i + 1;
    }
    proof {
        assert(s@.subrange(0, n as int) =~= s@);
    }
    Some(val)
}

/// The worker limit for this run: the argument's decimal value when it is a
/// well-formed positive count, and the default of `DEFAULT_WORKERS`
/// otherwise (absent, empty, non-numeric, zero, or out of range). Always
/// positive.
pub fn parse_workers(arg: Option<&str>) -> (w: usize)
    ensures
        w == workers_spec(match arg {
            Some(s) => Some(s@),
            None => None,
        }),
        1 <= w,
{
    match arg {
        None => DEFAULT_WORKERS,
        Some(s) => {
            match parse_decimal(s) {
                Some(v) => {
                    if v >= 1 {
                        v
                    } else {
                        DEFAULT_WORKERS
                    }
                }
                None => DEFAULT_WORKERS,
            }
        }
    }
}

} // verus!
