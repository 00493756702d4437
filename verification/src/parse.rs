//! Decoding of control-layer size queries.
//!
//! The raw device-size query answers with a decimal number surrounded
//! by whitespace. This module parses that answer: the byte text is
//! trimmed and, when what is left is one non-empty run of decimal
//! digits whose value fits in 64 bits, that value is returned.

use vstd::prelude::*;

verus! {

/// Whether a byte is an ASCII decimal digit.
pub open spec fn is_ascii_digit(b: u8) -> bool {
    0x30 <= b && b <= 0x39
}

/// Whether a byte is ASCII whitespace (space, tab, line feed, carriage return).
pub open spec fn is_ascii_space(b: u8) -> bool {
    b == 0x20 || b == 0x09 || b == 0x0a || b == 0x0d
}

/// Whether every byte of `s` is a decimal digit.
pub open spec fn all_digits(s: Seq<u8>) -> bool {
    forall|i: int| 0 <= i < s.len() ==> is_ascii_digit(#[trigger] s[i])
}

/// The value of a run of decimal digits, most significant first.
pub open spec fn digits_value(s: Seq<u8>) -> nat
    decreases s.len(),
{
    if s.len() == 0 {
        0
    } else {
        10 * digits_value(s.drop_last()) + (if is_ascii_digit(s.last()) {
            (s.last() - 0x30) as nat
        } else {
            0
        })
    }
}

/// `s` with its leading whitespace removed.
pub open spec fn trim_start_spec(s: Seq<u8>) -> Seq<u8>
    decreases s.len(),
{
    if s.len() > 0 && is_ascii_space(s.first()) {
        trim_start_spec(s.drop_first())
    } else {
        s
    }
}

/// `s` with its trailing whitespace removed.
pub open spec fn trim_end_spec(s: Seq<u8>) -> Seq<u8>
    decreases s.len(),
{
    if s.len() > 0 && is_ascii_space(s.last()) {
        trim_end_spec(s.drop_last())
    } else {
        s
    }
}

/// `s` with whitespace removed at both ends.
pub open spec fn trimmed_spec(s: Seq<u8>) -> Seq<u8> {
    trim_end_spec(trim_start_spec(s))
}

/// What a size-query answer means: the value of the trimmed digit run,
/// or nothing when the trimmed text is empty, holds a non-digit, or
/// names a value that does not fit in `u64`.
pub open spec fn parsed_value(s: Seq<u8>) -> Option<u64> {
    if trimmed_spec(s).len() > 0 && all_digits(trimmed_spec(s)) && digits_value(trimmed_spec(s))
        <= u64::MAX {
        Some(digits_value(trimmed_spec(s)) as u64)
    } else {
        None
    }
}

/// A digit run's value only grows as the run is extended to the right.
proof fn lemma_digits_value_prefix_le(s: Seq<u8>, k: int)
    requires
        0 <= k <= s.len(),
    ensures
        digits_value(s.subrange(0, k)) <= digits_value(s),
    decreases s.len() - k,
{
    if k == s.len() {
        assert(s.subrange(0, k) =~= s);
    } else {
        let p = s.subrange(0, k + 1);
        assert(p.drop_last() =~= s.subrange(0, k));
        assert(digits_value(s.subrange(0, k)) <= digits_value(p));
        lemma_digits_value_prefix_le(s, k + 1);
    }
}

/// Parses the text of a size-query answer.
///
/// Returns the value of the trimmed digit run, and `None` exactly when
/// the trimmed text is empty, holds a non-digit, or names a value that
/// does not fit in `u64`.
pub fn parse_u64(bytes: &Vec<u8>) -> (r: Option<u64>)
    ensures
        r == parsed_value(bytes@),
{
    let n = bytes.len();
    let mut lo: usize = 0;
    proof {
        assert(bytes@.skip(0) =~= bytes@);
    }
    while lo < n && (bytes[lo] == 0x20 || bytes[lo] == 0x09 || bytes[lo] == 0x0a || bytes[lo] == 0x0d)
        invariant
            n == bytes@.len(),
            0 <= lo <= n,
            trim_start_spec(bytes@) == trim_start_spec(bytes@.skip(lo as int)),
        decreases n - lo,
    {
        proof {
            let s = bytes@.skip(lo as int);
            assert(s.first() == bytes@[lo as int]);
            assert(s.drop_first() =~= bytes@.skip(lo as int + 1));
        }
        lo = lo + 1;
    }
    proof {
        assert(trim_start_spec(bytes@) == bytes@.skip(lo as int));
    }

    let mut hi: usize = n;
    while hi > lo && (bytes[hi - 1] == 0x20 || bytes[hi - 1] == 0x09 || bytes[hi - 1] == 0x0a
        || bytes[hi - 1] == 0x0d)
        invariant
            n == bytes@.len(),
            0 <= lo <= hi <= n,
            trim_start_spec(bytes@) == bytes@.skip(lo as int),
            trim_end_spec(bytes@.skip(lo as int)) == trim_end_spec(
                bytes@.subrange(lo as int, hi as int),
            ),
        decreases hi,
    {
        proof {
            let s = bytes@.subrange(lo as int, hi as int);
            assert(s.last() == bytes@[hi as int - 1]);
            assert(s.drop_last() =~= bytes@.subrange(lo as int, hi as int - 1));
        }
        hi = hi - 1;
    }
    proof {
        assert(bytes@.skip(lo as int) =~= bytes@.subrange(lo as int, n as int));
        assert(trimmed_spec(bytes@) == bytes@.subrange(lo as int, hi as int));
    }

    let ghost t = bytes@.subrange(lo as int, hi as int);

    if hi == lo {
        return None;
    }

    let mut acc: u64 = 0;
    let mut i: usize = lo;
    while i < hi
        invariant
            n == bytes@.len(),
            0 <= lo < hi <= n,
            lo <= i <= hi,
            t == bytes@.subrange(lo as int, hi as int),
            trimmed_spec(bytes@) == t,
            all_digits(t.subrange(0, i - lo)),
            acc == digits_value(t.subrange(0, i - lo)),
        decreases hi - i,
    {
        let b = bytes[i];
        if b < 0x30 || b > 0x39 {
            proof {
                assert(t[i - lo] == bytes@[i as int]);
                assert(!all_digits(t));
            }
            return None;
        }
        let d: u64 = (b - 0x30) as u64;
        proof {
            let p = t.subrange(0, i - lo + 1);
            assert(p.drop_last() =~= t.subrange(0, i - lo));
            assert(p.last() == bytes@[i as int]);
        }
        if acc > (u64::MAX - d) / 10 {
            proof {
                assert(10 * (acc as nat) + d > u64::MAX) by (nonlinear_arith)
                    requires
                        acc > (u64::MAX - d) / 10,
                        d <= 9,
                ;
                if all_digits(t) {
                    lemma_digits_value_prefix_le(t, i - lo + 1);
                }
            }
            return None;
        }
        proof {
            assert(10 * (acc as nat) + d <= u64::MAX) by (nonlinear_arith)
                requires
                    acc <= (u64::MAX - d) / 10,
                    d <= 9,
            ;
        }
        acc = acc * 10 + d;
        i = i + 1;
    }
    proof {
        assert(t.subrange(0, i - lo) =~= t);
    }
    Some(acc)
}

} // verus!
