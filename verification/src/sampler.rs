//! Interpreting the memory accounting counter.
//!
//! The accounting facility exposes the current memory usage of the
//! execution's scope as one decimal number of bytes, surrounded by optional
//! whitespace. This module turns that text into kilobytes; any other shape
//! means "no sample this tick" and is reported as `None`, never as a fault.

use vstd::prelude::*;

verus! {

/// ASCII whitespace, as it may surround the counter's digits.
pub open spec fn is_ascii_space(b: u8) -> bool {
    b == 32 || b == 9 || b == 10 || b == 11 || b == 12 || b == 13
}

/// An ASCII decimal digit.
pub open spec fn is_digit(b: u8) -> bool {
    48 <= b <= 57
}

/// The numeric value of one digit byte (0 for a non-digit).
pub open spec fn digit_val(b: u8) -> nat {
    if is_digit(b) {
        (b - 48) as nat
    } else {
        0
    }
}

/// The value of a sequence of decimal digit bytes, most significant first.
pub open spec fn digits_value(s: Seq<u8>) -> nat
    decreases s.len(),
{
    if s.len() == 0 {
        0
    } else {
        digits_value(s.drop_last()) * 10 + digit_val(s.last())
    }
}

/// The sequence with leading ASCII whitespace removed.
pub open spec fn trim_start(s: Seq<u8>) -> Seq<u8>
    decreases s.len(),
{
    if s.len() > 0 && is_ascii_space(s.first()) {
        trim_start(s.drop_first())
    } else {
        s
    }
}

/// The sequence with trailing ASCII whitespace removed.
pub open spec fn trim_end(s: Seq<u8>) -> Seq<u8>
    decreases s.len(),
{
    if s.len() > 0 && is_ascii_space(s.last()) {
        trim_end(s.drop_last())
    } else {
        s
    }
}

/// The sequence with whitespace removed from both ends.
pub open spec fn trim(s: Seq<u8>) -> Seq<u8> {
    trim_end(trim_start(s))
}

/// What the counter text denotes, in kilobytes: the trimmed text must be one
/// or more decimal digits whose value fits a machine word; the value is then
/// converted from bytes to kilobytes, truncating. Anything else is no sample.
pub open spec fn spec_memory_kb(s: Seq<u8>) -> Option<u64> {
    let t = trim(s);
    if t.len() > 0 && (forall|i: int| 0 <= i < t.len() ==> is_digit(t[i])) && digits_value(t)
        <= u64::MAX {
        Some((digits_value(t) / 1024) as u64)
    } else {
        None
    }
}

/// A longer digit string never denotes a smaller value.
proof fn lemma_digits_value_prefix_le(s: Seq<u8>, k: int)
    requires
        0 <= k <= s.len(),
    ensures
        digits_value(s.take(k)) <= digits_value(s),
    decreases s.len() - k,
{
    if k < s.len() {
        assert(s.take(k + 1).drop_last() =~= s.take(k));
        assert(s.take(k + 1).last() == s[k]);
        assert(digits_value(s.take(k)) <= digits_value(s.take(k)) * 10 + digit_val(s[k]));
        lemma_digits_value_prefix_le(s, k + 1);
    } else {
        assert(s.take(k) =~= s);
    }
}

/// Parse the memory counter text and return the usage in kilobytes, or
/// `None` when the text is not a single in-range decimal number. The
/// counter's shape is exactly digits inside optional ASCII whitespace: a
/// leading sign, or whitespace beyond ASCII, is deliberately no sample.
pub fn parse_memory_kb(contents: &[u8]) -> (r: Option<u64>)
    ensures
        r == spec_memory_kb(contents@),
{
    let ghost sq = contents@;
    let mut lo: usize = 0;
    proof {
        assert(sq.skip(0) =~= sq);
    }
    while lo < contents.len() && is_space_byte(contents[lo])
        invariant
            0 <= lo <= sq.len(),
            sq == contents@,
            trim_start(sq) == trim_start(sq.skip(lo as int)),
        decreases sq.len() - lo,
    {
        proof {
            assert(sq.skip(lo as int).first() == sq[lo as int]);
            assert(sq.skip(lo as int).drop_first() =~= sq.skip(lo as int + 1));
        }
        lo = lo + 1;
    }
    proof {
        if lo < sq.len() {
            assert(sq.skip(lo as int).first() == sq[lo as int]);
        }
        assert(trim_start(sq) =~= sq.skip(lo as int));
        assert(sq.skip(lo as int) =~= sq.subrange(lo as int, sq.len() as int));
    }
    let mut hi: usize = contents.len();
    while hi > lo && is_space_byte(contents[hi - 1])
        invariant
            lo <= hi <= sq.len(),
            sq == contents@,
            trim(sq) == trim_end(sq.subrange(lo as int, hi as int)),
        decreases hi,
    {
        proof {
            let sub = sq.subrange(lo as int, hi as int);
            assert(sub.last() == sq[hi - 1]);
            assert(sub.drop_last() =~= sq.subrange(lo as int, hi as int - 1));
        }
        hi = hi - 1;
    }
    proof {
        let sub = sq.subrange(lo as int, hi as int);
        if hi > lo {
            assert(sub.last() == sq[hi - 1]);
        }
        assert(trim(sq) =~= sub);
    }
    let ghost t = sq.subrange(lo as int, hi as int);
    if hi == lo {
        return None;
    }
    let mut acc: u64 = 0;
    let mut i: usize = lo;
    while i < hi
        invariant
            lo <= i <= hi <= sq.len(),
            sq == contents@,
            t == sq.subrange(lo as int, hi as int),
            trim(sq) == t,
            forall|j: int| 0 <= j < i - lo ==> is_digit(t[j]),
            acc == digits_value(t.take(i - lo)),
        decreases hi - i,
    {
        let b = contents[i];
        proof {
            assert(t[i - lo] == sq[i as int]);
        }
        if b < 48 || b > 57 {
            proof {
                assert(!is_digit(t[i - lo]));
            }
            return None;
        }
        let d: u64 = (b - 48) as u64;
        let wide: u128 = acc as u128 * 10 + d as u128;
        proof {
            assert(t.take(i - lo + 1).drop_last() =~= t.take(i - lo));
            assert(t.take(i - lo + 1).last() == t[i - lo]);
        }
        if wide > u64::MAX as u128 {
            proof {
                assert(digits_value(t.take(i - lo + 1)) == acc * 10 + digit_val(t[i - lo]));
                assert(digit_val(t[i - lo]) == d);
                lemma_digits_value_prefix_le(t, i - lo + 1);
                assert(digits_value(t) > u64::MAX);
            }
            return None;
        }
        acc = (wide as u64);
        i = i + 1;
    }
    proof {
        assert(t.take(hi - lo) =~= t);
    }
    Some(acc / 1024)
}

/// Whether a byte is ASCII whitespace.
pub fn is_space_byte(b: u8) -> (r: bool)
    ensures
        r == is_ascii_space(b),
{
    b == 32 || b == 9 || b == 10 || b == 11 || b == 12 || b == 13
}

} // verus!
