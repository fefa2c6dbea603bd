//! Reading unsigned decimal numbers from text, as `str::parse::<u64>` reads
//! them: an optional leading `+`, then one or more ASCII digits, with a value
//! that fits in a `u64`.
use vstd::prelude::*;

verus! {

/// Whether `c` is the byte of an ASCII digit.
pub open spec fn is_digit(c: u8) -> bool {
    48 <= c <= 57
}

/// The value of a string of ASCII digits.
pub open spec fn digits_value(d: Seq<u8>) -> nat
    decreases d.len(),
{
    if d.len() == 0 {
        0
    } else {
        digits_value(d.drop_last()) * 10 + (d.last() - 48) as nat
    }
}

/// The digits of a number's text: the text without a leading `+`.
pub open spec fn digits_of(b: Seq<u8>) -> Seq<u8> {
    if b.len() > 0 && b[0] == 43 {
        b.drop_first()
    } else {
        b
    }
}

/// The `u64` that the bytes `b` spell, or `None` when they spell none: they
/// are empty, or only a `+`, or hold a byte other than a digit after the
/// optional `+`, or spell a number above `u64::MAX`.
pub open spec fn decimal_u64(b: Seq<u8>) -> Option<u64> {
    let d = digits_of(b);
    if d.len() == 0 || exists|i: int| 0 <= i < d.len() && !is_digit(#[trigger] d[i]) || digits_value(d)
        > u64::MAX {
        None
    } else {
        Some(digits_value(d) as u64)
    }
}

/// The `u64` that the text `s` spells.
pub open spec fn parsed_u64(s: Seq<char>) -> Option<u64> {
    decimal_u64(vstd::utf8::encode_utf8(s))
}

/// A longer string of digits is worth at least as much as its prefix.
proof fn lemma_digits_value_grows(d: Seq<u8>, k: int)
    requires
        0 <= k <= d.len(),
        forall|i: int| 0 <= i < d.len() ==> is_digit(#[trigger] d[i]),
    ensures
        digits_value(d.subrange(0, k)) <= digits_value(d),
    decreases d.len() - k,
{
    if k < d.len() {
        lemma_digits_value_grows(d, k + 1);
        let p = d.subrange(0, k + 1);
        assert(p.drop_last() =~= d.subrange(0, k));
        assert(is_digit(d[k]));
    } else {
        assert(d.subrange(0, k) =~= d);
    }
}

/// Reads the `u64` that `s` spells.
pub fn parse_u64(s: &str) -> (r: Option<u64>)
    ensures
        r == parsed_u64(s@),
{
    let b = s.as_bytes();
    let ghost bs = b@;
    assert(bs == vstd::utf8::encode_utf8(s@));
    let n = b.len();
    if n == 0 {
        return None;
    }
    let start: usize = if b[0] == 43 {
        1
    } else {
        0
    };
    let ghost d = digits_of(bs);
    assert(d =~= bs.subrange(start as int, n as int));
    if start == n {
        return None;
    }
    let mut i: usize = start;
    let mut acc: u64 = 0;
    while i < n
        invariant
            n == b@.len(),
            bs == b@,
            bs == vstd::utf8::encode_utf8(s@),
            d == bs.subrange(start as int, n as int),
            d == digits_of(bs),
            start <= i <= n,
            start < n,
            forall|j: int| 0 <= j < i - start ==> is_digit(#[trigger] d[j]),
            acc == digits_value(d.subrange(0, i - start)),
        decreases n - i,
    {
        let c = b[i];
        assert(c == d[i - start]);
        if c < 48 || c > 57 {
            assert(!is_digit(d[i - start]));
            return None;
        }
        let ghost p = d.subrange(0, i - start + 1);
        assert(p.drop_last() =~= d.subrange(0, i - start));
        let digit: u64 = (c - 48) as u64;
        match acc.checked_mul(10) {
            None => {
                proof {
                    if forall|j: int| 0 <= j < d.len() ==> is_digit(#[trigger] d[j]) {
                        lemma_digits_value_grows(d, i - start + 1);
                    }
                }
                return None;
            },
            Some(m) => match m.checked_add(digit) {
                None => {
                    proof {
                        if forall|j: int| 0 <= j < d.len() ==> is_digit(#[trigger] d[j]) {
                            lemma_digits_value_grows(d, i - start + 1);
                        }
                    }
                    return None;
                },
                Some(v) => {
                    acc = v;
                },
            },
        }
        i = i + 1;
    }
    assert(d.subrange(0, n - start) =~= d);
    Some(acc)
}

} // verus!
