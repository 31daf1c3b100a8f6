//! Parsing a user or group name that may instead be a numeric id.
//!
//! Resolution against the system databases is the caller's (it needs
//! platform lookups); the decision whether the name is a plain decimal id —
//! surrounding whitespace ignored, an optional leading plus sign, the value
//! fitting in 32 bits — is made here, exactly.

use vstd::prelude::*;

verus! {

/// ASCII whitespace: space, tab, line feed, vertical tab, form feed,
/// carriage return.
pub open spec fn is_space(b: u8) -> bool {
    b == 32 || b == 9 || b == 10 || b == 11 || b == 12 || b == 13
}

/// An ASCII decimal digit.
pub open spec fn is_digit(b: u8) -> bool {
    48 <= b && b <= 57
}

/// `s` with leading ASCII whitespace removed.
pub open spec fn strip_leading(s: Seq<u8>) -> Seq<u8>
    decreases s.len(),
{
    if s.len() > 0 && is_space(s[0]) {
        strip_leading(s.subrange(1, s.len() as int))
    } else {
        s
    }
}

/// `s` with trailing ASCII whitespace removed.
pub open spec fn strip_trailing(s: Seq<u8>) -> Seq<u8>
    decreases s.len(),
{
    if s.len() > 0 && is_space(s[s.len() - 1]) {
        strip_trailing(s.subrange(0, s.len() - 1))
    } else {
        s
    }
}

/// `s` with ASCII whitespace removed at both ends.
pub open spec fn trimmed(s: Seq<u8>) -> Seq<u8> {
    strip_trailing(strip_leading(s))
}

/// The digit run of a trimmed name: an optional leading plus sign removed.
pub open spec fn digits_of(s: Seq<u8>) -> Seq<u8> {
    if s.len() > 0 && s[0] == 43 {
        s.subrange(1, s.len() as int)
    } else {
        s
    }
}

pub open spec fn all_digits(s: Seq<u8>) -> bool {
    forall|i: int| 0 <= i < s.len() ==> is_digit(s[i])
}

/// The value of a run of decimal digits, most significant first.
pub open spec fn digits_value(s: Seq<u8>) -> int
    decreases s.len(),
{
    if s.len() == 0 {
        0
    } else {
        digits_value(s.drop_last()) * 10 + (s.last() - 48)
    }
}

/// Whether the bytes, whitespace-trimmed, are a decimal number that fits in
/// 32 bits: an optional plus sign, then one or more digits.
pub open spec fn parses_as_u32(s: Seq<u8>) -> bool {
    let d = digits_of(trimmed(s));
    d.len() > 0 && all_digits(d) && digits_value(d) <= u32::MAX
}

/// The numeric value of such a name.
pub open spec fn parsed_u32(s: Seq<u8>) -> int {
    digits_value(digits_of(trimmed(s)))
}

proof fn lemma_strip_leading_at(s: Seq<u8>, k: int)
    requires
        0 <= k <= s.len(),
        forall|i: int| 0 <= i < k ==> is_space(s[i]),
        k == s.len() || !is_space(s[k]),
    ensures
        strip_leading(s) == s.subrange(k, s.len() as int),
    decreases k,
{
    if k == 0 {
        assert(s.subrange(0, s.len() as int) =~= s);
    } else {
        let s1 = s.subrange(1, s.len() as int);
        assert forall|i: int| 0 <= i < k - 1 implies is_space(s1[i]) by {
            assert(s1[i] == s[i + 1]);
        }
        lemma_strip_leading_at(s1, k - 1);
        assert(s1.subrange(k - 1, s1.len() as int) =~= s.subrange(k, s.len() as int));
    }
}

proof fn lemma_strip_trailing_at(s: Seq<u8>, k: int)
    requires
        0 <= k <= s.len(),
        forall|i: int| k <= i < s.len() ==> is_space(s[i]),
        k == 0 || !is_space(s[k - 1]),
    ensures
        strip_trailing(s) == s.subrange(0, k),
    decreases s.len() - k,
{
    if k == s.len() {
        assert(s.subrange(0, k) =~= s);
    } else {
        let s1 = s.subrange(0, s.len() - 1);
        assert(is_space(s[s.len() - 1]));
        lemma_strip_trailing_at(s1, k);
        assert(s1.subrange(0, k) =~= s.subrange(0, k));
    }
}

proof fn lemma_digits_value_nonneg(s: Seq<u8>)
    requires
        all_digits(s),
    ensures
        digits_value(s) >= 0,
    decreases s.len(),
{
    if s.len() > 0 {
        assert(all_digits(s.drop_last()));
        lemma_digits_value_nonneg(s.drop_last());
    }
}

/// A prefix of a digit run never exceeds the whole run's value.
proof fn lemma_digits_value_prefix(s: Seq<u8>, k: int)
    requires
        all_digits(s),
        0 <= k <= s.len(),
    ensures
        digits_value(s.subrange(0, k)) <= digits_value(s),
    decreases s.len(),
{
    if k == s.len() {
        assert(s.subrange(0, k) =~= s);
    } else {
        let s1 = s.drop_last();
        assert(all_digits(s1));
        lemma_digits_value_prefix(s1, k);
        assert(s.subrange(0, k) =~= s1.subrange(0, k));
        lemma_digits_value_nonneg(s1);
        assert(is_digit(s.last()));
    }
}

/// Whether `b` is ASCII whitespace.
fn space_byte(b: u8) -> (r: bool)
    ensures
        r == is_space(b),
{
    b == 32 || (9 <= b && b <= 13)
}

/// Decide whether the name is a plain decimal id and, if so, its value:
/// exactly the names whose whitespace-trimmed bytes are an optional plus
/// sign followed by digits, with a value that fits in 32 bits.
pub fn parse_id(s: &[u8]) -> (r: Option<u32>)
    ensures
        parses_as_u32(s@) ==> (r matches Some(v) && v as int == parsed_u32(s@)),
        !parses_as_u32(s@) ==> r is None,
{
    let n = s.len();
    let mut lo: usize = 0;
    while lo < n && space_byte(s[lo])
        invariant
            lo <= n,
            n == s@.len(),
            forall|i: int| 0 <= i < lo ==> is_space(s@[i]),
        decreases n - lo,
    {
        lo += 1;
    }
    let mut hi: usize = n;
    while hi > lo && space_byte(s[hi - 1])
        invariant
            lo <= hi <= n,
            n == s@.len(),
            forall|i: int| hi <= i < n ==> is_space(s@[i]),
        decreases hi,
    {
        hi -= 1;
    }
    proof {
        lemma_strip_leading_at(s@, lo as int);
        let t = s@.subrange(lo as int, n as int);
        assert forall|i: int| hi - lo <= i < t.len() implies is_space(t[i]) by {
            assert(t[i] == s@[lo + i]);
        }
        lemma_strip_trailing_at(t, hi - lo);
        assert(t.subrange(0, hi - lo) =~= s@.subrange(lo as int, hi as int));
    }
    if lo == hi {
        proof {
            assert(digits_of(trimmed(s@)).len() == 0);
        }
        return None;
    }
    let dlo: usize = if s[lo] == 43 {
        lo + 1
    } else {
        lo
    };
    proof {
        assert(trimmed(s@)[0] == s@[lo as int]);
        assert(digits_of(trimmed(s@)) =~= s@.subrange(dlo as int, hi as int));
    }
    let ghost d = digits_of(trimmed(s@));
    if dlo == hi {
        return None;
    }
    let mut acc: u64 = 0;
    let mut i: usize = dlo;
    while i < hi
        invariant
            dlo <= i <= hi <= n,
            n == s@.len(),
            d == digits_of(trimmed(s@)),
            d == s@.subrange(dlo as int, hi as int),
            forall|j: int| dlo <= j < i ==> is_digit(s@[j]),
            acc as int == digits_value(s@.subrange(dlo as int, i as int)),
            acc <= u32::MAX as u64,
        decreases hi - i,
    {
        let b = s[i];
        if b < 48 || 57 < b {
            proof {
                if parses_as_u32(s@) {
                    assert(is_digit(d[i - dlo]));
                    assert(d[i - dlo] == s@[i as int]);
                    assert(false);
                }
            }
            return None;
        }
        let dig: u64 = (b - 48) as u64;
        let next: u64 = acc * 10 + dig;
        proof {
            assert(s@.subrange(dlo as int, i + 1).drop_last() =~= s@.subrange(
                dlo as int,
                i as int,
            ));
            assert(s@.subrange(dlo as int, i + 1).last() == s@[i as int]);
        }
        if next > 0xffff_ffff {
            proof {
                if parses_as_u32(s@) {
                    lemma_digits_value_prefix(d, i + 1 - dlo);
                    assert(d.subrange(0, i + 1 - dlo) =~= s@.subrange(dlo as int, i + 1));
                    assert(false);
                }
            }
            return None;
        }
        acc = next;
        i += 1;
    }
    proof {
        assert forall|j: int| 0 <= j < d.len() implies is_digit(d[j]) by {
            assert(d[j] == s@[dlo + j]);
        }
        assert(d.len() > 0);
    }
    Some(acc as u32)
}

} // verus!
