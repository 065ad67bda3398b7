//! Integers written in decimal, read as std's `from_str` of the integer types reads
//! them.
use crate::text::chars_of;
use vstd::prelude::*;

verus! {

/// The value of a string of decimal digits.
pub open spec fn decimal_value(d: Seq<char>) -> int
    decreases d.len(),
{
    if d.len() == 0 {
        0
    } else {
        decimal_value(d.drop_last()) * 10 + (d.last() as int - '0' as int)
    }
}

/// Every character is an ASCII decimal digit.
pub open spec fn all_digits(d: Seq<char>) -> bool {
    forall|i: int| 0 <= i < d.len() ==> '0' <= #[trigger] d[i] && d[i] <= '9'
}

/// The `u32` that a string denotes as std's `u32::from_str` reads it: an optional `+`,
/// then one or more decimal digits, of a value that fits in 32 bits.
pub open spec fn spec_parse_u32(s: Seq<char>) -> Option<u32> {
    let d = if s.len() > 0 && s[0] == '+' {
        s.drop_first()
    } else {
        s
    };
    if d.len() == 0 || !all_digits(d) || decimal_value(d) > u32::MAX {
        None
    } else {
        Some(decimal_value(d) as u32)
    }
}

proof fn lemma_decimal_value_nonneg(d: Seq<char>)
    requires
        all_digits(d),
    ensures
        decimal_value(d) >= 0,
    decreases d.len(),
{
    if d.len() > 0 {
        lemma_decimal_value_nonneg(d.drop_last());
    }
}

proof fn lemma_decimal_value_grows(d: Seq<char>, k: int)
    requires
        all_digits(d),
        0 <= k <= d.len(),
    ensures
        decimal_value(d.take(k)) <= decimal_value(d),
    decreases d.len(),
{
    if k == d.len() {
        assert(d.take(k) =~= d);
    } else {
        let e = d.drop_last();
        assert(all_digits(e)) by {
            assert forall|i: int| 0 <= i < e.len() implies '0' <= #[trigger] e[i] && e[i] <= '9' by {
                assert(e[i] == d[i]);
            }
        }
        lemma_decimal_value_grows(e, k);
        lemma_decimal_value_nonneg(e);
        assert(e.take(k) =~= d.take(k));
        assert('0' <= d[d.len() - 1]);
    }
}

/// Reads a `u32` from its decimal text.
pub fn parse_u32(s: &str) -> (r: Option<u32>)
    ensures
        r == spec_parse_u32(s@),
{
    let chars = chars_of(s);
    parse_u32_chars(&chars)
}

/// Reads a `u32` from the characters of its decimal text.
pub(crate) fn parse_u32_chars(chars: &Vec<char>) -> (r: Option<u32>)
    ensures
        r == spec_parse_u32(chars@),
{
    let ghost sv = chars@;
    assert(chars@ == sv);
    let start: usize = if chars.len() > 0 && chars[0] == '+' {
        1
    } else {
        0
    };
    let ghost d = if sv.len() > 0 && sv[0] == '+' {
        sv.drop_first()
    } else {
        sv
    };
    assert(d =~= sv.skip(start as int));
    if start >= chars.len() {
        return None;
    }
    let mut value: u64 = 0;
    let mut i: usize = start;
    while i < chars.len()
        invariant
            start <= i <= chars@.len(),
            chars@ == sv,
            d == sv.skip(start as int),
            d == (if sv.len() > 0 && sv[0] == '+' {
                sv.drop_first()
            } else {
                sv
            }),
            d.len() > 0,
            all_digits(sv.subrange(start as int, i as int)),
            value == decimal_value(sv.subrange(start as int, i as int)),
            value <= u32::MAX,
        decreases chars.len() - i,
    {
        let c = chars[i];
        assert(sv.subrange(start as int, i + 1).drop_last() =~= sv.subrange(start as int, i as int));
        assert(sv.subrange(start as int, i + 1).last() == c);
        if c < '0' || c > '9' {
            assert(!all_digits(d)) by {
                assert(d[i - start] == c);
            }
            return None;
        }
        let digit = (c as u32 - '0' as u32) as u64;
        let next = value * 10 + digit;
        assert(all_digits(sv.subrange(start as int, i + 1))) by {
            assert forall|j: int| 0 <= j < i + 1 - start implies '0' <= #[trigger] sv.subrange(
                start as int,
                i + 1,
            )[j] && sv.subrange(start as int, i + 1)[j] <= '9' by {
                if j < i - start {
                    assert(sv.subrange(start as int, i + 1)[j] == sv.subrange(start as int, i as int)[j]);
                }
            }
        }
        if next > 0xFFFF_FFFFu64 {
            proof {
                if all_digits(d) {
                    assert(d.take(i + 1 - start) =~= sv.subrange(start as int, i + 1));
                    lemma_decimal_value_grows(d, i + 1 - start);
                }
            }
            return None;
        }
        value = next;
        i = i + 1;
    }
    assert(sv.subrange(start as int, chars.len() as int) =~= d);
    Some(value as u32)
}

/// The `i32` that a string denotes as std's `i32::from_str` reads it: an optional `+`
/// or `-` followed by one or more decimal digits, of a value that fits in 32 bits.
pub open spec fn spec_parse_i32(s: Seq<char>) -> Option<i32> {
    if s.len() == 0 {
        None
    } else {
        let signed = s[0] == '+' || s[0] == '-';
        let d = if signed {
            s.drop_first()
        } else {
            s
        };
        let v = if s[0] == '-' {
            -decimal_value(d)
        } else {
            decimal_value(d)
        };
        if d.len() == 0 || !all_digits(d) || v < i32::MIN || v > i32::MAX {
            None
        } else {
            Some(v as i32)
        }
    }
}

/// Reads an `i32` from the characters of its decimal text.
pub(crate) fn parse_i32_chars(chars: &Vec<char>) -> (r: Option<i32>)
    ensures
        r == spec_parse_i32(chars@),
{
    let ghost sv = chars@;
    if chars.len() == 0 {
        return None;
    }
    let negative = chars[0] == '-';
    let start: usize = if chars[0] == '+' || chars[0] == '-' {
        1
    } else {
        0
    };
    let ghost d = if sv[0] == '+' || sv[0] == '-' {
        sv.drop_first()
    } else {
        sv
    };
    assert(d =~= sv.skip(start as int));
    if start >= chars.len() {
        return None;
    }
    let mut mag: u64 = 0;
    let mut i: usize = start;
    while i < chars.len()
        invariant
            start <= i <= chars@.len(),
            chars@ == sv,
            sv.len() > 0,
            d == sv.skip(start as int),
            d == (if sv[0] == '+' || sv[0] == '-' {
                sv.drop_first()
            } else {
                sv
            }),
            d.len() > 0,
            all_digits(sv.subrange(start as int, i as int)),
            mag == decimal_value(sv.subrange(start as int, i as int)),
            mag <= 0x8000_0000,
        decreases chars.len() - i,
    {
        let c = chars[i];
        assert(sv.subrange(start as int, i + 1).drop_last() =~= sv.subrange(start as int, i as int));
        assert(sv.subrange(start as int, i + 1).last() == c);
        if c < '0' || c > '9' {
            assert(!all_digits(d)) by {
                assert(d[i - start] == c);
            }
            return None;
        }
        let digit = (c as u32 - '0' as u32) as u64;
        let next = mag * 10 + digit;
        assert(all_digits(sv.subrange(start as int, i + 1))) by {
            assert forall|j: int| 0 <= j < i + 1 - start implies '0' <= #[trigger] sv.subrange(
                start as int,
                i + 1,
            )[j] && sv.subrange(start as int, i + 1)[j] <= '9' by {
                if j < i - start {
                    assert(sv.subrange(start as int, i + 1)[j] == sv.subrange(start as int, i as int)[j]);
                }
            }
        }
        if next > 0x8000_0000u64 {
            proof {
                if all_digits(d) {
                    assert(d.take(i + 1 - start) =~= sv.subrange(start as int, i + 1));
                    lemma_decimal_value_grows(d, i + 1 - start);
                }
            }
            return None;
        }
        mag = next;
        i = i + 1;
    }
    assert(sv.subrange(start as int, chars.len() as int) =~= d);
    if negative {
        if mag == 0x8000_0000u64 {
            Some(-2147483647i32 - 1)
        } else {
            Some(-(mag as i32))
        }
    } else {
        if mag > 0x7FFF_FFFFu64 {
            None
        } else {
            Some(mag as i32)
        }
    }
}

} // verus!
