//! Parsing of duration strings like `30s`, `14d` or `+2h`: a decimal count
//! followed by a one-byte unit, turned into seconds. The number may carry a
//! leading `+`, must be all digits otherwise, and the result must fit in a
//! `u64`; anything else, including a count-times-unit product too large for
//! `u64`, is rejected.

use vstd::prelude::*;

use crate::genpass::is_digit_byte;
use vstd::arithmetic::div_mod::lemma_fundamental_div_mod;
use vstd::slice::slice_index_get;

verus! {

/// Seconds per unit byte: `s`, `m`, `h`, `d`, `w`, `M` (30 days), `y` (365
/// days); anything else is no unit.
pub open spec fn unit_seconds(unit: u8) -> Option<u64> {
    if unit == 0x73 {
        Some(1u64)
    } else if unit == 0x6d {
        Some(60u64)
    } else if unit == 0x68 {
        Some(3600u64)
    } else if unit == 0x64 {
        Some(86400u64)
    } else if unit == 0x77 {
        Some(604800u64)
    } else if unit == 0x4d {
        Some(2592000u64)
    } else if unit == 0x79 {
        Some(31536000u64)
    } else {
        None
    }
}

/// The value of a digit string read in base ten.
pub open spec fn digits_value(s: Seq<u8>) -> int
    decreases s.len(),
{
    if s.len() == 0 {
        0
    } else {
        digits_value(s.drop_last()) * 10 + (s.last() - 0x30)
    }
}

/// Every byte is a decimal digit.
pub open spec fn all_digits(s: Seq<u8>) -> bool {
    forall|i: int| 0 <= i < s.len() ==> is_digit_byte(#[trigger] s[i])
}

/// The digit part of a count: the count with one leading `+` stripped.
pub open spec fn number_part(s: Seq<u8>) -> Seq<u8> {
    if s.len() > 0 && s[0] == 0x2b {
        s.skip(1)
    } else {
        s
    }
}

/// The exact outcome of parsing a duration: the seconds it denotes, or the
/// message naming what was wrong with it.
pub open spec fn spec_parse_duration(s: Seq<u8>) -> Result<u64, Seq<char>> {
    if s.len() < 2 {
        Err("Invalid duration"@)
    } else {
        match unit_seconds(s.last()) {
            None => Err("Invalid duration unit"@),
            Some(mul) => {
                let num = number_part(s.take(s.len() - 1));
                if num.len() == 0 || !all_digits(num) || digits_value(num) > u64::MAX
                    || digits_value(num) * mul > u64::MAX {
                    Err("Invalid duration"@)
                } else {
                    Ok((digits_value(num) * mul) as u64)
                }
            },
        }
    }
}

/// A digit string's value is never negative.
proof fn lemma_digits_value_nonneg(s: Seq<u8>)
    requires
        all_digits(s),
    ensures
        digits_value(s) >= 0,
    decreases s.len(),
{
    if s.len() > 0 {
        assert(all_digits(s.drop_last()));
        lemma_digits_value_nonneg(s.drop_last());
    }
}

/// A digit string is worth at least any of its prefixes.
proof fn lemma_digits_value_prefix(s: Seq<u8>, k: int)
    requires
        all_digits(s),
        0 <= k <= s.len(),
    ensures
        digits_value(s.take(k)) <= digits_value(s),
    decreases s.len() - k,
{
    if k == s.len() {
        assert(s.take(k) =~= s);
    } else {
        assert(s.take(k + 1).drop_last() =~= s.take(k));
        assert(all_digits(s.take(k)));
        lemma_digits_value_nonneg(s.take(k));
        assert(digits_value(s.take(k + 1)) == digits_value(s.take(k)) * 10 + (s[k] - 0x30));
        lemma_digits_value_prefix(s, k + 1);
    }
}

/// Above the divisor's last full multiple, a product exceeds that multiple
/// plus any remainder smaller than the divisor.
proof fn lemma_mul_above(a: int, q: int, m: int, r: int)
    by (nonlinear_arith)
    requires
        a > q,
        m > 0,
        0 <= r < m,
    ensures
        a * m > q * m + r,
{
}

/// At or under the divisor's last full multiple, a product stays at or under
/// that multiple plus any non-negative remainder.
proof fn lemma_mul_at_most(a: int, q: int, m: int, r: int)
    by (nonlinear_arith)
    requires
        a <= q,
        m > 0,
        0 <= r,
    ensures
        a * m <= q * m + r,
{
}

/// Parse a duration of the form `<decimal count><unit byte>` into seconds.
pub fn parse_duration(s: &[u8]) -> (r: Result<u64, &'static str>)
    ensures
        match r {
            Ok(v) => spec_parse_duration(s@) == Ok::<u64, Seq<char>>(v),
            Err(m) => spec_parse_duration(s@) == Err::<u64, Seq<char>>(m@),
        },
{
    let n = s.len();
    if n < 2 {
        return Err("Invalid duration");
    }
    let unit = *slice_index_get(s, n - 1);
    let mul: u64 = if unit == 0x73 {
        1
    } else if unit == 0x6d {
        60
    } else if unit == 0x68 {
        3600
    } else if unit == 0x64 {
        86400
    } else if unit == 0x77 {
        604800
    } else if unit == 0x4d {
        2592000
    } else if unit == 0x79 {
        31536000
    } else {
        return Err("Invalid duration unit");
    };
    let ghost whole = s@.take(n - 1);
    let ghost num = number_part(whole);
    let start: usize = if *slice_index_get(s, 0) == 0x2b {
        1
    } else {
        0
    };
    let end = n - 1;
    proof {
        assert(num.len() == end - start);
        assert(forall|j: int| 0 <= j < num.len() ==> num[j] == s@[start + j]);
    }
    if start >= end {
        assert(num.len() == 0);
        return Err("Invalid duration");
    }
    let mut acc: u64 = 0;
    let mut i = start;
    while i < end
        invariant
            start <= i <= end,
            s@.len() >= 2,
            end == s@.len() - 1,
            end < s@.len(),
            unit_seconds(s@.last()) == Some(mul),
            num == number_part(s@.take(s@.len() - 1)),
            num.len() == end - start,
            num.len() > 0,
            forall|j: int| 0 <= j < num.len() ==> num[j] == s@[start + j],
            all_digits(num.take(i - start)),
            acc == digits_value(num.take(i - start)),
        decreases end - i,
    {
        let b = *slice_index_get(s, i);
        if b < 0x30 || b > 0x39 {
            assert(num[i - start] == b);
            assert(!all_digits(num));
            return Err("Invalid duration");
        }
        let d = (b - 0x30) as u64;
        proof {
            assert(num.take(i - start + 1).drop_last() =~= num.take(i - start));
            assert(digits_value(num.take(i - start + 1)) == acc * 10 + d);
        }
        if acc > (u64::MAX - d) / 10 {
            proof {
                lemma_fundamental_div_mod((u64::MAX - d) as int, 10);
                assert(acc * 10 + d > u64::MAX);
                assert(all_digits(num) ==> digits_value(num) > u64::MAX) by {
                    if all_digits(num) {
                        lemma_digits_value_prefix(num, i - start + 1);
                    }
                }
            }
            return Err("Invalid duration");
        }
        proof {
            lemma_fundamental_div_mod((u64::MAX - d) as int, 10);
            assert(acc * 10 + d <= u64::MAX);
        }
        acc = acc * 10 + d;
        i = i + 1;
    }
    proof {
        assert(num.take(i - start) =~= num);
    }
    if acc > u64::MAX / mul {
        proof {
            lemma_fundamental_div_mod(u64::MAX as int, mul as int);
            lemma_mul_above(
                acc as int,
                u64::MAX as int / mul as int,
                mul as int,
                u64::MAX as int % mul as int,
            );
            assert(acc * mul > u64::MAX);
        }
        return Err("Invalid duration");
    }
    proof {
        lemma_fundamental_div_mod(u64::MAX as int, mul as int);
        lemma_mul_at_most(
            acc as int,
            u64::MAX as int / mul as int,
            mul as int,
            u64::MAX as int % mul as int,
        );
        assert(acc * mul <= u64::MAX);
    }
    Ok(acc * mul)
}

} // verus!
