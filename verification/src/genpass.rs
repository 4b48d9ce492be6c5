//! Generation of fresh secrets by drawing from a high-entropy character set.
//! The random bytes come from the operating system through a trusted wrapper;
//! everything done with them here is verified: each drawn byte is mapped into
//! the union of the character classes the caller enabled.

use vstd::prelude::*;

use crate::errors::CryptError;
use crate::primitives::fill_random_bytes;

verus! {

/// An upper-case letter.
pub open spec fn is_upper_byte(b: u8) -> bool {
    0x41 <= b <= 0x5a
}

/// A lower-case letter.
pub open spec fn is_lower_byte(b: u8) -> bool {
    0x61 <= b <= 0x7a
}

/// A decimal digit.
pub open spec fn is_digit_byte(b: u8) -> bool {
    0x30 <= b <= 0x39
}

/// One of the punctuation marks the generator draws from:
/// `!`, `#`, `$`, `%`, `&`, `*`, `@`, `^`, `_`.
pub open spec fn is_symbol_byte(b: u8) -> bool {
    b == 0x21 || b == 0x23 || b == 0x24 || b == 0x25 || b == 0x26 || b == 0x2a || b == 0x40 || b
        == 0x5e || b == 0x5f
}

/// Membership in the union of the enabled character classes.
pub open spec fn in_charset(b: u8, upper: bool, lower: bool, number: bool, symbol: bool) -> bool {
    (upper && is_upper_byte(b)) || (lower && is_lower_byte(b)) || (number && is_digit_byte(b)) || (
    symbol && is_symbol_byte(b))
}

/// Membership in the full character set, all four classes enabled. Generated
/// key material always draws from the full set.
pub open spec fn in_full_charset(b: u8) -> bool {
    in_charset(b, true, true, true, true)
}

/// The bytes `lo..=hi`, in order.
fn byte_range(lo: u8, hi: u8) -> (r: Vec<u8>)
    requires
        lo <= hi < 0xff,
    ensures
        r@.len() > 0,
        forall|i: int| 0 <= i < r@.len() ==> lo <= #[trigger] r@[i] <= hi,
{
    let mut v: Vec<u8> = Vec::new();
    let mut b: u8 = lo;
    while b <= hi
        invariant
            lo <= b <= hi + 1,
            hi < 0xff,
            v@.len() == b - lo,
            forall|i: int| 0 <= i < v@.len() ==> lo <= #[trigger] v@[i] <= hi,
        decreases hi + 1 - b,
    {
        v.push(b);
        b = b + 1;
    }
    v
}

/// The character set for the enabled classes, in a fixed order.
fn charset_bytes(upper: bool, lower: bool, number: bool, symbol: bool) -> (r: Vec<u8>)
    ensures
        forall|i: int|
            0 <= i < r@.len() ==> in_charset(#[trigger] r@[i], upper, lower, number, symbol),
        (upper || lower || number || symbol) ==> r@.len() > 0,
{
    let mut cs: Vec<u8> = Vec::new();
    if upper {
        let mut part = byte_range(0x41, 0x5a);
        cs.append(&mut part);
    }
    if lower {
        let mut part = byte_range(0x61, 0x7a);
        cs.append(&mut part);
    }
    if number {
        let mut part = byte_range(0x30, 0x39);
        cs.append(&mut part);
    }
    if symbol {
        cs.push(0x21);
        cs.push(0x23);
        cs.push(0x24);
        cs.push(0x25);
        cs.push(0x26);
        cs.push(0x2a);
        cs.push(0x40);
        cs.push(0x5e);
        cs.push(0x5f);
    }
    cs
}

/// Draw `length` bytes from the union of the enabled character classes,
/// using the operating system's random source. The only failure is that
/// source failing, reported as `IOFailure`.
pub fn process_genpass(length: usize, upper: bool, lower: bool, number: bool, symbol: bool) -> (r:
    Result<Vec<u8>, CryptError>)
    requires
        upper || lower || number || symbol,
    ensures
        r matches Ok(v) ==> v@.len() == length && forall|i: int|
            0 <= i < v@.len() ==> in_charset(#[trigger] v@[i], upper, lower, number, symbol),
        r matches Err(e) ==> e == CryptError::IOFailure,
{
    let cs = charset_bytes(upper, lower, number, symbol);
    let rnd = match fill_random_bytes(length) {
        Some(v) => v,
        None => {
            return Err(CryptError::IOFailure);
        },
    };
    let mut out: Vec<u8> = Vec::new();
    let mut i: usize = 0;
    while i < length
        invariant
            i <= length,
            rnd@.len() == length,
            out@.len() == i,
            cs@.len() > 0,
            forall|j: int| 0 <= j < cs@.len() ==> in_charset(cs@[j], upper, lower, number, symbol),
            forall|j: int|
                0 <= j < out@.len() ==> in_charset(#[trigger] out@[j], upper, lower, number, symbol),
        decreases length - i,
    {
        let b = rnd[i];
        let idx = (b as usize) % cs.len();
        out.push(cs[idx]);
        i = i + 1;
    }
    Ok(out)
}

} // verus!
