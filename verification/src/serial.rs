//! Byte-level console transforms.
//!
//! The console drivers poll hardware FIFOs; what they put on or take off
//! the wire is computed here. Received carriage returns become newlines,
//! sent newlines grow a leading carriage return, and 32-bit values are
//! spelled as eight hexadecimal ASCII digits.

use vstd::prelude::*;

verus! {

/// A received byte after line-ending normalization: a carriage return
/// reads as a newline, everything else is itself.
pub fn normalize_received(b: u8) -> (r: u8)
    ensures
        b == 0x0d ==> r == 0x0a,
        b != 0x0d ==> r == b,
{
    if b == 0x0d {
        0x0a
    } else {
        b
    }
}

/// The ASCII digit for one tetrad: `0`-`9` for values below ten, `A`-`F`
/// above.
pub open spec fn hex_digit_spec(n: u32) -> u8 {
    if n > 9 {
        (n + 0x37) as u8
    } else {
        (n + 0x30) as u8
    }
}

/// The eight ASCII digits of `d` in hexadecimal, most significant tetrad
/// first.
pub fn hex_digits(d: u32) -> (out: Vec<u8>)
    ensures
        out@.len() == 8,
        forall|i: int|
            0 <= i < 8 ==> out@[i] == hex_digit_spec((d >> ((28 - 4 * i) as u32)) & 0xF),
{
    let mut out: Vec<u8> = Vec::new();
    let mut i: u32 = 0;
    while i < 8
        invariant
            i <= 8,
            out@.len() == i,
            forall|j: int|
                0 <= j < i ==> out@[j] == hex_digit_spec((d >> ((28 - 4 * j) as u32)) & 0xF),
        decreases 8 - i,
    {
        let sh: u32 = 28 - 4 * i;
        let n: u32 = (d >> sh) & 0xF;
        proof {
            assert((d >> sh) & 0xF <= 0xF) by (bit_vector);
        }
        let c: u8 = if n > 9 {
            (n + 0x37) as u8
        } else {
            (n + 0x30) as u8
        };
        out.push(c);
        i += 1;
    }
    out
}

/// A text as the console sends it: every newline preceded by a carriage
/// return, every other byte as it is.
pub open spec fn crlf_spec(s: Seq<u8>) -> Seq<u8>
    decreases s.len(),
{
    if s.len() == 0 {
        Seq::empty()
    } else {
        crlf_spec(s.drop_last()) + (if s.last() == 0x0a {
            seq![0x0du8, 0x0au8]
        } else {
            seq![s.last()]
        })
    }
}

/// Encodes a text for the console line discipline, exactly as
/// [`crlf_spec`] lays it out.
pub fn crlf_encode(s: &Vec<u8>) -> (out: Vec<u8>)
    ensures
        out@ == crlf_spec(s@),
{
    let mut out: Vec<u8> = Vec::new();
    let mut i: usize = 0;
    while i < s.len()
        invariant
            i <= s@.len(),
            out@ == crlf_spec(s@.take(i as int)),
        decreases s@.len() - i,
    {
        let b: u8 = s[i];
        if b == 0x0a {
            out.push(0x0d);
        }
        out.push(b);
        proof {
            let t = s@.take((i + 1) as int);
            assert(t.drop_last() =~= s@.take(i as int));
            assert(t.last() == s@[i as int]);
            if s@[i as int] == 0x0a {
                assert(out@ =~= crlf_spec(s@.take(i as int)) + seq![0x0du8, 0x0au8]);
            } else {
                assert(out@ =~= crlf_spec(s@.take(i as int)) + seq![s@[i as int]]);
            }
        }
        i += 1;
    }
    proof {
        assert(s@.take(s@.len() as int) =~= s@);
    }
    out
}

} // verus!
