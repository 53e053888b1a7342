//! Lowercase hexadecimal rendering of byte strings, used for the textual
//! form of the machine identifier.

use vstd::prelude::*;

verus! {

/// The lowercase hexadecimal digit for a value in `0 .. 16`.
pub open spec fn lower_hex_char(n: int) -> char
    recommends
        0 <= n < 16,
{
    if n < 10 {
        ((48 + n) as u8) as char
    } else {
        ((87 + n) as u8) as char
    }
}

/// The lowercase hexadecimal rendering of a byte string: two digits per
/// byte, high nibble first.
pub open spec fn hex_of(bytes: Seq<u8>) -> Seq<char> {
    Seq::new(
        2 * bytes.len(),
        |i: int|
            if i % 2 == 0 {
                lower_hex_char(bytes[i / 2] as int / 16)
            } else {
                lower_hex_char(bytes[i / 2] as int % 16)
            },
    )
}

/// Appends one character to a string.
///
/// Relies on `String::push`.
#[verifier::external_body]
fn push_char(s: &mut String, c: char)
    ensures
        final(s)@ == old(s)@.push(c),
{
    s.push(c);
}

/// Returns the lowercase hexadecimal digit for `n`.
fn lower_hex_digit(n: u8) -> (r: char)
    requires
        n < 16,
    ensures
        r == lower_hex_char(n as int),
{
    if n < 10 {
        (48 + n) as char
    } else {
        (87 + n) as char
    }
}

/// Renders `bytes` as lowercase hexadecimal, two digits per byte.
pub fn to_lower_hex(bytes: &Vec<u8>) -> (r: String)
    ensures
        r@ == hex_of(bytes@),
{
    let mut out = String::new();
    let mut i: usize = 0;
    while i < bytes.len()
        invariant
            i <= bytes@.len(),
            out@ =~= hex_of(bytes@.subrange(0, i as int)),
        decreases bytes@.len() - i,
    {
        let b = bytes[i];
        push_char(&mut out, lower_hex_digit(b / 16));
        push_char(&mut out, lower_hex_digit(b % 16));
        i = i + 1;
    }
    proof {
        assert(bytes@.subrange(0, bytes@.len() as int) =~= bytes@);
    }
    out
}

} // verus!
