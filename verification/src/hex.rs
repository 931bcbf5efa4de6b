//! Zero-padded lowercase hexadecimal rendering of 8-bit and 16-bit fields,
//! as the debug snapshot and the disassembler require.

use vstd::prelude::*;
use vstd::string::StringExecFns;

verus! {

/// The single lowercase hexadecimal digit for a value below sixteen.
pub open spec fn spec_hex_digit(n: int) -> Seq<char> {
    if n == 0 {
        "0"@
    } else if n == 1 {
        "1"@
    } else if n == 2 {
        "2"@
    } else if n == 3 {
        "3"@
    } else if n == 4 {
        "4"@
    } else if n == 5 {
        "5"@
    } else if n == 6 {
        "6"@
    } else if n == 7 {
        "7"@
    } else if n == 8 {
        "8"@
    } else if n == 9 {
        "9"@
    } else if n == 10 {
        "a"@
    } else if n == 11 {
        "b"@
    } else if n == 12 {
        "c"@
    } else if n == 13 {
        "d"@
    } else if n == 14 {
        "e"@
    } else {
        "f"@
    }
}

fn hex_digit_str(n: u8) -> (r: &'static str)
    requires
        n < 16,
    ensures
        r@ == spec_hex_digit(n as int),
{
    if n == 0 {
        "0"
    } else if n == 1 {
        "1"
    } else if n == 2 {
        "2"
    } else if n == 3 {
        "3"
    } else if n == 4 {
        "4"
    } else if n == 5 {
        "5"
    } else if n == 6 {
        "6"
    } else if n == 7 {
        "7"
    } else if n == 8 {
        "8"
    } else if n == 9 {
        "9"
    } else if n == 10 {
        "a"
    } else if n == 11 {
        "b"
    } else if n == 12 {
        "c"
    } else if n == 13 {
        "d"
    } else if n == 14 {
        "e"
    } else {
        "f"
    }
}

/// An 8-bit value as exactly two lowercase hexadecimal digits.
pub open spec fn spec_hex2(v: u8) -> Seq<char> {
    spec_hex_digit(v as int / 16) + spec_hex_digit(v as int % 16)
}

/// Renders a byte as two zero-padded lowercase hexadecimal digits.
pub fn format(hex: u8) -> (r: String)
    ensures
        r@ == spec_hex2(hex),
{
    let hi = hex_digit_str(hex / 16);
    let lo = hex_digit_str(hex % 16);
    hi.to_owned().concat(lo)
}

/// The digits of a value in base sixteen, most significant first, with no
/// leading zeros beyond the single digit of a value below sixteen.
pub open spec fn spec_hex_seq(v: int) -> Seq<char>
    decreases v,
{
    if v < 16 {
        spec_hex_digit(v)
    } else {
        spec_hex_seq(v / 16) + spec_hex_digit(v % 16)
    }
}

fn hex_seq(v: usize) -> (r: String)
    ensures
        r@ == spec_hex_seq(v as int),
    decreases v,
{
    if v < 16 {
        hex_digit_str(v as u8).to_owned()
    } else {
        let rest = hex_seq(v / 16);
        rest.concat(hex_digit_str((v % 16) as u8))
    }
}

/// A 16-bit-sized value as at least four lowercase hexadecimal digits,
/// zero-padded on the left; a larger value keeps all of its digits.
pub open spec fn spec_hex4(v: int) -> Seq<char> {
    if v < 16 {
        "000"@ + spec_hex_seq(v)
    } else if v < 256 {
        "00"@ + spec_hex_seq(v)
    } else if v < 4096 {
        "0"@ + spec_hex_seq(v)
    } else {
        spec_hex_seq(v)
    }
}

/// Renders an address-sized value as four-digit (or wider) zero-padded
/// lowercase hexadecimal.
pub fn format_usize(hex: usize) -> (r: String)
    ensures
        r@ == spec_hex4(hex as int),
{
    let digits = hex_seq(hex);
    if hex < 16 {
        "000".to_owned().concat(digits.as_str())
    } else if hex < 256 {
        "00".to_owned().concat(digits.as_str())
    } else if hex < 4096 {
        "0".to_owned().concat(digits.as_str())
    } else {
        digits
    }
}

} // verus!
