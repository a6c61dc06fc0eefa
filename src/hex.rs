//! Upper-case hexadecimal text for bytes and 16-bit words.
use vstd::prelude::*;
use vstd::string::StringExecFns;

verus! {

/// The sixteen hexadecimal digits, in order of value.
pub open spec fn hex_digits() -> Seq<char> {
    seq!['0', '1', '2', '3', '4', '5', '6', '7', '8', '9', 'A', 'B', 'C', 'D', 'E', 'F']
}

/// The upper-case digit for a value below sixteen.
pub open spec fn hex_digit(d: int) -> char {
    hex_digits()[d]
}

/// A byte as exactly two upper-case hexadecimal digits, high digit first.
pub open spec fn hex2(v: u8) -> Seq<char> {
    seq![hex_digit(v as int / 16), hex_digit(v as int % 16)]
}

/// A word as exactly four upper-case hexadecimal digits, most significant first.
pub open spec fn hex4(v: u16) -> Seq<char> {
    seq![
        hex_digit(v as int / 4096),
        hex_digit(v as int / 256 % 16),
        hex_digit(v as int / 16 % 16),
        hex_digit(v as int % 16),
    ]
}

/// Appends the digit for `d` to `s`.
pub fn push_hex_digit(s: &mut String, d: u8)
    requires
        d < 16,
    ensures
        final(s)@ == old(s)@.push(hex_digit(d as int)),
{
    let digits = "0123456789ABCDEF";
    proof {
        reveal_strlit("0123456789ABCDEF");
    }
    assert(digits@ == hex_digits());
    assert(digits.is_ascii());
    let one = digits.substring_ascii(d as usize, d as usize + 1);
    s.append(one);
    assert(one@ == seq![hex_digit(d as int)]);
}

/// Appends the two digits of `v` to `s`.
pub fn push_hex2(s: &mut String, v: u8)
    ensures
        final(s)@ == old(s)@ + hex2(v),
{
    push_hex_digit(s, v / 16);
    push_hex_digit(s, v % 16);
    assert(s@ =~= old(s)@ + hex2(v));
}

/// Appends the four digits of `v` to `s`.
pub fn push_hex4(s: &mut String, v: u16)
    ensures
        final(s)@ == old(s)@ + hex4(v),
{
    push_hex_digit(s, (v / 4096) as u8);
    push_hex_digit(s, ((v / 256) % 16) as u8);
    push_hex_digit(s, ((v / 16) % 16) as u8);
    push_hex_digit(s, (v % 16) as u8);
    assert(s@ =~= old(s)@ + hex4(v));
}

} // verus!
