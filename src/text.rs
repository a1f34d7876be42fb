use vstd::prelude::*;

verus! {

/// The lowercase hexadecimal digit for `d < 16`.
pub open spec fn hex_digit(d: nat) -> char {
    if d < 10 {
        (('0' as nat) + d) as char
    } else {
        (('a' as nat) + d - 10) as char
    }
}

/// The decimal digit for `d < 10`.
pub open spec fn dec_digit(d: nat) -> char {
    (('0' as nat) + d) as char
}

/// `v` in lowercase hexadecimal, without leading zeros (`"0"` for zero).
pub open spec fn hex_min(v: nat) -> Seq<char>
    decreases v,
{
    if v < 16 {
        seq![hex_digit(v)]
    } else {
        hex_min(v / 16).push(hex_digit(v % 16))
    }
}

/// `v` in decimal, without leading zeros (`"0"` for zero).
pub open spec fn dec_min(v: nat) -> Seq<char>
    decreases v,
{
    if v < 10 {
        seq![dec_digit(v)]
    } else {
        dec_min(v / 10).push(dec_digit(v % 10))
    }
}

/// `s` preceded by as many `c` as bring it to `width` characters.
pub open spec fn pad_left(s: Seq<char>, c: char, width: nat) -> Seq<char> {
    if s.len() >= width {
        s
    } else {
        Seq::new((width - s.len()) as nat, |i: int| c) + s
    }
}

/// `v` in lowercase hexadecimal, zero-padded to `width` digits.
pub open spec fn hex_text(v: nat, width: nat) -> Seq<char> {
    pad_left(hex_min(v), '0', width)
}

/// `v` in decimal, right-aligned with spaces in `width` characters.
pub open spec fn dec_text(v: nat, width: nat) -> Seq<char> {
    pad_left(dec_min(v), ' ', width)
}

/// Relies on std's `format!` with `{:0width$x}`: lowercase hexadecimal
/// digits of `v`, padded with leading zeros to `width`. std panics on a
/// runtime width above 65535, so such widths are excluded.
#[verifier::external_body]
pub(crate) fn hex_string(v: u64, width: usize) -> (r: String)
    requires
        width <= 65535,
    ensures
        r@ == hex_text(v as nat, width as nat),
{
    format!("{:0width$x}", v, width = width)
}

/// Relies on std's `format!` with `{:width$}`: decimal digits of `v`,
/// right-aligned with spaces in `width` characters. std panics on a
/// runtime width above 65535, so such widths are excluded.
#[verifier::external_body]
pub(crate) fn dec_string(v: u64, width: usize) -> (r: String)
    requires
        width <= 65535,
    ensures
        r@ == dec_text(v as nat, width as nat),
{
    format!("{:width$}", v, width = width)
}

} // verus!
