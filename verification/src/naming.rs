//! Token names.
//!
//! Every minted record is named `"NFT #"` followed by its index written in
//! base 10 with no leading zeros. The spec functions here say what that
//! string is, character by character, and the executable functions are
//! proved to produce exactly it.

use vstd::prelude::*;
use vstd::string::StringExecFns;

verus! {

/// The character for a single decimal digit `d < 10`.
pub open spec fn digit_char(d: nat) -> char
    recommends
        d < 10,
{
    if d == 0 {
        '0'
    } else if d == 1 {
        '1'
    } else if d == 2 {
        '2'
    } else if d == 3 {
        '3'
    } else if d == 4 {
        '4'
    } else if d == 5 {
        '5'
    } else if d == 6 {
        '6'
    } else if d == 7 {
        '7'
    } else if d == 8 {
        '8'
    } else {
        '9'
    }
}

/// The base-10 representation of `n`: most significant digit first, no
/// leading zeros (`0` is written as the single character `'0'`).
pub open spec fn dec_digits(n: nat) -> Seq<char>
    decreases n,
{
    if n < 10 {
        seq![digit_char(n)]
    } else {
        dec_digits(n / 10) + seq![digit_char(n % 10)]
    }
}

/// The name of the record minted at `index`: `"NFT #"` followed by the
/// index in decimal.
pub open spec fn nft_name(index: u64) -> Seq<char> {
    "NFT #"@ + dec_digits(index as nat)
}

/// The one-character string for a decimal digit `d < 10`.
fn digit_str(d: u64) -> (s: &'static str)
    requires
        d < 10,
    ensures
        s@ == seq![digit_char(d as nat)],
{
    proof {
        reveal_strlit("0");
        reveal_strlit("1");
        reveal_strlit("2");
        reveal_strlit("3");
        reveal_strlit("4");
        reveal_strlit("5");
        reveal_strlit("6");
        reveal_strlit("7");
        reveal_strlit("8");
        reveal_strlit("9");
    }
    if d == 0 {
        "0"
    } else if d == 1 {
        "1"
    } else if d == 2 {
        "2"
    } else if d == 3 {
        "3"
    } else if d == 4 {
        "4"
    } else if d == 5 {
        "5"
    } else if d == 6 {
        "6"
    } else if d == 7 {
        "7"
    } else if d == 8 {
        "8"
    } else {
        "9"
    }
}

/// Appends the base-10 representation of `n` to `s`.
fn push_decimal(s: &mut String, n: u64)
    ensures
        final(s)@ == old(s)@ + dec_digits(n as nat),
    decreases n,
{
    if n >= 10 {
        push_decimal(s, n / 10);
    }
    let digit = digit_str(n % 10);
    s.append(digit);
    proof {
        assert(s@ =~= old(s)@ + dec_digits(n as nat));
    }
}

/// Builds the name of the record minted at `index`.
pub fn make_nft_name(index: u64) -> (name: String)
    ensures
        name@ == nft_name(index),
{
    let mut name = "NFT #".to_owned();
    push_decimal(&mut name, index);
    name
}

} // verus!
