//! Decimal rendering of numbers for display strings.

use vstd::prelude::*;

verus! {

/// The character of one decimal digit.
pub open spec fn spec_digit(d: int) -> char {
    if d == 0 {
        '0'
    } else if d == 1 {
        '1'
    } else if d == 2 {
        '2'
    } else if d == 3 {
        '3'
    } else if d == 4 {
        '4'
    } else if d == 5 {
        '5'
    } else if d == 6 {
        '6'
    } else if d == 7 {
        '7'
    } else if d == 8 {
        '8'
    } else {
        '9'
    }
}

/// The decimal digit string of a number, most significant digit first,
/// without leading zeros (a single '0' for zero).
pub open spec fn spec_decimal(n: nat) -> Seq<char>
    decreases n,
{
    if n < 10 {
        seq![spec_digit(n as int)]
    } else {
        spec_decimal(n / 10) + seq![spec_digit((n % 10) as int)]
    }
}

/// A decimal string left-padded with zeros to a minimum width.
pub open spec fn spec_padded_decimal(n: nat, width: nat) -> Seq<char> {
    let s = spec_decimal(n);
    if s.len() >= width {
        s
    } else {
        Seq::new((width - s.len()) as nat, |i: int| '0') + s
    }
}

/// One decimal digit as a string slice.
fn digit_str(d: u64) -> (r: &'static str)
    requires
        d < 10,
    ensures
        r@ =~= seq![spec_digit(d as int)],
{
    proof {
        reveal_strlit("0");
        reveal_strlit("1");
        reveal_strlit("2");
        reveal_strlit("3");
        reveal_strlit("4");
        reveal_strlit("5");
        reveal_strlit("6");
        reveal_strlit("7");
        reveal_strlit("8");
        reveal_strlit("9");
    }
    match d {
        0 => "0",
        1 => "1",
        2 => "2",
        3 => "3",
        4 => "4",
        5 => "5",
        6 => "6",
        7 => "7",
        8 => "8",
        _ => "9",
    }
}

/// Render a number in decimal.
pub fn u64_to_string(n: u64) -> (s: String)
    ensures
        s@ == spec_decimal(n as nat),
    decreases n,
{
    if n < 10 {
        String::from_str(digit_str(n))
    } else {
        let prefix = u64_to_string(n / 10);
        prefix.concat(digit_str(n % 10))
    }
}

/// Render a number in decimal, zero-padded to at least `width` digits.
pub fn u64_to_padded_string(n: u64, width: usize) -> (s: String)
    requires
        width <= 8,
    ensures
        s@ == spec_padded_decimal(n as nat, width as nat),
{
    let digits = u64_to_string(n);
    let mut pad: String = String::new();
    let mut k: usize = digits.as_str().unicode_len();
    proof {
        assert(pad@ =~= Seq::new(0nat, |i: int| '0'));
        reveal_strlit("0");
    }
    while k < width
        invariant
            width <= 8,
            digits@.len() <= k,
            k <= width || k == digits@.len(),
            pad@ =~= Seq::new((k - digits@.len()) as nat, |i: int| '0'),
            digits@ == spec_decimal(n as nat),
        decreases width - k,
    {
        pad.append("0");
        proof {
            reveal_strlit("0");
            assert(pad@ =~= Seq::new((k + 1 - digits@.len()) as nat, |i: int| '0'));
        }
        k += 1;
    }
    let s = pad.concat(digits.as_str());
    proof {
        if digits@.len() >= width {
            assert(s@ =~= spec_padded_decimal(n as nat, width as nat));
        } else {
            assert(s@ =~= spec_padded_decimal(n as nat, width as nat));
        }
    }
    s
}

} // verus!
