//! Decimal rendering of the shift amount and the output-file naming
//! convention: the transformed content of `<filename>` is written to
//! `<filename>.rot<n>`.

use vstd::prelude::*;

use crate::strings::{push_char, push_str};

verus! {

/// The character for a single decimal digit (`0` gives `'0'`, ..., `9` gives
/// `'9'`).
pub open spec fn digit_char(d: nat) -> char
    recommends
        d < 10,
{
    ('0' as int + d) as char
}

/// The decimal digits of a non-negative number, most significant first, with
/// no leading zeros (except for the single digit of 0 itself).
pub open spec fn dec_digits(m: nat) -> Seq<char>
    decreases m,
{
    if m < 10 {
        seq![digit_char(m)]
    } else {
        dec_digits(m / 10).push(digit_char(m % 10))
    }
}

/// The decimal rendering of a signed number: a leading `'-'` before the digits
/// of its magnitude when it is negative, the bare digits otherwise.
pub open spec fn int_string(n: int) -> Seq<char> {
    if n < 0 {
        seq!['-'] + dec_digits((-n) as nat)
    } else {
        dec_digits(n as nat)
    }
}

/// Appends the decimal digits of `m` onto `s`, most significant first.
fn push_digits(s: &mut String, m: u64)
    ensures
        final(s)@ == old(s)@ + dec_digits(m as nat),
    decreases m,
{
    if m >= 10 {
        push_digits(s, m / 10);
    }
    let d: u8 = (m % 10) as u8;
    push_char(s, (48 + d) as char);
    assert(s@ =~= old(s)@ + dec_digits(m as nat));
}

/// Renders `n` in decimal, exactly as the shift amount appears in the output
/// file name: an optional leading minus sign, then the digits of the
/// magnitude with no leading zeros.
pub fn i32_to_string(n: i32) -> (s: String)
    ensures
        s@ == int_string(n as int),
{
    let mut s = String::new();
    if n < 0 {
        push_char(&mut s, '-');
        let m: u64 = (-(n as i64)) as u64;
        push_digits(&mut s, m);
        assert(s@ =~= int_string(n as int));
    } else {
        push_digits(&mut s, n as u64);
    }
    s
}

/// The name of the output file: the input file name, the suffix `.rot`, and
/// the decimal rendering of the shift amount.
pub open spec fn output_filename_spec(filename: Seq<char>, n: int) -> Seq<char> {
    filename + seq!['.', 'r', 'o', 't'] + int_string(n)
}

/// Builds the output file name `<filename>.rot<n>` for a run with shift `n`.
pub fn output_filename(filename: &str, n: i32) -> (r: String)
    ensures
        r@ == output_filename_spec(filename@, n as int),
{
    let mut r = String::new();
    push_str(&mut r, filename);
    push_str(&mut r, ".rot");
    proof {
        reveal_strlit(".rot");
        assert(".rot"@ =~= seq!['.', 'r', 'o', 't']);
    }
    let digits = i32_to_string(n);
    push_str(&mut r, digits.as_str());
    assert(r@ =~= output_filename_spec(filename@, n as int));
    r
}

} // verus!
