//! Decimal formatting of counters for the footer label.

use vstd::prelude::*;
use vstd::string::StringExecFns;

verus! {

/// The decimal digit character for a value in `[0, 10)`.
pub open spec fn dec_char(d: int) -> char {
    if d == 0 { '0' }
    else if d == 1 { '1' }
    else if d == 2 { '2' }
    else if d == 3 { '3' }
    else if d == 4 { '4' }
    else if d == 5 { '5' }
    else if d == 6 { '6' }
    else if d == 7 { '7' }
    else if d == 8 { '8' }
    else { '9' }
}

/// The usual decimal digit string of `n`, most significant digit first,
/// with no leading zeros (a single `'0'` for zero).
pub open spec fn dec_digits(n: int) -> Seq<char>
    decreases n,
{
    if n < 10 {
        seq![dec_char(n)]
    } else {
        dec_digits(n / 10).push(dec_char(n % 10))
    }
}

/// The one-character string of the decimal digit for `d`.
fn dec_digit_str(d: u64) -> (r: &'static str)
    requires
        d < 10,
    ensures
        r@ == seq![dec_char(d as int)],
{
    if d == 0 {
        proof { reveal_strlit("0"); assert("0"@ =~= seq![dec_char(0int)]); }
        "0"
    } else if d == 1 {
        proof { reveal_strlit("1"); assert("1"@ =~= seq![dec_char(1int)]); }
        "1"
    } else if d == 2 {
        proof { reveal_strlit("2"); assert("2"@ =~= seq![dec_char(2int)]); }
        "2"
    } else if d == 3 {
        proof { reveal_strlit("3"); assert("3"@ =~= seq![dec_char(3int)]); }
        "3"
    } else if d == 4 {
        proof { reveal_strlit("4"); assert("4"@ =~= seq![dec_char(4int)]); }
        "4"
    } else if d == 5 {
        proof { reveal_strlit("5"); assert("5"@ =~= seq![dec_char(5int)]); }
        "5"
    } else if d == 6 {
        proof { reveal_strlit("6"); assert("6"@ =~= seq![dec_char(6int)]); }
        "6"
    } else if d == 7 {
        proof { reveal_strlit("7"); assert("7"@ =~= seq![dec_char(7int)]); }
        "7"
    } else if d == 8 {
        proof { reveal_strlit("8"); assert("8"@ =~= seq![dec_char(8int)]); }
        "8"
    } else {
        proof { reveal_strlit("9"); assert("9"@ =~= seq![dec_char(9int)]); }
        "9"
    }
}

/// Formats `n` in decimal.
pub fn u64_to_string(n: u64) -> (s: String)
    ensures
        s@ == dec_digits(n as int),
    decreases n,
{
    if n < 10 {
        String::from_str(dec_digit_str(n))
    } else {
        let mut s = u64_to_string(n / 10);
        s.append(dec_digit_str(n % 10));
        proof {
            assert(s@ =~= dec_digits(n as int));
        }
        s
    }
}

} // verus!
