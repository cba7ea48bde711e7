//! Decimal text of an integer, and the full ordinal string.

use crate::suffix::{suffix_of_magnitude, suffix_seq};
use vstd::prelude::*;
use vstd::string::StringExecFns;

verus! {

/// The character for a single decimal digit.
pub open spec fn digit_char(d: nat) -> char {
    if d == 0 {
        '0'
    } else if d == 1 {
        '1'
    } else if d == 2 {
        '2'
    } else if d == 3 {
        '3'
    } else if d == 4 {
        '4'
    } else if d == 5 {
        '5'
    } else if d == 6 {
        '6'
    } else if d == 7 {
        '7'
    } else if d == 8 {
        '8'
    } else {
        '9'
    }
}

/// The decimal digits of a natural number, most significant first,
/// with no leading zeros except for the number 0 itself.
pub open spec fn dec_digits(n: nat) -> Seq<char>
    decreases n,
{
    if n < 10 {
        seq![digit_char(n)]
    } else {
        dec_digits(n / 10) + seq![digit_char(n % 10)]
    }
}

/// The canonical decimal text of an integer: its digits, preceded by a
/// minus sign when the integer is negative.
pub open spec fn dec_seq(v: int) -> Seq<char> {
    if v >= 0 {
        dec_digits(v as nat)
    } else {
        seq!['-'] + dec_digits((-v) as nat)
    }
}

/// The full ordinal string of an integer: its decimal text followed by
/// its ordinal suffix.
pub open spec fn ordinal_seq(v: int) -> Seq<char> {
    dec_seq(v) + suffix_seq(v)
}

/// The one-character string for a single decimal digit.
fn digit_str(d: u128) -> (r: &'static str)
    requires
        d < 10,
    ensures
        r@ == seq![digit_char(d as nat)],
{
    if d == 0 {
        proof {
            reveal_strlit("0");
            assert(("0")@ =~= seq![digit_char(0)]);
        }
        "0"
    } else if d == 1 {
        proof {
            reveal_strlit("1");
            assert(("1")@ =~= seq![digit_char(1)]);
        }
        "1"
    } else if d == 2 {
        proof {
            reveal_strlit("2");
            assert(("2")@ =~= seq![digit_char(2)]);
        }
        "2"
    } else if d == 3 {
        proof {
            reveal_strlit("3");
            assert(("3")@ =~= seq![digit_char(3)]);
        }
        "3"
    } else if d == 4 {
        proof {
            reveal_strlit("4");
            assert(("4")@ =~= seq![digit_char(4)]);
        }
        "4"
    } else if d == 5 {
        proof {
            reveal_strlit("5");
            assert(("5")@ =~= seq![digit_char(5)]);
        }
        "5"
    } else if d == 6 {
        proof {
            reveal_strlit("6");
            assert(("6")@ =~= seq![digit_char(6)]);
        }
        "6"
    } else if d == 7 {
        proof {
            reveal_strlit("7");
            assert(("7")@ =~= seq![digit_char(7)]);
        }
        "7"
    } else if d == 8 {
        proof {
            reveal_strlit("8");
            assert(("8")@ =~= seq![digit_char(8)]);
        }
        "8"
    } else {
        proof {
            reveal_strlit("9");
            assert(("9")@ =~= seq![digit_char(9)]);
        }
        "9"
    }
}

/// Builds the decimal digit string of `n`, most significant digit first.
fn decimal_u128(n: u128) -> (r: String)
    ensures
        r@ == dec_digits(n as nat),
    decreases n,
{
    if n < 10 {
        digit_str(n).to_owned()
    } else {
        let mut s = decimal_u128(n / 10);
        s.append(digit_str(n % 10));
        s
    }
}

/// Builds the full ordinal string of a non-negative magnitude.
pub(crate) fn ordinal_string_u128(n: u128) -> (r: String)
    ensures
        r@ == ordinal_seq(n as int),
{
    let digits = decimal_u128(n);
    digits.concat(suffix_of_magnitude(n))
}

/// Builds the full ordinal string of a signed integer.
pub(crate) fn ordinal_string_i128(v: i128) -> (r: String)
    ensures
        r@ == ordinal_seq(v as int),
{
    if v >= 0 {
        ordinal_string_u128(v as u128)
    } else {
        let m = crate::suffix::magnitude_i128(v);
        let mut s = "-".to_owned();
        proof {
            reveal_strlit("-");
            assert(("-")@ =~= seq!['-']);
        }
        let digits = decimal_u128(m);
        s.append(digits.as_str());
        s.append(suffix_of_magnitude(m));
        proof {
            assert(s@ =~= ordinal_seq(v as int));
        }
        s
    }
}

} // verus!
