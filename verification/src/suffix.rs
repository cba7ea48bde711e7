//! Selection of the ordinal suffix from an integer's magnitude.

use vstd::math::abs;
use vstd::prelude::*;

verus! {

/// The ordinal suffix for the integer `v`, as a sequence of characters.
///
/// The suffix depends only on the magnitude of `v`: a magnitude whose last
/// two digits lie in the band 11..=13 takes "th"; otherwise the last digit
/// alone decides, with 1 taking "st", 2 taking "nd", 3 taking "rd", and
/// every other digit taking "th".
pub open spec fn suffix_seq(v: int) -> Seq<char> {
    let m = abs(v);
    if 11 <= m % 100 && m % 100 <= 13 {
        seq!['t', 'h']
    } else if m % 10 == 1 {
        seq!['s', 't']
    } else if m % 10 == 2 {
        seq!['n', 'd']
    } else if m % 10 == 3 {
        seq!['r', 'd']
    } else {
        seq!['t', 'h']
    }
}

/// Picks the ordinal suffix for a magnitude already reduced to `u128`.
pub(crate) fn suffix_of_magnitude(m: u128) -> (r: &'static str)
    ensures
        r@ == suffix_seq(m as int),
{
    let band = m % 100;
    if 11 <= band && band <= 13 {
        proof {
            reveal_strlit("th");
            assert(("th")@ =~= seq!['t', 'h']);
        }
        "th"
    } else {
        let last = m % 10;
        if last == 1 {
            proof {
                reveal_strlit("st");
                assert(("st")@ =~= seq!['s', 't']);
            }
            "st"
        } else if last == 2 {
            proof {
                reveal_strlit("nd");
                assert(("nd")@ =~= seq!['n', 'd']);
            }
            "nd"
        } else if last == 3 {
            proof {
                reveal_strlit("rd");
                assert(("rd")@ =~= seq!['r', 'd']);
            }
            "rd"
        } else {
            proof {
                reveal_strlit("th");
                assert(("th")@ =~= seq!['t', 'h']);
            }
            "th"
        }
    }
}

/// Computes the magnitude of a signed integer as a `u128`, which is
/// well defined even for the smallest representable value.
pub(crate) fn magnitude_i128(v: i128) -> (m: u128)
    ensures
        m as nat == abs(v as int),
{
    if v >= 0 {
        v as u128
    } else {
        ((-(v + 1)) as u128) + 1
    }
}

} // verus!
