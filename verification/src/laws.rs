//! Laws of the suffix rule and of ordinal rendering.

use crate::suffix::suffix_seq;
use crate::text::{dec_seq, ordinal_seq};
use vstd::math::abs;
use vstd::prelude::*;

verus! {

/// The suffix of an integer never depends on its sign: `v` and `-v`
/// take the same suffix.
pub proof fn lemma_suffix_sign_independent(v: int)
    ensures
        suffix_seq(v) == suffix_seq(-v),
{
}

/// The suffix of any integer is one of exactly "st", "nd", "rd" and "th".
pub proof fn lemma_suffix_is_one_of_four(v: int)
    ensures
        suffix_seq(v) == seq!['s', 't'] || suffix_seq(v) == seq!['n', 'd'] || suffix_seq(v)
            == seq!['r', 'd'] || suffix_seq(v) == seq!['t', 'h'],
{
}

/// A magnitude whose last two digits lie in 11..=13 always takes "th".
pub proof fn lemma_suffix_teen_band(v: int)
    requires
        11 <= abs(v) % 100 <= 13,
    ensures
        suffix_seq(v) == seq!['t', 'h'],
{
}

/// Outside the band 11..=13, the last digit of the magnitude decides the
/// suffix: 1 takes "st", 2 takes "nd", 3 takes "rd", and every other
/// digit takes "th".
pub proof fn lemma_suffix_last_digit(v: int)
    requires
        !(11 <= abs(v) % 100 <= 13),
    ensures
        abs(v) % 10 == 1 ==> suffix_seq(v) == seq!['s', 't'],
        abs(v) % 10 == 2 ==> suffix_seq(v) == seq!['n', 'd'],
        abs(v) % 10 == 3 ==> suffix_seq(v) == seq!['r', 'd'],
        abs(v) % 10 != 1 && abs(v) % 10 != 2 && abs(v) % 10 != 3 ==> suffix_seq(v) == seq![
            't',
            'h',
        ],
{
}

/// The ordinal string of an integer is exactly its decimal text followed
/// by its suffix.
pub proof fn lemma_ordinal_is_text_then_suffix(v: int)
    ensures
        ordinal_seq(v) == dec_seq(v) + suffix_seq(v),
{
}

} // verus!
