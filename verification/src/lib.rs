//! Ordinal number formatting.
//!
//! The ordinal suffix ("st", "nd", "rd" or "th") of an integer is computed
//! without allocation, and a full ordinal string such as "21st" or "-3rd"
//! is built on request.

use vstd::prelude::*;

pub mod laws;
pub mod suffix;
pub mod text;

use suffix::{magnitude_i128, suffix_of_magnitude, suffix_seq};
use text::{ordinal_seq, ordinal_string_i128, ordinal_string_u128};

verus! {

/// Format numbers as ordinals e.g., 1st, 12th, 21st, etc.
///
/// The spec function `as_int` gives the mathematical value of the number;
/// every method's contract is stated over it.
pub trait ToOrdinal: Sized + Copy {
    /// The mathematical value of the number.
    spec fn as_int(self) -> int;

    /// Gets the suffix for the number, without allocating.
    fn suffix(self) -> (r: &'static str)
        ensures
            r@ == suffix_seq(self.as_int()),
    ;

    /// Wraps the number in an [`Ordinal`] for later rendering.
    fn to_ordinal(self) -> (r: Ordinal<Self>)
        ensures
            r.0 == self,
    ;

    /// Formats the number as an ordinal string, e.g. "12th".
    fn to_ordinal_string(self) -> (r: String)
        ensures
            r@ == ordinal_seq(self.as_int()),
    ;
}

/// A number that renders as an ordinal.
///
/// The wrapper holds the original integer; comparisons and ordering go by
/// the wrapped value's natural order, while `to_string` renders the
/// ordinal text.
#[derive(Clone, Copy, Debug, Default, PartialEq, Eq, PartialOrd, Ord, Hash)]
pub struct Ordinal<T: ToOrdinal>(pub T);

impl<T: ToOrdinal> Ordinal<T> {
    /// Gets the suffix for the wrapped number.
    pub fn suffix(&self) -> (r: &'static str)
        ensures
            r@ == suffix_seq(self.0.as_int()),
    {
        self.0.suffix()
    }

    /// Renders the wrapped number as an ordinal string.
    pub fn to_string(&self) -> (r: String)
        ensures
            r@ == ordinal_seq(self.0.as_int()),
    {
        self.0.to_ordinal_string()
    }
}

impl<T: ToOrdinal> From<T> for Ordinal<T> {
    fn from(value: T) -> (r: Ordinal<T>) {
        Ordinal(value)
    }
}

impl<T: ToOrdinal> vstd::std_specs::convert::FromSpecImpl<T> for Ordinal<T> {
    open spec fn obeys_from_spec() -> bool {
        true
    }

    open spec fn from_spec(value: T) -> Ordinal<T> {
        Ordinal(value)
    }
}

impl ToOrdinal for u8 {
    open spec fn as_int(self) -> int {
        self as int
    }

    fn suffix(self) -> &'static str {
        suffix_of_magnitude(self as u128)
    }

    fn to_ordinal(self) -> Ordinal<u8> {
        Ordinal(self)
    }

    fn to_ordinal_string(self) -> String {
        ordinal_string_u128(self as u128)
    }
}

impl ToOrdinal for u16 {
    open spec fn as_int(self) -> int {
        self as int
    }

    fn suffix(self) -> &'static str {
        suffix_of_magnitude(self as u128)
    }

    fn to_ordinal(self) -> Ordinal<u16> {
        Ordinal(self)
    }

    fn to_ordinal_string(self) -> String {
        ordinal_string_u128(self as u128)
    }
}

impl ToOrdinal for u32 {
    open spec fn as_int(self) -> int {
        self as int
    }

    fn suffix(self) -> &'static str {
        suffix_of_magnitude(self as u128)
    }

    fn to_ordinal(self) -> Ordinal<u32> {
        Ordinal(self)
    }

    fn to_ordinal_string(self) -> String {
        ordinal_string_u128(self as u128)
    }
}

impl ToOrdinal for u64 {
    open spec fn as_int(self) -> int {
        self as int
    }

    fn suffix(self) -> &'static str {
        suffix_of_magnitude(self as u128)
    }

    fn to_ordinal(self) -> Ordinal<u64> {
        Ordinal(self)
    }

    fn to_ordinal_string(self) -> String {
        ordinal_string_u128(self as u128)
    }
}

impl ToOrdinal for u128 {
    open spec fn as_int(self) -> int {
        self as int
    }

    fn suffix(self) -> &'static str {
        suffix_of_magnitude(self)
    }

    fn to_ordinal(self) -> Ordinal<u128> {
        Ordinal(self)
    }

    fn to_ordinal_string(self) -> String {
        ordinal_string_u128(self)
    }
}

impl ToOrdinal for usize {
    open spec fn as_int(self) -> int {
        self as int
    }

    fn suffix(self) -> &'static str {
        suffix_of_magnitude(self as u128)
    }

    fn to_ordinal(self) -> Ordinal<usize> {
        Ordinal(self)
    }

    fn to_ordinal_string(self) -> String {
        ordinal_string_u128(self as u128)
    }
}

impl ToOrdinal for i8 {
    open spec fn as_int(self) -> int {
        self as int
    }

    fn suffix(self) -> &'static str {
        suffix_of_magnitude(magnitude_i128(self as i128))
    }

    fn to_ordinal(self) -> Ordinal<i8> {
        Ordinal(self)
    }

    fn to_ordinal_string(self) -> String {
        ordinal_string_i128(self as i128)
    }
}

impl ToOrdinal for i16 {
    open spec fn as_int(self) -> int {
        self as int
    }

    fn suffix(self) -> &'static str {
        suffix_of_magnitude(magnitude_i128(self as i128))
    }

    fn to_ordinal(self) -> Ordinal<i16> {
        Ordinal(self)
    }

    fn to_ordinal_string(self) -> String {
        ordinal_string_i128(self as i128)
    }
}

impl ToOrdinal for i32 {
    open spec fn as_int(self) -> int {
        self as int
    }

    fn suffix(self) -> &'static str {
        suffix_of_magnitude(magnitude_i128(self as i128))
    }

    fn to_ordinal(self) -> Ordinal<i32> {
        Ordinal(self)
    }

    fn to_ordinal_string(self) -> String {
        ordinal_string_i128(self as i128)
    }
}

impl ToOrdinal for i64 {
    open spec fn as_int(self) -> int {
        self as int
    }

    fn suffix(self) -> &'static str {
        suffix_of_magnitude(magnitude_i128(self as i128))
    }

    fn to_ordinal(self) -> Ordinal<i64> {
        Ordinal(self)
    }

    fn to_ordinal_string(self) -> String {
        ordinal_string_i128(self as i128)
    }
}

impl ToOrdinal for i128 {
    open spec fn as_int(self) -> int {
        self as int
    }

    fn suffix(self) -> &'static str {
        suffix_of_magnitude(magnitude_i128(self))
    }

    fn to_ordinal(self) -> Ordinal<i128> {
        Ordinal(self)
    }

    fn to_ordinal_string(self) -> String {
        ordinal_string_i128(self)
    }
}

impl ToOrdinal for isize {
    open spec fn as_int(self) -> int {
        self as int
    }

    fn suffix(self) -> &'static str {
        suffix_of_magnitude(magnitude_i128(self as i128))
    }

    fn to_ordinal(self) -> Ordinal<isize> {
        Ordinal(self)
    }

    fn to_ordinal_string(self) -> String {
        ordinal_string_i128(self as i128)
    }
}

} // verus!
