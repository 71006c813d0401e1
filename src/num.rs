//! Integer widths usable as the length, capacity and index type of a buffer.

use vstd::prelude::*;

verus! {

/// An integer type that can count the items of a
/// [`SizedVec`](crate::sized_vec::SizedVec).
///
/// Every value of such a type fits in a `usize`, so a non-negative value can
/// always be turned into an index.
pub trait IndexSize: Sized + Copy {
    /// The mathematical value of this integer.
    spec fn int_value(self) -> int;

    /// The smallest value of the type.
    spec fn min_spec() -> int;

    /// The largest value of the type.
    spec fn max_spec() -> int;

    /// Every value lies between the type's bounds, and the bounds fit in a
    /// `usize`.
    proof fn lemma_bounds(self)
        ensures
            Self::min_spec() <= self.int_value() <= Self::max_spec(),
            Self::min_spec() <= 0,
            0 < Self::max_spec() <= usize::MAX,
    ;

    /// Zero.
    fn zero() -> (r: Self)
        ensures
            r.int_value() == 0,
    ;

    /// The largest value of the type.
    fn max_value() -> (r: Self)
        ensures
            r.int_value() == Self::max_spec(),
    ;

    /// Whether the number is below zero.
    fn is_negative(self) -> (r: bool)
        ensures
            r == (self.int_value() < 0),
    ;

    /// Casts a non-negative number to a [`usize`].
    fn as_usize(self) -> (r: usize)
        requires
            0 <= self.int_value(),
        ensures
            r as int == self.int_value(),
    ;

    /// Casts a [`usize`] that the type can hold to this number type.
    fn usize_as_self(n: usize) -> (r: Self)
        requires
            n <= Self::max_spec(),
        ensures
            r.int_value() == n as int,
    ;
}

impl IndexSize for u8 {
    open spec fn int_value(self) -> int {
        self as int
    }

    open spec fn min_spec() -> int {
        0
    }

    open spec fn max_spec() -> int {
        u8::MAX as int
    }

    proof fn lemma_bounds(self) {
    }

    fn zero() -> (r: u8) {
        0
    }

    fn max_value() -> (r: u8) {
        u8::MAX
    }

    fn is_negative(self) -> (r: bool) {
        false
    }

    fn as_usize(self) -> (r: usize) {
        self as usize
    }

    fn usize_as_self(n: usize) -> (r: u8) {
        n as u8
    }
}

impl IndexSize for u16 {
    open spec fn int_value(self) -> int {
        self as int
    }

    open spec fn min_spec() -> int {
        0
    }

    open spec fn max_spec() -> int {
        u16::MAX as int
    }

    proof fn lemma_bounds(self) {
    }

    fn zero() -> (r: u16) {
        0
    }

    fn max_value() -> (r: u16) {
        u16::MAX
    }

    fn is_negative(self) -> (r: bool) {
        false
    }

    fn as_usize(self) -> (r: usize) {
        self as usize
    }

    fn usize_as_self(n: usize) -> (r: u16) {
        n as u16
    }
}

impl IndexSize for u32 {
    open spec fn int_value(self) -> int {
        self as int
    }

    open spec fn min_spec() -> int {
        0
    }

    open spec fn max_spec() -> int {
        u32::MAX as int
    }

    proof fn lemma_bounds(self) {
    }

    fn zero() -> (r: u32) {
        0
    }

    fn max_value() -> (r: u32) {
        u32::MAX
    }

    fn is_negative(self) -> (r: bool) {
        false
    }

    fn as_usize(self) -> (r: usize) {
        self as usize
    }

    fn usize_as_self(n: usize) -> (r: u32) {
        n as u32
    }
}

impl IndexSize for usize {
    open spec fn int_value(self) -> int {
        self as int
    }

    open spec fn min_spec() -> int {
        0
    }

    open spec fn max_spec() -> int {
        usize::MAX as int
    }

    proof fn lemma_bounds(self) {
    }

    fn zero() -> (r: usize) {
        0
    }

    fn max_value() -> (r: usize) {
        usize::MAX
    }

    fn is_negative(self) -> (r: bool) {
        false
    }

    fn as_usize(self) -> (r: usize) {
        self
    }

    fn usize_as_self(n: usize) -> (r: usize) {
        n
    }
}

impl IndexSize for i8 {
    open spec fn int_value(self) -> int {
        self as int
    }

    open spec fn min_spec() -> int {
        i8::MIN as int
    }

    open spec fn max_spec() -> int {
        i8::MAX as int
    }

    proof fn lemma_bounds(self) {
    }

    fn zero() -> (r: i8) {
        0
    }

    fn max_value() -> (r: i8) {
        i8::MAX
    }

    fn is_negative(self) -> (r: bool) {
        self < 0
    }

    fn as_usize(self) -> (r: usize) {
        self as usize
    }

    fn usize_as_self(n: usize) -> (r: i8) {
        n as i8
    }
}

impl IndexSize for i16 {
    open spec fn int_value(self) -> int {
        self as int
    }

    open spec fn min_spec() -> int {
        i16::MIN as int
    }

    open spec fn max_spec() -> int {
        i16::MAX as int
    }

    proof fn lemma_bounds(self) {
    }

    fn zero() -> (r: i16) {
        0
    }

    fn max_value() -> (r: i16) {
        i16::MAX
    }

    fn is_negative(self) -> (r: bool) {
        self < 0
    }

    fn as_usize(self) -> (r: usize) {
        self as usize
    }

    fn usize_as_self(n: usize) -> (r: i16) {
        n as i16
    }
}

impl IndexSize for i32 {
    open spec fn int_value(self) -> int {
        self as int
    }

    open spec fn min_spec() -> int {
        i32::MIN as int
    }

    open spec fn max_spec() -> int {
        i32::MAX as int
    }

    proof fn lemma_bounds(self) {
    }

    fn zero() -> (r: i32) {
        0
    }

    fn max_value() -> (r: i32) {
        i32::MAX
    }

    fn is_negative(self) -> (r: bool) {
        self < 0
    }

    fn as_usize(self) -> (r: usize) {
        self as usize
    }

    fn usize_as_self(n: usize) -> (r: i32) {
        n as i32
    }
}

impl IndexSize for isize {
    open spec fn int_value(self) -> int {
        self as int
    }

    open spec fn min_spec() -> int {
        isize::MIN as int
    }

    open spec fn max_spec() -> int {
        isize::MAX as int
    }

    proof fn lemma_bounds(self) {
    }

    fn zero() -> (r: isize) {
        0
    }

    fn max_value() -> (r: isize) {
        isize::MAX
    }

    fn is_negative(self) -> (r: bool) {
        self < 0
    }

    fn as_usize(self) -> (r: usize) {
        self as usize
    }

    fn usize_as_self(n: usize) -> (r: isize) {
        n as isize
    }
}

} // verus!
