//! The numeric kinds that a stat's base and bonus can have.
use vstd::prelude::*;

verus! {

/// A fixed-width signed integer kind usable as a stat's base and bonus.
///
/// Each kind is modelled by the mathematical integer it holds (`value`) and
/// the range `min_value() ..= max_value()` that it can represent, which lies
/// within the range of `i64`.
pub trait StatNum: Copy + Sized {
    /// The integer held by this number.
    spec fn value(self) -> int;

    /// The number holding `v`, for `v` in range.
    spec fn from_int(v: int) -> Self;

    /// The least value of this kind.
    spec fn min_value() -> int;

    /// The greatest value of this kind.
    spec fn max_value() -> int;

    proof fn lemma_bounds()
        ensures
            i64::MIN <= Self::min_value() <= 0,
            1 <= Self::max_value() <= i64::MAX,
    ;

    proof fn lemma_in_range(self)
        ensures
            Self::min_value() <= self.value() <= Self::max_value(),
    ;

    proof fn lemma_from_int(v: int)
        requires
            Self::min_value() <= v <= Self::max_value(),
        ensures
            Self::from_int(v).value() == v,
    ;

    /// Widens the number to `i64`.
    fn to_i64(self) -> (r: i64)
        ensures
            r == self.value(),
    ;

    /// Narrows a wide integer to this kind, saturating at its bounds.
    fn from_i128_saturating(v: i128) -> (r: Self)
        ensures
            v < Self::min_value() ==> r.value() == Self::min_value(),
            v > Self::max_value() ==> r.value() == Self::max_value(),
            Self::min_value() <= v <= Self::max_value() ==> r.value() == v,
    ;

    /// Narrows an in-range `i64` to this kind.
    fn from_i64(v: i64) -> (r: Self)
        requires
            Self::min_value() <= v <= Self::max_value(),
        ensures
            r == Self::from_int(v as int),
            r.value() == v,
    ;
}

/// Holds when `v` is representable in the kind `B`.
pub open spec fn in_range<B: StatNum>(v: int) -> bool {
    B::min_value() <= v <= B::max_value()
}

/// `v` clamped to the range of the kind `B`.
pub open spec fn saturate<B: StatNum>(v: int) -> int {
    if v < B::min_value() {
        B::min_value()
    } else if v > B::max_value() {
        B::max_value()
    } else {
        v
    }
}

impl StatNum for i32 {
    open spec fn value(self) -> int {
        self as int
    }

    open spec fn from_int(v: int) -> Self {
        v as i32
    }

    open spec fn min_value() -> int {
        i32::MIN as int
    }

    open spec fn max_value() -> int {
        i32::MAX as int
    }

    proof fn lemma_bounds() {
    }

    proof fn lemma_in_range(self) {
    }

    proof fn lemma_from_int(v: int) {
    }

    fn to_i64(self) -> (r: i64) {
        self as i64
    }

    fn from_i128_saturating(v: i128) -> (r: Self) {
        if v < i32::MIN as i128 {
            i32::MIN
        } else if v > i32::MAX as i128 {
            i32::MAX
        } else {
            v as i32
        }
    }

    fn from_i64(v: i64) -> (r: Self) {
        v as i32
    }
}

impl StatNum for i64 {
    open spec fn value(self) -> int {
        self as int
    }

    open spec fn from_int(v: int) -> Self {
        v as i64
    }

    open spec fn min_value() -> int {
        i64::MIN as int
    }

    open spec fn max_value() -> int {
        i64::MAX as int
    }

    proof fn lemma_bounds() {
    }

    proof fn lemma_in_range(self) {
    }

    proof fn lemma_from_int(v: int) {
    }

    fn to_i64(self) -> (r: i64) {
        self
    }

    fn from_i128_saturating(v: i128) -> (r: Self) {
        if v < i64::MIN as i128 {
            i64::MIN
        } else if v > i64::MAX as i128 {
            i64::MAX
        } else {
            v as i64
        }
    }

    fn from_i64(v: i64) -> (r: Self) {
        v
    }
}

} // verus!
