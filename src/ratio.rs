//! Exact fractions, the numeric kind of a stat's multiplier.
use vstd::prelude::*;

verus! {

/// Holds when `v` is representable as an `i64`.
pub open spec fn fits_i64(v: int) -> bool {
    i64::MIN <= v <= i64::MAX
}

/// Division of `a` by a positive `b`, rounded toward zero.
pub open spec fn trunc_div(a: int, b: int) -> int
    recommends
        b > 0,
{
    if a >= 0 {
        a / b
    } else {
        -((-a) / b)
    }
}

/// Absolute value.
pub open spec fn abs(a: int) -> int {
    if a >= 0 {
        a
    } else {
        -a
    }
}

/// Sign of `a` as `-1`, `0` or `1`.
pub open spec fn sign(a: int) -> int {
    if a > 0 {
        1
    } else if a < 0 {
        -1
    } else {
        0
    }
}

proof fn lemma_mul_bound(a: int, b: int)
    requires
        -0x8000_0000_0000_0000 <= a <= 0x8000_0000_0000_0000,
        -0x8000_0000_0000_0000 <= b <= 0x8000_0000_0000_0000,
    ensures
        -0x4000_0000_0000_0000_0000_0000_0000_0000 <= a * b <= 0x4000_0000_0000_0000_0000_0000_0000_0000,
{
    assert(-0x4000_0000_0000_0000_0000_0000_0000_0000 <= a * b <= 0x4000_0000_0000_0000_0000_0000_0000_0000)
        by (nonlinear_arith)
        requires
            -0x8000_0000_0000_0000 <= a <= 0x8000_0000_0000_0000,
            -0x8000_0000_0000_0000 <= b <= 0x8000_0000_0000_0000,
    ;
}

/// Division of a wide integer by a positive wide integer, rounded toward zero.
fn div_toward_zero(a: i128, b: i128) -> (r: i128)
    requires
        b > 0,
        a > i128::MIN,
    ensures
        r == trunc_div(a as int, b as int),
{
    if a >= 0 {
        a / b
    } else {
        let q = (-a) / b;
        -q
    }
}

/// An exact fraction `numer / denom` with a positive denominator.
///
/// Two fractions compare equal with `==` when they denote the same number,
/// whatever their representation (`2/4 == 1/2`).
#[derive(Clone, Copy, Debug)]
pub struct Ratio {
    num: i64,
    den: i64,
}

impl Ratio {
    #[verifier::type_invariant]
    spec fn wf(self) -> bool {
        self.den > 0
    }

    /// The numerator.
    pub closed spec fn numer(self) -> int {
        self.num as int
    }

    /// The denominator.
    pub closed spec fn denom(self) -> int {
        self.den as int
    }

    /// The fraction `1/1`.
    pub closed spec fn one_spec() -> Ratio {
        Ratio { num: 1, den: 1 }
    }

    /// The unreduced product of two fractions.
    pub closed spec fn mul_spec(self, other: Ratio) -> Ratio {
        Ratio { num: (self.num * other.num) as i64, den: (self.den * other.den) as i64 }
    }

    /// Holds when the two fractions denote the same number.
    pub open spec fn same_value(self, other: Ratio) -> bool {
        self.numer() * other.denom() == other.numer() * self.denom()
    }

    pub proof fn lemma_one_spec()
        ensures
            Ratio::one_spec().numer() == 1,
            Ratio::one_spec().denom() == 1,
    {
    }

    /// The fraction `num / den`.
    pub fn new(num: i64, den: i64) -> (r: Ratio)
        requires
            den > 0,
        ensures
            r.numer() == num,
            r.denom() == den,
    {
        Ratio { num, den }
    }

    /// The whole number `n`, as `n / 1`.
    pub fn from_int(n: i64) -> (r: Ratio)
        ensures
            r.numer() == n,
            r.denom() == 1,
    {
        Ratio { num: n, den: 1 }
    }

    /// The multiplicative identity `1/1`.
    pub fn one() -> (r: Ratio)
        ensures
            r == Ratio::one_spec(),
            r.numer() == 1,
            r.denom() == 1,
    {
        Ratio { num: 1, den: 1 }
    }

    pub fn numerator(&self) -> (r: i64)
        ensures
            r == self.numer(),
    {
        self.num
    }

    pub fn denominator(&self) -> (r: i64)
        ensures
            r == self.denom(),
            r > 0,
    {
        proof {
            use_type_invariant(self);
        }
        self.den
    }

    /// The product `self * other`, kept unreduced.
    pub fn mul(self, other: Ratio) -> (r: Ratio)
        requires
            fits_i64(self.numer() * other.numer()),
            fits_i64(self.denom() * other.denom()),
        ensures
            r == self.mul_spec(other),
            r.numer() == self.numer() * other.numer(),
            r.denom() == self.denom() * other.denom(),
    {
        proof {
            use_type_invariant(&self);
            use_type_invariant(&other);
            assert(self.den * other.den > 0) by (nonlinear_arith)
                requires
                    self.den > 0,
                    other.den > 0,
            ;
        }
        Ratio { num: self.num * other.num, den: self.den * other.den }
    }

    /// The quotient `self / other`, kept unreduced, with the sign moved to
    /// the numerator.
    pub fn div(self, other: Ratio) -> (r: Ratio)
        requires
            other.numer() != 0,
            fits_i64(sign(other.numer()) * self.numer() * other.denom()),
            fits_i64(self.denom() * abs(other.numer())),
        ensures
            r.numer() == sign(other.numer()) * self.numer() * other.denom(),
            r.denom() == self.denom() * abs(other.numer()),
    {
        proof {
            use_type_invariant(&self);
            use_type_invariant(&other);
            lemma_mul_bound(self.num as int, other.den as int);
            lemma_mul_bound(self.den as int, other.num as int);
        }
        let n = (self.num as i128) * (other.den as i128);
        let d = (self.den as i128) * (other.num as i128);
        if other.num > 0 {
            proof {
                assert(d > 0) by (nonlinear_arith)
                    requires
                        d == self.den * other.num,
                        self.den > 0,
                        other.num > 0,
                ;
            }
            Ratio { num: n as i64, den: d as i64 }
        } else {
            proof {
                assert(-d > 0) by (nonlinear_arith)
                    requires
                        d == self.den * other.num,
                        self.den > 0,
                        other.num < 0,
                ;
                assert(-1 * self.numer() * other.denom() == -n) by (nonlinear_arith)
                    requires
                        n == self.num * other.den,
                ;
                assert(self.denom() * (-other.numer()) == -d) by (nonlinear_arith)
                    requires
                        d == self.den * other.num,
                ;
            }
            Ratio { num: (-n) as i64, den: (-d) as i64 }
        }
    }

    /// `x * self`, rounded toward zero.
    pub fn scale_int(&self, x: i64) -> (r: i128)
        ensures
            r == trunc_div(x * self.numer(), self.denom()),
    {
        proof {
            use_type_invariant(self);
            lemma_mul_bound(x as int, self.num as int);
        }
        div_toward_zero((x as i128) * (self.num as i128), self.den as i128)
    }

    /// The fraction `1 + (self - 1) * weight`: `self` taken as a deviation
    /// from one, with the deviation scaled by `weight`.
    pub fn scale_deviation(self, weight: Ratio) -> (r: Ratio)
        requires
            fits_i64(self.denom() * weight.denom()),
            fits_i64(
                self.denom() * weight.denom() + (self.numer() - self.denom()) * weight.numer(),
            ),
        ensures
            r.numer() == self.denom() * weight.denom() + (self.numer() - self.denom())
                * weight.numer(),
            r.denom() == self.denom() * weight.denom(),
    {
        proof {
            use_type_invariant(&self);
            use_type_invariant(&weight);
            assert(self.den * weight.den > 0) by (nonlinear_arith)
                requires
                    self.den > 0,
                    weight.den > 0,
            ;
        }
        let den = self.den * weight.den;
        let dev = (self.num as i128) - (self.den as i128);
        proof {
            assert(-0x7fff_ffff_ffff_ffff_ffff_ffff_ffff_ffff <= dev * weight.num
                <= 0x7fff_ffff_ffff_ffff_ffff_ffff_ffff_ffff) by (nonlinear_arith)
                requires
                    -0x1_0000_0000_0000_0000 < dev < 0x8000_0000_0000_0000,
                    -0x8000_0000_0000_0000 <= weight.num < 0x8000_0000_0000_0000,
            ;
        }
        let num = (den as i128) + dev * (weight.num as i128);
        Ratio { num: num as i64, den }
    }
}

impl PartialEq for Ratio {
    fn eq(&self, other: &Ratio) -> (r: bool) {
        proof {
            lemma_mul_bound(self.num as int, other.den as int);
            lemma_mul_bound(other.num as int, self.den as int);
        }
        (self.num as i128) * (other.den as i128) == (other.num as i128) * (self.den as i128)
    }
}

impl vstd::std_specs::cmp::PartialEqSpecImpl for Ratio {
    open spec fn obeys_eq_spec() -> bool {
        true
    }

    open spec fn eq_spec(&self, other: &Ratio) -> bool {
        self.same_value(*other)
    }
}

} // verus!
