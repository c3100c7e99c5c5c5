//! Exact rational arithmetic for the estimator.
//!
//! A [`Ratio`] is a fraction of two `i128` values with a nonzero denominator.
//! Fractions are not reduced and the denominator may be negative; two ratios
//! denote the same rational number exactly when cross-multiplication agrees,
//! which [`q_eq`] states and [`Ratio::equiv`] decides.
//!
//! The mathematical model is the ghost pair [`Rat`] of unbounded integers;
//! [`q_add`], [`q_mul`] and [`q_div`] are the model-level operations, and each
//! executable operation returns exactly the model's fraction.

use vstd::prelude::*;

verus! {

/// The ghost model of a fraction: an unbounded numerator and denominator.
pub struct Rat {
    pub n: int,
    pub d: int,
}

/// The model-level sum `a + b`, as the canonical unreduced fraction.
pub open spec fn q_add(a: Rat, b: Rat) -> Rat {
    Rat { n: a.n * b.d + b.n * a.d, d: a.d * b.d }
}

/// The model-level product `a * b`, as the canonical unreduced fraction.
pub open spec fn q_mul(a: Rat, b: Rat) -> Rat {
    Rat { n: a.n * b.n, d: a.d * b.d }
}

/// The model-level quotient `a / b`, as the canonical unreduced fraction.
pub open spec fn q_div(a: Rat, b: Rat) -> Rat {
    Rat { n: a.n * b.d, d: a.d * b.n }
}

/// Two fractions with nonzero denominators denote the same rational number
/// exactly when cross-multiplication agrees.
pub open spec fn q_eq(a: Rat, b: Rat) -> bool {
    a.n * b.d == b.n * a.d
}

/// An exact fraction of two machine integers.
///
/// The denominator is never zero; it may be negative, and fractions are not
/// reduced, so equality of rational values is [`Ratio::equiv`], not `==`.
#[derive(Clone, Copy, PartialEq, Eq, Structural, Debug)]
pub struct Ratio {
    pub num: i128,
    pub den: i128,
}

/// `|a * b| <= ba * bb` whenever `|a| <= ba` and `|b| <= bb`.
pub proof fn lemma_mul_bounds(a: int, b: int, ba: int, bb: int)
    requires
        -ba <= a <= ba,
        -bb <= b <= bb,
    ensures
        -(ba * bb) <= a * b <= ba * bb,
{
    assert(-(ba * bb) <= a * b <= ba * bb) by (nonlinear_arith)
        requires
            -ba <= a <= ba,
            -bb <= b <= bb;
}

impl Ratio {
    /// The fraction denotes a rational number: its denominator is nonzero.
    pub open spec fn wf(self) -> bool {
        self.den != 0
    }

    /// The fraction as its mathematical model.
    pub open spec fn as_rat(self) -> Rat {
        Rat { n: self.num as int, d: self.den as int }
    }

    /// Builds the fraction `num / den`.
    pub fn new(num: i128, den: i128) -> (r: Ratio)
        requires
            den != 0,
        ensures
            r.num == num,
            r.den == den,
            r.wf(),
    {
        Ratio { num, den }
    }

    /// The exact sum of two fractions.
    pub fn add(&self, other: &Ratio) -> (r: Ratio)
        requires
            self.wf(),
            other.wf(),
            i128::MIN <= self.num * other.den <= i128::MAX,
            i128::MIN <= other.num * self.den <= i128::MAX,
            i128::MIN <= self.num * other.den + other.num * self.den <= i128::MAX,
            i128::MIN <= self.den * other.den <= i128::MAX,
        ensures
            r.as_rat() == q_add(self.as_rat(), other.as_rat()),
            r.wf(),
    {
        let n1: i128 = self.num * other.den;
        let n2: i128 = other.num * self.den;
        let num: i128 = n1 + n2;
        let den: i128 = self.den * other.den;
        proof {
            vstd::arithmetic::mul::lemma_mul_nonzero(self.den as int, other.den as int);
        }
        Ratio { num, den }
    }

    /// The exact product of two fractions.
    pub fn mul(&self, other: &Ratio) -> (r: Ratio)
        requires
            self.wf(),
            other.wf(),
            i128::MIN <= self.num * other.num <= i128::MAX,
            i128::MIN <= self.den * other.den <= i128::MAX,
        ensures
            r.as_rat() == q_mul(self.as_rat(), other.as_rat()),
            r.wf(),
    {
        let num: i128 = self.num * other.num;
        let den: i128 = self.den * other.den;
        proof {
            vstd::arithmetic::mul::lemma_mul_nonzero(self.den as int, other.den as int);
        }
        Ratio { num, den }
    }

    /// The exact quotient of two fractions; the divisor must be nonzero as a
    /// rational number, that is, have a nonzero numerator.
    pub fn div(&self, other: &Ratio) -> (r: Ratio)
        requires
            self.wf(),
            other.wf(),
            other.num != 0,
            i128::MIN <= self.num * other.den <= i128::MAX,
            i128::MIN <= self.den * other.num <= i128::MAX,
        ensures
            r.as_rat() == q_div(self.as_rat(), other.as_rat()),
            r.wf(),
    {
        let num: i128 = self.num * other.den;
        let den: i128 = self.den * other.num;
        proof {
            vstd::arithmetic::mul::lemma_mul_nonzero(self.den as int, other.num as int);
        }
        Ratio { num, den }
    }

    /// Decides whether two fractions denote the same rational number.
    pub fn equiv(&self, other: &Ratio) -> (r: bool)
        requires
            self.wf(),
            other.wf(),
            i128::MIN <= self.num * other.den <= i128::MAX,
            i128::MIN <= other.num * self.den <= i128::MAX,
        ensures
            r == q_eq(self.as_rat(), other.as_rat()),
    {
        let lhs: i128 = self.num * other.den;
        let rhs: i128 = other.num * self.den;
        lhs == rhs
    }
}

} // verus!
