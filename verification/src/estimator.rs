//! The estimator itself: beliefs and the predict / update / step operations.

use vstd::prelude::*;

use crate::ratio::Rat;
use crate::ratio::Ratio;
use crate::ratio::lemma_mul_bounds;
use crate::ratio::q_add;
use crate::ratio::q_div;
use crate::ratio::q_mul;

verus! {

/// Fractions fed to a full step keep within this bound, so that every
/// intermediate product of the predict - update cycle fits in an `i128`.
pub const BOUND: i128 = 8192;

/// Predicted values handed to `update` get a wider bound: a prediction made
/// from two fractions within [`BOUND`] stays within this one.
pub const WIDE_BOUND: i128 = 134217728;

/// The fused mean: `(sm * v + m * sv) / (sv + v)`, the inverse-variance
/// weighted average of the prior mean `sm` and the observation `m`.
pub open spec fn upd_mean(sm: Rat, sv: Rat, m: Rat, v: Rat) -> Rat {
    q_div(q_add(q_mul(sm, v), q_mul(m, sv)), q_add(sv, v))
}

/// The fused variance: `(sv * m) / (sv + v)`, where `sv` is the prior
/// variance, `m` the observed mean and `v` the observed variance.
pub open spec fn upd_var(sv: Rat, m: Rat, v: Rat) -> Rat {
    q_div(q_mul(sv, m), q_add(sv, v))
}

/// The mean of a full step: the raw observation `(m, v)` fused with the
/// prediction `(sm + m, sv + v)` made from the prior belief `(sm, sv)`.
pub open spec fn next_mean(sm: Rat, sv: Rat, m: Rat, v: Rat) -> Rat {
    upd_mean(m, v, q_add(sm, m), q_add(sv, v))
}

/// The variance of a full step, fused in the same way as [`next_mean`].
pub open spec fn next_var(sm: Rat, sv: Rat, m: Rat, v: Rat) -> Rat {
    upd_var(v, q_add(sm, m), q_add(sv, v))
}

/// The fusion of a prior variance `sv` with an observed variance `v` divides
/// by `sv + v`; it is defined only where that sum is a nonzero rational.
pub open spec fn update_defined(sv: Rat, v: Rat) -> bool {
    q_add(sv, v).n != 0
}

/// A full step divides by `v + (sv + v)`; it is defined only where that sum
/// is a nonzero rational.
pub open spec fn next_defined(sv: Rat, v: Rat) -> bool {
    q_add(v, q_add(sv, v)).n != 0
}

/// The fraction keeps within [`BOUND`], the range accepted for beliefs and
/// raw observations.
pub open spec fn bounded(r: Ratio) -> bool {
    &&& r.den != 0
    &&& -BOUND <= r.num <= BOUND
    &&& -BOUND <= r.den <= BOUND
}

/// The fraction keeps within [`WIDE_BOUND`], the range accepted for the
/// observation arguments of `update` and `predict`.
pub open spec fn bounded_wide(r: Ratio) -> bool {
    &&& r.den != 0
    &&& -WIDE_BOUND <= r.num <= WIDE_BOUND
    &&& -WIDE_BOUND <= r.den <= WIDE_BOUND
}

/// A belief about the unobserved quantity: the mean of a Gaussian
/// distribution together with the variance of that estimate.
///
/// A belief is immutable: every operation takes the belief by reference and
/// returns a fresh value, so chains of steps compose and any intermediate
/// belief can be retained or revisited.
pub struct LQE {
    pub measurement: Ratio,
    pub variance: Ratio,
}

impl LQE {
    /// `update` fuses the current belief with an independent observation of
    /// the same quantity, both taken as Gaussians: the returned mean is the
    /// inverse-variance weighted average of the two means, and the returned
    /// variance is the prior variance scaled by the observed mean over the
    /// summed variances.
    pub fn update(&self, measurement: Ratio, variance: Ratio) -> (r: (Ratio, Ratio))
        requires
            bounded(self.measurement),
            bounded(self.variance),
            bounded_wide(measurement),
            bounded_wide(variance),
            update_defined(self.variance.as_rat(), variance.as_rat()),
        ensures
            r.0.as_rat() == upd_mean(
                self.measurement.as_rat(),
                self.variance.as_rat(),
                measurement.as_rat(),
                variance.as_rat(),
            ),
            r.1.as_rat() == upd_var(
                self.variance.as_rat(),
                measurement.as_rat(),
                variance.as_rat(),
            ),
            r.0.wf(),
            r.1.wf(),
    {
        // each cross-product of a belief fraction (within 2^13) and an
        // observation fraction (within 2^27) stays within 2^40, so the sums
        // below stay within 2^41 and the final quotients within 2^121, far
        // inside the i128 range
        proof {
            lemma_mul_bounds(
                self.variance.num as int,
                variance.den as int,
                BOUND as int,
                WIDE_BOUND as int,
            );
            lemma_mul_bounds(
                variance.num as int,
                self.variance.den as int,
                WIDE_BOUND as int,
                BOUND as int,
            );
            lemma_mul_bounds(
                self.variance.den as int,
                variance.den as int,
                BOUND as int,
                WIDE_BOUND as int,
            );
        }
        let a = self.variance.add(&variance);
        proof {
            lemma_mul_bounds(
                self.measurement.num as int,
                variance.num as int,
                BOUND as int,
                WIDE_BOUND as int,
            );
            lemma_mul_bounds(
                self.measurement.den as int,
                variance.den as int,
                BOUND as int,
                WIDE_BOUND as int,
            );
            lemma_mul_bounds(
                measurement.num as int,
                self.variance.num as int,
                WIDE_BOUND as int,
                BOUND as int,
            );
            lemma_mul_bounds(
                measurement.den as int,
                self.variance.den as int,
                WIDE_BOUND as int,
                BOUND as int,
            );
        }
        let t1 = self.measurement.mul(&variance);
        let t2 = measurement.mul(&self.variance);
        proof {
            lemma_mul_bounds(
                t1.num as int,
                t2.den as int,
                0x100_0000_0000,
                0x100_0000_0000,
            );
            lemma_mul_bounds(
                t2.num as int,
                t1.den as int,
                0x100_0000_0000,
                0x100_0000_0000,
            );
            lemma_mul_bounds(
                t1.den as int,
                t2.den as int,
                0x100_0000_0000,
                0x100_0000_0000,
            );
        }
        let c = t1.add(&t2);
        proof {
            lemma_mul_bounds(
                c.num as int,
                a.den as int,
                0x2_0000_0000_0000_0000_0000,
                0x100_0000_0000,
            );
            lemma_mul_bounds(
                c.den as int,
                a.num as int,
                0x1_0000_0000_0000_0000_0000,
                0x200_0000_0000,
            );
        }
        let m = c.div(&a);
        proof {
            lemma_mul_bounds(
                self.variance.num as int,
                measurement.num as int,
                BOUND as int,
                WIDE_BOUND as int,
            );
            lemma_mul_bounds(
                self.variance.den as int,
                measurement.den as int,
                BOUND as int,
                WIDE_BOUND as int,
            );
        }
        let b = self.variance.mul(&measurement);
        proof {
            lemma_mul_bounds(
                b.num as int,
                a.den as int,
                0x100_0000_0000,
                0x100_0000_0000,
            );
            lemma_mul_bounds(
                b.den as int,
                a.num as int,
                0x100_0000_0000,
                0x200_0000_0000,
            );
        }
        let z = b.div(&a);
        (m, z)
    }

    /// `predict` projects the belief one timestep forward: the observed mean
    /// is added to the believed mean as a deterministic drift, and the
    /// observed variance grows the believed variance.
    pub fn predict(&self, measurement: Ratio, variance: Ratio) -> (r: (Ratio, Ratio))
        requires
            bounded(self.measurement),
            bounded(self.variance),
            bounded_wide(measurement),
            bounded_wide(variance),
        ensures
            r.0.as_rat() == q_add(self.measurement.as_rat(), measurement.as_rat()),
            r.1.as_rat() == q_add(self.variance.as_rat(), variance.as_rat()),
            r.0.wf(),
            r.1.wf(),
    {
        proof {
            lemma_mul_bounds(
                self.measurement.num as int,
                measurement.den as int,
                BOUND as int,
                WIDE_BOUND as int,
            );
            lemma_mul_bounds(
                measurement.num as int,
                self.measurement.den as int,
                WIDE_BOUND as int,
                BOUND as int,
            );
            lemma_mul_bounds(
                self.measurement.den as int,
                measurement.den as int,
                BOUND as int,
                WIDE_BOUND as int,
            );
            lemma_mul_bounds(
                self.variance.num as int,
                variance.den as int,
                BOUND as int,
                WIDE_BOUND as int,
            );
            lemma_mul_bounds(
                variance.num as int,
                self.variance.den as int,
                WIDE_BOUND as int,
                BOUND as int,
            );
            lemma_mul_bounds(
                self.variance.den as int,
                variance.den as int,
                BOUND as int,
                WIDE_BOUND as int,
            );
        }
        let predicted_measurement = self.measurement.add(&measurement);
        let predicted_variance = self.variance.add(&variance);
        (predicted_measurement, predicted_variance)
    }

    /// `next` performs one full predict - update cycle: the belief is
    /// projected forward by the observation, and the raw observation is then
    /// fused with that prediction into the next belief.
    ///
    /// The receiver is read, never changed: the next belief is a fresh value,
    /// so chains of calls compose left to right.
    pub fn next(&self, measurement: Ratio, variance: Ratio) -> (r: LQE)
        requires
            bounded(self.measurement),
            bounded(self.variance),
            bounded(measurement),
            bounded(variance),
            next_defined(self.variance.as_rat(), variance.as_rat()),
        ensures
            r.measurement.as_rat() == next_mean(
                self.measurement.as_rat(),
                self.variance.as_rat(),
                measurement.as_rat(),
                variance.as_rat(),
            ),
            r.variance.as_rat() == next_var(
                self.measurement.as_rat(),
                self.variance.as_rat(),
                measurement.as_rat(),
                variance.as_rat(),
            ),
            r.measurement.wf(),
            r.variance.wf(),
    {
        let prediction = self.predict(measurement, variance);
        proof {
            lemma_mul_bounds(
                self.measurement.num as int,
                measurement.den as int,
                BOUND as int,
                BOUND as int,
            );
            lemma_mul_bounds(
                measurement.num as int,
                self.measurement.den as int,
                BOUND as int,
                BOUND as int,
            );
            lemma_mul_bounds(
                self.measurement.den as int,
                measurement.den as int,
                BOUND as int,
                BOUND as int,
            );
            lemma_mul_bounds(
                self.variance.num as int,
                variance.den as int,
                BOUND as int,
                BOUND as int,
            );
            lemma_mul_bounds(
                variance.num as int,
                self.variance.den as int,
                BOUND as int,
                BOUND as int,
            );
            lemma_mul_bounds(
                self.variance.den as int,
                variance.den as int,
                BOUND as int,
                BOUND as int,
            );
        }
        let mid_filter = LQE { measurement, variance };
        let updated = mid_filter.update(prediction.0, prediction.1);
        LQE { measurement: updated.0, variance: updated.1 }
    }

    /// Returns the current `(measurement, variance)` pair verbatim.
    pub fn result(&self) -> (r: (Ratio, Ratio))
        ensures
            r.0 == self.measurement,
            r.1 == self.variance,
    {
        (self.measurement, self.variance)
    }
}

/// A step is deterministic: its contract pins every field of the next belief,
/// so any two beliefs that satisfy the contract of `next` on the same inputs
/// are identical, bit for bit. There is no hidden state and no randomness.
pub proof fn lemma_next_deterministic(b: LQE, m: Ratio, v: Ratio, r1: LQE, r2: LQE)
    requires
        r1.measurement.as_rat() == next_mean(
            b.measurement.as_rat(),
            b.variance.as_rat(),
            m.as_rat(),
            v.as_rat(),
        ),
        r1.variance.as_rat() == next_var(
            b.measurement.as_rat(),
            b.variance.as_rat(),
            m.as_rat(),
            v.as_rat(),
        ),
        r2.measurement.as_rat() == next_mean(
            b.measurement.as_rat(),
            b.variance.as_rat(),
            m.as_rat(),
            v.as_rat(),
        ),
        r2.variance.as_rat() == next_var(
            b.measurement.as_rat(),
            b.variance.as_rat(),
            m.as_rat(),
            v.as_rat(),
        ),
    ensures
        r1.measurement == r2.measurement,
        r1.variance == r2.variance,
{
    assert(r1.measurement.num == r2.measurement.num);
    assert(r1.measurement.den == r2.measurement.den);
    assert(r1.variance.num == r2.variance.num);
    assert(r1.variance.den == r2.variance.den);
}

} // verus!
