//! A one-dimensional recursive Bayesian estimator (a scalar Kalman filter).
//!
//! The estimator keeps a belief about a single unobserved quantity as a
//! `(measurement, variance)` pair and refines it one observation at a time:
//! only the previous belief and the new observation are needed to produce the
//! next belief.
//!
//! All arithmetic is carried out over exact rationals ([`Ratio`]), so every
//! operation has an exact contract: the verifier checks that each returned
//! belief is precisely the value given by the closed-form fusion and
//! prediction formulas.

mod ratio;
mod estimator;

pub use estimator::LQE;
pub use ratio::Ratio;
