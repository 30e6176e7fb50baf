//! Composite Simpson's 1/3 rule over sampled data.
//!
//! The integrator validates a pair of equal-length, odd-count sample
//! sequences, derives the uniform step size from the endpoints, weights each
//! ordinate with the Simpson coefficient for its index (1 at the endpoints,
//! 2 at even interior indices, 4 at odd ones), sums the weighted terms and
//! scales the sum by a third of the step size.
//!
//! This crate holds the verified discrete core: input validation with its
//! exact acceptance condition, the per-index Simpson coefficient, and the
//! closed-form laws of the coefficient sums that make the rule exact for
//! constant and linear data. The floating-point summation itself is left to
//! the embedding application, which reads the coefficients from here.

pub mod error;
pub mod integrator;
pub mod weights;
