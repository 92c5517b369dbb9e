//! Fitting a one-weight linear model `y = w * x` by gradient descent with
//! forward finite-difference derivatives, in exact fixed-point arithmetic.
pub mod cost;
pub mod dataset;
pub mod descent;
pub mod fixed;
pub mod trainer;
