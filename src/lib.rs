//! Evaluation of polynomials in nested (Newton) form over batches of points.
//!
//! A polynomial is given by coefficients `c` and optional basis shifts `b`:
//! `c0 + (x - b0)(c1 + (x - b1)(c2 + ...))`. This crate holds the parts of
//! the engine that decide and shape: input validation and strategy choice,
//! kernel selection, the reshaping of coefficients and basis into the step
//! sequences that the scalar and vector kernels fold over, and the splitting
//! and stitching of point batches. The arithmetic over those steps is done
//! by the caller's kernels; the model module states what it computes.

mod dispatch;
mod error;
pub mod laws;
pub mod model;
mod shaping;

pub use dispatch::{
    plan_evaluation, prepare_evaluation, select_kernel, split_points, stitch, EvaluationJob, KernelKind,
    Plan, VectorSupport, POINT_BATCH,
};
pub use error::EvalError;
pub use model::Step;
pub use shaping::{
    expand_basis, prepare_basis, reverse_pad_coefficients, scalar_steps, vector_steps, COEFFICIENT_GROUP,
};
