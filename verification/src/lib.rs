//! Shape, support and control decisions of dense associative memory.
//!
//! The numeric kernels of a modern Hopfield network (energies, gradients,
//! softmax and sparsemax weights) work on `f64` values. This crate holds the
//! decisions around them that are made on plain integers and booleans, each
//! with an exact contract:
//!
//! - [`shape`]: when a weighted average of stored memories is defined, and
//!   what its dimension is;
//! - [`support`]: which prefix of the sorted logits forms the sparsemax
//!   support;
//! - [`descent`]: the stopping rule of energy-descent retrieval, as a state
//!   machine driven by one convergence report per iteration.
pub mod descent;
pub mod shape;
pub mod support;
