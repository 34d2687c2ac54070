//! Exact decision logic of a random-matrix-theory shrinkage kernel: method
//! selection and naming, inverse-shrinkage loss names, FFT grid and stencil
//! sizing, the deterministic sampler of the hierarchical low-rank solver and
//! the column permutation of eigenvector matrices.
pub mod config;
pub mod grid;
pub mod hodlr;
pub mod inverse;
pub mod pareto;
pub mod pipeline;
pub mod spiked;
pub mod text;
