//! Null-aware string kernels over columns of optional strings.

pub mod column;
pub mod kernels;
pub mod laws;
pub mod text;
