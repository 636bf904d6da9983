//! The operation algebra and the document log built on it.

pub mod convergence;
pub mod document;
pub mod operations;
