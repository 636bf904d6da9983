//! A collaborative text-editing core: an operational-transformation engine,
//! the per-document commit log, and the session registry that linearizes
//! concurrent edits and fans the committed stream out to subscribers.

pub mod api;
pub mod collaboration;
pub mod ot;
