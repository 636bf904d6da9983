//! Sessions, one per document, and the registry that finds or makes them.

pub mod channels;
pub mod manager;
pub mod sessions;
