//! What the transport hands to the core and takes from it: the shape of a
//! frame, and what to do on each thing that arrives.

pub mod contracts;
pub mod handlers;
