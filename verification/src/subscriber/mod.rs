//! The subscription side: the wire event model, the log decoder, and the
//! decision logic of the resilient subscription loop.

pub mod decoder;
pub mod model;
pub mod service;
