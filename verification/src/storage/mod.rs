//! The event store: the persisted model, the append-only repository, and
//! the service that binds the ingest step to it.

pub mod model;
pub mod repository;
pub mod service;
