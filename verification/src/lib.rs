//! Ingestion pipeline for the log events of an ERC-20 style token contract.
//!
//! The crate models the core of the pipeline: the typed event model, the
//! decoder from raw logs to events, the append-only event store with its
//! paginated, type-filtered read surface, the ingest step that maps decoded
//! events into persisted records, and the decision logic of the resilient
//! subscription loop. Everything here is verified; the surrounding I/O
//! (WebSocket transport, relational database, HTTP framing) lives outside
//! the library and hands plain values in and out.

pub mod config;
pub mod error;
pub mod primitives;
pub mod storage;
pub mod subscriber;
pub mod web;
