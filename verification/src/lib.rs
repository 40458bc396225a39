//! Core of a lattice host's control plane: subject routing, the control
//! interface dispatcher, the in-memory projection of the lattice data bucket,
//! live configuration bundles, and the host builder, all specified over plain
//! mathematical models and verified.
//!
//! Transport plumbing (the message bus, its key-value buckets) is kept outside;
//! the library exchanges plain values with it and calls serde_json for the wire
//! encoding through a small trusted boundary in `json`.

pub mod json;
pub mod kvlist;
pub mod subject;
pub mod types;
pub mod event;
pub mod host;
pub mod policy;
pub mod cmd;
pub mod store;
pub mod ctl;
pub mod config;
pub mod builder;
