//! Request-binding resolution and file delivery for a worker gateway.
//!
//! Routes are compiled into bindings whose responses are produced by
//! evaluating an expression language; evaluation yields a dynamically
//! tagged value tree.  This crate resolves such a tree into concrete
//! HTTP response parts (status, headers, content type) or into
//! file-serving instructions, and decides per request whether file
//! bytes come from an immutable content-addressed blob store or from
//! a live worker's writable filesystem.

pub mod content_type;
pub mod fileserver_binding_handler;
pub mod golem_worker_binding;
pub mod hashing;
pub mod headers;
pub mod initial_component_files;
pub mod model;
pub mod text;
pub mod typed_value;
