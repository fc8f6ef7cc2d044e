//! Core of a local container-management control plane.
//!
//! The crate models the containers known to a runtime as an immutable
//! snapshot, resolves identifiers inside it, turns a typed lifecycle
//! operation into the runtime calls it needs and folds their results into a
//! single outcome, and tracks a bounded, order-preserving relay that carries
//! log chunks from a producer to a sink. Everything here is plain
//! computation on plain values; the surrounding application performs the
//! actual runtime calls and hands their results back.

pub mod directory;
pub mod dispatch;
pub mod relay;
pub mod text;
