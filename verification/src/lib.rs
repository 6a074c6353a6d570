//! An HTTP traffic observer that infers service-to-service dependency edges.
//!
//! One validated configuration (the configuration holder) produces one
//! observer per HTTP transaction; the observer correlates the request-phase
//! routing identity with the response-phase peer and upstream identities and
//! emits the inferred edge, exactly once per transaction, tolerant of missing
//! or malformed signals.

pub mod config;
pub mod learner;
pub mod text;
