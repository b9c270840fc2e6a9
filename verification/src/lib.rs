//! A verified core for a read-only query gateway.
//!
//! The gateway accepts ad-hoc query texts, admits only those that begin with
//! the token `select` after trimming and case folding, forwards admitted
//! queries to a relational backend, projects each raw result row into a
//! transport-safe mapping of column names to string-or-null values, and wraps
//! every outcome in a reply envelope with a status classification.
//!
//! This crate holds the decision logic: the admission filter, the row
//! projector, the reply assembler, and the step function that sequences one
//! request through those stages. The surrounding process supplies the
//! transport and the backend session and drives the step function.

pub mod admission;
pub mod envelope;
pub mod pipeline;
pub mod projection;
