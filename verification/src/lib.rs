//! Mirrors source-control owners and repositories from one hosting API to
//! another: a rate-limited request layer drives two upstream clients, a
//! pagination drainer collects listings, and an idempotent orchestration
//! protocol sequences the remote side effects, treating "already exists"
//! as a skip rather than an error.
//!
//! All remote I/O is performed by a driver outside this crate: each flow in
//! here is a state machine that emits the next request to perform and
//! consumes the result, so the decision logic is verified while the
//! transport stays outside.

pub mod avatar;
pub mod cli;
pub mod delete;
pub mod forgejo;
pub mod github;
pub mod mirror;
pub mod protocol;
pub mod requests;
pub mod single;
pub mod sort;
pub mod status;
pub mod text;
pub mod urls;
