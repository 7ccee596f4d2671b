//! Storage-side rules of the OpenLLMProxy control plane, verified with Verus.
//!
//! The library holds the decisions that the PostgreSQL and Valkey adapters
//! make around their queries: input validation, the parsing of stored
//! enumerations and script replies, lifecycle transitions, pagination and
//! key derivation.

pub mod access;
pub mod authentication;
pub mod carried;
pub mod catalog;
pub mod circuits;
pub mod configuration;
pub mod domain;
pub mod duration;
pub mod idempotency;
pub mod identity;
pub mod limits;
pub mod maintenance;
pub mod media_jobs;
pub mod oidc;
pub mod ordering;
pub mod paging;
pub mod revisions;
pub mod route_drafts;
pub mod routes;
pub mod rows;
pub mod secrets;
pub mod text;
