//! A multi-tenant function-as-a-service core: compiled modules are cached per
//! tenant and executed in fresh, isolated sandboxes, one per invocation.
//!
//! The crate is organised bottom-up: [`errors`] gives the failure taxonomy,
//! [`context`] builds the per-invocation environment table, [`engine`] holds
//! the trusted boundary to the runtime engine, [`cache`] is the tenant-scoped
//! compiled-module cache, and [`faas`] ties them into the request-level
//! operations.

pub mod cache;
pub mod context;
pub mod engine;
pub mod errors;
pub mod faas;
