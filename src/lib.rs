//! A verified core for a small CRUD service over dogs and breeds: payload
//! validation, tri-state partial updates, in-memory pagination, the decisions
//! each service operation takes around its store calls, the mapping of
//! outcomes to HTTP status codes, and an in-memory store with the gateway's
//! semantics.
pub mod model;
pub mod rules;
pub mod error;
pub mod patch;
pub mod pagination;
pub mod store;
pub mod service;
pub mod dog_service;
pub mod breed_service;
pub mod laws;
