//! Core of a content-management scaffold.
//!
//! Given an entity type that declares its schema — names, an identifier,
//! ordered named columns — the scaffold derives URL slugs, generates the
//! full API and UI route table, codes instances to and from the wire and
//! storage row formats, and runs create, update and delete through
//! per-entity lifecycle hooks against a shared request context.

pub mod article;
pub mod column;
pub mod context;
pub mod engine;
pub mod entity;
pub mod hooks;
pub mod ids;
pub mod routes;
pub mod slug;
pub mod store;
pub mod wire;
