//! The orchestration core of a tagged-content repository.
//!
//! The repository keeps three stores consistent: a relational database that
//! is the source of truth, an object store for media blobs, and a search
//! index that is a derived projection. This crate holds the rules for doing
//! so: who may do what, what the cache may hand out, in which order the
//! stores are touched, and how credentials are checked. It performs no I/O.
//! Every operation that needs a store is a small state machine that names the
//! next call to make and is resumed with the reply.

pub mod auth;
pub mod cache;
pub mod cli;
pub mod conf;
pub mod consistency;
pub mod content;
pub mod error;
pub mod export;
pub mod graph;
pub mod ident;
pub mod model;
pub mod obj;
pub mod output;
pub mod preview;
pub mod protocol;
pub mod repo;
pub mod router;
pub mod source;
