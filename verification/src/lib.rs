//! Extended-query execution engine for a PostgreSQL wire-protocol client.
//!
//! The engine turns a prepared statement plus a parameter list into encoded
//! protocol frames, and decodes the backend's replies into typed, indexable
//! rows. All protocol decisions are made by synchronous state machines over
//! plain message values, so a caller can drive them from any transport: the
//! connection-driving task, channels, and every suspension point live
//! outside this crate.

pub mod arena;
pub mod cache;
pub mod command_tag;
pub mod error;
pub mod frames;
pub mod message;
pub mod pgtype;
pub mod prepare;
pub mod query;
pub mod responses;
pub mod row;
pub mod statement;
pub mod wire;
