//! An in-memory store for uniquely identified, mutable ticket records.
//!
//! Tickets carry a validated title and description and a workflow status.
//! The store assigns strictly increasing identifiers starting at zero and
//! supports insertion, lookup, and merge-style partial updates.  A
//! message-passing client/server pair serializes concurrent access through
//! a bounded command channel.

pub mod actor;
pub mod data;
pub mod description;
pub mod status;
pub mod store;
pub mod text;
pub mod title;
