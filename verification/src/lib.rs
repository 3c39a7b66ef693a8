//! Core of a minimal to-do service: three endpoints over one persisted
//! table of items.
//!
//! The service lists all items, adds an item, and deletes an item by
//! identifier. This crate carries the verified core: the exact response
//! each handler owes for each outcome of its store operation
//! ([`handlers`]), the decimal rendering those responses embed
//! ([`decimal`]), and the behaviour of the `todo_list` table itself —
//! fresh never-reused identifiers, deletion of exactly the named row —
//! as a proved model ([`store`]). The binary around it performs the HTTP
//! and SQLite I/O and hands every outcome to these functions.

pub mod decimal;
pub mod handlers;
pub mod store;
pub mod types;
