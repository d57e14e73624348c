//! An in-memory table of student records with verified create, read,
//! update, delete and filter operations.
//!
//! The [`store::StudentDb`] type owns the table. Its contracts are stated
//! over the mathematical model in [`table`] and [`query`], and [`laws`]
//! proves what holds across several operations. [`requests`] answers the
//! requests of a client on plain values, with the replies of [`reply`];
//! carrying them over a network is left to the program around the
//! library.

pub mod error;
pub mod ids;
pub mod laws;
pub mod model;
pub mod payloads;
pub mod query;
pub mod reply;
pub mod requests;
pub mod store;
mod system;
pub mod table;
