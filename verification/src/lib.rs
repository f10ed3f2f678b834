//! Self-hosted web analytics: an event store for page views and downloads,
//! and the aggregation engine that answers statistical queries over it.
//!
//! The store (`db`) keeps two append-only streams of events behind one
//! guarded connection. A query reads the rows of a half-open interval of
//! time and hands them to the engine (`engine`), which selects and projects
//! them (`observe`), groups and counts them (`tally`), and puts the groups
//! in order (`arrange`). What every query returns is a function of the rows
//! it was given, stated in the contracts of `engine`; `laws` holds what
//! follows for every event log. `handlers` and `assets` say what the
//! boundary layer answers to a request.

pub mod arrange;
pub mod assets;
pub mod db;
pub mod engine;
pub mod handlers;
pub mod laws;
pub mod models;
pub mod observe;
pub mod records;
mod sqlite;
pub mod tally;
pub mod text;
pub mod views;
