//! Verified core of a command-line client for a project/todo-list service
//! reachable over HTTP+JSON.
//!
//! The library holds everything that can be decided or computed from plain
//! values: the data model, JSON rendering of requests and responses, the URL
//! and body of each API call, the composite project join, and the command
//! dispatcher's decisions. The surrounding binary performs the HTTP I/O and
//! feeds the results back in.

pub mod api;
pub mod cli;
pub mod join;
pub mod json;
pub mod model;
pub mod render;
