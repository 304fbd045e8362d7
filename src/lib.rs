//! Authoritative DNS front-end for a container host: the query grammar, the
//! selection of running instances and the records answered for them.

pub mod text;
pub mod config;
pub mod inventory;
pub mod records;
pub mod query;
pub mod pattern;
pub mod resolve;
pub mod handler;
pub mod laws;
pub mod transport;
pub mod api;
pub mod commands;
