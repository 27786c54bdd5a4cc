//! Lusion: a small TCP server core with a pooled connection handler, and the
//! validation and security rules of the web application built on it.
//!
//! The crate holds the decisions; sockets, threads and futures are driven by
//! the program that embeds it.

pub mod db;
pub mod error;
pub mod net;
pub mod security;
pub mod validator;
pub mod web;
