//! Rules of the web layer: identities, error categories and static files.

pub mod error;
pub mod fs;
pub mod middleware;
pub mod response;
pub mod security;
pub mod users;
