//! Application errors, as the web layer defines them.

pub use crate::web::error::{user_error, Error, ErrorKind, ResultExt};
