//! A typed client library for a bookmark-management service's JSON API.
//!
//! The library decodes wire-format "entry" objects (saved articles) into a
//! strict model, reconstitutes entries returned by delete operations (which
//! lack an identifier), and walks server-side paginated listings into one
//! ordered result set.

pub mod aggregate;
pub mod codec;
pub mod json;
pub mod types;
pub mod wire;
