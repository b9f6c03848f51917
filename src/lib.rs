//! A small client for a hosted content API queried with GROQ strings: it builds
//! the query endpoint URLs and the bearer-token header, and decodes JSON bodies.
pub mod config;
pub mod error;
pub mod headers;
pub mod helpers;

pub use config::{create, get_url, Query, SanityConfig};
pub use error::SanityError;
pub use headers::construct_headers;
