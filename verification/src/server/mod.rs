//! Server-side integration: request cookies, status codes, request-scoped
//! session resolution.

pub mod cookies;
pub mod error;
pub mod fullstack;
pub mod middleware;
pub mod server_fn;
