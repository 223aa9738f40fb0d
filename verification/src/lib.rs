//! Authentication and session management: session cookies, credential
//! selection, origin gating and the client-side session state machine.

pub mod error;
pub mod session;
pub mod text;
pub mod cookie;
pub mod return_to;
pub mod restore;
pub mod state;
pub mod user;
pub mod server;
pub mod transport;
pub mod server_fn;
pub mod context;
pub mod client;
pub mod components;
pub mod guards;
pub mod sync;
pub mod hooks;
pub mod operations;
pub mod builder;
pub mod engine;
pub mod derive;
