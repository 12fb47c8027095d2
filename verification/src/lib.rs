//! Verified core of a browser-backed reverse proxy.
//!
//! The crate decides; its caller acts. Every step that talks to a browser, a
//! socket or the environment is performed by the caller, which reports what
//! happened and receives the next thing to do.

pub mod browser;
pub mod config;
pub mod decimal;
pub mod error;
pub mod filter;
pub mod headers;
pub mod launch;
pub mod proxy;
pub mod server;
pub mod session;
pub mod trace;
