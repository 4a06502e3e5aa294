//! A small static-file HTTP server core: a fixed-size worker pool, the
//! request-reading protocol that feeds it, and the responses it produces.

pub mod logging;
pub mod request;
pub mod response;
pub mod server;
pub mod thread_pool;

pub use server::{App, Config};
