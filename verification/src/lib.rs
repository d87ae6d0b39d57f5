//! Control-plane client for a proxy daemon that serves a REST-like API on a
//! Unix domain socket.
//!
//! The crate holds everything the client decides: the address and the shape
//! of every request, the meaning of every reply, and the two cached
//! documents. It performs no I/O. A caller asks the manager for a
//! [`Request`], carries it to the daemon by whatever transport it has, and
//! hands the reply (the bytes of the response body, or the failure) back to
//! the manager.

pub mod endpoint;
pub mod error;
pub mod json;
pub mod laws;
pub mod manager;
pub mod request;
pub mod text;
pub mod uri;

pub use error::ClientError;
pub use manager::{MihomoData, MihomoManager, Reply};
pub use request::{Header, Method, Request};
