//! A single-threaded HTTP/1.x server core without I/O of its own.
//!
//! The crate holds the protocol value types, the request parser, the response
//! serializer and the event loop's decisions. The event loop is a state
//! machine: the caller performs each [`Action`] on the operating system and
//! hands the outcome back as an [`Event`].

pub mod method;
pub mod protocol;
pub mod request;
pub mod response;
pub mod server;
pub mod status_code;
pub mod text;

pub use method::Method;
pub use protocol::Protocol;
pub use request::Request;
pub use response::Response;
pub use server::linux_server::{Action, Event};
pub use server::Server;
pub use status_code::StatusCode;
