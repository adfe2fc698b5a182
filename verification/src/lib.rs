//! The decision core of a minimal HTTP/1.1 client exchange.
//!
//! Nothing here performs I/O. A driver owns the socket and the wire codec; it
//! reports what happened to the state machines of this crate, and they answer
//! with the next phase of the exchange.
//!
//! [`RequestSend`] exchanges a request whose body is held in memory,
//! [`RequestWrite`] one whose body is streamed, and [`Transport`] connects
//! either of them.

pub mod error;
pub mod head;
pub mod headers;
pub mod origin;
pub mod outcome;
pub mod request_send;
pub mod request_write;
pub mod transport;

pub use crate::error::HttpError;
pub use crate::outcome::Outcome;
pub use crate::request_send::RequestSend;
pub use crate::request_write::RequestWrite;
pub use crate::transport::{Transport, TransportError};
