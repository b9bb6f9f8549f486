//! A client's side of the Subsonic REST interface, without the network: it builds the
//! authenticated URL of a request and says what a response means. Sending the request
//! and receiving the response is left to the caller.
//!
//! - [`version`]: versions of the interface, read and compared number by number.
//! - [`auth`]: the authentication part of a query, with a salted token from 1.13.0 on.
//! - [`uri`]: the scheme and the server of a base address.
//! - [`json`]: decoded JSON documents.
//! - [`response`]: what an HTTP status and a decoded body mean.
//! - [`client`]: [`Sunk`], which ties these together for one server.
//! - [`text`], [`error`]: what the others share.

pub mod auth;
pub mod client;
pub mod error;
pub mod json;
pub mod response;
pub mod text;
pub mod uri;
pub mod version;

pub use crate::client::Sunk;
