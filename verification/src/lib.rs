//! A typed REST client core.
//!
//! The crate holds everything a REST call decides: how the request for a typed
//! resource is put together from the client's configuration, and how whatever the
//! transport reports back is turned into a [`Response`] or an [`Error`]. Sending the
//! request is left to the caller, who hands the outcome back as a
//! [`TransportOutcome`].

pub mod client;
pub mod error;
pub mod headers;
pub mod laws;
pub mod request;
pub mod response;
pub mod text;
pub mod timeout;
pub mod uri;

pub use client::{Builder, RestClient, RestPath};
pub use error::Error;
pub use request::{Method, Request};
pub use response::{Response, TransportOutcome};
pub use timeout::Timeout;
pub use uri::Query;
