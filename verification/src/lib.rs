//! A client library for the Backblaze B2 native API.
//!
//! The library knows what is said on the wire and what it means; it does not
//! send anything itself. A call goes in three steps. The library describes
//! the request ([`api::OutgoingRequest::request`]). The caller sends it over a
//! transport of its choice and hands back what the transport ended in: a
//! [`api::Reply`], or the transport's error. The library turns that into the
//! outcome of the call ([`ApiResult::from_exchange`]), which is one of three
//! things: what the server returned, the error with which the server refused,
//! or the failure of the call itself.
//!
//! A [`Session`] is made in the same way, from the exchange with the
//! `b2_authorize_account` endpoint that [`config::Config`] names
//! ([`Session::try_new`]). It keeps the token and the description of the
//! account that the server returned, and the transport handle.
//!
//! Bodies are JSON. They are read and written with `serde_json`; what the
//! library assumes of it is set out in [`json`].

pub mod api;
pub mod config;
pub mod json;
pub mod session;
mod text;

pub use api::{ApiError, ApiErrorCode, ApiResponse, ApiResult};
pub use session::{Session, SessionError};
