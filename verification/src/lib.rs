//! The core of a client for a cryptocurrency exchange's REST and WebSocket
//! interfaces, for the spot and the USD-margined futures segments.
//!
//! The library prepares and judges; it never touches the network. A REST
//! call is assembled into a plain [`http::HttpRequest`], and the answer that
//! some transport brings back is classified by [`http::conclude`]. A stream
//! is named by a [`stream::StreamSubscription`], and what arrives on it is
//! ruled by [`channel::Channel`].
//!
//! - [`query`]: the canonical query string of a parameter value.
//! - [`structure`]: why that string can always be taken apart again.
//! - [`sign`]: the signature over the canonical query string.
//! - [`error`]: the failures, and the status codes that stand for them.
//! - [`http`]: assembling a request and concluding a call.
//! - [`stream`]: topics and the paths of the streaming endpoints.
//! - [`json`]: the envelope of the combined streams.
//! - [`channel`]: the state of a channel and its keepalive.
//! - [`client`]: the endpoints of each segment.
//! - [`params`], [`response`], [`enums`]: the shapes that travel.
//! - [`numeral`], [`text`]: reading and writing decimal numerals.

pub mod channel;
pub mod client;
pub mod enums;
pub mod error;
pub mod http;
pub mod json;
pub mod numeral;
pub mod params;
pub mod query;
pub mod response;
pub mod sign;
pub mod stream;
pub mod structure;
pub mod text;
