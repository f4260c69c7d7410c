//! The verified core of a client for a hosted natural-language-processing
//! service.
//!
//! The library decides what goes out with a call and what to make of what
//! comes back; it never touches the network. Whoever drives it sends the
//! [`exchange::HttpRequest`] it builds, hands back the [`exchange::HttpReply`],
//! and feeds a streamed body chunk by chunk to a [`stream::StreamDecoder`].
pub mod api;
pub mod client;
pub mod decimal;
pub mod error;
pub mod exchange;
pub mod json;
pub mod status;
pub mod stream;

pub use client::Cohere;
pub use error::{CohereApiError, CohereStreamError};
