//! Client-side rules of the Responses API: how a request body is written, which
//! headers go with it, in which order a stream is opened, and which models and
//! providers a one-shot patch run accepts.
//!
//! Everything here is decided on plain values. Sockets, files, clocks and
//! asynchronous waiting belong to the embedding application.

pub mod body_laws;
pub mod client;
pub mod error;
pub mod exchange_laws;
pub mod headers;
pub mod json;
pub mod member_laws;
pub mod metadata;
pub mod patch;
pub mod patch_laws;
pub mod raw;
pub mod request;
