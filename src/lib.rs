//! A small static-file HTTP responder: request-line parsing, a shared
//! response cache, optional gzip compression and response framing.

pub mod cache;
pub mod compression;
pub mod connection;
pub mod request;
pub mod resource;
pub mod response;
pub mod text;
