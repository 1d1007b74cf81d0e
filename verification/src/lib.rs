//! Decoding and error classification for the replies of a remote
//! configuration-management service.
//!
//! The service answers query, publish, remove and batch-change-listen
//! requests with JSON text. This crate parses that text against the wire
//! contract (field names, numeric codes, per-variant dispatch identifiers),
//! produces typed response values, and funnels every failure through one
//! closed error taxonomy. Decoding is pure and total: malformed input yields
//! `Error::Serialization`, never a panic or a partially filled value.

pub mod error;
pub mod json;
pub mod laws;
pub mod parse;
pub mod render;
pub mod response;
pub mod roundtrip;
pub mod schema;

pub use error::Error;
pub use response::{
    ConfigChangeBatchListenServerResponse, ConfigPublishServerResponse, ConfigQueryServerResponse,
    ConfigRemoveServerResponse, Response,
};
pub use schema::{ConfigContext, ResponseCode};
