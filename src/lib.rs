//! Request execution and typed-decoding pipeline of a client for a
//! JSON-over-HTTP API, with the data shapes of its comment and live-room
//! endpoints.

pub mod comment;
pub mod diagnostic;
pub mod error;
pub mod headers;
pub mod json;
pub mod live;
pub mod request;
pub mod response;

pub use error::BpiError;
pub use response::BpiResponse;
