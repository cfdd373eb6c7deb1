//! A gateway core that lets chat-completion clients talk to an upstream
//! "Responses" event-stream API: message translation, session identity,
//! request dispatch planning, event-stream re-encoding and aggregation, and
//! the PKCE authorization-code flow that obtains the credentials.
//!
//! Everything here computes on plain values; only the clock and the random
//! source are read. Sockets, the HTTP server and the configuration store live
//! with the caller.

pub mod aggregate;
pub mod chance;
pub mod digest;
pub mod dispatch;
pub mod error;
pub mod event;
pub mod image;
pub mod json;
pub mod message;
pub mod model;
pub mod oauth;
pub mod pkce;
pub mod request;
pub mod session;
pub mod state;
pub mod stream;
pub mod text;
pub mod tools;
pub mod translate;
pub mod upstream;
pub mod web;
