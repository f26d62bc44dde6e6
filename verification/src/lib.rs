//! A small event service library: session verification, event creation and
//! listing, RFC 3339 timestamp encoding, and the HTTP response envelopes that
//! present these outcomes to clients.

pub mod events;
pub mod handlers;
pub mod json;
pub mod session;
pub mod timestamp;
