//! A node-resident relay: it registers HTTP paths with a registrar process,
//! dispatches inbound envelopes, serves a rendered page and a script asset,
//! and relays opaque vector-query payloads either to an external search
//! service or to one fixed delegate peer, returning the answer byte for byte.
pub mod delegate;
pub mod dispatch;
pub mod identity;
pub mod json;
pub mod message;
pub mod page;
pub mod registrar;
pub mod relay;
pub mod text;
