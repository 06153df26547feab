//! The decision logic of an API testing proxy: cache fingerprints, the
//! forwarding engine, the GraphQL adapter and the WebSocket relay, each as
//! verified functions from plain values to plain values.
//!
//! Nothing here performs I/O. A caller owns the sockets, the clock, the
//! cache and the metrics registry; it hands each event to the library and
//! carries out the action that comes back.
//!
//! - [`fingerprint`] derives the cache key of a request.
//! - [`engine`] takes one HTTP request from acceptance to its answer;
//!   [`cache`] states what holds of every such exchange.
//! - [`graphql`] wraps a GraphQL operation into a call and unwraps the
//!   answer.
//! - [`relay`] runs one WebSocket session; [`transcript`] states what holds
//!   of every transcript.
//! - [`headers`] decides which headers go out and how those that come back
//!   collapse; [`canonical`] gives a header list the form that depends on
//!   its mapping alone.
//! - [`method`], [`json`], [`outbound`], [`exchange`], [`metrics`],
//!   [`settings`] and [`text`] hold what these share.

pub mod cache;
pub mod canonical;
pub mod engine;
pub mod exchange;
pub mod fingerprint;
pub mod graphql;
pub mod headers;
pub mod json;
pub mod method;
pub mod metrics;
pub mod outbound;
pub mod relay;
pub mod settings;
pub mod text;
pub mod transcript;
