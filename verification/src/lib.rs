//! Core logic of a content-discovery addon server: a capability manifest
//! with identifier-prefix matching, a codec for the protocol's
//! `key=v1,v2,....json` path segments, pluggable catalog and stream
//! resolvers, and the dispatcher that routes a validated request to a
//! resolver and shapes its result into the protocol's response envelope.

pub mod catalog;
pub mod codec;
pub mod manifest;
pub mod resources;
pub mod routes;
pub mod stream;
pub mod strutil;
