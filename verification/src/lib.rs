//! Verified core of a transparent HTTP reverse proxy.
//!
//! The library holds the request/response translation logic: building the
//! target URL, mapping the method token, filtering hop-by-hop headers in both
//! directions, passing bodies through, and mapping every failure to a single
//! well-formed error response. Listening, the outbound network call, and
//! process bootstrap live outside the library and hand it plain values.

pub mod ascii;
pub mod error;
pub mod headers;
pub mod method;
pub mod model;
pub mod translate;
