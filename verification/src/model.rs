//! The request-scoped data the translator works on.
//!
//! Every entity holds plain values: method tokens, URLs, header names and
//! values, and bodies are byte sequences; nothing here is shared or mutated
//! across requests.

use vstd::prelude::*;

use crate::headers::Header;
use crate::method::Method;

verus! {

/// Process-wide configuration, immutable after startup.
#[derive(Debug)]
pub struct ProxyConfig {
    /// The fixed upstream origin: scheme, host and port, with no path of
    /// its own.
    pub target_origin: Vec<u8>,
    /// The address the listener binds.
    pub listen_addr: String,
    /// Whether the outbound client validates the upstream TLS certificate.
    pub verify_upstream_tls: bool,
    /// Whether the outbound client follows redirects itself.
    pub follow_redirects: bool,
}

/// A well-formed target origin: non-empty and without a trailing slash,
/// so that it carries no path of its own.
pub open spec fn origin_wf(origin: Seq<u8>) -> bool {
    origin.len() > 0 && origin.last() != '/' as u8
}

impl ProxyConfig {
    /// Builds the configuration for a well-formed origin, with the fixed
    /// outbound policy of this proxy: the upstream certificate is not
    /// validated (it is expected to be self-signed) and redirects are
    /// returned to the caller rather than followed.
    pub fn new(target_origin: Vec<u8>, listen_addr: String) -> (r: Option<ProxyConfig>)
        ensures
            r is Some <==> origin_wf(target_origin@),
            r matches Some(c) ==> {
                &&& c.target_origin@ == target_origin@
                &&& c.listen_addr@ == listen_addr@
                &&& !c.verify_upstream_tls
                &&& !c.follow_redirects
            },
    {
        if target_origin.len() == 0 {
            return None;
        }
        if target_origin[target_origin.len() - 1] == '/' as u8 {
            return None;
        }
        Some(
            ProxyConfig {
                target_origin,
                listen_addr,
                verify_upstream_tls: false,
                follow_redirects: false,
            },
        )
    }
}

/// One decoded inbound request, as the listener hands it over.
#[derive(Debug)]
pub struct InboundRequest {
    /// The raw method token.
    pub method: Vec<u8>,
    /// The path-and-query component of the request target, when present.
    pub path_and_query: Option<Vec<u8>>,
    /// The headers, in order, duplicates and casing preserved.
    pub headers: Vec<Header>,
    /// The fully buffered body, possibly empty.
    pub body: Vec<u8>,
}

/// The outbound request handed to the HTTP client.
#[derive(Debug)]
pub struct OutboundRequest {
    /// The mapped method.
    pub method: Method,
    /// The absolute target URL.
    pub url: Vec<u8>,
    /// The forwarded headers, in order.
    pub headers: Vec<Header>,
    /// The body to send, or nothing when the inbound body was empty.
    pub body: Option<Vec<u8>>,
}

/// The upstream's reply, as the HTTP client hands it back.
#[derive(Debug)]
pub struct UpstreamReply {
    /// The status code.
    pub status: u16,
    /// The reply headers, in order.
    pub headers: Vec<Header>,
    /// The fully buffered reply body.
    pub body: Vec<u8>,
}

/// The response written back to the original caller.
#[derive(Debug)]
pub struct ProxyResponse {
    /// The status code.
    pub status: u16,
    /// The response headers, in order.
    pub headers: Vec<Header>,
    /// The fully buffered response body.
    pub body: Vec<u8>,
}

} // verus!
