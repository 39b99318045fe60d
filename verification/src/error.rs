//! The error taxonomy and its single mapping to the caller-facing response.
//!
//! Every failure of one request's translation is one of these variants; each
//! carries the rendered text of its underlying cause. All of them surface to
//! the original caller as status 502 with a descriptive plain-text body, and
//! none is fatal to any other request.

use vstd::prelude::*;

use crate::ascii::append_bytes;
use crate::ascii::ascii_bytes;
use crate::ascii::copy_bytes;
use crate::ascii::str_bytes;
use crate::model::ProxyResponse;

verus! {

/// Why one request's translation failed.
#[derive(Debug)]
pub enum ProxyError {
    /// The outbound transport failed: connection, DNS, TLS or timeout.
    RequestError(Vec<u8>),
    /// A header value violates the transport's syntax rules.
    InvalidHeaderValue(Vec<u8>),
    /// A header name violates the transport's syntax rules.
    InvalidHeaderName(Vec<u8>),
    /// The target URL is malformed after concatenation.
    UriError(Vec<u8>),
    /// The response builder failed.
    HttpError(Vec<u8>),
    /// The inbound body could not be fully read.
    AxumError(Vec<u8>),
    /// The inbound method token is unmappable.
    MethodError,
}

/// The descriptive text of an error, as bytes.
pub open spec fn spec_description(e: ProxyError) -> Seq<u8> {
    match e {
        ProxyError::RequestError(d) => ascii_bytes("Request error: "@) + d@,
        ProxyError::InvalidHeaderValue(d) => ascii_bytes("Invalid header value: "@) + d@,
        ProxyError::InvalidHeaderName(d) => ascii_bytes("Invalid header name: "@) + d@,
        ProxyError::UriError(d) => ascii_bytes("URI parse error: "@) + d@,
        ProxyError::HttpError(d) => ascii_bytes("HTTP error: "@) + d@,
        ProxyError::AxumError(d) => ascii_bytes("Axum error: "@) + d@,
        ProxyError::MethodError => ascii_bytes("Method conversion error"@),
    }
}

/// The body of every error response: `Proxy error: ` followed by the
/// error's descriptive text.
pub open spec fn spec_error_body(e: ProxyError) -> Seq<u8> {
    ascii_bytes("Proxy error: "@) + spec_description(e)
}

/// An ASCII prefix followed by the detail bytes.
fn prefixed(prefix: &str, detail: &Vec<u8>) -> (r: Vec<u8>)
    requires
        prefix.is_ascii(),
    ensures
        r@ == ascii_bytes(prefix@) + detail@,
{
    let mut r = copy_bytes(str_bytes(prefix));
    append_bytes(&mut r, detail.as_slice());
    r
}

impl ProxyError {
    /// The descriptive text of this error.
    pub fn description(&self) -> (r: Vec<u8>)
        ensures
            r@ == spec_description(*self),
    {
        proof {
            reveal_strlit("Request error: ");
            reveal_strlit("Invalid header value: ");
            reveal_strlit("Invalid header name: ");
            reveal_strlit("URI parse error: ");
            reveal_strlit("HTTP error: ");
            reveal_strlit("Axum error: ");
            reveal_strlit("Method conversion error");
        }
        match self {
            ProxyError::RequestError(d) => prefixed("Request error: ", d),
            ProxyError::InvalidHeaderValue(d) => prefixed("Invalid header value: ", d),
            ProxyError::InvalidHeaderName(d) => prefixed("Invalid header name: ", d),
            ProxyError::UriError(d) => prefixed("URI parse error: ", d),
            ProxyError::HttpError(d) => prefixed("HTTP error: ", d),
            ProxyError::AxumError(d) => prefixed("Axum error: ", d),
            ProxyError::MethodError => copy_bytes(str_bytes("Method conversion error")),
        }
    }

    /// The well-formed response every error surfaces as: status 502,
    /// no headers of its own, and a plain-text body that starts with
    /// `Proxy error: ` and names the cause.
    pub fn into_response(self) -> (r: ProxyResponse)
        ensures
            r.status == 502,
            r.headers@.len() == 0,
            r.body@ == spec_error_body(self),
    {
        proof {
            reveal_strlit("Proxy error: ");
        }
        let mut body = copy_bytes(str_bytes("Proxy error: "));
        let d = self.description();
        append_bytes(&mut body, d.as_slice());
        ProxyResponse { status: 502, headers: Vec::new(), body }
    }
}

} // verus!
