//! The proxy translator: one inbound request to one outbound request, and
//! one upstream outcome to one response.
//!
//! The outbound URL is the fixed target origin with the inbound
//! path-and-query appended verbatim (`/` when absent); the method is mapped
//! by exact match against the standard token set; request headers are
//! filtered by the outbound policy and forwarded otherwise unchanged; a
//! non-empty body is attached verbatim and an empty one sends no body. The
//! upstream reply keeps its status and body verbatim, its headers filtered
//! by the response policy; every error becomes one complete 502 response.

use vstd::prelude::*;

use crate::ascii::append_bytes;
use crate::ascii::ascii_bytes;
use crate::ascii::copy_bytes;
use crate::ascii::str_bytes;
use crate::error::spec_error_body;
use crate::error::ProxyError;
use crate::headers::filter_request_headers;
use crate::headers::filter_response_headers;
use crate::headers::filtered_request;
use crate::headers::filtered_response;
use crate::headers::headers_view;
use crate::method::parse_method;
use crate::method::spec_parse_method;
use crate::model::InboundRequest;
use crate::model::OutboundRequest;
use crate::model::ProxyConfig;
use crate::model::ProxyResponse;
use crate::model::UpstreamReply;

verus! {

/// The view of an optional byte vector.
pub open spec fn opt_bytes_view(b: Option<Vec<u8>>) -> Option<Seq<u8>> {
    match b {
        Some(v) => Some(v@),
        None => None,
    }
}

/// The target URL: the origin with the path-and-query appended verbatim,
/// defaulting to `/` when absent. No normalization and no rewriting.
pub open spec fn spec_target_url(origin: Seq<u8>, pq: Option<Seq<u8>>) -> Seq<u8> {
    match pq {
        Some(p) => origin + p,
        None => origin + ascii_bytes("/"@),
    }
}

/// Concatenates the origin and the path-and-query into the target URL.
pub fn build_target_url(origin: &[u8], path_and_query: &Option<Vec<u8>>) -> (r: Vec<u8>)
    ensures
        r@ == spec_target_url(origin@, opt_bytes_view(*path_and_query)),
{
    let mut r = copy_bytes(origin);
    match path_and_query {
        Some(p) => {
            append_bytes(&mut r, p.as_slice());
        },
        None => {
            proof {
                reveal_strlit("/");
            }
            append_bytes(&mut r, str_bytes("/"));
        },
    }
    r
}

/// Builds the one outbound request of an inbound request: same method by
/// exact token match, the target URL, the filtered headers in order, and
/// the body verbatim when non-empty. Fails, with the method-conversion
/// error and nothing else, exactly when the method token is not standard.
pub fn build_outbound_request(config: &ProxyConfig, inbound: &InboundRequest) -> (r: Result<
    OutboundRequest,
    ProxyError,
>)
    ensures
        r is Ok <==> spec_parse_method(inbound.method@) is Some,
        r matches Ok(out) ==> {
            &&& Some(out.method) == spec_parse_method(inbound.method@)
            &&& out.url@ == spec_target_url(
                config.target_origin@,
                opt_bytes_view(inbound.path_and_query),
            )
            &&& headers_view(out.headers@) == filtered_request(headers_view(inbound.headers@))
            &&& (out.body is Some <==> inbound.body@.len() > 0)
            &&& (out.body matches Some(b) ==> b@ == inbound.body@)
        },
        r matches Err(e) ==> e is MethodError,
{
    let method = match parse_method(inbound.method.as_slice()) {
        Some(m) => m,
        None => {
            return Err(ProxyError::MethodError);
        },
    };
    let url = build_target_url(config.target_origin.as_slice(), &inbound.path_and_query);
    let headers = filter_request_headers(&inbound.headers);
    let body = if inbound.body.len() > 0 {
        Some(copy_bytes(inbound.body.as_slice()))
    } else {
        None
    };
    Ok(OutboundRequest { method, url, headers, body })
}

/// Builds the one response of an upstream reply: the status verbatim, with
/// no remapping for any class of codes, the headers filtered by the
/// response policy and otherwise unchanged, and the body verbatim.
pub fn build_client_response(reply: &UpstreamReply) -> (r: ProxyResponse)
    ensures
        r.status == reply.status,
        headers_view(r.headers@) == filtered_response(headers_view(reply.headers@)),
        r.body@ == reply.body@,
{
    ProxyResponse {
        status: reply.status,
        headers: filter_response_headers(&reply.headers),
        body: copy_bytes(reply.body.as_slice()),
    }
}

/// Turns the outcome of the outbound call into the one response written
/// back: a successful reply passes through, status and body verbatim and
/// headers filtered; every error becomes one complete 502 response whose
/// body starts with `Proxy error: `. Never anything in between.
pub fn finish_exchange(outcome: Result<UpstreamReply, ProxyError>) -> (r: ProxyResponse)
    ensures
        outcome matches Ok(reply) ==> {
            &&& r.status == reply.status
            &&& headers_view(r.headers@) == filtered_response(headers_view(reply.headers@))
            &&& r.body@ == reply.body@
        },
        outcome matches Err(e) ==> {
            &&& r.status == 502
            &&& r.headers@.len() == 0
            &&& r.body@ == spec_error_body(e)
        },
{
    match outcome {
        Ok(reply) => build_client_response(&reply),
        Err(e) => e.into_response(),
    }
}

} // verus!
