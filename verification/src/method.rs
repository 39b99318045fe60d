//! The standard HTTP method tokens.
//!
//! An inbound method token is mapped to a method by exact, case-sensitive
//! match against the standard token set; any other token is unmappable and
//! the request fails with a visible proxy error.

use vstd::prelude::*;

use crate::ascii::ascii_bytes;
use crate::ascii::copy_bytes;
use crate::ascii::eq_bytes;
use crate::ascii::str_bytes;

verus! {

/// One of the standard HTTP methods.
#[derive(Clone, Copy, PartialEq, Eq, Structural, Debug)]
pub enum Method {
    Get,
    Post,
    Put,
    Delete,
    Patch,
    Head,
    Options,
}

/// The token of a standard method, as its ASCII bytes.
pub open spec fn method_token(m: Method) -> Seq<u8> {
    match m {
        Method::Get => ascii_bytes("GET"@),
        Method::Post => ascii_bytes("POST"@),
        Method::Put => ascii_bytes("PUT"@),
        Method::Delete => ascii_bytes("DELETE"@),
        Method::Patch => ascii_bytes("PATCH"@),
        Method::Head => ascii_bytes("HEAD"@),
        Method::Options => ascii_bytes("OPTIONS"@),
    }
}

/// The method a token maps to: the standard method whose token it equals
/// exactly and case-sensitively, and none otherwise.
pub open spec fn spec_parse_method(t: Seq<u8>) -> Option<Method> {
    if t == ascii_bytes("GET"@) {
        Some(Method::Get)
    } else if t == ascii_bytes("POST"@) {
        Some(Method::Post)
    } else if t == ascii_bytes("PUT"@) {
        Some(Method::Put)
    } else if t == ascii_bytes("DELETE"@) {
        Some(Method::Delete)
    } else if t == ascii_bytes("PATCH"@) {
        Some(Method::Patch)
    } else if t == ascii_bytes("HEAD"@) {
        Some(Method::Head)
    } else if t == ascii_bytes("OPTIONS"@) {
        Some(Method::Options)
    } else {
        None
    }
}

/// Maps a method token to its method, or to nothing when the token is not
/// a standard method token.
pub fn parse_method(token: &[u8]) -> (r: Option<Method>)
    ensures
        r == spec_parse_method(token@),
{
    proof {
        reveal_strlit("GET");
        reveal_strlit("POST");
        reveal_strlit("PUT");
        reveal_strlit("DELETE");
        reveal_strlit("PATCH");
        reveal_strlit("HEAD");
        reveal_strlit("OPTIONS");
    }
    if eq_bytes(token, str_bytes("GET")) {
        Some(Method::Get)
    } else if eq_bytes(token, str_bytes("POST")) {
        Some(Method::Post)
    } else if eq_bytes(token, str_bytes("PUT")) {
        Some(Method::Put)
    } else if eq_bytes(token, str_bytes("DELETE")) {
        Some(Method::Delete)
    } else if eq_bytes(token, str_bytes("PATCH")) {
        Some(Method::Patch)
    } else if eq_bytes(token, str_bytes("HEAD")) {
        Some(Method::Head)
    } else if eq_bytes(token, str_bytes("OPTIONS")) {
        Some(Method::Options)
    } else {
        None
    }
}

/// The token of a method, as bytes.
pub fn token_of(m: &Method) -> (r: Vec<u8>)
    ensures
        r@ == method_token(*m),
{
    proof {
        reveal_strlit("GET");
        reveal_strlit("POST");
        reveal_strlit("PUT");
        reveal_strlit("DELETE");
        reveal_strlit("PATCH");
        reveal_strlit("HEAD");
        reveal_strlit("OPTIONS");
    }
    match m {
        Method::Get => copy_bytes(str_bytes("GET")),
        Method::Post => copy_bytes(str_bytes("POST")),
        Method::Put => copy_bytes(str_bytes("PUT")),
        Method::Delete => copy_bytes(str_bytes("DELETE")),
        Method::Patch => copy_bytes(str_bytes("PATCH")),
        Method::Head => copy_bytes(str_bytes("HEAD")),
        Method::Options => copy_bytes(str_bytes("OPTIONS")),
    }
}

/// Every standard method's own token maps back to that method: a request
/// carrying a standard method token is forwarded with the same method.
pub proof fn lemma_method_round_trip(m: Method)
    ensures
        spec_parse_method(method_token(m)) == Some(m),
{
    reveal_strlit("GET");
    reveal_strlit("POST");
    reveal_strlit("PUT");
    reveal_strlit("DELETE");
    reveal_strlit("PATCH");
    reveal_strlit("HEAD");
    reveal_strlit("OPTIONS");
    assert(ascii_bytes("GET"@).len() == 3);
    assert(ascii_bytes("POST"@).len() == 4);
    assert(ascii_bytes("PUT"@).len() == 3);
    assert(ascii_bytes("DELETE"@).len() == 6);
    assert(ascii_bytes("PATCH"@).len() == 5);
    assert(ascii_bytes("HEAD"@).len() == 4);
    assert(ascii_bytes("OPTIONS"@).len() == 7);
    assert(ascii_bytes("PUT"@)[0] != ascii_bytes("GET"@)[0]);
    assert(ascii_bytes("HEAD"@)[0] != ascii_bytes("POST"@)[0]);
}

} // verus!
