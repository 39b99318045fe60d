//! Header collections and the hop-by-hop filtering policy.
//!
//! A header is a raw name and a raw value, kept as bytes; a collection is an
//! ordered list that preserves duplicates and original casing. Filtering
//! drops, by case-insensitive name, the connection-specific headers that must
//! not be forwarded to the next hop: `connection`, `host` (requests only),
//! `transfer-encoding`, `upgrade` and `proxy-connection`.

use vstd::prelude::*;

use crate::ascii::ascii_bytes;
use crate::ascii::copy_bytes;
use crate::ascii::eq_bytes;
use crate::ascii::lower_bytes;
use crate::ascii::lower_bytes_vec;
use crate::ascii::str_bytes;

verus! {

/// One header occurrence: raw name bytes and raw value bytes.
#[derive(Debug)]
pub struct Header {
    pub name: Vec<u8>,
    pub value: Vec<u8>,
}

/// The mathematical view of a header.
pub struct HeaderView {
    pub name: Seq<u8>,
    pub value: Seq<u8>,
}

impl View for Header {
    type V = HeaderView;

    open spec fn view(&self) -> HeaderView {
        HeaderView { name: self.name@, value: self.value@ }
    }
}

/// The views of a header list, in order.
pub open spec fn headers_view(hs: Seq<Header>) -> Seq<HeaderView> {
    hs.map_values(|h: Header| h@)
}

/// True of a header name that is never forwarded on the outbound request:
/// the hop-by-hop names and `host`, compared case-insensitively.
pub open spec fn skip_request_name(name: Seq<u8>) -> bool {
    ||| lower_bytes(name) == ascii_bytes("connection"@)
    ||| lower_bytes(name) == ascii_bytes("host"@)
    ||| lower_bytes(name) == ascii_bytes("transfer-encoding"@)
    ||| lower_bytes(name) == ascii_bytes("upgrade"@)
    ||| lower_bytes(name) == ascii_bytes("proxy-connection"@)
}

/// True of a header name that is never forwarded on the final response:
/// the hop-by-hop names, compared case-insensitively. `host` is meaningful
/// only on requests and passes through here.
pub open spec fn skip_response_name(name: Seq<u8>) -> bool {
    ||| lower_bytes(name) == ascii_bytes("connection"@)
    ||| lower_bytes(name) == ascii_bytes("transfer-encoding"@)
    ||| lower_bytes(name) == ascii_bytes("upgrade"@)
    ||| lower_bytes(name) == ascii_bytes("proxy-connection"@)
}

/// The predicate selecting the request headers that are kept.
pub open spec fn request_keep() -> spec_fn(HeaderView) -> bool {
    |h: HeaderView| !skip_request_name(h.name)
}

/// The predicate selecting the response headers that are kept.
pub open spec fn response_keep() -> spec_fn(HeaderView) -> bool {
    |h: HeaderView| !skip_response_name(h.name)
}

/// The header list restricted to the headers the predicate keeps,
/// in order, each occurrence unchanged.
pub open spec fn filtered_by(hs: Seq<HeaderView>, keep: spec_fn(HeaderView) -> bool) -> Seq<HeaderView>
    decreases hs.len(),
{
    if hs.len() == 0 {
        Seq::empty()
    } else {
        let rest = filtered_by(hs.drop_last(), keep);
        if keep(hs.last()) {
            rest.push(hs.last())
        } else {
            rest
        }
    }
}

/// The request headers that are forwarded upstream.
pub open spec fn filtered_request(hs: Seq<HeaderView>) -> Seq<HeaderView> {
    filtered_by(hs, request_keep())
}

/// The upstream reply headers that are forwarded to the caller.
pub open spec fn filtered_response(hs: Seq<HeaderView>) -> Seq<HeaderView> {
    filtered_by(hs, response_keep())
}

/// Whether the lowercased copy of a name equals an ASCII literal.
fn lower_matches(low: &Vec<u8>, lit: &str) -> (r: bool)
    requires
        lit.is_ascii(),
    ensures
        r == (low@ == ascii_bytes(lit@)),
{
    eq_bytes(low.as_slice(), str_bytes(lit))
}

/// Whether a request header of this name is dropped rather than forwarded.
pub fn should_skip_header(name: &[u8]) -> (r: bool)
    ensures
        r == skip_request_name(name@),
{
    proof {
        reveal_strlit("connection");
        reveal_strlit("host");
        reveal_strlit("transfer-encoding");
        reveal_strlit("upgrade");
        reveal_strlit("proxy-connection");
    }
    let low = lower_bytes_vec(name);
    lower_matches(&low, "connection") || lower_matches(&low, "host") || lower_matches(
        &low,
        "transfer-encoding",
    ) || lower_matches(&low, "upgrade") || lower_matches(&low, "proxy-connection")
}

/// Whether a response header of this name is dropped rather than forwarded.
pub fn should_skip_response_header(name: &[u8]) -> (r: bool)
    ensures
        r == skip_response_name(name@),
{
    proof {
        reveal_strlit("connection");
        reveal_strlit("transfer-encoding");
        reveal_strlit("upgrade");
        reveal_strlit("proxy-connection");
    }
    let low = lower_bytes_vec(name);
    lower_matches(&low, "connection") || lower_matches(&low, "transfer-encoding") || lower_matches(
        &low,
        "upgrade",
    ) || lower_matches(&low, "proxy-connection")
}

/// A copy of one header.
pub fn copy_header(h: &Header) -> (r: Header)
    ensures
        r@ == h@,
{
    Header { name: copy_bytes(h.name.as_slice()), value: copy_bytes(h.value.as_slice()) }
}

/// The request headers that are forwarded, in order, names and values unchanged.
pub fn filter_request_headers(hs: &Vec<Header>) -> (r: Vec<Header>)
    ensures
        headers_view(r@) == filtered_request(headers_view(hs@)),
{
    let mut r: Vec<Header> = Vec::new();
    let mut i: usize = 0;
    while i < hs.len()
        invariant
            i <= hs@.len(),
            headers_view(r@) == filtered_by(headers_view(hs@).take(i as int), request_keep()),
        decreases hs@.len() - i,
    {
        let ghost pre = headers_view(hs@).take(i as int);
        let ghost post = headers_view(hs@).take(i + 1 as int);
        let h = &hs[i];
        if !should_skip_header(h.name.as_slice()) {
            r.push(copy_header(h));
        }
        proof {
            assert(post.drop_last() =~= pre);
            assert(post.last() == hs@[i as int]@);
            assert(headers_view(r@) =~= filtered_by(post, request_keep()));
        }
        i = i + 1;
    }
    proof {
        assert(headers_view(hs@).take(hs@.len() as int) =~= headers_view(hs@));
    }
    r
}

/// The reply headers that are forwarded, in order, names and values unchanged.
pub fn filter_response_headers(hs: &Vec<Header>) -> (r: Vec<Header>)
    ensures
        headers_view(r@) == filtered_response(headers_view(hs@)),
{
    let mut r: Vec<Header> = Vec::new();
    let mut i: usize = 0;
    while i < hs.len()
        invariant
            i <= hs@.len(),
            headers_view(r@) == filtered_by(headers_view(hs@).take(i as int), response_keep()),
        decreases hs@.len() - i,
    {
        let ghost pre = headers_view(hs@).take(i as int);
        let ghost post = headers_view(hs@).take(i + 1 as int);
        let h = &hs[i];
        if !should_skip_response_header(h.name.as_slice()) {
            r.push(copy_header(h));
        }
        proof {
            assert(post.drop_last() =~= pre);
            assert(post.last() == hs@[i as int]@);
            assert(headers_view(r@) =~= filtered_by(post, response_keep()));
        }
        i = i + 1;
    }
    proof {
        assert(headers_view(hs@).take(hs@.len() as int) =~= headers_view(hs@));
    }
    r
}

/// Every header of the filtered list satisfies the keep predicate.
pub proof fn lemma_filtered_by_all_satisfy(hs: Seq<HeaderView>, keep: spec_fn(HeaderView) -> bool)
    ensures
        forall|i: int|
            0 <= i < filtered_by(hs, keep).len() ==> keep(#[trigger] filtered_by(hs, keep)[i]),
    decreases hs.len(),
{
    if hs.len() > 0 {
        lemma_filtered_by_all_satisfy(hs.drop_last(), keep);
        let rest = filtered_by(hs.drop_last(), keep);
        assert forall|i: int|
            0 <= i < filtered_by(hs, keep).len() implies keep(filtered_by(hs, keep)[i]) by {
            if keep(hs.last()) {
                assert(filtered_by(hs, keep) == rest.push(hs.last()));
                if i < rest.len() {
                    assert(filtered_by(hs, keep)[i] == rest[i]);
                } else {
                    assert(filtered_by(hs, keep)[i] == hs.last());
                }
            } else {
                assert(filtered_by(hs, keep) == rest);
            }
        }
    }
}

/// A sequence that contains an element still contains it after a push.
proof fn lemma_push_contains(s: Seq<HeaderView>, x: HeaderView, y: HeaderView)
    requires
        s.contains(y),
    ensures
        s.push(x).contains(y),
{
    let j = choose|j: int| 0 <= j < s.len() && s[j] == y;
    assert(s.push(x)[j] == y);
}

/// Every kept header of the input appears in the filtered list.
pub proof fn lemma_filtered_by_keeps(hs: Seq<HeaderView>, keep: spec_fn(HeaderView) -> bool)
    ensures
        forall|i: int|
            0 <= i < hs.len() && keep(#[trigger] hs[i]) ==> filtered_by(hs, keep).contains(hs[i]),
    decreases hs.len(),
{
    if hs.len() > 0 {
        lemma_filtered_by_keeps(hs.drop_last(), keep);
        let rest = filtered_by(hs.drop_last(), keep);
        assert forall|i: int|
            0 <= i < hs.len() && keep(#[trigger] hs[i]) implies filtered_by(hs, keep).contains(
            hs[i],
        ) by {
            if i < hs.len() - 1 {
                assert(hs.drop_last()[i] == hs[i]);
                assert(rest.contains(hs[i]));
                if keep(hs.last()) {
                    lemma_push_contains(rest, hs.last(), hs[i]);
                }
            } else {
                assert(hs[i] == hs.last());
                assert(rest.push(hs.last())[rest.len() as int] == hs.last());
            }
        }
    }
}

/// Filtering a list whose headers are all kept changes nothing.
pub proof fn lemma_filtered_by_all_kept(hs: Seq<HeaderView>, keep: spec_fn(HeaderView) -> bool)
    requires
        forall|i: int| 0 <= i < hs.len() ==> keep(#[trigger] hs[i]),
    ensures
        filtered_by(hs, keep) == hs,
    decreases hs.len(),
{
    if hs.len() > 0 {
        assert(forall|i: int|
            0 <= i < hs.drop_last().len() ==> keep(#[trigger] hs.drop_last()[i]));
        lemma_filtered_by_all_kept(hs.drop_last(), keep);
        assert(keep(hs[hs.len() - 1]));
        assert(filtered_by(hs, keep) =~= hs);
    }
}

/// Filtering is idempotent: filtering an already-filtered list is a no-op.
pub proof fn lemma_filtered_by_idempotent(hs: Seq<HeaderView>, keep: spec_fn(HeaderView) -> bool)
    ensures
        filtered_by(filtered_by(hs, keep), keep) == filtered_by(hs, keep),
{
    lemma_filtered_by_all_satisfy(hs, keep);
    lemma_filtered_by_all_kept(filtered_by(hs, keep), keep);
}

/// No header named (case-insensitively) `connection`, `host`,
/// `transfer-encoding`, `upgrade` or `proxy-connection` survives request
/// filtering, and every other header of the input appears in the result.
pub proof fn lemma_request_filter_policy(hs: Seq<HeaderView>)
    ensures
        forall|i: int|
            0 <= i < filtered_request(hs).len() ==> !skip_request_name(
                #[trigger] filtered_request(hs)[i].name,
            ),
        forall|i: int|
            0 <= i < hs.len() && !skip_request_name(#[trigger] hs[i].name)
                ==> filtered_request(hs).contains(hs[i]),
{
    lemma_filtered_by_all_satisfy(hs, request_keep());
    lemma_filtered_by_keeps(hs, request_keep());
}

/// No header named (case-insensitively) `connection`, `transfer-encoding`,
/// `upgrade` or `proxy-connection` survives response filtering, and every
/// other header of the upstream reply appears in the result.
pub proof fn lemma_response_filter_policy(hs: Seq<HeaderView>)
    ensures
        forall|i: int|
            0 <= i < filtered_response(hs).len() ==> !skip_response_name(
                #[trigger] filtered_response(hs)[i].name,
            ),
        forall|i: int|
            0 <= i < hs.len() && !skip_response_name(#[trigger] hs[i].name)
                ==> filtered_response(hs).contains(hs[i]),
{
    lemma_filtered_by_all_satisfy(hs, response_keep());
    lemma_filtered_by_keeps(hs, response_keep());
}

/// Request filtering is idempotent: no header is double-removed or reintroduced.
pub proof fn lemma_request_filter_idempotent(hs: Seq<HeaderView>)
    ensures
        filtered_request(filtered_request(hs)) == filtered_request(hs),
{
    lemma_filtered_by_idempotent(hs, request_keep());
}

/// Response filtering is idempotent: no header is double-removed or reintroduced.
pub proof fn lemma_response_filter_idempotent(hs: Seq<HeaderView>)
    ensures
        filtered_response(filtered_response(hs)) == filtered_response(hs),
{
    lemma_filtered_by_idempotent(hs, response_keep());
}

} // verus!
