//! The description of one request: what each field of the response holds.

use crate::codec::{
    base64_encode, base64_of, form_pairs_of, json_accepts, parse_form, parse_json, percent_decode,
    percent_decoded, utf8_lossy, utf8_lossy_of, utf8_text,
};
use crate::entries::{collect_entries, entries_view, insert_entry, keys_unique, pairs_map, PairView};
use vstd::prelude::*;
use vstd::utf8::{decode_utf8, encode_utf8, valid_utf8};

verus! {

/// The largest body, in bytes, that is read; a longer one counts as absent.
pub const BODY_LIMIT: usize = 1048576;

/// What a request carries, as the server hands it over.
pub struct EchoRequest {
    pub host: String,
    pub method: String,
    /// The path of the request target, still percent-encoded.
    pub path: String,
    /// Each header as sent, in order, with its raw value bytes.
    pub headers: Vec<(String, Vec<u8>)>,
    /// The query string after `?`, when the target has one.
    pub query: Option<String>,
    /// The body as read, or `None` when reading failed or went past the limit.
    pub body: Option<Vec<u8>>,
}

/// How a non-empty body is shown. The three forms carry no tag of their own:
/// a JSON string and a text body may look alike once written out.
#[derive(Debug, PartialEq)]
pub enum BodyField {
    Json(serde_json::Value),
    Utf8(String),
    Base64(String),
}

/// The description of a request.
#[derive(Debug, PartialEq)]
pub struct EchoResponse {
    pub host: String,
    pub method: String,
    pub path: String,
    /// Header names and values, each name once.
    pub headers: Vec<(String, String)>,
    /// The query pairs, each key once; `None` when the target has no query.
    pub query_params: Option<Vec<(String, String)>>,
    /// `None` when the body is empty.
    pub body: Option<BodyField>,
}

/// The body bytes that count: what was read, unless reading failed or the body
/// is longer than the limit, in which case none.
pub open spec fn effective_body(read: Option<Vec<u8>>) -> Seq<u8> {
    match read {
        Some(b) => if b@.len() <= BODY_LIMIT {
            b@
        } else {
            Seq::empty()
        },
        None => Seq::empty(),
    }
}

/// The body field for the given bytes: none when empty, else the first that
/// applies of a JSON document, UTF-8 text, and base64.
pub open spec fn body_matches(b: Seq<u8>, body: Option<BodyField>) -> bool {
    if b.len() == 0 {
        body is None
    } else if json_accepts(b) {
        body matches Some(BodyField::Json(_))
    } else if valid_utf8(b) {
        body matches Some(BodyField::Utf8(s)) && s@ == decode_utf8(b)
    } else {
        body matches Some(BodyField::Base64(s)) && s@ == base64_of(b)
    }
}

/// The headers, each value decoded lossily as UTF-8.
pub open spec fn decoded_headers(h: Seq<(String, Vec<u8>)>) -> Seq<PairView> {
    h.map_values(|p: (String, Vec<u8>)| (p.0@, utf8_lossy_of(p.1@)))
}

/// The decoded path: percent-decoded, then read lossily as UTF-8.
pub open spec fn decoded_path(path: Seq<char>) -> Seq<char> {
    utf8_lossy_of(percent_decoded(encode_utf8(path)))
}

/// A list of pairs that names each key once and denotes the given mapping.
pub open spec fn denotes(v: Seq<(String, String)>, m: Map<Seq<char>, Seq<char>>) -> bool {
    keys_unique(entries_view(v)) && pairs_map(entries_view(v)) == m
}

/// The query parameters for an optional query string.
pub open spec fn query_matches(query: Option<String>, qp: Option<Vec<(String, String)>>) -> bool {
    match query {
        Some(q) => qp matches Some(v) && denotes(v@, pairs_map(form_pairs_of(encode_utf8(q@)))),
        None => qp is None,
    }
}

/// What `echo` returns for a request.
pub open spec fn echo_post(req: EchoRequest, r: EchoResponse) -> bool {
    &&& r.host@ == req.host@
    &&& r.method@ == req.method@
    &&& r.path@ == decoded_path(req.path@)
    &&& denotes(r.headers@, pairs_map(decoded_headers(req.headers@)))
    &&& query_matches(req.query, r.query_params)
    &&& body_matches(effective_body(req.body), r.body)
}

/// The body bytes that count, as `effective_body` says.
pub fn body_bytes(read: Option<Vec<u8>>) -> (r: Vec<u8>)
    ensures
        r@ == effective_body(read),
{
    match read {
        Some(b) => if b.len() <= BODY_LIMIT {
            b
        } else {
            Vec::new()
        },
        None => Vec::new(),
    }
}

/// The body field, given the bytes and what JSON parsing of them gave.
pub fn body_from_parsed(b: &Vec<u8>, parsed: Option<serde_json::Value>) -> (r: Option<BodyField>)
    ensures
        b@.len() == 0 ==> r is None,
        b@.len() > 0 && parsed is Some ==> r == Some(BodyField::Json(parsed->0)),
        b@.len() > 0 && parsed is None && valid_utf8(b@) ==> (r matches Some(BodyField::Utf8(s))
            && s@ == decode_utf8(b@)),
        b@.len() > 0 && parsed is None && !valid_utf8(b@) ==> (r matches Some(BodyField::Base64(s))
            && s@ == base64_of(b@)),
{
    if b.len() == 0 {
        None
    } else {
        match parsed {
            Some(v) => Some(BodyField::Json(v)),
            None => match utf8_text(b.as_slice()) {
                Some(s) => Some(BodyField::Utf8(s)),
                None => Some(BodyField::Base64(base64_encode(b.as_slice()))),
            },
        }
    }
}

/// Classifies a body: none when empty, else a JSON document, else UTF-8 text,
/// else its base64 encoding.
pub fn classify_body(b: &Vec<u8>) -> (r: Option<BodyField>)
    ensures
        body_matches(b@, r),
{
    if b.len() == 0 {
        None
    } else {
        let parsed = parse_json(b.as_slice());
        body_from_parsed(b, parsed)
    }
}

/// The request path, percent-decoded and read lossily as UTF-8.
pub fn decode_path(path: &String) -> (r: String)
    ensures
        r@ == decoded_path(path@),
{
    let raw = path.as_str().as_bytes();
    let bytes = percent_decode(raw);
    utf8_lossy(bytes.as_slice())
}

/// The query parameters: none without a query string, else its decoded pairs,
/// a later pair for a key replacing an earlier one.
pub fn parse_query(query: &Option<String>) -> (r: Option<Vec<(String, String)>>)
    ensures
        query_matches(*query, r),
{
    match query {
        Some(q) => {
            let pairs = parse_form(q.as_str().as_bytes());
            Some(collect_entries(&pairs))
        },
        None => None,
    }
}

/// The headers with lossily decoded values; a later header of a name replaces
/// an earlier one.
pub fn header_entries(headers: &Vec<(String, Vec<u8>)>) -> (r: Vec<(String, String)>)
    ensures
        denotes(r@, pairs_map(decoded_headers(headers@))),
{
    let mut r: Vec<(String, String)> = Vec::new();
    let n = headers.len();
    let mut i: usize = 0;
    while i < n
        invariant
            n == headers@.len(),
            i <= n,
            denotes(r@, pairs_map(decoded_headers(headers@).take(i as int))),
        decreases n - i,
    {
        let ghost s = decoded_headers(headers@);
        assert(s.take(i + 1).drop_last() =~= s.take(i as int));
        let value = utf8_lossy(headers[i].1.as_slice());
        insert_entry(&mut r, headers[i].0.clone(), value);
        i = i + 1;
    }
    assert(decoded_headers(headers@).take(n as int) =~= decoded_headers(headers@));
    r
}

/// Describes a request.
pub fn echo(req: EchoRequest) -> (r: EchoResponse)
    ensures
        echo_post(req, r),
{
    let query_params = parse_query(&req.query);
    let headers = header_entries(&req.headers);
    let path = decode_path(&req.path);
    let body = body_bytes(req.body);
    let body = classify_body(&body);
    EchoResponse { host: req.host, method: req.method, path, headers, query_params, body }
}

/// Two requests carry the same values.
pub open spec fn same_request(a: EchoRequest, b: EchoRequest) -> bool {
    &&& a.host@ == b.host@
    &&& a.method@ == b.method@
    &&& a.path@ == b.path@
    &&& decoded_headers(a.headers@) == decoded_headers(b.headers@)
    &&& match (a.query, b.query) {
        (Some(x), Some(y)) => x@ == y@,
        (None, None) => true,
        _ => false,
    }
    &&& effective_body(a.body) == effective_body(b.body)
}

/// Two requests that carry the same values are described alike: every field
/// agrees, and a body shown as JSON in one is shown as JSON, parsed from the
/// same bytes, in the other.
pub proof fn identical_requests_agree(
    a: EchoRequest,
    b: EchoRequest,
    ra: EchoResponse,
    rb: EchoResponse,
)
    requires
        same_request(a, b),
        echo_post(a, ra),
        echo_post(b, rb),
    ensures
        ra.host@ == rb.host@,
        ra.method@ == rb.method@,
        ra.path@ == rb.path@,
        pairs_map(entries_view(ra.headers@)) == pairs_map(entries_view(rb.headers@)),
        ra.query_params is None <==> rb.query_params is None,
        ra.query_params matches Some(x) ==> (rb.query_params matches Some(y) && pairs_map(
            entries_view(x@),
        ) == pairs_map(entries_view(y@))),
        ra.body is None <==> rb.body is None,
        (ra.body matches Some(BodyField::Json(_))) <==> (rb.body matches Some(BodyField::Json(_))),
        ra.body matches Some(BodyField::Utf8(s)) ==> (rb.body matches Some(BodyField::Utf8(t))
            && s@ == t@),
        ra.body matches Some(BodyField::Base64(s)) ==> (rb.body matches Some(
            BodyField::Base64(t),
        ) && s@ == t@),
{
}

/// A request whose body is empty, or unreadable, or longer than the limit, is
/// described without a body.
pub proof fn empty_body_is_omitted(req: EchoRequest, r: EchoResponse)
    requires
        echo_post(req, r),
        req.body matches Some(b) ==> (b@.len() == 0 || b@.len() > BODY_LIMIT),
    ensures
        r.body is None,
{
}

/// A request without headers is described with an empty header mapping.
pub proof fn no_headers_give_empty_mapping(req: EchoRequest, r: EchoResponse)
    requires
        echo_post(req, r),
        req.headers@.len() == 0,
    ensures
        pairs_map(entries_view(r.headers@)) == Map::<Seq<char>, Seq<char>>::empty(),
{
    assert(decoded_headers(req.headers@).len() == 0);
}

} // verus!
