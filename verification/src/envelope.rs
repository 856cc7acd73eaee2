use vstd::prelude::*;

use crate::strmap::{StrMap, last_wins, pair_views, lemma_last_wins_push};

verus! {

/// One inbound HTTP request, reduced to the plain values the codec reads.
pub struct RequestData {
    /// The request method in its canonical string form, e.g. "GET".
    pub method: String,
    /// The URI's path component, taken as it stands.
    pub path: String,
    /// The URI's query component without the leading question mark,
    /// `None` when the URI has no query component.
    pub query: Option<String>,
    /// The request's headers in order; a value that is not decodable as
    /// text is carried as `None` and forwarded as the empty string.
    pub headers: Vec<(String, Option<String>)>,
    /// The fully buffered request body.
    pub body: Vec<u8>,
}

/// The envelope's nested request-context record.
pub struct RequestContext {
    pub http_method: String,
    pub resource_path: String,
    /// The fixed deployment-stage label configured per running instance.
    pub stage: String,
}

/// One invocation event, the shape posted upstream. On the wire its fields
/// are named in camelCase: httpMethod, resource, path, headers,
/// queryStringParameters, pathParameters, stageVariables, multiValueHeaders,
/// body, isBase64Encoded, requestContext.
pub struct Envelope {
    pub http_method: String,
    /// Always the literal "/": the adapter does no routing.
    pub resource: String,
    pub path: String,
    pub headers: Option<StrMap>,
    pub query_string_parameters: Option<StrMap>,
    /// Always absent: no routing, so no path parameters.
    pub path_parameters: Option<StrMap>,
    /// Always absent.
    pub stage_variables: Option<StrMap>,
    /// Always absent: headers are forwarded single-valued.
    pub multi_value_headers: Option<StrMap>,
    /// The base64 text of the body, absent when the body was empty.
    pub body: Option<String>,
    /// Always `false`, even when `body` holds base64 text.
    pub is_base64_encoded: bool,
    pub request_context: RequestContext,
}

/// What url::form_urlencoded::parse yields on a query string: its
/// percent-decoded (name, value) pairs, a function of the input alone.
pub uninterp spec fn form_pairs(q: Seq<char>) -> Seq<(Seq<char>, Seq<char>)>;

/// What base64::encode yields on a byte string: the standard-alphabet,
/// padded base64 text, a function of the bytes alone.
pub uninterp spec fn base64_of(b: Seq<u8>) -> Seq<char>;

/// Relies on url::form_urlencoded::parse: it splits the input on `&` and
/// `=` and percent-decodes each name and value, yielding nothing on empty
/// input.
#[verifier::external_body]
fn parse_form_urlencoded(q: &str) -> (r: Vec<(String, String)>)
    ensures
        pair_views(r@) == form_pairs(q@),
        q@.len() == 0 ==> r@.len() == 0,
{
    url::form_urlencoded::parse(q.as_bytes()).into_owned().collect()
}

/// Relies on base64::encode: standard alphabet with padding, four output
/// characters for every three input bytes; it panics when that output
/// length does not fit in usize.
#[verifier::external_body]
fn base64_encode(b: &Vec<u8>) -> (r: String)
    requires
        4 * ((b@.len() + 2) / 3) <= usize::MAX,
    ensures
        r@ == base64_of(b@),
        r@.len() == 4 * ((b@.len() + 2) / 3),
{
    base64::encode(b.as_slice())
}

/// The text a header value is forwarded as: its own text when it decoded,
/// the empty string when it did not.
pub open spec fn header_text(v: Option<String>) -> Seq<char> {
    match v {
        Some(s) => s@,
        None => Seq::empty(),
    }
}

/// The header pairs as character sequences, undecodable values as empty text.
pub open spec fn header_pair_views(hs: Seq<(String, Option<String>)>) -> Seq<(Seq<char>, Seq<char>)> {
    hs.map(|i: int, p: (String, Option<String>)| (p.0@, header_text(p.1)))
}

/// The forwarded header mapping: every header in order, last value winning
/// per name, an undecodable value degraded to the empty string.
#[verifier::loop_isolation(false)]
fn encode_headers(hs: &Vec<(String, Option<String>)>) -> (r: StrMap)
    ensures
        r.wf(),
        r@ == last_wins(header_pair_views(hs@)),
{
    let ghost ps = header_pair_views(hs@);
    let mut m = StrMap::new();
    let mut i: usize = 0;
    while i < hs.len()
        invariant
            i <= hs@.len(),
            m.wf(),
            m@ == last_wins(ps.take(i as int)),
        decreases hs@.len() - i,
    {
        let k = hs[i].0.clone();
        let v = match &hs[i].1 {
            Some(s) => s.clone(),
            None => String::new(),
        };
        proof {
            assert(ps.take(i as int + 1) =~= ps.take(i as int).push(ps[i as int]));
            lemma_last_wins_push(ps.take(i as int), ps[i as int]);
            assert(ps[i as int] == (k@, v@));
        }
        m.insert(k, v);
        i += 1;
    }
    proof {
        assert(ps.take(hs@.len() as int) =~= ps);
    }
    m
}

/// The query-parameter mapping of one query string: its decoded pairs in
/// order, a later value overriding an earlier one per name.
pub fn parse_query(q: &str) -> (r: StrMap)
    ensures
        r.wf(),
        r@ == last_wins(form_pairs(q@)),
{
    StrMap::from_pairs(parse_form_urlencoded(q))
}

/// Encodes one inbound HTTP request as the invocation envelope posted
/// upstream. The query mapping is present exactly when the URI had a query
/// component; the body is present, as base64 text, exactly when it was
/// non-empty; the base64 flag is always `false`; resource and routing
/// fields are fixed, and the request context repeats method and path under
/// the configured stage label.
pub fn encode_envelope(req: &RequestData, stage: &str) -> (r: Envelope)
    requires
        4 * ((req.body@.len() + 2) / 3) <= usize::MAX,
    ensures
        r.http_method@ == req.method@,
        r.resource@ =~= seq!['/'],
        r.path@ == req.path@,
        r.headers matches Some(h) && h.wf() && h@ == last_wins(header_pair_views(req.headers@)),
        match req.query {
            Some(q) => r.query_string_parameters matches Some(m) && m.wf() && m@ == last_wins(
                form_pairs(q@),
            ),
            None => r.query_string_parameters is None,
        },
        r.path_parameters is None,
        r.stage_variables is None,
        r.multi_value_headers is None,
        req.body@.len() == 0 <==> r.body is None,
        r.body matches Some(b) ==> b@ == base64_of(req.body@),
        r.is_base64_encoded == false,
        r.request_context.http_method@ == req.method@,
        r.request_context.resource_path@ == req.path@,
        r.request_context.stage@ == stage@,
{
    let headers = Some(encode_headers(&req.headers));
    let query_string_parameters = match &req.query {
        Some(q) => Some(parse_query(q.as_str())),
        None => None,
    };
    let body = if req.body.len() == 0 {
        None
    } else {
        Some(base64_encode(&req.body))
    };
    let resource = "/".to_owned();
    proof {
        reveal_strlit("/");
        assert(resource@ =~= seq!['/']);
    }
    Envelope {
        http_method: req.method.clone(),
        resource,
        path: req.path.clone(),
        headers,
        query_string_parameters,
        path_parameters: None,
        stage_variables: None,
        multi_value_headers: None,
        body,
        is_base64_encoded: false,
        request_context: RequestContext {
            http_method: req.method.clone(),
            resource_path: req.path.clone(),
            stage: stage.to_owned(),
        },
    }
}

} // verus!
