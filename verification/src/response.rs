use vstd::prelude::*;

use crate::jsonval::{JsonValue, json_doc, lookup, lookup_field, parse_json};
use crate::strmap::{StrMap, last_wins, lemma_last_wins_push};

verus! {

/// Why an upstream response body could not be decoded.
#[derive(Debug, PartialEq, Eq, Structural, Clone, Copy)]
pub enum DecodeError {
    /// The bytes are not one valid JSON document.
    Syntax,
    /// The document is valid JSON but not an invocation response: it is not
    /// an object, or a field of it has the wrong type.
    Shape,
}

/// One outbound HTTP response: status, headers to set, and the body text,
/// written through verbatim whether or not it is base64.
pub struct ResponseData {
    pub status: u16,
    pub headers: StrMap,
    pub body: String,
}

pub open spec fn status_key() -> Seq<char> {
    "statusCode"@
}

pub open spec fn headers_key() -> Seq<char> {
    "headers"@
}

pub open spec fn body_key() -> Seq<char> {
    "body"@
}

pub open spec fn flag_key() -> Seq<char> {
    "isBase64Encoded"@
}

/// The status field is absent, null, or a number fitting a 16-bit status.
pub open spec fn status_field_ok(v: Option<JsonValue>) -> bool {
    match v {
        None => true,
        Some(JsonValue::Null) => true,
        Some(JsonValue::UInt(u)) => u <= 65535,
        Some(_) => false,
    }
}

/// The status an upstream response carries; 500 stands in when it is absent.
pub open spec fn status_of(v: Option<JsonValue>) -> u16 {
    match v {
        Some(JsonValue::UInt(u)) => u as u16,
        _ => 500,
    }
}

/// The body field is absent, null, or a string.
pub open spec fn body_field_ok(v: Option<JsonValue>) -> bool {
    match v {
        None => true,
        Some(JsonValue::Null) => true,
        Some(JsonValue::Str(_)) => true,
        Some(_) => false,
    }
}

/// The body an upstream response carries; empty text stands in when it is absent.
pub open spec fn body_of(v: Option<JsonValue>) -> Seq<char> {
    match v {
        Some(JsonValue::Str(s)) => s@,
        _ => Seq::empty(),
    }
}

/// The base64 flag is absent, null, or a boolean. It is checked and then
/// ignored: the body is never base64-decoded.
pub open spec fn flag_field_ok(v: Option<JsonValue>) -> bool {
    match v {
        None => true,
        Some(JsonValue::Null) => true,
        Some(JsonValue::Bool(_)) => true,
        Some(_) => false,
    }
}

/// Every field of the header object is a string.
pub open spec fn header_entries_ok(es: Seq<(String, JsonValue)>) -> bool {
    forall|i: int| 0 <= i < es.len() ==> es[i].1 is Str
}

/// The header object's fields as string pairs.
pub open spec fn header_str_views(es: Seq<(String, JsonValue)>) -> Seq<(Seq<char>, Seq<char>)> {
    es.map(
        |i: int, p: (String, JsonValue)|
            (
                p.0@,
                match p.1 {
                    JsonValue::Str(s) => s@,
                    _ => Seq::<char>::empty(),
                },
            ),
    )
}

/// The headers field is absent, null, or an object whose fields are strings.
pub open spec fn headers_field_ok(v: Option<JsonValue>) -> bool {
    match v {
        None => true,
        Some(JsonValue::Null) => true,
        Some(JsonValue::Obj(es)) => header_entries_ok(es@),
        Some(_) => false,
    }
}

/// The header mapping an upstream response carries; the empty mapping
/// stands in when the field is absent.
pub open spec fn headers_of(v: Option<JsonValue>) -> Map<Seq<char>, Seq<char>> {
    match v {
        Some(JsonValue::Obj(es)) => last_wins(header_str_views(es@)),
        _ => Map::empty(),
    }
}

/// A JSON document is a well-typed invocation response: an object whose
/// optional fields, where present, have the right types.
pub open spec fn decodable(doc: JsonValue) -> bool {
    &&& doc matches JsonValue::Obj(es)
    &&& status_field_ok(lookup(es@, status_key()))
    &&& headers_field_ok(lookup(es@, headers_key()))
    &&& body_field_ok(lookup(es@, body_key()))
    &&& flag_field_ok(lookup(es@, flag_key()))
}

/// The outbound response a well-typed document denotes: its status (500
/// when absent), its headers (none when absent), and its body text (empty
/// when absent), each taken verbatim.
pub open spec fn decodes_to(doc: JsonValue, r: ResponseData) -> bool {
    &&& doc matches JsonValue::Obj(es)
    &&& r.status == status_of(lookup(es@, status_key()))
    &&& r.headers.wf()
    &&& r.headers@ == headers_of(lookup(es@, headers_key()))
    &&& r.body@ == body_of(lookup(es@, body_key()))
}

/// The header mapping of a header object whose fields are all strings.
#[verifier::loop_isolation(false)]
fn decode_headers(es: &Vec<(String, JsonValue)>) -> (r: Result<StrMap, DecodeError>)
    ensures
        r is Ok <==> header_entries_ok(es@),
        r matches Ok(m) ==> m.wf() && m@ == last_wins(header_str_views(es@)),
        r is Err ==> r == Err::<StrMap, DecodeError>(DecodeError::Shape),
{
    let ghost ps = header_str_views(es@);
    let mut m = StrMap::new();
    let mut i: usize = 0;
    while i < es.len()
        invariant
            i <= es@.len(),
            m.wf(),
            m@ == last_wins(ps.take(i as int)),
            forall|t: int| 0 <= t < i ==> es@[t].1 is Str,
        decreases es@.len() - i,
    {
        match &es[i].1 {
            JsonValue::Str(s) => {
                let k = es[i].0.clone();
                let v = s.clone();
                proof {
                    assert(ps.take(i as int + 1) =~= ps.take(i as int).push(ps[i as int]));
                    lemma_last_wins_push(ps.take(i as int), ps[i as int]);
                    assert(ps[i as int] == (k@, v@));
                }
                m.insert(k, v);
            },
            _ => {
                return Err(DecodeError::Shape);
            },
        }
        i += 1;
    }
    proof {
        assert(ps.take(es@.len() as int) =~= ps);
    }
    Ok(m)
}

/// Decodes one parsed upstream document into the outbound HTTP response.
/// A missing or null statusCode yields 500, missing or null headers yield
/// no headers, a missing or null body yields empty text; a document that is
/// not an object, or any present field of the wrong type, is refused.
pub fn decode_fields(doc: &JsonValue) -> (r: Result<ResponseData, DecodeError>)
    ensures
        r is Ok <==> decodable(*doc),
        r matches Ok(resp) ==> decodes_to(*doc, resp),
        r is Err ==> r == Err::<ResponseData, DecodeError>(DecodeError::Shape),
{
    match doc {
        JsonValue::Obj(es) => {
            let status_name: String = "statusCode".to_owned();
            let status: u16 = match lookup_field(es, &status_name) {
                None => 500,
                Some(v) => match v {
                    JsonValue::Null => 500,
                    JsonValue::UInt(u) => {
                        if *u <= 65535 {
                            *u as u16
                        } else {
                            return Err(DecodeError::Shape);
                        }
                    },
                    _ => {
                        return Err(DecodeError::Shape);
                    },
                },
            };
            let headers_name: String = "headers".to_owned();
            let headers: StrMap = match lookup_field(es, &headers_name) {
                None => StrMap::new(),
                Some(v) => match v {
                    JsonValue::Null => StrMap::new(),
                    JsonValue::Obj(hes) => match decode_headers(hes) {
                        Ok(m) => m,
                        Err(e) => {
                            return Err(e);
                        },
                    },
                    _ => {
                        return Err(DecodeError::Shape);
                    },
                },
            };
            let body_name: String = "body".to_owned();
            let body: String = match lookup_field(es, &body_name) {
                None => String::new(),
                Some(v) => match v {
                    JsonValue::Null => String::new(),
                    JsonValue::Str(s) => s.clone(),
                    _ => {
                        return Err(DecodeError::Shape);
                    },
                },
            };
            let flag_name: String = "isBase64Encoded".to_owned();
            match lookup_field(es, &flag_name) {
                None => (),
                Some(v) => match v {
                    JsonValue::Null => (),
                    JsonValue::Bool(_) => (),
                    _ => {
                        return Err(DecodeError::Shape);
                    },
                },
            }
            Ok(ResponseData { status, headers, body })
        },
        _ => Err(DecodeError::Shape),
    }
}

/// Decodes the raw bytes of one upstream response body: parse the JSON
/// document, then decode its fields.
pub fn decode_response(bytes: &[u8]) -> (r: Result<ResponseData, DecodeError>)
    ensures
        json_doc(bytes@) is None ==> r == Err::<ResponseData, DecodeError>(DecodeError::Syntax),
        json_doc(bytes@) matches Some(doc) ==> {
            &&& r is Ok <==> decodable(doc)
            &&& (r matches Ok(resp) ==> decodes_to(doc, resp))
            &&& (r is Err ==> r == Err::<ResponseData, DecodeError>(DecodeError::Shape))
        },
{
    match parse_json(bytes) {
        None => Err(DecodeError::Syntax),
        Some(doc) => decode_fields(&doc),
    }
}

/// A transport failure or an undecodable upstream answer is reported to the
/// caller as a bare bad-gateway response.
pub open spec fn bad_gateway(r: ResponseData) -> bool {
    &&& r.status == 502
    &&& r.headers.wf()
    &&& r.headers@ == Map::<Seq<char>, Seq<char>>::empty()
    &&& r.body@ == Seq::<char>::empty()
}

fn bad_gateway_response() -> (r: ResponseData)
    ensures
        bad_gateway(r),
{
    ResponseData { status: 502, headers: StrMap::new(), body: String::new() }
}

/// The outbound response for one finished upstream exchange: the decoded
/// upstream body, or a bad-gateway response when the transport failed
/// (`None`) or the body was not a well-typed invocation response. Every
/// failure is contained to this one exchange.
pub fn respond(upstream_body: Option<&[u8]>) -> (r: ResponseData)
    ensures
        upstream_body is None ==> bad_gateway(r),
        upstream_body matches Some(b) ==> {
            &&& json_doc(b@) is None ==> bad_gateway(r)
            &&& json_doc(b@) matches Some(doc) ==> if decodable(doc) {
                decodes_to(doc, r)
            } else {
                bad_gateway(r)
            }
        },
{
    match upstream_body {
        None => bad_gateway_response(),
        Some(b) => match decode_response(b) {
            Ok(resp) => resp,
            Err(_) => bad_gateway_response(),
        },
    }
}

/// The emulator's invoke endpoint under the target base URL.
pub fn invocation_url(target_base: &str) -> (r: String)
    ensures
        r@ == target_base@ + "/2015-03-31/functions/function/invocations"@,
{
    let mut s = target_base.to_owned();
    s.append("/2015-03-31/functions/function/invocations");
    s
}

} // verus!
