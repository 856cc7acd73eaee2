use vstd::prelude::*;

verus! {

/// A parsed JSON document, reduced to what the response decoder reads.
/// Numbers are kept only as far as the decoder needs them: either an
/// unsigned 64-bit integer or a marker for any other number.
pub enum JsonValue {
    Null,
    Bool(bool),
    /// A number that is an unsigned 64-bit integer.
    UInt(u64),
    /// A number that is not an unsigned 64-bit integer: negative or fractional.
    OtherNum,
    Str(String),
    Arr(Vec<JsonValue>),
    /// An object's fields in order; when a field is read, the last one with
    /// the asked-for name counts.
    Obj(Vec<(String, JsonValue)>),
}

#[verifier::external_type_specification]
#[verifier::external_body]
pub struct ExValue(serde_json::Value);

/// What serde_json::from_slice yields on the bytes: the parsed document, or
/// `None` when the bytes are not one valid JSON document. A function of the
/// bytes alone.
pub uninterp spec fn json_doc(bytes: Seq<u8>) -> Option<JsonValue>;

/// Relies on serde_json::Value's variants: each JSON node becomes the
/// matching JsonValue variant, a number reduced to whether it is an
/// unsigned 64-bit integer.
#[verifier::external_body]
fn from_json_value(v: serde_json::Value) -> JsonValue {
    match v {
        serde_json::Value::Null => JsonValue::Null,
        serde_json::Value::Bool(b) => JsonValue::Bool(b),
        serde_json::Value::Number(n) => match n.as_u64() {
            Some(u) => JsonValue::UInt(u),
            None => JsonValue::OtherNum,
        },
        serde_json::Value::String(s) => JsonValue::Str(s),
        serde_json::Value::Array(a) => JsonValue::Arr(a.into_iter().map(from_json_value).collect()),
        serde_json::Value::Object(o) => JsonValue::Obj(
            o.into_iter().map(|(k, w)| (k, from_json_value(w))).collect(),
        ),
    }
}

/// Relies on serde_json::from_slice::<serde_json::Value>: parsing is a
/// function of the input bytes alone, and bytes that are not one valid
/// JSON document yield an error.
#[verifier::external_body]
pub fn parse_json(bytes: &[u8]) -> (r: Option<JsonValue>)
    ensures
        r == json_doc(bytes@),
{
    match serde_json::from_slice::<serde_json::Value>(bytes) {
        Ok(v) => Some(from_json_value(v)),
        Err(_) => None,
    }
}

/// The value of the last field with the given name, as a JSON object yields it.
pub open spec fn lookup(entries: Seq<(String, JsonValue)>, k: Seq<char>) -> Option<JsonValue>
    decreases entries.len(),
{
    if entries.len() == 0 {
        None
    } else if entries.last().0@ == k {
        Some(entries.last().1)
    } else {
        lookup(entries.drop_last(), k)
    }
}

/// Finds the last field with the given name.
#[verifier::loop_isolation(false)]
pub fn lookup_field<'a>(entries: &'a Vec<(String, JsonValue)>, k: &String) -> (r: Option<
    &'a JsonValue,
>)
    ensures
        match r {
            Some(v) => lookup(entries@, k@) == Some(*v),
            None => lookup(entries@, k@) is None,
        },
{
    proof {
        assert(entries@.take(entries@.len() as int) =~= entries@);
    }
    let mut i: usize = entries.len();
    while i > 0
        invariant
            i <= entries@.len(),
            lookup(entries@, k@) == lookup(entries@.take(i as int), k@),
        decreases i,
    {
        i = i - 1;
        proof {
            assert(entries@.take(i as int + 1).last() == entries@[i as int]);
            assert(entries@.take(i as int + 1).drop_last() =~= entries@.take(i as int));
        }
        if entries[i].0 == *k {
            return Some(&entries[i].1);
        }
    }
    None
}

} // verus!
