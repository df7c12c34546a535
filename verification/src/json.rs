//! JSON values of `serde_json`, and the tree that contracts speak of.
use vstd::prelude::*;

verus! {

/// The contents of a JSON value.
///
/// Object members are unordered; a number is either an integer or a finite
/// binary fraction, the latter told by the bits of its `f64`.
#[verifier::ext_equal]
pub enum Json {
    Null,
    Bool(bool),
    Int(int),
    Float(u64),
    Str(Seq<char>),
    Arr(Seq<Json>),
    Obj(Map<Seq<char>, Json>),
}

impl Json {
    /// The member `key`, or `Null` where there is none.
    pub open spec fn member(self, key: Seq<char>) -> Json {
        match self {
            Json::Obj(m) => if m.contains_key(key) { m[key] } else { Json::Null },
            _ => Json::Null,
        }
    }

    /// An object with the member `key` set to `value`.
    pub open spec fn with(self, key: Seq<char>, value: Json) -> Json {
        Json::Obj(self->Obj_0.insert(key, value))
    }

    /// An object without members.
    pub open spec fn object() -> Json {
        Json::Obj(Map::empty())
    }
}

/// `serde_json::Value`, opaque to the verifier.
#[verifier::external_type_specification]
#[verifier::external_body]
pub struct ExValue(serde_json::Value);

/// `serde_json::Error`, opaque to the verifier.
#[verifier::external_type_specification]
#[verifier::external_body]
pub struct ExJsonError(serde_json::Error);

/// What a `serde_json::Value` holds.
pub uninterp spec fn json_of(v: serde_json::Value) -> Json;

/// What each value of a sequence holds.
pub open spec fn json_items(s: Seq<serde_json::Value>) -> Seq<Json> {
    s.map_values(|v: serde_json::Value| json_of(v))
}

/// The text that `serde_json::to_string_pretty` writes for a tree.
pub uninterp spec fn pretty_text(tree: Json) -> Seq<char>;

/// What `serde_json::from_slice` reads from a text, or `None` where it reports
/// an error.
pub uninterp spec fn parsed(bytes: Seq<u8>) -> Option<Json>;

/// The string values of a sequence of texts.
pub open spec fn text_items(texts: Seq<Seq<char>>) -> Seq<Json> {
    texts.map_values(|t: Seq<char>| Json::Str(t))
}

/// `Value::from(&str)`: a string value with that text.
#[verifier::external_body]
pub(crate) fn string(s: &str) -> (v: serde_json::Value)
    ensures
        json_of(v) == Json::Str(s@),
{
    serde_json::Value::from(s)
}

/// `Value::from(u64)`: that integer.
#[verifier::external_body]
pub(crate) fn number(n: u64) -> (v: serde_json::Value)
    ensures
        json_of(v) == Json::Int(n as int),
{
    serde_json::Value::from(n)
}

/// `Value::from(bool)`: that truth value.
#[verifier::external_body]
pub(crate) fn boolean(b: bool) -> (v: serde_json::Value)
    ensures
        json_of(v) == Json::Bool(b),
{
    serde_json::Value::from(b)
}

/// `Value::from(Vec<Value>)`: the array of these values, in order.
#[verifier::external_body]
pub(crate) fn array(items: Vec<serde_json::Value>) -> (v: serde_json::Value)
    ensures
        json_of(v) == Json::Arr(json_items(items@)),
{
    serde_json::Value::from(items)
}

/// `Value::from(Map)` on the empty map: an object without members.
#[verifier::external_body]
pub(crate) fn object() -> (v: serde_json::Value)
    ensures
        json_of(v) == Json::Obj(Map::empty()),
{
    serde_json::Value::from(serde_json::Map::new())
}

/// `Value`'s `IndexMut` with a string key, assigned to: sets the member of an
/// object, whether or not it was there. On anything but an object or `null`
/// it panics.
#[verifier::external_body]
pub(crate) fn set_member(v: &mut serde_json::Value, key: &str, member: serde_json::Value)
    requires
        json_of(*old(v)) is Obj,
    ensures
        json_of(*final(v)) == Json::Obj(json_of(*old(v))->Obj_0.insert(key@, json_of(member))),
{
    v[key] = member;
}

/// `serde_json::to_string_pretty` on a value. It reports an error only for a type
/// whose own serialization fails, or for a map with keys that are no strings: a
/// value is neither.
#[verifier::external_body]
pub(crate) fn to_pretty(v: &serde_json::Value) -> (r: Result<String, serde_json::Error>)
    ensures
        r is Ok && r->Ok_0@ == pretty_text(json_of(*v)),
{
    serde_json::to_string_pretty(v)
}

/// `serde_json::from_slice`, parsing a value.
#[verifier::external_body]
pub(crate) fn parse(bytes: &[u8]) -> (r: Result<serde_json::Value, serde_json::Error>)
    ensures
        match r {
            Ok(v) => parsed(bytes@) == Some(json_of(v)),
            Err(_) => parsed(bytes@) is None,
        },
{
    serde_json::from_slice(bytes)
}

/// `Value`'s `Index` with a string key: the member of an object, or `null`.
#[verifier::external_body]
pub(crate) fn member<'a>(v: &'a serde_json::Value, key: &str) -> (r: &'a serde_json::Value)
    ensures
        json_of(*r) == json_of(*v).member(key@),
{
    &v[key]
}

/// `Value::as_u64`: the number, if it is an integer of that type.
#[verifier::external_body]
pub(crate) fn as_u64(v: &serde_json::Value) -> (r: Option<u64>)
    ensures
        match r {
            Some(n) => json_of(*v) == Json::Int(n as int),
            None => !(json_of(*v) is Int && 0 <= json_of(*v)->Int_0 <= u64::MAX),
        },
{
    v.as_u64()
}

/// `Value::as_array`: the items of an array.
#[verifier::external_body]
pub(crate) fn as_array(v: &serde_json::Value) -> (r: Option<&Vec<serde_json::Value>>)
    ensures
        match r {
            Some(items) => json_of(*v) == Json::Arr(json_items(items@)),
            None => !(json_of(*v) is Arr),
        },
{
    v.as_array()
}

/// The object `v` with the member `key` set.
pub(crate) fn with(v: serde_json::Value, key: &str, m: serde_json::Value) -> (r: serde_json::Value)
    requires
        json_of(v) is Obj,
    ensures
        json_of(r) == json_of(v).with(key@, json_of(m)),
        json_of(r) is Obj,
{
    let mut r = v;
    set_member(&mut r, key, m);
    r
}

/// The array of these texts.
pub(crate) fn strings(texts: &Vec<String>) -> (r: serde_json::Value)
    ensures
        json_of(r) == Json::Arr(text_items(texts.deep_view())),
{
    let mut items: Vec<serde_json::Value> = Vec::new();
    let mut i: usize = 0;
    while i < texts.len()
        invariant
            i <= texts.len(),
            json_items(items@) == text_items(texts.deep_view().take(i as int)),
        decreases texts.len() - i,
    {
        let ghost before = items@;
        items.push(string(texts[i].as_str()));
        proof {
            let all = texts.deep_view();
            assert(all.take(i + 1) =~= all.take(i as int).push(texts@[i as int]@));
            assert(text_items(all.take(i + 1)) =~= text_items(all.take(i as int)).push(
                Json::Str(texts@[i as int]@),
            ));
            assert(json_items(items@) =~= json_items(before).push(Json::Str(texts@[i as int]@)));
        }
        i = i + 1;
    }
    proof {
        assert(texts.deep_view().take(texts.len() as int) =~= texts.deep_view());
    }
    array(items)
}

}
