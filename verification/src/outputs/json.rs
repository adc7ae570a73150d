//! JSON by way of `serde_json`: the object that keeps its members in the
//! order of insertion, and its pretty-printed text. Nothing here is
//! proved; each item says what it takes on trust.

use vstd::prelude::*;
use vstd::string::*;

verus! {

/// `serde_json::Map`, the JSON object. It is carried around as it is; what
/// it holds is named by [`json_members`].
#[verifier::external_type_specification]
#[verifier::external_body]
#[verifier::reject_recursive_types(K)]
#[verifier::reject_recursive_types(V)]
pub struct ExMap<K, V>(serde_json::Map<K, V>);

/// `serde_json::Value`, a JSON value of any kind.
#[verifier::external_type_specification]
#[verifier::external_body]
pub struct ExValue(serde_json::Value);

/// `serde_json::Error`, the error of a serializer that failed.
#[verifier::external_type_specification]
#[verifier::external_body]
pub struct ExError(serde_json::Error);

/// The members of a JSON object whose values are strings: each key with its
/// value, in the order in which the object hands them out.
pub uninterp spec fn json_members(object: serde_json::Map<String, serde_json::Value>) -> Seq<
    (Seq<char>, Seq<char>),
>;

/// What pretty-printing makes of an object with the given members: the
/// JSON text, or nothing where the serializer fails.
pub uninterp spec fn pretty_json(members: Seq<(Seq<char>, Seq<char>)>) -> Option<Seq<char>>;

/// What a serializer handed back: the text, or nothing where it failed.
pub open spec fn rendered_text(rendered: Result<String, serde_json::Error>) -> Option<Seq<char>> {
    match rendered {
        Ok(text) => Some(text@),
        Err(_) => None,
    }
}

/// Whether some member has the key.
pub open spec fn has_member(members: Seq<(Seq<char>, Seq<char>)>, key: Seq<char>) -> bool {
    exists|i: int| 0 <= i < members.len() && (#[trigger] members[i]).0 == key
}

/// The members after `key` has been given `value`: a key that is there
/// keeps its place and takes the value, a new key goes to the end.
pub open spec fn with_member(
    members: Seq<(Seq<char>, Seq<char>)>,
    key: Seq<char>,
    value: Seq<char>,
) -> Seq<(Seq<char>, Seq<char>)> {
    if has_member(members, key) {
        let i = choose|i: int| 0 <= i < members.len() && (#[trigger] members[i]).0 == key;
        members.update(i, (key, value))
    } else {
        members.push((key, value))
    }
}

/// `serde_json::Map::new`: an object without members.
#[verifier::external_body]
pub(crate) fn json_object() -> (object: serde_json::Map<String, serde_json::Value>)
    ensures
        json_members(object) == Seq::<(Seq<char>, Seq<char>)>::empty(),
{
    serde_json::Map::new()
}

/// `serde_json::Map::insert` with a string value. The object keeps the
/// order of insertion: a key that is present keeps its place and takes the
/// new value, a key that is not goes last.
#[verifier::external_body]
pub(crate) fn json_insert(object: &mut serde_json::Map<String, serde_json::Value>, key: String, value: String)
    ensures
        json_members(*final(object)) == with_member(json_members(*old(object)), key@, value@),
{
    object.insert(key, serde_json::Value::String(value));
}

/// `serde_json::to_string_pretty` on an object. The serializer writes into
/// memory and reads nothing but the object, so whether it succeeds and
/// what text it yields depend on the object's members alone.
#[verifier::external_body]
pub(crate) fn json_pretty(object: serde_json::Map<String, serde_json::Value>) -> (text: Result<
    String,
    serde_json::Error,
>)
    ensures
        rendered_text(text) == pretty_json(json_members(object)),
{
    serde_json::to_string_pretty(&serde_json::Value::Object(object))
}

} // verus!
