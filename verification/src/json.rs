//! Flat JSON objects, as far as tokens and session records need them: an
//! object of `serde_json` is filled and read member by member.

use vstd::prelude::*;
use vstd::string::*;

verus! {

/// `serde_json::Value`: what a member of an object holds. It is carried
/// and never looked into.
#[verifier::external_type_specification]
#[verifier::external_body]
pub struct ExJsonValue(serde_json::Value);

/// `serde_json::Map`: a JSON object. What it holds is known by
/// [`json_members`] alone.
#[verifier::external_type_specification]
#[verifier::external_body]
#[verifier::reject_recursive_types(K)]
#[verifier::reject_recursive_types(V)]
pub struct ExJsonMap<K, V>(serde_json::Map<K, V>);

/// What a member of a JSON object holds, as far as this crate looks.
pub ghost enum JsonMember {
    /// A string.
    Text(Seq<char>),
    /// A number that is an integer of 64 bits.
    Integer(int),
    /// Anything else.
    Other,
}

/// The members of a JSON object, by name.
pub type Members = Map<Seq<char>, JsonMember>;

/// Whether every member is a string or an integer.
pub open spec fn scalars_only(members: Members) -> bool {
    forall|name: Seq<char>| #[trigger]
        members.contains_key(name) ==> !(members[name] is Other)
}

/// No members at all.
pub open spec fn no_members() -> Members {
    Map::empty()
}

/// The members that `object` holds.
pub uninterp spec fn json_members(object: serde_json::Map<String, serde_json::Value>) -> Members;

/// The compact JSON text of the object whose members, all of them strings
/// or integers, are `members`.
pub uninterp spec fn json_text(members: Members) -> Seq<char>;

/// The members of the object that `text` denotes, if it denotes one.
pub uninterp spec fn json_parsed(text: Seq<char>) -> Option<Members>;

/// `serde_json::Map::new`: an object without members.
#[verifier::external_body]
pub(crate) fn json_new() -> (object: serde_json::Map<String, serde_json::Value>)
    ensures
        json_members(object) == no_members(),
{
    serde_json::Map::new()
}

/// `serde_json::Map::insert` with a string value: the member `name` then
/// holds `text`, whatever it held; the other members are as they were.
#[verifier::external_body]
pub(crate) fn json_put_text(
    object: &mut serde_json::Map<String, serde_json::Value>,
    name: &str,
    text: &str,
)
    ensures
        json_members(*final(object)) == json_members(*old(object)).insert(
            name@,
            JsonMember::Text(text@),
        ),
{
    object.insert(name.to_owned(), serde_json::Value::String(text.to_owned()));
}

/// `serde_json::Map::insert` with an integer value: the member `name` then
/// holds `number`; the other members are as they were.
#[verifier::external_body]
pub(crate) fn json_put_integer(
    object: &mut serde_json::Map<String, serde_json::Value>,
    name: &str,
    number: i64,
)
    ensures
        json_members(*final(object)) == json_members(*old(object)).insert(
            name@,
            JsonMember::Integer(number as int),
        ),
{
    object.insert(name.to_owned(), serde_json::Value::from(number));
}

/// `serde_json::Map::get`, for a member that holds a string: the string,
/// or `None` where there is no such member or it holds something else.
#[verifier::external_body]
pub(crate) fn json_get_text(
    object: &serde_json::Map<String, serde_json::Value>,
    name: &str,
) -> (r: Option<String>)
    ensures
        match r {
            Some(s) => json_members(*object).contains_key(name@) && json_members(*object)[name@]
                == JsonMember::Text(s@),
            None => !(json_members(*object).contains_key(name@) && json_members(
                *object,
            )[name@] is Text),
        },
{
    match object.get(name) {
        Some(serde_json::Value::String(s)) => Some(s.clone()),
        _ => None,
    }
}

/// `serde_json::Map::get` and `serde_json::Value::as_i64`: the integer that
/// the member `name` holds, or `None` where there is no such member or it
/// holds something else.
#[verifier::external_body]
pub(crate) fn json_get_integer(
    object: &serde_json::Map<String, serde_json::Value>,
    name: &str,
) -> (r: Option<i64>)
    ensures
        match r {
            Some(n) => json_members(*object).contains_key(name@) && json_members(*object)[name@]
                == JsonMember::Integer(n as int),
            None => !(json_members(*object).contains_key(name@) && json_members(
                *object,
            )[name@] is Integer),
        },
{
    match object.get(name) {
        Some(v) => v.as_i64(),
        None => None,
    }
}

/// `Display` of `serde_json::Value`, for an object of strings and integers:
/// its compact JSON text.
#[verifier::external_body]
pub(crate) fn json_render(object: &serde_json::Map<String, serde_json::Value>) -> (text: String)
    requires
        scalars_only(json_members(*object)),
    ensures
        text@ == json_text(json_members(*object)),
{
    serde_json::Value::Object(object.clone()).to_string()
}

/// `serde_json::from_str` for an object: its members, where `text` is the
/// JSON text of an object and of nothing else.
#[verifier::external_body]
pub(crate) fn json_parse(text: &str) -> (r: Option<serde_json::Map<String, serde_json::Value>>)
    ensures
        r is Some == json_parsed(text@) is Some,
        r matches Some(object) ==> Some(json_members(object)) == json_parsed(text@),
{
    serde_json::from_str::<serde_json::Map<String, serde_json::Value>>(text).ok()
}

} // verus!
