use vstd::prelude::*;

verus! {

/// `serde_json::Value`, a parsed JSON value. Nothing of its inside is visible here.
#[verifier::external_type_specification]
#[verifier::external_body]
pub struct ExValue(serde_json::Value);

/// `serde_json::Error`, the reason why a text is no JSON document.
#[verifier::external_type_specification]
#[verifier::external_body]
pub struct ExError(serde_json::Error);

/// What a JSON object holds, as far as this library reads it: for each of its
/// members, by name, the text of the member where the member is a string, and
/// `None` where it is anything else. A value that is no object has no members.
pub uninterp spec fn json_members(v: serde_json::Value) -> Map<Seq<char>, Option<Seq<char>>>;

/// The text that a JSON value holds where it is a string.
pub uninterp spec fn json_text(v: serde_json::Value) -> Option<Seq<char>>;

/// The members of the JSON document that a text spells out, as `serde_json`
/// reads it; `None` where the text is no JSON document.
pub uninterp spec fn json_document(text: Seq<char>) -> Option<Map<Seq<char>, Option<Seq<char>>>>;

/// Calls `serde_json::from_str` for a `Value`. The parser reads nothing but
/// the text, so what it returns is taken as the meaning of [`json_document`]:
/// an error stands for a text that is no JSON document.
#[verifier::external_body]
pub(crate) fn parse_document(text: &str) -> (parsed: Result<serde_json::Value, serde_json::Error>)
    ensures
        match parsed {
            Ok(v) => json_document(text@) == Some(json_members(v)),
            Err(_) => json_document(text@) is None,
        },
{
    serde_json::from_str::<serde_json::Value>(text)
}

/// Calls `serde_json::Value::get` with a string index: the member of that
/// name where the value is an object that has one, else `None`.
#[verifier::external_body]
pub(crate) fn member<'a>(v: &'a serde_json::Value, name: &str) -> (found: Option<
    &'a serde_json::Value,
>)
    ensures
        match found {
            Some(m) => json_members(*v).contains_key(name@) && json_members(*v)[name@]
                == json_text(*m),
            None => !json_members(*v).contains_key(name@),
        },
{
    v.get(name)
}

/// Calls `serde_json::Value::as_str`: the text where the value is a string,
/// else `None`.
#[verifier::external_body]
pub(crate) fn text_of<'a>(v: &'a serde_json::Value) -> (text: Option<&'a str>)
    ensures
        match text {
            Some(s) => json_text(*v) == Some(s@),
            None => json_text(*v) is None,
        },
{
    v.as_str()
}

/// The text of the member `name` of a document, where it has such a member
/// and the member is a string.
pub open spec fn member_text(members: Map<Seq<char>, Option<Seq<char>>>, name: Seq<char>) -> Option<
    Seq<char>,
> {
    if members.contains_key(name) {
        members[name]
    } else {
        None
    }
}

/// The text of the member `name` of `v`, where `v` is an object with such a
/// member and the member is a string.
pub(crate) fn string_member<'a>(v: &'a serde_json::Value, name: &str) -> (text: Option<&'a str>)
    ensures
        match text {
            Some(s) => member_text(json_members(*v), name@) == Some(s@),
            None => member_text(json_members(*v), name@) is None,
        },
{
    match member(v, name) {
        Some(m) => text_of(m),
        None => None,
    }
}

} // verus!
