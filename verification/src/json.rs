//! What the bridge reads out of JSON texts before it knows their type.
use crate::text::same_text;
use vstd::prelude::*;

verus! {

/// A JSON value.
#[verifier::external_type_specification]
#[verifier::external_body]
pub struct ExValue(serde_json::Value);

/// Why a text is not JSON.
#[verifier::external_type_specification]
#[verifier::external_body]
pub struct ExError(serde_json::Error);

/// The value that `serde_json::from_str` reads from a text, if it is JSON.
pub uninterp spec fn json_value(text: Seq<char>) -> Option<serde_json::Value>;

/// The value that `Value::index` finds under a key.
pub uninterp spec fn json_member(value: serde_json::Value, key: Seq<char>) -> serde_json::Value;

/// The text of a value that `Value::as_str` holds to be a string.
pub uninterp spec fn json_text(value: serde_json::Value) -> Option<Seq<char>>;

/// The string that a value holds under a key, if it holds one there.
pub open spec fn json_string(value: serde_json::Value, key: Seq<char>) -> Option<Seq<char>> {
    json_text(json_member(value, key))
}

/// Calls `serde_json::from_str`. Claims that success and the value depend on the text alone.
#[verifier::external_body]
pub(crate) fn parse(text: &str) -> (value: Result<serde_json::Value, serde_json::Error>)
    ensures
        value.ok() == json_value(text@),
{
    serde_json::from_str::<serde_json::Value>(text)
}

/// Calls `Value::index` with a key, which never panics. Claims that what it finds depends on the
/// value and the key alone; that it is null where there is no such member is left unsaid.
#[verifier::external_body]
fn member<'a>(value: &'a serde_json::Value, key: &str) -> (found: &'a serde_json::Value)
    ensures
        *found == json_member(*value, key@),
{
    &value[key]
}

/// Calls `Value::as_str`. Claims that the text, and whether there is one, depend on the value
/// alone.
#[verifier::external_body]
fn as_str(value: &serde_json::Value) -> (text: Option<&str>)
    ensures
        text is Some <==> json_text(*value) is Some,
        text matches Some(t) ==> json_text(*value) == Some(t@),
{
    value.as_str()
}

/// The string that a value holds under a key, if it holds one there.
pub(crate) fn string_under<'a>(value: &'a serde_json::Value, key: &str) -> (found: Option<&'a str>)
    ensures
        found is Some <==> json_string(*value, key@) is Some,
        found matches Some(text) ==> json_string(*value, key@) == Some(text@),
{
    as_str(member(value, key))
}

/// The types of messages that the bridge tells apart.
#[derive(Clone, Copy, Debug, PartialEq, Eq, Structural)]
pub enum ReplyKind {
    APIError,
    APIStateResponse,
    AuthenticationTokenResponse,
    AuthenticationResponse,
    InjectParameterDataResponse,
    ParameterCreationResponse,
    HotkeyTriggerResponse,
    /// A type that the bridge does not know.
    Unknown,
    /// No type at all.
    Untyped,
}

/// The kind of a message by the name of its type.
pub open spec fn kind_of_type(message_type: Option<Seq<char>>) -> ReplyKind {
    match message_type {
        None => ReplyKind::Untyped,
        Some(name) => if name == "APIError"@ {
            ReplyKind::APIError
        } else if name == "APIStateResponse"@ {
            ReplyKind::APIStateResponse
        } else if name == "AuthenticationTokenResponse"@ {
            ReplyKind::AuthenticationTokenResponse
        } else if name == "AuthenticationResponse"@ {
            ReplyKind::AuthenticationResponse
        } else if name == "InjectParameterDataResponse"@ {
            ReplyKind::InjectParameterDataResponse
        } else if name == "ParameterCreationResponse"@ {
            ReplyKind::ParameterCreationResponse
        } else if name == "HotkeyTriggerResponse"@ {
            ReplyKind::HotkeyTriggerResponse
        } else {
            ReplyKind::Unknown
        },
    }
}

/// The kind of a message whose type is given by name.
pub fn kind_by_type(message_type: Option<&str>) -> (kind: ReplyKind)
    ensures
        message_type matches Some(name) ==> kind == kind_of_type(Some(name@)),
        message_type is None ==> kind == kind_of_type(None),
{
    match message_type {
        None => ReplyKind::Untyped,
        Some(name) => if same_text(name, "APIError") {
            ReplyKind::APIError
        } else if same_text(name, "APIStateResponse") {
            ReplyKind::APIStateResponse
        } else if same_text(name, "AuthenticationTokenResponse") {
            ReplyKind::AuthenticationTokenResponse
        } else if same_text(name, "AuthenticationResponse") {
            ReplyKind::AuthenticationResponse
        } else if same_text(name, "InjectParameterDataResponse") {
            ReplyKind::InjectParameterDataResponse
        } else if same_text(name, "ParameterCreationResponse") {
            ReplyKind::ParameterCreationResponse
        } else if same_text(name, "HotkeyTriggerResponse") {
            ReplyKind::HotkeyTriggerResponse
        } else {
            ReplyKind::Unknown
        },
    }
}

/// The kind of a message, or nothing where the text is not JSON.
pub fn reply_kind(text: &str) -> (kind: Option<ReplyKind>)
    ensures
        kind == match json_value(text@) {
            Some(value) => Some(kind_of_type(json_string(value, "messageType"@))),
            None => None,
        },
{
    match parse(text) {
        Ok(value) => Some(kind_by_type(string_under(&value, "messageType"))),
        Err(_) => None,
    }
}

/// The type of a message decides how it is taken: the seven types that are known are told apart,
/// each from the others and from every other type.
pub proof fn law_types_are_told_apart(a: Seq<char>, b: Seq<char>)
    ensures
        kind_of_type(Some(a)) == kind_of_type(Some(b)) && a != b ==> kind_of_type(Some(a))
            == ReplyKind::Unknown,
        kind_of_type(Some(a)) != ReplyKind::Untyped,
        kind_of_type(None) == ReplyKind::Untyped,
        kind_of_type(Some("APIError"@)) == ReplyKind::APIError,
        kind_of_type(Some("APIStateResponse"@)) == ReplyKind::APIStateResponse,
        kind_of_type(Some("AuthenticationTokenResponse"@))
            == ReplyKind::AuthenticationTokenResponse,
        kind_of_type(Some("AuthenticationResponse"@)) == ReplyKind::AuthenticationResponse,
        kind_of_type(Some("InjectParameterDataResponse"@))
            == ReplyKind::InjectParameterDataResponse,
        kind_of_type(Some("ParameterCreationResponse"@)) == ReplyKind::ParameterCreationResponse,
        kind_of_type(Some("HotkeyTriggerResponse"@)) == ReplyKind::HotkeyTriggerResponse,
{
    reveal_strlit("APIError");
    reveal_strlit("APIStateResponse");
    reveal_strlit("AuthenticationTokenResponse");
    reveal_strlit("AuthenticationResponse");
    reveal_strlit("InjectParameterDataResponse");
    reveal_strlit("ParameterCreationResponse");
    reveal_strlit("HotkeyTriggerResponse");
    assert("APIError"@.len() == 8);
    assert("APIStateResponse"@.len() == 16);
    assert("AuthenticationTokenResponse"@.len() == 27);
    assert("AuthenticationResponse"@.len() == 22);
    assert("InjectParameterDataResponse"@.len() == 27);
    assert("ParameterCreationResponse"@.len() == 25);
    assert("HotkeyTriggerResponse"@.len() == 21);
    assert("InjectParameterDataResponse"@[0] == 'I' && "AuthenticationTokenResponse"@[0] == 'A');
}

/// The strings of a message are found by walking to the member and taking its text.
pub proof fn law_string_is_text_of_member(value: serde_json::Value, key: Seq<char>)
    ensures
        json_string(value, key) == json_text(json_member(value, key)),
{
}

} // verus!
