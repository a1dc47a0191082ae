//! The reply of the generation service: its body decoded into a document,
//! the fields that the orchestration reads, and a bounded preview of it for
//! diagnostics.

use vstd::prelude::*;
use crate::json::Json;
use crate::text::{char_count, char_prefix, decimal, decimal_text};

verus! {

/// The number of characters of a payload that a diagnostic shows.
pub const JSON_PREVIEW_CHARS: usize = 2_000;

/// `serde_json::Value`, a parsed JSON document; nothing of its inside is
/// known here.
#[verifier::external_type_specification]
#[verifier::external_body]
pub struct ExValue(serde_json::Value);

/// Whether `bytes` are one JSON document, as `serde_json::from_slice`
/// reads them.
pub uninterp spec fn is_json(bytes: Seq<u8>) -> bool;

/// The document that `serde_json::from_slice` reads from `bytes`, copied
/// into a `Json`.
pub uninterp spec fn parsed_document(bytes: Seq<u8>) -> Json;

/// The compact JSON text that `Value::to_string` writes for the document
/// read from `bytes`.
pub uninterp spec fn compact_text(bytes: Seq<u8>) -> Seq<char>;

/// What `serde_json::Error::to_string` says of the failure to read
/// `bytes` as a document.
pub uninterp spec fn parse_error(bytes: Seq<u8>) -> Seq<char>;

/// Copies a `serde_json::Value` into a `Json`, variant by variant; a
/// number goes over as `Number::to_string` displays it, and the members
/// of an object in the order in which `Map::iter` gives them. Nothing is
/// claimed of the copy here; `read_document` names it.
#[verifier::external_body]
fn tree_of(value: &serde_json::Value) -> Json {
    match value {
        serde_json::Value::Null => Json::Null,
        serde_json::Value::Bool(flag) => Json::Bool(*flag),
        serde_json::Value::Number(number) => Json::Number(number.to_string()),
        serde_json::Value::String(text) => Json::Text(text.clone()),
        serde_json::Value::Array(items) => Json::Array(items.iter().map(tree_of).collect()),
        serde_json::Value::Object(fields) => Json::Object(
            fields.iter().map(|(name, field)| (name.clone(), tree_of(field))).collect(),
        ),
    }
}

/// One reply of the service: the document, and its compact text as the
/// parser writes it back.
#[derive(Debug)]
pub struct Payload {
    pub document: Json,
    pub rendered: String,
}

/// `serde_json::from_slice` for a `Value`, then the copy of the value into
/// a `Json` and `Value::to_string`; on failure `Error::to_string`. The
/// parse succeeds or fails by the bytes alone, and the document, its
/// compact text and the description of a failure are each determined by
/// the bytes: that much is claimed, and no more of what they are.
#[verifier::external_body]
fn read_document(bytes: &[u8]) -> (r: Result<Payload, String>)
    ensures
        r is Ok == is_json(bytes@),
        r matches Ok(payload) ==> payload.document == parsed_document(bytes@)
            && payload.rendered@ == compact_text(bytes@),
        r matches Err(detail) ==> detail@ == parse_error(bytes@),
{
    match serde_json::from_slice::<serde_json::Value>(bytes) {
        Ok(value) => Ok(Payload { document: tree_of(&value), rendered: value.to_string() }),
        Err(err) => Err(err.to_string()),
    }
}

/// Reads the body of a reply. A body that is a JSON document gives the
/// payload with that document and its compact text; any other body gives
/// the parser's description of what is wrong with it.
pub fn decode_payload(body: &[u8]) -> (r: Result<Payload, String>)
    ensures
        r is Ok == is_json(body@),
        r matches Ok(payload) ==> payload.document == parsed_document(body@)
            && payload.rendered@ == compact_text(body@),
        r matches Err(detail) ==> detail@ == parse_error(body@),
{
    read_document(body)
}

/// The `status` of a job, where the payload names one.
pub open spec fn status_text(document: Json) -> Option<Seq<char>> {
    document.member_text("status"@)
}

/// The message of the error that the service reports, where it reports one.
pub open spec fn error_message_text(document: Json) -> Option<Seq<char>> {
    match document.member("error"@) {
        Some(error) => error.member_text("message"@),
        None => None,
    }
}

/// The reason why a job stopped early, where the payload gives one.
pub open spec fn incomplete_reason_text(document: Json) -> Option<Seq<char>> {
    match document.member("incomplete_details"@) {
        Some(details) => details.member_text("reason"@),
        None => None,
    }
}

/// The identifier of the job, where the payload carries one.
pub open spec fn job_id_text(document: Json) -> Option<Seq<char>> {
    document.member_text("id"@)
}

/// `text` cut to a preview: all of it where it is short enough, else its
/// first characters and a note of how many were left out.
pub open spec fn preview(text: Seq<char>) -> Seq<char> {
    if text.len() <= JSON_PREVIEW_CHARS {
        text
    } else {
        text.subrange(0, JSON_PREVIEW_CHARS as int) + "...[truncated "@ + decimal_text(
            (text.len() - JSON_PREVIEW_CHARS) as nat,
        ) + " chars]"@
    }
}

/// The `status` member of a payload, where it is a string.
pub fn response_status(value: &Json) -> (r: Option<&str>)
    ensures
        r matches Some(s) ==> status_text(*value) == Some(s@),
        r is None ==> status_text(*value) is None,
{
    value.get_str("status")
}

/// The `message` of the `error` member of a payload, where it is a
/// string.
pub fn openai_error_message(value: &Json) -> (r: Option<String>)
    ensures
        r matches Some(s) ==> error_message_text(*value) == Some(s@),
        r is None ==> error_message_text(*value) is None,
{
    match value.get("error") {
        Some(error) => match error.get_str("message") {
            Some(message) => Some(message.to_owned()),
            None => None,
        },
        None => None,
    }
}

/// The `reason` of the `incomplete_details` member of a payload, where
/// it is a string.
pub fn incomplete_reason(value: &Json) -> (r: Option<String>)
    ensures
        r matches Some(s) ==> incomplete_reason_text(*value) == Some(s@),
        r is None ==> incomplete_reason_text(*value) is None,
{
    match value.get("incomplete_details") {
        Some(details) => match details.get_str("reason") {
            Some(reason) => Some(reason.to_owned()),
            None => None,
        },
        None => None,
    }
}

/// The preview of a payload's compact text.
pub fn summarize_json(value: &Payload) -> (r: String)
    ensures
        r@ == preview(value.rendered@),
{
    let text = value.rendered.as_str();
    let length = char_count(text);
    if length <= JSON_PREVIEW_CHARS {
        return text.to_owned();
    }
    let mut summary = char_prefix(text, JSON_PREVIEW_CHARS).to_owned();
    summary.append("...[truncated ");
    summary.append(decimal(length - JSON_PREVIEW_CHARS).as_str());
    summary.append(" chars]");
    summary
}

} // verus!
