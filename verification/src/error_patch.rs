//! Error answers made OpenAI-shaped: which answers are rewritten, and what
//! is added to a JSON error body that lacks an `error` object.
use vstd::prelude::*;

use crate::error::{is_server_error, opt_view, openai_error_type, openai_error_type_spec};
use crate::gcp::{canonical_reason, http_canonical_reason};
use crate::text::{chars_of, owned, starts_with, starts_with_str, string_from_chars, trim_chars, trimmed};

verus! {

/// An error answer is rewritten when its status is 4xx or 5xx and its
/// content type, if it has one, is JSON or plain text.
pub open spec fn rewrites_spec(status: u16, content_type: Option<Seq<char>>) -> bool {
    &&& 400 <= status <= 599
    &&& match content_type {
        None => true,
        Some(t) => starts_with(t, "application/json"@) || starts_with(t, "text/plain"@),
    }
}

/// Whether an answer's body is made OpenAI-shaped.
pub fn should_rewrite(status: u16, content_type: Option<&str>) -> (r: bool)
    ensures
        r == rewrites_spec(
            status,
            match content_type {
                Some(t) => Some(t@),
                None => None,
            },
        ),
{
    if !(400 <= status && status <= 599) {
        return false;
    }
    match content_type {
        None => true,
        Some(t) => {
            let c = chars_of(t);
            starts_with_str(&c, "application/json") || starts_with_str(&c, "text/plain")
        },
    }
}

/// A field of a JSON object, as far as its text is concerned.
#[derive(Debug)]
pub enum JsonField {
    /// The object has no such field.
    Absent,
    /// The field holds something other than a string.
    NotText,
    /// The field holds this string.
    Text(String),
}

/// What is added to an error body: the legacy field to fill (none when the
/// body has `message` or `reason` already), the message, and the error
/// type.
#[derive(Debug)]
pub struct OpenAiErrorPatch {
    pub legacy_field: Option<&'static str>,
    pub message: String,
    pub error_type: &'static str,
}

/// What a field of a JSON object is: `None` when absent, `Some(None)` when
/// it holds something other than a string, else the string.
pub open spec fn field_view(f: JsonField) -> Option<Option<Seq<char>>> {
    match f {
        JsonField::Absent => None,
        JsonField::NotText => Some(None),
        JsonField::Text(t) => Some(Some(t@)),
    }
}

/// The message of an error body: its `message` field, else (when that is
/// absent) its `reason` field, if that field is a string; else the trimmed
/// body text if not empty; else the status's reason phrase, or "Request
/// failed".
pub open spec fn patch_message(
    status: u16,
    message: Option<Option<Seq<char>>>,
    reason: Option<Option<Seq<char>>>,
    original: Seq<char>,
) -> Seq<char> {
    let field = match message {
        None => reason,
        _ => message,
    };
    match field {
        Some(Some(t)) => t,
        _ => if trimmed(original).len() != 0 {
            trimmed(original)
        } else {
            match http_canonical_reason(status) {
                Some(r) => r,
                None => "Request failed"@,
            }
        },
    }
}

/// Works out what to add to an error body without an `error` object, from
/// its `message` and `reason` fields and its original text.
pub fn add_openai_error(status: u16, message: JsonField, reason: JsonField, original: &str) -> (r: OpenAiErrorPatch)
    ensures
        r.message@ == patch_message(status, field_view(message), field_view(reason), original@),
        r.error_type@ == openai_error_type_spec(status),
        match (message, reason) {
            (JsonField::Absent, JsonField::Absent) => r.legacy_field matches Some(f) && f@ == if status == 429
                || is_server_error(status) {
                "reason"@
            } else {
                "message"@
            },
            _ => r.legacy_field is None,
        },
{
    let has_legacy = match (&message, &reason) {
        (JsonField::Absent, JsonField::Absent) => false,
        _ => true,
    };
    let field = match message {
        JsonField::Absent => reason,
        other => other,
    };
    let text = match field {
        JsonField::Text(t) => t,
        _ => {
            let c = chars_of(original);
            let t = trim_chars(&c);
            if t.len() != 0 {
                string_from_chars(&t)
            } else {
                match canonical_reason(status) {
                    Some(r) => r,
                    None => owned("Request failed"),
                }
            }
        },
    };
    let legacy_field: Option<&'static str> = if has_legacy {
        None
    } else if status == 429 || (500 <= status && status <= 599) {
        Some("reason")
    } else {
        Some("message")
    };
    OpenAiErrorPatch { legacy_field, message: text, error_type: openai_error_type(status) }
}


/// The JSON object a body parses to, written again by `serde_json`: `None`
/// when the body is not a JSON object.
pub uninterp spec fn json_object_of(body: Seq<u8>) -> Option<Seq<u8>>;

/// The field `key` of the JSON object `object`, as [`field_view`] reads it;
/// `None` also when `object` is not a JSON object.
pub uninterp spec fn json_field_of(object: Seq<u8>, key: Seq<char>) -> Option<Option<Seq<char>>>;

/// The JSON object `object` with `value` put under `key` (replacing what
/// was there), written again by `serde_json`; `None` when `object` is not a
/// JSON object.
pub uninterp spec fn json_with_field(object: Seq<u8>, key: Seq<char>, value: JsonInsertView) -> Option<Seq<u8>>;

/// The text `String::from_utf8_lossy` makes of some bytes.
pub uninterp spec fn utf8_lossy_of(bytes: Seq<u8>) -> Seq<char>;

/// A value to put into a JSON object: a string, or an object of fields
/// that are strings or null.
#[derive(Debug)]
pub enum JsonInsert {
    Text(String),
    Fields(Vec<(String, Option<String>)>),
}

/// The abstract content of a [`JsonInsert`].
pub enum JsonInsertView {
    Text(Seq<char>),
    Fields(Seq<(Seq<char>, Option<Seq<char>>)>),
}

/// The abstract content of a [`JsonInsert`].
pub open spec fn insert_view(v: JsonInsert) -> JsonInsertView {
    match v {
        JsonInsert::Text(t) => JsonInsertView::Text(t@),
        JsonInsert::Fields(f) => JsonInsertView::Fields(
            f@.map_values(|p: (String, Option<String>)| (p.0@, opt_view(p.1))),
        ),
    }
}

/// Parses a body with `serde_json::from_slice` into a
/// `serde_json::Map<String, Value>` (which succeeds only for a JSON
/// object) and writes it again with `serde_json::to_vec`. What comes out is
/// a function of the body.
#[verifier::external_body]
fn json_object_bytes(body: &[u8]) -> (r: Option<Vec<u8>>)
    ensures
        match r {
            Some(b) => json_object_of(body@) == Some(b@),
            None => json_object_of(body@) is None,
        },
{
    let map = serde_json::from_slice::<serde_json::Map<String, serde_json::Value>>(body).ok()?;
    serde_json::to_vec(&map).ok()
}

/// Parses `object` with `serde_json::from_slice` into a
/// `serde_json::Map<String, Value>` and reads `key` with `Map::get`,
/// telling a string from any other value. What comes out is a function of
/// the two arguments.
#[verifier::external_body]
fn json_field(object: &[u8], key: &str) -> (r: JsonField)
    ensures
        field_view(r) == json_field_of(object@, key@),
{
    match serde_json::from_slice::<serde_json::Map<String, serde_json::Value>>(object) {
        Err(_) => JsonField::Absent,
        Ok(map) => match map.get(key) {
            None => JsonField::Absent,
            Some(serde_json::Value::String(t)) => JsonField::Text(t.clone()),
            Some(_) => JsonField::NotText,
        },
    }
}

/// Parses `object` with `serde_json::from_slice` into a
/// `serde_json::Map<String, Value>`, puts `value` under `key` with
/// `Map::insert` and writes the map again with `serde_json::to_vec`. What
/// comes out is a function of the arguments.
#[verifier::external_body]
fn json_insert(object: &[u8], key: &str, value: JsonInsert) -> (r: Option<Vec<u8>>)
    ensures
        match r {
            Some(b) => json_with_field(object@, key@, insert_view(value)) == Some(b@),
            None => json_with_field(object@, key@, insert_view(value)) is None,
        },
{
    let mut map = serde_json::from_slice::<serde_json::Map<String, serde_json::Value>>(object).ok()?;
    let value = match value {
        JsonInsert::Text(t) => serde_json::Value::String(t),
        JsonInsert::Fields(f) => serde_json::Value::Object(
            f.into_iter().map(|(k, v)| (k, v.map_or(serde_json::Value::Null, serde_json::Value::String))).collect(),
        ),
    };
    map.insert(key.to_owned(), value);
    serde_json::to_vec(&map).ok()
}

/// Reads bytes as text with `String::from_utf8_lossy` (invalid sequences
/// become U+FFFD); what comes out is a function of the bytes.
#[verifier::external_body]
fn utf8_lossy(bytes: &[u8]) -> (r: String)
    ensures
        r@ == utf8_lossy_of(bytes@),
{
    String::from_utf8_lossy(bytes).into_owned()
}

/// The text `{}`.
pub open spec fn empty_object() -> Seq<u8> {
    seq![123u8, 125u8]
}

/// `object` with `value` under `key`, or `object` as it was when it cannot
/// be read as a JSON object.
pub open spec fn insert_or_keep(object: Seq<u8>, key: Seq<char>, value: JsonInsertView) -> Seq<u8> {
    match json_with_field(object, key, value) {
        Some(b) => b,
        None => object,
    }
}

/// The legacy field an error answer of this status carries.
pub open spec fn legacy_field_spec(status: u16) -> Seq<char> {
    if status == 429 || is_server_error(status) {
        "reason"@
    } else {
        "message"@
    }
}

/// The `error` object added to a body.
pub open spec fn error_object_spec(status: u16, message: Seq<char>) -> JsonInsertView {
    JsonInsertView::Fields(
        seq![
            ("message"@, Some(message)),
            ("type"@, Some(openai_error_type_spec(status))),
            ("param"@, None),
            ("code"@, None),
        ],
    )
}

/// The body an error answer is given: `None` when the answer is not
/// rewritten; else the body's JSON object (or `{}` when it has none) as it
/// is when it has an `error` field, and otherwise with the legacy field
/// (when it has neither `message` nor `reason`) and the `error` object
/// added.
pub open spec fn rewrite_spec(status: u16, content_type: Option<Seq<char>>, original: Seq<u8>) -> Option<Seq<u8>> {
    if !rewrites_spec(status, content_type) {
        None
    } else {
        let base = match json_object_of(original) {
            Some(b) => b,
            None => empty_object(),
        };
        if json_field_of(base, "error"@) is Some {
            Some(base)
        } else {
            let message = json_field_of(base, "message"@);
            let reason = json_field_of(base, "reason"@);
            let text = patch_message(status, message, reason, utf8_lossy_of(original));
            let with_legacy = if message is None && reason is None {
                insert_or_keep(base, legacy_field_spec(status), JsonInsertView::Text(text))
            } else {
                base
            };
            Some(insert_or_keep(with_legacy, "error"@, error_object_spec(status, text)))
        }
    }
}

/// Puts `value` under `key`, keeping `object` when it cannot be read.
fn insert_or_keep_exec(object: Vec<u8>, key: &str, value: JsonInsert) -> (r: Vec<u8>)
    ensures
        r@ == insert_or_keep(object@, key@, insert_view(value)),
{
    match json_insert(object.as_slice(), key, value) {
        Some(b) => b,
        None => object,
    }
}

/// Makes an error answer's body OpenAI-shaped. `None` when the answer is
/// not rewritten (see [`should_rewrite`]); else the body's JSON object (or
/// `{}`), unchanged when it has an `error` field, otherwise with the legacy
/// field and the `error` object that [`add_openai_error`] works out.
pub fn rewrite_error_body(status: u16, content_type: Option<&str>, original: &[u8]) -> (r: Option<Vec<u8>>)
    ensures
        match r {
            None => rewrite_spec(
                status,
                match content_type {
                    Some(t) => Some(t@),
                    None => None,
                },
                original@,
            ) is None,
            Some(b) => rewrite_spec(
                status,
                match content_type {
                    Some(t) => Some(t@),
                    None => None,
                },
                original@,
            ) == Some(b@),
        },
{
    if !should_rewrite(status, content_type) {
        return None;
    }
    let base = match json_object_bytes(original) {
        Some(b) => b,
        None => {
            let mut v: Vec<u8> = Vec::new();
            v.push(123u8);
            v.push(125u8);
            proof {
                assert(v@ =~= empty_object());
            }
            v
        },
    };
    match json_field(base.as_slice(), "error") {
        JsonField::Absent => {},
        _ => return Some(base),
    }
    let message = json_field(base.as_slice(), "message");
    let reason = json_field(base.as_slice(), "reason");
    let text = utf8_lossy(original);
    let patch = add_openai_error(status, message, reason, text.as_str());
    let with_legacy = match patch.legacy_field {
        Some(k) => insert_or_keep_exec(base, k, JsonInsert::Text(patch.message.clone())),
        None => base,
    };
    let mut fields: Vec<(String, Option<String>)> = Vec::new();
    fields.push((owned("message"), Some(patch.message)));
    fields.push((owned("type"), Some(owned(patch.error_type))));
    fields.push((owned("param"), None));
    fields.push((owned("code"), None));
    let ghost error_view = insert_view(JsonInsert::Fields(fields));
    proof {
        assert(error_view == error_object_spec(status, patch.message@)) by {
            assert(fields@.map_values(|p: (String, Option<String>)| (p.0@, opt_view(p.1))) =~= seq![
                ("message"@, Some(patch.message@)),
                ("type"@, Some(openai_error_type_spec(status))),
                ("param"@, None::<Seq<char>>),
                ("code"@, None::<Seq<char>>),
            ]);
        }
    }
    Some(insert_or_keep_exec(with_legacy, "error", JsonInsert::Fields(fields)))
}

} // verus!
