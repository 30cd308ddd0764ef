//! The wire form of records: JSON objects whose members are written in a fixed
//! order, with every text value escaped by `serde_json`.

use vstd::prelude::*;
use vstd::string::*;
use crate::text::opt_text;

verus! {

/// The JSON string literal, quotes and escapes included, that `serde_json`
/// writes for a text, or `None` where it refuses the text.
pub uninterp spec fn json_quoted(text: Seq<char>) -> Option<Seq<char>>;

/// Calls `serde_json::to_string` on a text. The result is the JSON string
/// literal for it; a failure of the serializer becomes `None`. Nothing is
/// claimed about the literal beyond its being a function of the text.
#[verifier::external_body]
pub(crate) fn quote(text: &str) -> (r: Option<String>)
    ensures
        opt_text(r) == json_quoted(text@),
{
    serde_json::to_string(text).ok()
}

/// The JSON form of an optional text: its literal, or `null`.
pub open spec fn json_quoted_opt(text: Option<Seq<char>>) -> Option<Seq<char>> {
    match text {
        Some(t) => json_quoted(t),
        None => Some("null"@),
    }
}

/// The JSON form of a flag.
pub open spec fn json_bool(b: bool) -> Seq<char> {
    if b {
        "true"@
    } else {
        "false"@
    }
}

/// The text so far, a member name written as `"name":`, and the member's
/// value after it; `None` as soon as a value has no JSON form.
pub open spec fn with_member(
    so_far: Option<Seq<char>>,
    label: Seq<char>,
    value: Option<Seq<char>>,
) -> Option<Seq<char>> {
    match (so_far, value) {
        (Some(a), Some(v)) => Some(a + label + v),
        _ => None,
    }
}

/// Appends a member whose value is a text.
pub fn push_text_member(so_far: Option<String>, label: &str, value: &str) -> (r: Option<String>)
    ensures
        opt_text(r) == with_member(opt_text(so_far), label@, json_quoted(value@)),
{
    match so_far {
        Some(a) => {
            match quote(value) {
                Some(v) => Some(a.concat(label).concat(v.as_str())),
                None => None,
            }
        },
        None => None,
    }
}

/// Appends a member whose value is a text or `null`.
pub fn push_opt_member(so_far: Option<String>, label: &str, value: &Option<String>) -> (r: Option<
    String,
>)
    ensures
        opt_text(r) == with_member(opt_text(so_far), label@, json_quoted_opt(opt_text(*value))),
{
    match value {
        Some(v) => push_text_member(so_far, label, v.as_str()),
        None => {
            match so_far {
                Some(a) => Some(a.concat(label).concat("null")),
                None => None,
            }
        },
    }
}

/// Appends a member whose value is a flag.
pub fn push_bool_member(so_far: Option<String>, label: &str, value: bool) -> (r: Option<String>)
    ensures
        opt_text(r) == with_member(opt_text(so_far), label@, Some(json_bool(value))),
{
    match so_far {
        Some(a) => {
            if value {
                Some(a.concat(label).concat("true"))
            } else {
                Some(a.concat(label).concat("false"))
            }
        },
        None => None,
    }
}

/// Closes the object.
pub open spec fn closed(so_far: Option<Seq<char>>) -> Option<Seq<char>> {
    match so_far {
        Some(a) => Some(a + "}"@),
        None => None,
    }
}

/// Closes the object.
pub fn close_object(so_far: Option<String>) -> (r: Option<String>)
    ensures
        opt_text(r) == closed(opt_text(so_far)),
{
    match so_far {
        Some(a) => Some(a.concat("}")),
        None => None,
    }
}

} // verus!
