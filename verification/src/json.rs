//! A JSON document as tool-argument binding reads it: the top-level object's
//! members (or array's elements), each value reduced to what binding needs.

use vstd::prelude::*;
use serde_json::Value;

verus! {

/// One JSON value as binding sees it. Numbers keep the text serde_json
/// displays for them (digits, with a leading `-` for negatives, for integers;
/// a `.` or an exponent for floats); nested arrays and objects keep only
/// their kind.
pub enum JsonScalar {
    Null,
    Bool(bool),
    Number(String),
    Str(String),
    Array,
    Object,
}

/// Model of a [`JsonScalar`].
pub enum JsonScalarView {
    Null,
    Bool(bool),
    Number(Seq<char>),
    Str(Seq<char>),
    Array,
    Object,
}

impl DeepView for JsonScalar {
    type V = JsonScalarView;

    open spec fn deep_view(&self) -> JsonScalarView {
        match self {
            JsonScalar::Null => JsonScalarView::Null,
            JsonScalar::Bool(b) => JsonScalarView::Bool(*b),
            JsonScalar::Number(t) => JsonScalarView::Number(t@),
            JsonScalar::Str(s) => JsonScalarView::Str(s@),
            JsonScalar::Array => JsonScalarView::Array,
            JsonScalar::Object => JsonScalarView::Object,
        }
    }
}

/// A parsed JSON document: an object's members in order, an array's
/// elements, or any other value.
pub enum JsonDoc {
    Object(Vec<(String, JsonScalar)>),
    Array(Vec<JsonScalar>),
    Other,
}

/// Model of a [`JsonDoc`].
pub enum JsonDocView {
    Object(Seq<(Seq<char>, JsonScalarView)>),
    Array(Seq<JsonScalarView>),
    Other,
}

impl DeepView for JsonDoc {
    type V = JsonDocView;

    open spec fn deep_view(&self) -> JsonDocView {
        match self {
            JsonDoc::Object(m) => JsonDocView::Object(m.deep_view()),
            JsonDoc::Array(a) => JsonDocView::Array(a.deep_view()),
            JsonDoc::Other => JsonDocView::Other,
        }
    }
}

/// Model of a parse outcome: the document, or the parser's message.
pub open spec fn parsed_view(r: Result<JsonDoc, String>) -> Result<JsonDocView, Seq<char>> {
    match r {
        Ok(d) => Ok(d.deep_view()),
        Err(e) => Err(e@),
    }
}

/// What serde_json makes of a text: the document it parses, or the message
/// of its syntax error.
pub uninterp spec fn json_document(text: Seq<char>) -> Result<JsonDocView, Seq<char>>;

/// Parses `text` with `serde_json::from_str::<serde_json::Value>` and reduces
/// the value to a [`JsonDoc`]; a syntax error gives the error's message. The
/// contract claims only that the outcome is a function of the text, named
/// [`json_document`]. serde_json keeps one member per key (the last one
/// written) when a key repeats.
#[verifier::external_body]
pub(crate) fn parse_json(text: &str) -> (r: Result<JsonDoc, String>)
    ensures
        parsed_view(r) == json_document(text@),
{
    let s = |v| match v {
        Value::Null => JsonScalar::Null, Value::Bool(b) => JsonScalar::Bool(b),
        Value::Number(n) => JsonScalar::Number(n.to_string()),
        Value::String(t) => JsonScalar::Str(t),
        Value::Array(_) => JsonScalar::Array,
        Value::Object(_) => JsonScalar::Object,
    };
    match serde_json::from_str(text) {
        Ok(v) => Ok(match v {
            Value::Object(m) => JsonDoc::Object(m.into_iter().map(|(k, v)| (k, s(v))).collect()),
            Value::Array(a) => JsonDoc::Array(a.into_iter().map(s).collect()),
            _ => JsonDoc::Other,
        }),
        Err(e) => Err(e.to_string()),
    }
}

} // verus!
