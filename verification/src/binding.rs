//! Binding a model's raw tool call (a tool name and a JSON argument text) to a
//! [`ToolType`], and the argument map a bound call is shown with again.
//!
//! Arguments bind the way serde's derived `Deserialize` reads a struct: from
//! an object by key (unknown keys ignored) or from an array by position.
//! Numeric arguments are lenient: a JSON integer or a string holding one,
//! surrounding whitespace allowed.

use vstd::prelude::*;
use crate::chat_format::{ArgValue, ArgValueView};
use crate::conversation::{ToolKind, ToolType, ToolTypeView};
use crate::json::{json_document, parse_json, parsed_view, JsonDoc, JsonDocView, JsonScalar, JsonScalarView};
use crate::numeric::{
    int_error_message, law_parse_signed_decimal, law_parse_unsigned_decimal, parse_i64, parse_signed64, parse_unsigned,
    parse_usize,
};
use crate::text::{chars_of, concat2, decimal, owned, signed_decimal, push_str, str_eq, string_of, trim, trim_bounds, trim_str, usize_to_string};
use crate::tools::{all_kinds, kinds, wire_name_of};

verus! {

// ---------------------------------------------------------------------------
// Reading fields

/// The value of the first member named `key`.
pub open spec fn member_of(members: Seq<(Seq<char>, JsonScalarView)>, key: Seq<char>) -> Option<JsonScalarView>
    decreases members.len(),
{
    if members.len() == 0 {
        None
    } else if members[0].0 == key {
        Some(members[0].1)
    } else {
        member_of(members.drop_first(), key)
    }
}

/// A struct field as serde reads it: by key from an object, by position from
/// an array.
pub open spec fn field_of(doc: JsonDocView, key: Seq<char>, pos: nat) -> Option<JsonScalarView> {
    match doc {
        JsonDocView::Object(m) => member_of(m, key),
        JsonDocView::Array(a) => if pos < a.len() { Some(a[pos as int]) } else { None },
        JsonDocView::Other => None,
    }
}

/// What is said when a required field is absent: its key for an object, the
/// short length for an array.
pub open spec fn missing_message(doc: JsonDocView, key: Seq<char>, pos: nat, sname: Seq<char>, n: nat) -> Seq<char> {
    match doc {
        JsonDocView::Array(_) => "invalid length "@ + decimal(pos) + ", expected struct "@ + sname + " with "@
            + decimal(n) + (if n == 1 { " element"@ } else { " elements"@ }),
        _ => "missing field `"@ + key + "`"@,
    }
}

/// The kind of a JSON value, as named in type errors.
pub open spec fn kind_word(v: JsonScalarView) -> Seq<char> {
    match v {
        JsonScalarView::Null => "null"@,
        JsonScalarView::Bool(_) => "boolean"@,
        JsonScalarView::Number(_) => "number"@,
        JsonScalarView::Str(_) => "string"@,
        JsonScalarView::Array => "sequence"@,
        JsonScalarView::Object => "map"@,
    }
}

/// The message for a value that is neither a number nor a string where a
/// lenient number is read.
pub open spec fn no_variant_message() -> Seq<char> {
    "data did not match any variant of untagged enum NumOrStr"@
}

/// A required string field.
pub open spec fn decode_string(v: Option<JsonScalarView>, missing: Seq<char>) -> Result<Seq<char>, Seq<char>> {
    match v {
        None => Err(missing),
        Some(JsonScalarView::Str(s)) => Ok(s),
        Some(o) => Err("invalid type: "@ + kind_word(o) + ", expected a string"@),
    }
}

/// An optional string field: absent and `null` both read as `None`.
pub open spec fn decode_opt_string(v: Option<JsonScalarView>) -> Result<Option<Seq<char>>, Seq<char>> {
    match v {
        None => Ok(None),
        Some(JsonScalarView::Null) => Ok(None),
        Some(JsonScalarView::Str(s)) => Ok(Some(s)),
        Some(o) => Err("invalid type: "@ + kind_word(o) + ", expected a string"@),
    }
}

/// An optional lenient count: absent, `null` and a blank string read as
/// `None`; a number or a string holding a `usize` reads as that value.
pub open spec fn decode_opt_count(v: Option<JsonScalarView>) -> Result<Option<usize>, Seq<char>> {
    match v {
        None => Ok(None),
        Some(JsonScalarView::Null) => Ok(None),
        Some(JsonScalarView::Number(t)) => match parse_unsigned(t, usize::MAX as nat) {
            Ok(n) => Ok(Some(n as usize)),
            Err(_) => Err(no_variant_message()),
        },
        Some(JsonScalarView::Str(s)) => if trim(s).len() == 0 {
            Ok(None)
        } else {
            match parse_unsigned(trim(s), usize::MAX as nat) {
                Ok(n) => Ok(Some(n as usize)),
                Err(k) => Err(int_error_message(k)),
            }
        },
        Some(_) => Err(no_variant_message()),
    }
}

/// A required lenient `i64`: a number or a string holding one.
pub open spec fn decode_i64(v: Option<JsonScalarView>, missing: Seq<char>) -> Result<i64, Seq<char>> {
    match v {
        None => Err(missing),
        Some(JsonScalarView::Number(t)) => match parse_signed64(t) {
            Ok(n) => Ok(n as i64),
            Err(_) => Err(no_variant_message()),
        },
        Some(JsonScalarView::Str(s)) => match parse_signed64(trim(s)) {
            Ok(n) => Ok(n as i64),
            Err(k) => Err(int_error_message(k)),
        },
        Some(_) => Err(no_variant_message()),
    }
}

// ---------------------------------------------------------------------------
// Argument structs

/// The name of the struct a tool's arguments bind to.
pub open spec fn struct_name(k: ToolKind) -> Seq<char> {
    match k {
        ToolKind::WebSearch => "WebSearchArgs"@,
        ToolKind::VisitUrl => "VisitUrlArgs"@,
        ToolKind::RunBashCommand => "RunBashArgs"@,
        ToolKind::ViewImage => "PathArgs"@,
        ToolKind::ReadFile => "ReadFileArgs"@,
        ToolKind::EditFile => "EditFileArgs"@,
        ToolKind::SetReminder => "SetReminderArgs"@,
        _ => "UseSkillArgs"@,
    }
}

/// How many fields that struct has.
pub open spec fn field_count(k: ToolKind) -> nat {
    match k {
        ToolKind::ReadFile | ToolKind::EditFile | ToolKind::SetReminder => 3,
        _ => 1,
    }
}

/// A required string field of the arguments of `k`.
pub open spec fn string_field(k: ToolKind, doc: JsonDocView, key: Seq<char>, pos: nat) -> Result<Seq<char>, Seq<char>> {
    decode_string(field_of(doc, key, pos), missing_message(doc, key, pos, struct_name(k), field_count(k)))
}

/// The fields of `k`'s arguments, read from `doc`, before the document's shape is looked at.
pub open spec fn read_fields(k: ToolKind, doc: JsonDocView) -> Result<ToolTypeView, Seq<char>> {
    match k {
        ToolKind::WebSearch => match string_field(k, doc, "query"@, 0) {
            Ok(query) => Ok(ToolTypeView::WebSearch { query }),
            Err(e) => Err(e),
        },
        ToolKind::VisitUrl => match string_field(k, doc, "url"@, 0) {
            Ok(url) => Ok(ToolTypeView::VisitUrl { url }),
            Err(e) => Err(e),
        },
        ToolKind::RunBashCommand => match string_field(k, doc, "command"@, 0) {
            Ok(command) => Ok(ToolTypeView::RunBashCommand { command }),
            Err(e) => Err(e),
        },
        ToolKind::ViewImage => match string_field(k, doc, "path"@, 0) {
            Ok(path) => Ok(ToolTypeView::ViewImage { path }),
            Err(e) => Err(e),
        },
        ToolKind::ReadFile => match string_field(k, doc, "path"@, 0) {
            Err(e) => Err(e),
            Ok(path) => match decode_opt_count(field_of(doc, "offset"@, 1)) {
                Err(e) => Err(e),
                Ok(offset) => match decode_opt_count(field_of(doc, "limit"@, 2)) {
                    Err(e) => Err(e),
                    Ok(limit) => Ok(ToolTypeView::ReadFile { path, offset, limit }),
                },
            },
        },
        ToolKind::EditFile => match string_field(k, doc, "path"@, 0) {
            Err(e) => Err(e),
            Ok(path) => match string_field(k, doc, "old_string"@, 1) {
                Err(e) => Err(e),
                Ok(old_string) => match string_field(k, doc, "new_string"@, 2) {
                    Err(e) => Err(e),
                    Ok(new_string) => Ok(ToolTypeView::EditFile { path, old_string, new_string }),
                },
            },
        },
        _ => match decode_i64(
            field_of(doc, "delay_seconds"@, 0),
            missing_message(doc, "delay_seconds"@, 0, struct_name(k), 3),
        ) {
            Err(e) => Err(e),
            Ok(delay_seconds) => match string_field(k, doc, "note"@, 1) {
                Err(e) => Err(e),
                Ok(note) => match string_field(k, doc, "addressee"@, 2) {
                    Err(e) => Err(e),
                    Ok(addressee) => Ok(ToolTypeView::SetReminder { delay_seconds, note, addressee }),
                },
            },
        },
    }
}

/// Whether an array holds more elements than the struct has fields.
pub open spec fn overlong(doc: JsonDocView, n: nat) -> bool {
    match doc {
        JsonDocView::Array(a) => a.len() > n,
        _ => false,
    }
}

/// `k`'s arguments bound from a parsed document: it must be an object or an
/// array, every field must read, and an array may not run past the fields.
pub open spec fn bound_args(k: ToolKind, doc: JsonDocView) -> Result<ToolTypeView, Seq<char>> {
    if doc is Other {
        Err("invalid type, expected struct "@ + struct_name(k))
    } else {
        match read_fields(k, doc) {
            Err(e) => Err(e),
            Ok(t) => if overlong(doc, field_count(k)) { Err("trailing characters"@) } else { Ok(t) },
        }
    }
}

// ---------------------------------------------------------------------------
// Skill names

/// The quote characters a skill name may be wrapped in.
pub open spec fn is_quote(c: char) -> bool {
    c == '"' || c == '\'' || c == '`'
}

/// `s` with leading quote characters removed.
pub open spec fn trim_start_quotes(s: Seq<char>) -> Seq<char>
    decreases s.len(),
{
    if s.len() > 0 && is_quote(s[0]) { trim_start_quotes(s.drop_first()) } else { s }
}

/// `s` with trailing quote characters removed.
pub open spec fn trim_end_quotes(s: Seq<char>) -> Seq<char>
    decreases s.len(),
{
    if s.len() > 0 && is_quote(s.last()) { trim_end_quotes(s.drop_last()) } else { s }
}

/// `s` without one trailing `.md`.
pub open spec fn strip_md(s: Seq<char>) -> Seq<char> {
    if s.len() >= 3 && s.subrange(s.len() - 3, s.len() as int) == ".md"@ {
        s.subrange(0, s.len() - 3)
    } else {
        s
    }
}

/// A skill name as the model may write it, reduced to the bare name:
/// whitespace, then quotes, then whitespace trimmed, one `.md` suffix dropped,
/// whitespace trimmed again; `None` when nothing is left.
pub open spec fn normalize_skill(raw: Seq<char>) -> Option<Seq<char>> {
    let base = trim(strip_md(trim(trim_end_quotes(trim_start_quotes(trim(raw))))));
    if base.len() == 0 { None } else { Some(base) }
}

/// The `skill` field of use_skill's arguments.
pub open spec fn skill_field(doc: JsonDocView) -> Result<Option<Seq<char>>, Seq<char>> {
    if doc is Other {
        Err("invalid type, expected struct UseSkillArgs"@)
    } else {
        match decode_opt_string(field_of(doc, "skill"@, 0)) {
            Err(e) => Err(e),
            Ok(s) => if overlong(doc, 1) { Err("trailing characters"@) } else { Ok(s) },
        }
    }
}

/// The skill a use_skill call asks for: `None` (list the skills) for blank
/// arguments, an absent or empty name; the arguments themselves, normalized,
/// when they are not a JSON argument object at all.
pub open spec fn requested_skill(arguments: Seq<char>, parsed: Result<JsonDocView, Seq<char>>) -> Option<Seq<char>> {
    if trim(arguments).len() == 0 {
        None
    } else {
        match parsed {
            Ok(doc) => match skill_field(doc) {
                Ok(Some(s)) => normalize_skill(s),
                Ok(None) => None,
                Err(_) => normalize_skill(trim(arguments)),
            },
            Err(_) => normalize_skill(trim(arguments)),
        }
    }
}

// ---------------------------------------------------------------------------
// Binding

/// The first kind in `ks` whose wire name is `name`.
pub open spec fn find_kind(ks: Seq<ToolKind>, name: Seq<char>) -> Option<ToolKind>
    decreases ks.len(),
{
    if ks.len() == 0 {
        None
    } else if wire_name_of(ks[0]) == name {
        Some(ks[0])
    } else {
        find_kind(ks.drop_first(), name)
    }
}

/// The tool a wire name calls.
pub open spec fn kind_named(name: Seq<char>) -> Option<ToolKind> {
    find_kind(all_kinds(), name)
}

/// The report bound into a direct call of the internal malformed-call tool.
pub open spec fn internal_tool_report() -> Seq<char> {
    "meta_malformed_tool_call is internal and cannot be called directly."@
}

/// The error for arguments that do not bind.
pub open spec fn bind_failure(name: Seq<char>, arguments: Seq<char>, e: Seq<char>) -> Seq<char> {
    name + " arguments failed to bind: "@ + e + " — raw: "@ + arguments
}

/// The text handed to the JSON parser for a call: use_skill's arguments are
/// trimmed first.
pub open spec fn parse_input(name: Seq<char>, arguments: Seq<char>) -> Seq<char> {
    if name == "use_skill"@ { trim(arguments) } else { arguments }
}

/// A call bound, given what the JSON parser made of its [`parse_input`].
pub open spec fn bind_view(name: Seq<char>, arguments: Seq<char>, parsed: Result<JsonDocView, Seq<char>>) -> Result<ToolTypeView, Seq<char>> {
    match kind_named(name) {
        None => Err("model called an unknown tool: "@ + name),
        Some(ToolKind::ResetBashContainer) => Ok(ToolTypeView::ResetBashContainer),
        Some(ToolKind::MetaNoOpExtraTurn) => Ok(ToolTypeView::MetaNoOpExtraTurn),
        Some(ToolKind::MetaMalformed) => Ok(ToolTypeView::MetaMalformed { report: internal_tool_report() }),
        Some(ToolKind::UseSkill) => Ok(ToolTypeView::UseSkill { skill: requested_skill(arguments, parsed) }),
        Some(k) => match parsed {
            Err(e) => Err(bind_failure(name, arguments, e)),
            Ok(doc) => match bound_args(k, doc) {
                Ok(t) => Ok(t),
                Err(e) => Err(bind_failure(name, arguments, e)),
            },
        },
    }
}

/// Model of a binding outcome.
pub open spec fn binding_view(r: Result<ToolType, String>) -> Result<ToolTypeView, Seq<char>> {
    match r {
        Ok(t) => Ok(t.deep_view()),
        Err(e) => Err(e@),
    }
}

// ---------------------------------------------------------------------------
// Executable binding

fn member<'a>(members: &'a Vec<(String, JsonScalar)>, key: &str) -> (r: Option<&'a JsonScalar>)
    ensures
        match member_of(members.deep_view(), key@) {
            None => r is None,
            Some(v) => r matches Some(x) && x.deep_view() == v,
        },
{
    let mut i: usize = 0;
    assert(members.deep_view().skip(0) =~= members.deep_view());
    while i < members.len()
        invariant
            i <= members.len(),
            member_of(members.deep_view(), key@) == member_of(members.deep_view().skip(i as int), key@),
        decreases members.len() - i,
    {
        assert(members.deep_view().skip(i as int)[0] == members@[i as int].deep_view());
        if str_eq(members[i].0.as_str(), key) {
            return Some(&members[i].1);
        }
        assert(members.deep_view().skip(i as int).drop_first() =~= members.deep_view().skip(i + 1));
        i += 1;
    }
    None
}

fn field<'a>(doc: &'a JsonDoc, key: &str, pos: usize) -> (r: Option<&'a JsonScalar>)
    ensures
        match field_of(doc.deep_view(), key@, pos as nat) {
            None => r is None,
            Some(v) => r matches Some(x) && x.deep_view() == v,
        },
{
    match doc {
        JsonDoc::Object(m) => member(m, key),
        JsonDoc::Array(a) => if pos < a.len() { Some(&a[pos]) } else { None },
        JsonDoc::Other => None,
    }
}

fn missing(doc: &JsonDoc, key: &str, pos: usize, sname: &str, n: usize) -> (r: String)
    ensures
        r@ == missing_message(doc.deep_view(), key@, pos as nat, sname@, n as nat),
{
    match doc {
        JsonDoc::Array(_) => {
            let mut r = owned("invalid length ");
            push_str(&mut r, usize_to_string(pos).as_str());
            push_str(&mut r, ", expected struct ");
            push_str(&mut r, sname);
            push_str(&mut r, " with ");
            push_str(&mut r, usize_to_string(n).as_str());
            push_str(&mut r, if n == 1 { " element" } else { " elements" });
            r
        },
        _ => {
            let mut r = owned("missing field `");
            push_str(&mut r, key);
            push_str(&mut r, "`");
            r
        },
    }
}

fn kind_word_of(v: &JsonScalar) -> (r: &'static str)
    ensures
        r@ == kind_word(v.deep_view()),
{
    match v {
        JsonScalar::Null => "null",
        JsonScalar::Bool(_) => "boolean",
        JsonScalar::Number(_) => "number",
        JsonScalar::Str(_) => "string",
        JsonScalar::Array => "sequence",
        JsonScalar::Object => "map",
    }
}

fn not_a_string(v: &JsonScalar) -> (r: String)
    ensures
        r@ == "invalid type: "@ + kind_word(v.deep_view()) + ", expected a string"@,
{
    let mut r = owned("invalid type: ");
    push_str(&mut r, kind_word_of(v));
    push_str(&mut r, ", expected a string");
    r
}

fn read_string(v: Option<&JsonScalar>, missing: String) -> (r: Result<String, String>)
    ensures
        match decode_string(
            match v { Some(x) => Some(x.deep_view()), None => None },
            missing@,
        ) {
            Ok(s) => r matches Ok(t) && t@ == s,
            Err(e) => r matches Err(t) && t@ == e,
        },
{
    match v {
        None => Err(missing),
        Some(JsonScalar::Str(s)) => Ok(s.clone()),
        Some(o) => Err(not_a_string(o)),
    }
}

fn read_opt_string(v: Option<&JsonScalar>) -> (r: Result<Option<String>, String>)
    ensures
        match decode_opt_string(match v { Some(x) => Some(x.deep_view()), None => None }) {
            Ok(s) => r matches Ok(t) && t.deep_view() == s,
            Err(e) => r matches Err(t) && t@ == e,
        },
{
    match v {
        None => Ok(None),
        Some(JsonScalar::Null) => Ok(None),
        Some(JsonScalar::Str(s)) => Ok(Some(s.clone())),
        Some(o) => Err(not_a_string(o)),
    }
}

fn read_opt_count(v: Option<&JsonScalar>) -> (r: Result<Option<usize>, String>)
    ensures
        match decode_opt_count(match v { Some(x) => Some(x.deep_view()), None => None }) {
            Ok(n) => r == Ok::<Option<usize>, String>(n),
            Err(e) => r matches Err(t) && t@ == e,
        },
{
    match v {
        None => Ok(None),
        Some(JsonScalar::Null) => Ok(None),
        Some(JsonScalar::Number(t)) => match parse_usize(t.as_str()) {
            Ok(n) => Ok(Some(n)),
            Err(_) => Err(owned("data did not match any variant of untagged enum NumOrStr")),
        },
        Some(JsonScalar::Str(s)) => {
            let t = trim_str(s.as_str());
            if t.as_str().is_empty() {
                Ok(None)
            } else {
                match parse_usize(t.as_str()) {
                    Ok(n) => Ok(Some(n)),
                    Err(k) => Err(owned(k.message())),
                }
            }
        },
        Some(_) => Err(owned("data did not match any variant of untagged enum NumOrStr")),
    }
}

fn read_i64(v: Option<&JsonScalar>, missing: String) -> (r: Result<i64, String>)
    ensures
        match decode_i64(match v { Some(x) => Some(x.deep_view()), None => None }, missing@) {
            Ok(n) => r == Ok::<i64, String>(n),
            Err(e) => r matches Err(t) && t@ == e,
        },
{
    match v {
        None => Err(missing),
        Some(JsonScalar::Number(t)) => match parse_i64(t.as_str()) {
            Ok(n) => Ok(n),
            Err(_) => Err(owned("data did not match any variant of untagged enum NumOrStr")),
        },
        Some(JsonScalar::Str(s)) => {
            let t = trim_str(s.as_str());
            match parse_i64(t.as_str()) {
                Ok(n) => Ok(n),
                Err(k) => Err(owned(k.message())),
            }
        },
        Some(_) => Err(owned("data did not match any variant of untagged enum NumOrStr")),
    }
}

fn struct_name_of(k: ToolKind) -> (r: &'static str)
    ensures
        r@ == struct_name(k),
{
    match k {
        ToolKind::WebSearch => "WebSearchArgs",
        ToolKind::VisitUrl => "VisitUrlArgs",
        ToolKind::RunBashCommand => "RunBashArgs",
        ToolKind::ViewImage => "PathArgs",
        ToolKind::ReadFile => "ReadFileArgs",
        ToolKind::EditFile => "EditFileArgs",
        ToolKind::SetReminder => "SetReminderArgs",
        _ => "UseSkillArgs",
    }
}

fn field_count_of(k: ToolKind) -> (r: usize)
    ensures
        r == field_count(k),
{
    match k {
        ToolKind::ReadFile | ToolKind::EditFile | ToolKind::SetReminder => 3,
        _ => 1,
    }
}

fn read_string_field(k: ToolKind, doc: &JsonDoc, key: &str, pos: usize) -> (r: Result<String, String>)
    ensures
        match string_field(k, doc.deep_view(), key@, pos as nat) {
            Ok(s) => r matches Ok(t) && t@ == s,
            Err(e) => r matches Err(t) && t@ == e,
        },
{
    let m = missing(doc, key, pos, struct_name_of(k), field_count_of(k));
    read_string(field(doc, key, pos), m)
}

fn fields(k: ToolKind, doc: &JsonDoc) -> (r: Result<ToolType, String>)
    requires
        !(doc.deep_view() is Other),
        matches!(k, ToolKind::WebSearch | ToolKind::VisitUrl | ToolKind::RunBashCommand | ToolKind::ViewImage
            | ToolKind::ReadFile | ToolKind::EditFile | ToolKind::SetReminder),
    ensures
        binding_view(r) == read_fields(k, doc.deep_view()),
{
    match k {
        ToolKind::WebSearch => match read_string_field(k, doc, "query", 0) {
            Ok(query) => Ok(ToolType::WebSearch { query }),
            Err(e) => Err(e),
        },
        ToolKind::VisitUrl => match read_string_field(k, doc, "url", 0) {
            Ok(url) => Ok(ToolType::VisitUrl { url }),
            Err(e) => Err(e),
        },
        ToolKind::RunBashCommand => match read_string_field(k, doc, "command", 0) {
            Ok(command) => Ok(ToolType::RunBashCommand { command }),
            Err(e) => Err(e),
        },
        ToolKind::ViewImage => match read_string_field(k, doc, "path", 0) {
            Ok(path) => Ok(ToolType::ViewImage { path }),
            Err(e) => Err(e),
        },
        ToolKind::ReadFile => {
            let path = match read_string_field(k, doc, "path", 0) {
                Ok(p) => p,
                Err(e) => return Err(e),
            };
            let offset = match read_opt_count(field(doc, "offset", 1)) {
                Ok(o) => o,
                Err(e) => return Err(e),
            };
            let limit = match read_opt_count(field(doc, "limit", 2)) {
                Ok(l) => l,
                Err(e) => return Err(e),
            };
            Ok(ToolType::ReadFile { path, offset, limit })
        },
        ToolKind::EditFile => {
            let path = match read_string_field(k, doc, "path", 0) {
                Ok(p) => p,
                Err(e) => return Err(e),
            };
            let old_string = match read_string_field(k, doc, "old_string", 1) {
                Ok(o) => o,
                Err(e) => return Err(e),
            };
            let new_string = match read_string_field(k, doc, "new_string", 2) {
                Ok(n) => n,
                Err(e) => return Err(e),
            };
            Ok(ToolType::EditFile { path, old_string, new_string })
        },
        _ => {
            let m = missing(doc, "delay_seconds", 0, struct_name_of(k), 3);
            let delay_seconds = match read_i64(field(doc, "delay_seconds", 0), m) {
                Ok(d) => d,
                Err(e) => return Err(e),
            };
            let note = match read_string_field(k, doc, "note", 1) {
                Ok(n) => n,
                Err(e) => return Err(e),
            };
            let addressee = match read_string_field(k, doc, "addressee", 2) {
                Ok(a) => a,
                Err(e) => return Err(e),
            };
            Ok(ToolType::SetReminder { delay_seconds, note, addressee })
        },
    }
}

fn is_overlong(doc: &JsonDoc, n: usize) -> (r: bool)
    ensures
        r == overlong(doc.deep_view(), n as nat),
{
    match doc {
        JsonDoc::Array(a) => a.len() > n,
        _ => false,
    }
}

fn bind_args(k: ToolKind, doc: &JsonDoc) -> (r: Result<ToolType, String>)
    requires
        matches!(k, ToolKind::WebSearch | ToolKind::VisitUrl | ToolKind::RunBashCommand | ToolKind::ViewImage
            | ToolKind::ReadFile | ToolKind::EditFile | ToolKind::SetReminder),
    ensures
        binding_view(r) == bound_args(k, doc.deep_view()),
{
    if matches!(doc, JsonDoc::Other) {
        return Err(concat2("invalid type, expected struct ", struct_name_of(k)));
    }
    match fields(k, doc) {
        Err(e) => Err(e),
        Ok(t) => if is_overlong(doc, field_count_of(k)) { Err(owned("trailing characters")) } else { Ok(t) },
    }
}

fn quote(c: char) -> (b: bool)
    ensures
        b == is_quote(c),
{
    c == '"' || c == '\'' || c == '`'
}

/// Bounds of `trim_end_quotes(trim_start_quotes(v[from..to]))` inside `v`.
fn quote_bounds(v: &Vec<char>, from: usize, to: usize) -> (r: (usize, usize))
    requires
        from <= to <= v@.len(),
    ensures
        from <= r.0 <= r.1 <= to,
        trim_end_quotes(trim_start_quotes(v@.subrange(from as int, to as int))) == v@.subrange(r.0 as int, r.1 as int),
{
    let mut i = from;
    while i < to && quote(v[i])
        invariant
            from <= i <= to <= v@.len(),
            trim_start_quotes(v@.subrange(from as int, to as int)) == trim_start_quotes(v@.subrange(i as int, to as int)),
        decreases to - i,
    {
        assert(v@.subrange(i as int, to as int).drop_first() =~= v@.subrange(i + 1, to as int));
        i += 1;
    }
    let mut j = to;
    while j > i && quote(v[j - 1])
        invariant
            from <= i <= j <= to <= v@.len(),
            trim_end_quotes(v@.subrange(i as int, to as int)) == trim_end_quotes(v@.subrange(i as int, j as int)),
        decreases j - i,
    {
        assert(v@.subrange(i as int, j as int).drop_last() =~= v@.subrange(i as int, j - 1));
        j -= 1;
    }
    (i, j)
}

/// A skill name as written reduced to the bare name (see [`normalize_skill`]).
fn normalize_skill_name(raw: &str) -> (r: Option<String>)
    ensures
        r.deep_view() == normalize_skill(raw@),
{
    let v = chars_of(raw);
    assert(v@.subrange(0, v@.len() as int) =~= raw@);
    let (a, b) = trim_bounds(&v, 0, v.len());
    let (c, d) = quote_bounds(&v, a, b);
    assert(v@.subrange(a as int, b as int).subrange(0, (b - a) as int) =~= v@.subrange(a as int, b as int));
    let (e, f) = trim_bounds(&v, c, d);
    let ghost t = v@.subrange(e as int, f as int);
    let g: usize = if f - e >= 3 && v[f - 3] == '.' && v[f - 2] == 'm' && v[f - 1] == 'd' { f - 3 } else { f };
    proof {
        reveal_strlit(".md");
        if f - e >= 3 {
            assert(t.subrange(t.len() - 3, t.len() as int) =~= v@.subrange(f - 3, f as int));
            assert(t.subrange(0, t.len() - 3) =~= v@.subrange(e as int, f - 3));
            let tail = v@.subrange(f - 3, f as int);
            assert(tail[0] == v@[f - 3] && tail[1] == v@[f - 2] && tail[2] == v@[f - 1]);
            assert(".md"@.len() == 3 && ".md"@[0] == '.' && ".md"@[1] == 'm' && ".md"@[2] == 'd');
            if g == f {
                assert(tail != ".md"@);
            } else {
                assert(tail =~= ".md"@);
            }
        }
        assert(strip_md(t) == v@.subrange(e as int, g as int));
    }
    let (h, k) = trim_bounds(&v, e, g);
    if h == k {
        None
    } else {
        Some(string_of(&v, h, k))
    }
}

/// The kind whose wire name is `name`.
fn kind_for(name: &str) -> (r: Option<ToolKind>)
    ensures
        r == kind_named(name@),
{
    let ks = kinds();
    let mut i: usize = 0;
    assert(ks@.skip(0) =~= ks@);
    while i < ks.len()
        invariant
            i <= ks@.len(),
            ks@ == all_kinds(),
            kind_named(name@) == find_kind(ks@.skip(i as int), name@),
        decreases ks.len() - i,
    {
        assert(ks@.skip(i as int)[0] == ks@[i as int]);
        if str_eq(ks[i].wire_name(), name) {
            return Some(ks[i]);
        }
        assert(ks@.skip(i as int).drop_first() =~= ks@.skip(i + 1));
        i += 1;
    }
    None
}

fn failure(name: &str, arguments: &str, e: &str) -> (r: String)
    ensures
        r@ == bind_failure(name@, arguments@, e@),
{
    let mut r = owned(name);
    push_str(&mut r, " arguments failed to bind: ");
    push_str(&mut r, e);
    push_str(&mut r, " — raw: ");
    push_str(&mut r, arguments);
    r
}

/// The skill a use_skill call asks for, given what the parser made of the
/// trimmed arguments.
fn use_skill_request(arguments: &str, parsed: &Result<JsonDoc, String>) -> (r: Option<String>)
    ensures
        r.deep_view() == requested_skill(arguments@, parsed_view(*parsed)),
{
    let raw = trim_str(arguments);
    if raw.as_str().is_empty() {
        return None;
    }
    match parsed {
        Ok(doc) => {
            let skill = if matches!(doc, JsonDoc::Other) {
                Err(())
            } else {
                match read_opt_string(field(doc, "skill", 0)) {
                    Err(_) => Err(()),
                    Ok(s) => if is_overlong(doc, 1) { Err(()) } else { Ok(s) },
                }
            };
            match skill {
                Ok(Some(s)) => normalize_skill_name(s.as_str()),
                Ok(None) => None,
                Err(_) => normalize_skill_name(raw.as_str()),
            }
        },
        Err(_) => normalize_skill_name(raw.as_str()),
    }
}

impl ToolType {
    /// Binds a call given what the JSON parser made of its [`parse_input`]:
    /// an unknown name is refused, the argument-free tools ignore the
    /// arguments, use_skill reads them leniently, and the rest bind their
    /// argument struct or fail with the reason and the raw text.
    pub fn bind_parsed(name: &str, arguments: &str, parsed: Result<JsonDoc, String>) -> (r: Result<ToolType, String>)
        ensures
            binding_view(r) == bind_view(name@, arguments@, parsed_view(parsed)),
    {
        let kind = match kind_for(name) {
            Some(k) => k,
            None => return Err(concat2("model called an unknown tool: ", name)),
        };
        match kind {
            ToolKind::ResetBashContainer => Ok(ToolType::ResetBashContainer),
            ToolKind::MetaNoOpExtraTurn => Ok(ToolType::MetaNoOpExtraTurn),
            ToolKind::MetaMalformed => Ok(ToolType::MetaMalformed {
                report: owned("meta_malformed_tool_call is internal and cannot be called directly."),
            }),
            ToolKind::UseSkill => Ok(ToolType::UseSkill { skill: use_skill_request(arguments, &parsed) }),
            _ => match parsed {
                Err(e) => Err(failure(name, arguments, e.as_str())),
                Ok(doc) => match bind_args(kind, &doc) {
                    Ok(t) => Ok(t),
                    Err(e) => Err(failure(name, arguments, e.as_str())),
                },
            },
        }
    }

    /// Binds a model's tool call: the tool its name calls, with its JSON
    /// arguments read into that tool's fields (see [`bind_view`]).
    pub fn bind(name: &str, arguments: &str) -> (r: Result<ToolType, String>)
        ensures
            binding_view(r) == bind_view(name@, arguments@, json_document(parse_input(name@, arguments@))),
    {
        proof {
            reveal_strlit("use_skill");
        }
        let is_skill = str_eq(name, "use_skill");
        let parsed = if is_skill {
            let raw = trim_str(arguments);
            parse_json(raw.as_str())
        } else {
            parse_json(arguments)
        };
        ToolType::bind_parsed(name, arguments, parsed)
    }
}

// ---------------------------------------------------------------------------
// Argument maps

/// One string argument.
pub open spec fn str_arg(key: Seq<char>, value: Seq<char>) -> Seq<(Seq<char>, ArgValueView)> {
    seq![(key, ArgValueView::Str(value))]
}

/// An optional count argument: present only when set.
pub open spec fn opt_count_arg(key: Seq<char>, value: Option<usize>) -> Seq<(Seq<char>, ArgValueView)> {
    match value {
        Some(n) => seq![(key, ArgValueView::Int(n as int))],
        None => Seq::empty(),
    }
}

/// The arguments a bound call is shown with, in the order its fields are
/// declared; optional fields appear only when set.
pub open spec fn arguments_of(t: ToolTypeView) -> Seq<(Seq<char>, ArgValueView)> {
    match t {
        ToolTypeView::WebSearch { query } => str_arg("query"@, query),
        ToolTypeView::VisitUrl { url } => str_arg("url"@, url),
        ToolTypeView::RunBashCommand { command } => str_arg("command"@, command),
        ToolTypeView::ViewImage { path } => str_arg("path"@, path),
        ToolTypeView::ReadFile { path, offset, limit } =>
            str_arg("path"@, path) + opt_count_arg("offset"@, offset) + opt_count_arg("limit"@, limit),
        ToolTypeView::EditFile { path, old_string, new_string } =>
            str_arg("path"@, path) + str_arg("old_string"@, old_string) + str_arg("new_string"@, new_string),
        ToolTypeView::UseSkill { skill } => match skill {
            Some(s) => str_arg("skill"@, s),
            None => Seq::empty(),
        },
        ToolTypeView::SetReminder { delay_seconds, note, addressee } =>
            seq![("delay_seconds"@, ArgValueView::Int(delay_seconds as int))] + str_arg("note"@, note)
                + str_arg("addressee"@, addressee),
        _ => Seq::empty(),
    }
}

fn push_str_arg(args: &mut Vec<(String, ArgValue)>, key: &str, value: &String)
    ensures
        final(args).deep_view() == old(args).deep_view() + str_arg(key@, value@),
{
    args.push((owned(key), ArgValue::Str(value.clone())));
    assert(args.deep_view() =~= old(args).deep_view() + str_arg(key@, value@));
}

fn push_count_arg(args: &mut Vec<(String, ArgValue)>, key: &str, value: Option<usize>)
    ensures
        final(args).deep_view() == old(args).deep_view() + opt_count_arg(key@, value),
{
    if let Some(n) = value {
        args.push((owned(key), ArgValue::Int(n as i128)));
    }
    assert(args.deep_view() =~= old(args).deep_view() + opt_count_arg(key@, value));
}

impl ToolType {
    /// The arguments this call is shown with (see [`arguments_of`]).
    pub fn arguments_map(&self) -> (r: Vec<(String, ArgValue)>)
        ensures
            r.deep_view() == arguments_of(self.deep_view()),
    {
        let mut r: Vec<(String, ArgValue)> = Vec::new();
        assert(r.deep_view() =~= Seq::empty());
        match self {
            ToolType::WebSearch { query } => push_str_arg(&mut r, "query", query),
            ToolType::VisitUrl { url } => push_str_arg(&mut r, "url", url),
            ToolType::RunBashCommand { command } => push_str_arg(&mut r, "command", command),
            ToolType::ViewImage { path } => push_str_arg(&mut r, "path", path),
            ToolType::ReadFile { path, offset, limit } => {
                push_str_arg(&mut r, "path", path);
                push_count_arg(&mut r, "offset", *offset);
                push_count_arg(&mut r, "limit", *limit);
            },
            ToolType::EditFile { path, old_string, new_string } => {
                push_str_arg(&mut r, "path", path);
                push_str_arg(&mut r, "old_string", old_string);
                push_str_arg(&mut r, "new_string", new_string);
            },
            ToolType::UseSkill { skill } => {
                if let Some(s) = skill {
                    push_str_arg(&mut r, "skill", s);
                }
            },
            ToolType::SetReminder { delay_seconds, note, addressee } => {
                r.push((owned("delay_seconds"), ArgValue::Int(*delay_seconds as i128)));
                push_str_arg(&mut r, "note", note);
                push_str_arg(&mut r, "addressee", addressee);
            },
            _ => {},
        }
        r
    }
}

// ---------------------------------------------------------------------------
// Binding what was shown

/// An argument value as it reads back from JSON: a string as a string, an
/// integer as a number written in decimal.
pub open spec fn json_of_arg(v: ArgValueView) -> JsonScalarView {
    match v {
        ArgValueView::Str(s) => JsonScalarView::Str(s),
        ArgValueView::Int(n) => JsonScalarView::Number(signed_decimal(n)),
    }
}

/// The JSON object an argument map is written as, member for member.
pub open spec fn arguments_document(args: Seq<(Seq<char>, ArgValueView)>) -> JsonDocView {
    JsonDocView::Object(args.map_values(|a: (Seq<char>, ArgValueView)| (a.0, json_of_arg(a.1))))
}

/// No two tools share a wire name.
pub proof fn lemma_wire_names_distinct(a: ToolKind, b: ToolKind)
    requires
        a != b,
    ensures
        wire_name_of(a) != wire_name_of(b),
{
    reveal_strlit("web_search");
    reveal_strlit("visit_url");
    reveal_strlit("run_bash_command");
    reveal_strlit("reset_bash_container");
    reveal_strlit("view_image");
    reveal_strlit("read_file");
    reveal_strlit("edit_file");
    reveal_strlit("use_skill");
    reveal_strlit("set_reminder");
    reveal_strlit("meta_no_op_extra_turn");
    reveal_strlit("meta_malformed_tool_call");
    assert(wire_name_of(a).len() != wire_name_of(b).len() || wire_name_of(a)[0] != wire_name_of(b)[0]);
}

proof fn lemma_find_kind_at(ks: Seq<ToolKind>, j: int)
    requires
        0 <= j < ks.len(),
        forall|i: int| 0 <= i < j ==> ks[i] != ks[j],
    ensures
        find_kind(ks, wire_name_of(ks[j])) == Some(ks[j]),
    decreases j,
{
    if j > 0 {
        lemma_wire_names_distinct(ks[0], ks[j]);
        let rest = ks.drop_first();
        assert forall|i: int| 0 <= i < j - 1 implies #[trigger] rest[i] != rest[j - 1] by {
            assert(ks[i + 1] != ks[j]);
        }
        lemma_find_kind_at(rest, j - 1);
    }
}

/// Every tool's wire name calls that tool.
pub proof fn lemma_kind_named_wire(k: ToolKind)
    ensures
        kind_named(wire_name_of(k)) == Some(k),
{
    let ks = all_kinds();
    assert(ks.len() == 11 && ks[0] == ToolKind::WebSearch && ks[1] == ToolKind::VisitUrl
        && ks[2] == ToolKind::RunBashCommand && ks[3] == ToolKind::ResetBashContainer && ks[4] == ToolKind::ViewImage
        && ks[5] == ToolKind::ReadFile && ks[6] == ToolKind::EditFile && ks[7] == ToolKind::UseSkill
        && ks[8] == ToolKind::SetReminder && ks[9] == ToolKind::MetaNoOpExtraTurn && ks[10] == ToolKind::MetaMalformed);
    let j: int = match k {
        ToolKind::WebSearch => 0,
        ToolKind::VisitUrl => 1,
        ToolKind::RunBashCommand => 2,
        ToolKind::ResetBashContainer => 3,
        ToolKind::ViewImage => 4,
        ToolKind::ReadFile => 5,
        ToolKind::EditFile => 6,
        ToolKind::UseSkill => 7,
        ToolKind::SetReminder => 8,
        ToolKind::MetaNoOpExtraTurn => 9,
        ToolKind::MetaMalformed => 10,
    };
    assert forall|i: int, m: int| 0 <= i < m < 11 implies ks[i] != ks[m] by {}
    lemma_find_kind_at(ks, j);
}

/// Binding a call by its wire name and the JSON object of the arguments it
/// is shown with ([`arguments_of`]) gives the call back: binding undoes the
/// argument map. A use_skill name is given back only when it is already in
/// the reduced form binding brings it to, and the internal malformed-call
/// tool binds to its fixed report.
pub proof fn law_bind_undoes_arguments(t: ToolTypeView, text: Seq<char>)
    requires
        t matches ToolTypeView::UseSkill { skill: Some(s) } ==> normalize_skill(s) == Some(s) && trim(text).len() > 0,
        t matches ToolTypeView::MetaMalformed { report } ==> report == internal_tool_report(),
    ensures
        bind_view(wire_name_of(crate::conversation::kind_of(t)), text, Ok(arguments_document(arguments_of(t)))) == Ok::<ToolTypeView, Seq<char>>(t),
{
    let k = crate::conversation::kind_of(t);
    lemma_kind_named_wire(k);
    let args = arguments_of(t);
    let doc = arguments_document(args);
    reveal_strlit("query");
    reveal_strlit("url");
    reveal_strlit("command");
    reveal_strlit("path");
    reveal_strlit("offset");
    reveal_strlit("limit");
    reveal_strlit("old_string");
    reveal_strlit("new_string");
    reveal_strlit("skill");
    reveal_strlit("delay_seconds");
    reveal_strlit("note");
    reveal_strlit("addressee");
    reveal_with_fuel(member_of, 4);
    match t {
        ToolTypeView::ReadFile { path, offset, limit } => {
            let m = doc->Object_0;
            assert(member_of(m, "path"@) == Some(JsonScalarView::Str(path)));
            match offset {
                Some(n) => {
                    law_parse_unsigned_decimal(n as nat, usize::MAX as nat);
                    assert(member_of(m, "offset"@) == Some(JsonScalarView::Number(decimal(n as nat))));
                },
                None => {
                    assert(member_of(m, "offset"@) is None);
                },
            }
            match limit {
                Some(n) => {
                    law_parse_unsigned_decimal(n as nat, usize::MAX as nat);
                    assert(member_of(m, "limit"@) == Some(JsonScalarView::Number(decimal(n as nat))));
                },
                None => {
                    assert(member_of(m, "limit"@) is None);
                },
            }
            assert(decode_opt_count(field_of(doc, "offset"@, 1)) == Ok::<Option<usize>, Seq<char>>(offset));
            assert(decode_opt_count(field_of(doc, "limit"@, 2)) == Ok::<Option<usize>, Seq<char>>(limit));
            assert(read_fields(k, doc) == Ok::<ToolTypeView, Seq<char>>(t));
        },
        ToolTypeView::EditFile { path, old_string, new_string } => {
            let m = doc->Object_0;
            assert(member_of(m, "path"@) == Some(JsonScalarView::Str(path)));
            assert(member_of(m, "old_string"@) == Some(JsonScalarView::Str(old_string)));
            assert("old_string"@ != "new_string"@) by {
                assert("old_string"@[0] != "new_string"@[0]);
            }
            assert(member_of(m, "new_string"@) == Some(JsonScalarView::Str(new_string)));
        },
        ToolTypeView::SetReminder { delay_seconds, note, addressee } => {
            law_parse_signed_decimal(delay_seconds as int);
            let m = doc->Object_0;
            assert(member_of(m, "delay_seconds"@) == Some(JsonScalarView::Number(signed_decimal(delay_seconds as int))));
            assert(member_of(m, "note"@) == Some(JsonScalarView::Str(note)));
            assert(member_of(m, "addressee"@) == Some(JsonScalarView::Str(addressee)));
        },
        _ => {},
    }
}

} // verus!
