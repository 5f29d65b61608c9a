//! Naming and describing a GGUF model file's metadata: the extractor's
//! output directory name and its metadata report lines.

use vstd::prelude::*;
use crate::text::{chars_of, concat2, concat3, decimal, owned, push_char, push_decimal, push_str, string_of, str_eq};

verus! {

/// The name of a GGUF metadata value type.
pub open spec fn value_type_name_view(t: u32) -> Seq<char> {
    if t == 0 { "u8"@ } else if t == 1 { "i8"@ } else if t == 2 { "u16"@ } else if t == 3 { "i16"@ }
    else if t == 4 { "u32"@ } else if t == 5 { "i32"@ } else if t == 6 { "f32"@ } else if t == 7 { "bool"@ }
    else if t == 8 { "str"@ } else if t == 9 { "arr"@ } else if t == 10 { "u64"@ } else if t == 11 { "i64"@ }
    else if t == 12 { "f64"@ } else { "?"@ }
}

/// The name of a GGUF metadata value type (see [`value_type_name_view`]).
pub fn value_type_name(t: u32) -> (r: &'static str)
    ensures
        r@ == value_type_name_view(t),
{
    if t == 0 { "u8" } else if t == 1 { "i8" } else if t == 2 { "u16" } else if t == 3 { "i16" }
    else if t == 4 { "u32" } else if t == 5 { "i32" } else if t == 6 { "f32" } else if t == 7 { "bool" }
    else if t == 8 { "str" } else if t == 9 { "arr" } else if t == 10 { "u64" } else if t == 11 { "i64" }
    else if t == 12 { "f64" } else { "?" }
}

/// The name of a GGUF file type (its quantization), or `ft` and its number.
pub open spec fn quant_name_view(ft: u32) -> Seq<char> {
    if ft == 0 { "f32"@ } else if ft == 1 { "f16"@ } else if ft == 2 { "q4_0"@ } else if ft == 3 { "q4_1"@ }
    else if ft == 7 { "q8_0"@ } else if ft == 8 { "q5_0"@ } else if ft == 9 { "q5_1"@ } else if ft == 10 { "q2_k"@ }
    else if ft == 12 { "q3_k_m"@ } else if ft == 15 { "q4_k_m"@ } else if ft == 17 { "q5_k_m"@ } else if ft == 18 { "q6_k"@ }
    else { "ft"@ + decimal(ft as nat) }
}

/// The name of a GGUF file type (see [`quant_name_view`]).
pub fn quant_name(ft: u32) -> (r: String)
    ensures
        r@ == quant_name_view(ft),
{
    if ft == 0 { owned("f32") } else if ft == 1 { owned("f16") } else if ft == 2 { owned("q4_0") } else if ft == 3 { owned("q4_1") }
    else if ft == 7 { owned("q8_0") } else if ft == 8 { owned("q5_0") } else if ft == 9 { owned("q5_1") } else if ft == 10 { owned("q2_k") }
    else if ft == 12 { owned("q3_k_m") } else if ft == 15 { owned("q4_k_m") } else if ft == 17 { owned("q5_k_m") } else if ft == 18 { owned("q6_k") }
    else {
        let mut r = owned("ft");
        push_decimal(&mut r, ft as u64);
        r
    }
}

/// An ASCII letter or digit.
pub open spec fn is_ascii_alnum(c: char) -> bool {
    ('a' <= c && c <= 'z') || ('A' <= c && c <= 'Z') || ('0' <= c && c <= '9')
}

/// ASCII lowercase of a character; others unchanged.
pub open spec fn lower(c: char) -> char {
    if 'A' <= c && c <= 'Z' { ((c as u32) + 32) as char } else { c }
}

/// `s` from its start with letters and digits kept (lowercased) and each run
/// of other characters turned into one `-` (none at the start when `dash`).
pub open spec fn slug_chars(s: Seq<char>, dash: bool) -> Seq<char>
    decreases s.len(),
{
    if s.len() == 0 {
        Seq::empty()
    } else if is_ascii_alnum(s[0]) {
        seq![lower(s[0])] + slug_chars(s.drop_first(), false)
    } else if !dash {
        seq!['-'] + slug_chars(s.drop_first(), true)
    } else {
        slug_chars(s.drop_first(), true)
    }
}

/// `s` without leading `-`s.
pub open spec fn trim_start_dashes(s: Seq<char>) -> Seq<char>
    decreases s.len(),
{
    if s.len() > 0 && s[0] == '-' { trim_start_dashes(s.drop_first()) } else { s }
}

/// `s` without trailing `-`s.
pub open spec fn trim_end_dashes(s: Seq<char>) -> Seq<char>
    decreases s.len(),
{
    if s.len() > 0 && s.last() == '-' { trim_end_dashes(s.drop_last()) } else { s }
}

/// A name made safe for a directory: lowercase letters and digits, other
/// runs as single `-`, no `-` at either end.
pub open spec fn slug_view(s: Seq<char>) -> Seq<char> {
    trim_end_dashes(trim_start_dashes(slug_chars(s, true)))
}

/// A name made safe for a directory (see [`slug_view`]).
pub fn slug(s: &str) -> (r: String)
    ensures
        r@ == slug_view(s@),
{
    let v = chars_of(s);
    let mut out: Vec<char> = Vec::new();
    let mut dash = true;
    let mut i: usize = 0;
    assert(v@.skip(0) =~= v@);
    assert(out@ + slug_chars(v@.skip(0), dash) =~= slug_chars(s@, true));
    while i < v.len()
        invariant
            i <= v@.len(),
            v@ == s@,
            slug_chars(s@, true) == out@ + slug_chars(v@.skip(i as int), dash),
        decreases v@.len() - i,
    {
        let c = v[i];
        assert(v@.skip(i as int)[0] == c);
        assert(v@.skip(i as int).drop_first() =~= v@.skip(i + 1));
        let ghost before = out@;
        if ('a' <= c && c <= 'z') || ('A' <= c && c <= 'Z') || ('0' <= c && c <= '9') {
            let l = if 'A' <= c && c <= 'Z' { ((c as u32) + 32) as u8 as char } else { c };
            assert(l == lower(c));
            out.push(l);
            assert(before + (seq![lower(c)] + slug_chars(v@.skip(i + 1), false)) =~= out@ + slug_chars(v@.skip(i + 1), false));
            dash = false;
        } else if !dash {
            out.push('-');
            assert(before + (seq!['-'] + slug_chars(v@.skip(i + 1), true)) =~= out@ + slug_chars(v@.skip(i + 1), true));
            dash = true;
        }
        i += 1;
    }
    assert(out@ + slug_chars(v@.skip(i as int), dash) =~= out@);
    let mut a: usize = 0;
    assert(out@.skip(0) =~= out@);
    while a < out.len() && out[a] == '-'
        invariant
            a <= out@.len(),
            trim_start_dashes(out@) == trim_start_dashes(out@.skip(a as int)),
        decreases out@.len() - a,
    {
        assert(out@.skip(a as int).drop_first() =~= out@.skip(a + 1));
        a += 1;
    }
    assert(out@.skip(0) =~= out@);
    let mut b: usize = out.len();
    assert(out@.skip(a as int) =~= out@.subrange(a as int, b as int));
    while b > a && out[b - 1] == '-'
        invariant
            a <= b <= out@.len(),
            trim_end_dashes(out@.subrange(a as int, out@.len() as int)) == trim_end_dashes(out@.subrange(a as int, b as int)),
        decreases b - a,
    {
        assert(out@.subrange(a as int, b as int).drop_last() =~= out@.subrange(a as int, b - 1));
        b -= 1;
    }
    string_of(&out, a, b)
}

/// What `Path::file_stem` gives for a path: its file name without the last
/// extension, or `None` when it has no file name.
pub uninterp spec fn path_file_stem(path: Seq<char>) -> Option<Seq<char>>;

/// The stem of a path's file name (`Path::new(path).file_stem()`, as text).
/// The outcome is named [`path_file_stem`].
#[verifier::external_body]
fn file_stem(path: &str) -> (r: Option<String>)
    ensures
        r.deep_view() == path_file_stem(path@),
{
    std::path::Path::new(path).file_stem().map(|s| s.to_string_lossy().into_owned())
}

/// The directory a model's files are extracted to: its embedded name (or
/// base name and size label, or the model file's stem, or `model`), made safe,
/// then the quantization when the file states it.
pub open spec fn model_dir_view(
    name: Option<Seq<char>>,
    basename: Option<Seq<char>>,
    size_label: Option<Seq<char>>,
    file_type: Option<u32>,
    model_path: Seq<char>,
) -> Seq<char> {
    let chosen = match name {
        Some(n) => n,
        None => match (basename, size_label) {
            (Some(b), Some(s)) => b + " "@ + s,
            _ => match path_file_stem(model_path) {
                Some(stem) => stem,
                None => "model"@,
            },
        },
    };
    match file_type {
        Some(ft) => slug_view(chosen) + "-"@ + quant_name_view(ft),
        None => slug_view(chosen),
    }
}

/// The directory a model's files are extracted to (see [`model_dir_view`]).
pub fn model_dir_name(
    name: Option<String>,
    basename: Option<String>,
    size_label: Option<String>,
    file_type: Option<u32>,
    model_path: &str,
) -> (r: String)
    ensures
        r@ == model_dir_view(name.deep_view(), basename.deep_view(), size_label.deep_view(), file_type, model_path@),
{
    let chosen = match name {
        Some(n) => n,
        None => match (basename, size_label) {
            (Some(b), Some(s)) => concat3(b.as_str(), " ", s.as_str()),
            _ => match file_stem(model_path) {
                Some(stem) => stem,
                None => owned("model"),
            },
        },
    };
    let base = slug(chosen.as_str());
    match file_type {
        Some(ft) => concat3(base.as_str(), "-", quant_name(ft).as_str()),
        None => base,
    }
}

/// Most characters of a value shown in the metadata report.
pub const REPORT_VALUE_MAX: usize = 160;

/// One line of the metadata report: key, type name and value (the chat
/// template stands in by its file name; long values are cut with `…`).
pub open spec fn report_line_view(key: Seq<char>, t: u32, value: Seq<char>) -> Seq<char> {
    let shown = if key == "tokenizer.chat_template"@ {
        "<chat_template.jinja>"@
    } else if value.len() > REPORT_VALUE_MAX {
        value.take(REPORT_VALUE_MAX as int).push('…')
    } else {
        value
    };
    key + "\t"@ + value_type_name_view(t) + "\t"@ + shown + "\n"@
}

/// One line of the metadata report (see [`report_line_view`]).
pub fn report_line(key: &str, t: u32, value: &str) -> (r: String)
    ensures
        r@ == report_line_view(key@, t, value@),
{
    let shown = if str_eq(key, "tokenizer.chat_template") {
        owned("<chat_template.jinja>")
    } else {
        let v = chars_of(value);
        if v.len() > REPORT_VALUE_MAX {
            let mut s = string_of(&v, 0, REPORT_VALUE_MAX);
            push_char(&mut s, '…');
            s
        } else {
            owned(value)
        }
    };
    let mut r = concat2(key, "\t");
    push_str(&mut r, value_type_name(t));
    push_str(&mut r, "\t");
    push_str(&mut r, shown.as_str());
    push_str(&mut r, "\n");
    r
}

} // verus!
