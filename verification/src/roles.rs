//! What a model role produces and how its raw generation is read: the
//! reasoning before the model's close marker, the reply content, and the tool
//! calls written in the Qwen family's `<tool_call><function=…><parameter=…>`
//! pseudo-XML. Incomplete tool calls are dropped, never shown as content.

use vstd::prelude::*;
use crate::messaging::{holds_at, starts_at, ws_end, ws_end_of, lemma_ws_end_ge};
use crate::text::{chars_of, concat3, lemma_trim_range, owned, str_eq, string_of, trim, trim_bounds};

verus! {

/// Switches handed to the chat template.
#[derive(PartialEq, Eq, Structural, Clone, Copy, Debug)]
pub struct FormatFlags {
    pub enable_thinking: bool,
    pub add_generation_prompt: bool,
}

/// One tool call as the model wrote it: the tool's name and its arguments as
/// a JSON object text.
pub struct ParsedToolCall {
    pub name: String,
    pub arguments: String,
}

/// A generation read apart.
pub struct ParsedResponse {
    pub reasoning: String,
    pub content: String,
    pub tool_calls: Vec<ParsedToolCall>,
}

/// How a role's reasoning is bounded: the text that forces it closed, the
/// marker that closes it, and how many tokens it may take.
pub struct ThinkingPolicy {
    pub force_close: String,
    pub close_marker: String,
    pub max_tokens: usize,
}

/// Model of a [`ParsedResponse`]: reasoning, content, and (name, arguments)
/// per tool call.
pub open spec fn parsed_response_view(r: ParsedResponse) -> (Seq<char>, Seq<char>, Seq<(Seq<char>, Seq<char>)>) {
    (r.reasoning@, r.content@, r.tool_calls@.map_values(|c: ParsedToolCall| (c.name@, c.arguments@)))
}

// ---------------------------------------------------------------------------
// Finding text

/// The first position at or after `from` where `pat` occurs in `t`.
pub open spec fn find_from(t: Seq<char>, pat: Seq<char>, from: int) -> Option<int>
    decreases t.len() + 1 - from,
{
    if from < 0 || from + pat.len() > t.len() {
        None
    } else if starts_at(t, from, pat) {
        Some(from)
    } else {
        find_from(t, pat, from + 1)
    }
}

pub proof fn lemma_find_from_bounds(t: Seq<char>, pat: Seq<char>, from: int)
    ensures
        find_from(t, pat, from) matches Some(i) ==> from <= i && i + pat.len() <= t.len() && starts_at(t, i, pat),
    decreases t.len() + 1 - from,
{
    if 0 <= from && from + pat.len() <= t.len() && !starts_at(t, from, pat) {
        lemma_find_from_bounds(t, pat, from + 1);
    }
}

/// Runs [`find_from`] over a vector.
pub fn find_in(v: &Vec<char>, pat: &Vec<char>, from: usize) -> (r: Option<usize>)
    requires
        from <= v@.len(),
    ensures
        match find_from(v@, pat@, from as int) {
            Some(i) => r == Some(i as usize),
            None => r is None,
        },
{
    let mut i = from;
    while i <= v.len() && pat.len() <= v.len() - i
        invariant
            from <= i <= v@.len() + 1,
            find_from(v@, pat@, from as int) == find_from(v@, pat@, i as int),
        decreases v@.len() + 1 - i,
    {
        if holds_at(v, i, pat) {
            return Some(i);
        }
        if i == v.len() {
            proof {
                if pat@.len() == 0 {
                    assert(v@.subrange(i as int, i as int) =~= pat@);
                }
            }
            return None;
        }
        i += 1;
    }
    None
}

// ---------------------------------------------------------------------------
// Tool-call blocks

/// The first position from `x` on where, after any whitespace, the block
/// closes with `</tool_call>`.
pub open spec fn call_close_from(t: Seq<char>, x: int) -> Option<int>
    decreases t.len() + 1 - x,
{
    if x < 0 || x > t.len() {
        None
    } else if starts_at(t, ws_end(t, x), "</tool_call>"@) {
        Some(x)
    } else {
        call_close_from(t, x + 1)
    }
}

pub proof fn lemma_call_close_bounds(t: Seq<char>, x: int)
    ensures
        call_close_from(t, x) matches Some(y) ==> x <= y <= t.len() && starts_at(t, ws_end(t, y), "</tool_call>"@),
    decreases t.len() + 1 - x,
{
    if 0 <= x <= t.len() && !starts_at(t, ws_end(t, x), "</tool_call>"@) {
        lemma_call_close_bounds(t, x + 1);
    }
}

/// A complete block `<tool_call> INNER </tool_call>` starting at `p`: where
/// its inner text starts and ends, and where the block ends.
pub open spec fn call_at(t: Seq<char>, p: int) -> Option<(int, int, int)> {
    if !starts_at(t, p, "<tool_call>"@) {
        None
    } else {
        let r = ws_end(t, p + 11);
        match call_close_from(t, r) {
            Some(x) => Some((r, x, ws_end(t, x) + 12)),
            None => None,
        }
    }
}

pub proof fn lemma_call_bounds(t: Seq<char>, p: int)
    requires
        0 <= p,
    ensures
        call_at(t, p) matches Some(m) ==> p < m.0 <= m.1 && m.1 + 12 <= m.2 <= t.len(),
{
    reveal_strlit("<tool_call>");
    reveal_strlit("</tool_call>");
    if starts_at(t, p, "<tool_call>"@) {
        lemma_ws_end_ge(t, p + 11);
        let r = ws_end(t, p + 11);
        lemma_call_close_bounds(t, r);
        if let Some(x) = call_close_from(t, r) {
            lemma_ws_end_ge(t, x);
        }
    }
}

/// Scans `t` from `i`: the text with every complete block removed, and each
/// block's inner text, in order.
pub open spec fn scan_calls(t: Seq<char>, i: int) -> (Seq<char>, Seq<Seq<char>>)
    decreases t.len() - i,
{
    if i < 0 || i >= t.len() {
        (Seq::empty(), Seq::empty())
    } else {
        match call_at(t, i) {
            Some(m) => {
                proof {
                    lemma_call_bounds(t, i);
                }
                let rest = scan_calls(t, m.2);
                (rest.0, seq![t.subrange(m.0, m.1)] + rest.1)
            },
            None => {
                let rest = scan_calls(t, i + 1);
                (seq![t[i]] + rest.0, rest.1)
            },
        }
    }
}

// ---------------------------------------------------------------------------
// Names and parameters inside a block

/// A character allowed in a function or parameter name tag.
pub open spec fn is_tag_char(c: char) -> bool {
    c != '>' && c != '\n'
}

/// The end of the run of tag characters from `i`.
pub open spec fn tag_end(t: Seq<char>, i: int) -> int
    decreases t.len() - i,
{
    if 0 <= i < t.len() && is_tag_char(t[i]) { tag_end(t, i + 1) } else { i }
}

pub proof fn lemma_tag_end_ge(t: Seq<char>, i: int)
    ensures
        tag_end(t, i) >= i,
        0 <= i <= t.len() ==> tag_end(t, i) <= t.len(),
    decreases t.len() - i,
{
    if 0 <= i < t.len() && is_tag_char(t[i]) {
        lemma_tag_end_ge(t, i + 1);
    }
}

/// The name in a tag `OPEN NAME>` at `p`, where `OPEN` is `n` characters:
/// the end of the name when it is non-empty and closed by `>`.
pub open spec fn tag_at(t: Seq<char>, p: int, open: Seq<char>) -> Option<int> {
    if !starts_at(t, p, open) {
        None
    } else {
        let e = tag_end(t, p + open.len());
        if e > p + open.len() && e < t.len() && t[e] == '>' { Some(e) } else { None }
    }
}

/// The function named in a block: the first `<function=NAME>` tag, trimmed.
pub open spec fn function_name_from(t: Seq<char>, p: int) -> Option<Seq<char>>
    decreases t.len() - p,
{
    if p < 0 || p >= t.len() {
        None
    } else {
        match tag_at(t, p, "<function="@) {
            Some(e) => Some(trim(t.subrange(p + 10, e))),
            None => function_name_from(t, p + 1),
        }
    }
}

/// A parameter `<parameter=KEY>\nVALUE\n</parameter>` at `p`: its key's end
/// and its value's bounds, the value running to the first closing line.
pub open spec fn param_at(t: Seq<char>, p: int) -> Option<(int, int, int)> {
    match tag_at(t, p, "<parameter="@) {
        None => None,
        Some(e) => if e + 1 < t.len() && t[e + 1] == '\n' {
            match find_from(t, "\n</parameter>"@, e + 2) {
                Some(y) => Some((e, e + 2, y)),
                None => None,
            }
        } else {
            None
        },
    }
}

/// The parameters of a block from `p` on, as (trimmed key, value) in order.
pub open spec fn params_from(t: Seq<char>, p: int) -> Seq<(Seq<char>, Seq<char>)>
    decreases t.len() - p,
{
    if p < 0 || p >= t.len() {
        Seq::empty()
    } else {
        match param_at(t, p) {
            Some(m) => {
                proof {
                    reveal_strlit("\n</parameter>");
                    lemma_find_from_bounds(t, "\n</parameter>"@, m.0 + 2);
                }
                seq![(trim(t.subrange(p + 11, m.0)), t.subrange(m.1, m.2))] + params_from(t, m.2 + 13)
            },
            None => params_from(t, p + 1),
        }
    }
}

/// `s` (in key order) with `p` put under its key, as a map ordered by its
/// keys does it: a member with the same key is replaced.
pub open spec fn put_pair(s: Seq<(Seq<char>, Seq<char>)>, p: (Seq<char>, Seq<char>)) -> Seq<(Seq<char>, Seq<char>)>
    decreases s.len(),
{
    if s.len() == 0 {
        seq![p]
    } else if s.last().0 == p.0 {
        s.drop_last().push(p)
    } else if crate::text::seq_le(s.last().0, p.0) {
        s.push(p)
    } else {
        put_pair(s.drop_last(), p).push(s.last())
    }
}

/// The pairs as a map keyed by their first string holds them: one per key
/// (the last given), in key order.
pub open spec fn pairs_by_key(ps: Seq<(Seq<char>, Seq<char>)>) -> Seq<(Seq<char>, Seq<char>)>
    decreases ps.len(),
{
    if ps.len() == 0 { Seq::empty() } else { put_pair(pairs_by_key(ps.drop_last()), ps.last()) }
}

/// What serde_json writes for an object whose members are the given string
/// pairs, inserted in order into its map: `{`, the members in key order as
/// `"key":"value"` separated by `,`, then `}`.
#[verifier::opaque]
pub open spec fn json_string_object(pairs: Seq<(Seq<char>, Seq<char>)>) -> Seq<char> {
    seq!['{']
        + crate::text::seq_join(
            pairs_by_key(pairs).map_values(|p: (Seq<char>, Seq<char>)| crate::render::json_quoted(p.0) + seq![':'] + crate::render::json_quoted(p.1)),
            ","@,
        )
        + seq!['}']
}

/// Writes the pairs as a JSON object of strings: each pair is inserted into a
/// `serde_json::Map` (a later key replaces an earlier one; `preserve_order`
/// is off, so the map keeps its keys in order), which is then written with
/// `to_string` ([`json_string_object`]).
#[verifier::external_body]
fn json_object_text(pairs: Vec<(String, String)>) -> (r: String)
    ensures
        r@ == json_string_object(pairs.deep_view()),
{
    serde_json::Value::Object(pairs.into_iter().map(|(k, v)| (k, serde_json::Value::String(v))).collect()).to_string()
}

/// The tool calls of the blocks, in order; a block without a function tag is
/// dropped.
pub open spec fn calls_of(inners: Seq<Seq<char>>) -> Seq<(Seq<char>, Seq<char>)>
    decreases inners.len(),
{
    if inners.len() == 0 {
        Seq::empty()
    } else {
        let rest = calls_of(inners.drop_last());
        match function_name_from(inners.last(), 0) {
            Some(name) => rest.push((name, json_string_object(params_from(inners.last(), 0)))),
            None => rest,
        }
    }
}

/// Every block with a function tag yields exactly one call, in order: the
/// calls of two runs of blocks are those of the first followed by those of
/// the second, and one block yields its named call with its parameters as a
/// JSON object, or nothing when it has no function tag. So there are as many
/// calls as tagged blocks.
pub proof fn law_every_tagged_block_is_a_call(a: Seq<Seq<char>>, b: Seq<Seq<char>>, x: Seq<char>)
    ensures
        calls_of(a + b) == calls_of(a) + calls_of(b),
        calls_of(seq![x]) == match function_name_from(x, 0) {
            Some(name) => seq![(name, json_string_object(params_from(x, 0)))],
            None => Seq::<(Seq<char>, Seq<char>)>::empty(),
        },
        calls_of(a).len() == a.filter(|y: Seq<char>| function_name_from(y, 0) is Some).len(),
    decreases b.len(),
{
    if b.len() > 0 {
        law_every_tagged_block_is_a_call(a, b.drop_last(), x);
        assert((a + b).drop_last() =~= a + b.drop_last());
        assert((a + b).last() == b.last());
    } else {
        assert(a + b =~= a);
    }
    assert(seq![x].drop_last() =~= Seq::<Seq<char>>::empty());
    assert(seq![x].last() == x);
    let none = calls_of(Seq::<Seq<char>>::empty());
    assert(none =~= Seq::<(Seq<char>, Seq<char>)>::empty());
    if let Some(name) = function_name_from(x, 0) {
        assert(none.push((name, json_string_object(params_from(x, 0)))) =~= seq![(name, json_string_object(params_from(x, 0)))]);
    }
    lemma_call_count(a);
}

proof fn lemma_call_count(a: Seq<Seq<char>>)
    ensures
        calls_of(a).len() == a.filter(|y: Seq<char>| function_name_from(y, 0) is Some).len(),
    decreases a.len(),
{
    reveal(Seq::filter);
    if a.len() > 0 {
        lemma_call_count(a.drop_last());
    }
}

/// A raw generation read apart, given the model's reasoning close marker:
/// the reasoning is what precedes the first marker (all of it, trimmed, when
/// there is none); in what follows, complete tool-call blocks become calls and
/// are cut from the content, which also ends before any dangling
/// `<tool_call>` and is trimmed.
pub open spec fn parse_view(raw: Seq<char>, close_marker: Seq<char>) -> (Seq<char>, Seq<char>, Seq<(Seq<char>, Seq<char>)>) {
    let (reasoning, body) = match find_from(raw, close_marker, 0) {
        Some(i) => (trim(raw.subrange(0, i)), raw.subrange(i + close_marker.len(), raw.len() as int)),
        None => (trim(raw), Seq::empty()),
    };
    let (cleaned, inners) = scan_calls(body, 0);
    let content = match find_from(cleaned, "<tool_call>"@, 0) {
        Some(j) => trim(cleaned.subrange(0, j)),
        None => trim(cleaned),
    };
    (reasoning, content, calls_of(inners))
}

// ---------------------------------------------------------------------------
// Reading a generation

fn call_close_of(v: &Vec<char>, x: usize, close: &Vec<char>) -> (r: Option<usize>)
    requires
        x <= v@.len(),
        close@ == "</tool_call>"@,
    ensures
        match call_close_from(v@, x as int) {
            Some(y) => r == Some(y as usize),
            None => r is None,
        },
{
    proof {
        reveal_strlit("</tool_call>");
    }
    let mut y = x;
    while y <= v.len()
        invariant
            x <= y <= v@.len() + 1,
            close@ == "</tool_call>"@,
            "</tool_call>"@.len() == 12,
            call_close_from(v@, x as int) == call_close_from(v@, y as int),
        decreases v@.len() + 1 - y,
    {
        let e = ws_end_of(v, y);
        if holds_at(v, e, close) {
            return Some(y);
        }
        if y == v.len() {
            assert(call_close_from(v@, y + 1) is None);
            assert(ws_end(v@, y as int) == y);
            return None;
        }
        y += 1;
    }
    None
}

fn call_of(v: &Vec<char>, p: usize, open: &Vec<char>, close: &Vec<char>) -> (out: Option<(usize, usize, usize)>)
    requires
        p < v@.len(),
        open@ == "<tool_call>"@,
        close@ == "</tool_call>"@,
    ensures
        match call_at(v@, p as int) {
            Some(m) => out matches Some(o) && o.0 == m.0 && o.1 == m.1 && o.2 == m.2,
            None => out is None,
        },
{
    proof {
        reveal_strlit("<tool_call>");
        reveal_strlit("</tool_call>");
        lemma_call_bounds(v@, p as int);
    }
    let len = v.len();
    if !holds_at(v, p, open) {
        return None;
    }
    let r = ws_end_of(v, p + 11);
    match call_close_of(v, r, close) {
        Some(x) => {
            proof {
                lemma_call_close_bounds(v@, r as int);
            }
            let e = ws_end_of(v, x);
            Some((r, x, e + 12))
        },
        None => None,
    }
}

/// The text with complete tool-call blocks removed, and their inner texts.
fn strip_calls(v: &Vec<char>) -> (r: (Vec<char>, Vec<String>))
    ensures
        r.0@ == scan_calls(v@, 0).0,
        r.1.deep_view() == scan_calls(v@, 0).1,
{
    let open = chars_of("<tool_call>");
    let close = chars_of("</tool_call>");
    let mut cleaned: Vec<char> = Vec::new();
    let mut inners: Vec<String> = Vec::new();
    let mut i: usize = 0;
    assert(inners.deep_view() =~= Seq::<Seq<char>>::empty());
    while i < v.len()
        invariant
            i <= v@.len(),
            open@ == "<tool_call>"@,
            close@ == "</tool_call>"@,
            scan_calls(v@, 0).0 == cleaned@ + scan_calls(v@, i as int).0,
            scan_calls(v@, 0).1 == inners.deep_view() + scan_calls(v@, i as int).1,
        decreases v@.len() - i,
    {
        proof {
            lemma_call_bounds(v@, i as int);
        }
        match call_of(v, i, &open, &close) {
            Some((a, b, e)) => {
                let ghost before = inners.deep_view();
                inners.push(string_of(v, a, b));
                assert(inners.deep_view() =~= before.push(v@.subrange(a as int, b as int)));
                assert(before + (seq![v@.subrange(a as int, b as int)] + scan_calls(v@, e as int).1)
                    =~= inners.deep_view() + scan_calls(v@, e as int).1);
                i = e;
            },
            None => {
                let ghost before = cleaned@;
                cleaned.push(v[i]);
                assert(before + (seq![v@[i as int]] + scan_calls(v@, i + 1).0) =~= cleaned@ + scan_calls(v@, i + 1).0);
                i += 1;
            },
        }
    }
    assert(cleaned@ + scan_calls(v@, i as int).0 =~= cleaned@);
    assert(inners.deep_view() + scan_calls(v@, i as int).1 =~= inners.deep_view());
    (cleaned, inners)
}

fn tag_end_of(v: &Vec<char>, i: usize) -> (r: usize)
    requires
        i <= v@.len(),
    ensures
        r == tag_end(v@, i as int),
        i <= r <= v@.len(),
{
    let mut j = i;
    while j < v.len() && v[j] != '>' && v[j] != '\n'
        invariant
            i <= j <= v@.len(),
            tag_end(v@, i as int) == tag_end(v@, j as int),
        decreases v@.len() - j,
    {
        j += 1;
    }
    j
}

fn tag_of(v: &Vec<char>, p: usize, open: &Vec<char>) -> (r: Option<usize>)
    requires
        p <= v@.len(),
    ensures
        match tag_at(v@, p as int, open@) {
            Some(e) => r == Some(e as usize),
            None => r is None,
        },
{
    let len = v.len();
    if !holds_at(v, p, open) {
        return None;
    }
    let e = tag_end_of(v, p + open.len());
    if e > p + open.len() && e < v.len() && v[e] == '>' { Some(e) } else { None }
}

/// The function a block names (see [`function_name_from`]).
fn function_name(v: &Vec<char>) -> (r: Option<String>)
    ensures
        r.deep_view() == function_name_from(v@, 0),
{
    let open = chars_of("<function=");
    proof {
        reveal_strlit("<function=");
    }
    let mut p: usize = 0;
    while p < v.len()
        invariant
            p <= v@.len(),
            open@ == "<function="@,
            open@.len() == 10,
            function_name_from(v@, 0) == function_name_from(v@, p as int),
        decreases v@.len() - p,
    {
        match tag_of(v, p, &open) {
            Some(e) => {
                let (a, b) = trim_bounds(v, p + 10, e);
                return Some(string_of(v, a, b));
            },
            None => {},
        }
        p += 1;
    }
    None
}

/// The parameters of a block (see [`params_from`]).
fn params(v: &Vec<char>) -> (r: Vec<(String, String)>)
    ensures
        r.deep_view() == params_from(v@, 0),
{
    let open = chars_of("<parameter=");
    let close = chars_of("\n</parameter>");
    proof {
        reveal_strlit("<parameter=");
        reveal_strlit("\n</parameter>");
    }
    let mut r: Vec<(String, String)> = Vec::new();
    let mut p: usize = 0;
    assert(r.deep_view() =~= Seq::<(Seq<char>, Seq<char>)>::empty());
    while p < v.len()
        invariant
            p <= v@.len(),
            open@ == "<parameter="@,
            open@.len() == 11,
            close@ == "\n</parameter>"@,
            close@.len() == 13,
            params_from(v@, 0) == r.deep_view() + params_from(v@, p as int),
        decreases v@.len() - p,
    {
        let found = match tag_of(v, p, &open) {
            Some(e) => if e + 1 < v.len() && v[e + 1] == '\n' {
                match find_in(v, &close, e + 2) {
                    Some(y) => Some((e, y)),
                    None => None,
                }
            } else {
                None
            },
            None => None,
        };
        match found {
            Some((e, y)) => {
                proof {
                    lemma_find_from_bounds(v@, "\n</parameter>"@, e + 2);
                }
                let (a, b) = trim_bounds(v, p + 11, e);
                let key = string_of(v, a, b);
                let value = string_of(v, e + 2, y);
                let ghost before = r.deep_view();
                r.push((key, value));
                assert(r.deep_view() =~= before.push((trim(v@.subrange(p + 11, e as int)), v@.subrange(e + 2, y as int))));
                assert(before + (seq![(trim(v@.subrange(p + 11, e as int)), v@.subrange(e + 2, y as int))] + params_from(v@, y + 13))
                    =~= r.deep_view() + params_from(v@, y + 13));
                p = y + 13;
            },
            None => {
                p += 1;
            },
        }
    }
    assert(r.deep_view() + params_from(v@, p as int) =~= r.deep_view());
    r
}

/// The reply parser named in a model pack's manifest.
#[derive(PartialEq, Eq, Structural, Clone, Copy, Debug)]
pub enum QwenParser {
    Qwen,
}

/// The parser a manifest names: `qwen` is the one known.
pub fn from_name(name: &str) -> (r: Result<QwenParser, String>)
    ensures
        name@ == "qwen"@ ==> r == Ok::<QwenParser, String>(QwenParser::Qwen),
        name@ != "qwen"@ ==> (r matches Err(e)
            && e@ == "unknown parser '"@ + name@ + "' in manifest [format]; known parsers: qwen"@),
{
    if str_eq(name, "qwen") {
        Ok(QwenParser::Qwen)
    } else {
        Err(concat3("unknown parser '", name, "' in manifest [format]; known parsers: qwen"))
    }
}

impl QwenParser {
    /// Reads a raw generation apart (see [`parse_view`]).
    pub fn parse(&self, raw: &str, close_marker: &str) -> (r: ParsedResponse)
        ensures
            parsed_response_view(r) == parse_view(raw@, close_marker@),
    {
        let v = chars_of(raw);
        let marker = chars_of(close_marker);
        let len = v.len();
        proof {
            lemma_find_from_bounds(v@, marker@, 0);
        }
        let (reasoning, body) = match find_in(&v, &marker, 0) {
            Some(i) => {
                let (a, b) = trim_bounds(&v, 0, i);
                (string_of(&v, a, b), string_of(&v, i + marker.len(), v.len()))
            },
            None => {
                let (a, b) = trim_bounds(&v, 0, v.len());
                assert(v@.subrange(0, v@.len() as int) =~= v@);
                (string_of(&v, a, b), String::new())
            },
        };
        let bv = chars_of(body.as_str());
        let (cleaned, inners) = strip_calls(&bv);
        let open = chars_of("<tool_call>");
        proof {
            lemma_find_from_bounds(cleaned@, "<tool_call>"@, 0);
        }
        let end = match find_in(&cleaned, &open, 0) {
            Some(j) => j,
            None => cleaned.len(),
        };
        let (ca, cb) = trim_bounds(&cleaned, 0, end);
        assert(cleaned@.subrange(0, cleaned@.len() as int) =~= cleaned@);
        let content = string_of(&cleaned, ca, cb);
        let mut tool_calls: Vec<ParsedToolCall> = Vec::new();
        let mut k: usize = 0;
        assert(inners.deep_view().take(0) =~= Seq::<Seq<char>>::empty());
        while k < inners.len()
            invariant
                k <= inners@.len(),
                tool_calls@.map_values(|c: ParsedToolCall| (c.name@, c.arguments@)) == calls_of(inners.deep_view().take(k as int)),
            decreases inners@.len() - k,
        {
            let iv = chars_of(inners[k].as_str());
            assert(inners.deep_view().take(k + 1).drop_last() =~= inners.deep_view().take(k as int));
            assert(inners.deep_view().take(k + 1).last() == iv@);
            let ghost before = tool_calls@.map_values(|c: ParsedToolCall| (c.name@, c.arguments@));
            match function_name(&iv) {
                Some(name) => {
                    let ps = params(&iv);
                    let arguments = json_object_text(ps);
                    tool_calls.push(ParsedToolCall { name, arguments });
                    assert(tool_calls@.map_values(|c: ParsedToolCall| (c.name@, c.arguments@)) =~= before.push(
                        (function_name_from(iv@, 0)->0, json_string_object(params_from(iv@, 0)))));
                },
                None => {},
            }
            k += 1;
        }
        assert(inners.deep_view().take(inners@.len() as int) =~= inners.deep_view());
        ParsedResponse { reasoning, content, tool_calls }
    }
}

/// Reads a generation whose reasoning closes with `</think>`.
pub fn parse(raw: &str) -> (r: ParsedResponse)
    ensures
        parsed_response_view(r) == parse_view(raw@, "</think>"@),
{
    QwenParser::Qwen.parse(raw, "</think>")
}

// ---------------------------------------------------------------------------
// What content can hold

/// Whether `pat` occurs anywhere in `t`.
pub open spec fn occurs_in(t: Seq<char>, pat: Seq<char>) -> bool {
    exists|i: int| #[trigger] starts_at(t, i, pat)
}

proof fn lemma_find_from_before(t: Seq<char>, pat: Seq<char>, from: int)
    requires
        0 <= from,
    ensures
        match find_from(t, pat, from) {
            Some(j) => forall|i: int| from <= i < j ==> !#[trigger] starts_at(t, i, pat),
            None => forall|i: int| from <= i ==> !#[trigger] starts_at(t, i, pat),
        },
    decreases t.len() + 1 - from,
{
    if from + pat.len() <= t.len() && !starts_at(t, from, pat) {
        lemma_find_from_before(t, pat, from + 1);
    }
}

proof fn lemma_no_occurrence_in_piece(t: Seq<char>, pat: Seq<char>, a: int, b: int)
    requires
        0 <= a <= b <= t.len(),
        forall|i: int| a <= i && i + pat.len() <= b ==> !#[trigger] starts_at(t, i, pat),
    ensures
        !occurs_in(t.subrange(a, b), pat),
{
    let piece = t.subrange(a, b);
    assert forall|i: int| !#[trigger] starts_at(piece, i, pat) by {
        if starts_at(piece, i, pat) {
            assert(t.subrange(a + i, a + i + pat.len()) =~= piece.subrange(i, i + pat.len()));
            assert(starts_at(t, a + i, pat));
        }
    }
}

/// The content of a read generation never holds the opening of a tool call:
/// complete blocks are cut out, and a dangling one ends the content.
pub proof fn law_content_holds_no_tool_call(raw: Seq<char>, close_marker: Seq<char>)
    ensures
        !occurs_in(parse_view(raw, close_marker).1, "<tool_call>"@),
{
    reveal_strlit("<tool_call>");
    let pat = "<tool_call>"@;
    let body = match find_from(raw, close_marker, 0) {
        Some(i) => raw.subrange(i + close_marker.len(), raw.len() as int),
        None => Seq::empty(),
    };
    let cleaned = scan_calls(body, 0).0;
    lemma_find_from_before(cleaned, pat, 0);
    match find_from(cleaned, pat, 0) {
        Some(j) => {
            lemma_find_from_bounds(cleaned, pat, 0);
            let c = cleaned.subrange(0, j);
            let r = lemma_trim_range(c);
            assert(c.subrange(r.0, r.1) =~= cleaned.subrange(r.0, r.1));
            lemma_no_occurrence_in_piece(cleaned, pat, r.0, r.1);
        },
        None => {
            let r = lemma_trim_range(cleaned);
            lemma_no_occurrence_in_piece(cleaned, pat, r.0, r.1);
        },
    }
}

} // verus!
