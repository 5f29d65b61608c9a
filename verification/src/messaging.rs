//! Shaping what is sent to the chat platform: composing the outbound text,
//! pulling attachment markers out of it and splitting it to the platform's limit.

use vstd::prelude::*;
use crate::conversation::{subtext_view, Platform};
use crate::text::{
    chars_of, is_whitespace, is_ws, join, lemma_trim_edges, owned, seq_join, string_of, trim, trim_bounds, views, push_str,
    str_eq,
};

verus! {

/// Characters a single Discord message may hold.
pub const DISCORD_MESSAGE_LIMIT: usize = 2000;

/// What a turn sends the user: the model's message (if any) and the names of
/// tools being used (if announced).
pub struct OutboundMessage {
    pub message: Option<String>,
    pub tool_names: Vec<String>,
}

/// Model of an [`OutboundMessage`].
pub struct OutboundMessageView {
    pub message: Option<Seq<char>>,
    pub tool_names: Seq<Seq<char>>,
}

impl DeepView for OutboundMessage {
    type V = OutboundMessageView;

    open spec fn deep_view(&self) -> OutboundMessageView {
        OutboundMessageView { message: self.message.deep_view(), tool_names: self.tool_names.deep_view() }
    }
}

/// Whether there is nothing to send.
pub open spec fn outbound_empty(o: OutboundMessageView) -> bool {
    o.message is None && o.tool_names.len() == 0
}

impl OutboundMessage {
    /// Whether there is nothing to send.
    pub fn is_empty(&self) -> (r: bool)
        ensures
            r == outbound_empty(self.deep_view()),
    {
        self.message.is_none() && self.tool_names.len() == 0
    }
}

// ---------------------------------------------------------------------------
// Composing

/// The line announcing the tools in use.
pub open spec fn tools_line(names: Seq<Seq<char>>) -> Seq<char> {
    if names.len() == 1 {
        "using tool: "@ + names[0]
    } else {
        "using multiple tools: "@ + seq_join(names, ", "@)
    }
}

/// The outbound text: the message, then (when tools are named) the tools line
/// in the platform's subtext style, on lines of their own.
pub open spec fn compose_view(p: Platform, message: Option<Seq<char>>, names: Seq<Seq<char>>) -> Seq<char> {
    let first: Seq<Seq<char>> = match message {
        Some(m) => seq![m],
        None => Seq::empty(),
    };
    let second: Seq<Seq<char>> = if names.len() > 0 { seq![subtext_view(p, tools_line(names))] } else { Seq::empty() };
    seq_join(first + second, "\n"@)
}

/// The text a turn sends (see [`compose_view`]).
pub fn compose(platform: &Platform, message: Option<String>, tool_names: &Vec<String>) -> (r: String)
    ensures
        r@ == compose_view(*platform, message.deep_view(), tool_names.deep_view()),
{
    let mut parts: Vec<String> = Vec::new();
    if let Some(m) = message {
        parts.push(m);
    }
    if tool_names.len() > 0 {
        let body = if tool_names.len() == 1 {
            let mut b = owned("using tool: ");
            push_str(&mut b, tool_names[0].as_str());
            b
        } else {
            let mut b = owned("using multiple tools: ");
            push_str(&mut b, join(tool_names, ", ").as_str());
            b
        };
        proof {
            assert(views(tool_names@) =~= tool_names.deep_view());
        }
        parts.push(platform.subtext(body.as_str()));
    }
    let r = join(&parts, "\n");
    proof {
        let first: Seq<Seq<char>> = match message.deep_view() {
            Some(m) => seq![m],
            None => Seq::empty(),
        };
        let second: Seq<Seq<char>> = if tool_names.deep_view().len() > 0 {
            seq![subtext_view(*platform, tools_line(tool_names.deep_view()))]
        } else {
            Seq::empty()
        };
        assert(views(parts@) =~= first + second);
    }
    r
}

// ---------------------------------------------------------------------------
// Attachment markers

/// Whether `t` holds `s` at position `i`.
pub open spec fn starts_at(t: Seq<char>, i: int, s: Seq<char>) -> bool {
    0 <= i && i + s.len() <= t.len() && t.subrange(i, i + s.len()) == s
}

/// The first position at or after `i` that does not hold whitespace.
pub open spec fn ws_end(t: Seq<char>, i: int) -> int
    decreases t.len() - i,
{
    if 0 <= i < t.len() && is_ws(t[i]) { ws_end(t, i + 1) } else { i }
}

/// Whether, after any whitespace from `x`, the marker closes with `]]`.
pub open spec fn closes_at(t: Seq<char>, x: int) -> bool {
    starts_at(t, ws_end(t, x), "]]"@)
}

/// The end of a marker's path that starts at or before `x`: the first
/// position from `x` on where the marker closes, the path not crossing a line
/// break.
pub open spec fn path_end(t: Seq<char>, x: int) -> Option<int>
    decreases t.len() - x,
{
    if x < 0 || x > t.len() {
        None
    } else if closes_at(t, x) {
        Some(x)
    } else if x < t.len() && t[x] != '\n' {
        path_end(t, x + 1)
    } else {
        None
    }
}

/// Length of the opening of a marker at `p`: `[[attach_file:` or
/// `[[attach_image:`, or 0 when none starts there.
pub open spec fn opener_len(t: Seq<char>, p: int) -> int {
    if starts_at(t, p, "[[attach_file:"@) {
        14
    } else if starts_at(t, p, "[[attach_image:"@) {
        15
    } else {
        0
    }
}

/// A marker `[[attach_file: PATH ]]` (or `attach_image`) starting at `p`:
/// where its path starts and ends, and where the marker ends.
pub open spec fn marker_at(t: Seq<char>, p: int) -> Option<(int, int, int)> {
    let n = opener_len(t, p);
    if n == 0 {
        None
    } else {
        let r = ws_end(t, p + n);
        match path_end(t, r) {
            Some(x) => Some((r, x, ws_end(t, x) + 2)),
            None => None,
        }
    }
}

pub proof fn lemma_ws_end_ge(t: Seq<char>, i: int)
    ensures
        ws_end(t, i) >= i,
        0 <= i <= t.len() ==> ws_end(t, i) <= t.len(),
    decreases t.len() - i,
{
    if 0 <= i < t.len() && is_ws(t[i]) {
        lemma_ws_end_ge(t, i + 1);
    }
}

pub proof fn lemma_path_end_ge(t: Seq<char>, x: int)
    ensures
        path_end(t, x) matches Some(y) ==> x <= y <= t.len() && closes_at(t, y),
    decreases t.len() - x,
{
    if 0 <= x <= t.len() && !closes_at(t, x) && x < t.len() && t[x] != '\n' {
        lemma_path_end_ge(t, x + 1);
    }
}

pub proof fn lemma_marker_bounds(t: Seq<char>, p: int)
    requires
        0 <= p,
    ensures
        marker_at(t, p) matches Some(m) ==> p < m.0 <= m.1 && m.1 + 2 <= m.2 <= t.len(),
{
    reveal_strlit("]]");
    let n = opener_len(t, p);
    if n != 0 {
        lemma_ws_end_ge(t, p + n);
        let r = ws_end(t, p + n);
        lemma_path_end_ge(t, r);
        if let Some(x) = path_end(t, r) {
            lemma_ws_end_ge(t, x);
        }
    }
}

/// Scans `t` from `i`: the text with every marker removed, and each marker's
/// raw path, in order.
pub open spec fn scan_markers(t: Seq<char>, i: int) -> (Seq<char>, Seq<Seq<char>>)
    decreases t.len() - i,
{
    if i < 0 || i >= t.len() {
        (Seq::empty(), Seq::empty())
    } else {
        match marker_at(t, i) {
            Some(m) => {
                proof {
                    lemma_marker_bounds(t, i);
                }
                let rest = scan_markers(t, m.2);
                (rest.0, seq![t.subrange(m.0, m.1)] + rest.1)
            },
            None => {
                let rest = scan_markers(t, i + 1);
                (seq![t[i]] + rest.0, rest.1)
            },
        }
    }
}

/// A space or a tab.
pub open spec fn is_blank(c: char) -> bool {
    c == ' ' || c == '\t'
}

/// The end of the run of spaces and tabs that starts at `i`.
pub open spec fn blank_run(s: Seq<char>, i: int) -> int
    decreases s.len() - i,
{
    if 0 <= i < s.len() && is_blank(s[i]) { blank_run(s, i + 1) } else { i }
}

pub proof fn lemma_blank_run_ge(s: Seq<char>, i: int)
    ensures
        blank_run(s, i) >= i,
        0 <= i <= s.len() ==> blank_run(s, i) <= s.len(),
    decreases s.len() - i,
{
    if 0 <= i < s.len() && is_blank(s[i]) {
        lemma_blank_run_ge(s, i + 1);
    }
}

/// `s` from `i` on with every run of two or more spaces and tabs collapsed
/// to one space; a lone space or tab stays as it is.
pub open spec fn collapse_from(s: Seq<char>, i: int) -> Seq<char>
    decreases s.len() - i,
{
    if i < 0 || i >= s.len() {
        Seq::empty()
    } else if blank_run(s, i) - i >= 2 {
        proof {
            lemma_blank_run_ge(s, i);
        }
        seq![' '] + collapse_from(s, blank_run(s, i))
    } else {
        seq![s[i]] + collapse_from(s, i + 1)
    }
}

/// `s` with runs of blanks collapsed (see [`collapse_from`]).
pub open spec fn collapse_blanks(s: Seq<char>) -> Seq<char> {
    collapse_from(s, 0)
}

/// Adds a marker's path: trimmed, and only when non-empty and not already
/// there.
pub open spec fn add_path(acc: Seq<Seq<char>>, raw: Seq<char>) -> Seq<Seq<char>> {
    if trim(raw).len() == 0 || acc.contains(trim(raw)) { acc } else { acc.push(trim(raw)) }
}

/// The distinct non-empty paths of the markers, in the order they first occur.
pub open spec fn collect_paths(raws: Seq<Seq<char>>) -> Seq<Seq<char>>
    decreases raws.len(),
{
    if raws.len() == 0 { Seq::empty() } else { add_path(collect_paths(raws.drop_last()), raws.last()) }
}

/// The text with its attachment markers removed, trimmed, blank runs
/// collapsed.
pub open spec fn attach_text(text: Seq<char>) -> Seq<char> {
    collapse_blanks(trim(scan_markers(text, 0).0))
}

/// The paths its markers name (see [`collect_paths`]).
pub open spec fn attach_paths(text: Seq<char>) -> Seq<Seq<char>> {
    collect_paths(scan_markers(text, 0).1)
}

pub fn ws_end_of(v: &Vec<char>, i: usize) -> (r: usize)
    requires
        i <= v@.len(),
    ensures
        r == ws_end(v@, i as int),
        i <= r <= v@.len(),
{
    let mut j = i;
    while j < v.len() && is_whitespace(v[j])
        invariant
            i <= j <= v@.len(),
            ws_end(v@, i as int) == ws_end(v@, j as int),
        decreases v@.len() - j,
    {
        j += 1;
    }
    j
}

pub fn holds_at(v: &Vec<char>, i: usize, s: &Vec<char>) -> (r: bool)
    ensures
        r == starts_at(v@, i as int, s@),
{
    if i > v.len() || s.len() > v.len() - i {
        return false;
    }
    let mut k: usize = 0;
    while k < s.len()
        invariant
            i + s@.len() <= v.len(),
            k <= s@.len(),
            forall|m: int| 0 <= m < k ==> v@[i + m] == s@[m],
        decreases s@.len() - k,
    {
        if v[i + k] != s[k] {
            assert(v@.subrange(i as int, i + s@.len())[k as int] != s@[k as int]);
            return false;
        }
        k += 1;
    }
    assert(v@.subrange(i as int, i + s@.len()) =~= s@);
    true
}

fn closes(v: &Vec<char>, x: usize) -> (r: bool)
    requires
        x <= v@.len(),
    ensures
        r == closes_at(v@, x as int),
{
    proof {
        reveal_strlit("]]");
    }
    let e = ws_end_of(v, x);
    if e < v.len() && v.len() - e >= 2 && v[e] == ']' && v[e + 1] == ']' {
        assert(v@.subrange(e as int, e + 2) =~= "]]"@);
        true
    } else {
        proof {
            if e + 2 <= v@.len() {
                let w = v@.subrange(e as int, e + 2);
                assert(w[0] == v@[e as int] && w[1] == v@[e + 1]);
            }
        }
        false
    }
}

fn path_end_of(v: &Vec<char>, r: usize) -> (out: Option<usize>)
    requires
        r <= v@.len(),
    ensures
        match path_end(v@, r as int) {
            Some(y) => out == Some(y as usize),
            None => out is None,
        },
{
    let mut x = r;
    while x <= v.len()
        invariant
            r <= x <= v@.len(),
            path_end(v@, r as int) == path_end(v@, x as int),
        decreases v@.len() - x,
    {
        if closes(v, x) {
            return Some(x);
        }
        if x < v.len() && v[x] != '\n' {
            x += 1;
        } else {
            return None;
        }
    }
    None
}

fn marker_of(v: &Vec<char>, p: usize, file_opener: &Vec<char>, image_opener: &Vec<char>) -> (out: Option<(usize, usize, usize)>)
    requires
        p < v@.len(),
        file_opener@ == "[[attach_file:"@,
        image_opener@ == "[[attach_image:"@,
    ensures
        match marker_at(v@, p as int) {
            Some(m) => out matches Some(o) && o.0 == m.0 && o.1 == m.1 && o.2 == m.2,
            None => out is None,
        },
{
    proof {
        reveal_strlit("[[attach_file:");
        reveal_strlit("[[attach_image:");
        reveal_strlit("]]");
        lemma_marker_bounds(v@, p as int);
    }
    let len = v.len();
    let n: usize = if holds_at(v, p, file_opener) {
        14
    } else if holds_at(v, p, image_opener) {
        15
    } else {
        return None;
    };
    let r = ws_end_of(v, p + n);
    match path_end_of(v, r) {
        Some(x) => {
            let e = ws_end_of(v, x);
            proof {
                lemma_path_end_ge(v@, r as int);
            }
            Some((r, x, e + 2))
        },
        None => None,
    }
}

/// The text with attachment markers removed, and the markers' raw paths.
fn strip_markers(v: &Vec<char>) -> (r: (Vec<char>, Vec<String>))
    ensures
        r.0@ == scan_markers(v@, 0).0,
        r.1.deep_view() == scan_markers(v@, 0).1,
{
    let file_opener = chars_of("[[attach_file:");
    let image_opener = chars_of("[[attach_image:");
    let mut cleaned: Vec<char> = Vec::new();
    let mut raws: Vec<String> = Vec::new();
    let mut i: usize = 0;
    assert(raws.deep_view() =~= Seq::<Seq<char>>::empty());
    while i < v.len()
        invariant
            i <= v@.len(),
            file_opener@ == "[[attach_file:"@,
            image_opener@ == "[[attach_image:"@,
            scan_markers(v@, 0).0 == cleaned@ + scan_markers(v@, i as int).0,
            scan_markers(v@, 0).1 == raws.deep_view() + scan_markers(v@, i as int).1,
        decreases v@.len() - i,
    {
        proof {
            lemma_marker_bounds(v@, i as int);
        }
        match marker_of(v, i, &file_opener, &image_opener) {
            Some((a, b, e)) => {
                let ghost old_raws = raws.deep_view();
                raws.push(string_of(v, a, b));
                assert(raws.deep_view() =~= old_raws.push(v@.subrange(a as int, b as int)));
                assert(old_raws + (seq![v@.subrange(a as int, b as int)] + scan_markers(v@, e as int).1)
                    =~= raws.deep_view() + scan_markers(v@, e as int).1);
                i = e;
            },
            None => {
                let ghost old_cleaned = cleaned@;
                cleaned.push(v[i]);
                assert(old_cleaned + (seq![v@[i as int]] + scan_markers(v@, i + 1).0)
                    =~= cleaned@ + scan_markers(v@, i + 1).0);
                i += 1;
            },
        }
    }
    assert(cleaned@ + scan_markers(v@, i as int).0 =~= cleaned@);
    assert(raws.deep_view() + scan_markers(v@, i as int).1 =~= raws.deep_view());
    (cleaned, raws)
}

/// `v[from..to]` with blank runs collapsed.
fn collapse_range(v: &Vec<char>, from: usize, to: usize) -> (r: String)
    requires
        from <= to <= v@.len(),
    ensures
        r@ == collapse_blanks(v@.subrange(from as int, to as int)),
{
    let ghost s = v@.subrange(from as int, to as int);
    let mut r = String::new();
    let mut i = from;
    while i < to
        invariant
            from <= i <= to <= v@.len(),
            s == v@.subrange(from as int, to as int),
            collapse_blanks(s) == r@ + collapse_from(s, i - from),
        decreases to - i,
    {
        let mut j = i;
        while j < to && (v[j] == ' ' || v[j] == '\t')
            invariant
                from <= i <= j <= to <= v@.len(),
                s == v@.subrange(from as int, to as int),
                blank_run(s, i - from) == blank_run(s, j - from),
            decreases to - j,
        {
            j += 1;
        }
        proof {
            lemma_blank_run_ge(s, i - from);
        }
        let ghost before = r@;
        if j - i >= 2 {
            crate::text::push_char(&mut r, ' ');
            assert(before + (seq![' '] + collapse_from(s, j - from)) =~= r@ + collapse_from(s, j - from));
            i = j;
        } else {
            crate::text::push_char(&mut r, v[i]);
            assert(before + (seq![s[i - from]] + collapse_from(s, i - from + 1)) =~= r@ + collapse_from(s, i - from + 1));
            i += 1;
        }
    }
    assert(r@ + collapse_from(s, i - from) =~= r@);
    r
}

/// Whether `paths` already holds `p`.
fn holds_path(paths: &Vec<String>, p: &str) -> (r: bool)
    ensures
        r == paths.deep_view().contains(p@),
{
    let mut k: usize = 0;
    while k < paths.len()
        invariant
            k <= paths@.len(),
            forall|m: int| 0 <= m < k ==> paths.deep_view()[m] != p@,
        decreases paths@.len() - k,
    {
        if str_eq(paths[k].as_str(), p) {
            assert(paths.deep_view()[k as int] == p@);
            return true;
        }
        k += 1;
    }
    false
}

/// Pulls the attachment markers (`[[attach_file: PATH]]`,
/// `[[attach_image: PATH]]`) out of a reply: the text without them, trimmed
/// and with blank runs collapsed, and the distinct paths they name.
pub fn extract_attach_paths(text: &str) -> (r: (String, Vec<String>))
    ensures
        r.0@ == attach_text(text@),
        r.1.deep_view() == attach_paths(text@),
{
    let v = chars_of(text);
    let (cleaned, raws) = strip_markers(&v);
    let mut paths: Vec<String> = Vec::new();
    let mut i: usize = 0;
    assert(raws.deep_view().take(0) =~= Seq::<Seq<char>>::empty());
    assert(paths.deep_view() =~= Seq::<Seq<char>>::empty());
    while i < raws.len()
        invariant
            i <= raws@.len(),
            paths.deep_view() == collect_paths(raws.deep_view().take(i as int)),
        decreases raws@.len() - i,
    {
        let p = crate::text::trim_str(raws[i].as_str());
        assert(raws.deep_view().take(i + 1).drop_last() =~= raws.deep_view().take(i as int));
        assert(raws.deep_view().take(i + 1).last() == raws@[i as int]@);
        if !p.as_str().is_empty() && !holds_path(&paths, p.as_str()) {
            let ghost before = paths.deep_view();
            paths.push(p);
            assert(paths.deep_view() =~= before.push(trim(raws@[i as int]@)));
        }
        i += 1;
    }
    assert(raws.deep_view().take(raws@.len() as int) =~= raws.deep_view());
    let (a, b) = trim_bounds(&cleaned, 0, cleaned.len());
    assert(cleaned@.subrange(0, cleaned@.len() as int) =~= cleaned@);
    (collapse_range(&cleaned, a, b), paths)
}

// ---------------------------------------------------------------------------
// Splitting to Discord's limit

/// The position of the last line break among the first `n` characters.
pub open spec fn last_break_before(s: Seq<char>, n: int) -> Option<int>
    decreases n,
{
    if n <= 0 || n > s.len() {
        None
    } else if s[n - 1] == '\n' {
        Some(n - 1)
    } else {
        last_break_before(s, n - 1)
    }
}

/// Where an over-long text is cut: just after the last line break within the
/// limit, or at the limit when there is none.
pub open spec fn split_point(s: Seq<char>) -> int {
    match last_break_before(s, DISCORD_MESSAGE_LIMIT as int) {
        Some(i) => i + 1,
        None => DISCORD_MESSAGE_LIMIT as int,
    }
}

pub proof fn lemma_last_break_bounds(s: Seq<char>, n: int)
    ensures
        last_break_before(s, n) matches Some(i) ==> 0 <= i < n && s[i] == '\n',
    decreases n,
{
    if 0 < n <= s.len() && s[n - 1] != '\n' {
        lemma_last_break_bounds(s, n - 1);
    }
}

/// The messages a text is sent as on Discord: cut at [`split_point`] while
/// longer than the limit; pieces that are only whitespace are not sent.
pub open spec fn discord_chunks(s: Seq<char>) -> Seq<Seq<char>>
    decreases s.len(),
{
    if s.len() > DISCORD_MESSAGE_LIMIT as int {
        proof {
            lemma_last_break_bounds(s, DISCORD_MESSAGE_LIMIT as int);
        }
        let k = split_point(s);
        let rest = discord_chunks(s.skip(k));
        if trim(s.take(k)).len() == 0 { rest } else { seq![s.take(k)] + rest }
    } else if trim(s).len() == 0 {
        Seq::empty()
    } else {
        seq![s]
    }
}

/// Every piece fits in one Discord message and holds more than whitespace.
pub proof fn lemma_chunks_fit(s: Seq<char>)
    ensures
        forall|i: int| 0 <= i < discord_chunks(s).len() ==>
            (#[trigger] discord_chunks(s)[i]).len() <= DISCORD_MESSAGE_LIMIT as int
                && trim(discord_chunks(s)[i]).len() > 0,
    decreases s.len(),
{
    if s.len() > DISCORD_MESSAGE_LIMIT as int {
        lemma_last_break_bounds(s, DISCORD_MESSAGE_LIMIT as int);
        let k = split_point(s);
        lemma_chunks_fit(s.skip(k));
        let rest = discord_chunks(s.skip(k));
        if trim(s.take(k)).len() != 0 {
            assert forall|i: int| 0 <= i < discord_chunks(s).len() implies
                (#[trigger] discord_chunks(s)[i]).len() <= DISCORD_MESSAGE_LIMIT as int
                    && trim(discord_chunks(s)[i]).len() > 0 by {
                if i > 0 {
                    assert(discord_chunks(s)[i] == rest[i - 1]);
                }
            }
        }
    }
}

pub fn last_break(v: &Vec<char>, from: usize, n: usize) -> (r: Option<usize>)
    requires
        from + n <= v@.len(),
    ensures
        match last_break_before(v@.skip(from as int), n as int) {
            Some(i) => r == Some(i as usize),
            None => r is None,
        },
{
    let ghost s = v@.skip(from as int);
    let mut m = n;
    while m > 0
        invariant
            m <= n,
            from + n <= v.len(),
            s == v@.skip(from as int),
            last_break_before(s, n as int) == last_break_before(s, m as int),
        decreases m,
    {
        if v[from + m - 1] == '\n' {
            return Some(m - 1);
        }
        m -= 1;
    }
    None
}

/// The pieces a text is sent as on Discord (see [`discord_chunks`]); each fits
/// the limit and holds more than whitespace.
pub fn split_for_discord(content: &str) -> (r: Vec<String>)
    ensures
        r.deep_view() == discord_chunks(content@),
        forall|i: int| 0 <= i < r@.len() ==>
            (#[trigger] r@[i])@.len() <= DISCORD_MESSAGE_LIMIT && trim(r@[i]@).len() > 0,
{
    let v = chars_of(content);
    let mut chunks: Vec<String> = Vec::new();
    let mut start: usize = 0;
    assert(v@.skip(0) =~= v@);
    assert(chunks.deep_view() =~= Seq::<Seq<char>>::empty());
    while v.len() - start > DISCORD_MESSAGE_LIMIT
        invariant
            start <= v@.len(),
            discord_chunks(v@) == chunks.deep_view() + discord_chunks(v@.skip(start as int)),
        decreases v@.len() - start,
    {
        let ghost s = v@.skip(start as int);
        proof {
            lemma_last_break_bounds(s, DISCORD_MESSAGE_LIMIT as int);
        }
        let k: usize = match last_break(&v, start, DISCORD_MESSAGE_LIMIT) {
            Some(i) => i + 1,
            None => DISCORD_MESSAGE_LIMIT,
        };
        assert(k == split_point(s));
        let (a, b) = trim_bounds(&v, start, start + k);
        assert(v@.subrange(start as int, start + k) =~= s.take(k as int));
        assert(v@.skip(start + k) =~= s.skip(k as int));
        let ghost before = chunks.deep_view();
        if a < b {
            chunks.push(string_of(&v, start, start + k));
            assert(chunks.deep_view() =~= before.push(s.take(k as int)));
            assert(before + (seq![s.take(k as int)] + discord_chunks(s.skip(k as int)))
                =~= chunks.deep_view() + discord_chunks(v@.skip(start + k)));
        }
        start = start + k;
    }
    let ghost s = v@.skip(start as int);
    let (a, b) = trim_bounds(&v, start, v.len());
    assert(v@.subrange(start as int, v@.len() as int) =~= s);
    let ghost before = chunks.deep_view();
    if a < b {
        chunks.push(string_of(&v, start, v.len()));
        assert(chunks.deep_view() =~= before + seq![s]);
    } else {
        assert(chunks.deep_view() =~= before + Seq::<Seq<char>>::empty());
    }
    proof {
        assert(v@ == content@);
        lemma_chunks_fit(content@);
        assert forall|i: int| 0 <= i < chunks@.len() implies
            (#[trigger] chunks@[i])@.len() <= DISCORD_MESSAGE_LIMIT && trim(chunks@[i]@).len() > 0 by {
            assert(chunks@[i]@ == chunks.deep_view()[i]);
        }
    }
    chunks
}

/// A path as an attachment marker names it once taken: not empty, and with no
/// whitespace at either end.
pub open spec fn clean_path(p: Seq<char>) -> bool {
    p.len() > 0 && !is_ws(p[0]) && !is_ws(p.last())
}

proof fn lemma_collect_paths_clean(raws: Seq<Seq<char>>)
    ensures
        forall|i: int| 0 <= i < collect_paths(raws).len() ==> clean_path(#[trigger] collect_paths(raws)[i]),
        forall|i: int, j: int| 0 <= i < j < collect_paths(raws).len()
            ==> #[trigger] collect_paths(raws)[i] != #[trigger] collect_paths(raws)[j],
    decreases raws.len(),
{
    if raws.len() > 0 {
        let acc = collect_paths(raws.drop_last());
        let t = trim(raws.last());
        lemma_collect_paths_clean(raws.drop_last());
        lemma_trim_edges(raws.last());
        if !(t.len() == 0 || acc.contains(t)) {
            let out = acc.push(t);
            assert(collect_paths(raws) == out);
            assert forall|i: int| 0 <= i < out.len() implies clean_path(#[trigger] out[i]) by {
                if i < acc.len() {
                    assert(out[i] == acc[i]);
                }
            }
            assert forall|i: int, j: int| 0 <= i < j < out.len() implies #[trigger] out[i] != #[trigger] out[j] by {
                assert(out[i] == acc[i]);
                if j == acc.len() {
                    assert(out[j] == t);
                    if acc[i] == t {
                        assert(acc.contains(t));
                    }
                } else {
                    assert(out[j] == acc[j]);
                }
            }
        }
    }
}

/// The paths a reply's attachment markers name come out each once, in the
/// order they first occur, none empty and none with whitespace at either end.
pub proof fn law_attach_paths_distinct(text: Seq<char>)
    ensures
        forall|i: int| 0 <= i < attach_paths(text).len() ==> clean_path(#[trigger] attach_paths(text)[i]),
        forall|i: int, j: int| 0 <= i < j < attach_paths(text).len()
            ==> #[trigger] attach_paths(text)[i] != #[trigger] attach_paths(text)[j],
{
    lemma_collect_paths_clean(scan_markers(text, 0).1);
}

/// The pieces a text is cut into for Discord, blank ones included.
pub open spec fn discord_pieces(s: Seq<char>) -> Seq<Seq<char>>
    decreases s.len(),
{
    if s.len() > DISCORD_MESSAGE_LIMIT as int {
        proof {
            lemma_last_break_bounds(s, DISCORD_MESSAGE_LIMIT as int);
        }
        let k = split_point(s);
        seq![s.take(k)] + discord_pieces(s.skip(k))
    } else {
        seq![s]
    }
}

/// The pieces written one after another.
pub open spec fn concat_all(ps: Seq<Seq<char>>) -> Seq<char>
    decreases ps.len(),
{
    if ps.len() == 0 { Seq::empty() } else { ps[0] + concat_all(ps.drop_first()) }
}

/// The pieces that hold more than whitespace, in order.
pub open spec fn non_blank(ps: Seq<Seq<char>>) -> Seq<Seq<char>>
    decreases ps.len(),
{
    if ps.len() == 0 {
        Seq::empty()
    } else if trim(ps[0]).len() == 0 {
        non_blank(ps.drop_first())
    } else {
        seq![ps[0]] + non_blank(ps.drop_first())
    }
}

/// Nothing of a reply is lost on its way to Discord but whitespace: the text
/// is cut into consecutive pieces that together are the whole text, and the
/// messages sent are exactly the pieces that hold more than whitespace, in
/// order.
pub proof fn law_split_loses_only_blank_pieces(s: Seq<char>)
    ensures
        concat_all(discord_pieces(s)) == s,
        discord_chunks(s) == non_blank(discord_pieces(s)),
    decreases s.len(),
{
    if s.len() > DISCORD_MESSAGE_LIMIT as int {
        lemma_last_break_bounds(s, DISCORD_MESSAGE_LIMIT as int);
        let k = split_point(s);
        law_split_loses_only_blank_pieces(s.skip(k));
        let ps = discord_pieces(s);
        let rest = discord_pieces(s.skip(k));
        assert(ps == seq![s.take(k)] + rest);
        assert(ps.len() > 0);
        assert(ps[0] == s.take(k));
        assert(ps.drop_first() =~= rest);
        assert(concat_all(ps) == ps[0] + concat_all(ps.drop_first()));
        assert(s.take(k) + s.skip(k) =~= s);
        assert(non_blank(ps) == (if trim(ps[0]).len() == 0 { non_blank(ps.drop_first()) } else {
            seq![ps[0]] + non_blank(ps.drop_first())
        }));
    } else {
        let ps = discord_pieces(s);
        assert(ps == seq![s]);
        assert(ps.drop_first() =~= Seq::<Seq<char>>::empty());
        assert(concat_all(ps.drop_first()) == Seq::<char>::empty());
        assert(non_blank(ps.drop_first()) == Seq::<Seq<char>>::empty());
        assert(concat_all(ps) == ps[0] + concat_all(ps.drop_first()));
        assert(s + Seq::<char>::empty() =~= s);
        assert(seq![s] + Seq::<Seq<char>>::empty() =~= seq![s]);
    }
}

} // verus!
