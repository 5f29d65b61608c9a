//! Running a bound tool call: what each tool needs done outside (a search, a
//! page fetch, a sandbox command, a file read or write) and how the outcome is
//! turned into the result the model sees.

use vstd::prelude::*;
use crate::conversation::{text_result, ToolResultData, ToolResultDataView, ToolType};
use crate::media::{Image, MessageImage, MessageImageView};
use crate::messaging::last_break_before;
use crate::roles::{find_from, find_in, lemma_find_from_bounds};
use crate::text::{
    hex_fixed, join, push_hex, seq_join, views, chars_of, concat2, concat3, i64_to_string, owned, push_char, push_chars, push_decimal, push_str,
    signed_decimal, decimal, string_of, trim, trim_bounds, trim_str,
};

verus! {

/// Most characters of tool output the model is shown in full.
pub const ACTUAL_MAX: usize = 20_000;

/// Most characters of tool output kept in the simplified record.
pub const SIMPLIFIED_MAX: usize = 2_000;

/// Largest file that may be attached to a message, in bytes.
pub const MAX_ATTACHMENT_BYTES: usize = 8_388_608;

/// `s` cut to `max` characters, with a truncation note when cut.
pub open spec fn clip_view(s: Seq<char>, max: nat) -> Seq<char> {
    if s.len() > max { s.take(max as int) + "\n…[output truncated]"@ } else { s }
}

/// `s` cut to `max` characters (see [`clip_view`]).
pub fn clip_to(s: &str, max: usize) -> (r: String)
    ensures
        r@ == clip_view(s@, max as nat),
{
    let v = chars_of(s);
    if v.len() > max {
        let mut head = string_of(&v, 0, max);
        push_str(&mut head, "\n…[output truncated]");
        head
    } else {
        owned(s)
    }
}

/// A character kept as it is in a sandbox name.
pub open spec fn is_name_char(c: char) -> bool {
    ('a' <= c && c <= 'z') || ('A' <= c && c <= 'Z') || ('0' <= c && c <= '9') || c == '-' || c == '_' || c == '.'
}

/// The sandbox container of a conversation: `botwork-` and the conversation's
/// key with every other character replaced by `_`.
pub open spec fn worker_name_view(conversation_id: Seq<char>) -> Seq<char> {
    "botwork-"@ + conversation_id.map_values(|c: char| if is_name_char(c) { c } else { '_' })
}

/// The sandbox container of a conversation (see [`worker_name_view`]).
pub fn worker_name(conversation_id: &str) -> (r: String)
    ensures
        r@ == worker_name_view(conversation_id@),
{
    let v = chars_of(conversation_id);
    let mut r = owned("botwork-");
    let ghost start = r@;
    let mut i: usize = 0;
    while i < v.len()
        invariant
            i <= v@.len(),
            v@ == conversation_id@,
            r@ == start + v@.take(i as int).map_values(|c: char| if is_name_char(c) { c } else { '_' }),
        decreases v@.len() - i,
    {
        let c = v[i];
        let keep = ('a' <= c && c <= 'z') || ('A' <= c && c <= 'Z') || ('0' <= c && c <= '9') || c == '-' || c == '_' || c == '.';
        push_char(&mut r, if keep { c } else { '_' });
        assert(v@.take(i + 1).map_values(|c: char| if is_name_char(c) { c } else { '_' })
            =~= v@.take(i as int).map_values(|c: char| if is_name_char(c) { c } else { '_' }).push(if is_name_char(c) { c } else { '_' }));
        i += 1;
    }
    assert(v@.take(v@.len() as int) =~= v@);
    r
}

/// What `String::from_utf8_lossy` makes of bytes: the text they encode, each
/// invalid sequence replaced by U+FFFD.
pub uninterp spec fn utf8_lossy(bytes: Seq<u8>) -> Seq<char>;

/// Decodes bytes as UTF-8, replacing invalid sequences
/// (`String::from_utf8_lossy`). The text is named [`utf8_lossy`].
#[verifier::external_body]
pub(crate) fn lossy_text(bytes: &[u8]) -> (r: String)
    ensures
        r@ == utf8_lossy(bytes@),
{
    String::from_utf8_lossy(bytes).into_owned()
}

/// The result of a sandbox command: its exit code (`-1` when it was killed
/// by a signal) and its output, each stream clipped.
pub open spec fn bash_body(code: int, stdout: Seq<u8>, stderr: Seq<u8>) -> Seq<char> {
    "exit code: "@ + signed_decimal(code) + "\n--- stdout ---\n"@ + clip_view(utf8_lossy(stdout), ACTUAL_MAX as nat)
        + "\n--- stderr ---\n"@ + clip_view(utf8_lossy(stderr), ACTUAL_MAX as nat)
}

/// A sandbox command's result (see [`bash_body`]); the simplified record is
/// the body clipped shorter.
pub fn bash_result(code: Option<i32>, stdout: &[u8], stderr: &[u8]) -> (r: ToolResultData)
    ensures
        r.deep_view() == text_result(
            bash_body(match code { Some(c) => c as int, None => -1 }, stdout@, stderr@),
            clip_view(bash_body(match code { Some(c) => c as int, None => -1 }, stdout@, stderr@), SIMPLIFIED_MAX as nat),
        ),
{
    let c: i64 = match code { Some(c) => c as i64, None => -1 };
    let out = clip_to(lossy_text(stdout).as_str(), ACTUAL_MAX);
    let err = clip_to(lossy_text(stderr).as_str(), ACTUAL_MAX);
    let mut body = owned("exit code: ");
    push_str(&mut body, i64_to_string(c).as_str());
    push_str(&mut body, "\n--- stdout ---\n");
    push_str(&mut body, out.as_str());
    push_str(&mut body, "\n--- stderr ---\n");
    push_str(&mut body, err.as_str());
    let simplified = clip_to(body.as_str(), SIMPLIFIED_MAX);
    ToolResultData::text(body, simplified)
}

/// What a failed sandbox read or write reports: the path and the command's
/// trimmed error output.
pub open spec fn sandbox_failure_view(verb: Seq<char>, path: Seq<char>, stderr: Seq<u8>) -> Seq<char> {
    "could not "@ + verb + " '"@ + path + "': "@ + trim(utf8_lossy(stderr))
}

/// The report of a failed sandbox read (`verb` `read`) or write (`write`).
pub fn sandbox_failure(verb: &str, path: &str, stderr: &[u8]) -> (r: String)
    ensures
        r@ == sandbox_failure_view(verb@, path@, stderr@),
{
    let mut r = concat2("could not ", verb);
    push_str(&mut r, " '");
    push_str(&mut r, path);
    push_str(&mut r, "': ");
    push_str(&mut r, trim_str(lossy_text(stderr).as_str()).as_str());
    r
}

/// The report of a sandbox that would not start.
pub fn spawn_failure(stderr: &[u8]) -> (r: String)
    ensures
        r@ == "could not start sandbox: "@ + trim(utf8_lossy(stderr@)),
{
    concat2("could not start sandbox: ", trim_str(lossy_text(stderr).as_str()).as_str())
}

/// The result of wiping the sandbox.
pub fn reset_result() -> (r: ToolResultData)
    ensures
        r.deep_view() == text_result(
            "Sandbox reset — a fresh environment starts on the next command."@,
            "Sandbox reset — a fresh environment starts on the next command."@,
        ),
{
    let msg = "Sandbox reset — a fresh environment starts on the next command.";
    ToolResultData::text(owned(msg), owned(msg))
}

/// The result of asking for another turn.
pub fn extra_turn_result() -> (r: ToolResultData)
    ensures
        r.deep_view() == text_result(
            "You have another turn — continue with the next part of your message now."@,
            "You have another turn — continue with the next part of your message now."@,
        ),
{
    let note = "You have another turn — continue with the next part of your message now.";
    ToolResultData::text(owned(note), owned(note))
}

/// What `image::guess_format` recognizes the bytes as, by its MIME type
/// (`ImageFormat::to_mime_type`), when it recognizes them.
pub uninterp spec fn guessed_mime(bytes: Seq<u8>) -> Option<Seq<char>>;

/// Recognizes an image format from the bytes' signature
/// (`image::guess_format`, then `to_mime_type`). The outcome is named
/// [`guessed_mime`].
#[verifier::external_body]
fn guess_mime(bytes: &[u8]) -> (r: Option<String>)
    ensures
        r.deep_view() == guessed_mime(bytes@),
{
    image::guess_format(bytes).ok().map(|f| f.to_mime_type().to_string())
}

/// A file pulled from the sandbox as an image the model can view: refused
/// when its format is not recognized, downscaled otherwise.
pub fn pulled_image(path: &str, bytes: Vec<u8>) -> (r: Result<MessageImage, String>)
    ensures
        match guessed_mime(bytes@) {
            None => r matches Err(e) && e@ == "'"@ + path@ + "' is not a valid image (expected PNG, JPEG, GIF, or WebP)"@,
            Some(mime) => r matches Ok(m) && m.deep_view() == MessageImageView::Hydrated(
                crate::media::downscaled_view(crate::media::ImageView { bytes: bytes@, mime })),
        },
{
    match guess_mime(&bytes) {
        None => Err(concat3("'", path, "' is not a valid image (expected PNG, JPEG, GIF, or WebP)")),
        Some(mime) => Ok(MessageImage::Hydrated(Image { bytes, mime }).downscaled()),
    }
}

/// What viewing an image returns: a note that only the model sees it, with
/// the image attached.
pub fn view_image_result(path: &str, image: MessageImage) -> (r: ToolResultData)
    ensures
        r.deep_view() == (ToolResultDataView {
            actual: "Image '"@ + path@ + "' loaded — shown below. This is for your eyes only: the user has NOT seen this image."@,
            simplified: "Image '"@ + path@ + "' loaded — shown below. This is for your eyes only: the user has NOT seen this image."@,
            image_for_assistant: Some(image.deep_view()),
            metadata: Seq::empty(),
        }),
{
    let note = concat3("Image '", path, "' loaded — shown below. This is for your eyes only: the user has NOT seen this image.");
    let r = ToolResultData { actual: note.clone(), simplified: note, image_for_assistant: Some(image), metadata: Vec::new() };
    assert(r.deep_view().metadata =~= Seq::<(Seq<char>, Seq<char>)>::empty());
    r
}

/// The error for the tools the conversation runtime handles itself.
pub open spec fn runtime_only_view(t: crate::conversation::ToolTypeView) -> Option<Seq<char>> {
    match t {
        crate::conversation::ToolTypeView::SetReminder { .. } =>
            Some("set_reminder is handled by the conversation runtime, not the tool executor"@),
        crate::conversation::ToolTypeView::MetaMalformed { .. } =>
            Some("meta_malformed_tool_call is handled by the conversation runtime, not the tool executor"@),
        _ => None,
    }
}

// ---------------------------------------------------------------------------
// Lines

/// A line without the carriage return of a `\r\n` ending.
pub open spec fn strip_cr(l: Seq<char>) -> Seq<char> {
    if l.len() > 0 && l.last() == '\r' { l.drop_last() } else { l }
}

/// The lines of `s` as `str::lines` gives them: split at `\n` (a `\r` before
/// it dropped), no empty line after a final line break.
pub open spec fn lines_view(s: Seq<char>) -> Seq<Seq<char>>
    decreases s.len(),
{
    if s.len() == 0 {
        Seq::empty()
    } else {
        match find_from(s, "\n"@, 0) {
            Some(i) => {
                proof {
                    lemma_find_from_bounds(s, "\n"@, 0);
                    reveal_strlit("\n");
                }
                seq![strip_cr(s.take(i))] + lines_view(s.skip(i + 1))
            },
            None => seq![s],
        }
    }
}

/// The lines of `v[from..to]` (see [`lines_view`]).
pub fn split_lines(v: &Vec<char>, from: usize, to: usize) -> (r: Vec<String>)
    requires
        from <= to <= v@.len(),
    ensures
        views(r@) == lines_view(v@.subrange(from as int, to as int)),
    decreases to - from,
{
    let ghost s = v@.subrange(from as int, to as int);
    if from == to {
        let r: Vec<String> = Vec::new();
        assert(views(r@) =~= Seq::<Seq<char>>::empty());
        return r;
    }
    let nl = chars_of("\n");
    proof {
        reveal_strlit("\n");
    }
    let sub = string_of(v, from, to);
    let sv = chars_of(sub.as_str());
    assert(sv@ == s);
    proof {
        lemma_find_from_bounds(s, "\n"@, 0);
    }
    match find_in(&sv, &nl, 0) {
        Some(i) => {
            let end = if i > 0 && sv[i - 1] == '\r' { i - 1 } else { i };
            let first = string_of(&sv, 0, end);
            assert(first@ == strip_cr(s.take(i as int))) by {
                if i > 0 && sv@[i - 1] == '\r' {
                    assert(s.take(i as int).drop_last() =~= sv@.subrange(0, end as int));
                } else {
                    assert(s.take(i as int) =~= sv@.subrange(0, end as int));
                }
            }
            let rest = split_lines(v, from + i + 1, to);
            assert(v@.subrange(from + i + 1, to as int) =~= s.skip(i + 1));
            let mut r: Vec<String> = vec![first];
            let mut rest = rest;
            let ghost rv = views(rest@);
            r.append(&mut rest);
            assert(views(r@) =~= seq![first@] + rv);
            r
        },
        None => {
            let r: Vec<String> = vec![sub];
            assert(views(r@) =~= seq![s]);
            r
        },
    }
}

/// `lines` with `prefix` before each.
pub open spec fn prefixed(lines: Seq<Seq<char>>, prefix: Seq<char>) -> Seq<Seq<char>> {
    lines.map_values(|l: Seq<char>| prefix + l)
}

fn push_prefixed(out: &mut Vec<String>, lines: &Vec<String>, from: usize, to: usize, prefix: &str)
    requires
        from <= to <= lines@.len(),
    ensures
        views(final(out)@) == views(old(out)@) + prefixed(views(lines@).subrange(from as int, to as int), prefix@),
{
    let ghost start = views(out@);
    let mut i = from;
    while i < to
        invariant
            from <= i <= to <= lines@.len(),
            views(out@) == start + prefixed(views(lines@).subrange(from as int, i as int), prefix@),
        decreases to - i,
    {
        let ghost prev = views(out@);
        out.push(concat2(prefix, lines[i].as_str()));
        assert(views(out@) =~= prev.push(prefix@ + lines@[i as int]@));
        assert(prefixed(views(lines@).subrange(from as int, i + 1), prefix@)
            =~= prefixed(views(lines@).subrange(from as int, i as int), prefix@).push(prefix@ + lines@[i as int]@));
        i += 1;
    }
}

/// Lines `from` (1-based, at least 1) to `from + count - 1` of `content`,
/// each as `N\tLINE`, joined by newlines.
pub open spec fn numbered_view(content: Seq<char>, from: nat, count: nat) -> Seq<char> {
    let ls = lines_view(content);
    let start = if from == 0 { 0 } else if from - 1 > ls.len() { ls.len() as int } else { from - 1 };
    let end = if start + count > ls.len() { ls.len() as int } else { start + count };
    seq_join(Seq::new((end - start) as nat, |k: int| decimal((start + k + 1) as nat) + "\t"@ + ls[start + k]), "\n"@)
}

/// Numbered lines of `content` (see [`numbered_view`]).
pub fn number_lines(content: &str, from: usize, count: usize) -> (r: String)
    ensures
        r@ == numbered_view(content@, from as nat, count as nat),
{
    let v = chars_of(content);
    let ls = split_lines(&v, 0, v.len());
    assert(v@.subrange(0, v@.len() as int) =~= content@);
    let n = ls.len();
    let start: usize = if from == 0 { 0 } else if from - 1 > n { n } else { from - 1 };
    let end: usize = if count > n - start { n } else { start + count };
    let mut out: Vec<String> = Vec::new();
    let mut k = start;
    while k < end
        invariant
            start <= k <= end <= n == ls@.len(),
            views(ls@) == lines_view(content@),
            out@.len() == k - start,
            forall|j: int| 0 <= j < k - start ==> (#[trigger] out@[j])@ == decimal((start + j + 1) as nat) + "\t"@ + ls@[start + j]@,
        decreases end - k,
    {
        let mut line = String::new();
        push_decimal(&mut line, (k + 1) as u64);
        push_str(&mut line, "\t");
        push_str(&mut line, ls[k].as_str());
        out.push(line);
        k += 1;
    }
    assert(views(out@) =~= Seq::new((end - start) as nat, |k: int| decimal((start + k + 1) as nat) + "\t"@ + lines_view(content@)[start + k]));
    join(&out, "\n")
}

// ---------------------------------------------------------------------------
// Editing

/// How many times `pat` occurs in `t` from `i` on, counted left to right
/// without overlap (an empty pattern occurs at every position), as
/// `str::matches` counts them.
pub open spec fn count_from(t: Seq<char>, pat: Seq<char>, i: int) -> nat
    decreases t.len() + 1 - i,
{
    match find_from(t, pat, i) {
        None => 0,
        Some(j) => {
            proof {
                lemma_find_from_bounds(t, pat, i);
            }
            if j < i { 0 } else { 1 + count_from(t, pat, j + if pat.len() == 0 { 1 } else { pat.len() as int }) }
        },
    }
}

/// `t` with the first occurrence of `old` replaced by `new`.
pub open spec fn replace_first(t: Seq<char>, old: Seq<char>, new: Seq<char>) -> Seq<char> {
    match find_from(t, old, 0) {
        Some(j) => t.take(j) + new + t.skip(j + old.len()),
        None => t,
    }
}


/// `t` with the first occurrence of `old` replaced (see [`replace_first`]).
pub fn replace_once(t: &str, old: &str, new: &str) -> (r: String)
    ensures
        r@ == replace_first(t@, old@, new@),
{
    let v = chars_of(t);
    let o = chars_of(old);
    proof {
        lemma_find_from_bounds(v@, o@, 0);
    }
    match find_in(&v, &o, 0) {
        Some(j) => {
            let mut r = string_of(&v, 0, j);
            push_str(&mut r, new);
            let len = v.len();
            push_chars(&mut r, &v, j + o.len(), v.len());
            assert(r@ =~= v@.take(j as int) + new@ + v@.skip(j + o@.len()));
            r
        },
        None => owned(t),
    }
}

/// The lines around an edit: up to three before the edited lines, the edited
/// lines as they were (`- `) and as they become (`+ `), and up to three after;
/// when `old` is not in `content`, just `old`'s lines removed and `new`'s added.
pub open spec fn diff_view(content: Seq<char>, old: Seq<char>, new: Seq<char>) -> Seq<char> {
    match find_from(content, old, 0) {
        None => seq_join(prefixed(lines_view(old), "- "@) + prefixed(lines_view(new), "+ "@), "\n"@),
        Some(start) => {
            let end = start + old.len();
            let line_start = match last_break_before(content, start) {
                Some(i) => i + 1,
                None => 0,
            };
            let line_end = match find_from(content, "\n"@, end) {
                Some(i) => i,
                None => content.len() as int,
            };
            let old_block = content.subrange(line_start, line_end);
            let new_block = content.subrange(line_start, start) + new + content.subrange(end, line_end);
            let before = lines_view(content.take(line_start));
            let before_ctx = if before.len() > 3 { before.skip(before.len() - 3) } else { before };
            let after = if line_end < content.len() { content.skip(line_end + 1) } else { Seq::empty() };
            let after_lines = lines_view(after);
            let after_ctx = if after_lines.len() > 3 { after_lines.take(3) } else { after_lines };
            seq_join(
                prefixed(before_ctx, "  "@) + prefixed(lines_view(old_block), "- "@)
                    + prefixed(lines_view(new_block), "+ "@) + prefixed(after_ctx, "  "@),
                "\n"@,
            )
        },
    }
}

/// The lines around an edit (see [`diff_view`]).
pub fn render_diff(content: &str, old: &str, new: &str) -> (r: String)
    ensures
        r@ == diff_view(content@, old@, new@),
{
    let v = chars_of(content);
    let o = chars_of(old);
    let len = v.len();
    proof {
        lemma_find_from_bounds(v@, o@, 0);
        reveal_strlit("\n");
    }
    let mut out: Vec<String> = Vec::new();
    match find_in(&v, &o, 0) {
        None => {
            let ol = split_lines(&o, 0, o.len());
            let nv = chars_of(new);
            let nl = split_lines(&nv, 0, nv.len());
            assert(o@.subrange(0, o@.len() as int) =~= old@);
            assert(nv@.subrange(0, nv@.len() as int) =~= new@);
            push_prefixed(&mut out, &ol, 0, ol.len(), "- ");
            push_prefixed(&mut out, &nl, 0, nl.len(), "+ ");
            assert(views(ol@).subrange(0, ol@.len() as int) =~= views(ol@));
            assert(views(nl@).subrange(0, nl@.len() as int) =~= views(nl@));
            assert(views(out@) =~= prefixed(lines_view(old@), "- "@) + prefixed(lines_view(new@), "+ "@));
        },
        Some(start) => {
            let end = start + o.len();
            proof {
                crate::messaging::lemma_last_break_bounds(v@, start as int);
            }
            assert(v@.skip(0) =~= v@);
            let line_start = match crate::messaging::last_break(&v, 0, start) {
                Some(i) => i + 1,
                None => 0,
            };
            assert(v@.skip(0) =~= v@);
            let nlv = chars_of("\n");
            proof {
                lemma_find_from_bounds(v@, "\n"@, end as int);
            }
            let line_end = match find_in(&v, &nlv, end) {
                Some(i) => i,
                None => len,
            };
            let old_block = split_lines(&v, line_start, line_end);
            let mut nb = string_of(&v, line_start, start);
            push_str(&mut nb, new);
            push_chars(&mut nb, &v, end, line_end);
            let nbv = chars_of(nb.as_str());
            let new_block = split_lines(&nbv, 0, nbv.len());
            assert(nbv@.subrange(0, nbv@.len() as int) =~= v@.subrange(line_start as int, start as int) + new@ + v@.subrange(end as int, line_end as int));
            let before = split_lines(&v, 0, line_start);
            assert(v@.subrange(0, line_start as int) =~= v@.take(line_start as int));
            let bn = before.len();
            let bstart: usize = if bn > 3 { bn - 3 } else { 0 };
            push_prefixed(&mut out, &before, bstart, bn, "  ");
            assert(views(before@).subrange(bstart as int, bn as int) =~= (if views(before@).len() > 3 { views(before@).skip(views(before@).len() - 3) } else { views(before@) }));
            push_prefixed(&mut out, &old_block, 0, old_block.len(), "- ");
            assert(views(old_block@).subrange(0, old_block@.len() as int) =~= views(old_block@));
            push_prefixed(&mut out, &new_block, 0, new_block.len(), "+ ");
            assert(views(new_block@).subrange(0, new_block@.len() as int) =~= views(new_block@));
            let after: Vec<String> = if line_end < len {
                let a = split_lines(&v, line_end + 1, len);
                assert(v@.subrange(line_end + 1, len as int) =~= v@.skip(line_end + 1));
                a
            } else {
                let a: Vec<String> = Vec::new();
                assert(views(a@) =~= lines_view(Seq::<char>::empty()));
                a
            };
            let an = after.len();
            let aend: usize = if an > 3 { 3 } else { an };
            push_prefixed(&mut out, &after, 0, aend, "  ");
            assert(views(after@).subrange(0, aend as int) =~= (if views(after@).len() > 3 { views(after@).take(3) } else { views(after@) }));
        },
    }
    join(&out, "\n")
}

/// The hash `std`'s `DefaultHasher` (created with `DefaultHasher::new`, so
/// with fixed keys) gives a string.
pub uninterp spec fn default_hash(content: Seq<char>) -> u64;

/// Hashes `content` with `DefaultHasher::new()` (`str::hash`, then `finish`).
/// The value is named [`default_hash`].
#[verifier::external_body]
fn hash_str(content: &str) -> (r: u64)
    ensures
        r == default_hash(content@),
{
    let mut hasher = std::collections::hash_map::DefaultHasher::new();
    std::hash::Hash::hash(content, &mut hasher);
    std::hash::Hasher::finish(&hasher)
}

/// A file's fingerprint: its hash as sixteen hexadecimal digits.
pub open spec fn content_hash_view(content: Seq<char>) -> Seq<char> {
    hex_fixed(default_hash(content) as nat, 16)
}

/// A file's fingerprint (see [`content_hash_view`]).
pub fn content_hash(content: &str) -> (r: String)
    ensures
        r@ == content_hash_view(content@),
{
    let mut r = String::new();
    push_hex(&mut r, hash_str(content) as u128, 16);
    r
}

/// A result with a file fingerprint recorded under `file_hash`.
pub open spec fn hashed_result(body: Seq<char>, hash: Seq<char>) -> ToolResultDataView {
    ToolResultDataView {
        actual: body,
        simplified: clip_view(body, SIMPLIFIED_MAX as nat),
        image_for_assistant: None,
        metadata: seq![("file_hash"@, hash)],
    }
}

fn hashed(body: String, hash: String) -> (r: ToolResultData)
    ensures
        r.deep_view() == hashed_result(body@, hash@),
{
    let simplified = clip_to(body.as_str(), SIMPLIFIED_MAX);
    let r = ToolResultData { simplified, actual: body, image_for_assistant: None, metadata: vec![(owned("file_hash"), hash)] };
    assert(r.deep_view().metadata =~= seq![("file_hash"@, hash@)]);
    r
}

/// What reading a file returns: the requested lines numbered (from line 1 and
/// to the end unless told otherwise), clipped, or a note when there are none,
/// with the file's fingerprint.
pub open spec fn read_file_view(path: Seq<char>, content: Seq<char>, offset: Option<usize>, limit: Option<usize>) -> ToolResultDataView {
    let from: nat = match offset {
        Some(o) => if o >= 1 { o as nat } else { 1 },
        None => 1,
    };
    let count: nat = match limit {
        Some(l) => l as nat,
        None => usize::MAX as nat,
    };
    let numbered = numbered_view(content, from, count);
    let body = if numbered.len() == 0 {
        "(file '"@ + path + "' is empty, or the requested line range has no lines)"@
    } else {
        clip_view(numbered, ACTUAL_MAX as nat)
    };
    hashed_result(body, content_hash_view(content))
}

/// The result of reading a file (see [`read_file_view`]).
pub fn read_file_result(path: &str, content: &str, offset: Option<usize>, limit: Option<usize>) -> (r: ToolResultData)
    ensures
        r.deep_view() == read_file_view(path@, content@, offset, limit),
{
    let hash = content_hash(content);
    let from: usize = match offset {
        Some(o) => if o >= 1 { o } else { 1 },
        None => 1,
    };
    let count: usize = match limit {
        Some(l) => l,
        None => usize::MAX,
    };
    let numbered = number_lines(content, from, count);
    let body = if numbered.as_str().is_empty() {
        concat3("(file '", path, "' is empty, or the requested line range has no lines)")
    } else {
        clip_to(numbered.as_str(), ACTUAL_MAX)
    };
    hashed(body, hash)
}

/// An edit ready to be written: the file's new content and the result to
/// report once it is written.
pub struct EditPlan {
    pub updated: String,
    pub result: ToolResultData,
}

/// The decision on an edit of `path`, given its current content and the
/// fingerprint recorded when the model last read or edited it: refused when
/// the file was never read, has changed since, or does not hold `old`
/// exactly once; otherwise the new content (`old` replaced by `new`) and the
/// diff to report, fingerprinted by the new content.
pub open spec fn edit_view(
    path: Seq<char>,
    content: Seq<char>,
    old: Seq<char>,
    new: Seq<char>,
    expected_hash: Option<Seq<char>>,
) -> Result<(Seq<char>, ToolResultDataView), Seq<char>> {
    match expected_hash {
        None => Err("'"@ + path + "' hasn't been read yet — call read_file on it before editing."@),
        Some(h) => if h != content_hash_view(content) {
            Err("'"@ + path + "' has changed since you last read it — call read_file on it again before editing."@)
        } else if count_from(content, old, 0) == 0 {
            Err("old_string was not found in '"@ + path + "'. Copy it exactly from read_file output (without the line-number prefixes)."@)
        } else if count_from(content, old, 0) > 1 {
            Err("old_string appears "@ + decimal(count_from(content, old, 0)) + " times in '"@ + path
                + "' — include more surrounding context so it matches exactly once."@)
        } else {
            let updated = replace_first(content, old, new);
            Ok((updated, hashed_result("Edited '"@ + path + "':\n"@ + diff_view(content, old, new), content_hash_view(updated))))
        },
    }
}

/// Counts every occurrence (see [`count_from`]).
fn count_all(v: &Vec<char>, pat: &Vec<char>) -> (r: u128)
    ensures
        r == count_from(v@, pat@, 0),
{
    let mut n: u128 = 0;
    let mut i: usize = 0;
    while i <= v.len()
        invariant
            i <= v@.len() + 1,
            n <= i,
            count_from(v@, pat@, 0) == n + count_from(v@, pat@, i as int),
        decreases v@.len() + 1 - i,
    {
        proof {
            lemma_find_from_bounds(v@, pat@, i as int);
        }
        match find_in(v, pat, i) {
            Some(j) => {
                n += 1;
                if j == v.len() {
                    assert(find_from(v@, pat@, j + 1) is None);
                    assert(count_from(v@, pat@, j + 1) == 0);
                    return n;
                }
                i = j + if pat.len() == 0 { 1 } else { pat.len() };
            },
            None => {
                assert(count_from(v@, pat@, i as int) == 0);
                return n;
            },
        }
    }
    assert(find_from(v@, pat@, i as int) is None);
    assert(count_from(v@, pat@, i as int) == 0);
    n
}

/// The decision on an edit (see [`edit_view`]).
pub fn plan_edit(path: &str, content: &str, old: &str, new: &str, expected_hash: Option<String>) -> (r: Result<EditPlan, String>)
    ensures
        match edit_view(path@, content@, old@, new@, expected_hash.deep_view()) {
            Ok((u, res)) => r matches Ok(p) && p.updated@ == u && p.result.deep_view() == res,
            Err(e) => r matches Err(m) && m@ == e,
        },
{
    let live = content_hash(content);
    match expected_hash {
        None => return Err(concat3("'", path, "' hasn't been read yet — call read_file on it before editing.")),
        Some(h) => {
            if !crate::text::str_eq(h.as_str(), live.as_str()) {
                return Err(concat3("'", path, "' has changed since you last read it — call read_file on it again before editing."));
            }
        },
    }
    let v = chars_of(content);
    let o = chars_of(old);
    let n = count_all(&v, &o);
    if n == 0 {
        return Err(concat3("old_string was not found in '", path, "'. Copy it exactly from read_file output (without the line-number prefixes)."));
    }
    if n > 1 {
        let mut m = owned("old_string appears ");
        crate::text::push_decimal_wide(&mut m, n);
        push_str(&mut m, " times in '");
        push_str(&mut m, path);
        push_str(&mut m, "' — include more surrounding context so it matches exactly once.");
        return Err(m);
    }
    let updated = replace_once(content, old, new);
    let mut body = concat3("Edited '", path, "':\n");
    push_str(&mut body, render_diff(content, old, new).as_str());
    let hash = content_hash(updated.as_str());
    Ok(EditPlan { updated, result: hashed(body, hash) })
}

// ---------------------------------------------------------------------------
// Files pulled for attachment

/// A file pulled from the sandbox to attach to a message.
pub struct PulledFile {
    pub filename: String,
    pub bytes: Vec<u8>,
}

/// `p` without trailing `/`s.
pub open spec fn trim_slashes(p: Seq<char>) -> Seq<char>
    decreases p.len(),
{
    if p.len() > 0 && p.last() == '/' { trim_slashes(p.drop_last()) } else { p }
}

/// The position of the last `/` among the first `n` characters.
pub open spec fn last_slash_before(s: Seq<char>, n: int) -> Option<int>
    decreases n,
{
    if n <= 0 || n > s.len() {
        None
    } else if s[n - 1] == '/' {
        Some(n - 1)
    } else {
        last_slash_before(s, n - 1)
    }
}

/// The name a pulled file is attached under: the last non-empty `/`-separated
/// part of its path, or `attachment` when there is none.
pub open spec fn attachment_name(path: Seq<char>) -> Seq<char> {
    let t = trim_slashes(path);
    if t.len() == 0 {
        "attachment"@
    } else {
        match last_slash_before(t, t.len() as int) {
            Some(i) => t.skip(i + 1),
            None => t,
        }
    }
}

pub proof fn lemma_last_slash_bounds(s: Seq<char>, n: int)
    ensures
        last_slash_before(s, n) matches Some(i) ==> 0 <= i < n,
    decreases n,
{
    if 0 < n <= s.len() && s[n - 1] != '/' {
        lemma_last_slash_bounds(s, n - 1);
    }
}

fn attachment_name_of(path: &str) -> (r: String)
    ensures
        r@ == attachment_name(path@),
{
    let v = chars_of(path);
    let mut end = v.len();
    assert(v@.take(v@.len() as int) =~= v@);
    while end > 0 && v[end - 1] == '/'
        invariant
            end <= v@.len(),
            trim_slashes(path@) == trim_slashes(v@.take(end as int)),
            v@ == path@,
        decreases end,
    {
        assert(v@.take(end as int).drop_last() =~= v@.take(end - 1));
        end -= 1;
    }
    let ghost t = v@.take(end as int);
    assert(trim_slashes(t) == t);
    if end == 0 {
        return owned("attachment");
    }
    let mut k = end;
    while k > 0 && v[k - 1] != '/'
        invariant
            k <= end <= v@.len(),
            t == v@.take(end as int),
            last_slash_before(t, end as int) == last_slash_before(t, k as int),
        decreases k,
    {
        k -= 1;
    }
    proof {
        lemma_last_slash_bounds(t, end as int);
    }
    if k == 0 {
        string_of(&v, 0, end)
    } else {
        let r = string_of(&v, k, end);
        assert(r@ =~= t.skip(k as int));
        r
    }
}

/// A file pulled for attachment: refused when empty or over
/// [`MAX_ATTACHMENT_BYTES`], named by [`attachment_name`] otherwise.
pub fn pulled_file(path: &str, bytes: Vec<u8>) -> (r: Result<PulledFile, String>)
    ensures
        bytes@.len() == 0 ==> (r matches Err(e) && e@ == "'"@ + path@ + "' is empty — nothing to attach"@),
        bytes@.len() > MAX_ATTACHMENT_BYTES ==> (r matches Err(e) && e@ == "'"@ + path@ + "' is "@
            + decimal(bytes@.len()) + " bytes, over the 8388608-byte attachment limit"@),
        0 < bytes@.len() <= MAX_ATTACHMENT_BYTES ==> (r matches Ok(f) && f.bytes@ == bytes@
            && f.filename@ == attachment_name(path@)),
{
    if bytes.len() == 0 {
        return Err(concat3("'", path, "' is empty — nothing to attach"));
    }
    if bytes.len() > MAX_ATTACHMENT_BYTES {
        let mut m = concat3("'", path, "' is ");
        push_decimal(&mut m, bytes.len() as u64);
        push_str(&mut m, " bytes, over the 8388608-byte attachment limit");
        return Err(m);
    }
    Ok(PulledFile { filename: attachment_name_of(path), bytes })
}

// ---------------------------------------------------------------------------
// Byte-bounded prefixes

/// How many bytes UTF-8 takes for `c`.
pub open spec fn utf8_len(c: char) -> nat {
    let u = c as u32;
    if u < 0x80 { 1 } else if u < 0x800 { 2 } else if u < 0x10000 { 3 } else { 4 }
}

/// How many leading characters of `s` fit in `n` bytes of UTF-8: the prefix
/// `str::floor_char_boundary(n)` cuts at.
pub open spec fn fitting_chars(s: Seq<char>, n: int) -> nat
    decreases s.len(),
{
    if s.len() == 0 || (utf8_len(s[0]) as int) > n {
        0
    } else {
        1 + fitting_chars(s.drop_first(), n - utf8_len(s[0]))
    }
}

pub proof fn lemma_fitting_le(s: Seq<char>, n: int)
    ensures
        fitting_chars(s, n) <= s.len(),
    decreases s.len(),
{
    if s.len() > 0 && (utf8_len(s[0]) as int) <= n {
        lemma_fitting_le(s.drop_first(), n - utf8_len(s[0]));
    }
}

/// The longest prefix of `s` that fits in `n` bytes.
pub open spec fn byte_prefix(s: Seq<char>, n: int) -> Seq<char> {
    s.take(fitting_chars(s, n) as int)
}

fn utf8_width(c: char) -> (r: usize)
    ensures
        r == utf8_len(c),
{
    let u = c as u32;
    if u < 0x80 { 1 } else if u < 0x800 { 2 } else if u < 0x10000 { 3 } else { 4 }
}

/// The longest prefix of `s` that fits in `n` bytes (see [`byte_prefix`]).
pub fn prefix_within(s: &str, n: usize) -> (r: String)
    ensures
        r@ == byte_prefix(s@, n as int),
{
    let v = chars_of(s);
    let mut k: usize = 0;
    let mut left: usize = n;
    assert(v@.skip(0) =~= v@);
    assert(fitting_chars(v@.skip(0), n as int) == fitting_chars(s@, n as int));
    while k < v.len() && utf8_width(v[k]) <= left
        invariant
            k <= v@.len(),
            left <= n,
            v@ == s@,
            fitting_chars(s@, n as int) == k + fitting_chars(v@.skip(k as int), left as int),
        decreases v@.len() - k,
    {
        assert(v@.skip(k as int).drop_first() =~= v@.skip(k + 1));
        left -= utf8_width(v[k]);
        k += 1;
    }
    string_of(&v, 0, k)
}

// ---------------------------------------------------------------------------
// Web search and pages

/// Most results a search shows.
pub const MAX_SEARCH_RESULTS: usize = 8;

/// How many results the simplified record keeps.
pub const SIMPLIFIED_SEARCH_RESULTS: usize = 3;

/// One search hit; absent fields read `null`.
pub struct SearchHit {
    pub title: Option<String>,
    pub url: Option<String>,
    pub content: Option<String>,
    pub published_date: Option<String>,
}

/// A search engine's infobox.
pub struct SearchInfobox {
    pub infobox: Option<String>,
    pub content: Option<String>,
}

/// What the search engine answered: the query it ran, instant answers,
/// infoboxes and hits.
pub struct SearchResponse {
    pub query: String,
    pub answers: Vec<Option<String>>,
    pub infoboxes: Vec<SearchInfobox>,
    pub results: Vec<SearchHit>,
}

/// Model of a [`SearchHit`]: title, url, content, published date.
pub type SearchHitView = (Option<Seq<char>>, Option<Seq<char>>, Option<Seq<char>>, Option<Seq<char>>);

/// A field, or `null` when absent.
pub open spec fn or_null(f: Option<Seq<char>>) -> Seq<char> {
    match f {
        Some(t) => t,
        None => "null"@,
    }
}

/// One hit as listed: title, link, publication date when known, and the
/// description cut to [`crate::conversation::MAX_SEARCH_DESCRIPTION_LENGTH`] bytes.
pub open spec fn hit_text(h: SearchHitView) -> Seq<char> {
    let published = match h.3 {
        Some(d) => if d.len() > 0 { "Published: "@ + d + "\n"@ } else { Seq::empty() },
        None => Seq::empty(),
    };
    "Title: "@ + or_null(h.0) + "\nURL to visit: "@ + or_null(h.1) + "\n"@ + published + "Description: "@
        + byte_prefix(or_null(h.2), crate::conversation::MAX_SEARCH_DESCRIPTION_LENGTH as int) + "\n\n"@
}

/// The lines that lead a search result: each non-empty instant answer, then
/// the first infobox when it has content.
pub open spec fn search_lead(answers: Seq<Option<Seq<char>>>, infobox: Option<(Option<Seq<char>>, Option<Seq<char>>)>) -> Seq<char>
    decreases answers.len(),
{
    if answers.len() == 0 {
        match infobox {
            Some((title, Some(c))) => if c.len() > 0 {
                (match title { Some(t) => t, None => "Info"@ }) + ": "@ + c + "\n\n"@
            } else {
                Seq::empty()
            },
            _ => Seq::empty(),
        }
    } else {
        (match answers[0] {
            Some(a) => if a.len() > 0 { "Instant answer: "@ + a + "\n\n"@ } else { Seq::empty() },
            None => Seq::empty(),
        }) + search_lead(answers.drop_first(), infobox)
    }
}

/// A search's result: the lead and the first three hits make the simplified
/// record; the full text adds the rest of the first eight.
pub open spec fn search_view(
    query: Seq<char>,
    answers: Seq<Option<Seq<char>>>,
    infobox: Option<(Option<Seq<char>>, Option<Seq<char>>)>,
    hits: Seq<SearchHitView>,
) -> ToolResultDataView {
    let shown = if hits.len() > MAX_SEARCH_RESULTS { hits.take(MAX_SEARCH_RESULTS as int) } else { hits };
    let texts = shown.map_values(|h: SearchHitView| hit_text(h));
    let split = if texts.len() > SIMPLIFIED_SEARCH_RESULTS { SIMPLIFIED_SEARCH_RESULTS as int } else { texts.len() as int };
    let simplified = search_lead(answers, infobox) + "Search results for \""@ + query + "\":\n"@
        + seq_join(texts.take(split), "\n"@);
    text_result(simplified + "\n"@ + seq_join(texts.skip(split), "\n"@), simplified)
}

fn or_null_str(f: &Option<String>) -> (r: &str)
    ensures
        r@ == or_null(f.deep_view()),
{
    match f {
        Some(t) => t.as_str(),
        None => "null",
    }
}

fn hit_line(h: &SearchHit) -> (r: String)
    ensures
        r@ == hit_text((h.title.deep_view(), h.url.deep_view(), h.content.deep_view(), h.published_date.deep_view())),
{
    let mut r = owned("Title: ");
    push_str(&mut r, or_null_str(&h.title));
    push_str(&mut r, "\nURL to visit: ");
    push_str(&mut r, or_null_str(&h.url));
    push_str(&mut r, "\n");
    match &h.published_date {
        Some(d) => if !d.as_str().is_empty() {
            push_str(&mut r, "Published: ");
            push_str(&mut r, d.as_str());
            push_str(&mut r, "\n");
        },
        None => {},
    }
    push_str(&mut r, "Description: ");
    push_str(&mut r, prefix_within(or_null_str(&h.content), crate::conversation::MAX_SEARCH_DESCRIPTION_LENGTH).as_str());
    push_str(&mut r, "\n\n");
    r
}

/// The model of a response's first infobox.
pub open spec fn first_infobox(boxes: Seq<SearchInfobox>) -> Option<(Option<Seq<char>>, Option<Seq<char>>)> {
    if boxes.len() == 0 { None } else { Some((boxes[0].infobox.deep_view(), boxes[0].content.deep_view())) }
}

impl SearchResponse {
    /// The result a search returns (see [`search_view`]).
    pub fn to_result(&self) -> (r: ToolResultData)
        ensures
            r.deep_view() == search_view(
                self.query@,
                self.answers.deep_view(),
                first_infobox(self.infoboxes@),
                self.results@.map_values(|h: SearchHit| (h.title.deep_view(), h.url.deep_view(), h.content.deep_view(), h.published_date.deep_view())),
            ),
    {
        let ghost answers = self.answers.deep_view();
        let ghost ib = first_infobox(self.infoboxes@);
        let mut lead = String::new();
        let mut i: usize = 0;
        assert(answers.skip(0) =~= answers);
        while i < self.answers.len()
            invariant
                i <= self.answers@.len(),
                answers == self.answers.deep_view(),
                search_lead(answers, ib) == lead@ + search_lead(answers.skip(i as int), ib),
            decreases self.answers@.len() - i,
        {
            assert(answers.skip(i as int).drop_first() =~= answers.skip(i + 1));
            let ghost before = lead@;
            match &self.answers[i] {
                Some(a) => if !a.as_str().is_empty() {
                    push_str(&mut lead, "Instant answer: ");
                    push_str(&mut lead, a.as_str());
                    push_str(&mut lead, "\n\n");
                },
                None => {},
            }
            assert(before + search_lead(answers.skip(i as int), ib) =~= lead@ + search_lead(answers.skip(i + 1), ib));
            i += 1;
        }
        let ghost before_box = lead@;
        if self.infoboxes.len() > 0 {
            let b = &self.infoboxes[0];
            match &b.content {
                Some(c) => if !c.as_str().is_empty() {
                    let title: &str = match &b.infobox {
                        Some(t) => t.as_str(),
                        None => "Info",
                    };
                    push_str(&mut lead, title);
                    push_str(&mut lead, ": ");
                    push_str(&mut lead, c.as_str());
                    push_str(&mut lead, "\n\n");
                },
                None => {},
            }
        }
        assert(lead@ =~= search_lead(answers, ib));
        let ghost hits = self.results@.map_values(|h: SearchHit| (h.title.deep_view(), h.url.deep_view(), h.content.deep_view(), h.published_date.deep_view()));
        let n: usize = if self.results.len() > MAX_SEARCH_RESULTS { MAX_SEARCH_RESULTS } else { self.results.len() };
        let mut texts: Vec<String> = Vec::new();
        let mut k: usize = 0;
        while k < n
            invariant
                k <= n <= self.results@.len(),
                hits == self.results@.map_values(|h: SearchHit| (h.title.deep_view(), h.url.deep_view(), h.content.deep_view(), h.published_date.deep_view())),
                texts@.len() == k,
                forall|j: int| 0 <= j < k ==> (#[trigger] texts@[j])@ == hit_text(hits[j]),
            decreases n - k,
        {
            texts.push(hit_line(&self.results[k]));
            k += 1;
        }
        let ghost shown = if hits.len() > MAX_SEARCH_RESULTS { hits.take(MAX_SEARCH_RESULTS as int) } else { hits };
        assert(views(texts@) =~= shown.map_values(|h: SearchHitView| hit_text(h)));
        let split: usize = if n > SIMPLIFIED_SEARCH_RESULTS { SIMPLIFIED_SEARCH_RESULTS } else { n };
        let mut primary: Vec<String> = Vec::new();
        let mut secondary: Vec<String> = Vec::new();
        let mut j: usize = 0;
        while j < n
            invariant
                j <= n == texts@.len(),
                split <= n,
                j <= split ==> primary@.len() == j && secondary@.len() == 0,
                j > split ==> primary@.len() == split && secondary@.len() == j - split,
                forall|m: int| 0 <= m < primary@.len() ==> (#[trigger] primary@[m])@ == texts@[m]@,
                forall|m: int| 0 <= m < secondary@.len() ==> (#[trigger] secondary@[m])@ == texts@[split + m]@,
            decreases n - j,
        {
            if j < split {
                primary.push(texts[j].clone());
            } else {
                secondary.push(texts[j].clone());
            }
            j += 1;
        }
        assert(views(primary@) =~= views(texts@).take(split as int));
        assert(views(secondary@) =~= views(texts@).skip(split as int));
        let mut simplified = lead;
        push_str(&mut simplified, "Search results for \"");
        push_str(&mut simplified, self.query.as_str());
        push_str(&mut simplified, "\":\n");
        push_str(&mut simplified, join(&primary, "\n").as_str());
        let mut actual = simplified.clone();
        push_str(&mut actual, "\n");
        push_str(&mut actual, join(&secondary, "\n").as_str());
        ToolResultData::text(actual, simplified)
    }
}

/// Most bytes of a page the model is shown in full.
pub const MAX_ACTUAL_WEB_CONTENT_LENGTH: usize = 50000;

/// Most bytes of a page kept in the simplified record.
pub const MAX_SIMPLIFIED_WEB_CONTENT_LENGTH: usize = 2000;

/// What visiting a page returns: its readable text, cut to a byte budget for
/// each record, under a heading naming the URL.
pub open spec fn page_view(url: Seq<char>, content: Seq<char>) -> ToolResultDataView {
    text_result(
        "Content of "@ + url + ":\n"@ + byte_prefix(content, MAX_ACTUAL_WEB_CONTENT_LENGTH as int),
        "Content of "@ + url + ":\n"@ + byte_prefix(content, MAX_SIMPLIFIED_WEB_CONTENT_LENGTH as int),
    )
}

/// The result of visiting a page (see [`page_view`]).
pub fn page_result(url: &str, content: &str) -> (r: ToolResultData)
    ensures
        r.deep_view() == page_view(url@, content@),
{
    let mut actual = concat3("Content of ", url, ":\n");
    push_str(&mut actual, prefix_within(content, MAX_ACTUAL_WEB_CONTENT_LENGTH).as_str());
    let mut simplified = concat3("Content of ", url, ":\n");
    push_str(&mut simplified, prefix_within(content, MAX_SIMPLIFIED_WEB_CONTENT_LENGTH).as_str());
    ToolResultData::text(actual, simplified)
}

/// What `rs_trafilatura::extract` makes of an HTML page: its main text
/// (`content_text`), or the message of its error.
pub uninterp spec fn extracted_text(html: Seq<char>) -> Result<Seq<char>, Seq<char>>;

/// Extracts a page's main text (`rs_trafilatura::extract`, then
/// `content_text`); an error gives its message. The outcome is named
/// [`extracted_text`].
#[verifier::external_body]
fn extract_text(html: &str) -> (r: Result<String, String>)
    ensures
        match extracted_text(html@) {
            Ok(t) => r matches Ok(s) && s@ == t,
            Err(e) => r matches Err(s) && s@ == e,
        },
{
    match rs_trafilatura::extract(html) {
        Ok(page) => Ok(page.content_text),
        Err(e) => Err(e.to_string()),
    }
}

/// The result of visiting a page, given its HTML (see [`page_view`]); the
/// extractor's error when it finds no text.
pub fn page_from_html(url: &str, html: &str) -> (r: Result<ToolResultData, String>)
    ensures
        match extracted_text(html@) {
            Ok(t) => r matches Ok(d) && d.deep_view() == page_view(url@, t),
            Err(e) => r matches Err(m) && m@ == e,
        },
{
    match extract_text(html) {
        Ok(t) => Ok(page_result(url, t.as_str())),
        Err(e) => Err(e),
    }
}

/// Editing a file that was read and has not changed since goes through
/// exactly when the old text occurs in it once: the fingerprint the read
/// records is the one the edit checks against.
pub proof fn law_read_then_edit(
    path: Seq<char>,
    content: Seq<char>,
    old: Seq<char>,
    new: Seq<char>,
    offset: Option<usize>,
    limit: Option<usize>,
)
    ensures
        edit_view(path, content, old, new, crate::conversation::assoc_get(read_file_view(path, content, offset, limit).metadata, "file_hash"@))
            is Ok <==> count_from(content, old, 0) == 1,
{
}

/// An edit records the fingerprint of the text it wrote, so a further edit
/// of that text goes through without another read exactly when its old text
/// occurs in it once.
pub proof fn law_edit_then_edit(
    path: Seq<char>,
    content: Seq<char>,
    old: Seq<char>,
    new: Seq<char>,
    expected_hash: Option<Seq<char>>,
    next_old: Seq<char>,
    next_new: Seq<char>,
)
    requires
        edit_view(path, content, old, new, expected_hash) is Ok,
    ensures
        ({
            let (updated, result) = edit_view(path, content, old, new, expected_hash)->Ok_0;
            edit_view(path, updated, next_old, next_new, crate::conversation::assoc_get(result.metadata, "file_hash"@))
                is Ok <==> count_from(updated, next_old, 0) == 1
        }),
{
}

/// An edit of a file that was never read, or that changed since it was
/// read, is refused.
pub proof fn law_edit_needs_fresh_read(
    path: Seq<char>,
    content: Seq<char>,
    old: Seq<char>,
    new: Seq<char>,
    expected_hash: Option<Seq<char>>,
)
    requires
        !(expected_hash == Some(content_hash_view(content))),
    ensures
        edit_view(path, content, old, new, expected_hash) is Err,
{
}

} // verus!
