//! Web pages as the hive bot hands them to its model: the first candidate
//! block of the page with substantial text (or the whole page), its lines
//! trimmed with the blank ones dropped, cut to [`PAGE_CHAR_LIMIT`]
//! characters, under the page's URL.

use vstd::prelude::*;
use crate::text::{chars_of, decimal, join, owned, push_str, seq_join, trim, trim_str, usize_to_string, views};
use crate::tool_exec::{lines_view, split_lines, utf8_len};

verus! {

/// How many characters of a page's text the model is given.
pub const PAGE_CHAR_LIMIT: usize = 8000;

/// How many bytes of UTF-8 a candidate block's text must exceed to be taken.
pub const SUBSTANTIAL_BYTES: usize = 100;

/// The trimmed lines of `ls` that are not blank, in order.
pub open spec fn kept_lines(ls: Seq<Seq<char>>) -> Seq<Seq<char>>
    decreases ls.len(),
{
    if ls.len() == 0 {
        Seq::empty()
    } else if trim(ls.last()).len() > 0 {
        kept_lines(ls.drop_last()).push(trim(ls.last()))
    } else {
        kept_lines(ls.drop_last())
    }
}

/// `s` with each line trimmed and the blank lines dropped, the lines joined
/// by line breaks.
pub open spec fn cleaned_text(s: Seq<char>) -> Seq<char> {
    seq_join(kept_lines(lines_view(s)), "\n"@)
}

/// How many bytes `s` takes in UTF-8.
pub open spec fn utf8_size(s: Seq<char>) -> nat
    decreases s.len(),
{
    if s.len() == 0 { 0 } else { utf8_size(s.drop_last()) + utf8_len(s.last()) }
}

/// The text a page yields: the first candidate block whose cleaned text
/// exceeds [`SUBSTANTIAL_BYTES`] bytes, cleaned; the fallback (the whole
/// page's text) as it is when none does.
pub open spec fn chosen_text(candidates: Seq<Seq<char>>, fallback: Seq<char>) -> Seq<char>
    decreases candidates.len(),
{
    if candidates.len() == 0 {
        fallback
    } else if utf8_size(cleaned_text(candidates[0])) > SUBSTANTIAL_BYTES {
        cleaned_text(candidates[0])
    } else {
        chosen_text(candidates.drop_first(), fallback)
    }
}

/// What the model is given for the page at `url` whose text is `text`: the
/// URL, then the cleaned text, cut after [`PAGE_CHAR_LIMIT`] characters with
/// a note of its full length.
pub open spec fn page_report_view(url: Seq<char>, text: Seq<char>) -> Seq<char> {
    let c = cleaned_text(text);
    "URL: "@ + url + "\n\nContent:\n"@ + if c.len() > PAGE_CHAR_LIMIT {
        c.take(PAGE_CHAR_LIMIT as int) + "...\n\n[Content truncated - original length: "@ + decimal(c.len()) + " characters]"@
    } else {
        c
    }
}

/// The cleaned text of `s` (see [`cleaned_text`]).
pub fn clean_text(s: &str) -> (r: String)
    ensures
        r@ == cleaned_text(s@),
{
    let v = chars_of(s);
    let lines = split_lines(&v, 0, v.len());
    assert(v@.subrange(0, v@.len() as int) =~= s@);
    let ghost ls = lines_view(s@);
    let mut kept: Vec<String> = Vec::new();
    let mut i: usize = 0;
    while i < lines.len()
        invariant
            i <= lines.len(),
            views(lines@) == ls,
            views(kept@) == kept_lines(ls.take(i as int)),
        decreases lines.len() - i,
    {
        assert(ls.take(i + 1).drop_last() =~= ls.take(i as int));
        assert(ls.take(i + 1).last() == lines@[i as int]@);
        let t = trim_str(lines[i].as_str());
        if chars_of(t.as_str()).len() > 0 {
            let ghost before = views(kept@);
            kept.push(t);
            assert(views(kept@) =~= before.push(t@));
        }
        i += 1;
    }
    assert(ls.take(lines.len() as int) =~= ls);
    join(&kept, "\n")
}

proof fn lemma_utf8_size_prefix(s: Seq<char>, i: int)
    requires
        0 <= i <= s.len(),
    ensures
        utf8_size(s.take(i)) <= utf8_size(s),
    decreases s.len() - i,
{
    if i < s.len() {
        lemma_utf8_size_prefix(s, i + 1);
        assert(s.take(i + 1).drop_last() =~= s.take(i));
    } else {
        assert(s.take(i) =~= s);
    }
}

/// Whether `s` takes more than `n` bytes in UTF-8.
fn exceeds_bytes(s: &str, n: usize) -> (r: bool)
    requires
        n <= SUBSTANTIAL_BYTES,
    ensures
        r == (utf8_size(s@) > n),
{
    let v = chars_of(s);
    let mut size: usize = 0;
    let mut i: usize = 0;
    while i < v.len()
        invariant
            i <= v.len(),
            n <= SUBSTANTIAL_BYTES,
            v@ == s@,
            size == utf8_size(v@.take(i as int)),
            size <= n,
        decreases v.len() - i,
    {
        assert(v@.take(i + 1).drop_last() =~= v@.take(i as int));
        let u = v[i] as u32;
        let w: usize = if u < 0x80 { 1 } else if u < 0x800 { 2 } else if u < 0x10000 { 3 } else { 4 };
        size = size + w;
        i += 1;
        if size > n {
            proof { lemma_utf8_size_prefix(v@, i as int); }
            return true;
        }
    }
    assert(v@.take(v.len() as int) =~= v@);
    false
}

/// The text a page yields (see [`chosen_text`]).
pub fn choose_page_text(candidates: &Vec<String>, fallback: &str) -> (r: String)
    ensures
        r@ == chosen_text(views(candidates@), fallback@),
{
    let ghost cs = views(candidates@);
    assert(cs.skip(0) =~= cs);
    let mut i: usize = 0;
    while i < candidates.len()
        invariant
            i <= candidates.len(),
            cs == views(candidates@),
            chosen_text(cs, fallback@) == chosen_text(cs.skip(i as int), fallback@),
        decreases candidates.len() - i,
    {
        let c = clean_text(candidates[i].as_str());
        assert(cs.skip(i as int)[0] == candidates@[i as int]@);
        assert(cs.skip(i as int).drop_first() =~= cs.skip(i + 1));
        if exceeds_bytes(c.as_str(), SUBSTANTIAL_BYTES) {
            return c;
        }
        i += 1;
    }
    assert(cs.skip(candidates.len() as int) =~= Seq::<Seq<char>>::empty());
    owned(fallback)
}

/// What the model is given for a page (see [`page_report_view`]).
pub fn page_report(url: &str, text: &str) -> (r: String)
    ensures
        r@ == page_report_view(url@, text@),
{
    let c = clean_text(text);
    let cv = chars_of(c.as_str());
    let mut r = owned("URL: ");
    push_str(&mut r, url);
    push_str(&mut r, "\n\nContent:\n");
    if cv.len() > PAGE_CHAR_LIMIT {
        crate::text::push_chars(&mut r, &cv, 0, PAGE_CHAR_LIMIT);
        assert(cv@.subrange(0, PAGE_CHAR_LIMIT as int) =~= cv@.take(PAGE_CHAR_LIMIT as int));
        push_str(&mut r, "...\n\n[Content truncated - original length: ");
        push_str(&mut r, usize_to_string(cv.len()).as_str());
        push_str(&mut r, " characters]");
    } else {
        push_str(&mut r, c.as_str());
    }
    r
}

} // verus!
