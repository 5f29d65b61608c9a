//! Character-level string utilities shared by the rest of the library.
//!
//! Strings are reasoned about through their `Seq<char>` views; every function
//! here states its result over those views.

use vstd::prelude::*;
use vstd::string::*;

verus! {

/// Appends one character to a `String` (std's `String::push`).
#[verifier::external_body]
pub(crate) fn push_char(s: &mut String, c: char)
    ensures
        final(s)@ == old(s)@.push(c),
{
    s.push(c)
}

/// Appends the characters of `t` to `s`.
pub fn push_str(s: &mut String, t: &str)
    ensures
        final(s)@ == old(s)@ + t@,
{
    s.append(t);
}

/// The characters of `s`, in order.
pub fn chars_of(s: &str) -> (v: Vec<char>)
    ensures
        v@ == s@,
{
    let mut v: Vec<char> = Vec::new();
    for c in it: s.chars()
        invariant
            it.seq() == s@,
            v@ == it.seq().take(it.index() as int),
    {
        v.push(c);
    }
    v
}

/// Appends the characters of `v[from..to]` to `s`.
pub fn push_chars(s: &mut String, v: &Vec<char>, from: usize, to: usize)
    requires
        from <= to <= v@.len(),
    ensures
        final(s)@ == old(s)@ + v@.subrange(from as int, to as int),
{
    let mut i = from;
    while i < to
        invariant
            from <= i <= to <= v@.len(),
            s@ == old(s)@ + v@.subrange(from as int, i as int),
        decreases to - i,
    {
        assert(v@.subrange(from as int, i + 1) =~= v@.subrange(from as int, i as int).push(v@[i as int]));
        push_char(s, v[i]);
        i += 1;
    }
}

/// A `String` holding exactly the characters of `v[from..to]`.
pub fn string_of(v: &Vec<char>, from: usize, to: usize) -> (r: String)
    requires
        from <= to <= v@.len(),
    ensures
        r@ == v@.subrange(from as int, to as int),
{
    let mut r = String::new();
    push_chars(&mut r, v, from, to);
    r
}

/// Owned copy of a string slice.
pub fn owned(s: &str) -> (r: String)
    ensures
        r@ == s@,
{
    let mut r = String::new();
    r.append(s);
    r
}

/// Concatenation of two views.
pub fn concat2(a: &str, b: &str) -> (r: String)
    ensures
        r@ == a@ + b@,
{
    let mut r = owned(a);
    r.append(b);
    r
}

/// Concatenation of three views.
pub fn concat3(a: &str, b: &str, c: &str) -> (r: String)
    ensures
        r@ == a@ + b@ + c@,
{
    let mut r = owned(a);
    r.append(b);
    r.append(c);
    r
}

/// The decimal digit character for `d < 10`.
pub open spec fn digit_char(d: nat) -> char {
    ((48 + d) as u32) as char
}

/// Decimal rendering of a natural number, most significant digit first, no
/// leading zeros (`0` renders as `"0"`).
pub open spec fn decimal(n: nat) -> Seq<char>
    decreases n,
{
    if n < 10 {
        seq![digit_char(n)]
    } else {
        decimal(n / 10).push(digit_char(n % 10))
    }
}

/// Decimal rendering of a signed integer: a `-` before the magnitude when negative.
pub open spec fn signed_decimal(n: int) -> Seq<char> {
    if n < 0 {
        seq!['-'] + decimal((-n) as nat)
    } else {
        decimal(n as nat)
    }
}

fn digit(d: u64) -> (c: char)
    requires
        d < 10,
    ensures
        c == digit_char(d as nat),
{
    let b: u8 = 48u8 + (d as u8);
    b as char
}

/// Appends the decimal rendering of `n` to `s`.
pub fn push_decimal(s: &mut String, n: u64)
    ensures
        final(s)@ == old(s)@ + decimal(n as nat),
    decreases n,
{
    if n >= 10 {
        push_decimal(s, n / 10);
    }
    push_char(s, digit(n % 10));
    assert(final(s)@ =~= old(s)@ + decimal(n as nat));
}

/// Appends the decimal rendering of a 128-bit `n` to `s`.
pub fn push_decimal_wide(s: &mut String, n: u128)
    ensures
        final(s)@ == old(s)@ + decimal(n as nat),
    decreases n,
{
    if n >= 10 {
        push_decimal_wide(s, n / 10);
    }
    push_char(s, digit((n % 10) as u64));
    assert(final(s)@ =~= old(s)@ + decimal(n as nat));
}

/// The decimal rendering of `n`, as `n.to_string()` gives it.
pub fn usize_to_string(n: usize) -> (r: String)
    ensures
        r@ == decimal(n as nat),
{
    let mut r = String::new();
    push_decimal(&mut r, n as u64);
    assert(r@ =~= decimal(n as nat));
    r
}

/// The decimal rendering of `n`, as `n.to_string()` gives it.
pub fn i64_to_string(n: i64) -> (r: String)
    ensures
        r@ == signed_decimal(n as int),
{
    let mut r = String::new();
    if n < 0 {
        push_char(&mut r, '-');
        let m: u64 = if n == i64::MIN { 9223372036854775808u64 } else { (-n) as u64 };
        push_decimal(&mut r, m);
    } else {
        push_decimal(&mut r, n as u64);
    }
    assert(r@ =~= signed_decimal(n as int));
    r
}


/// `parts` joined with `sep` between consecutive elements.
pub open spec fn seq_join(parts: Seq<Seq<char>>, sep: Seq<char>) -> Seq<char>
    decreases parts.len(),
{
    if parts.len() == 0 {
        Seq::empty()
    } else if parts.len() == 1 {
        parts[0]
    } else {
        seq_join(parts.drop_last(), sep) + sep + parts.last()
    }
}

/// The views of a vector of strings.
pub open spec fn views(v: Seq<String>) -> Seq<Seq<char>> {
    v.map_values(|s: String| s@)
}

/// `parts` joined with `sep`, as `parts.join(sep)` gives it.
pub fn join(parts: &Vec<String>, sep: &str) -> (r: String)
    ensures
        r@ == seq_join(views(parts@), sep@),
{
    let mut r = String::new();
    let ghost vs = views(parts@);
    let mut i: usize = 0;
    while i < parts.len()
        invariant
            i <= parts.len(),
            vs == views(parts@),
            r@ == seq_join(vs.take(i as int), sep@),
        decreases parts.len() - i,
    {
        assert(vs.take(i + 1).drop_last() =~= vs.take(i as int));
        if i != 0 {
            r.append(sep);
        }
        r.append(parts[i].as_str());
        assert(vs.take(i + 1).last() == parts@[i as int]@);
        i += 1;
    }
    assert(vs.take(parts.len() as int) =~= vs);
    r
}

/// Unicode `White_Space`, the set that `char::is_whitespace` and `str::trim` use.
pub open spec fn is_ws(c: char) -> bool {
    let u = c as u32;
    (0x09 <= u && u <= 0x0d) || u == 0x20 || u == 0x85 || u == 0xa0 || u == 0x1680
        || (0x2000 <= u && u <= 0x200a) || u == 0x2028 || u == 0x2029 || u == 0x202f
        || u == 0x205f || u == 0x3000
}

/// `char::is_whitespace`.
pub fn is_whitespace(c: char) -> (b: bool)
    ensures
        b == is_ws(c),
{
    let u = c as u32;
    (0x09 <= u && u <= 0x0d) || u == 0x20 || u == 0x85 || u == 0xa0 || u == 0x1680
        || (0x2000 <= u && u <= 0x200a) || u == 0x2028 || u == 0x2029 || u == 0x202f
        || u == 0x205f || u == 0x3000
}

/// `s` with leading whitespace removed.
pub open spec fn trim_start(s: Seq<char>) -> Seq<char>
    decreases s.len(),
{
    if s.len() > 0 && is_ws(s[0]) {
        trim_start(s.drop_first())
    } else {
        s
    }
}

/// `s` with trailing whitespace removed.
pub open spec fn trim_end(s: Seq<char>) -> Seq<char>
    decreases s.len(),
{
    if s.len() > 0 && is_ws(s.last()) {
        trim_end(s.drop_last())
    } else {
        s
    }
}

/// `s` with leading and trailing whitespace removed, as `str::trim` gives it.
pub open spec fn trim(s: Seq<char>) -> Seq<char> {
    trim_end(trim_start(s))
}

/// Index of the first non-whitespace character of `v[from..to]` (or `to`).
fn first_non_ws(v: &Vec<char>, from: usize, to: usize) -> (i: usize)
    requires
        from <= to <= v@.len(),
    ensures
        from <= i <= to,
        trim_start(v@.subrange(from as int, to as int)) == v@.subrange(i as int, to as int),
{
    let mut i = from;
    while i < to && is_whitespace(v[i])
        invariant
            from <= i <= to <= v@.len(),
            trim_start(v@.subrange(from as int, to as int)) == trim_start(v@.subrange(i as int, to as int)),
        decreases to - i,
    {
        assert(v@.subrange(i as int, to as int).drop_first() =~= v@.subrange(i + 1, to as int));
        i += 1;
    }
    i
}

/// One past the last non-whitespace character of `v[from..to]` (or `from`).
fn last_non_ws(v: &Vec<char>, from: usize, to: usize) -> (j: usize)
    requires
        from <= to <= v@.len(),
    ensures
        from <= j <= to,
        trim_end(v@.subrange(from as int, to as int)) == v@.subrange(from as int, j as int),
{
    let mut j = to;
    while j > from && is_whitespace(v[j - 1])
        invariant
            from <= j <= to <= v@.len(),
            trim_end(v@.subrange(from as int, to as int)) == trim_end(v@.subrange(from as int, j as int)),
        decreases j - from,
    {
        assert(v@.subrange(from as int, j as int).drop_last() =~= v@.subrange(from as int, j - 1));
        j -= 1;
    }
    j
}

/// Bounds `(i, j)` of `trim(v[from..to])` inside `v`.
pub fn trim_bounds(v: &Vec<char>, from: usize, to: usize) -> (r: (usize, usize))
    requires
        from <= to <= v@.len(),
    ensures
        from <= r.0 <= r.1 <= to,
        trim(v@.subrange(from as int, to as int)) == v@.subrange(r.0 as int, r.1 as int),
{
    let i = first_non_ws(v, from, to);
    let j = last_non_ws(v, i, to);
    (i, j)
}

/// `s.trim()` as an owned string.
pub fn trim_str(s: &str) -> (r: String)
    ensures
        r@ == trim(s@),
{
    let v = chars_of(s);
    let (i, j) = trim_bounds(&v, 0, v.len());
    assert(v@.subrange(0, v@.len() as int) =~= v@);
    string_of(&v, i, j)
}


/// Whether two character vectors are equal.
pub fn chars_eq(a: &Vec<char>, b: &Vec<char>) -> (r: bool)
    ensures
        r == (a@ == b@),
{
    if a.len() != b.len() {
        return false;
    }
    let mut i: usize = 0;
    while i < a.len()
        invariant
            i <= a.len() == b.len(),
            forall|k: int| 0 <= k < i ==> a@[k] == b@[k],
        decreases a.len() - i,
    {
        if a[i] != b[i] {
            return false;
        }
        i += 1;
    }
    assert(a@ =~= b@);
    true
}

/// Whether two strings hold the same characters.
pub fn str_eq(a: &str, b: &str) -> (r: bool)
    ensures
        r == (a@ == b@),
{
    chars_eq(&chars_of(a), &chars_of(b))
}

/// A copy of a list of string pairs.
pub fn clone_pairs(v: &Vec<(String, String)>) -> (r: Vec<(String, String)>)
    ensures
        r.deep_view() == v.deep_view(),
{
    let mut r: Vec<(String, String)> = Vec::new();
    for i in 0..v.len()
        invariant
            r@.len() == i,
            forall|j: int| 0 <= j < i ==> #[trigger] r@[j].deep_view() == v@[j].deep_view(),
    {
        r.push((v[i].0.clone(), v[i].1.clone()));
    }
    assert(r.deep_view() =~= v.deep_view());
    r
}


/// Lexicographic order on characters (by code point), as `str`'s `Ord` gives it.
pub open spec fn seq_le(a: Seq<char>, b: Seq<char>) -> bool
    decreases a.len(),
{
    if a.len() == 0 {
        true
    } else if b.len() == 0 {
        false
    } else if a[0] != b[0] {
        (a[0] as u32) < (b[0] as u32)
    } else {
        seq_le(a.drop_first(), b.drop_first())
    }
}

/// `a <= b` in the order strings compare in.
pub fn str_le(a: &str, b: &str) -> (r: bool)
    ensures
        r == seq_le(a@, b@),
{
    let va = chars_of(a);
    let vb = chars_of(b);
    let mut i: usize = 0;
    assert(va@.skip(0) =~= va@);
    assert(vb@.skip(0) =~= vb@);
    while i < va.len() && i < vb.len() && va[i] == vb[i]
        invariant
            i <= va.len(),
            i <= vb.len(),
            seq_le(va@, vb@) == seq_le(va@.skip(i as int), vb@.skip(i as int)),
        decreases va.len() - i,
    {
        assert(va@.skip(i as int).drop_first() =~= va@.skip(i + 1));
        assert(vb@.skip(i as int).drop_first() =~= vb@.skip(i + 1));
        i += 1;
    }
    if i == va.len() {
        true
    } else if i == vb.len() {
        false
    } else {
        (va[i] as u32) < (vb[i] as u32)
    }
}

/// `a <= b` in the order ids are kept in: shorter ids first, ids of one
/// length character by character. For ids that end in a decimal counter after
/// a common prefix this is the counter's order.
pub open spec fn id_le(a: Seq<char>, b: Seq<char>) -> bool {
    a.len() < b.len() || (a.len() == b.len() && seq_le(a, b))
}

/// `a <= b` in the order ids are kept in (see [`id_le`]).
pub fn id_str_le(a: &str, b: &str) -> (r: bool)
    ensures
        r == id_le(a@, b@),
{
    let la = chars_of(a).len();
    let lb = chars_of(b).len();
    if la != lb {
        la < lb
    } else {
        str_le(a, b)
    }
}

/// Every string is `<=` itself.
pub proof fn lemma_seq_le_refl(a: Seq<char>)
    ensures
        seq_le(a, a),
    decreases a.len(),
{
    if a.len() > 0 {
        lemma_seq_le_refl(a.drop_first());
    }
}

/// A common prefix does not change how two strings compare.
pub proof fn lemma_seq_le_prefix(p: Seq<char>, a: Seq<char>, b: Seq<char>)
    ensures
        seq_le(p + a, p + b) == seq_le(a, b),
    decreases p.len(),
{
    if p.len() > 0 {
        assert((p + a).drop_first() =~= p.drop_first() + a);
        assert((p + b).drop_first() =~= p.drop_first() + b);
        assert((p + a)[0] == p[0] && (p + b)[0] == p[0]);
        lemma_seq_le_prefix(p.drop_first(), a, b);
    } else {
        assert(p + a =~= a);
        assert(p + b =~= b);
    }
}

/// Two strings of one length, each with a character appended, compare by
/// their first difference: in the strings, or else in the appended characters.
pub proof fn lemma_seq_le_push(a: Seq<char>, b: Seq<char>, x: char, y: char)
    requires
        a.len() == b.len(),
    ensures
        seq_le(a.push(x), b.push(y)) == if a == b { (x as u32) <= (y as u32) } else { seq_le(a, b) },
    decreases a.len(),
{
    if a.len() == 0 {
        assert(a =~= b);
        vstd::utf8::char_u32_cast(x, x as u32);
        vstd::utf8::char_u32_cast(y, y as u32);
        assert(a.push(x).drop_first() =~= Seq::<char>::empty());
        assert(b.push(y).drop_first() =~= Seq::<char>::empty());
        assert(a.push(x)[0] == x && b.push(y)[0] == y);
        if x == y {
            assert(seq_le(Seq::<char>::empty(), Seq::<char>::empty()));
        }
    } else {
        assert(a.push(x)[0] == a[0] && b.push(y)[0] == b[0]);
        assert(a.push(x).drop_first() =~= a.drop_first().push(x));
        assert(b.push(y).drop_first() =~= b.drop_first().push(y));
        if a[0] == b[0] {
            lemma_seq_le_push(a.drop_first(), b.drop_first(), x, y);
            if a.drop_first() == b.drop_first() {
                assert forall|i: int| 0 <= i < a.len() implies a[i] == b[i] by {
                    if i > 0 {
                        assert(a[i] == a.drop_first()[i - 1] && b[i] == b.drop_first()[i - 1]);
                    }
                }
                assert(a =~= b);
            } else {
                assert(a != b);
            }
        } else {
            assert(a != b);
        }
    }
}

/// A decimal rendering is never empty.
pub proof fn lemma_decimal_nonempty(n: nat)
    ensures
        decimal(n).len() >= 1,
    decreases n,
{
    if n >= 10 {
        lemma_decimal_nonempty(n / 10);
    }
}

/// A larger number has at least as many digits.
pub proof fn lemma_decimal_len_mono(n: nat, m: nat)
    requires
        n <= m,
    ensures
        decimal(n).len() <= decimal(m).len(),
    decreases m,
{
    if m >= 10 {
        if n >= 10 {
            lemma_decimal_len_mono(n / 10, m / 10);
        } else {
            lemma_decimal_nonempty(m / 10);
        }
    }
}

/// Of two numbers with as many digits, the smaller renders strictly first.
pub proof fn lemma_decimal_order(n: nat, m: nat)
    requires
        n < m,
        decimal(n).len() == decimal(m).len(),
    ensures
        seq_le(decimal(n), decimal(m)),
        !seq_le(decimal(m), decimal(n)),
    decreases m,
{
    if m < 10 {
        assert(decimal(n).drop_first() =~= Seq::<char>::empty());
        assert(decimal(m).drop_first() =~= Seq::<char>::empty());
        assert((digit_char(n) as u32) == 48 + n);
        assert((digit_char(m) as u32) == 48 + m);
    } else if n < 10 {
        lemma_decimal_nonempty(m / 10);
    } else {
        let (dn, dm) = (decimal(n / 10), decimal(m / 10));
        assert((digit_char(n % 10) as u32) == 48 + n % 10);
        assert((digit_char(m % 10) as u32) == 48 + m % 10);
        lemma_seq_le_push(dn, dm, digit_char(n % 10), digit_char(m % 10));
        lemma_seq_le_push(dm, dn, digit_char(m % 10), digit_char(n % 10));
        if n / 10 < m / 10 {
            lemma_decimal_order(n / 10, m / 10);
            if dn == dm {
                lemma_seq_le_refl(dm);
            }
        }
    }
}

/// The lowercase hexadecimal digit for `d < 16`.
pub open spec fn hex_digit(d: nat) -> char {
    if d < 10 { ((48 + d) as u32) as char } else { ((87 + d) as u32) as char }
}

/// The lowest `width` hexadecimal digits of `n`, most significant first,
/// padded with zeros.
pub open spec fn hex_fixed(n: nat, width: nat) -> Seq<char>
    decreases width,
{
    if width == 0 {
        Seq::empty()
    } else {
        hex_fixed(n / 16, (width - 1) as nat).push(hex_digit(n % 16))
    }
}

fn hex_char(d: u128) -> (c: char)
    requires
        d < 16,
    ensures
        c == hex_digit(d as nat),
{
    if d < 10 { ((48 + d) as u8) as char } else { ((87 + d) as u8) as char }
}

/// Appends the lowest `width` hexadecimal digits of `n`.
pub fn push_hex(s: &mut String, n: u128, width: u32)
    ensures
        final(s)@ == old(s)@ + hex_fixed(n as nat, width as nat),
    decreases width,
{
    if width > 0 {
        push_hex(s, n / 16, width - 1);
        push_char(s, hex_char(n % 16));
        assert(final(s)@ =~= old(s)@ + hex_fixed(n as nat, width as nat));
    } else {
        assert(old(s)@ + hex_fixed(n as nat, 0) =~= old(s)@);
    }
}

/// A UUID in its hyphenated lowercase form (8-4-4-4-12 hexadecimal digits),
/// as `uuid::Uuid`'s `Display` writes it.
pub open spec fn uuid_text(n: nat) -> Seq<char> {
    hex_fixed(n / 0x1_0000_0000_0000_0000_0000_0000, 8) + "-"@
        + hex_fixed(n / 0x1_0000_0000_0000_0000_0000, 4) + "-"@
        + hex_fixed(n / 0x1_0000_0000_0000_0000, 4) + "-"@
        + hex_fixed(n / 0x1_0000_0000_0000, 4) + "-"@
        + hex_fixed(n, 12)
}

/// A UUID's 128 bits in their hyphenated form.
pub fn uuid_string(n: u128) -> (r: String)
    ensures
        r@ == uuid_text(n as nat),
{
    let mut r = String::new();
    push_hex(&mut r, n / 0x1_0000_0000_0000_0000_0000_0000, 8);
    push_str(&mut r, "-");
    push_hex(&mut r, n / 0x1_0000_0000_0000_0000_0000, 4);
    push_str(&mut r, "-");
    push_hex(&mut r, n / 0x1_0000_0000_0000_0000, 4);
    push_str(&mut r, "-");
    push_hex(&mut r, n / 0x1_0000_0000_0000, 4);
    push_str(&mut r, "-");
    push_hex(&mut r, n, 12);
    r
}

proof fn lemma_trim_start_first(s: Seq<char>)
    ensures
        trim_start(s).len() > 0 ==> !is_ws(trim_start(s)[0]),
    decreases s.len(),
{
    if s.len() > 0 && is_ws(s[0]) {
        lemma_trim_start_first(s.drop_first());
    }
}

proof fn lemma_trim_end_prefix(t: Seq<char>)
    ensures
        trim_end(t).len() <= t.len(),
        forall|i: int| 0 <= i < trim_end(t).len() ==> #[trigger] trim_end(t)[i] == t[i],
        trim_end(t).len() > 0 ==> !is_ws(trim_end(t).last()),
    decreases t.len(),
{
    if t.len() > 0 && is_ws(t.last()) {
        lemma_trim_end_prefix(t.drop_last());
    }
}

/// A trimmed text that is not empty begins and ends with a character that
/// is not whitespace.
pub proof fn lemma_trim_edges(s: Seq<char>)
    ensures
        trim(s).len() > 0 ==> !is_ws(trim(s)[0]) && !is_ws(trim(s).last()),
{
    lemma_trim_start_first(s);
    lemma_trim_end_prefix(trim_start(s));
}

pub proof fn lemma_trim_start_range(s: Seq<char>) -> (a: int)
    ensures
        0 <= a <= s.len(),
        trim_start(s) == s.subrange(a, s.len() as int),
    decreases s.len(),
{
    if s.len() > 0 && is_ws(s[0]) {
        let a = lemma_trim_start_range(s.drop_first());
        assert(s.drop_first().subrange(a, s.len() - 1) =~= s.subrange(a + 1, s.len() as int));
        a + 1
    } else {
        assert(s.subrange(0, s.len() as int) =~= s);
        0
    }
}

pub proof fn lemma_trim_end_range(s: Seq<char>) -> (b: int)
    ensures
        0 <= b <= s.len(),
        trim_end(s) == s.subrange(0, b),
    decreases s.len(),
{
    if s.len() > 0 && is_ws(s.last()) {
        let b = lemma_trim_end_range(s.drop_last());
        assert(s.drop_last().subrange(0, b) =~= s.subrange(0, b));
        b
    } else {
        assert(s.subrange(0, s.len() as int) =~= s);
        s.len() as int
    }
}

/// Trimming keeps a contiguous piece of the text.
pub proof fn lemma_trim_range(s: Seq<char>) -> (r: (int, int))
    ensures
        0 <= r.0 <= r.1 <= s.len(),
        trim(s) == s.subrange(r.0, r.1),
{
    let a = lemma_trim_start_range(s);
    let u = s.subrange(a, s.len() as int);
    let b = lemma_trim_end_range(u);
    assert(u.subrange(0, b) =~= s.subrange(a, a + b));
    (a, a + b)
}

} // verus!
