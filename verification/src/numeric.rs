//! Decimal integer parsing with the rules and error kinds of std's
//! `FromStr` for the integer types (`"42".parse::<usize>()`).

use vstd::prelude::*;
use crate::text::{chars_of, decimal, digit_char, signed_decimal};

verus! {

/// Why a decimal integer did not parse (std's `IntErrorKind`).
#[derive(PartialEq, Eq, Structural, Clone, Copy, Debug)]
pub enum IntErrorKind {
    Empty,
    InvalidDigit,
    PosOverflow,
    NegOverflow,
}

/// The message std's `ParseIntError` displays for each kind.
pub open spec fn int_error_message(k: IntErrorKind) -> Seq<char> {
    match k {
        IntErrorKind::Empty => "cannot parse integer from empty string"@,
        IntErrorKind::InvalidDigit => "invalid digit found in string"@,
        IntErrorKind::PosOverflow => "number too large to fit in target type"@,
        IntErrorKind::NegOverflow => "number too small to fit in target type"@,
    }
}

impl IntErrorKind {
    /// The message std displays for this error.
    pub fn message(&self) -> (r: &'static str)
        ensures
            r@ == int_error_message(*self),
    {
        match self {
            IntErrorKind::Empty => "cannot parse integer from empty string",
            IntErrorKind::InvalidDigit => "invalid digit found in string",
            IntErrorKind::PosOverflow => "number too large to fit in target type",
            IntErrorKind::NegOverflow => "number too small to fit in target type",
        }
    }
}

/// An ASCII decimal digit.
pub open spec fn is_digit(c: char) -> bool {
    '0' <= c && c <= '9'
}

/// The value of an ASCII digit.
pub open spec fn digit_value(c: char) -> nat {
    ((c as u32) - 48) as nat
}

/// Digits read left to right onto `acc`; the first character that is not a
/// digit stops with `InvalidDigit`, the first running value above `limit`
/// stops with `overflow`.
pub open spec fn scan_digits(digits: Seq<char>, acc: nat, limit: nat, overflow: IntErrorKind) -> Result<nat, IntErrorKind>
    decreases digits.len(),
{
    if digits.len() == 0 {
        Ok(acc)
    } else if !is_digit(digits[0]) {
        Err(IntErrorKind::InvalidDigit)
    } else if acc * 10 + digit_value(digits[0]) > limit {
        Err(overflow)
    } else {
        scan_digits(digits.drop_first(), acc * 10 + digit_value(digits[0]), limit, overflow)
    }
}

/// `s.parse()` into an unsigned type whose largest value is `max`: an
/// optional `+`, then one or more digits.
pub open spec fn parse_unsigned(s: Seq<char>, max: nat) -> Result<nat, IntErrorKind> {
    if s.len() == 0 {
        Err(IntErrorKind::Empty)
    } else if (s[0] == '+' || s[0] == '-') && s.len() == 1 {
        Err(IntErrorKind::InvalidDigit)
    } else if s[0] == '+' {
        scan_digits(s.drop_first(), 0, max, IntErrorKind::PosOverflow)
    } else {
        scan_digits(s, 0, max, IntErrorKind::PosOverflow)
    }
}

/// `s.parse::<i64>()`: an optional sign, then one or more digits, within
/// `i64`'s range.
pub open spec fn parse_signed64(s: Seq<char>) -> Result<int, IntErrorKind> {
    if s.len() == 0 {
        Err(IntErrorKind::Empty)
    } else if (s[0] == '+' || s[0] == '-') && s.len() == 1 {
        Err(IntErrorKind::InvalidDigit)
    } else if s[0] == '-' {
        match scan_digits(s.drop_first(), 0, 0x8000_0000_0000_0000, IntErrorKind::NegOverflow) {
            Ok(n) => Ok(-n),
            Err(e) => Err(e),
        }
    } else if s[0] == '+' {
        match scan_digits(s.drop_first(), 0, 0x7fff_ffff_ffff_ffff, IntErrorKind::PosOverflow) {
            Ok(n) => Ok(n as int),
            Err(e) => Err(e),
        }
    } else {
        match scan_digits(s, 0, 0x7fff_ffff_ffff_ffff, IntErrorKind::PosOverflow) {
            Ok(n) => Ok(n as int),
            Err(e) => Err(e),
        }
    }
}

proof fn lemma_scan_bounded(digits: Seq<char>, acc: nat, limit: nat, overflow: IntErrorKind)
    requires
        acc <= limit,
    ensures
        scan_digits(digits, acc, limit, overflow) matches Ok(n) ==> n <= limit,
    decreases digits.len(),
{
    if digits.len() > 0 && is_digit(digits[0]) && acc * 10 + digit_value(digits[0]) <= limit {
        lemma_scan_bounded(digits.drop_first(), acc * 10 + digit_value(digits[0]), limit, overflow);
    }
}

/// Runs [`scan_digits`] over `v[from..]`.
fn scan(v: &Vec<char>, from: usize, limit: u64, overflow: IntErrorKind) -> (r: Result<u64, IntErrorKind>)
    requires
        from <= v@.len(),
    ensures
        match scan_digits(v@.skip(from as int), 0, limit as nat, overflow) {
            Ok(n) => r == Ok::<u64, IntErrorKind>(n as u64),
            Err(e) => r == Err::<u64, IntErrorKind>(e),
        },
        scan_digits(v@.skip(from as int), 0, limit as nat, overflow) matches Ok(n) ==> n <= limit,
{
    proof {
        lemma_scan_bounded(v@.skip(from as int), 0, limit as nat, overflow);
    }
    let mut acc: u64 = 0;
    let mut i = from;
    assert(v@.skip(from as int) =~= v@.skip(i as int));
    while i < v.len()
        invariant
            from <= i <= v@.len(),
            acc <= limit,
            scan_digits(v@.skip(from as int), 0, limit as nat, overflow)
                == scan_digits(v@.skip(i as int), acc as nat, limit as nat, overflow),
        decreases v@.len() - i,
    {
        let c = v[i];
        assert(v@.skip(i as int)[0] == c);
        if !('0' <= c && c <= '9') {
            return Err(IntErrorKind::InvalidDigit);
        }
        let d = (c as u32 - 48) as u128;
        let next: u128 = (acc as u128) * 10 + d;
        if next > limit as u128 {
            return Err(overflow);
        }
        assert(v@.skip(i as int).drop_first() =~= v@.skip(i + 1));
        acc = next as u64;
        i += 1;
    }
    assert(v@.skip(i as int).len() == 0);
    Ok(acc)
}

/// `s.parse::<usize>()`.
pub fn parse_usize(s: &str) -> (r: Result<usize, IntErrorKind>)
    ensures
        match parse_unsigned(s@, usize::MAX as nat) {
            Ok(n) => r == Ok::<usize, IntErrorKind>(n as usize),
            Err(e) => r == Err::<usize, IntErrorKind>(e),
        },
{
    let v = chars_of(s);
    if v.len() == 0 {
        return Err(IntErrorKind::Empty);
    }
    if (v[0] == '+' || v[0] == '-') && v.len() == 1 {
        return Err(IntErrorKind::InvalidDigit);
    }
    let from: usize = if v[0] == '+' { 1 } else { 0 };
    assert(v@.skip(1) =~= s@.drop_first());
    assert(v@.skip(0) =~= s@);
    match scan(&v, from, usize::MAX as u64, IntErrorKind::PosOverflow) {
        Ok(n) => Ok(n as usize),
        Err(e) => Err(e),
    }
}

/// `s.parse::<u64>()`.
pub fn parse_u64(s: &str) -> (r: Result<u64, IntErrorKind>)
    ensures
        match parse_unsigned(s@, u64::MAX as nat) {
            Ok(n) => r == Ok::<u64, IntErrorKind>(n as u64),
            Err(e) => r == Err::<u64, IntErrorKind>(e),
        },
{
    let v = chars_of(s);
    if v.len() == 0 {
        return Err(IntErrorKind::Empty);
    }
    if (v[0] == '+' || v[0] == '-') && v.len() == 1 {
        return Err(IntErrorKind::InvalidDigit);
    }
    let from: usize = if v[0] == '+' { 1 } else { 0 };
    assert(v@.skip(1) =~= s@.drop_first());
    assert(v@.skip(0) =~= s@);
    scan(&v, from, u64::MAX, IntErrorKind::PosOverflow)
}

/// `s.parse::<i64>()`.
pub fn parse_i64(s: &str) -> (r: Result<i64, IntErrorKind>)
    ensures
        match parse_signed64(s@) {
            Ok(n) => r == Ok::<i64, IntErrorKind>(n as i64),
            Err(e) => r == Err::<i64, IntErrorKind>(e),
        },
{
    let v = chars_of(s);
    if v.len() == 0 {
        return Err(IntErrorKind::Empty);
    }
    if (v[0] == '+' || v[0] == '-') && v.len() == 1 {
        return Err(IntErrorKind::InvalidDigit);
    }
    assert(v@.skip(1) =~= s@.drop_first());
    assert(v@.skip(0) =~= s@);
    if v[0] == '-' {
        match scan(&v, 1, 0x8000_0000_0000_0000, IntErrorKind::NegOverflow) {
            Ok(n) => Ok((0i128 - n as i128) as i64),
            Err(e) => Err(e),
        }
    } else {
        let from: usize = if v[0] == '+' { 1 } else { 0 };
        match scan(&v, from, 0x7fff_ffff_ffff_ffff, IntErrorKind::PosOverflow) {
            Ok(n) => Ok(n as i64),
            Err(e) => Err(e),
        }
    }
}

// ---------------------------------------------------------------------------
// Parsing what was rendered

proof fn lemma_digit_char(d: nat)
    requires
        d < 10,
    ensures
        is_digit(digit_char(d)),
        digit_value(digit_char(d)) == d,
{
}

/// Scanning runs on from where a scanned prefix left off.
proof fn lemma_scan_concat(s: Seq<char>, t: Seq<char>, acc: nat, limit: nat, overflow: IntErrorKind)
    requires
        scan_digits(s, acc, limit, overflow) is Ok,
    ensures
        scan_digits(s + t, acc, limit, overflow) == scan_digits(t, scan_digits(s, acc, limit, overflow)->Ok_0, limit, overflow),
    decreases s.len(),
{
    if s.len() == 0 {
        assert(s + t =~= t);
    } else {
        assert((s + t).drop_first() =~= s.drop_first() + t);
        assert((s + t)[0] == s[0]);
        lemma_scan_concat(s.drop_first(), t, acc * 10 + digit_value(s[0]), limit, overflow);
    }
}

/// A decimal rendering is non-empty and starts with a digit.
proof fn lemma_decimal_shape(n: nat)
    ensures
        decimal(n).len() >= 1,
        is_digit(decimal(n)[0]),
    decreases n,
{
    if n < 10 {
        lemma_digit_char(n);
    } else {
        lemma_decimal_shape(n / 10);
        assert(decimal(n)[0] == decimal(n / 10)[0]);
    }
}

/// Scanning the decimal rendering of `n` gives `n`, when `n` is within the limit.
proof fn lemma_scan_decimal(n: nat, limit: nat, overflow: IntErrorKind)
    requires
        n <= limit,
    ensures
        scan_digits(decimal(n), 0, limit, overflow) == Ok::<nat, IntErrorKind>(n),
    decreases n,
{
    if n < 10 {
        lemma_digit_char(n);
        assert(decimal(n).drop_first() =~= Seq::<char>::empty());
        assert(scan_digits(Seq::<char>::empty(), n, limit, overflow) == Ok::<nat, IntErrorKind>(n));
    } else {
        let d = digit_char(n % 10);
        lemma_digit_char(n % 10);
        lemma_scan_decimal(n / 10, limit, overflow);
        assert(decimal(n) =~= decimal(n / 10) + seq![d]);
        lemma_scan_concat(decimal(n / 10), seq![d], 0, limit, overflow);
        assert(seq![d].drop_first() =~= Seq::<char>::empty());
        assert((n / 10) * 10 + n % 10 == n);
        assert(scan_digits(Seq::<char>::empty(), n, limit, overflow) == Ok::<nat, IntErrorKind>(n));
        assert(scan_digits(seq![d], n / 10, limit, overflow) == Ok::<nat, IntErrorKind>(n));
    }
}

/// Parsing the decimal rendering of a number gives the number back, when it
/// fits the type.
pub proof fn law_parse_unsigned_decimal(n: nat, max: nat)
    requires
        n <= max,
    ensures
        parse_unsigned(decimal(n), max) == Ok::<nat, IntErrorKind>(n),
{
    lemma_decimal_shape(n);
    lemma_scan_decimal(n, max, IntErrorKind::PosOverflow);
}

/// Parsing the signed decimal rendering of an `i64` gives it back.
pub proof fn law_parse_signed_decimal(n: int)
    requires
        i64::MIN <= n <= i64::MAX,
    ensures
        parse_signed64(signed_decimal(n)) == Ok::<int, IntErrorKind>(n),
{
    if n < 0 {
        let m = (-n) as nat;
        lemma_decimal_shape(m);
        lemma_scan_decimal(m, 0x8000_0000_0000_0000, IntErrorKind::NegOverflow);
        assert((seq!['-'] + decimal(m)).drop_first() =~= decimal(m));
    } else {
        lemma_decimal_shape(n as nat);
        lemma_scan_decimal(n as nat, 0x7fff_ffff_ffff_ffff, IntErrorKind::PosOverflow);
    }
}

} // verus!
