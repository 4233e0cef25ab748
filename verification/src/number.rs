//! Confidence scores as text.
//!
//! The verified core does no floating-point work. A score reaches it already
//! written out the way it will appear in a record: as a JSON number, or as
//! `null` where the value is not finite. This module says exactly which texts
//! those are and recognizes them.

use vstd::prelude::*;

verus! {

/// One of the ten decimal digits.
pub open spec fn is_digit(c: char) -> bool {
    '0' <= c && c <= '9'
}

/// A non-empty run of decimal digits.
pub open spec fn is_digits(s: Seq<char>) -> bool {
    s.len() > 0 && forall|i: int| 0 <= i < s.len() ==> is_digit(#[trigger] s[i])
}

/// The integer part of a number: a single digit, or several digits of which
/// the first is not zero.
pub open spec fn is_integer_part(s: Seq<char>) -> bool {
    is_digits(s) && (s.len() == 1 || s[0] != '0')
}

/// The fraction of a number: nothing, or a point followed by digits.
pub open spec fn is_fraction_part(s: Seq<char>) -> bool {
    s.len() == 0 || (s[0] == '.' && is_digits(s.subrange(1, s.len() as int)))
}

/// The exponent of a number: nothing, or `e` or `E`, an optional sign, and
/// digits.
pub open spec fn is_exponent_part(s: Seq<char>) -> bool {
    s.len() == 0 || ((s[0] == 'e' || s[0] == 'E') && (is_digits(s.subrange(1, s.len() as int)) || (
    s.len() >= 2 && (s[1] == '+' || s[1] == '-') && is_digits(s.subrange(2, s.len() as int)))))
}

/// `s` reads as a number when cut at `a`, `b` and `c`: an optional minus sign
/// before `a`, the integer part up to `b`, the fraction up to `c`, and the
/// exponent after it.
pub open spec fn number_split(s: Seq<char>, a: int, b: int, c: int) -> bool {
    &&& 0 <= a <= b <= c <= s.len()
    &&& (a == 0 || (a == 1 && s[0] == '-'))
    &&& is_integer_part(s.subrange(a, b))
    &&& is_fraction_part(s.subrange(b, c))
    &&& is_exponent_part(s.subrange(c, s.len() as int))
}

/// The JSON number grammar.
pub open spec fn is_number(s: Seq<char>) -> bool {
    exists|a: int, b: int, c: int| number_split(s, a, b, c)
}

/// The texts a score may have: a JSON number, or `null`.
pub open spec fn is_score_text(s: Seq<char>) -> bool {
    is_number(s) || s == seq!['n', 'u', 'l', 'l']
}

/// The characters that occur in a score.
pub open spec fn is_score_char(c: char) -> bool {
    is_digit(c) || c == '-' || c == '+' || c == '.' || c == 'e' || c == 'E' || c == 'n' || c == 'u'
        || c == 'l'
}

/// The first position at or after `from` that holds no digit.
pub open spec fn digits_end(s: Seq<char>, from: int) -> int
    decreases s.len() - from,
{
    if 0 <= from < s.len() && is_digit(s[from]) {
        digits_end(s, from + 1)
    } else {
        from
    }
}

/// Where the sign ends: after a leading minus, if there is one.
pub open spec fn sign_end(s: Seq<char>) -> int {
    if s.len() > 0 && s[0] == '-' {
        1
    } else {
        0
    }
}

/// Where the integer part ends if `s` is a number.
pub open spec fn integer_end(s: Seq<char>) -> int {
    digits_end(s, sign_end(s))
}

/// Where the fraction ends if `s` is a number.
pub open spec fn fraction_end(s: Seq<char>) -> int {
    let b = integer_end(s);
    if 0 <= b < s.len() && s[b] == '.' {
        digits_end(s, b + 1)
    } else {
        b
    }
}

/// Where the digits of an exponent begin that starts at `c`.
pub open spec fn exponent_digits_start(s: Seq<char>, c: int) -> int {
    if c + 1 < s.len() && (s[c + 1] == '+' || s[c + 1] == '-') {
        c + 2
    } else {
        c + 1
    }
}

/// What is left of `s` from `c` on is an exponent or nothing, decided by
/// reading it from left to right.
pub open spec fn reads_as_exponent(s: Seq<char>, c: int) -> bool {
    c == s.len() || ((s[c] == 'e' || s[c] == 'E') && exponent_digits_start(s, c) < s.len()
        && digits_end(s, exponent_digits_start(s, c)) == s.len())
}

/// `s` is a number, decided by reading it from left to right.
pub open spec fn reads_as_number(s: Seq<char>) -> bool {
    let a = sign_end(s);
    let b = integer_end(s);
    let c = fraction_end(s);
    &&& a < b
    &&& (b - a == 1 || s[a] != '0')
    &&& (c == b || c > b + 1)
    &&& reads_as_exponent(s, c)
}

/// A run of digits that cannot be extended ends where `digits_end` says.
proof fn lemma_digits_end(s: Seq<char>, from: int, end: int)
    requires
        0 <= from <= end <= s.len(),
        forall|i: int| from <= i < end ==> is_digit(#[trigger] s[i]),
        end < s.len() ==> !is_digit(s[end]),
    ensures
        digits_end(s, from) == end,
    decreases end - from,
{
    if from < end {
        lemma_digits_end(s, from + 1, end);
    }
}

/// `digits_end` skips digits only, and stops at the first thing that is none.
proof fn lemma_digits_end_run(s: Seq<char>, from: int)
    requires
        0 <= from <= s.len(),
    ensures
        from <= digits_end(s, from) <= s.len(),
        forall|i: int| from <= i < digits_end(s, from) ==> is_digit(#[trigger] s[i]),
        digits_end(s, from) < s.len() ==> !is_digit(s[digits_end(s, from)]),
    decreases s.len() - from,
{
    if from < s.len() && is_digit(s[from]) {
        lemma_digits_end_run(s, from + 1);
    }
}

/// A stretch of `s` is a run of digits when it is not empty and each of its
/// places in `s` holds one.
proof fn lemma_digits_stretch(s: Seq<char>, i: int, j: int)
    requires
        0 <= i <= j <= s.len(),
    ensures
        is_digits(s.subrange(i, j)) <==> (i < j && forall|k: int|
            i <= k < j ==> is_digit(#[trigger] s[k])),
{
    let part = s.subrange(i, j);
    if is_digits(part) {
        assert forall|k: int| i <= k < j implies is_digit(#[trigger] s[k]) by {
            assert(part[k - i] == s[k]);
        }
    }
    if i < j && (forall|k: int| i <= k < j ==> is_digit(#[trigger] s[k])) {
        assert forall|k: int| 0 <= k < part.len() implies is_digit(#[trigger] part[k]) by {
            assert(part[k] == s[i + k]);
        }
    }
}

/// The exponent grammar and the reading from left to right agree.
proof fn lemma_exponent(s: Seq<char>, c: int)
    requires
        0 <= c <= s.len(),
    ensures
        is_exponent_part(s.subrange(c, s.len() as int)) <==> reads_as_exponent(s, c),
{
    let n = s.len() as int;
    let part = s.subrange(c, n);
    if c < n {
        assert(part[0] == s[c]);
        assert(part.subrange(1, part.len() as int) =~= s.subrange(c + 1, n));
        lemma_digits_stretch(s, c + 1, n);
        lemma_digits_end_run(s, c + 1);
        if c + 1 < n {
            assert(part[1] == s[c + 1]);
            assert(part.subrange(2, part.len() as int) =~= s.subrange(c + 2, n));
            lemma_digits_stretch(s, c + 2, n);
            lemma_digits_end_run(s, c + 2);
            if forall|k: int| c + 2 <= k < n ==> is_digit(#[trigger] s[k]) {
                lemma_digits_end(s, c + 2, n);
            }
        }
        if forall|k: int| c + 1 <= k < n ==> is_digit(#[trigger] s[k]) {
            lemma_digits_end(s, c + 1, n);
        }
    }
}

/// A number can be cut in one way only.
proof fn lemma_split_is_unique(s: Seq<char>, a: int, b: int, c: int)
    requires
        number_split(s, a, b, c),
    ensures
        a == sign_end(s),
        b == integer_end(s),
        c == fraction_end(s),
{
    let n = s.len() as int;
    let fraction = s.subrange(b, c);
    let exponent = s.subrange(c, n);
    lemma_digits_stretch(s, a, b);
    assert(is_digit(s[a]));
    if b < c {
        assert(fraction[0] == s[b]);
        assert(fraction.subrange(1, fraction.len() as int) =~= s.subrange(b + 1, c));
        lemma_digits_stretch(s, b + 1, c);
    }
    if c < n {
        assert(exponent[0] == s[c]);
    }
    lemma_digits_end(s, a, b);
    if b < c {
        lemma_digits_end(s, b + 1, c);
    }
}

/// The number grammar and the reading from left to right agree.
pub proof fn lemma_reads_as_number(s: Seq<char>)
    ensures
        is_number(s) <==> reads_as_number(s),
{
    let n = s.len() as int;
    let a = sign_end(s);
    lemma_digits_end_run(s, a);
    let b = integer_end(s);
    if b < n {
        lemma_digits_end_run(s, b + 1);
    }
    let c = fraction_end(s);
    let whole = s.subrange(a, b);
    let fraction = s.subrange(b, c);
    if is_number(s) {
        let (x, y, z) = choose|x: int, y: int, z: int| number_split(s, x, y, z);
        lemma_split_is_unique(s, x, y, z);
    }
    lemma_digits_stretch(s, a, b);
    lemma_exponent(s, c);
    if a < b {
        assert(whole[0] == s[a]);
    }
    if b < c {
        assert(fraction[0] == s[b]);
        assert(fraction.subrange(1, fraction.len() as int) =~= s.subrange(b + 1, c));
        lemma_digits_stretch(s, b + 1, c);
    }
    if reads_as_number(s) {
        assert(number_split(s, a, b, c));
    }
}

/// Every character of a score is one of the few that scores are written with.
pub proof fn lemma_score_chars(s: Seq<char>)
    requires
        is_score_text(s),
    ensures
        forall|i: int| 0 <= i < s.len() ==> is_score_char(#[trigger] s[i]),
{
    if is_number(s) {
        let (a, b, c) = choose|a: int, b: int, c: int| number_split(s, a, b, c);
        let n = s.len() as int;
        let whole = s.subrange(a, b);
        let fraction = s.subrange(b, c);
        let exponent = s.subrange(c, n);
        assert forall|i: int| 0 <= i < n implies is_score_char(#[trigger] s[i]) by {
            if i < a {
            } else if i < b {
                assert(whole[i - a] == s[i]);
            } else if i < c {
                assert(fraction[i - b] == s[i]);
                if i > b {
                    assert(fraction.subrange(1, fraction.len() as int)[i - b - 1] == s[i]);
                }
            } else {
                assert(exponent[i - c] == s[i]);
                if i > c {
                    assert(exponent.subrange(1, exponent.len() as int)[i - c - 1] == s[i]);
                }
                if i > c + 1 {
                    assert(exponent.subrange(2, exponent.len() as int)[i - c - 2] == s[i]);
                }
            }
        }
    }
}

/// Bytes read as characters, one for one.
pub open spec fn chars_of(bytes: Seq<u8>) -> Seq<char> {
    Seq::new(bytes.len(), |i: int| bytes[i] as char)
}

fn is_digit_byte(byte: u8) -> (digit: bool)
    ensures
        digit == is_digit(byte as char),
{
    48 <= byte && byte <= 57
}

/// Skips the digits that start at `start`.
fn scan_digits(bytes: &[u8], start: usize) -> (end: usize)
    requires
        start <= bytes.len(),
    ensures
        start <= end <= bytes.len(),
        end == digits_end(chars_of(bytes@), start as int),
{
    let mut end: usize = start;
    while end < bytes.len() && is_digit_byte(bytes[end])
        invariant
            start <= end <= bytes.len(),
            forall|i: int| start <= i < end ==> is_digit(#[trigger] chars_of(bytes@)[i]),
        decreases bytes.len() - end,
    {
        end += 1;
    }
    proof {
        lemma_digits_end(chars_of(bytes@), start as int, end as int);
    }
    end
}

/// Decides whether what is left of the bytes from `c` on is an exponent or
/// nothing.
fn is_exponent_bytes(bytes: &[u8], c: usize) -> (ok: bool)
    requires
        c <= bytes.len(),
    ensures
        ok == reads_as_exponent(chars_of(bytes@), c as int),
{
    let n: usize = bytes.len();
    if c == n {
        return true;
    }
    if bytes[c] != 101 && bytes[c] != 69 {
        return false;
    }
    let d: usize = if c + 1 < n && (bytes[c + 1] == 43 || bytes[c + 1] == 45) {
        c + 2
    } else {
        c + 1
    };
    if d >= n {
        return false;
    }
    let e: usize = scan_digits(bytes, d);
    e == n
}

/// Decides whether the bytes spell a JSON number.
pub fn is_number_bytes(bytes: &[u8]) -> (ok: bool)
    ensures
        ok == is_number(chars_of(bytes@)),
{
    let n: usize = bytes.len();
    let a: usize = if n > 0 && bytes[0] == 45 {
        1
    } else {
        0
    };
    let b: usize = scan_digits(bytes, a);
    let c: usize = if b < n && bytes[b] == 46 {
        scan_digits(bytes, b + 1)
    } else {
        b
    };
    proof {
        lemma_reads_as_number(chars_of(bytes@));
    }
    if b == a || (b - a > 1 && bytes[a] == 48) {
        return false;
    }
    if c > b && c - b == 1 {
        return false;
    }
    is_exponent_bytes(bytes, c)
}

/// Decides whether the bytes spell `null`.
fn is_null_bytes(bytes: &[u8]) -> (ok: bool)
    ensures
        ok == (chars_of(bytes@) == seq!['n', 'u', 'l', 'l']),
{
    let ok: bool = bytes.len() == 4 && bytes[0] == 110 && bytes[1] == 117 && bytes[2] == 108
        && bytes[3] == 108;
    proof {
        let s = chars_of(bytes@);
        let null = seq!['n', 'u', 'l', 'l'];
        if ok {
            assert(s =~= null);
        } else if s == null {
            assert(s.len() == 4);
            assert(s[0] == null[0] && s[1] == null[1] && s[2] == null[2] && s[3] == null[3]);
        }
    }
    ok
}

/// A confidence score, held as the text that stands for it in a record.
///
/// Its view is that text, which is always a JSON number or `null`.
#[derive(Debug)]
pub struct Score {
    text: String,
}

impl View for Score {
    type V = Seq<char>;

    closed spec fn view(&self) -> Seq<char> {
        self.text@
    }
}

impl Score {
    #[verifier::type_invariant]
    closed spec fn well_formed(&self) -> bool {
        is_score_text(self.text@)
    }

    /// Takes `text` for a score if it is a JSON number or `null`, and for
    /// nothing else.
    pub fn parse(text: &str) -> (score: Option<Score>)
        ensures
            score is Some <==> is_score_text(text@),
            score matches Some(s) ==> s@ == text@,
    {
        if !text.is_ascii() {
            proof {
                if is_score_text(text@) {
                    lemma_score_chars(text@);
                }
            }
            return None;
        }
        let bytes = text.as_bytes();
        proof {
            vstd::utf8::is_ascii_chars_encode_utf8(text@);
            assert(chars_of(bytes@) =~= text@);
        }
        if is_number_bytes(bytes) || is_null_bytes(bytes) {
            Some(Score { text: text.to_owned() })
        } else {
            None
        }
    }

    /// The score as it is written in a record.
    pub fn as_str(&self) -> (text: &str)
        ensures
            text@ == self@,
            is_score_text(text@),
    {
        proof {
            use_type_invariant(self);
        }
        self.text.as_str()
    }
}

} // verus!
