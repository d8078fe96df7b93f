//! Text measurement and string building shared by the widgets and pages.

use vstd::prelude::*;
use vstd::string::StringExecFns;

verus! {

/// Whether a code point is wide or full-width, so that a terminal draws it
/// over two cells: the Hangul lead consonants, the CJK radicals, symbols,
/// kana, ideographs and Yi, the Hangul syllables, the CJK compatibility
/// ideographs and forms, the full-width forms and signs, the pictographs
/// and emoticons, and the supplementary ideographic planes.
pub open spec fn is_wide(code: u32) -> bool {
    ||| 0x1100 <= code <= 0x115f
    ||| 0x2329 <= code <= 0x232a
    ||| 0x2e80 <= code <= 0x303e
    ||| 0x3041 <= code <= 0xa4cf
    ||| 0xa960 <= code <= 0xa97f
    ||| 0xac00 <= code <= 0xd7a3
    ||| 0xf900 <= code <= 0xfaff
    ||| 0xfe10 <= code <= 0xfe19
    ||| 0xfe30 <= code <= 0xfe6f
    ||| 0xff01 <= code <= 0xff60
    ||| 0xffe0 <= code <= 0xffe6
    ||| 0x1f300 <= code <= 0x1f64f
    ||| 0x1f900 <= code <= 0x1f9ff
    ||| 0x20000 <= code <= 0x2fffd
    ||| 0x30000 <= code <= 0x3fffd
}

/// Terminal cells taken by one character: two for a wide or full-width
/// character, one for every other.
pub open spec fn char_width(c: char) -> nat {
    if is_wide(c as u32) {
        2
    } else {
        1
    }
}

/// Whether a terminal draws `c` over two cells.
pub fn wide(c: char) -> (w: bool)
    ensures
        w == is_wide(c as u32),
{
    let code: u32 = c as u32;
    (0x1100 <= code && code <= 0x115f)
        || (0x2329 <= code && code <= 0x232a)
        || (0x2e80 <= code && code <= 0x303e)
        || (0x3041 <= code && code <= 0xa4cf)
        || (0xa960 <= code && code <= 0xa97f)
        || (0xac00 <= code && code <= 0xd7a3)
        || (0xf900 <= code && code <= 0xfaff)
        || (0xfe10 <= code && code <= 0xfe19)
        || (0xfe30 <= code && code <= 0xfe6f)
        || (0xff01 <= code && code <= 0xff60)
        || (0xffe0 <= code && code <= 0xffe6)
        || (0x1f300 <= code && code <= 0x1f64f)
        || (0x1f900 <= code && code <= 0x1f9ff)
        || (0x20000 <= code && code <= 0x2fffd)
        || (0x30000 <= code && code <= 0x3fffd)
}

/// Terminal cells taken by a string: the sum of its characters' widths.
pub open spec fn display_width(s: Seq<char>) -> nat
    decreases s.len(),
{
    if s.len() == 0 {
        0
    } else {
        display_width(s.drop_last()) + char_width(s.last())
    }
}

/// A width cut off at the largest value a `u32` holds.
pub open spec fn capped_width(w: nat) -> nat {
    if w <= u32::MAX {
        w
    } else {
        u32::MAX as nat
    }
}

/// Display width of `s` in terminal cells. A width beyond `u32::MAX` is
/// reported as `u32::MAX`.
pub fn string_width(s: &str) -> (w: u32)
    ensures
        w as nat == capped_width(display_width(s@)),
{
    let mut len: u32 = 0;
    for c in it: s.chars()
        invariant
            it.seq() == s@,
            len as nat == capped_width(display_width(s@.take(it.index() as int))),
    {
        proof {
            let k = it.index() as int;
            assert(s@.take(k + 1).drop_last() =~= s@.take(k));
        }
        let cells: u32 = if wide(c) { 2 } else { 1 };
        len = len.saturating_add(cells);
    }
    proof {
        assert(s@.take(s@.len() as int) =~= s@);
    }
    len
}

/// `needle` occurs in `hay` as a contiguous run of characters. The empty
/// string occurs in every string.
pub open spec fn is_substring(needle: Seq<char>, hay: Seq<char>) -> bool {
    exists|i: int|
        0 <= i && i + needle.len() <= hay.len() && #[trigger] hay.subrange(i, i + needle.len())
            == needle
}

/// Trusted: `str::contains` with a string pattern. The standard library
/// documents it as true exactly when the pattern matches a sub-slice of the
/// string; the contract says the same over the two character sequences.
#[verifier::external_body]
pub(crate) fn str_contains(hay: &str, needle: &str) -> (found: bool)
    ensures
        found == is_substring(needle@, hay@),
{
    hay.contains(needle)
}

/// Trusted: `==` on two string slices (`str::eq`), which the standard library
/// defines as equality of their contents.
#[verifier::external_body]
pub(crate) fn str_eq(a: &str, b: &str) -> (same: bool)
    ensures
        same == (a@ == b@),
{
    a == b
}

/// The lowercase form of a text, as `str::to_lowercase` gives it.
pub uninterp spec fn lowercase(text: Seq<char>) -> Seq<char>;

/// Trusted: `str::to_lowercase`. The result depends on the text alone; the
/// contract gives it the name `lowercase` and says no more of it.
#[verifier::external_body]
pub(crate) fn to_lowercase(text: &str) -> (lower: String)
    ensures
        lower@ == lowercase(text@),
{
    text.to_lowercase()
}

/// Trusted: `String::push`, which appends one character at the end.
#[verifier::external_body]
pub(crate) fn push_char(s: &mut String, c: char)
    ensures
        final(s)@ == old(s)@.push(c),
{
    s.push(c)
}

/// Trusted: `String::pop`, which removes the last character and returns it,
/// or returns `None` and leaves an empty string as it is.
#[verifier::external_body]
pub(crate) fn pop_char(s: &mut String) -> (last: Option<char>)
    ensures
        old(s)@.len() == 0 ==> last is None && final(s)@ == old(s)@,
        old(s)@.len() > 0 ==> last == Some(old(s)@.last()) && final(s)@ == old(s)@.drop_last(),
{
    s.pop()
}

/// The two strings one after the other, as a new string.
pub fn join2(a: &str, b: &str) -> (r: String)
    ensures
        r@ == a@ + b@,
{
    let mut r = String::from_str(a);
    r.append(b);
    r
}

/// The character for a decimal digit.
pub open spec fn digit_char(d: nat) -> char {
    if d == 0 {
        '0'
    } else if d == 1 {
        '1'
    } else if d == 2 {
        '2'
    } else if d == 3 {
        '3'
    } else if d == 4 {
        '4'
    } else if d == 5 {
        '5'
    } else if d == 6 {
        '6'
    } else if d == 7 {
        '7'
    } else if d == 8 {
        '8'
    } else {
        '9'
    }
}

/// Decimal notation of a natural number, without leading zeros.
pub open spec fn decimal_digits(n: nat) -> Seq<char>
    decreases n,
{
    if n < 10 {
        seq![digit_char(n)]
    } else {
        decimal_digits(n / 10).push(digit_char(n % 10))
    }
}

/// Decimal notation of an integer, with a leading `-` when it is negative.
pub open spec fn decimal_text(n: int) -> Seq<char> {
    if n < 0 {
        seq!['-'] + decimal_digits((-n) as nat)
    } else {
        decimal_digits(n as nat)
    }
}

fn digit(d: u64) -> (c: char)
    requires
        d < 10,
    ensures
        c == digit_char(d as nat),
{
    if d == 0 {
        '0'
    } else if d == 1 {
        '1'
    } else if d == 2 {
        '2'
    } else if d == 3 {
        '3'
    } else if d == 4 {
        '4'
    } else if d == 5 {
        '5'
    } else if d == 6 {
        '6'
    } else if d == 7 {
        '7'
    } else if d == 8 {
        '8'
    } else {
        '9'
    }
}

/// Appends the decimal notation of `n` to `out`.
pub fn push_decimal(out: &mut String, n: u64)
    ensures
        final(out)@ == old(out)@ + decimal_digits(n as nat),
    decreases n,
{
    if n >= 10 {
        push_decimal(out, n / 10);
    }
    push_char(out, digit(n % 10));
}

/// Appends the decimal notation of the signed integer `n` to `out`.
pub fn push_signed_decimal(out: &mut String, n: i64)
    ensures
        final(out)@ == old(out)@ + decimal_text(n as int),
{
    if n < 0 {
        push_char(out, '-');
        let magnitude: u64 = if n == i64::MIN {
            9223372036854775808u64
        } else {
            (-n) as u64
        };
        push_decimal(out, magnitude);
    } else {
        push_decimal(out, n as u64);
    }
}

} // verus!
