//! Verified text helpers shared by the filter engines: prefix tests,
//! ASCII lower-casing, metric-name sanitizing, and decimal conversion.

use vstd::prelude::*;

verus! {

/// Relies on String::push: appends exactly one character at the end.
#[verifier::external_body]
pub fn push_char(s: &mut String, c: char)
    ensures
        final(s)@ == old(s)@.push(c),
{
    s.push(c);
}

/// True when `p` is a character-for-character prefix of `s`.
pub fn starts_with(s: &str, p: &str) -> (r: bool)
    ensures
        r == p@.is_prefix_of(s@),
{
    let sn = s.unicode_len();
    let pn = p.unicode_len();
    if pn > sn {
        return false;
    }
    let mut i: usize = 0;
    while i < pn
        invariant
            0 <= i <= pn,
            pn == p@.len(),
            sn == s@.len(),
            pn <= sn,
            forall|k: int| 0 <= k < i ==> p@[k] == s@[k],
        decreases pn - i,
    {
        if s.get_char(i) != p.get_char(i) {
            assert(!p@.is_prefix_of(s@)) by {
                assert(p@[i as int] != s@.subrange(0, pn as int)[i as int]);
            }
            return false;
        }
        i += 1;
    }
    assert(p@ =~= s@.subrange(0, pn as int));
    true
}

/// True when `a` and `b` hold the same characters.
pub fn str_eq(a: &str, b: &str) -> (r: bool)
    ensures
        r == (a@ == b@),
{
    let an = a.unicode_len();
    let bn = b.unicode_len();
    if an != bn {
        return false;
    }
    let mut i: usize = 0;
    while i < an
        invariant
            0 <= i <= an,
            an == a@.len(),
            bn == b@.len(),
            an == bn,
            forall|k: int| 0 <= k < i ==> a@[k] == b@[k],
        decreases an - i,
    {
        if a.get_char(i) != b.get_char(i) {
            return false;
        }
        i += 1;
    }
    assert(a@ =~= b@);
    true
}

/// The lower-case form of an ASCII letter; any other character is unchanged.
pub open spec fn lower_char(c: char) -> char {
    if 65 <= c as u32 <= 90 {
        ((c as u32 + 32) as char)
    } else {
        c
    }
}

/// The character-wise ASCII lower-casing of a character sequence.
pub open spec fn lower_seq(s: Seq<char>) -> Seq<char> {
    Seq::new(s.len(), |i: int| lower_char(s[i]))
}

fn lower_char_exec(c: char) -> (r: char)
    ensures
        r == lower_char(c),
{
    match c {
        'A' => 'a',
        'B' => 'b',
        'C' => 'c',
        'D' => 'd',
        'E' => 'e',
        'F' => 'f',
        'G' => 'g',
        'H' => 'h',
        'I' => 'i',
        'J' => 'j',
        'K' => 'k',
        'L' => 'l',
        'M' => 'm',
        'N' => 'n',
        'O' => 'o',
        'P' => 'p',
        'Q' => 'q',
        'R' => 'r',
        'S' => 's',
        'T' => 't',
        'U' => 'u',
        'V' => 'v',
        'W' => 'w',
        'X' => 'x',
        'Y' => 'y',
        'Z' => 'z',
        _ => c,
    }
}

/// Lower-cases the ASCII letters of `s`, leaving every other character as it is.
pub fn lower_str(s: &str) -> (r: String)
    ensures
        r@ == lower_seq(s@),
{
    let n = s.unicode_len();
    let mut r = String::new();
    let mut i: usize = 0;
    while i < n
        invariant
            0 <= i <= n,
            n == s@.len(),
            r@.len() == i,
            forall|k: int| 0 <= k < i ==> r@[k] == lower_char(s@[k]),
        decreases n - i,
    {
        let c = lower_char_exec(s.get_char(i));
        push_char(&mut r, c);
        i += 1;
    }
    assert(r@ =~= lower_seq(s@));
    r
}

/// Characters allowed in a metric-name path bucket: ASCII letters and
/// digits, `-`, and `_`.
pub open spec fn is_metric_char(c: char) -> bool {
    ||| 97 <= c as u32 <= 122
    ||| 65 <= c as u32 <= 90
    ||| 48 <= c as u32 <= 57
    ||| c == '-'
    ||| c == '_'
}

fn is_metric_char_exec(c: char) -> (r: bool)
    ensures
        r == is_metric_char(c),
{
    let v = c as u32;
    (97 <= v && v <= 122) || (65 <= v && v <= 90) || (48 <= v && v <= 57) || c == '-' || c == '_'
}

/// Keeps only the characters allowed in a metric-name bucket.
pub open spec fn sanitize_seq(s: Seq<char>) -> Seq<char> {
    s.filter(|c: char| is_metric_char(c))
}

/// Drops every character of `s` that is not allowed in a metric-name bucket.
pub fn sanitize_str(s: &str) -> (r: String)
    ensures
        r@ == sanitize_seq(s@),
{
    let n = s.unicode_len();
    let mut r = String::new();
    let mut i: usize = 0;
    proof {
        reveal(Seq::filter);
        assert(s@.subrange(0, 0) =~= Seq::<char>::empty());
    }
    while i < n
        invariant
            0 <= i <= n,
            n == s@.len(),
            r@ == s@.subrange(0, i as int).filter(|c: char| is_metric_char(c)),
        decreases n - i,
    {
        let c = s.get_char(i);
        proof {
            reveal(Seq::filter);
            assert(s@.subrange(0, i + 1).drop_last() =~= s@.subrange(0, i as int));
            assert(s@.subrange(0, i + 1).last() == s@[i as int]);
        }
        if is_metric_char_exec(c) {
            push_char(&mut r, c);
        }
        i += 1;
    }
    assert(s@.subrange(0, n as int) =~= s@);
    r
}

/// The decimal digit character for a value below ten.
pub open spec fn dec_digit_char(d: nat) -> char {
    if d == 0 {
        '0'
    } else if d == 1 {
        '1'
    } else if d == 2 {
        '2'
    } else if d == 3 {
        '3'
    } else if d == 4 {
        '4'
    } else if d == 5 {
        '5'
    } else if d == 6 {
        '6'
    } else if d == 7 {
        '7'
    } else if d == 8 {
        '8'
    } else {
        '9'
    }
}

/// The decimal rendering of a natural number, without sign or padding.
pub open spec fn dec_str(n: nat) -> Seq<char>
    decreases n,
{
    if n < 10 {
        seq![dec_digit_char(n)]
    } else {
        dec_str(n / 10).push(dec_digit_char(n % 10))
    }
}

fn dec_digit_char_exec(d: u32) -> (r: char)
    requires
        d < 10,
    ensures
        r == dec_digit_char(d as nat),
{
    if d == 0 {
        '0'
    } else if d == 1 {
        '1'
    } else if d == 2 {
        '2'
    } else if d == 3 {
        '3'
    } else if d == 4 {
        '4'
    } else if d == 5 {
        '5'
    } else if d == 6 {
        '6'
    } else if d == 7 {
        '7'
    } else if d == 8 {
        '8'
    } else {
        '9'
    }
}

/// Renders `n` in decimal.
pub fn u32_to_dec(n: u32) -> (r: String)
    ensures
        r@ == dec_str(n as nat),
    decreases n,
{
    if n < 10 {
        let mut r = String::new();
        push_char(&mut r, dec_digit_char_exec(n));
        assert(r@ =~= dec_str(n as nat));
        r
    } else {
        let mut r = u32_to_dec(n / 10);
        push_char(&mut r, dec_digit_char_exec(n % 10));
        r
    }
}

/// True for the ASCII digits `0` through `9`.
pub open spec fn is_dec_digit(c: char) -> bool {
    48 <= c as u32 <= 57
}

/// The numeric value of a decimal digit character.
pub open spec fn digit_val(c: char) -> nat {
    (c as int - 48) as nat
}

/// The value of a digit string read in base ten.
pub open spec fn dec_val(s: Seq<char>) -> nat
    decreases s.len(),
{
    if s.len() == 0 {
        0
    } else {
        dec_val(s.drop_last()) * 10 + digit_val(s.last())
    }
}

/// True when every character of `s` is a decimal digit.
pub open spec fn all_dec_digits(s: Seq<char>) -> bool {
    forall|i: int| 0 <= i < s.len() ==> is_dec_digit(s[i])
}

/// The value of `s` as an unsigned decimal number, or zero where `s` is
/// empty, holds a non-digit, or exceeds the `u32` range.
pub open spec fn parse_u32_or_zero(s: Seq<char>) -> u32 {
    if s.len() > 0 && all_dec_digits(s) && dec_val(s) <= u32::MAX {
        dec_val(s) as u32
    } else {
        0u32
    }
}

proof fn lemma_dec_val_prefix_mono(s: Seq<char>, j: int)
    requires
        0 <= j <= s.len(),
    ensures
        dec_val(s) >= dec_val(s.subrange(0, j)),
    decreases s.len() - j,
{
    if j == s.len() {
        assert(s.subrange(0, j) =~= s);
    } else {
        assert(s.subrange(0, j + 1).drop_last() =~= s.subrange(0, j));
        lemma_dec_val_prefix_mono(s, j + 1);
        assert(dec_val(s.subrange(0, j + 1)) >= dec_val(s.subrange(0, j)));
    }
}

/// Reads `s` as a decimal `u32`; an empty string, a stray character or an
/// out-of-range value all give zero.
pub fn parse_u32(s: &str) -> (r: u32)
    ensures
        r == parse_u32_or_zero(s@),
{
    let n = s.unicode_len();
    if n == 0 {
        return 0;
    }
    let mut acc: u64 = 0;
    let mut i: usize = 0;
    proof {
        assert(s@.subrange(0, 0) =~= Seq::<char>::empty());
    }
    while i < n
        invariant
            0 <= i <= n,
            n == s@.len(),
            forall|k: int| 0 <= k < i ==> is_dec_digit(s@[k]),
            acc == dec_val(s@.subrange(0, i as int)),
            acc <= u32::MAX,
        decreases n - i,
    {
        let c = s.get_char(i);
        let v = c as u32;
        if v < 48 || v > 57 {
            assert(!is_dec_digit(s@[i as int]));
            return 0;
        }
        let next: u64 = acc * 10 + ((v - 48) as u64);
        proof {
            assert(s@.subrange(0, i + 1).drop_last() =~= s@.subrange(0, i as int));
            assert(s@.subrange(0, i + 1).last() == s@[i as int]);
            assert(next == dec_val(s@.subrange(0, i + 1)));
        }
        if next > 0xFFFF_FFFFu64 {
            proof {
                lemma_dec_val_prefix_mono(s@, i + 1);
            }
            return 0;
        }
        acc = next;
        i += 1;
    }
    assert(s@.subrange(0, n as int) =~= s@);
    acc as u32
}

} // verus!
