//! JSON string escaping: the canonical escape of a character sequence,
//! and a parser for the standard JSON string grammar, with a proof that
//! the parser inverts the escape.
//!
//! The canonical form this library writes escapes `"` as `\"`, `\` as
//! `\\`, and every control character below U+0020 as `\u00xx` with two
//! lowercase hex digits; every other character stands for itself. The
//! parser accepts the full standard grammar: all eight single-character
//! escapes, `\uXXXX` with hex digits of either case for any non-surrogate
//! value, and every unescaped character from U+0020 up. Surrogate-pair
//! escapes for characters beyond U+FFFF are not accepted; such characters
//! are read and written unescaped.

use vstd::prelude::*;
use vstd::arithmetic::div_mod::{lemma_fundamental_div_mod, lemma_fundamental_div_mod_converse};

verus! {

/// The lowercase hex digit for a value below 16.
pub open spec fn hex_digit(n: int) -> char {
    if n == 0 { '0' }
    else if n == 1 { '1' }
    else if n == 2 { '2' }
    else if n == 3 { '3' }
    else if n == 4 { '4' }
    else if n == 5 { '5' }
    else if n == 6 { '6' }
    else if n == 7 { '7' }
    else if n == 8 { '8' }
    else if n == 9 { '9' }
    else if n == 10 { 'a' }
    else if n == 11 { 'b' }
    else if n == 12 { 'c' }
    else if n == 13 { 'd' }
    else if n == 14 { 'e' }
    else if n == 15 { 'f' }
    else { '0' }
}

/// The value of a lowercase hex digit, or -1 for any other character.
pub open spec fn unhex(c: char) -> int {
    if c == '0' { 0 }
    else if c == '1' { 1 }
    else if c == '2' { 2 }
    else if c == '3' { 3 }
    else if c == '4' { 4 }
    else if c == '5' { 5 }
    else if c == '6' { 6 }
    else if c == '7' { 7 }
    else if c == '8' { 8 }
    else if c == '9' { 9 }
    else if c == 'a' || c == 'A' { 10 }
    else if c == 'b' || c == 'B' { 11 }
    else if c == 'c' || c == 'C' { 12 }
    else if c == 'd' || c == 'D' { 13 }
    else if c == 'e' || c == 'E' { 14 }
    else if c == 'f' || c == 'F' { 15 }
    else { -1 }
}

/// A character below the upper bound of the basic plane is recovered
/// from its code point.
pub proof fn lemma_char_code_roundtrip(c: char)
    requires
        (c as u32) <= 0xFFFF,
    ensures
        ((c as u32) as char) == c,
{
}

/// A character the canonical escape leaves as it stands.
pub open spec fn plain_char(c: char) -> bool {
    c != '"' && c != '\\' && (c as u32) >= 0x20
}

/// The canonical escape of a sequence of plain characters is itself.
pub proof fn lemma_esc_plain(s: Seq<char>)
    requires
        forall|i: int| 0 <= i < s.len() ==> plain_char(s[i]),
    ensures
        esc(s) == s,
    decreases s.len(),
{
    if s.len() > 0 {
        assert(forall|i: int| 0 <= i < s.drop_last().len() ==> plain_char(s.drop_last()[i]));
        lemma_esc_plain(s.drop_last());
        assert(esc_char(s.last()) =~= seq![s.last()]);
        assert(s.drop_last() + seq![s.last()] =~= s);
    }
}

/// The value of the four hex digits of a `\u` escape, or -1 if any
/// character is not a hex digit.
pub open spec fn hex4_val(a: char, b: char, c: char, d: char) -> int {
    if unhex(a) >= 0 && unhex(b) >= 0 && unhex(c) >= 0 && unhex(d) >= 0 {
        unhex(a) * 4096 + unhex(b) * 256 + unhex(c) * 16 + unhex(d)
    } else {
        -1
    }
}

/// Relies on `char::from_u32`: every value below the surrogate range, or
/// above it and at most U+FFFF, is a valid scalar, and the character
/// returned carries exactly that code point.
#[verifier::external_body]
fn char_from_code(v: u32) -> (c: char)
    requires
        v < 0xD800 || (0xE000 <= v && v <= 0xFFFF),
    ensures
        c as u32 == v,
{
    char::from_u32(v).unwrap_or(' ')
}

/// The canonical escape of one character.
pub open spec fn esc_char(c: char) -> Seq<char> {
    if c == '"' {
        seq!['\\', '"']
    } else if c == '\\' {
        seq!['\\', '\\']
    } else if (c as u32) < 0x20 {
        seq!['\\', 'u', '0', '0', hex_digit((c as u32) as int / 16), hex_digit((c as u32) as int % 16)]
    } else {
        seq![c]
    }
}

/// The canonical escape of a character sequence.
pub open spec fn esc(s: Seq<char>) -> Seq<char>
    decreases s.len(),
{
    if s.len() == 0 {
        Seq::<char>::empty()
    } else {
        esc(s.drop_last()) + esc_char(s.last())
    }
}

pub proof fn lemma_esc_append(a: Seq<char>, b: Seq<char>)
    ensures
        esc(a + b) == esc(a) + esc(b),
    decreases b.len(),
{
    if b.len() == 0 {
        assert(a + b =~= a);
        assert(esc(a) + esc(b) =~= esc(a));
    } else {
        lemma_esc_append(a, b.drop_last());
        assert((a + b).drop_last() =~= a + b.drop_last());
        assert((a + b).last() == b.last());
        assert(esc(a + b) == esc(a) + esc(b.drop_last()) + esc_char(b.last()));
        assert(esc(a) + esc(b.drop_last()) + esc_char(b.last()) =~= esc(a) + esc(b));
    }
}

/// Front decomposition of the escape of a non-empty sequence.
pub proof fn lemma_esc_first(s: Seq<char>)
    requires
        s.len() > 0,
    ensures
        esc(s) == esc_char(s[0]) + esc(s.skip(1)),
{
    let h = seq![s[0]];
    assert(s =~= h + s.skip(1));
    lemma_esc_append(h, s.skip(1));
    assert(h.drop_last() =~= Seq::<char>::empty());
    assert(esc(h.drop_last()) == esc(Seq::<char>::empty()));
    assert(h.last() == s[0]);
    assert(esc(h) == Seq::<char>::empty() + esc_char(s[0]));
    assert(Seq::<char>::empty() + esc_char(s[0]) =~= esc_char(s[0]));
}

/// The lowercase hex digit for a value below 16.
pub fn hex_digit_x(n: u8) -> (c: char)
    requires
        n < 16,
    ensures
        c == hex_digit(n as int),
{
    match n {
        0 => '0',
        1 => '1',
        2 => '2',
        3 => '3',
        4 => '4',
        5 => '5',
        6 => '6',
        7 => '7',
        8 => '8',
        9 => '9',
        10 => 'a',
        11 => 'b',
        12 => 'c',
        13 => 'd',
        14 => 'e',
        _ => 'f',
    }
}

/// The value of a lowercase hex digit, or nothing for any other character.
pub fn unhex_x(c: char) -> (r: Option<u8>)
    ensures
        match r {
            Some(v) => v as int == unhex(c),
            None => unhex(c) == -1,
        },
{
    match c {
        '0' => Some(0),
        '1' => Some(1),
        '2' => Some(2),
        '3' => Some(3),
        '4' => Some(4),
        '5' => Some(5),
        '6' => Some(6),
        '7' => Some(7),
        '8' => Some(8),
        '9' => Some(9),
        'a' | 'A' => Some(10),
        'b' | 'B' => Some(11),
        'c' | 'C' => Some(12),
        'd' | 'D' => Some(13),
        'e' | 'E' => Some(14),
        'f' | 'F' => Some(15),
        _ => None,
    }
}

/// Append the canonical escape of the characters of `s` to `out`.
pub fn escape_into(s: &Vec<char>, out: &mut Vec<char>)
    ensures
        final(out)@ == old(out)@ + esc(s@),
{
    let n = s.len();
    let mut i: usize = 0;
    while i < n
        invariant
            n == s@.len(),
            i <= n,
            out@ == old(out)@ + esc(s@.subrange(0, i as int)),
        decreases n - i,
    {
        let ghost pre = s@.subrange(0, i as int);
        let c = s[i];
        if c == '"' {
            out.push('\\');
            out.push('"');
        } else if c == '\\' {
            out.push('\\');
            out.push('\\');
        } else if (c as u32) < 0x20 {
            let code = c as u32;
            out.push('\\');
            out.push('u');
            out.push('0');
            out.push('0');
            out.push(hex_digit_x((code / 16) as u8));
            out.push(hex_digit_x((code % 16) as u8));
        } else {
            out.push(c);
        }
        i = i + 1;
        proof {
            assert(s@.subrange(0, i as int).drop_last() =~= pre);
            assert(s@.subrange(0, i as int).last() == c);
            assert(esc(s@.subrange(0, i as int)) == esc(pre) + esc_char(c));
            assert(out@ =~= old(out)@ + esc(s@.subrange(0, i as int)));
        }
    }
    proof {
        assert(s@.subrange(0, n as int) =~= s@);
    }
}

/// Prefix one character onto a parse result.
pub open spec fn cons_parse(c: char, r: Option<(Seq<char>, Seq<char>)>) -> Option<
    (Seq<char>, Seq<char>),
> {
    match r {
        Some(p) => Some((seq![c] + p.0, p.1)),
        None => None,
    }
}

/// Parse a standard JSON string up to its closing quote; the result is
/// the unescaped value and the remainder after the quote.
pub open spec fn parse_jstring_spec(s: Seq<char>) -> Option<(Seq<char>, Seq<char>)>
    decreases s.len(),
{
    if s.len() == 0 {
        None
    } else if s[0] == '"' {
        Some((Seq::<char>::empty(), s.skip(1)))
    } else if s[0] == '\\' {
        if s.len() >= 2 && (s[1] == '"' || s[1] == '\\' || s[1] == '/') {
            cons_parse(s[1], parse_jstring_spec(s.skip(2)))
        } else if s.len() >= 2 && s[1] == 'b' {
            cons_parse('\u{8}', parse_jstring_spec(s.skip(2)))
        } else if s.len() >= 2 && s[1] == 'f' {
            cons_parse('\u{c}', parse_jstring_spec(s.skip(2)))
        } else if s.len() >= 2 && s[1] == 'n' {
            cons_parse('\n', parse_jstring_spec(s.skip(2)))
        } else if s.len() >= 2 && s[1] == 'r' {
            cons_parse('\r', parse_jstring_spec(s.skip(2)))
        } else if s.len() >= 2 && s[1] == 't' {
            cons_parse('\t', parse_jstring_spec(s.skip(2)))
        } else if s.len() >= 6 && s[1] == 'u' && hex4_val(s[2], s[3], s[4], s[5]) >= 0 && !(
        0xD800 <= hex4_val(s[2], s[3], s[4], s[5]) < 0xE000) {
            cons_parse(
                (hex4_val(s[2], s[3], s[4], s[5]) as u32) as char,
                parse_jstring_spec(s.skip(6)),
            )
        } else {
            None
        }
    } else if (s[0] as u32) >= 0x20 {
        cons_parse(s[0], parse_jstring_spec(s.skip(1)))
    } else {
        None
    }
}

/// Parse a canonically escaped string in `s` from position `start`.
/// On success the returned position stands just after the closing quote.
pub fn parse_jstring(s: &Vec<char>, start: usize) -> (r: Option<(Vec<char>, usize)>)
    requires
        start <= s@.len(),
    ensures
        match r {
            Some(p) => start < p.1 <= s@.len() && parse_jstring_spec(s@.skip(start as int))
                == Some((p.0@, s@.skip(p.1 as int))),
            None => parse_jstring_spec(s@.skip(start as int)) is None,
        },
{
    let slen = s.len();
    let mut i: usize = start;
    let mut out: Vec<char> = Vec::new();
    loop
        invariant
            slen == s@.len(),
            start <= i <= slen,
            match parse_jstring_spec(s@.skip(i as int)) {
                Some(p) => parse_jstring_spec(s@.skip(start as int)) == Some((out@ + p.0, p.1)),
                None => parse_jstring_spec(s@.skip(start as int)) is None,
            },
        decreases slen - i,
    {
        let ghost tail = s@.skip(i as int);
        if i >= slen {
            return None;
        }
        proof {
            assert(tail.len() == slen - i);
            assert(tail[0] == s@[i as int]);
        }
        let c = s[i];
        if c == '"' {
            proof {
                assert(tail.skip(1) =~= s@.skip(i + 1));
                assert(parse_jstring_spec(tail) == Some((Seq::<char>::empty(), s@.skip(i + 1))));
                assert(out@ + Seq::<char>::empty() =~= out@);
            }
            return Some((out, i + 1));
        } else if c == '\\' {
            if i + 1 >= slen {
                return None;
            }
            proof {
                assert(tail[1] == s@[i + 1]);
            }
            let c2 = s[i + 1];
            let short: Option<char> = match c2 {
                '"' => Some('"'),
                '\\' => Some('\\'),
                '/' => Some('/'),
                'b' => Some('\u{8}'),
                'f' => Some('\u{c}'),
                'n' => Some('\n'),
                'r' => Some('\r'),
                't' => Some('\t'),
                _ => None,
            };
            match short {
                Some(v) => {
                    proof {
                        assert(tail.skip(2) =~= s@.skip(i + 2));
                        assert(parse_jstring_spec(tail) == cons_parse(
                            v,
                            parse_jstring_spec(s@.skip(i + 2)),
                        ));
                        if let Some(p) = parse_jstring_spec(s@.skip(i + 2)) {
                            assert(out@ + (seq![v] + p.0) =~= out@.push(v) + p.0);
                        }
                    }
                    out.push(v);
                    i = i + 2;
                },
                None => {
                    if c2 != 'u' {
                        return None;
                    }
                    if slen - i < 6 {
                        return None;
                    }
                    proof {
                        assert(tail[2] == s@[i + 2]);
                        assert(tail[3] == s@[i + 3]);
                        assert(tail[4] == s@[i + 4]);
                        assert(tail[5] == s@[i + 5]);
                    }
                    let h0 = unhex_x(s[i + 2]);
                    let h1 = unhex_x(s[i + 3]);
                    let h2 = unhex_x(s[i + 4]);
                    let h3 = unhex_x(s[i + 5]);
                    match (h0, h1, h2, h3) {
                        (Some(a), Some(b), Some(c3), Some(d)) => {
                            let code: u32 = (a as u32) * 4096 + (b as u32) * 256 + (c3 as u32)
                                * 16 + (d as u32);
                            if 0xD800 <= code && code < 0xE000 {
                                return None;
                            }
                            let v = char_from_code(code);
                            proof {
                                assert(hex4_val(tail[2], tail[3], tail[4], tail[5])
                                    == code as int);
                                lemma_char_code_roundtrip(v);
                                assert(v == ((code as int as u32) as char));
                                assert(tail.skip(6) =~= s@.skip(i + 6));
                                assert(parse_jstring_spec(tail) == cons_parse(
                                    v,
                                    parse_jstring_spec(s@.skip(i + 6)),
                                ));
                                if let Some(p) = parse_jstring_spec(s@.skip(i + 6)) {
                                    assert(out@ + (seq![v] + p.0) =~= out@.push(v) + p.0);
                                }
                            }
                            out.push(v);
                            i = i + 6;
                        },
                        _ => {
                            return None;
                        },
                    }
                },
            }
        } else if (c as u32) >= 0x20 {
            proof {
                assert(tail.skip(1) =~= s@.skip(i + 1));
                assert(parse_jstring_spec(tail) == cons_parse(
                    c,
                    parse_jstring_spec(s@.skip(i + 1)),
                ));
                if let Some(p) = parse_jstring_spec(s@.skip(i + 1)) {
                    assert(out@ + (seq![c] + p.0) =~= out@.push(c) + p.0);
                }
            }
            out.push(c);
            i = i + 1;
        } else {
            return None;
        }
    }
}

/// The parser accepts the canonical escape of any value followed by the
/// closing quote, and hands back exactly that value and the remainder.
pub proof fn lemma_parse_esc(v: Seq<char>, rest: Seq<char>)
    ensures
        parse_jstring_spec(esc(v) + seq!['"'] + rest) == Some((v, rest)),
    decreases v.len(),
{
    let s = esc(v) + seq!['"'] + rest;
    if v.len() == 0 {
        assert(esc(v) =~= Seq::<char>::empty());
        assert(s[0] == '"');
        assert(s.skip(1) =~= rest);
        assert(parse_jstring_spec(s) == Some((Seq::<char>::empty(), rest)));
    } else {
        let c = v[0];
        let v1 = v.skip(1);
        lemma_esc_first(v);
        lemma_parse_esc(v1, rest);
        let s1 = esc(v1) + seq!['"'] + rest;
        assert(s =~= esc_char(c) + s1);
        assert(seq![c] + v1 =~= v);
        if c == '"' {
            assert(s[0] == '\\' && s[1] == '"');
            assert(s.skip(2) =~= s1);
            assert(parse_jstring_spec(s) == cons_parse('"', parse_jstring_spec(s1)));
        } else if c == '\\' {
            assert(s[0] == '\\' && s[1] == '\\');
            assert(s.skip(2) =~= s1);
            assert(parse_jstring_spec(s) == cons_parse('\\', parse_jstring_spec(s1)));
        } else if (c as u32) < 0x20 {
            let n = (c as u32) as int;
            let hi = n / 16;
            let lo = n % 16;
            lemma_fundamental_div_mod(n, 16);
            assert(s[0] == '\\' && s[1] == 'u' && s[2] == '0' && s[3] == '0');
            assert(s[4] == hex_digit(hi) && s[5] == hex_digit(lo));
            assert(unhex(hex_digit(hi)) == hi && unhex(hex_digit(lo)) == lo);
            assert(unhex('0') == 0);
            assert(hex4_val(s[2], s[3], s[4], s[5]) == n);
            lemma_char_code_roundtrip(c);
            assert(((n as u32) as char) == c);
            assert(s.skip(6) =~= s1);
            assert(parse_jstring_spec(s) == cons_parse(c, parse_jstring_spec(s1)));
        } else {
            assert(s[0] == c);
            assert(s.skip(1) =~= s1);
            assert(parse_jstring_spec(s) == cons_parse(c, parse_jstring_spec(s1)));
        }
        assert(parse_jstring_spec(s) == Some((v, rest)));
    }
}

} // verus!
