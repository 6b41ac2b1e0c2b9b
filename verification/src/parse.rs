//! Small parsing steps over the JSON forms the worker exchanges: an
//! expected literal, insignificant whitespace, punctuation tokens, object
//! keys, and the typed member values (booleans, strings, numbers and the
//! nullable variants). Each executable step is proved to agree with its
//! specification on the suffix it reads.

use vstd::prelude::*;
use crate::chars::{matches_at, expect_lit, str_to_chars, lemma_matches_at_skip, lemma_skip_skip};
use crate::jstr::{parse_jstring_spec, parse_jstring};
use crate::num::{parse_u32_spec, parse_u32};

verus! {

/// Consume `true` or `false` at the front of `s`.
pub open spec fn p_bool_spec(s: Seq<char>) -> Option<(bool, Seq<char>)> {
    if matches_at(s, 0, "true"@) {
        Some((true, s.skip("true"@.len() as int)))
    } else if matches_at(s, 0, "false"@) {
        Some((false, s.skip("false"@.len() as int)))
    } else {
        None
    }
}

/// Consume a quoted, canonically escaped string at the front of `s`.
pub open spec fn p_string_spec(s: Seq<char>) -> Option<(Seq<char>, Seq<char>)> {
    if s.len() > 0 && s[0] == '"' {
        parse_jstring_spec(s.skip(1))
    } else {
        None
    }
}

/// Consume `null` or a quoted string at the front of `s`.
pub open spec fn p_opt_string_spec(s: Seq<char>) -> Option<(Option<Seq<char>>, Seq<char>)> {
    if matches_at(s, 0, "null"@) {
        Some((None, s.skip("null"@.len() as int)))
    } else {
        match p_string_spec(s) {
            Some(p) => Some((Some(p.0), p.1)),
            None => None,
        }
    }
}

/// Consume `null` or a canonical decimal number at the front of `s`.
pub open spec fn p_opt_u32_spec(s: Seq<char>) -> Option<(Option<u32>, Seq<char>)> {
    if matches_at(s, 0, "null"@) {
        Some((None, s.skip("null"@.len() as int)))
    } else {
        match parse_u32_spec(s) {
            Some(p) => Some((Some(p.0), p.1)),
            None => None,
        }
    }
}

/// Read `true` or `false` in `s` at `i`.
pub fn step_bool(s: &Vec<char>, i: usize) -> (r: Option<(bool, usize)>)
    requires
        i <= s@.len(),
    ensures
        match r {
            Some(p) => i <= p.1 <= s@.len() && p_bool_spec(s@.skip(i as int)) == Some(
                (p.0, s@.skip(p.1 as int)),
            ),
            None => p_bool_spec(s@.skip(i as int)) is None,
        },
{
    let slen = s.len();
    let t = str_to_chars("true");
    let f = str_to_chars("false");
    proof {
        lemma_matches_at_skip(s@, i as int, t@);
        lemma_matches_at_skip(s@, i as int, f@);
    }
    if expect_lit(s, i, &t) {
        proof {
            lemma_skip_skip(s@, i as int, t@.len() as int);
        }
        Some((true, i + t.len()))
    } else if expect_lit(s, i, &f) {
        proof {
            lemma_skip_skip(s@, i as int, f@.len() as int);
        }
        Some((false, i + f.len()))
    } else {
        None
    }
}

/// Read a quoted, canonically escaped string in `s` at `i`.
pub fn step_string(s: &Vec<char>, i: usize) -> (r: Option<(Vec<char>, usize)>)
    requires
        i <= s@.len(),
    ensures
        match r {
            Some(p) => i < p.1 <= s@.len() && p_string_spec(s@.skip(i as int)) == Some(
                (p.0@, s@.skip(p.1 as int)),
            ),
            None => p_string_spec(s@.skip(i as int)) is None,
        },
{
    let ghost tail = s@.skip(i as int);
    if i >= s.len() {
        return None;
    }
    proof {
        assert(tail[0] == s@[i as int]);
    }
    if s[i] != '"' {
        return None;
    }
    proof {
        lemma_skip_skip(s@, i as int, 1);
    }
    parse_jstring(s, i + 1)
}

/// Read `null` or a quoted string in `s` at `i`.
pub fn step_opt_string(s: &Vec<char>, i: usize) -> (r: Option<(Option<Vec<char>>, usize)>)
    requires
        i <= s@.len(),
    ensures
        match r {
            Some(p) => i <= p.1 <= s@.len() && ({
                let v = match p.0 {
                    Some(ref w) => Some(w@),
                    None => None,
                };
                p_opt_string_spec(s@.skip(i as int)) == Some((v, s@.skip(p.1 as int)))
            }),
            None => p_opt_string_spec(s@.skip(i as int)) is None,
        },
{
    let slen = s.len();
    let nul = str_to_chars("null");
    proof {
        lemma_matches_at_skip(s@, i as int, nul@);
    }
    if expect_lit(s, i, &nul) {
        proof {
            lemma_skip_skip(s@, i as int, nul@.len() as int);
        }
        Some((None, i + nul.len()))
    } else {
        match step_string(s, i) {
            Some(p) => Some((Some(p.0), p.1)),
            None => None,
        }
    }
}

/// Read `null` or a canonical decimal number in `s` at `i`.
pub fn step_opt_u32(s: &Vec<char>, i: usize) -> (r: Option<(Option<u32>, usize)>)
    requires
        i <= s@.len(),
    ensures
        match r {
            Some(p) => i <= p.1 <= s@.len() && p_opt_u32_spec(s@.skip(i as int)) == Some(
                (p.0, s@.skip(p.1 as int)),
            ),
            None => p_opt_u32_spec(s@.skip(i as int)) is None,
        },
{
    let slen = s.len();
    let nul = str_to_chars("null");
    proof {
        lemma_matches_at_skip(s@, i as int, nul@);
    }
    if expect_lit(s, i, &nul) {
        proof {
            lemma_skip_skip(s@, i as int, nul@.len() as int);
        }
        Some((None, i + nul.len()))
    } else {
        match parse_u32(s, i) {
            Some(p) => Some((Some(p.0), p.1)),
            None => None,
        }
    }
}

/// A JSON whitespace character.
pub open spec fn is_ws(c: char) -> bool {
    c == ' ' || c == '\t' || c == '\n' || c == '\r'
}

/// A JSON whitespace character.
pub fn is_ws_x(c: char) -> (b: bool)
    ensures
        b == is_ws(c),
{
    c == ' ' || c == '\t' || c == '\n' || c == '\r'
}

/// The length of the run of whitespace at the front of `s`.
pub open spec fn ws_len(s: Seq<char>) -> int
    decreases s.len(),
{
    if s.len() > 0 && is_ws(s[0]) {
        1 + ws_len(s.skip(1))
    } else {
        0
    }
}

pub proof fn lemma_ws_len_bounds(s: Seq<char>)
    ensures
        0 <= ws_len(s) <= s.len(),
    decreases s.len(),
{
    if s.len() > 0 && is_ws(s[0]) {
        lemma_ws_len_bounds(s.skip(1));
    }
}

/// Skip the whitespace at position `i`.
pub fn skip_ws(s: &Vec<char>, i: usize) -> (j: usize)
    requires
        i <= s@.len(),
    ensures
        i <= j <= s@.len(),
        j - i == ws_len(s@.skip(i as int)),
        s@.skip(j as int) == s@.skip(i as int).skip(ws_len(s@.skip(i as int))),
{
    let slen = s.len();
    proof {
        lemma_ws_len_bounds(s@.skip(i as int));
        assert(s@.skip(i as int).skip(0) =~= s@.skip(i as int));
    }
    let mut j: usize = i;
    while j < slen && is_ws_x(s[j])
        invariant
            slen == s@.len(),
            i <= j <= slen,
            ws_len(s@.skip(i as int).skip(j - i)) == ws_len(s@.skip(i as int)) - (j - i),
            0 <= ws_len(s@.skip(i as int)) <= s@.len() - i,
        decreases slen - j,
    {
        proof {
            assert(s@.skip(i as int).skip(j - i)[0] == s@[j as int]);
            assert(s@.skip(i as int).skip(j - i).skip(1) =~= s@.skip(i as int).skip(j + 1 - i));
        }
        j = j + 1;
    }
    proof {
        if j < slen {
            assert(s@.skip(i as int).skip(j - i)[0] == s@[j as int]);
        }
        assert(ws_len(s@.skip(i as int).skip(j - i)) == 0);
        assert(s@.skip(j as int) =~= s@.skip(i as int).skip(j - i));
    }
    j
}

/// Consume whitespace, then one expected punctuation character.
pub open spec fn p_tok(s: Seq<char>, t: char) -> Option<Seq<char>> {
    let r = s.skip(ws_len(s));
    if r.len() > 0 && r[0] == t {
        Some(r.skip(1))
    } else {
        None
    }
}

/// Read whitespace and the expected punctuation character in `s` at `i`.
pub fn step_tok(s: &Vec<char>, i: usize, t: char) -> (r: Option<usize>)
    requires
        i <= s@.len(),
    ensures
        match r {
            Some(j) => i < j <= s@.len() && p_tok(s@.skip(i as int), t) == Some(
                s@.skip(j as int),
            ),
            None => p_tok(s@.skip(i as int), t) is None,
        },
{
    let j = skip_ws(s, i);
    let slen = s.len();
    if j < slen {
        proof {
            assert(s@.skip(j as int)[0] == s@[j as int]);
        }
        if s[j] == t {
            proof {
                assert(s@.skip(j as int).skip(1) =~= s@.skip(j + 1));
            }
            return Some(j + 1);
        }
    }
    None
}

/// Nothing but whitespace remains.
pub open spec fn p_end(s: Seq<char>) -> bool {
    ws_len(s) == s.len()
}

/// Whether only whitespace remains in `s` from `i`.
pub fn step_end(s: &Vec<char>, i: usize) -> (r: bool)
    requires
        i <= s@.len(),
    ensures
        r == p_end(s@.skip(i as int)),
{
    let j = skip_ws(s, i);
    j == s.len()
}

/// Whether two character vectors hold the same characters.
pub fn chars_eq(a: &Vec<char>, b: &Vec<char>) -> (r: bool)
    ensures
        r == (a@ == b@),
{
    let n = a.len();
    if n != b.len() {
        proof {
            assert(a@ != b@);
        }
        return false;
    }
    let mut k: usize = 0;
    while k < n
        invariant
            n == a@.len(),
            n == b@.len(),
            k <= n,
            forall|j: int| 0 <= j < k ==> a@[j] == b@[j],
        decreases n - k,
    {
        if a[k] != b[k] {
            return false;
        }
        k = k + 1;
    }
    proof {
        assert(a@ =~= b@);
    }
    true
}

/// Consume whitespace, a quoted key equal to `key`, whitespace and the
/// colon that follows it.
pub open spec fn p_key(s: Seq<char>, key: Seq<char>) -> Option<Seq<char>> {
    match p_string_spec(s.skip(ws_len(s))) {
        Some(k) => if k.0 == key {
            p_tok(k.1, ':')
        } else {
            None
        },
        None => None,
    }
}

/// Read the expected member key and its colon in `s` at `i`.
pub fn step_key(s: &Vec<char>, i: usize, key: &Vec<char>) -> (r: Option<usize>)
    requires
        i <= s@.len(),
    ensures
        match r {
            Some(j) => i <= j <= s@.len() && p_key(s@.skip(i as int), key@) == Some(
                s@.skip(j as int),
            ),
            None => p_key(s@.skip(i as int), key@) is None,
        },
{
    let j0 = skip_ws(s, i);
    match step_string(s, j0) {
        Some(p) => {
            if chars_eq(&p.0, key) {
                step_tok(s, p.1, ':')
            } else {
                None
            }
        },
        None => None,
    }
}

/// A member with a boolean value.
pub open spec fn p_member_bool(s: Seq<char>, key: Seq<char>) -> Option<(bool, Seq<char>)> {
    match p_key(s, key) {
        Some(r) => p_bool_spec(r.skip(ws_len(r))),
        None => None,
    }
}

/// Read a member with a boolean value in `s` at `i`.
pub fn step_member_bool(s: &Vec<char>, i: usize, key: &Vec<char>) -> (r: Option<(bool, usize)>)
    requires
        i <= s@.len(),
    ensures
        match r {
            Some(p) => i <= p.1 <= s@.len() && p_member_bool(s@.skip(i as int), key@) == Some(
                (p.0, s@.skip(p.1 as int)),
            ),
            None => p_member_bool(s@.skip(i as int), key@) is None,
        },
{
    match step_key(s, i, key) {
        Some(j) => {
            let k = skip_ws(s, j);
            step_bool(s, k)
        },
        None => None,
    }
}

/// A member with a string value.
pub open spec fn p_member_string(s: Seq<char>, key: Seq<char>) -> Option<(Seq<char>, Seq<char>)> {
    match p_key(s, key) {
        Some(r) => p_string_spec(r.skip(ws_len(r))),
        None => None,
    }
}

/// Read a member with a string value in `s` at `i`.
pub fn step_member_string(s: &Vec<char>, i: usize, key: &Vec<char>) -> (r: Option<
    (Vec<char>, usize),
>)
    requires
        i <= s@.len(),
    ensures
        match r {
            Some(p) => i <= p.1 <= s@.len() && p_member_string(s@.skip(i as int), key@) == Some(
                (p.0@, s@.skip(p.1 as int)),
            ),
            None => p_member_string(s@.skip(i as int), key@) is None,
        },
{
    match step_key(s, i, key) {
        Some(j) => {
            let k = skip_ws(s, j);
            step_string(s, k)
        },
        None => None,
    }
}

/// A member with a nullable string value.
pub open spec fn p_member_opt_string(s: Seq<char>, key: Seq<char>) -> Option<
    (Option<Seq<char>>, Seq<char>),
> {
    match p_key(s, key) {
        Some(r) => p_opt_string_spec(r.skip(ws_len(r))),
        None => None,
    }
}

/// Read a member with a nullable string value in `s` at `i`.
pub fn step_member_opt_string(s: &Vec<char>, i: usize, key: &Vec<char>) -> (r: Option<
    (Option<Vec<char>>, usize),
>)
    requires
        i <= s@.len(),
    ensures
        match r {
            Some(p) => i <= p.1 <= s@.len() && ({
                let v = match p.0 {
                    Some(ref w) => Some(w@),
                    None => None,
                };
                p_member_opt_string(s@.skip(i as int), key@) == Some((v, s@.skip(p.1 as int)))
            }),
            None => p_member_opt_string(s@.skip(i as int), key@) is None,
        },
{
    match step_key(s, i, key) {
        Some(j) => {
            let k = skip_ws(s, j);
            step_opt_string(s, k)
        },
        None => None,
    }
}

/// A member with an unsigned number value.
pub open spec fn p_member_u32(s: Seq<char>, key: Seq<char>) -> Option<(u32, Seq<char>)> {
    match p_key(s, key) {
        Some(r) => parse_u32_spec(r.skip(ws_len(r))),
        None => None,
    }
}

/// Read a member with an unsigned number value in `s` at `i`.
pub fn step_member_u32(s: &Vec<char>, i: usize, key: &Vec<char>) -> (r: Option<(u32, usize)>)
    requires
        i <= s@.len(),
    ensures
        match r {
            Some(p) => i <= p.1 <= s@.len() && p_member_u32(s@.skip(i as int), key@) == Some(
                (p.0, s@.skip(p.1 as int)),
            ),
            None => p_member_u32(s@.skip(i as int), key@) is None,
        },
{
    match step_key(s, i, key) {
        Some(j) => {
            let k = skip_ws(s, j);
            parse_u32(s, k)
        },
        None => None,
    }
}

/// A member with a nullable unsigned number value.
pub open spec fn p_member_opt_u32(s: Seq<char>, key: Seq<char>) -> Option<
    (Option<u32>, Seq<char>),
> {
    match p_key(s, key) {
        Some(r) => p_opt_u32_spec(r.skip(ws_len(r))),
        None => None,
    }
}

/// Read a member with a nullable unsigned number value in `s` at `i`.
pub fn step_member_opt_u32(s: &Vec<char>, i: usize, key: &Vec<char>) -> (r: Option<
    (Option<u32>, usize),
>)
    requires
        i <= s@.len(),
    ensures
        match r {
            Some(p) => i <= p.1 <= s@.len() && p_member_opt_u32(s@.skip(i as int), key@) == Some(
                (p.0, s@.skip(p.1 as int)),
            ),
            None => p_member_opt_u32(s@.skip(i as int), key@) is None,
        },
{
    match step_key(s, i, key) {
        Some(j) => {
            let k = skip_ws(s, j);
            step_opt_u32(s, k)
        },
        None => None,
    }
}

} // verus!
