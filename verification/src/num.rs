//! Canonical decimal text for unsigned integers: the printer used in
//! error messages and the parser used on the worker's JSON bodies.

use vstd::prelude::*;

verus! {

/// The decimal digit character for a value below ten.
pub open spec fn dec_digit(n: int) -> char {
    if n == 0 { '0' }
    else if n == 1 { '1' }
    else if n == 2 { '2' }
    else if n == 3 { '3' }
    else if n == 4 { '4' }
    else if n == 5 { '5' }
    else if n == 6 { '6' }
    else if n == 7 { '7' }
    else if n == 8 { '8' }
    else if n == 9 { '9' }
    else { '0' }
}

/// The value of a decimal digit character, or -1 for any other character.
pub open spec fn dec_val(c: char) -> int {
    if c == '0' { 0 }
    else if c == '1' { 1 }
    else if c == '2' { 2 }
    else if c == '3' { 3 }
    else if c == '4' { 4 }
    else if c == '5' { 5 }
    else if c == '6' { 6 }
    else if c == '7' { 7 }
    else if c == '8' { 8 }
    else if c == '9' { 9 }
    else { -1 }
}

/// The canonical decimal text of a natural number, most significant digit
/// first, no leading zeros.
pub open spec fn dec_text(n: nat) -> Seq<char>
    decreases n,
{
    if n < 10 {
        seq![dec_digit(n as int)]
    } else {
        dec_text(n / 10) + seq![dec_digit((n % 10) as int)]
    }
}

/// The decimal digit character for a value below ten.
pub fn dec_digit_x(n: u32) -> (c: char)
    requires
        n < 10,
    ensures
        c == dec_digit(n as int),
{
    match n {
        0 => '0',
        1 => '1',
        2 => '2',
        3 => '3',
        4 => '4',
        5 => '5',
        6 => '6',
        7 => '7',
        8 => '8',
        _ => '9',
    }
}

/// The value of a decimal digit character, or nothing.
pub fn dec_val_x(c: char) -> (r: Option<u32>)
    ensures
        match r {
            Some(v) => v as int == dec_val(c),
            None => dec_val(c) == -1,
        },
{
    match c {
        '0' => Some(0),
        '1' => Some(1),
        '2' => Some(2),
        '3' => Some(3),
        '4' => Some(4),
        '5' => Some(5),
        '6' => Some(6),
        '7' => Some(7),
        '8' => Some(8),
        '9' => Some(9),
        _ => None,
    }
}

/// Append the canonical decimal text of `n` to `out`.
pub fn push_u32_dec(n: u32, out: &mut Vec<char>)
    ensures
        final(out)@ == old(out)@ + dec_text(n as nat),
    decreases n,
{
    if n < 10 {
        out.push(dec_digit_x(n));
        proof {
            assert(out@ =~= old(out)@ + dec_text(n as nat));
        }
    } else {
        push_u32_dec(n / 10, out);
        out.push(dec_digit_x(n % 10));
        proof {
            assert(out@ =~= old(out)@ + (dec_text((n / 10) as nat) + seq![
                dec_digit((n % 10) as int),
            ]));
        }
    }
}

/// The length of the maximal run of decimal digits at the front of `s`.
pub open spec fn digit_run_len(s: Seq<char>) -> int
    decreases s.len(),
{
    if s.len() == 0 || dec_val(s[0]) < 0 {
        0
    } else {
        1 + digit_run_len(s.skip(1))
    }
}

/// The value of an all-digit sequence, most significant digit first.
pub open spec fn dec_value(s: Seq<char>) -> int
    decreases s.len(),
{
    if s.len() == 0 {
        0
    } else {
        dec_value(s.drop_last()) * 10 + dec_val(s.last())
    }
}

/// Parse a canonical decimal `u32` at the front of `s`: at least one
/// digit, no leading zero, value in range; the remainder follows the run.
pub open spec fn parse_u32_spec(s: Seq<char>) -> Option<(u32, Seq<char>)> {
    let k = digit_run_len(s);
    if k == 0 {
        None
    } else if k > 1 && s[0] == '0' {
        None
    } else if dec_value(s.take(k)) <= u32::MAX {
        Some((dec_value(s.take(k)) as u32, s.skip(k)))
    } else {
        None
    }
}

pub proof fn lemma_digit_run_len_bounds(s: Seq<char>)
    ensures
        0 <= digit_run_len(s) <= s.len(),
        forall|j: int| 0 <= j < digit_run_len(s) ==> dec_val(s[j]) >= 0,
        digit_run_len(s) < s.len() ==> dec_val(s[digit_run_len(s)]) < 0,
    decreases s.len(),
{
    if s.len() == 0 || dec_val(s[0]) < 0 {
    } else {
        lemma_digit_run_len_bounds(s.skip(1));
        assert forall|j: int| 0 <= j < digit_run_len(s) implies dec_val(s[j]) >= 0 by {
            if j > 0 {
                assert(s.skip(1)[j - 1] == s[j]);
            }
        }
        if digit_run_len(s) < s.len() {
            assert(s.skip(1)[digit_run_len(s) - 1] == s[digit_run_len(s)]);
        }
    }
}

/// The value of each strict digit prefix stays within the full value.
pub proof fn lemma_dec_value_prefix_monotone(s: Seq<char>, k: int)
    requires
        0 <= k <= s.len(),
        forall|j: int| 0 <= j < s.len() ==> dec_val(s[j]) >= 0,
    ensures
        0 <= dec_value(s.take(k)) <= dec_value(s),
    decreases s.len() - k,
{
    if k == s.len() {
        assert(s.take(k) =~= s);
        lemma_dec_value_nonneg(s);
    } else {
        lemma_dec_value_prefix_monotone(s, k + 1);
        let t = s.take(k + 1);
        assert(t.drop_last() =~= s.take(k));
        assert(dec_val(t.last()) >= 0);
        assert(dec_value(s.take(k)) <= dec_value(s.take(k)) * 10 + dec_val(t.last())) by {
            lemma_dec_value_nonneg(s.take(k));
        }
    }
}

pub proof fn lemma_dec_value_nonneg(s: Seq<char>)
    requires
        forall|j: int| 0 <= j < s.len() ==> dec_val(s[j]) >= 0,
    ensures
        dec_value(s) >= 0,
    decreases s.len(),
{
    if s.len() > 0 {
        assert(forall|j: int| 0 <= j < s.drop_last().len() ==> dec_val(s.drop_last()[j]) >= 0);
        lemma_dec_value_nonneg(s.drop_last());
    }
}

/// Parse a canonical decimal `u32` in `s` from position `start`.
pub fn parse_u32(s: &Vec<char>, start: usize) -> (r: Option<(u32, usize)>)
    requires
        start <= s@.len(),
    ensures
        match r {
            Some(p) => start < p.1 <= s@.len() && parse_u32_spec(s@.skip(start as int)) == Some(
                (p.0, s@.skip(p.1 as int)),
            ),
            None => parse_u32_spec(s@.skip(start as int)) is None,
        },
{
    let ghost tail = s@.skip(start as int);
    let slen = s.len();
    proof {
        lemma_digit_run_len_bounds(tail);
    }
    let ghost k = digit_run_len(tail);
    proof {
        assert(tail.skip(0) =~= tail);
    }
    // find the end of the digit run
    let mut end: usize = start;
    while end < slen && dec_val_x(s[end]).is_some()
        invariant
            slen == s@.len(),
            start <= end <= slen,
            tail == s@.skip(start as int),
            forall|j: int| 0 <= j < end - start ==> dec_val(tail[j]) >= 0,
            digit_run_len(tail.skip(end - start)) == digit_run_len(tail) - (end - start),
            0 <= digit_run_len(tail) <= tail.len(),
        decreases slen - end,
    {
        proof {
            assert(tail.skip(end - start)[0] == s@[end as int]);
            assert(tail.skip(end - start).skip(1) =~= tail.skip(end + 1 - start));
        }
        end = end + 1;
    }
    proof {
        if end < slen {
            assert(tail.skip(end - start)[0] == s@[end as int]);
        }
        assert(digit_run_len(tail.skip(end - start)) == 0);
        assert(k == end - start);
    }
    if end == start {
        return None;
    }
    proof {
        assert(tail[0] == s@[start as int]);
    }
    if end - start > 1 {
        let c0 = s[start];
        if c0 == '0' {
            proof {
                assert(tail[0] == s@[start as int]);
            }
            return None;
        }
    }
    // accumulate the value, rejecting anything beyond u32::MAX
    let mut acc: u64 = 0;
    let mut i: usize = start;
    while i < end
        invariant
            slen == s@.len(),
            start <= i <= end <= slen,
            tail == s@.skip(start as int),
            k == end - start,
            k == digit_run_len(tail),
            k > 1 ==> tail[0] != '0',
            forall|j: int| 0 <= j < k ==> dec_val(tail[j]) >= 0,
            acc as int == dec_value(tail.take(i - start)),
            acc <= u32::MAX as u64,
        decreases end - i,
    {
        proof {
            assert(tail[i - start] == s@[i as int]);
            assert(tail.take(i + 1 - start).drop_last() =~= tail.take(i - start));
            assert(tail.take(i + 1 - start).last() == tail[i - start]);
        }
        let d = match dec_val_x(s[i]) {
            Some(d) => d,
            None => {
                proof {
                    assert(false);
                }
                0
            },
        };
        acc = acc * 10 + d as u64;
        i = i + 1;
        if acc > u32::MAX as u64 {
            proof {
                lemma_dec_value_prefix_monotone(tail.take(k), i - start);
                assert(tail.take(k).take(i - start) =~= tail.take(i - start));
                assert(dec_value(tail.take(k)) > u32::MAX);
                assert(parse_u32_spec(tail) is None);
            }
            return None;
        }
    }
    proof {
        assert(tail.take(i - start) =~= tail.take(k));
        assert(parse_u32_spec(tail) == Some((acc as u32, tail.skip(k))));
        assert(tail.skip(k) =~= s@.skip(end as int));
    }
    Some((acc as u32, end))
}

} // verus!
