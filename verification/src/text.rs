//! Character-level text utilities: conversion, lowercasing, substring
//! search, whitespace and separator splitting, decimal parsing and
//! decimal formatting.

use vstd::prelude::*;
use vstd::string::StrSliceExecFns;

verus! {

/// ASCII decimal digit.
pub open spec fn is_digit_char(c: char) -> bool {
    48 <= c as u32 && c as u32 <= 57
}

/// Numeric value of one digit character.
pub open spec fn digit_val(c: char) -> int {
    c as u32 - 48
}

/// Every character of the sequence is a decimal digit.
pub open spec fn all_digits(s: Seq<char>) -> bool {
    forall|i: int| 0 <= i < s.len() ==> is_digit_char(s[i])
}

/// Value of a digit string read left to right.
pub open spec fn dec_val(s: Seq<char>) -> int
    decreases s.len(),
{
    if s.len() == 0 {
        0
    } else {
        dec_val(s.drop_last()) * 10 + digit_val(s.last())
    }
}

/// ASCII whitespace, as produced by the external tools this library parses.
pub open spec fn is_ws_char(c: char) -> bool {
    c == ' ' || c == '\t' || c == '\n' || c == '\r'
}

/// ASCII lowercasing of one character.
pub open spec fn lower_char(c: char) -> char {
    if 65 <= c as u32 && c as u32 <= 90 {
        ((c as u32 + 32) as u8) as char
    } else {
        c
    }
}

/// Lowercased view of a character sequence.
pub open spec fn lower_seq(s: Seq<char>) -> Seq<char> {
    s.map_values(|c: char| lower_char(c))
}

/// The needle occurs in the haystack starting at position `i`.
pub open spec fn match_at(h: Seq<char>, n: Seq<char>, i: int) -> bool {
    0 <= i && i + n.len() <= h.len() && h.subrange(i, i + n.len()) == n
}

/// Substring containment.
pub open spec fn has_sub(h: Seq<char>, n: Seq<char>) -> bool {
    exists|i: int| match_at(h, n, i)
}

/// The haystack ends with the needle.
pub open spec fn ends_with(h: Seq<char>, n: Seq<char>) -> bool {
    n.len() <= h.len() && h.subrange(h.len() - n.len(), h.len() as int) == n
}

/// Collects the characters of a string slice into a vector.
pub fn str_to_chars(s: &str) -> (r: Vec<char>)
    ensures
        r@ == s@,
{
    let n: usize = s.unicode_len();
    let mut r: Vec<char> = Vec::new();
    let mut i: usize = 0;
    while i < n
        invariant
            n == s@.len(),
            i <= n,
            r@ == s@.subrange(0, i as int),
        decreases n - i,
    {
        r.push(s.get_char(i));
        i = i + 1;
        proof {
            assert(r@ =~= s@.subrange(0, i as int));
        }
    }
    proof {
        assert(r@ =~= s@);
    }
    r
}

/// Copies the characters in `[from, to)` out of a vector.
pub fn subvec(v: &Vec<char>, from: usize, to: usize) -> (r: Vec<char>)
    requires
        from <= to <= v@.len(),
    ensures
        r@ == v@.subrange(from as int, to as int),
{
    let mut r: Vec<char> = Vec::new();
    let mut i: usize = from;
    while i < to
        invariant
            from <= i <= to <= v@.len(),
            r@ == v@.subrange(from as int, i as int),
        decreases to - i,
    {
        r.push(v[i]);
        i = i + 1;
        proof {
            assert(r@ =~= v@.subrange(from as int, i as int));
        }
    }
    r
}

/// The characters of `v` are exactly those of `pat`.
pub fn chars_eq(v: &Vec<char>, pat: &str) -> (r: bool)
    ensures
        r == (v@ == pat@),
{
    let m: usize = pat.unicode_len();
    if v.len() != m {
        return false;
    }
    let mut i: usize = 0;
    while i < m
        invariant
            i <= m,
            m == pat@.len(),
            v@.len() == m,
            forall|j: int| 0 <= j < i ==> v@[j] == pat@[j],
        decreases m - i,
    {
        if v[i] != pat.get_char(i) {
            return false;
        }
        i = i + 1;
    }
    proof {
        assert(v@ =~= pat@);
    }
    true
}

/// ASCII-lowercases every character.
pub fn to_lower(v: &Vec<char>) -> (r: Vec<char>)
    ensures
        r@ == lower_seq(v@),
{
    let mut r: Vec<char> = Vec::new();
    let mut i: usize = 0;
    while i < v.len()
        invariant
            i <= v@.len(),
            r@.len() == i,
            forall|j: int| 0 <= j < i ==> r@[j] == lower_char(v@[j]),
        decreases v@.len() - i,
    {
        let cu: u32 = v[i] as u32;
        if 65 <= cu && cu <= 90 {
            r.push(((cu + 32) as u8) as char);
        } else {
            r.push(v[i]);
        }
        i = i + 1;
    }
    proof {
        assert(r@ =~= lower_seq(v@));
    }
    r
}

/// The needle (given as a string slice) matches the haystack at `i`.
fn is_match_at(hay: &Vec<char>, needle: &str, i: usize) -> (r: bool)
    requires
        i + needle@.len() <= hay@.len(),
    ensures
        r == match_at(hay@, needle@, i as int),
{
    let hlen: usize = hay.len();
    let m: usize = needle.unicode_len();
    let mut j: usize = 0;
    while j < m
        invariant
            j <= m,
            m == needle@.len(),
            hlen == hay@.len(),
            i + m <= hlen,
            forall|k: int| 0 <= k < j ==> hay@[i + k] == needle@[k],
        decreases m - j,
    {
        if hay[i + j] != needle.get_char(j) {
            proof {
                assert(hay@.subrange(i as int, i + needle@.len())[j as int] != needle@[j as int]);
            }
            return false;
        }
        j = j + 1;
    }
    proof {
        assert(hay@.subrange(i as int, i + needle@.len()) =~= needle@);
    }
    true
}

/// Substring search: does the needle occur anywhere in the haystack?
pub fn contains_chars(hay: &Vec<char>, needle: &str) -> (r: bool)
    ensures
        r == has_sub(hay@, needle@),
{
    let m: usize = needle.unicode_len();
    if m > hay.len() {
        proof {
            assert(forall|i: int| !match_at(hay@, needle@, i));
        }
        return false;
    }
    let bound: usize = hay.len() - m;
    let mut i: usize = 0;
    loop
        invariant
            m == needle@.len(),
            m <= hay@.len(),
            bound == hay@.len() - m,
            i <= bound,
            forall|k: int| 0 <= k < i ==> !match_at(hay@, needle@, k),
        decreases bound - i,
    {
        if is_match_at(hay, needle, i) {
            return true;
        }
        if i == bound {
            proof {
                assert(forall|k: int| match_at(hay@, needle@, k) ==> 0 <= k <= bound);
            }
            return false;
        }
        i = i + 1;
    }
}

/// Does the haystack end with the needle?
pub fn ends_with_chars(hay: &Vec<char>, needle: &str) -> (r: bool)
    ensures
        r == ends_with(hay@, needle@),
{
    let m: usize = needle.unicode_len();
    if m > hay.len() {
        return false;
    }
    is_match_at(hay, needle, hay.len() - m)
}

/// Parses the whole vector as an unsigned decimal number bounded by `max`.
pub fn parse_dec(v: &Vec<char>, max: u64) -> (r: Option<u64>)
    ensures
        (match r {
            Some(x) => v@.len() > 0 && all_digits(v@) && dec_val(v@) == x && x <= max,
            None => !(v@.len() > 0 && all_digits(v@) && dec_val(v@) <= max),
        }),
{
    if v.len() == 0 {
        return None;
    }
    let mut acc: u64 = 0;
    let mut i: usize = 0;
    while i < v.len()
        invariant
            i <= v@.len(),
            forall|j: int| 0 <= j < i ==> is_digit_char(v@[j]),
            acc == dec_val(v@.subrange(0, i as int)),
            acc <= max,
        decreases v@.len() - i,
    {
        let cu: u32 = v[i] as u32;
        if !(48 <= cu && cu <= 57) {
            return None;
        }
        let d: u64 = (cu - 48) as u64;
        proof {
            assert(v@.subrange(0, i + 1).drop_last() =~= v@.subrange(0, i as int));
            assert(dec_val(v@.subrange(0, i + 1)) == acc * 10 + d);
        }
        let next: u64 = match acc.checked_mul(10) {
            Some(x) => match x.checked_add(d) {
                Some(y) => y,
                None => {
                    proof {
                        lemma_dec_val_prefix_le(v@, i + 1);
                    }
                    return None;
                },
            },
            None => {
                proof {
                    lemma_dec_val_prefix_le(v@, i + 1);
                }
                return None;
            },
        };
        if next > max {
            proof {
                lemma_dec_val_prefix_le(v@, i + 1);
            }
            return None;
        }
        acc = next;
        i = i + 1;
    }
    proof {
        assert(v@.subrange(0, v@.len() as int) =~= v@);
    }
    Some(acc)
}

/// Digit strings are non-negative.
proof fn lemma_dec_val_nonneg(s: Seq<char>)
    requires
        all_digits(s),
    ensures
        dec_val(s) >= 0,
    decreases s.len(),
{
    if s.len() > 0 {
        assert(all_digits(s.drop_last()));
        lemma_dec_val_nonneg(s.drop_last());
    }
}

/// If every character of `s` is a digit, the value of a prefix never
/// exceeds the value of the whole string.
proof fn lemma_dec_val_prefix_le(s: Seq<char>, i: int)
    requires
        0 <= i <= s.len(),
    ensures
        all_digits(s) ==> dec_val(s.subrange(0, i)) <= dec_val(s),
    decreases s.len() - i,
{
    if all_digits(s) && i < s.len() {
        assert(s.subrange(0, i + 1).drop_last() =~= s.subrange(0, i));
        assert forall|j: int| 0 <= j < i implies is_digit_char(s.subrange(0, i)[j]) by {
            assert(s.subrange(0, i)[j] == s[j]);
        }
        lemma_dec_val_nonneg(s.subrange(0, i));
        assert(dec_val(s.subrange(0, i + 1)) == dec_val(s.subrange(0, i)) * 10 + digit_val(s[i]));
        lemma_dec_val_prefix_le(s, i + 1);
    }
    if all_digits(s) && i == s.len() {
        assert(s.subrange(0, i) =~= s);
    }
}

/// Numeric parse of an unsigned field: all digits, in `u32` range.
pub open spec fn spec_parse_u32(s: Seq<char>) -> Option<u32> {
    if s.len() > 0 && all_digits(s) && dec_val(s) <= u32::MAX {
        Some(dec_val(s) as u32)
    } else {
        None
    }
}

/// Numeric parse of an unsigned field: all digits, in `u16` range.
pub open spec fn spec_parse_u16(s: Seq<char>) -> Option<u16> {
    if s.len() > 0 && all_digits(s) && dec_val(s) <= u16::MAX {
        Some(dec_val(s) as u16)
    } else {
        None
    }
}

/// Numeric parse of a signed field: an optional leading minus sign, then
/// digits, in `i32` range.
pub open spec fn spec_parse_i32(s: Seq<char>) -> Option<int> {
    if s.len() > 0 && s[0] == '-' {
        let rest = s.subrange(1, s.len() as int);
        if rest.len() > 0 && all_digits(rest) && dec_val(rest) <= 2147483648 {
            Some(-dec_val(rest))
        } else {
            None
        }
    } else if s.len() > 0 && all_digits(s) && dec_val(s) <= 2147483647 {
        Some(dec_val(s))
    } else {
        None
    }
}

/// Parses the whole vector as a signed decimal number in `i32` range.
pub fn parse_i32(v: &Vec<char>) -> (r: Option<i32>)
    ensures
        (match r {
            Some(x) => spec_parse_i32(v@) == Some(x as int),
            None => spec_parse_i32(v@) is None,
        }),
{
    if v.len() > 0 && v[0] == '-' {
        let rest = subvec(v, 1, v.len());
        match parse_dec(&rest, 2147483648) {
            Some(x) => {
                let neg: i64 = -(x as i64);
                Some(neg as i32)
            },
            None => None,
        }
    } else {
        match parse_dec(v, 2147483647) {
            Some(x) => Some(x as i32),
            None => None,
        }
    }
}

/// Concatenates two string slices into an owned string.
pub fn concat_str(prefix: &str, rest: &str) -> (r: String)
    ensures
        r@ == prefix@ + rest@,
{
    let mut out = String::new();
    out.append(prefix);
    out.append(rest);
    proof {
        assert(out@ =~= prefix@ + rest@);
    }
    out
}

/// Decimal rendering of a non-negative number.
pub open spec fn dec_chars(n: int) -> Seq<char>
    decreases n,
{
    if n < 10 {
        seq![digit_char(n)]
    } else {
        dec_chars(n / 10).push(digit_char(n % 10))
    }
}

/// The character for one digit value.
pub open spec fn digit_char(d: int) -> char {
    ((48 + d) as u8) as char
}

/// One digit as a string slice.
fn digit_str(d: u64) -> (r: &'static str)
    requires
        d < 10,
    ensures
        r@ =~= seq![digit_char(d as int)],
{
    proof {
        reveal_strlit("0");
        reveal_strlit("1");
        reveal_strlit("2");
        reveal_strlit("3");
        reveal_strlit("4");
        reveal_strlit("5");
        reveal_strlit("6");
        reveal_strlit("7");
        reveal_strlit("8");
        reveal_strlit("9");
    }
    match d {
        0 => "0",
        1 => "1",
        2 => "2",
        3 => "3",
        4 => "4",
        5 => "5",
        6 => "6",
        7 => "7",
        8 => "8",
        _ => "9",
    }
}

/// Whitespace tokenization, written as a machine that walks the characters
/// once, carrying the token built so far and the tokens already emitted.
/// A token boundary emits the pending token; the end of input emits a final
/// pending token if one is open.
pub open spec fn ws_tokens_from(s: Seq<char>, i: int, cur: Seq<char>, acc: Seq<Seq<char>>) -> Seq<
    Seq<char>,
>
    decreases s.len() - i,
{
    if i < 0 || i >= s.len() {
        if cur.len() == 0 {
            acc
        } else {
            acc.push(cur)
        }
    } else if is_ws_char(s[i]) {
        ws_tokens_from(
            s,
            i + 1,
            Seq::empty(),
            if cur.len() == 0 {
                acc
            } else {
                acc.push(cur)
            },
        )
    } else {
        ws_tokens_from(s, i + 1, cur.push(s[i]), acc)
    }
}

/// The maximal whitespace-free runs of `s`, in order.
pub open spec fn ws_tokens(s: Seq<char>) -> Seq<Seq<char>> {
    ws_tokens_from(s, 0, Seq::empty(), Seq::empty())
}

/// Is this character whitespace?
pub fn is_ws(c: char) -> (r: bool)
    ensures
        r == is_ws_char(c),
{
    c == ' ' || c == '\t' || c == '\n' || c == '\r'
}

/// Splits `v` into its whitespace-separated tokens, returned as index
/// ranges into `v`.
pub fn split_ws_ranges(v: &Vec<char>) -> (r: Vec<(usize, usize)>)
    ensures
        r@.len() == ws_tokens(v@).len(),
        forall|k: int|
            0 <= k < r@.len() ==> (#[trigger] r@[k]).0 <= r@[k].1 <= v@.len() && v@.subrange(
                r@[k].0 as int,
                r@[k].1 as int,
            ) == ws_tokens(v@)[k],
{
    let ghost whole = v@;
    let mut out: Vec<(usize, usize)> = Vec::new();
    let mut i: usize = 0;
    let mut tstart: usize = 0;
    let mut in_tok: bool = false;
    proof {
        assert(out@.map_values(|p: (usize, usize)| whole.subrange(p.0 as int, p.1 as int))
            =~= Seq::<Seq<char>>::empty());
    }
    while i < v.len()
        invariant
            i <= whole.len(),
            whole == v@,
            in_tok ==> tstart < i,
            forall|k: int| 0 <= k < out@.len() ==> (#[trigger] out@[k]).0 <= out@[k].1
                <= whole.len(),
            ws_tokens(whole) == ws_tokens_from(
                whole,
                i as int,
                if in_tok {
                    whole.subrange(tstart as int, i as int)
                } else {
                    Seq::<char>::empty()
                },
                out@.map_values(|p: (usize, usize)| whole.subrange(p.0 as int, p.1 as int)),
            ),
        decreases whole.len() - i,
    {
        let ghost cur = if in_tok {
            whole.subrange(tstart as int, i as int)
        } else {
            Seq::<char>::empty()
        };
        let ghost accs = out@.map_values(
            |p: (usize, usize)| whole.subrange(p.0 as int, p.1 as int),
        );
        let c = v[i];
        if is_ws(c) {
            if in_tok {
                out.push((tstart, i));
                in_tok = false;
                proof {
                    assert(out@.map_values(
                        |p: (usize, usize)| whole.subrange(p.0 as int, p.1 as int),
                    ) =~= accs.push(cur));
                }
            }
        } else {
            if !in_tok {
                tstart = i;
                in_tok = true;
            }
            proof {
                assert(whole.subrange(tstart as int, i + 1) =~= cur.push(whole[i as int]));
            }
        }
        i = i + 1;
    }
    if in_tok {
        let ghost accs = out@.map_values(
            |p: (usize, usize)| whole.subrange(p.0 as int, p.1 as int),
        );
        let ghost cur = whole.subrange(tstart as int, i as int);
        out.push((tstart, i));
        proof {
            assert(out@.map_values(|p: (usize, usize)| whole.subrange(p.0 as int, p.1 as int))
                =~= accs.push(cur));
        }
    }
    proof {
        let toks = out@.map_values(|p: (usize, usize)| whole.subrange(p.0 as int, p.1 as int));
        assert(toks == ws_tokens(whole));
        assert(forall|k: int| 0 <= k < out@.len() ==> toks[k] == ws_tokens(whole)[k]);
    }
    out
}

/// Separator splitting, written as the same kind of machine. Unlike
/// whitespace tokenization it keeps empty pieces: every separator and the
/// end of input emit the pending piece unconditionally.
pub open spec fn split_from(
    s: Seq<char>,
    sep: char,
    i: int,
    cur: Seq<char>,
    acc: Seq<Seq<char>>,
) -> Seq<Seq<char>>
    decreases s.len() - i,
{
    if i < 0 || i >= s.len() {
        acc.push(cur)
    } else if s[i] == sep {
        split_from(s, sep, i + 1, Seq::empty(), acc.push(cur))
    } else {
        split_from(s, sep, i + 1, cur.push(s[i]), acc)
    }
}

/// The pieces of `s` between occurrences of `sep`; never empty as a list.
pub open spec fn split_seq(s: Seq<char>, sep: char) -> Seq<Seq<char>> {
    split_from(s, sep, 0, Seq::empty(), Seq::empty())
}

/// Splits `v` at every occurrence of `sep`, keeping empty pieces.
pub fn split_chars(v: &Vec<char>, sep: char) -> (r: Vec<Vec<char>>)
    ensures
        r@.map_values(|t: Vec<char>| t@) == split_seq(v@, sep),
        r@.len() > 0,
{
    let ghost whole = v@;
    let mut out: Vec<Vec<char>> = Vec::new();
    let mut i: usize = 0;
    let mut tstart: usize = 0;
    proof {
        assert(out@.map_values(|t: Vec<char>| t@) =~= Seq::<Seq<char>>::empty());
        assert(whole.subrange(0, 0) =~= Seq::<char>::empty());
    }
    while i < v.len()
        invariant
            tstart <= i <= whole.len(),
            whole == v@,
            split_seq(whole, sep) == split_from(
                whole,
                sep,
                i as int,
                whole.subrange(tstart as int, i as int),
                out@.map_values(|t: Vec<char>| t@),
            ),
        decreases whole.len() - i,
    {
        let ghost cur = whole.subrange(tstart as int, i as int);
        let ghost accs = out@.map_values(|t: Vec<char>| t@);
        let c = v[i];
        if c == sep {
            let tok = subvec(v, tstart, i);
            out.push(tok);
            tstart = i + 1;
            proof {
                assert(out@.map_values(|t: Vec<char>| t@) =~= accs.push(cur));
                assert(whole.subrange(tstart as int, i + 1) =~= Seq::<char>::empty());
            }
        } else {
            proof {
                assert(whole.subrange(tstart as int, i + 1) =~= cur.push(whole[i as int]));
            }
        }
        i = i + 1;
    }
    let ghost accs = out@.map_values(|t: Vec<char>| t@);
    let ghost cur = whole.subrange(tstart as int, i as int);
    let tok = subvec(v, tstart, i);
    out.push(tok);
    proof {
        assert(out@.map_values(|t: Vec<char>| t@) =~= accs.push(cur));
    }
    out
}

/// The suffix of `s` after the last occurrence of `sep`; the whole of `s`
/// if `sep` does not occur.
pub open spec fn after_last(s: Seq<char>, sep: char) -> Seq<char>
    decreases s.len(),
{
    if s.len() == 0 {
        s
    } else if s.last() == sep {
        Seq::empty()
    } else {
        after_last(s.drop_last(), sep).push(s.last())
    }
}

proof fn lemma_after_last(s: Seq<char>, sep: char, start: int)
    requires
        0 <= start <= s.len(),
        forall|m: int| start <= m < s.len() ==> s[m] != sep,
        start > 0 ==> s[start - 1] == sep,
    ensures
        after_last(s, sep) == s.subrange(start, s.len() as int),
    decreases s.len(),
{
    if start == s.len() {
        if s.len() == 0 {
            assert(after_last(s, sep) =~= s.subrange(start, s.len() as int));
        } else {
            assert(s.last() == sep);
            assert(after_last(s, sep) =~= s.subrange(start, s.len() as int));
        }
    } else {
        assert(s.last() != sep);
        let t = s.drop_last();
        assert(forall|m: int| start <= m < t.len() ==> t[m] == s[m]);
        if start > 0 {
            assert(t[start - 1] == s[start - 1]);
        }
        lemma_after_last(t, sep, start);
        assert(after_last(s, sep) == t.subrange(start, t.len() as int).push(s.last()));
        assert(t.subrange(start, t.len() as int).push(s.last()) =~= s.subrange(
            start,
            s.len() as int,
        ));
    }
}

/// Finds the start of the suffix after the last occurrence of `sep`.
pub fn suffix_after_last(v: &Vec<char>, sep: char) -> (start: usize)
    ensures
        start <= v@.len(),
        v@.subrange(start as int, v@.len() as int) == after_last(v@, sep),
{
    let mut j: usize = v.len();
    while j > 0
        invariant
            j <= v@.len(),
            forall|m: int| j <= m < v@.len() ==> v@[m] != sep,
        decreases j,
    {
        if v[j - 1] == sep {
            proof {
                lemma_after_last(v@, sep, j as int);
            }
            return j;
        }
        j = j - 1;
    }
    proof {
        lemma_after_last(v@, sep, 0);
    }
    0
}

/// Count of leading whitespace characters.
pub open spec fn lead_ws(s: Seq<char>) -> int
    decreases s.len(),
{
    if s.len() == 0 || !is_ws_char(s[0]) {
        0
    } else {
        1 + lead_ws(s.drop_first())
    }
}

/// Count of trailing whitespace characters.
pub open spec fn trail_ws(s: Seq<char>) -> int
    decreases s.len(),
{
    if s.len() == 0 || !is_ws_char(s.last()) {
        0
    } else {
        1 + trail_ws(s.drop_last())
    }
}

/// `s` with leading and trailing whitespace removed.
pub open spec fn spec_trim(s: Seq<char>) -> Seq<char> {
    if lead_ws(s) == s.len() {
        Seq::empty()
    } else {
        s.subrange(lead_ws(s), s.len() - trail_ws(s))
    }
}

proof fn lemma_lead_ws(s: Seq<char>, i: int)
    requires
        0 <= i <= s.len(),
        forall|j: int| 0 <= j < i ==> is_ws_char(s[j]),
        i < s.len() ==> !is_ws_char(s[i]),
    ensures
        lead_ws(s) == i,
    decreases s.len(),
{
    if i == 0 {
    } else {
        let t = s.drop_first();
        assert(forall|j: int| 0 <= j < i - 1 ==> t[j] == s[j + 1]);
        lemma_lead_ws(t, i - 1);
    }
}

proof fn lemma_trail_ws(s: Seq<char>, i: int)
    requires
        0 <= i <= s.len(),
        forall|j: int| s.len() - i <= j < s.len() ==> is_ws_char(s[j]),
        i < s.len() ==> !is_ws_char(s[s.len() - 1 - i]),
    ensures
        trail_ws(s) == i,
    decreases s.len(),
{
    if i == 0 {
    } else {
        let t = s.drop_last();
        assert(forall|j: int| 0 <= j < t.len() ==> t[j] == s[j]);
        lemma_trail_ws(t, i - 1);
    }
}

/// Removes leading and trailing whitespace, producing an owned string.
pub fn trim_str(s: &str) -> (r: String)
    ensures
        r@ == spec_trim(s@),
{
    let n: usize = s.unicode_len();
    let mut a: usize = 0;
    while a < n && is_ws(s.get_char(a))
        invariant
            a <= n,
            n == s@.len(),
            forall|j: int| 0 <= j < a ==> is_ws_char(s@[j]),
        decreases n - a,
    {
        a = a + 1;
    }
    proof {
        lemma_lead_ws(s@, a as int);
    }
    if a == n {
        return String::new();
    }
    let mut b: usize = n;
    while b > a && is_ws(s.get_char(b - 1))
        invariant
            a <= b <= n,
            n == s@.len(),
            forall|j: int| b <= j < n ==> is_ws_char(s@[j]),
        decreases b,
    {
        b = b - 1;
    }
    proof {
        assert(!is_ws_char(s@[a as int]));
        assert(b > a);
        assert(!is_ws_char(s@[b - 1]));
        lemma_trail_ws(s@, n - b);
    }
    s.substring_char(a, b).to_owned()
}

/// Appends the decimal rendering of `n` to a string.
pub fn append_dec(out: &mut String, n: u64)
    ensures
        final(out)@ == old(out)@ + dec_chars(n as int),
    decreases n,
{
    if n >= 10 {
        append_dec(out, n / 10);
    }
    out.append(digit_str(n % 10));
    proof {
        if n < 10 {
            assert(old(out)@ + dec_chars(n as int) =~= old(out)@ + seq![digit_char(n as int)]);
        } else {
            assert(old(out)@ + dec_chars(n as int) =~= (old(out)@ + dec_chars(n as int / 10))
                + seq![digit_char(n as int % 10)]);
        }
    }
}

} // verus!
