//! The letter table and the lookup of a received dot/dash sequence.
use vstd::prelude::*;

verus! {

/// Wire byte of a dot.
pub const DOT: u8 = 46;

/// Wire byte of a dash.
pub const DASH: u8 = 45;

/// Number of letters in the table, `A` to `Z`.
pub const LETTER_COUNT: usize = 26;

/// Symbols in the longest pattern of the table.
pub const LONGEST_PATTERN: usize = 4;

/// The pattern of the `i`-th letter (`0` is `A`), as wire bytes.
pub open spec fn pattern_spec(i: int) -> Seq<u8> {
    if i == 0 { seq![DOT, DASH] }
    else if i == 1 { seq![DASH, DOT, DOT, DOT] }
    else if i == 2 { seq![DASH, DOT, DASH, DOT] }
    else if i == 3 { seq![DASH, DOT, DOT] }
    else if i == 4 { seq![DOT] }
    else if i == 5 { seq![DOT, DOT, DASH, DOT] }
    else if i == 6 { seq![DASH, DASH, DOT] }
    else if i == 7 { seq![DOT, DOT, DOT, DOT] }
    else if i == 8 { seq![DOT, DOT] }
    else if i == 9 { seq![DOT, DASH, DASH, DASH] }
    else if i == 10 { seq![DASH, DOT, DASH] }
    else if i == 11 { seq![DOT, DASH, DOT, DOT] }
    else if i == 12 { seq![DASH, DASH] }
    else if i == 13 { seq![DASH, DOT] }
    else if i == 14 { seq![DASH, DASH, DASH] }
    else if i == 15 { seq![DOT, DASH, DASH, DOT] }
    else if i == 16 { seq![DASH, DASH, DOT, DASH] }
    else if i == 17 { seq![DOT, DASH, DOT] }
    else if i == 18 { seq![DOT, DOT, DOT] }
    else if i == 19 { seq![DASH] }
    else if i == 20 { seq![DOT, DOT, DASH] }
    else if i == 21 { seq![DOT, DOT, DOT, DASH] }
    else if i == 22 { seq![DOT, DASH, DASH] }
    else if i == 23 { seq![DASH, DOT, DOT, DASH] }
    else if i == 24 { seq![DASH, DOT, DASH, DASH] }
    else { seq![DASH, DASH, DOT, DOT] }
}

/// The `i`-th letter of the alphabet (`0` is `A`).
pub open spec fn letter_spec(i: int) -> char {
    (65 + i) as char
}

/// The letter whose pattern is `buf`, searching the table from index `i`;
/// `'?'` when none is.
pub open spec fn decode_from(buf: Seq<u8>, i: int) -> char
    decreases 26 - i,
{
    if i < 0 || i >= 26 {
        '?'
    } else if pattern_spec(i) == buf {
        letter_spec(i)
    } else {
        decode_from(buf, i + 1)
    }
}

/// The letter that a received sequence stands for, or `'?'`.
pub open spec fn decode_spec(buf: Seq<u8>) -> char {
    decode_from(buf, 0)
}

/// The pattern of the `index`-th letter (`0` is `A`).
pub fn letter_pattern(index: usize) -> (r: Vec<u8>)
    requires
        index < LETTER_COUNT,
    ensures
        r@ == pattern_spec(index as int),
        r@.len() <= LONGEST_PATTERN,
{
    match index {
        0 => vec![DOT, DASH],
        1 => vec![DASH, DOT, DOT, DOT],
        2 => vec![DASH, DOT, DASH, DOT],
        3 => vec![DASH, DOT, DOT],
        4 => vec![DOT],
        5 => vec![DOT, DOT, DASH, DOT],
        6 => vec![DASH, DASH, DOT],
        7 => vec![DOT, DOT, DOT, DOT],
        8 => vec![DOT, DOT],
        9 => vec![DOT, DASH, DASH, DASH],
        10 => vec![DASH, DOT, DASH],
        11 => vec![DOT, DASH, DOT, DOT],
        12 => vec![DASH, DASH],
        13 => vec![DASH, DOT],
        14 => vec![DASH, DASH, DASH],
        15 => vec![DOT, DASH, DASH, DOT],
        16 => vec![DASH, DASH, DOT, DASH],
        17 => vec![DOT, DASH, DOT],
        18 => vec![DOT, DOT, DOT],
        19 => vec![DASH],
        20 => vec![DOT, DOT, DASH],
        21 => vec![DOT, DOT, DOT, DASH],
        22 => vec![DOT, DASH, DASH],
        23 => vec![DASH, DOT, DOT, DASH],
        24 => vec![DASH, DOT, DASH, DASH],
        _ => vec![DASH, DASH, DOT, DOT],
    }
}

/// Whether two byte sequences are equal.
fn same_bytes(a: &[u8], b: &[u8]) -> (r: bool)
    ensures
        r == (a@ == b@),
{
    if a.len() != b.len() {
        return false;
    }
    let mut k: usize = 0;
    while k < a.len()
        invariant
            a@.len() == b@.len(),
            k <= a@.len(),
            forall|j: int| 0 <= j < k ==> a@[j] == b@[j],
        decreases a@.len() - k,
    {
        if a[k] != b[k] {
            return false;
        }
        k = k + 1;
    }
    assert(a@ =~= b@);
    true
}

/// The letter that the dot/dash sequence `morse` stands for: the first table
/// entry equal to it, or `'?'` when there is none (an empty sequence included).
pub fn decode_morse(morse: &[u8]) -> (r: char)
    ensures
        r == decode_spec(morse@),
{
    if morse.len() == 0 {
        proof {
            lemma_decode_skips_empty(morse@, 0);
        }
        return '?';
    }
    let mut i: usize = 0;
    while i < LETTER_COUNT
        invariant
            i <= 26,
            decode_from(morse@, i as int) == decode_spec(morse@),
        decreases 26 - i,
    {
        let p = letter_pattern(i);
        if same_bytes(p.as_slice(), morse) {
            return ((65u8 + i as u8) as char);
        }
        i = i + 1;
    }
    '?'
}

proof fn lemma_decode_skips_empty(buf: Seq<u8>, i: int)
    requires
        buf.len() == 0,
        0 <= i <= 26,
    ensures
        decode_from(buf, i) == '?',
    decreases 26 - i,
{
    if i < 26 {
        assert(pattern_spec(i).len() > 0);
        lemma_decode_skips_empty(buf, i + 1);
    }
}

/// No two letters share a pattern.
pub proof fn lemma_patterns_distinct(i: int, j: int)
    requires
        0 <= i < 26,
        0 <= j < 26,
        pattern_spec(i) == pattern_spec(j),
    ensures
        i == j,
{
    let pi = pattern_spec(i);
    let pj = pattern_spec(j);
    assert(pi.len() == pj.len());
    if pi.len() >= 1 { assert(pi[0] == pj[0]); }
    if pi.len() >= 2 { assert(pi[1] == pj[1]); }
    if pi.len() >= 3 { assert(pi[2] == pj[2]); }
    if pi.len() >= 4 { assert(pi[3] == pj[3]); }
}

/// Looking up the pattern of a letter gives that letter back.
pub proof fn lemma_decode_pattern(i: int)
    requires
        0 <= i < 26,
    ensures
        decode_spec(pattern_spec(i)) == letter_spec(i),
{
    lemma_decode_reaches(pattern_spec(i), 0, i);
}

proof fn lemma_decode_reaches(buf: Seq<u8>, k: int, i: int)
    requires
        0 <= k <= i < 26,
        buf == pattern_spec(i),
    ensures
        decode_from(buf, k) == letter_spec(i),
    decreases i - k,
{
    if k < i {
        if pattern_spec(k) == buf {
            lemma_patterns_distinct(k, i);
        }
        lemma_decode_reaches(buf, k + 1, i);
    }
}

} // verus!
