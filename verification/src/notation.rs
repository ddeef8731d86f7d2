//! Algebraic square notation (file letter plus rank digit) and the
//! small text-splitting helper the surrounding tooling shares.

use vstd::prelude::*;

use vstd::string::StrSliceExecFns;

verus! {

/// Column denoted by a file letter; 8 marks a letter outside 'a'..'h'.
pub open spec fn spec_file_value(c: char) -> int {
    if c == 'a' {
        0
    } else if c == 'b' {
        1
    } else if c == 'c' {
        2
    } else if c == 'd' {
        3
    } else if c == 'e' {
        4
    } else if c == 'f' {
        5
    } else if c == 'g' {
        6
    } else if c == 'h' {
        7
    } else {
        8
    }
}

/// A well-formed algebraic square: two characters, a file letter
/// 'a'..'h' and a rank digit '1'..'8'.
pub open spec fn valid_notation(s: Seq<char>) -> bool {
    &&& s.len() == 2
    &&& spec_file_value(s[0]) < 8
    &&& '1' <= s[1] <= '8'
}

/// The square index a valid notation denotes: file plus eight times the
/// zero-based rank.
pub open spec fn notation_index(s: Seq<char>) -> int
    recommends
        valid_notation(s),
{
    spec_file_value(s[0]) + (s[1] as int - '1' as int) * 8
}

/// Column of a file letter 'a'..'h'.
fn file_to_col(c: char) -> (r: usize)
    requires
        spec_file_value(c) < 8,
    ensures
        r == spec_file_value(c),
{
    match c {
        'a' => 0,
        'b' => 1,
        'c' => 2,
        'd' => 3,
        'e' => 4,
        'f' => 5,
        'g' => 6,
        _ => 7,
    }
}

/// Parses two-character algebraic squares into their indices. Malformed
/// notation is a caller error, excluded up front: every entry must be a
/// file letter 'a'..'h' followed by a rank digit '1'..'8'.
pub fn notation_to_idx(positions: &[&str]) -> (r: Vec<usize>)
    requires
        forall|k: int| 0 <= k < positions@.len() ==> valid_notation(#[trigger] positions@[k]@),
    ensures
        r@.len() == positions@.len(),
        forall|k: int|
            0 <= k < r@.len() ==> r@[k] == notation_index(positions@[k]@) && #[trigger] r@[k] < 64,
{
    let mut pos_idx_arr: Vec<usize> = Vec::new();
    let mut i: usize = 0;
    while i < positions.len()
        invariant
            i <= positions@.len(),
            pos_idx_arr@.len() == i,
            forall|k: int| 0 <= k < positions@.len() ==> valid_notation(#[trigger] positions@[k]@),
            forall|k: int|
                0 <= k < i ==> pos_idx_arr@[k] == notation_index(positions@[k]@)
                    && #[trigger] pos_idx_arr@[k] < 64,
        decreases positions@.len() - i,
    {
        let pos = positions[i];
        let file = pos.get_char(0);
        let rank = pos.get_char(1);
        let col = file_to_col(file);
        let rank_val = (rank as u32 - '1' as u32) as usize;
        let idx = col + rank_val * 8;
        pos_idx_arr.push(idx);
        i = i + 1;
    }
    pos_idx_arr
}

/// Splits at the first occurrence of `sep`: the text before it and the
/// text after it. Without an occurrence, the whole text and empty rest.
pub fn split_on<'a>(s: &'a str, sep: char) -> (r: (&'a str, &'a str))
    ensures
        !r.0@.contains(sep),
        s@.contains(sep) ==> s@ == r.0@ + seq![sep] + r.1@,
        !s@.contains(sep) ==> r.0@ == s@ && r.1@.len() == 0,
{
    let len = s.unicode_len();
    let mut i: usize = 0;
    while i < len
        invariant
            i <= len,
            len == s@.len(),
            forall|j: int| 0 <= j < i ==> s@[j] != sep,
        decreases len - i,
    {
        if s.get_char(i) == sep {
            let before = s.substring_char(0, i);
            let after = s.substring_char(i + 1, len);
            proof {
                assert(s@.contains(sep)) by {
                    assert(0 <= (i as int) && (i as int) < s@.len() && s@[i as int] == sep);
                }
                assert(s@ =~= before@ + seq![sep] + after@);
                if before@.contains(sep) {
                    let j = choose|j: int| 0 <= j < before@.len() && before@[j] == sep;
                    assert(s@[j] == sep);
                }
            }
            return (before, after);
        }
        i = i + 1;
    }
    proof {
        if s@.contains(sep) {
            let j = choose|j: int| 0 <= j < s@.len() && s@[j] == sep;
            assert(s@[j] != sep);
        }
        reveal_strlit("");
        assert(""@.len() == 0);
    }
    (s, "")
}

/// A square index determines its notation: two valid notations that
/// denote the same square are the same text.
pub proof fn lemma_notation_injective(s1: Seq<char>, s2: Seq<char>)
    requires
        valid_notation(s1),
        valid_notation(s2),
        notation_index(s1) == notation_index(s2),
    ensures
        s1 =~= s2,
{
    assert(spec_file_value(s1[0]) == spec_file_value(s2[0]) && s1[1] as int == s2[1] as int) by (nonlinear_arith)
        requires
            0 <= spec_file_value(s1[0]) < 8,
            0 <= spec_file_value(s2[0]) < 8,
            '1' <= s1[1] <= '8',
            '1' <= s2[1] <= '8',
            spec_file_value(s1[0]) + (s1[1] as int - '1' as int) * 8 == spec_file_value(s2[0]) + (
            s2[1] as int - '1' as int) * 8,
    ;
    assert(s1[0] == s2[0]);
    assert(s1[1] == s2[1]);
}

} // verus!
