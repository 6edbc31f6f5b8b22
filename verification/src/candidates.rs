//! Enumeration of every three-letter lowercase candidate name.
//!
//! The sequence runs `aaa, aab, ..., aaz, aba, ..., zzz` — lexicographic
//! order with the last letter varying fastest — and holds exactly
//! 26 * 26 * 26 = 17,576 entries.

use vstd::prelude::*;
use vstd::arithmetic::div_mod::lemma_div_pos_is_pos;
use vstd::arithmetic::div_mod::lemma_fundamental_div_mod;
use vstd::arithmetic::div_mod::lemma_fundamental_div_mod_converse;
use vstd::arithmetic::div_mod::lemma_div_denominator;
use vstd::arithmetic::div_mod::lemma_mod_division_less_than_divisor;
use vstd::arithmetic::div_mod::lemma_multiply_divide_lt;
use crate::lines::push_char;

verus! {

/// How many candidates the generator yields: 26 * 26 * 26.
pub const CANDIDATE_COUNT: usize = 17576;

/// The `k`-th lowercase letter: `letter(0) == 'a'`, ..., `letter(25) == 'z'`.
pub open spec fn letter(k: int) -> char {
    (97 + k) as char
}

/// The candidate at position `i`: the three base-26 digits of `i`, most
/// significant first, written as lowercase letters.
pub open spec fn candidate_at(i: int) -> Seq<char> {
    seq![letter(i / 676), letter((i / 26) % 26), letter(i % 26)]
}

/// `s` is three characters, each a lowercase letter.
pub open spec fn is_candidate(s: Seq<char>) -> bool {
    &&& s.len() == 3
    &&& forall|j: int| 0 <= j < 3 ==> 97 <= (#[trigger] s[j]) as int <= 122
}

/// Strict lexicographic order on character sequences, comparing scalar
/// values position by position; a proper prefix precedes its extensions.
pub open spec fn lex_lt(x: Seq<char>, y: Seq<char>) -> bool
    decreases x.len(),
{
    if y.len() == 0 {
        false
    } else if x.len() == 0 {
        true
    } else if x[0] != y[0] {
        (x[0] as int) < (y[0] as int)
    } else {
        lex_lt(x.drop_first(), y.drop_first())
    }
}

/// A position `i = a*676 + b*26 + c` built from digits in range has exactly
/// those digits.
proof fn lemma_digits_of_index(a: int, b: int, c: int)
    requires
        0 <= a < 26,
        0 <= b < 26,
        0 <= c < 26,
    ensures
        0 <= a * 676 + b * 26 + c < 17576,
        (a * 676 + b * 26 + c) / 676 == a,
        ((a * 676 + b * 26 + c) / 26) % 26 == b,
        (a * 676 + b * 26 + c) % 26 == c,
{
    let i = a * 676 + b * 26 + c;
    lemma_fundamental_div_mod_converse(i, 676, a, b * 26 + c);
    assert(a * 676 + b * 26 + c == (a * 26 + b) * 26 + c) by (nonlinear_arith);
    lemma_fundamental_div_mod_converse(i, 26, a * 26 + b, c);
    lemma_fundamental_div_mod_converse(a * 26 + b, 26, a, b);
}

/// Any position below 17,576 splits into three base-26 digits.
proof fn lemma_index_digits(i: int)
    requires
        0 <= i < 17576,
    ensures
        0 <= i / 676 < 26,
        0 <= (i / 26) % 26 < 26,
        0 <= i % 26 < 26,
        i == (i / 676) * 676 + ((i / 26) % 26) * 26 + (i % 26),
{
    lemma_div_pos_is_pos(i, 676);
    assert(26 * 676 == 17576);
    lemma_multiply_divide_lt(i, 676, 26);
    lemma_mod_division_less_than_divisor(i / 26, 26);
    lemma_mod_division_less_than_divisor(i, 26);
    lemma_fundamental_div_mod(i, 26);
    lemma_fundamental_div_mod(i / 26, 26);
    lemma_div_denominator(i, 26, 26);
    assert(i == (i / 676) * 676 + ((i / 26) % 26) * 26 + (i % 26)) by (nonlinear_arith)
        requires
            i == 26 * (i / 26) + (i % 26),
            i / 26 == 26 * ((i / 26) / 26) + ((i / 26) % 26),
            (i / 26) / 26 == i / 676,
    ;
}

/// Every candidate is three lowercase letters.
pub proof fn lemma_candidate_shape(i: int)
    requires
        0 <= i < 17576,
    ensures
        is_candidate(candidate_at(i)),
{
    lemma_index_digits(i);
    assert forall|j: int| 0 <= j < 3 implies 97 <= (#[trigger] candidate_at(i)[j]) as int
        <= 122 by {
        let k = if j == 0 {
            i / 676
        } else if j == 1 {
            (i / 26) % 26
        } else {
            i % 26
        };
        assert(candidate_at(i)[j] == letter(k));
        assert(97 <= 97 + k <= 122);
        assert(((97 + k) as char) as int == 97 + k);
    }
}

/// Positions in order give candidates in strict lexicographic order: the
/// enumeration is sorted, hence free of duplicates.
pub proof fn lemma_candidates_ordered(i: int, j: int)
    requires
        0 <= i < j < 17576,
    ensures
        lex_lt(candidate_at(i), candidate_at(j)),
{
    lemma_index_digits(i);
    lemma_index_digits(j);
    let a1 = i / 676;
    let b1 = (i / 26) % 26;
    let c1 = i % 26;
    let a2 = j / 676;
    let b2 = (j / 26) % 26;
    let c2 = j % 26;
    let x = candidate_at(i);
    let y = candidate_at(j);
    assert(a1 < a2 || (a1 == a2 && b1 < b2) || (a1 == a2 && b1 == b2 && c1 < c2));
    assert(((97 + a1) as char) as int == 97 + a1);
    assert(((97 + a2) as char) as int == 97 + a2);
    assert(((97 + b1) as char) as int == 97 + b1);
    assert(((97 + b2) as char) as int == 97 + b2);
    assert(((97 + c1) as char) as int == 97 + c1);
    assert(((97 + c2) as char) as int == 97 + c2);
    if a1 < a2 {
        assert((x[0] as int) < (y[0] as int));
        assert(x[0] != y[0]);
    } else if b1 < b2 {
        assert(x[0] == y[0]);
        assert(x.drop_first()[0] == x[1]);
        assert((x[1] as int) < (y[1] as int));
        assert(lex_lt(x.drop_first(), y.drop_first()));
    } else {
        assert(x[0] == y[0] && x[1] == y[1]);
        assert((x[2] as int) < (y[2] as int));
        assert(x.drop_first().drop_first()[0] == x[2]);
        assert(lex_lt(x.drop_first().drop_first(), y.drop_first().drop_first()));
        assert(lex_lt(x.drop_first(), y.drop_first()));
    }
}

/// Distinct positions give distinct candidates: the 17,576 entries are
/// pairwise unique.
pub proof fn lemma_candidates_unique(i: int, j: int)
    requires
        0 <= i < 17576,
        0 <= j < 17576,
        i != j,
    ensures
        candidate_at(i) != candidate_at(j),
{
    lemma_index_digits(i);
    lemma_index_digits(j);
    if candidate_at(i) == candidate_at(j) {
        assert(letter(i / 676) == letter(j / 676)) by {
            assert(candidate_at(i)[0] == candidate_at(j)[0]);
        }
        assert(((97 + i / 676) as char) as int == 97 + i / 676);
        assert(((97 + j / 676) as char) as int == 97 + j / 676);
        assert(i / 676 == j / 676);
        assert(candidate_at(i)[1] == candidate_at(j)[1]);
        assert(((97 + (i / 26) % 26) as char) as int == 97 + (i / 26) % 26);
        assert(((97 + (j / 26) % 26) as char) as int == 97 + (j / 26) % 26);
        assert((i / 26) % 26 == (j / 26) % 26);
        assert(candidate_at(i)[2] == candidate_at(j)[2]);
        assert(((97 + i % 26) as char) as int == 97 + i % 26);
        assert(((97 + j % 26) as char) as int == 97 + j % 26);
        assert(i % 26 == j % 26);
        assert(i == j);
    }
}

/// Every three-letter lowercase string occurs somewhere: the enumeration
/// has no gaps.
pub proof fn lemma_candidates_complete(s: Seq<char>)
    requires
        is_candidate(s),
    ensures
        exists|i: int| 0 <= i < 17576 && candidate_at(i) == s,
{
    let a = s[0] as int - 97;
    let b = s[1] as int - 97;
    let c = s[2] as int - 97;
    lemma_digits_of_index(a, b, c);
    let i = a * 676 + b * 26 + c;
    assert(letter(a) == s[0]) by {
        assert(((s[0] as int) as char) == s[0]);
    }
    assert(letter(b) == s[1]) by {
        assert(((s[1] as int) as char) == s[1]);
    }
    assert(letter(c) == s[2]) by {
        assert(((s[2] as int) as char) == s[2]);
    }
    assert(candidate_at(i) =~= s);
    assert(0 <= i < 17576 && candidate_at(i) == s);
}

/// The letter for digit `k` as an executable character.
fn letter_char(k: usize) -> (r: char)
    requires
        k < 26,
    ensures
        r == letter(k as int),
{
    let b: u8 = 97 + k as u8;
    let r = b as char;
    proof {
        assert(r as int == 97 + k as int);
        assert(((97 + k as int) as char) as int == 97 + k as int);
    }
    r
}

/// Builds the three-letter string for digits `a`, `b`, `c`.
fn make_candidate(a: usize, b: usize, c: usize) -> (r: String)
    requires
        a < 26,
        b < 26,
        c < 26,
    ensures
        r@ == seq![letter(a as int), letter(b as int), letter(c as int)],
{
    let mut s = String::new();
    push_char(&mut s, letter_char(a));
    push_char(&mut s, letter_char(b));
    push_char(&mut s, letter_char(c));
    proof {
        assert(s@ =~= seq![letter(a as int), letter(b as int), letter(c as int)]);
    }
    s
}

/// Produces all 17,576 candidates in order: entry `i` is `candidate_at(i)`.
pub fn generate_arr() -> (r: Vec<String>)
    ensures
        r@.len() == 17576,
        forall|i: int| 0 <= i < 17576 ==> (#[trigger] r@[i])@ == candidate_at(i),
{
    let mut arr: Vec<String> = Vec::new();
    let mut a: usize = 0;
    while a < 26
        invariant
            a <= 26,
            arr@.len() == a * 676,
            forall|i: int| 0 <= i < arr@.len() ==> (#[trigger] arr@[i])@ == candidate_at(i),
        decreases 26 - a,
    {
        let mut b: usize = 0;
        while b < 26
            invariant
                a < 26,
                b <= 26,
                arr@.len() == a * 676 + b * 26,
                forall|i: int| 0 <= i < arr@.len() ==> (#[trigger] arr@[i])@ == candidate_at(i),
            decreases 26 - b,
        {
            let mut c: usize = 0;
            while c < 26
                invariant
                    a < 26,
                    b < 26,
                    c <= 26,
                    arr@.len() == a * 676 + b * 26 + c,
                    forall|i: int| 0 <= i < arr@.len() ==> (#[trigger] arr@[i])@ == candidate_at(
                        i,
                    ),
                decreases 26 - c,
            {
                let s = make_candidate(a, b, c);
                proof {
                    lemma_digits_of_index(a as int, b as int, c as int);
                }
                arr.push(s);
                c += 1;
            }
            b += 1;
        }
        a += 1;
    }
    arr
}

} // verus!
