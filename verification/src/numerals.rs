//! Decimal text: recognising and evaluating the numeric strings the tool
//! reads — the resume index from the environment and the result code from
//! the registry's response.

use vstd::prelude::*;
use vstd::string::StrSliceExecFns;

verus! {

/// `c` is an ASCII decimal digit.
pub open spec fn is_dec_digit(c: char) -> bool {
    48 <= c as int <= 57
}

/// The value of one decimal digit.
pub open spec fn digit_val(c: char) -> int {
    c as int - 48
}

/// Every character of `s` is a decimal digit.
pub open spec fn all_dec_digits(s: Seq<char>) -> bool {
    forall|i: int| 0 <= i < s.len() ==> is_dec_digit(#[trigger] s[i])
}

/// The value of a digit string read most-significant first.
pub open spec fn dec_val(s: Seq<char>) -> int
    decreases s.len(),
{
    if s.len() == 0 {
        0
    } else {
        10 * dec_val(s.drop_last()) + digit_val(s.last())
    }
}

/// A digit string never has a negative value.
pub proof fn lemma_dec_val_nonneg(s: Seq<char>)
    requires
        all_dec_digits(s),
    ensures
        dec_val(s) >= 0,
    decreases s.len(),
{
    if s.len() > 0 {
        assert(all_dec_digits(s.drop_last()));
        lemma_dec_val_nonneg(s.drop_last());
    }
}

/// `c` has the Unicode `White_Space` property, the set `str::trim` strips.
pub open spec fn is_space_char(c: char) -> bool {
    let u = c as int;
    ||| u == 0x20
    ||| 0x09 <= u <= 0x0D
    ||| u == 0x85
    ||| u == 0xA0
    ||| u == 0x1680
    ||| 0x2000 <= u <= 0x200A
    ||| u == 0x2028
    ||| u == 0x2029
    ||| u == 0x202F
    ||| u == 0x205F
    ||| u == 0x3000
}

/// `s` with leading and trailing whitespace removed.
pub open spec fn trimmed(s: Seq<char>) -> Seq<char>
    decreases s.len(),
{
    if s.len() == 0 {
        s
    } else if is_space_char(s[0]) {
        trimmed(s.drop_first())
    } else if is_space_char(s.last()) {
        trimmed(s.drop_last())
    } else {
        s
    }
}

/// `trimmed` yields exactly the subrange between the first and last
/// non-space characters.
proof fn lemma_trimmed_subrange(s: Seq<char>, a: int, b: int)
    requires
        0 <= a <= b <= s.len(),
        forall|i: int| 0 <= i < a ==> is_space_char(#[trigger] s[i]),
        forall|i: int| b <= i < s.len() ==> is_space_char(#[trigger] s[i]),
        a < b ==> !is_space_char(s[a]) && !is_space_char(s[b - 1]),
    ensures
        trimmed(s) == s.subrange(a, b),
    decreases s.len(),
{
    if s.len() == 0 {
        assert(trimmed(s) =~= s.subrange(a, b));
    } else if is_space_char(s[0]) {
        if a == 0 {
            assert(b == 0);
            lemma_trimmed_subrange(s.drop_first(), 0, 0);
            assert(s.subrange(0, 0) =~= s.drop_first().subrange(0, 0));
        } else {
            lemma_trimmed_subrange(s.drop_first(), a - 1, b - 1);
            assert(s.subrange(a, b) =~= s.drop_first().subrange(a - 1, b - 1));
        }
    } else if is_space_char(s.last()) {
        assert(a == 0);
        assert(b < s.len());
        lemma_trimmed_subrange(s.drop_last(), a, b);
        assert(s.subrange(a, b) =~= s.drop_last().subrange(a, b));
    } else {
        assert(a == 0 && b == s.len());
        assert(trimmed(s) =~= s.subrange(a, b));
    }
}

/// Whether `c` is whitespace, decided executably.
fn is_space_exec(c: char) -> (r: bool)
    ensures
        r == is_space_char(c),
{
    let u = c as u32;
    u == 0x20 || (0x09 <= u && u <= 0x0D) || u == 0x85 || u == 0xA0 || u == 0x1680 || (0x2000
        <= u && u <= 0x200A) || u == 0x2028 || u == 0x2029 || u == 0x202F || u == 0x205F || u
        == 0x3000
}

/// Index of the first non-space character, or the length if all spaces.
fn scan_start(s: &str) -> (a: usize)
    ensures
        a <= s@.len(),
        forall|i: int| 0 <= i < a ==> is_space_char(#[trigger] s@[i]),
        a < s@.len() ==> !is_space_char(s@[a as int]),
{
    let n = s.unicode_len();
    let mut a: usize = 0;
    while a < n
        invariant
            a <= n,
            n == s@.len(),
            forall|i: int| 0 <= i < a ==> is_space_char(#[trigger] s@[i]),
        decreases n - a,
    {
        if !is_space_exec(s.get_char(a)) {
            return a;
        }
        a += 1;
    }
    a
}

/// Index just past the last non-space character, or 0 if all spaces.
fn scan_end(s: &str) -> (b: usize)
    ensures
        b <= s@.len(),
        forall|i: int| b <= i < s@.len() ==> is_space_char(#[trigger] s@[i]),
        b > 0 ==> !is_space_char(s@[b - 1]),
{
    let n = s.unicode_len();
    let mut b: usize = n;
    while b > 0
        invariant
            b <= n,
            n == s@.len(),
            forall|i: int| b <= i < s@.len() ==> is_space_char(#[trigger] s@[i]),
        decreases b,
    {
        if !is_space_exec(s.get_char(b - 1)) {
            return b;
        }
        b -= 1;
    }
    b
}

/// Removes leading and trailing whitespace, as `str::trim` does.
pub fn trim_str<'a>(s: &'a str) -> (r: &'a str)
    ensures
        r@ == trimmed(s@),
{
    let a = scan_start(s);
    let b = scan_end(s);
    if a < b {
        proof {
            lemma_trimmed_subrange(s@, a as int, b as int);
        }
        s.substring_char(a, b)
    } else {
        proof {
            lemma_trimmed_subrange(s@, 0, 0);
        }
        s.substring_char(0, 0)
    }
}

/// Evaluates the digit run `s[from..to]`, refusing an empty run, a
/// non-digit, or a value above `limit`.
pub fn parse_decimal(s: &str, from: usize, to: usize, limit: u64) -> (r: Option<u64>)
    requires
        from <= to <= s@.len(),
    ensures
        (match r {
            Some(v) => {
                &&& to > from
                &&& all_dec_digits(s@.subrange(from as int, to as int))
                &&& v as int == dec_val(s@.subrange(from as int, to as int))
                &&& v <= limit
            },
            None => !({
                &&& to > from
                &&& all_dec_digits(s@.subrange(from as int, to as int))
                &&& dec_val(s@.subrange(from as int, to as int)) <= limit as int
            }),
        }),
{
    if to == from {
        return None;
    }
    let mut acc: u128 = 0;
    let mut i: usize = from;
    while i < to
        invariant
            from <= i <= to <= s@.len(),
            all_dec_digits(s@.subrange(from as int, i as int)),
            dec_val(s@.subrange(from as int, i as int)) <= limit as int ==> acc as int == dec_val(
                s@.subrange(from as int, i as int),
            ),
            dec_val(s@.subrange(from as int, i as int)) > limit as int ==> acc as int > limit
                as int,
            acc <= limit as u128 + 1,
        decreases to - i,
    {
        let c = s.get_char(i);
        let u = c as u32;
        if u < 48 || u > 57 {
            proof {
                assert(s@.subrange(from as int, to as int)[i - from] == s@[i as int]);
                assert(!is_dec_digit(s@[i as int]));
            }
            return None;
        }
        let d = (u - 48) as u128;
        proof {
            let p0 = s@.subrange(from as int, i as int);
            let p1 = s@.subrange(from as int, i as int + 1);
            assert(p1.drop_last() =~= p0);
            assert(p1.last() == s@[i as int]);
            assert(dec_val(p1) == 10 * dec_val(p0) + digit_val(s@[i as int]));
            lemma_dec_val_nonneg(p0);
        }
        if acc <= limit as u128 {
            let next = acc * 10 + d;
            if next > limit as u128 {
                acc = limit as u128 + 1;
            } else {
                acc = next;
            }
        }
        i += 1;
    }
    if acc > limit as u128 {
        proof {
            lemma_dec_val_nonneg(s@.subrange(from as int, to as int));
        }
        None
    } else {
        Some(acc as u64)
    }
}

/// The digits of a signed numeral: everything after an optional sign.
pub open spec fn unsigned_part(s: Seq<char>) -> Seq<char> {
    if s.len() >= 1 && (s[0] == '+' || s[0] == '-') {
        s.drop_first()
    } else {
        s
    }
}

/// The numeral carries a minus sign.
pub open spec fn is_negative_text(s: Seq<char>) -> bool {
    s.len() >= 1 && s[0] == '-'
}

/// `s` is an optional sign followed by at least one digit.
pub open spec fn is_decimal_text(s: Seq<char>) -> bool {
    unsigned_part(s).len() > 0 && all_dec_digits(unsigned_part(s))
}

/// The signed value of a decimal numeral.
pub open spec fn signed_val(s: Seq<char>) -> int {
    if is_negative_text(s) {
        -dec_val(unsigned_part(s))
    } else {
        dec_val(unsigned_part(s))
    }
}

/// What `i32::from_str` returns on `s`: the value when `s` is a decimal
/// numeral that fits in an `i32`, nothing otherwise.
pub open spec fn parse_i32_spec(s: Seq<char>) -> Option<i32> {
    if is_decimal_text(s) && i32::MIN <= signed_val(s) <= i32::MAX {
        Some(signed_val(s) as i32)
    } else {
        None
    }
}

/// Reads a signed decimal numeral, exactly as `i32::from_str` does.
pub fn parse_i32_text(s: &str) -> (r: Option<i32>)
    ensures
        r == parse_i32_spec(s@),
{
    let n = s.unicode_len();
    let mut neg = false;
    let mut start: usize = 0;
    if n >= 1 {
        let c0 = s.get_char(0);
        if c0 == '-' {
            neg = true;
            start = 1;
        } else if c0 == '+' {
            start = 1;
        }
    }
    proof {
        assert(s@.subrange(start as int, n as int) =~= unsigned_part(s@));
    }
    let limit: u64 = if neg {
        2147483648
    } else {
        2147483647
    };
    match parse_decimal(s, start, n, limit) {
        None => None,
        Some(v) => {
            if neg {
                let m = v as i64;
                Some((-m) as i32)
            } else {
                Some(v as i32)
            }
        },
    }
}

/// What `usize::from_str` returns on the trimmed text: the value when the
/// trimmed text is an unsigned decimal numeral (an optional `+` allowed)
/// that fits in a `usize`, nothing otherwise.
pub open spec fn parse_index_spec(s: Seq<char>) -> Option<usize> {
    let t = trimmed(s);
    let u = if t.len() >= 1 && t[0] == '+' {
        t.drop_first()
    } else {
        t
    };
    if u.len() > 0 && all_dec_digits(u) && dec_val(u) <= usize::MAX {
        Some(dec_val(u) as usize)
    } else {
        None
    }
}

/// Reads the resume index: trims the text, then parses it as an unsigned
/// decimal numeral, as `str::trim` and `usize::from_str` do.
pub fn parse_index_text(s: &str) -> (r: Option<usize>)
    ensures
        r == parse_index_spec(s@),
{
    let t = trim_str(s);
    let n = t.unicode_len();
    let mut start: usize = 0;
    if n >= 1 {
        let c0 = t.get_char(0);
        if c0 == '+' {
            start = 1;
        }
    }
    proof {
        let u = if t@.len() >= 1 && t@[0] == '+' {
            t@.drop_first()
        } else {
            t@
        };
        assert(t@.subrange(start as int, n as int) =~= u);
    }
    match parse_decimal(t, start, n, usize::MAX as u64) {
        None => None,
        Some(v) => Some(v as usize),
    }
}

} // verus!
