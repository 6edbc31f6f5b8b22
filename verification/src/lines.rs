//! The console lines the tool emits, built and pinned down here so the
//! scan's only artifact — its output — is part of the verified surface.

use vstd::prelude::*;
use vstd::string::StringExecFns;

verus! {

/// Relies on std's `String::push`: appends the one character to the string.
#[verifier::external_body]
pub(crate) fn push_char(s: &mut String, c: char)
    ensures
        final(s)@ == old(s)@ + seq![c],
{
    s.push(c);
}

/// The character for decimal digit `d`.
pub open spec fn digit_char(d: int) -> char {
    (48 + d) as char
}

/// The decimal numeral for a non-negative `n`, most significant digit
/// first, without leading zeros (`0` itself excepted).
pub open spec fn dec_str_of(n: int) -> Seq<char>
    decreases n,
{
    if n < 10 {
        seq![digit_char(n)]
    } else {
        dec_str_of(n / 10) + seq![digit_char(n % 10)]
    }
}

/// The decimal numeral for any integer: a minus sign before the digits of
/// the magnitude when `n` is negative.
pub open spec fn dec_str_signed(n: int) -> Seq<char> {
    if n < 0 {
        seq!['-'] + dec_str_of(-n)
    } else {
        dec_str_of(n)
    }
}

/// The character for digit `d`, executably.
fn digit_char_exec(d: u64) -> (r: char)
    requires
        d < 10,
    ensures
        r == digit_char(d as int),
{
    let b: u8 = 48 + d as u8;
    let r = b as char;
    proof {
        assert(r as int == 48 + d as int);
        assert(((48 + d as int) as char) as int == 48 + d as int);
    }
    r
}

/// Appends the decimal numeral of `n`.
fn push_dec(s: &mut String, n: u64)
    ensures
        final(s)@ == old(s)@ + dec_str_of(n as int),
    decreases n,
{
    if n >= 10 {
        push_dec(s, n / 10);
        push_char(s, digit_char_exec(n % 10));
        proof {
            assert(s@ =~= old(s)@ + dec_str_of(n as int));
        }
    } else {
        push_char(s, digit_char_exec(n));
    }
}

/// The decimal numeral of `n` as a string.
pub fn dec_string_u64(n: u64) -> (r: String)
    ensures
        r@ == dec_str_of(n as int),
{
    let mut s = String::new();
    push_dec(&mut s, n);
    proof {
        assert(s@ =~= dec_str_of(n as int));
    }
    s
}

/// The decimal numeral of `n` as a string, sign included.
pub fn dec_string_i32(n: i32) -> (r: String)
    ensures
        r@ == dec_str_signed(n as int),
{
    if n < 0 {
        let mut s = String::from_str("-");
        let m = (-(n as i64)) as u64;
        push_dec(&mut s, m);
        proof {
            reveal_strlit("-");
            assert(s@ =~= dec_str_signed(n as int));
        }
        s
    } else {
        dec_string_u64(n as u64)
    }
}

/// The progress line announcing one check: `Checking <candidate>.kr`.
pub fn checking_line(candidate: &str) -> (r: String)
    ensures
        r@ == "Checking "@ + candidate@ + ".kr"@,
{
    let mut s = String::from_str("Checking ");
    s.append(candidate);
    s.append(".kr");
    s
}

/// The hit line for an available candidate: `Available: <candidate>`.
pub fn available_line(candidate: &str) -> (r: String)
    ensures
        r@ == "Available: "@ + candidate@,
{
    let mut s = String::from_str("Available: ");
    s.append(candidate);
    s
}

/// The startup line naming the resume index.
pub fn starting_line(index: usize) -> (r: String)
    ensures
        r@ == "Starting before of "@ + dec_str_of(index as int) + "th element of vector."@,
{
    let mut s = String::from_str("Starting before of ");
    push_dec(&mut s, index as u64);
    s.append("th element of vector.");
    s
}

/// The final line of an exhausted scan.
pub fn done_line() -> (r: String)
    ensures
        r@ == "Done!"@,
{
    String::from_str("Done!")
}

} // verus!
