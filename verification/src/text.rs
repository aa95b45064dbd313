//! Small verified helpers for building and reasoning about strings.

use vstd::prelude::*;

verus! {

/// Relies on `String::push` from std: appends exactly one character
/// to the end of the string.
#[verifier::external_body]
pub(crate) fn push_char(out: &mut String, c: char)
    ensures
        final(out)@ == old(out)@.push(c),
{
    out.push(c);
}

/// The decimal digit character for a value below ten.
pub open spec fn dec_digit_char(d: nat) -> char {
    if d == 0 {
        '0'
    } else if d == 1 {
        '1'
    } else if d == 2 {
        '2'
    } else if d == 3 {
        '3'
    } else if d == 4 {
        '4'
    } else if d == 5 {
        '5'
    } else if d == 6 {
        '6'
    } else if d == 7 {
        '7'
    } else if d == 8 {
        '8'
    } else {
        '9'
    }
}

/// The usual decimal rendering of a natural number, most significant
/// digit first, with no leading zeros (a single zero for zero itself).
pub open spec fn dec_str_of(n: nat) -> Seq<char>
    decreases n,
{
    if n < 10 {
        seq![dec_digit_char(n)]
    } else {
        dec_str_of(n / 10).push(dec_digit_char(n % 10))
    }
}

fn dec_digit(d: u16) -> (c: char)
    requires
        d < 10,
    ensures
        c == dec_digit_char(d as nat),
{
    if d == 0 {
        '0'
    } else if d == 1 {
        '1'
    } else if d == 2 {
        '2'
    } else if d == 3 {
        '3'
    } else if d == 4 {
        '4'
    } else if d == 5 {
        '5'
    } else if d == 6 {
        '6'
    } else if d == 7 {
        '7'
    } else if d == 8 {
        '8'
    } else {
        '9'
    }
}

/// Appends the decimal rendering of `n` to `out`.
pub fn append_dec_u16(out: &mut String, n: u16)
    ensures
        final(out)@ == old(out)@ + dec_str_of(n as nat),
    decreases n,
{
    if n < 10 {
        push_char(out, dec_digit(n));
        proof {
            assert(old(out)@.push(dec_digit_char(n as nat)) =~= old(out)@ + dec_str_of(n as nat));
        }
    } else {
        append_dec_u16(out, n / 10);
        push_char(out, dec_digit(n % 10));
        proof {
            assert((n / 10) as nat == n as nat / 10);
            assert((n % 10) as nat == n as nat % 10);
            assert((old(out)@ + dec_str_of(n as nat / 10)).push(dec_digit_char(n as nat % 10)) =~= old(
                out,
            )@ + dec_str_of(n as nat));
        }
    }
}

/// `needle` occurs contiguously somewhere inside `hay`.
pub open spec fn seq_contains(hay: Seq<char>, needle: Seq<char>) -> bool {
    exists|i: int|
        0 <= i && i + needle.len() <= hay.len() && #[trigger] hay.subrange(i, i + needle.len())
            == needle
}

/// Whatever contains `needle` still contains it after text is added
/// on the right.
pub proof fn lemma_contains_in_left(a: Seq<char>, b: Seq<char>, needle: Seq<char>)
    requires
        seq_contains(a, needle),
    ensures
        seq_contains(a + b, needle),
{
    let i = choose|i: int|
        0 <= i && i + needle.len() <= a.len() && #[trigger] a.subrange(i, i + needle.len())
            == needle;
    assert((a + b).subrange(i, i + needle.len()) =~= needle);
}

/// Whatever contains `needle` still contains it after text is added
/// on the left.
pub proof fn lemma_contains_in_right(a: Seq<char>, b: Seq<char>, needle: Seq<char>)
    requires
        seq_contains(b, needle),
    ensures
        seq_contains(a + b, needle),
{
    let i = choose|i: int|
        0 <= i && i + needle.len() <= b.len() && #[trigger] b.subrange(i, i + needle.len())
            == needle;
    let j = a.len() as int + i;
    assert((a + b).subrange(j, j + needle.len()) =~= needle);
}

} // verus!
