//! Character-sequence helpers shared by the resource builders and the JSON
//! codec: decimal rendering of integers and conversions between `&str`,
//! `Vec<char>` and `String`.

use vstd::prelude::*;

verus! {

/// The decimal digit character for a value below ten.
pub open spec fn dec_digit(n: nat) -> char
    recommends
        n < 10,
{
    if n == 0 {
        '0'
    } else if n == 1 {
        '1'
    } else if n == 2 {
        '2'
    } else if n == 3 {
        '3'
    } else if n == 4 {
        '4'
    } else if n == 5 {
        '5'
    } else if n == 6 {
        '6'
    } else if n == 7 {
        '7'
    } else if n == 8 {
        '8'
    } else {
        '9'
    }
}

/// The usual decimal rendering of a natural number, without sign or padding.
pub open spec fn dec_of(n: nat) -> Seq<char>
    decreases n,
{
    if n < 10 {
        seq![dec_digit(n)]
    } else {
        dec_of(n / 10) + seq![dec_digit(n % 10)]
    }
}

pub proof fn lemma_dec_of_len(n: nat)
    ensures
        dec_of(n).len() >= 1,
    decreases n,
{
    if n >= 10 {
        lemma_dec_of_len(n / 10);
    }
}

proof fn lemma_dec_digit_injective(a: nat, b: nat)
    requires
        a < 10,
        b < 10,
        dec_digit(a) == dec_digit(b),
    ensures
        a == b,
{
}

/// Distinct numbers render to distinct decimal strings.
pub proof fn lemma_dec_of_injective(a: nat, b: nat)
    requires
        dec_of(a) == dec_of(b),
    ensures
        a == b,
    decreases a,
{
    if a < 10 && b < 10 {
        assert(dec_of(a)[0] == dec_digit(a));
        assert(dec_of(b)[0] == dec_digit(b));
        lemma_dec_digit_injective(a, b);
    } else if a < 10 {
        lemma_dec_of_len(b / 10);
        assert(dec_of(b).len() >= 2);
    } else if b < 10 {
        lemma_dec_of_len(a / 10);
        assert(dec_of(a).len() >= 2);
    } else {
        let pa = dec_of(a / 10);
        let pb = dec_of(b / 10);
        assert(dec_of(a).len() == pa.len() + 1);
        assert(dec_of(b).len() == pb.len() + 1);
        assert(pa.len() == pb.len());
        assert(pa =~= dec_of(a).subrange(0, pa.len() as int));
        assert(pb =~= dec_of(b).subrange(0, pb.len() as int));
        assert(pa == pb);
        lemma_dec_of_injective(a / 10, b / 10);
        assert(dec_of(a)[pa.len() as int] == dec_digit(a % 10));
        assert(dec_of(b)[pb.len() as int] == dec_digit(b % 10));
        lemma_dec_digit_injective(a % 10, b % 10);
        assert(a == 10 * (a / 10) + a % 10);
        assert(b == 10 * (b / 10) + b % 10);
    }
}

/// Appends the decimal rendering of `n` to `out`.
pub fn push_dec_u32(out: &mut Vec<char>, n: u32)
    ensures
        final(out)@ == old(out)@ + dec_of(n as nat),
    decreases n,
{
    if n < 10 {
        let c: char = match n {
            0 => '0',
            1 => '1',
            2 => '2',
            3 => '3',
            4 => '4',
            5 => '5',
            6 => '6',
            7 => '7',
            8 => '8',
            _ => '9',
        };
        out.push(c);
        assert(out@ =~= old(out)@ + dec_of(n as nat));
    } else {
        push_dec_u32(out, n / 10);
        let d: u32 = n % 10;
        let c: char = match d {
            0 => '0',
            1 => '1',
            2 => '2',
            3 => '3',
            4 => '4',
            5 => '5',
            6 => '6',
            7 => '7',
            8 => '8',
            _ => '9',
        };
        out.push(c);
        assert(out@ =~= old(out)@ + dec_of(n as nat));
    }
}

/// Appends every character of `s` to `out`.
pub fn push_str_chars(out: &mut Vec<char>, s: &str)
    ensures
        final(out)@ == old(out)@ + s@,
{
    let n: usize = s.unicode_len();
    let mut i: usize = 0;
    while i < n
        invariant
            n == s@.len(),
            i <= n,
            out@ == old(out)@ + s@.subrange(0, i as int),
        decreases n - i,
    {
        out.push(s.get_char(i));
        i = i + 1;
        assert(out@ =~= old(out)@ + s@.subrange(0, i as int));
    }
    assert(s@.subrange(0, n as int) =~= s@);
}

/// The characters of a string, as a vector.
pub fn chars_of_str(s: &str) -> (r: Vec<char>)
    ensures
        r@ == s@,
{
    let mut out: Vec<char> = Vec::new();
    push_str_chars(&mut out, s);
    out
}

/// Relies on `String`'s `FromIterator<char>` impl: collecting the characters
/// of `v` yields the string whose character sequence is exactly `v`.
#[verifier::external_body]
pub fn chars_to_string(v: &Vec<char>) -> (r: String)
    ensures
        r@ == v@,
{
    v.iter().collect()
}

/// An element-for-element copy of a vector of strings.
pub fn clone_string_vec(v: &Vec<String>) -> (r: Vec<String>)
    ensures
        r.deep_view() == v.deep_view(),
{
    let mut out: Vec<String> = Vec::new();
    let mut j: usize = 0;
    while j < v.len()
        invariant
            j <= v@.len(),
            out.deep_view().len() == j,
            forall|m: int| 0 <= m < j ==> out.deep_view()[m] == v.deep_view()[m],
        decreases v@.len() - j,
    {
        out.push(v[j].clone());
        j = j + 1;
    }
    assert(out.deep_view() =~= v.deep_view());
    out
}

} // verus!
