//! Content-integrity hashing for remotely fetched plugin code: a SHA-256
//! digest rendered as lowercase hexadecimal, exactly the form the data plane
//! compares against the bytes it actually fetched.

use vstd::prelude::*;
use crate::text::{chars_of_str, chars_to_string};

verus! {

/// The SHA-256 digest of a byte sequence. The digest is a function of the
/// bytes alone; its value is not axiomatized here.
pub uninterp spec fn sha256_of(b: Seq<u8>) -> Seq<u8>;

/// Relies on `sha2::Sha256::digest` (the `digest` crate's `Digest` trait):
/// the SHA-256 hash depends on the input bytes alone and is 32 bytes long.
#[verifier::external_body]
fn sha256_digest(bytes: &Vec<u8>) -> (r: Vec<u8>)
    ensures
        r@ == sha256_of(bytes@),
        r@.len() == 32,
{
    <sha2::Sha256 as sha2::Digest>::digest(bytes).to_vec()
}

/// The uppercase hexadecimal digit for a value below sixteen.
pub open spec fn hex_upper_digit(n: int) -> char
    recommends
        0 <= n < 16,
{
    if n == 0 {
        '0'
    } else if n == 1 {
        '1'
    } else if n == 2 {
        '2'
    } else if n == 3 {
        '3'
    } else if n == 4 {
        '4'
    } else if n == 5 {
        '5'
    } else if n == 6 {
        '6'
    } else if n == 7 {
        '7'
    } else if n == 8 {
        '8'
    } else if n == 9 {
        '9'
    } else if n == 10 {
        'A'
    } else if n == 11 {
        'B'
    } else if n == 12 {
        'C'
    } else if n == 13 {
        'D'
    } else if n == 14 {
        'E'
    } else {
        'F'
    }
}

/// Uppercase hexadecimal rendering of a byte sequence: two digits per byte,
/// high nibble first.
pub open spec fn hex_upper_of(b: Seq<u8>) -> Seq<char>
    decreases b.len(),
{
    if b.len() == 0 {
        Seq::<char>::empty()
    } else {
        seq![
            hex_upper_digit(b[0] as int / 16),
            hex_upper_digit(b[0] as int % 16),
        ] + hex_upper_of(b.drop_first())
    }
}

/// Relies on `data_encoding::HEXUPPER.encode`: base16 with the symbol table
/// `0-9 A-F`, two digits per input byte, high nibble first (RFC 4648).
#[verifier::external_body]
fn hex_upper(bytes: &Vec<u8>) -> (r: String)
    ensures
        r@ == hex_upper_of(bytes@),
{
    data_encoding::HEXUPPER.encode(bytes)
}

/// ASCII lowercasing of a single character: `A`-`F` fold to `a`-`f`, every
/// other character is kept. Only hexadecimal digits run through this.
pub open spec fn lower_char(c: char) -> char {
    if c == 'A' {
        'a'
    } else if c == 'B' {
        'b'
    } else if c == 'C' {
        'c'
    } else if c == 'D' {
        'd'
    } else if c == 'E' {
        'e'
    } else if c == 'F' {
        'f'
    } else {
        c
    }
}

/// Pointwise lowercasing of a character sequence.
pub open spec fn lower_seq(s: Seq<char>) -> Seq<char> {
    Seq::new(s.len(), |i: int| lower_char(s[i]))
}

/// The lowercase hexadecimal SHA-256 digest of a byte sequence: the content
/// hash embedded in every remote-code plugin descriptor.
pub open spec fn sha_hex_of(b: Seq<u8>) -> Seq<char> {
    lower_seq(hex_upper_of(sha256_of(b)))
}

fn to_lower(s: &Vec<char>) -> (r: Vec<char>)
    ensures
        r@ == lower_seq(s@),
{
    let mut out: Vec<char> = Vec::new();
    let mut i: usize = 0;
    while i < s.len()
        invariant
            i <= s@.len(),
            out@.len() == i,
            forall|j: int| 0 <= j < i ==> out@[j] == lower_char(s@[j]),
        decreases s@.len() - i,
    {
        let c: char = s[i];
        let l: char = match c {
            'A' => 'a',
            'B' => 'b',
            'C' => 'c',
            'D' => 'd',
            'E' => 'e',
            'F' => 'f',
            _ => c,
        };
        out.push(l);
        i = i + 1;
    }
    assert(out@ =~= lower_seq(s@));
    out
}

/// Computes the lowercase hexadecimal SHA-256 digest of `bytes`.
pub fn sha_hex(bytes: &Vec<u8>) -> (r: String)
    ensures
        r@ == sha_hex_of(bytes@),
{
    let digest = sha256_digest(bytes);
    let upper = hex_upper(&digest);
    let chars = chars_of_str(upper.as_str());
    let lowered = to_lower(&chars);
    chars_to_string(&lowered)
}

} // verus!
