//! Fingerprints: the MD5 digest of a file URI, in lower-case hexadecimal.

use md5::Digest;
use vstd::prelude::*;
use vstd::string::StringSliceAdditionalSpecFns;
use vstd::utf8::encode_utf8;

use crate::text::string_of;

verus! {

/// The MD5 digest of a byte string.
pub uninterp spec fn md5_digest(bytes: Seq<u8>) -> Seq<u8>;

/// `Md5::digest` of the `md-5` crate: hashes `bytes` in one go. The result is
/// the MD5 digest of `bytes`, which is 16 bytes long.
#[verifier::external_body]
fn md5_of(bytes: &[u8]) -> (digest: Vec<u8>)
    ensures
        digest@ == md5_digest(bytes@),
        digest@.len() == 16,
{
    md5::Md5::digest(bytes).to_vec()
}

/// The lower-case hexadecimal digit for `n`, where `0 <= n < 16`.
pub open spec fn hex_digit(n: int) -> char {
    if n == 0 {
        '0'
    } else if n == 1 {
        '1'
    } else if n == 2 {
        '2'
    } else if n == 3 {
        '3'
    } else if n == 4 {
        '4'
    } else if n == 5 {
        '5'
    } else if n == 6 {
        '6'
    } else if n == 7 {
        '7'
    } else if n == 8 {
        '8'
    } else if n == 9 {
        '9'
    } else if n == 10 {
        'a'
    } else if n == 11 {
        'b'
    } else if n == 12 {
        'c'
    } else if n == 13 {
        'd'
    } else if n == 14 {
        'e'
    } else {
        'f'
    }
}

/// Whether `c` is a lower-case hexadecimal digit.
pub open spec fn is_hex_digit(c: char) -> bool {
    exists|n: int| 0 <= n < 16 && c == #[trigger] hex_digit(n)
}

/// Lower-case hexadecimal notation of a byte string: two digits per byte,
/// the high half first.
pub open spec fn hex_lower(bytes: Seq<u8>) -> Seq<char> {
    Seq::new(
        2 * bytes.len(),
        |i: int|
            if i % 2 == 0 {
                hex_digit(bytes[i / 2] as int / 16)
            } else {
                hex_digit(bytes[i / 2] as int % 16)
            },
    )
}

/// The cache key of a file URI: the MD5 digest of its UTF-8 bytes in
/// lower-case hexadecimal.
pub open spec fn fingerprint(uri: Seq<char>) -> Seq<char> {
    hex_lower(md5_digest(encode_utf8(uri)))
}

fn hex_digit_of(n: u8) -> (c: char)
    requires
        n < 16,
    ensures
        c == hex_digit(n as int),
{
    if n == 0 {
        '0'
    } else if n == 1 {
        '1'
    } else if n == 2 {
        '2'
    } else if n == 3 {
        '3'
    } else if n == 4 {
        '4'
    } else if n == 5 {
        '5'
    } else if n == 6 {
        '6'
    } else if n == 7 {
        '7'
    } else if n == 8 {
        '8'
    } else if n == 9 {
        '9'
    } else if n == 10 {
        'a'
    } else if n == 11 {
        'b'
    } else if n == 12 {
        'c'
    } else if n == 13 {
        'd'
    } else if n == 14 {
        'e'
    } else {
        'f'
    }
}

/// Writes `bytes` in lower-case hexadecimal.
pub fn to_hex(bytes: &[u8]) -> (s: String)
    ensures
        s@ == hex_lower(bytes@),
{
    let mut out: Vec<char> = Vec::new();
    let mut i: usize = 0;
    while i < bytes.len()
        invariant
            i <= bytes@.len(),
            out@ == hex_lower(bytes@.take(i as int)),
        decreases bytes@.len() - i,
    {
        let b = bytes[i];
        let ghost before = out@;
        out.push(hex_digit_of(b / 16));
        out.push(hex_digit_of(b % 16));
        proof {
            let next = bytes@.take(i + 1);
            assert(next.len() == i + 1);
            assert forall|k: int| 0 <= k < 2 * (i + 1) implies out@[k] == hex_lower(next)[k] by {
                if k < 2 * i {
                    assert(before[k] == hex_lower(bytes@.take(i as int))[k]);
                    assert(bytes@.take(i as int)[k / 2] == next[k / 2]);
                } else {
                    assert(next[k / 2] == b);
                }
            }
            assert(out@ =~= hex_lower(next));
        }
        i += 1;
    }
    assert(bytes@.take(i as int) == bytes@);
    string_of(&out)
}

/// Every character of a hexadecimal notation is a lower-case hexadecimal
/// digit, and there are two of them for each byte.
pub proof fn lemma_hex_lower_shape(bytes: Seq<u8>)
    ensures
        hex_lower(bytes).len() == 2 * bytes.len(),
        forall|i: int| 0 <= i < hex_lower(bytes).len() ==> is_hex_digit(#[trigger] hex_lower(bytes)[i]),
{
    assert forall|i: int| 0 <= i < hex_lower(bytes).len() implies is_hex_digit(
        #[trigger] hex_lower(bytes)[i],
    ) by {
        let b = bytes[i / 2] as int;
        if i % 2 == 0 {
            assert(hex_lower(bytes)[i] == hex_digit(b / 16));
        } else {
            assert(hex_lower(bytes)[i] == hex_digit(b % 16));
        }
    }
}

/// Computes the fingerprint of a file URI: 32 lower-case hexadecimal digits.
pub fn compute_hash(input: &str) -> (hash: String)
    ensures
        hash@ == fingerprint(input@),
        hash@.len() == 32,
        forall|i: int| 0 <= i < 32 ==> is_hex_digit(#[trigger] hash@[i]),
{
    let digest = md5_of(input.as_bytes());
    proof {
        lemma_hex_lower_shape(digest@);
    }
    to_hex(digest.as_slice())
}

} // verus!
