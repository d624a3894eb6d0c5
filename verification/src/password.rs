//! The stored form of a password: the SHA-256 digest of its bytes, written
//! as lower-case hexadecimal.

use vstd::prelude::*;
use vstd::utf8::encode_utf8;

verus! {

/// The sixteen lower-case hexadecimal digits, by value.
pub const LOWER_DIGITS: &'static str = "0123456789abcdef";

/// The SHA-256 digest of a byte string.
pub uninterp spec fn sha256(data: Seq<u8>) -> Seq<u8>;

/// Computes the SHA-256 digest of `data` with `Digest::digest` of the `sha2`
/// crate, which feeds `data` to a fresh hasher and finalises it.
///
/// Nothing is proved of this function: the contract gives the digest its
/// name, [`sha256`], and claims only that it depends on the bytes of `data`
/// alone.
#[verifier::external_body]
pub(crate) fn sha256_digest(data: &[u8]) -> (digest: Vec<u8>)
    ensures
        digest@ == sha256(data@),
{
    <sha2::Sha256 as sha2::Digest>::digest(data).to_vec()
}

/// The lower-case hexadecimal digit of value `n`.
pub open spec fn lower_digit(n: int) -> char
    recommends
        0 <= n < 16,
{
    if n < 10 {
        (n + 0x30) as char
    } else {
        (n - 10 + 0x61) as char
    }
}

/// Two lower-case hexadecimal digits for each byte, high half first.
pub open spec fn hex_lower(data: Seq<u8>) -> Seq<char> {
    Seq::new(
        2 * data.len(),
        |i: int|
            if i % 2 == 0 {
                lower_digit(data[i / 2] as int / 16)
            } else {
                lower_digit(data[i / 2] as int % 16)
            },
    )
}

/// The stored form of `password`.
pub open spec fn password_hash(password: Seq<char>) -> Seq<char> {
    hex_lower(sha256(encode_utf8(password)))
}

/// Writes `data` as lower-case hexadecimal.
pub fn to_hex_lower(data: &[u8]) -> (r: String)
    ensures
        r@ == hex_lower(data@),
{
    proof {
        reveal_strlit("0123456789abcdef");
    }
    let mut r = String::new();
    let n: usize = data.len();
    let mut i: usize = 0;
    while i < n
        invariant
            i <= n,
            n == data@.len(),
            LOWER_DIGITS@.len() == 16,
            forall|d: int| 0 <= d < 16 ==> LOWER_DIGITS@[d] == lower_digit(d),
            r@ == hex_lower(data@).take(2 * i),
        decreases n - i,
    {
        let byte: u8 = data[i];
        let high: usize = (byte / 16) as usize;
        let low: usize = (byte % 16) as usize;
        r.append(LOWER_DIGITS.substring_char(high, high + 1));
        r.append(LOWER_DIGITS.substring_char(low, low + 1));
        assert(r@ =~= hex_lower(data@).take(2 * (i + 1))) by {
            assert(hex_lower(data@)[2 * i] == lower_digit(high as int));
            assert(hex_lower(data@)[2 * i + 1] == lower_digit(low as int));
        }
        i += 1;
    }
    assert(r@ =~= hex_lower(data@));
    r
}

/// Turns a password into the form in which it is stored.
pub fn hash_password(password: &str) -> (r: String)
    ensures
        r@ == password_hash(password@),
{
    let digest = sha256_digest(password.as_bytes());
    to_hex_lower(digest.as_slice())
}

} // verus!
