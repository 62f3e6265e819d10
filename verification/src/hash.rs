use vstd::prelude::*;
use vstd::utf8::encode_utf8;

verus! {

/// The Keccak-256 digest of a byte string, as the sha3 crate computes it.
pub uninterp spec fn keccak256_digest(data: Seq<u8>) -> Seq<u8>;

/// `sha3::Keccak256::digest`: the Keccak-256 digest of `data`, which has 32
/// bytes (the output size of `Keccak256`). Its value is named, not stated.
#[verifier::external_body]
fn keccak256(data: &[u8]) -> (r: Vec<u8>)
    ensures
        r@ == keccak256_digest(data@),
        r@.len() == 32,
{
    <sha3::Keccak256 as sha3::Digest>::digest(data).to_vec()
}

/// The lower-case hexadecimal digit of a value below 16.
pub open spec fn hex_digit(v: int) -> char {
    if v < 10 {
        (48 + v) as char
    } else {
        (87 + v) as char
    }
}

/// The lower-case hexadecimal encoding of a byte string: two digits per byte,
/// the high half of the byte first.
pub open spec fn hex_lower(data: Seq<u8>) -> Seq<char>
    decreases data.len(),
{
    if data.len() == 0 {
        Seq::empty()
    } else {
        seq![hex_digit(data[0] as int / 16), hex_digit(data[0] as int % 16)] + hex_lower(data.drop_first())
    }
}

/// Whether a character is a lower-case hexadecimal digit.
pub open spec fn is_hex_lower_char(c: char) -> bool {
    (48 <= c as int <= 57) || (97 <= c as int <= 102)
}

/// The hexadecimal encoding has two digits per byte, each a lower-case
/// hexadecimal digit.
pub proof fn lemma_hex_lower_shape(data: Seq<u8>)
    ensures
        hex_lower(data).len() == 2 * data.len(),
        forall|i: int| 0 <= i < hex_lower(data).len() ==> is_hex_lower_char(#[trigger] hex_lower(data)[i]),
    decreases data.len(),
{
    if data.len() > 0 {
        lemma_hex_lower_shape(data.drop_first());
        let hi = data[0] as int / 16;
        let lo = data[0] as int % 16;
        assert(is_hex_lower_char(hex_digit(hi)));
        assert(is_hex_lower_char(hex_digit(lo)));
        let head = seq![hex_digit(hi), hex_digit(lo)];
        let rest = hex_lower(data.drop_first());
        assert forall|i: int| 0 <= i < hex_lower(data).len() implies is_hex_lower_char(
            #[trigger] hex_lower(data)[i],
        ) by {
            if i >= 2 {
                assert(hex_lower(data)[i] == rest[i - 2]);
            }
        }
    }
}

/// `hex::encode`: the lower-case hexadecimal encoding of `data`.
#[verifier::external_body]
fn hex_encode(data: &[u8]) -> (r: String)
    ensures
        r@ == hex_lower(data@),
{
    hex::encode(data)
}

/// The hash that locks the swap for a secret: the lower-case hexadecimal
/// Keccak-256 digest of the secret's UTF-8 bytes.
pub open spec fn secret_hash(secret: Seq<char>) -> Seq<char> {
    hex_lower(keccak256_digest(encode_utf8(secret)))
}

/// Hashes a secret as the swap does: Keccak-256 of its UTF-8 bytes, encoded
/// as lower-case hexadecimal.
pub fn hash_secret(secret: &str) -> (r: String)
    ensures
        r@ == secret_hash(secret@),
        r@ == hex_lower(keccak256_digest(encode_utf8(secret@))),
        r@.len() == 64,
        forall|i: int| 0 <= i < r@.len() ==> is_hex_lower_char(#[trigger] r@[i]),
{
    let digest = keccak256(secret.as_bytes());
    proof {
        lemma_hex_lower_shape(digest@);
    }
    hex_encode(digest.as_slice())
}

} // verus!
