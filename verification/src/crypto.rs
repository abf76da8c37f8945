//! Trusted boundary to the cryptographic primitives.
//!
//! Every item here either declares an outside type or wraps one call
//! into an outside crate behind a contract that states only what that
//! crate's source and documentation show.  Nothing else in the crate is
//! taken on trust.

use vstd::prelude::*;

use k256::elliptic_curve::sec1::ToEncodedPoint;
use secp256k1::hashes::Hash as HashTrait;
use sha3::Digest;

verus! {

#[verifier::external_type_specification]
#[verifier::external_body]
pub struct ExSecretKey(secp256k1::SecretKey);

/// Whether 32 bytes encode a valid secp256k1 secret scalar (nonzero and
/// below the group order); exactly the inputs that
/// `secp256k1::SecretKey::from_slice` accepts at length 32.
pub uninterp spec fn valid_secret_key_bytes(b: Seq<u8>) -> bool;

/// The 32 bytes a constructed secret key holds: what
/// `secp256k1::SecretKey::secret_bytes` returns, and what
/// `secp256k1::SecretKey::from_slice` stored when the key was made.
pub uninterp spec fn secret_bytes_of(k: secp256k1::SecretKey) -> Seq<u8>;

/// The 65-byte uncompressed SEC1 encoding of the public key belonging
/// to the secret key with the given bytes; a pure function of the curve.
pub uninterp spec fn pubkey_uncompressed_of(sk_bytes: Seq<u8>) -> Seq<u8>;

/// The 32-byte Keccak-256 digest (the pre-standardization Keccak,
/// distinct from NIST SHA3-256) of a byte sequence.
pub uninterp spec fn keccak256_of(b: Seq<u8>) -> Seq<u8>;

/// The 32-byte SHA-256 digest of a byte sequence.
pub uninterp spec fn sha256_of(b: Seq<u8>) -> Seq<u8>;

/// The 64-byte compact ECDSA signature that secp256k1 produces for a
/// 32-byte digest under the secret key with the given bytes.  The call
/// derives its nonce with RFC6979 and no extra nonce data, so the
/// signature is a function of the key bytes and the digest alone.
pub uninterp spec fn ecdsa_compact_sig_of(sk_bytes: Seq<u8>, digest: Seq<u8>) -> Seq<u8>;

/// Relies on `secp256k1::SecretKey::from_slice`: it accepts exactly the
/// 32-byte encodings of valid secret scalars, rejects everything else,
/// and stores the given bytes unchanged in the key it returns.
#[verifier::external_body]
pub(crate) fn secret_key_from_bytes(b: &[u8]) -> (r: Option<secp256k1::SecretKey>)
    ensures
        r is Some <==> (b@.len() == 32 && valid_secret_key_bytes(b@)),
        r matches Some(k) ==> secret_bytes_of(k) == b@,
{
    secp256k1::SecretKey::from_slice(b).ok()
}

/// Relies on `secp256k1::SecretKey::secret_bytes`: the key's own 32
/// bytes, valid by the key's construction.
#[verifier::external_body]
pub(crate) fn secret_key_bytes(sk: &secp256k1::SecretKey) -> (r: Vec<u8>)
    ensures
        r@ == secret_bytes_of(*sk),
        r@.len() == 32,
        valid_secret_key_bytes(r@),
{
    sk.secret_bytes().to_vec()
}

/// Relies on secp256k1's public-key derivation and serialization and on
/// k256's SEC1 parsing: the public key is derived, round-tripped through
/// its compressed form and through k256, and returned in the 65-byte
/// uncompressed SEC1 encoding, whose first byte is 4.  The result is a
/// function of the secret bytes alone.
#[verifier::external_body]
pub(crate) fn public_key_uncompressed_from_secret_bytes(b: &[u8]) -> (r: Vec<u8>)
    requires
        b@.len() == 32,
        valid_secret_key_bytes(b@),
    ensures
        r@ == pubkey_uncompressed_of(b@),
        r@.len() == 65,
        r@[0] == 4,
{
    let sk = secp256k1::SecretKey::from_slice(b).expect("checked secret key bytes");
    let pk = sk.public_key(&secp256k1::Secp256k1::new());
    let pk2 = secp256k1::PublicKey::from_slice(&pk.serialize()).expect("compressed round trip");
    let kp = k256::PublicKey::from_sec1_bytes(&pk2.serialize_uncompressed()).expect("SEC1 point");
    kp.to_encoded_point(false).as_bytes().to_vec()
}

/// Relies on the SHA-256 implementation re-exported by secp256k1: the
/// 32-byte digest, a function of the input alone.
#[verifier::external_body]
pub(crate) fn sha256(bytes: &[u8]) -> (r: Vec<u8>)
    ensures
        r@ == sha256_of(bytes@),
        r@.len() == 32,
{
    secp256k1::hashes::sha256::Hash::hash(bytes).to_byte_array().to_vec()
}

/// Relies on `secp256k1::SecretKey::sign_ecdsa` and
/// `ecdsa::Signature::serialize_compact`: a 64-byte compact `(r, s)`
/// signature over the 32-byte digest.  The underlying call derives its
/// nonce with RFC6979 and no extra nonce data, so the result is the one
/// signature that the key bytes and the digest determine.
#[verifier::external_body]
pub(crate) fn sign_ecdsa_compact(sk_bytes: &[u8], digest: &[u8]) -> (r: Vec<u8>)
    requires
        sk_bytes@.len() == 32,
        valid_secret_key_bytes(sk_bytes@),
        digest@.len() == 32,
    ensures
        r@ == ecdsa_compact_sig_of(sk_bytes@, digest@),
        r@.len() == 64,
{
    let sk = secp256k1::SecretKey::from_slice(sk_bytes).expect("checked secret key bytes");
    let msg = secp256k1::Message::from_digest_slice(digest).expect("32-byte digest");
    sk.sign_ecdsa(msg).serialize_compact().to_vec()
}

/// Relies on `sha3::Keccak256`: the 32-byte Keccak-256 digest, a
/// function of the input alone.
#[verifier::external_body]
pub(crate) fn keccak256(bytes: &[u8]) -> (r: Vec<u8>)
    ensures
        r@ == keccak256_of(bytes@),
        r@.len() == 32,
{
    sha3::Keccak256::digest(bytes).to_vec()
}

/// The lowercase hexadecimal digit for a value in `0..16`.
pub open spec fn hex_digit_char(d: int) -> char {
    if d < 10 {
        crate::numeric::dec_digit_char(d)
    } else if d == 10 {
        'a'
    } else if d == 11 {
        'b'
    } else if d == 12 {
        'c'
    } else if d == 13 {
        'd'
    } else if d == 14 {
        'e'
    } else {
        'f'
    }
}

/// The lowercase hexadecimal rendering of a byte sequence: two digits
/// per byte, in order, no prefix.
pub open spec fn hex_of(b: Seq<u8>) -> Seq<char>
    decreases b.len(),
{
    if b.len() == 0 {
        Seq::empty()
    } else {
        hex_of(b.drop_last()) + seq![
            hex_digit_char(b.last() as int / 16),
            hex_digit_char(b.last() as int % 16),
        ]
    }
}

/// A lowercase hexadecimal digit character.
pub open spec fn is_lower_hex_digit(c: char) -> bool {
    (48 <= c as u32 <= 57) || (97 <= c as u32 <= 102)
}

/// A hexadecimal rendering holds exactly two lowercase digits for each
/// byte.
pub proof fn lemma_hex_of_shape(b: Seq<u8>)
    ensures
        hex_of(b).len() == 2 * b.len(),
        forall|i: int| 0 <= i < hex_of(b).len() ==> is_lower_hex_digit(#[trigger] hex_of(b)[i]),
    decreases b.len(),
{
    assert(forall|d: int| 0 <= d < 16 ==> is_lower_hex_digit(#[trigger] hex_digit_char(d)));
    if b.len() > 0 {
        lemma_hex_of_shape(b.drop_last());
    }
}

/// A hexadecimal digit character of either case.
pub open spec fn is_hex_digit(c: char) -> bool {
    (48 <= c as u32 <= 57) || (97 <= c as u32 <= 102) || (65 <= c as u32 <= 70)
}

/// Every character of `s` is a hexadecimal digit.
pub open spec fn all_hex_digits(s: Seq<char>) -> bool {
    forall|i: int| 0 <= i < s.len() ==> is_hex_digit(#[trigger] s[i])
}

/// The numeric value of a hexadecimal digit character.
pub open spec fn hex_digit_val(c: char) -> int {
    if 48 <= c as u32 <= 57 {
        c as u32 - 48
    } else if 97 <= c as u32 <= 102 {
        c as u32 - 87
    } else {
        c as u32 - 55
    }
}

/// The bytes denoted by an even-length hexadecimal string, two digits
/// per byte.
pub open spec fn hex_bytes_of(s: Seq<char>) -> Seq<u8>
    decreases s.len(),
{
    if s.len() < 2 {
        Seq::empty()
    } else {
        hex_bytes_of(s.take(s.len() - 2)) + seq![
            (16 * hex_digit_val(s[s.len() - 2]) + hex_digit_val(s[s.len() - 1])) as u8,
        ]
    }
}

/// Relies on `hex::encode`: the lowercase rendering, two digits for
/// each byte, in order.
#[verifier::external_body]
pub(crate) fn hex_encode(b: &[u8]) -> (r: String)
    ensures
        r@ == hex_of(b@),
{
    hex::encode(b)
}

/// Relies on `hex::decode`: it accepts exactly the even-length strings
/// of hexadecimal digits of either case, and yields the denoted bytes.
#[verifier::external_body]
pub(crate) fn hex_decode(s: &str) -> (r: Option<Vec<u8>>)
    ensures
        r is Some <==> (s@.len() % 2 == 0 && all_hex_digits(s@)),
        r matches Some(v) ==> v@ == hex_bytes_of(s@),
{
    hex::decode(s).ok()
}

} // verus!
