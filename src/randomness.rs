//! Derivation of the 128-bit random payload: the SCALE encoding of
//! (seed, sender, extrinsic index), hashed with Blake2b-128.
use vstd::prelude::*;

verus! {

/// The identity of an account, as authenticated by the host environment.
pub type AccountId = u64;

/// The little-endian bytes of a `u32`.
pub open spec fn u32_le_bytes(x: u32) -> Seq<u8> {
    seq![
        (x % 0x100) as u8,
        ((x / 0x100) % 0x100) as u8,
        ((x / 0x1_0000) % 0x100) as u8,
        ((x / 0x100_0000) % 0x100) as u8,
    ]
}

/// The little-endian bytes of a `u64`.
pub open spec fn u64_le_bytes(x: u64) -> Seq<u8> {
    u32_le_bytes((x % 0x1_0000_0000) as u32) + u32_le_bytes((x / 0x1_0000_0000) as u32)
}

/// The SCALE encoding of an optional `u32`: a zero byte for `None`, a one byte
/// followed by the value's little-endian bytes for `Some`.
pub open spec fn option_u32_encoding(x: Option<u32>) -> Seq<u8> {
    match x {
        None => seq![0u8],
        Some(v) => seq![1u8] + u32_le_bytes(v),
    }
}

/// The SCALE encoding of the tuple (seed, sender, extrinsic index): the fields'
/// encodings one after the other, the seed's bytes as they stand.
pub open spec fn payload_encoding(seed: Seq<u8>, sender: AccountId, extrinsic_index: Option<u32>) -> Seq<u8> {
    seed + u64_le_bytes(sender) + option_u32_encoding(extrinsic_index)
}

/// The Blake2b digest of `data` with a 16-byte output.
pub uninterp spec fn blake2_128_of(data: Seq<u8>) -> Seq<u8>;

/// The random payload that a seed, a sender and an extrinsic index give.
pub open spec fn random_payload_of(seed: Seq<u8>, sender: AccountId, extrinsic_index: Option<u32>) -> Seq<u8> {
    blake2_128_of(payload_encoding(seed, sender, extrinsic_index))
}

/// Relies on `parity_scale_codec::Encode::encode` for a tuple of a byte array, a
/// `u64` and an `Option<u32>`: a tuple encodes as its fields in order, a byte
/// array as its bytes without a length, integers little-endian, and an `Option`
/// as a 0 byte, or a 1 byte followed by the value.
#[verifier::external_body]
pub(crate) fn encode_payload(seed: &[u8; 32], sender: &AccountId, extrinsic_index: Option<u32>) -> (r: Vec<u8>)
    ensures
        r@ == payload_encoding(seed@, *sender, extrinsic_index),
{
    parity_scale_codec::Encode::encode(&(seed, sender, extrinsic_index))
}

/// Relies on `sp_io::hashing::blake2_128`: the 16-byte Blake2b digest, which
/// depends on the input bytes alone.
#[verifier::external_body]
pub(crate) fn blake2_128(data: &Vec<u8>) -> (r: [u8; 16])
    ensures
        r@ == blake2_128_of(data@),
{
    sp_io::hashing::blake2_128(data.as_slice())
}

} // verus!
