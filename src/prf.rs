//! `PRF^addr`: one call of the SHA-256 compression function on a single
//! 64-byte block, keyed by the spending key and a one-byte selector.
use byteorder::{ByteOrder, LittleEndian};
use vstd::prelude::*;

verus! {

/// Bits OR'd into the first key byte to separate this use of the
/// compression function from ordinary hashing.
pub const DOMAIN_BITS: u8 = 0b1100_0000;

/// The block that the compression function runs on: the key (first byte
/// tagged with the domain bits), then the selector, then zeros.
pub open spec fn prf_block_spec(key: Seq<u8>, t: u8) -> Seq<u8> {
    Seq::new(
        64,
        |i: int|
            if i == 0 {
                key[0] | DOMAIN_BITS
            } else if i < 32 {
                key[i]
            } else if i == 32 {
                t
            } else {
                0u8
            },
    )
}

/// Builds the 64-byte block for `key` and selector `t`.
pub fn prf_block(key: &[u8; 32], t: u8) -> (block: [u8; 64])
    ensures
        block@ == prf_block_spec(key@, t),
{
    let mut block = [0u8; 64];
    let mut i: usize = 0;
    while i < 32
        invariant
            0 <= i <= 32,
            forall|j: int| 0 <= j < i ==> block@[j] == key@[j],
            forall|j: int| 32 <= j < 64 ==> block@[j] == 0u8,
        decreases 32 - i,
    {
        block[i] = key[i];
        i = i + 1;
    }
    block[0] = block[0] | DOMAIN_BITS;
    block[32] = t;
    assert(block@ =~= prf_block_spec(key@, t));
    block
}

/// The standard SHA-256 initial hash value.
pub open spec fn sha256_iv_spec() -> Seq<u32> {
    seq![
        0x6a09e667u32,
        0xbb67ae85u32,
        0x3c6ef372u32,
        0xa54ff53au32,
        0x510e527fu32,
        0x9b05688cu32,
        0x1f83d9abu32,
        0x5be0cd19u32,
    ]
}

/// Returns the standard SHA-256 initial hash value.
pub fn sha256_iv() -> (iv: [u32; 8])
    ensures
        iv@ == sha256_iv_spec(),
{
    let iv: [u32; 8] = [
        0x6a09e667,
        0xbb67ae85,
        0x3c6ef372,
        0xa54ff53a,
        0x510e527f,
        0x9b05688c,
        0x1f83d9ab,
        0x5be0cd19,
    ];
    assert(iv@ =~= sha256_iv_spec());
    iv
}

/// The state that the SHA-256 compression function leaves after running on
/// one 64-byte block from the given eight-word state.
pub uninterp spec fn sha256_compress(state: Seq<u32>, block: Seq<u8>) -> Seq<u32>;

/// Relies on `sha2::compress256`: given one block, it replaces the state by
/// the result of the SHA-256 compression function on that state and block,
/// a function of the two alone.
#[verifier::external_body]
fn compress256(state: &mut [u32; 8], block: &[u8; 64])
    ensures
        final(state)@ == sha256_compress(old(state)@, block@),
{
    let block = sha2::digest::generic_array::GenericArray::clone_from_slice(&block[..]);
    sha2::compress256(state, &[block]);
}

/// The bytes of `words`, each word written little-endian.
pub open spec fn le_bytes_spec(words: Seq<u32>) -> Seq<u8> {
    Seq::new(4 * words.len(), |i: int| (words[i / 4] >> (8 * (i % 4)) as u32) as u8)
}

/// Relies on `byteorder::LittleEndian::write_u32_into`: with a destination
/// four times as long as the source, it writes each word's little-endian
/// bytes in turn.
#[verifier::external_body]
fn write_u32_le(src: &[u32; 8], dst: &mut [u8; 32])
    ensures
        final(dst)@ == le_bytes_spec(src@),
{
    LittleEndian::write_u32_into(&src[..], &mut dst[..]);
}

/// Encodes a compression state as 32 bytes, each word little-endian.
pub fn encode_state(state: &[u32; 8]) -> (out: [u8; 32])
    ensures
        out@ == le_bytes_spec(state@),
{
    let mut out = [0u8; 32];
    write_u32_le(state, &mut out);
    out
}

/// `PRF^addr` with key `key` and selector `t`.
pub open spec fn prf_addr_spec(key: Seq<u8>, t: u8) -> Seq<u8> {
    le_bytes_spec(sha256_compress(sha256_iv_spec(), prf_block_spec(key, t)))
}

/// Computes `PRF^addr(key, t)`: one compression of the block for `key`
/// and `t` from the initial hash value, encoded little-endian.
pub fn prf_addr(key: &[u8; 32], t: u8) -> (out: [u8; 32])
    ensures
        out@ == prf_addr_spec(key@, t),
{
    let block = prf_block(key, t);
    let mut state = sha256_iv();
    compress256(&mut state, &block);
    encode_state(&state)
}

} // verus!
