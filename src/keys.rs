//! The Sprout key types and the derivations between them.
use crate::prf::{prf_addr, prf_addr_spec, prf_block_spec, DOMAIN_BITS};
use vstd::prelude::*;
use vstd::string::StringExecFns;

verus! {

/// Mask that keeps the low four bits of the first spending-key byte.
pub const CLAMP_MASK: u8 = 0b0000_1111;

/// The bytes of a spending key after clamping: the top four bits of the
/// first byte cleared, every other byte kept.
pub open spec fn clamp_spec(bytes: Seq<u8>) -> Seq<u8> {
    bytes.update(0, bytes[0] & CLAMP_MASK)
}

/// The spending key made from `bytes` by clamping.
pub open spec fn clamped_key(bytes: [u8; 32]) -> SpendingKey {
    SpendingKey(vstd::array::spec_array_update(bytes, 0, bytes[0] & CLAMP_MASK))
}

/// The root secret of the Sprout key tree: 252 effective bits, the top
/// four bits of the first byte being zero.
#[derive(Copy, Clone, Debug, PartialEq, Eq)]
pub struct SpendingKey(pub [u8; 32]);

impl SpendingKey {
    /// The key holds 252 bits: the top four bits of its first byte are zero.
    pub open spec fn is_clamped(&self) -> bool {
        self.0[0] & 0xf0 == 0
    }

    /// Makes a spending key from 32 bytes drawn from a cryptographically
    /// secure source, clamped to 252 bits.
    pub fn new(random_bytes: [u8; 32]) -> (key: SpendingKey)
        ensures
            key == clamped_key(random_bytes),
            key.0@ == clamp_spec(random_bytes@),
            key.is_clamped(),
    {
        let key = SpendingKey::from(random_bytes);
        proof {
            lemma_clamping(random_bytes);
        }
        key
    }
}

impl From<[u8; 32]> for SpendingKey {
    /// Clamps `bytes` to a spending key; an already clamped key is kept.
    fn from(bytes: [u8; 32]) -> (key: SpendingKey) {
        let mut clamped = bytes;
        clamped[0] = bytes[0] & CLAMP_MASK;
        assert(clamped@ =~= clamp_spec(bytes@));
        SpendingKey(clamped)
    }
}

impl vstd::std_specs::convert::FromSpecImpl<[u8; 32]> for SpendingKey {
    open spec fn obeys_from_spec() -> bool {
        true
    }

    open spec fn from_spec(bytes: [u8; 32]) -> SpendingKey {
        clamped_key(bytes)
    }
}

/// A 32-byte array whose bytes are `bytes`, where one exists; the derivations
/// below also state the bytes of their results directly.
pub open spec fn array_of(bytes: Seq<u8>) -> [u8; 32] {
    choose|a: [u8; 32]| a@ == bytes
}

/// An array is determined by its bytes.
pub proof fn lemma_array_of(a: [u8; 32])
    ensures
        array_of(a@) == a,
{
    let c = array_of(a@);
    assert(c@ == a@);
    assert forall|i: int| 0 <= i < 32 implies c[i] == a[i] by {
        assert(c@[i] == a@[i]);
    }
    assert(c =~= a);
}

/// The receiving key `sk_enc`, a Curve25519 private scalar derived from a
/// spending key. The curve clamps it when it is used.
#[derive(Clone, PartialEq, Eq)]
pub struct ReceivingKey(pub [u8; 32]);

/// The receiving key of `spending_key`: `PRF^addr` with selector 0.
pub open spec fn receiving_key_of(spending_key: SpendingKey) -> ReceivingKey {
    ReceivingKey(array_of(prf_addr_spec(spending_key.0@, 0)))
}

impl From<SpendingKey> for ReceivingKey {
    /// Derives the receiving key: `PRF^addr(a_sk, t = 0)`.
    fn from(spending_key: SpendingKey) -> (key: ReceivingKey)
        ensures
            key.0@ == prf_addr_spec(spending_key.0@, 0),
    {
        let bytes = prf_addr(&spending_key.0, 0);
        proof {
            lemma_array_of(bytes);
        }
        ReceivingKey(bytes)
    }
}

impl vstd::std_specs::convert::FromSpecImpl<SpendingKey> for ReceivingKey {
    open spec fn obeys_from_spec() -> bool {
        true
    }

    open spec fn from_spec(spending_key: SpendingKey) -> ReceivingKey {
        receiving_key_of(spending_key)
    }
}

/// The paying key `a_pk`, an opaque identifier derived from a spending key.
#[derive(Copy, Clone, PartialEq, Eq)]
pub struct PayingKey(pub [u8; 32]);

/// The paying key of `spending_key`: `PRF^addr` with selector 1.
pub open spec fn paying_key_of(spending_key: SpendingKey) -> PayingKey {
    PayingKey(array_of(prf_addr_spec(spending_key.0@, 1)))
}

impl From<SpendingKey> for PayingKey {
    /// Derives the paying key: `PRF^addr(a_sk, t = 1)`.
    fn from(spending_key: SpendingKey) -> (key: PayingKey)
        ensures
            key.0@ == prf_addr_spec(spending_key.0@, 1),
    {
        let bytes = prf_addr(&spending_key.0, 1);
        proof {
            lemma_array_of(bytes);
        }
        PayingKey(bytes)
    }
}

impl vstd::std_specs::convert::FromSpecImpl<SpendingKey> for PayingKey {
    open spec fn obeys_from_spec() -> bool {
        true
    }

    open spec fn from_spec(spending_key: SpendingKey) -> PayingKey {
        paying_key_of(spending_key)
    }
}

/// The lowercase hexadecimal digits.
pub open spec fn hex_digits() -> Seq<char> {
    seq!['0', '1', '2', '3', '4', '5', '6', '7', '8', '9', 'a', 'b', 'c', 'd', 'e', 'f']
}

/// `bytes` in lowercase hexadecimal: two digits per byte, high nibble first.
pub open spec fn hex_spec(bytes: Seq<u8>) -> Seq<char> {
    Seq::new(
        2 * bytes.len(),
        |i: int|
            if i % 2 == 0 {
                hex_digits()[(bytes[i / 2] >> 4u8) as int]
            } else {
                hex_digits()[(bytes[i / 2] & 0x0fu8) as int]
            },
    )
}

/// Relies on `hex::encode`: each byte becomes two lowercase hexadecimal
/// digits, high nibble first.
#[verifier::external_body]
fn hex_encode(bytes: &[u8; 32]) -> (s: String)
    ensures
        s@ == hex_spec(bytes@),
{
    hex::encode(bytes)
}

impl PayingKey {
    /// A diagnostic rendering that shows the key in lowercase hexadecimal,
    /// as `PayingKey("<hex>")`.
    pub fn debug_string(&self) -> (s: String)
        ensures
            s@ == "PayingKey(\""@ + hex_spec(self.0@) + "\")"@,
    {
        let mut s = "PayingKey(\"".to_owned();
        let hex = hex_encode(&self.0);
        s.append(hex.as_str());
        s.append("\")");
        s
    }
}

/// The public Curve25519 point of a private scalar: the base point
/// multiplied by the scalar after the curve's standard clamping.
pub uninterp spec fn x25519_public_of(scalar: Seq<u8>) -> Seq<u8>;

/// Relies on `x25519_dalek::x25519` with `X25519_BASEPOINT_BYTES`: it
/// returns the encoding of the clamped scalar times the base point, a
/// function of the scalar alone.
#[verifier::external_body]
fn x25519_base(scalar: [u8; 32]) -> (point: [u8; 32])
    ensures
        point@ == x25519_public_of(scalar@),
{
    x25519_dalek::x25519(scalar, x25519_dalek::X25519_BASEPOINT_BYTES)
}

/// The transmission key `pk_enc`, the public point of a receiving key.
#[derive(Copy, Clone, Debug, PartialEq, Eq)]
pub struct TransmissionKey(pub [u8; 32]);

/// The transmission key of `receiving_key`.
pub open spec fn transmission_key_of(receiving_key: ReceivingKey) -> TransmissionKey {
    TransmissionKey(array_of(x25519_public_of(receiving_key.0@)))
}

impl<'a> From<&'a ReceivingKey> for TransmissionKey {
    /// Derives the transmission key: the base point times the receiving key.
    fn from(receiving_key: &'a ReceivingKey) -> (key: TransmissionKey)
        ensures
            key.0@ == x25519_public_of(receiving_key.0@),
    {
        let bytes = x25519_base(receiving_key.0);
        proof {
            lemma_array_of(bytes);
        }
        TransmissionKey(bytes)
    }
}

impl<'a> vstd::std_specs::convert::FromSpecImpl<&'a ReceivingKey> for TransmissionKey {
    open spec fn obeys_from_spec() -> bool {
        true
    }

    open spec fn from_spec(receiving_key: &'a ReceivingKey) -> TransmissionKey {
        transmission_key_of(*receiving_key)
    }
}

/// The incoming viewing key `ivk = (a_pk, sk_enc)`: what its holder needs
/// to detect and decrypt payments to the matching address. The two keys are
/// expected to come from one spending key; the type does not check it.
pub struct IncomingViewingKey {
    paying_key: PayingKey,
    receiving_key: ReceivingKey,
}

impl IncomingViewingKey {
    /// The paying key held, first in field order.
    pub closed spec fn paying_key_spec(&self) -> PayingKey {
        self.paying_key
    }

    /// The receiving key held, second in field order.
    pub closed spec fn receiving_key_spec(&self) -> ReceivingKey {
        self.receiving_key
    }

    /// The viewing key that pairs `paying_key` with `receiving_key`.
    pub closed spec fn pair(paying_key: PayingKey, receiving_key: ReceivingKey) -> IncomingViewingKey {
        IncomingViewingKey { paying_key, receiving_key }
    }

    /// Pairs a paying key with a receiving key, in that order.
    pub fn new(paying_key: PayingKey, receiving_key: ReceivingKey) -> (ivk: IncomingViewingKey)
        ensures
            ivk == IncomingViewingKey::pair(paying_key, receiving_key),
    {
        IncomingViewingKey { paying_key, receiving_key }
    }

    /// The paying key `a_pk`.
    pub fn paying_key(&self) -> (key: PayingKey)
        ensures
            key == self.paying_key_spec(),
    {
        self.paying_key
    }

    /// The receiving key `sk_enc`.
    pub fn receiving_key(&self) -> (key: &ReceivingKey)
        ensures
            *key == self.receiving_key_spec(),
    {
        &self.receiving_key
    }
}

/// Derivation is deterministic: spending keys with the same bytes give the
/// same receiving, paying and transmission keys.
pub proof fn lemma_derivation_deterministic(a: SpendingKey, b: SpendingKey)
    requires
        a.0@ == b.0@,
    ensures
        receiving_key_of(a) == receiving_key_of(b),
        paying_key_of(a) == paying_key_of(b),
        transmission_key_of(receiving_key_of(a)) == transmission_key_of(receiving_key_of(b)),
{
}

/// Every spending key made from bytes is clamped, and clamping a key that
/// is already clamped leaves it unchanged.
pub proof fn lemma_clamping(bytes: [u8; 32])
    ensures
        clamped_key(bytes).is_clamped(),
        clamped_key(bytes).0@ == clamp_spec(bytes@),
        (SpendingKey(bytes)).is_clamped() ==> clamped_key(bytes) == SpendingKey(bytes),
{
    let first = bytes[0];
    assert(first & CLAMP_MASK & 0xf0 == 0) by (bit_vector);
    assert(first & 0xf0 == 0 ==> first & CLAMP_MASK == first) by (bit_vector);
    let c = clamped_key(bytes).0;
    assert(c@ =~= clamp_spec(bytes@));
    if first & 0xf0 == 0 {
        assert forall|i: int| 0 <= i < 32 implies c[i] == bytes[i] by {
            assert(c@[i] == bytes@[i]);
        }
        assert(c =~= bytes);
    }
}

/// The blocks that `PRF^addr` compresses for selectors 0 and 1 differ, so
/// receiving and paying keys come from distinct compression inputs.
pub proof fn lemma_selector_blocks_differ(key: Seq<u8>)
    ensures
        prf_block_spec(key, 0) != prf_block_spec(key, 1),
{
    assert(prf_block_spec(key, 0)[32] != prf_block_spec(key, 1)[32]);
}

/// Two distinct 32-byte keys whose first bytes agree in the two domain bits
/// give distinct compression blocks for the same selector; flipping any
/// other single bit of a key changes the block.
pub proof fn lemma_distinct_keys_distinct_blocks(a: Seq<u8>, b: Seq<u8>, t: u8)
    requires
        a.len() == 32,
        b.len() == 32,
        a != b,
        a[0] & DOMAIN_BITS == b[0] & DOMAIN_BITS,
    ensures
        prf_block_spec(a, t) != prf_block_spec(b, t),
{
    assert(!(a =~= b));
    let i = choose|i: int| 0 <= i < 32 && a[i] != b[i];
    let (x, y) = (a[0], b[0]);
    assert(x & 0xc0 == y & 0xc0 && x != y ==> x | 0xc0 != y | 0xc0) by (bit_vector);
    assert(prf_block_spec(a, t)[i] != prf_block_spec(b, t)[i]);
}

/// A viewing key built from a paying key and a receiving key gives both
/// back unchanged, the paying key first.
pub proof fn lemma_pairing_identity(paying_key: PayingKey, receiving_key: ReceivingKey)
    ensures
        IncomingViewingKey::pair(paying_key, receiving_key).paying_key_spec() == paying_key,
        IncomingViewingKey::pair(paying_key, receiving_key).receiving_key_spec() == receiving_key,
{
}

} // verus!
