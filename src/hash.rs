use vstd::prelude::*;
use blake2b_ref::Blake2bBuilder;

verus! {

/// Personalisation tag of the chain's default hash: the ASCII bytes of
/// `ckb-default-hash`.
pub const CKB_HASH_PERSONALIZATION: [u8; 16] = [
    0x63, 0x6b, 0x62, 0x2d, 0x64, 0x65, 0x66, 0x61, 0x75, 0x6c, 0x74, 0x2d, 0x68, 0x61, 0x73, 0x68,
];

/// The 32-byte BLAKE2b digest of `data` under the personalisation tag `personal`.
pub uninterp spec fn personal_blake2b_256(personal: Seq<u8>, data: Seq<u8>) -> Seq<u8>;

/// Relies on blake2b_ref's `Blake2bBuilder::new(32).personal(..).build()`, then
/// `Blake2b::update` and `Blake2b::finalize`: a 32-byte BLAKE2b digest that
/// depends on the tag and the data alone. `personal` panics beyond 16 bytes.
#[verifier::external_body]
fn blake2b_personal_256(personal: &[u8], data: &[u8]) -> (r: [u8; 32])
    requires
        personal@.len() <= 16,
    ensures
        r@ == personal_blake2b_256(personal@, data@),
{
    let mut out = [0u8; 32];
    let mut state = Blake2bBuilder::new(out.len()).personal(personal).build();
    state.update(data);
    state.finalize(&mut out);
    out
}

/// The chain's default hash of `data`.
pub open spec fn ckb_hash(data: Seq<u8>) -> Seq<u8> {
    personal_blake2b_256(CKB_HASH_PERSONALIZATION@, data)
}

/// The 32-byte digest of `s`, BLAKE2b personalised with the chain's default tag.
pub fn blake2b_256(s: &[u8]) -> (r: [u8; 32])
    ensures
        r@ == ckb_hash(s@),
{
    let personal: [u8; 16] = CKB_HASH_PERSONALIZATION;
    blake2b_personal_256(personal.as_slice(), s)
}

/// Hashing is a function of the data: equal data give equal digests.
pub proof fn lemma_ckb_hash_deterministic(x: Seq<u8>, y: Seq<u8>)
    requires
        x == y,
    ensures
        ckb_hash(x) == ckb_hash(y),
{
}

} // verus!
