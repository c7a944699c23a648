use vstd::prelude::*;
use vstd::utf8::*;
use ckb_std::ckb_types::packed::{Byte32, Bytes, Script};
use ckb_std::ckb_types::prelude::{Builder, Entity};
use molecule::prelude::Byte;

use crate::hash::{blake2b_256, ckb_hash};
use crate::molecule_encoding::{
    encode_fixvec, encode_table3, fixvec_bytes, lemma_fixvec_items, lemma_table3_fields,
    table3_bytes, MAX_NUMBER,
};

verus! {

/// Largest asset name, in UTF-8 bytes, whose lock script still fits the
/// 32-bit sizes of the encoding.
pub const MAX_ASSET_LEN: u64 = MAX_NUMBER - 106;

/// A byte slice that should have held a 32-byte digest had another length.
#[derive(Debug, Clone, Copy, PartialEq, Eq, Structural)]
pub enum DigestInputError {
    MalformedDigestInput { len: usize },
}

/// Arguments of the bridge's lock script: the type hash of the owner cell,
/// the chain it bridges to, and the asset's name.
pub struct BridgeLockscriptArgs {
    pub owner_cell_type_hash: [u8; 32],
    pub chain: u8,
    pub asset: String,
}

/// Encoding of lock-script arguments: a table of the owner cell's type hash,
/// the chain byte and the asset name as a byte vector.
pub open spec fn lockscript_args_bytes(owner: Seq<u8>, chain: u8, asset: Seq<u8>) -> Seq<u8> {
    table3_bytes(owner, seq![chain], fixvec_bytes(asset))
}

/// Encoding of a script: a table of its code hash, its hash type and its
/// arguments as a byte vector.
pub open spec fn script_bytes(code_hash: Seq<u8>, hash_type: u8, args: Seq<u8>) -> Seq<u8> {
    table3_bytes(code_hash, seq![hash_type], fixvec_bytes(args))
}

/// Encoding of the bridge lock script that `code_hash` and `hash_type` run
/// with the arguments (`owner`, `chain`, `asset`).
pub open spec fn bridge_lock_script_bytes(
    owner: Seq<u8>,
    chain: u8,
    asset: Seq<char>,
    code_hash: Seq<u8>,
    hash_type: u8,
) -> Seq<u8> {
    script_bytes(code_hash, hash_type, lockscript_args_bytes(owner, chain, encode_utf8(asset)))
}

/// Hash of that bridge lock script.
pub open spec fn bridge_lock_hash(
    owner: Seq<u8>,
    chain: u8,
    asset: Seq<char>,
    code_hash: Seq<u8>,
    hash_type: u8,
) -> Seq<u8> {
    ckb_hash(bridge_lock_script_bytes(owner, chain, asset, code_hash, hash_type))
}

/// Relies on ckb_types' `ScriptBuilder` (`code_hash`, `hash_type`, `args`,
/// `build`) and `Script::as_slice`: the table of code hash, hash-type byte
/// and arguments as a byte vector. Sizes are written as 32-bit numbers, so the
/// arguments are bounded.
#[verifier::external_body]
fn encode_script(code_hash: &[u8; 32], hash_type: u8, args: &[u8]) -> (r: Vec<u8>)
    requires
        53 + args@.len() <= MAX_NUMBER,
    ensures
        r@ == script_bytes(code_hash@, hash_type, args@),
{
    Script::new_builder()
        .code_hash(Byte32::from(code_hash))
        .hash_type(Byte::new(hash_type))
        .args(Bytes::from(args))
        .build()
        .as_slice()
        .to_vec()
}

impl BridgeLockscriptArgs {
    pub fn new(owner_cell_type_hash: [u8; 32], chain: u8, asset: String) -> (r: Self)
        ensures
            r.owner_cell_type_hash == owner_cell_type_hash,
            r.chain == chain,
            r.asset@ == asset@,
    {
        BridgeLockscriptArgs { owner_cell_type_hash, chain, asset }
    }

    /// The encoded arguments.
    pub fn to_bytes(&self) -> (r: Vec<u8>)
        requires
            encode_utf8(self.asset@).len() <= MAX_ASSET_LEN,
        ensures
            r@ == lockscript_args_bytes(self.owner_cell_type_hash@, self.chain, encode_utf8(self.asset@)),
    {
        let asset = encode_fixvec(self.asset.as_str().as_bytes());
        let chain: [u8; 1] = [self.chain];
        encode_table3(self.owner_cell_type_hash.as_slice(), chain.as_slice(), asset.as_slice())
    }
}

/// The 32 bytes of `s`, or `MalformedDigestInput` where `s` has another length.
pub fn byte32_from_slice(s: &[u8]) -> (r: Result<[u8; 32], DigestInputError>)
    ensures
        r is Ok <==> s@.len() == 32,
        r matches Ok(d) ==> d@ == s@,
        r matches Err(e) ==> e == (DigestInputError::MalformedDigestInput { len: s@.len() as usize }),
{
    if s.len() != 32 {
        return Err(DigestInputError::MalformedDigestInput { len: s.len() });
    }
    let mut d: [u8; 32] = [0u8; 32];
    let mut i: usize = 0;
    while i < 32
        invariant
            i <= 32,
            s@.len() == 32,
            forall|j: int| 0 <= j < i ==> d@[j] == s@[j],
        decreases 32 - i,
    {
        d[i] = s[i];
        i = i + 1;
    }
    assert(d@ == s@);
    Ok(d)
}

/// Hash of the bridge lock script run by `for_bridge_lock_code_hash` with
/// `for_bridge_lock_hash_type`, whose arguments name the owner cell's type
/// hash, the chain and the asset.
pub fn calc_xchain_bridge_lock_hash(
    owner_cell_type_hash: &[u8; 32],
    chain: u8,
    asset: String,
    for_bridge_lock_code_hash: &[u8; 32],
    for_bridge_lock_hash_type: u8,
) -> (r: [u8; 32])
    requires
        encode_utf8(asset@).len() <= MAX_ASSET_LEN,
    ensures
        r@ == bridge_lock_hash(
            owner_cell_type_hash@,
            chain,
            asset@,
            for_bridge_lock_code_hash@,
            for_bridge_lock_hash_type,
        ),
{
    let args = BridgeLockscriptArgs::new(*owner_cell_type_hash, chain, asset);
    let args_bytes = args.to_bytes();
    let script = encode_script(
        for_bridge_lock_code_hash,
        for_bridge_lock_hash_type,
        args_bytes.as_slice(),
    );
    blake2b_256(script.as_slice())
}

/// The fields of a script read back from its encoding; lock-script
/// arguments share the layout, with the owner's type hash, the chain byte and
/// the asset name in place of code hash, hash type and arguments.
proof fn lemma_script_fields(code_hash: Seq<u8>, hash_type: u8, args: Seq<u8>)
    requires
        code_hash.len() == 32,
    ensures
        script_bytes(code_hash, hash_type, args).len() == 53 + args.len() as int,
        script_bytes(code_hash, hash_type, args).subrange(16, 48) == code_hash,
        script_bytes(code_hash, hash_type, args)[48] == hash_type,
        script_bytes(code_hash, hash_type, args).subrange(53, 53 + args.len() as int) == args,
{
    let s = script_bytes(code_hash, hash_type, args);
    let f = fixvec_bytes(args);
    lemma_table3_fields(code_hash, seq![hash_type], f);
    lemma_fixvec_items(args);
    assert(s.subrange(48, 49)[0] == s[48]);
    assert(s.subrange(53, 53 + args.len() as int) =~= s.subrange(49, 53 + args.len() as int).subrange(
        4,
        4 + args.len() as int,
    ));
}

/// A bridge lock script is determined by its five arguments and determines
/// them: two argument lists give the same script encoding exactly when they
/// are equal, and equal arguments give equal lock hashes.
pub proof fn lemma_bridge_lock_script_injective(
    owner1: Seq<u8>,
    chain1: u8,
    asset1: Seq<char>,
    code_hash1: Seq<u8>,
    hash_type1: u8,
    owner2: Seq<u8>,
    chain2: u8,
    asset2: Seq<char>,
    code_hash2: Seq<u8>,
    hash_type2: u8,
)
    requires
        owner1.len() == 32,
        code_hash1.len() == 32,
        owner2.len() == 32,
        code_hash2.len() == 32,
    ensures
        bridge_lock_script_bytes(owner1, chain1, asset1, code_hash1, hash_type1)
            == bridge_lock_script_bytes(owner2, chain2, asset2, code_hash2, hash_type2) <==> (
        owner1 == owner2 && chain1 == chain2 && asset1 == asset2 && code_hash1 == code_hash2
            && hash_type1 == hash_type2),
        (owner1 == owner2 && chain1 == chain2 && asset1 == asset2 && code_hash1 == code_hash2
            && hash_type1 == hash_type2) ==> bridge_lock_hash(
            owner1,
            chain1,
            asset1,
            code_hash1,
            hash_type1,
        ) == bridge_lock_hash(owner2, chain2, asset2, code_hash2, hash_type2),
{
    let u1 = encode_utf8(asset1);
    let u2 = encode_utf8(asset2);
    let args1 = lockscript_args_bytes(owner1, chain1, u1);
    let args2 = lockscript_args_bytes(owner2, chain2, u2);
    let s1 = script_bytes(code_hash1, hash_type1, args1);
    let s2 = script_bytes(code_hash2, hash_type2, args2);
    if s1 == s2 {
        lemma_script_fields(code_hash1, hash_type1, args1);
        lemma_script_fields(code_hash2, hash_type2, args2);
        assert(args1 == args2);
        lemma_script_fields(owner1, chain1, u1);
        lemma_script_fields(owner2, chain2, u2);
        assert(u1 == u2);
        encode_utf8_decode_utf8(asset1);
        encode_utf8_decode_utf8(asset2);
    }
}

} // verus!
