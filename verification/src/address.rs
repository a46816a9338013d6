use vstd::prelude::*;

use crate::codec::{compact_bytes, compact_encode_u32};

verus! {

/// The length value written into the derivation preimage: the eleven tag
/// bytes of `account_id32_tag` plus the 32 identity bytes.
pub const ACCOUNT_TYPE_LEN: u32 = 43;

/// The BLAKE2b-256 digest of `input`. What the digest of a given byte string
/// is, only the hash function itself says; the library states only that it
/// depends on the input bytes alone.
pub uninterp spec fn blake2_256_of(input: Seq<u8>) -> Seq<u8>;

/// The UTF-8 bytes of the account-kind tag `AccountId32`.
pub open spec fn account_id32_tag() -> Seq<u8> {
    seq![65u8, 99u8, 99u8, 111u8, 117u8, 110u8, 116u8, 73u8, 100u8, 51u8, 50u8]
}

/// The UTF-8 bytes of the derivation family `SiblingChain`, under which a
/// sibling parachain's sovereign accounts are derived.
pub open spec fn sibling_chain_tag() -> Seq<u8> {
    seq![83u8, 105u8, 98u8, 108u8, 105u8, 110u8, 103u8, 67u8, 104u8, 97u8, 105u8, 110u8]
}

/// The exact preimage hashed to derive a remote identity: the family bytes,
/// the compact-encoded chain id, the compact-encoded value 43 (tag length
/// plus identity length), the tag `AccountId32`, and the 32 identity bytes.
pub open spec fn derivation_input(family: Seq<u8>, remote_chain_id: u32, local_identity: Seq<u8>) -> Seq<u8> {
    family + compact_bytes(remote_chain_id as u128) + compact_bytes(ACCOUNT_TYPE_LEN as u128)
        + account_id32_tag() + local_identity
}

/// Relies on blake2b_simd: BLAKE2b with a 32-byte digest of the input bytes;
/// the result depends on those bytes alone.
#[verifier::external_body]
fn blake2_256(input: &Vec<u8>) -> (r: [u8; 32])
    ensures
        r@ == blake2_256_of(input@),
{
    let hash = blake2b_simd::Params::new().hash_length(32).hash(input.as_slice());
    let mut out = [0u8; 32];
    out.copy_from_slice(hash.as_bytes());
    out
}

/// Returns the UTF-8 bytes of the tag `AccountId32`.
pub fn account_id32_tag_bytes() -> (v: Vec<u8>)
    ensures
        v@ == account_id32_tag(),
{
    let mut v: Vec<u8> = Vec::new();
    v.push(65);
    v.push(99);
    v.push(99);
    v.push(111);
    v.push(117);
    v.push(110);
    v.push(116);
    v.push(73);
    v.push(100);
    v.push(51);
    v.push(50);
    proof {
        assert(v@ =~= account_id32_tag());
    }
    v
}

/// Returns the UTF-8 bytes of the family `SiblingChain`.
pub fn sibling_chain_tag_bytes() -> (v: Vec<u8>)
    ensures
        v@ == sibling_chain_tag(),
{
    let mut v: Vec<u8> = Vec::new();
    v.push(83);
    v.push(105);
    v.push(98);
    v.push(108);
    v.push(105);
    v.push(110);
    v.push(103);
    v.push(67);
    v.push(104);
    v.push(97);
    v.push(105);
    v.push(110);
    proof {
        assert(v@ =~= sibling_chain_tag());
    }
    v
}

/// Appends every byte of `src` to `dst`.
pub(crate) fn push_bytes(dst: &mut Vec<u8>, src: &[u8])
    ensures
        final(dst)@ == old(dst)@ + src@,
{
    let mut i: usize = 0;
    while i < src.len()
        invariant
            i <= src@.len(),
            dst@ == old(dst)@ + src@.subrange(0, i as int),
        decreases src@.len() - i,
    {
        dst.push(src[i]);
        proof {
            assert(old(dst)@ + src@.subrange(0, i as int) + seq![src@[i as int]] =~= old(dst)@
                + src@.subrange(0, i + 1));
        }
        i += 1;
    }
    proof {
        assert(src@.subrange(0, src@.len() as int) =~= src@);
    }
}

/// Derives the deterministic 32-byte identity that an account known as
/// `local_identity` under the family `family` on chain `remote_chain_id`
/// carries on the remote chain: the BLAKE2b-256 digest of the derivation
/// preimage. Deterministic: the result is a function of the three arguments
/// and of nothing else.
pub fn convert_to_hash(family: &[u8], remote_chain_id: u32, local_identity: &[u8; 32]) -> (r: [u8;
    32])
    ensures
        r@ == blake2_256_of(derivation_input(family@, remote_chain_id, local_identity@)),
{
    let mut input: Vec<u8> = Vec::new();
    push_bytes(&mut input, family);
    let mut chain = compact_encode_u32(remote_chain_id);
    input.append(&mut chain);
    let mut type_len = compact_encode_u32(ACCOUNT_TYPE_LEN);
    input.append(&mut type_len);
    let tag = account_id32_tag_bytes();
    push_bytes(&mut input, tag.as_slice());
    push_bytes(&mut input, local_identity.as_slice());
    proof {
        assert(input@ =~= derivation_input(family@, remote_chain_id, local_identity@));
    }
    blake2_256(&input)
}

/// Two identities of the same length that differ anywhere give different
/// derivation preimages under the same family and chain id: within one
/// family the preimage separates identities, so only a hash collision could
/// make two of them share a derived address.
pub proof fn lemma_derivation_input_injective_in_identity(
    family: Seq<u8>,
    remote_chain_id: u32,
    a: Seq<u8>,
    b: Seq<u8>,
)
    requires
        a.len() == b.len(),
        a != b,
    ensures
        derivation_input(family, remote_chain_id, a) != derivation_input(
            family,
            remote_chain_id,
            b,
        ),
{
    let pa = derivation_input(family, remote_chain_id, a);
    let pb = derivation_input(family, remote_chain_id, b);
    let plen = pa.len() - a.len();
    if pa == pb {
        assert forall|k: int| 0 <= k < a.len() implies a[k] == b[k] by {
            assert(pa[plen + k] == a[k]);
            assert(pb[plen + k] == b[k]);
        }
        assert(a =~= b);
    }
}

} // verus!
