use vstd::prelude::*;

use crate::address::push_bytes;
use crate::codec::{compact_bytes, compact_encode_u128, compact_encode_u32};

verus! {

/// The position of the assets pallet in the remote chain's runtime.
pub const ASSETS_PALLET_INDEX: u8 = 50;

/// The call index of `transfer_approved` within the assets pallet.
pub const TRANSFER_APPROVED_CALL_INDEX: u8 = 25;

/// An account reference as the remote dispatcher's call arguments take it.
/// Only the plain 32-byte form is ever sent.
pub enum MultiAddress {
    /// A plain 32-byte account identity.
    Id([u8; 32]),
}

/// The calls of the remote assets pallet that the orchestrator dispatches.
pub enum AssetsCall {
    /// Transfer `amount` of the asset `id` from `owner`, who pre-approved
    /// the transfer, to `destination`.
    TransferApproved { id: u32, owner: MultiAddress, destination: MultiAddress, amount: u128 },
}

/// The remote chain's dispatchable calls, as far as the orchestrator uses
/// them.
pub enum RuntimeCall {
    /// A call into the assets pallet.
    Assets(AssetsCall),
}

/// The wire form of an account reference: the variant index, then the 32
/// identity bytes.
pub open spec fn multi_address_encoding(a: MultiAddress) -> Seq<u8> {
    match a {
        MultiAddress::Id(account) => seq![0u8] + account@,
    }
}

/// The exact wire form of a `transfer_approved` call as the remote
/// dispatcher expects it: the pallet index, the call index, then the four
/// fields in declared order — the asset id and the amount compact-encoded,
/// the two account references fixed-width.
pub open spec fn transfer_approved_encoding(
    id: u32,
    owner: Seq<u8>,
    destination: Seq<u8>,
    amount: u128,
) -> Seq<u8> {
    seq![ASSETS_PALLET_INDEX, TRANSFER_APPROVED_CALL_INDEX] + compact_bytes(id as u128) + seq![0u8]
        + owner + seq![0u8] + destination + compact_bytes(amount)
}

/// The wire form of a dispatchable call.
pub open spec fn runtime_call_encoding(c: RuntimeCall) -> Seq<u8> {
    match c {
        RuntimeCall::Assets(
            AssetsCall::TransferApproved {
                id,
                owner: MultiAddress::Id(owner),
                destination: MultiAddress::Id(destination),
                amount,
            },
        ) => transfer_approved_encoding(id, owner@, destination@, amount),
    }
}

/// Serializes a dispatchable call into the exact byte form the remote
/// dispatcher recognizes.
pub fn encode_runtime_call(c: &RuntimeCall) -> (r: Vec<u8>)
    ensures
        r@ == runtime_call_encoding(*c),
{
    match c {
        RuntimeCall::Assets(AssetsCall::TransferApproved { id, owner, destination, amount }) => {
            let mut r: Vec<u8> = Vec::new();
            r.push(ASSETS_PALLET_INDEX);
            r.push(TRANSFER_APPROVED_CALL_INDEX);
            let mut asset_id = compact_encode_u32(*id);
            r.append(&mut asset_id);
            let MultiAddress::Id(owner_account) = owner;
            r.push(0u8);
            push_bytes(&mut r, owner_account.as_slice());
            let MultiAddress::Id(destination_account) = destination;
            r.push(0u8);
            push_bytes(&mut r, destination_account.as_slice());
            let mut value = compact_encode_u128(*amount);
            r.append(&mut value);
            proof {
                assert(r@ =~= runtime_call_encoding(*c));
            }
            r
        },
    }
}

} // verus!
