use vstd::prelude::*;

use crate::address::blake2_256_of;
use crate::address::convert_to_hash;
use crate::address::derivation_input;
use crate::address::sibling_chain_tag;
use crate::address::sibling_chain_tag_bytes;
use crate::error::RuntimeError;
use crate::ledger::PaymentLedger;
use crate::message::asset_hub_location;
use crate::message::build_generic_program;
use crate::message::build_payment_program;
use crate::message::is_generic_program;
use crate::message::is_payment_program;
use crate::message::Location;
use crate::message::OutboundMessage;
use crate::message::ASSET_HUB_PARA_ID;
use crate::message::OWN_PARA_ID;
use crate::status::Status;
use crate::transfer::encode_runtime_call;
use crate::transfer::transfer_approved_encoding;
use crate::transfer::AssetsCall;
use crate::transfer::MultiAddress;
use crate::transfer::RuntimeCall;
use vstd::slice::slice_to_vec;

verus! {

/// A 32-byte account identity on the payment chain.
pub type AccountId = [u8; 32];

/// The id of the transferable asset on the custody chain.
pub const ASSET_ID: u32 = 27;

/// The outbound channel's synchronous verdict on one message. Acceptance
/// returns the message hash; either refusal leaves nothing sent. Which
/// verdict comes back is the channel's affair — every entry point here is
/// specified, and verified, for all three.
#[derive(Clone, Copy, PartialEq, Eq, Debug)]
pub enum SendOutcome {
    /// The channel accepted the message under this hash.
    Accepted([u8; 32]),
    /// The channel refused to send.
    SendRefused,
    /// The host refused the send as a dispatch failure.
    ExecuteRefused,
}

/// Byte-for-byte equality of two account identities.
fn account_eq(a: &AccountId, b: &AccountId) -> (r: bool)
    ensures
        r == (a@ == b@),
{
    let mut i: usize = 0;
    while i < 32
        invariant
            i <= 32,
            forall|j: int| 0 <= j < i ==> a@[j] == b@[j],
        decreases 32 - i,
    {
        if a[i] != b[i] {
            return false;
        }
        i += 1;
    }
    proof {
        assert(a@ =~= b@);
    }
    true
}

/// The payment orchestrator: tracks every payment's status, derives its own
/// identity on the custody chain, and builds the cross-chain programs that
/// move the funds. The host hands its inputs in as plain values: the caller
/// of an entry point, and the outbound channel's verdict on the message the
/// call constructs.
pub struct PaymentProcessor {
    ledger: PaymentLedger,
    owner: AccountId,
    account: AccountId,
    outbox: Vec<OutboundMessage>,
}

impl PaymentProcessor {
    /// The ledger keeps one entry per id.
    pub closed spec fn wf(self) -> bool {
        self.ledger.wf()
    }

    /// The account that created this orchestrator: the only one that may
    /// report remote outcomes.
    pub closed spec fn spec_owner(self) -> AccountId {
        self.owner
    }

    /// The orchestrator's own account identity on its chain.
    pub closed spec fn spec_account(self) -> AccountId {
        self.account
    }

    /// The status recorded under `id`, `NoStatus` if never written.
    pub closed spec fn spec_status(self, id: Seq<u8>) -> Status {
        self.ledger.spec_status_of(id)
    }

    /// Every message handed to the outbound channel so far, oldest first.
    pub closed spec fn spec_outbox(self) -> Seq<OutboundMessage> {
        self.outbox@
    }

    /// The orchestrator's derived identity on the custody chain: the hash of
    /// the sibling-chain derivation preimage over its own account.
    pub open spec fn spec_remote_address(self) -> Seq<u8> {
        blake2_256_of(derivation_input(sibling_chain_tag(), OWN_PARA_ID, self.spec_account()@))
    }

    /// The exact bytes of the remote transfer call a payment dispatches:
    /// move `amount` of the asset from `caller`, who pre-approved it, to the
    /// orchestrator's derived remote address.
    pub open spec fn spec_transfer_call_bytes(self, amount: u128, caller: AccountId) -> Seq<u8> {
        transfer_approved_encoding(ASSET_ID, caller@, self.spec_remote_address(), amount)
    }

    /// Creates an orchestrator owned by `caller` and running as
    /// `own_account`, with an empty ledger — every id reads `NoStatus` — and
    /// nothing sent.
    pub fn new(caller: AccountId, own_account: AccountId) -> (p: PaymentProcessor)
        ensures
            p.wf(),
            p.spec_owner() == caller,
            p.spec_account() == own_account,
            forall|id: Seq<u8>| p.spec_status(id) == Status::NoStatus,
            p.spec_outbox() == Seq::<OutboundMessage>::empty(),
    {
        PaymentProcessor {
            ledger: PaymentLedger::new(),
            owner: caller,
            account: own_account,
            outbox: Vec::new(),
        }
    }

    /// Returns the status code recorded under `payment_id`: 0 = no status,
    /// 1 = done, 2 = ongoing, 3 = failed. Never fails.
    pub fn get(&self, payment_id: Vec<u8>) -> (r: u8)
        requires
            self.wf(),
        ensures
            r == self.spec_status(payment_id@).spec_code(),
    {
        self.ledger.status_of(&payment_id).code()
    }

    /// Returns the orchestrator's address on the custody chain, recomputed
    /// on demand; a pure function of its own account.
    pub fn get_ah_address(&self) -> (r: [u8; 32])
        ensures
            r@ == self.spec_remote_address(),
    {
        let family = sibling_chain_tag_bytes();
        convert_to_hash(family.as_slice(), OWN_PARA_ID, &self.account)
    }

    /// Admits exactly the owner: any other caller is turned away with
    /// `Unauthorized`.
    pub fn authorize(&self, caller: &AccountId) -> (r: Result<(), RuntimeError>)
        ensures
            caller@ == self.spec_owner()@ ==> r is Ok,
            caller@ != self.spec_owner()@ ==> r == Err::<(), RuntimeError>(
                RuntimeError::Unauthorized,
            ),
    {
        if account_eq(caller, &self.owner) {
            Ok(())
        } else {
            Err(RuntimeError::Unauthorized)
        }
    }

    /// Records the remote outcome `Done` under `payment_id` — if `caller`
    /// is the owner. Anyone else is refused with `Unauthorized` and changes
    /// nothing.
    pub fn callback_success(&mut self, caller: &AccountId, payment_id: Vec<u8>) -> (r: Result<
        (),
        RuntimeError,
    >)
        requires
            old(self).wf(),
            payment_id@.len() == 32,
        ensures
            final(self).wf(),
            final(self).spec_owner() == old(self).spec_owner(),
            final(self).spec_account() == old(self).spec_account(),
            final(self).spec_outbox() == old(self).spec_outbox(),
            caller@ == old(self).spec_owner()@ ==> {
                &&& r is Ok
                &&& final(self).spec_status(payment_id@) == Status::Done
                &&& forall|other: Seq<u8>|
                    other != payment_id@ ==> final(self).spec_status(other) == old(
                        self,
                    ).spec_status(other)
            },
            caller@ != old(self).spec_owner()@ ==> {
                &&& r == Err::<(), RuntimeError>(RuntimeError::Unauthorized)
                &&& *final(self) == *old(self)
            },
    {
        if !account_eq(caller, &self.owner) {
            return Err(RuntimeError::Unauthorized);
        }
        self.ledger.complete(payment_id);
        Ok(())
    }

    /// Records the remote outcome `Failed` under `payment_id` — if `caller`
    /// is the owner. Anyone else is refused with `Unauthorized` and changes
    /// nothing. A failed payment may be paid again.
    pub fn callback_fail(&mut self, caller: &AccountId, payment_id: Vec<u8>) -> (r: Result<
        (),
        RuntimeError,
    >)
        requires
            old(self).wf(),
            payment_id@.len() == 32,
        ensures
            final(self).wf(),
            final(self).spec_owner() == old(self).spec_owner(),
            final(self).spec_account() == old(self).spec_account(),
            final(self).spec_outbox() == old(self).spec_outbox(),
            caller@ == old(self).spec_owner()@ ==> {
                &&& r is Ok
                &&& final(self).spec_status(payment_id@) == Status::Failed
                &&& forall|other: Seq<u8>|
                    other != payment_id@ ==> final(self).spec_status(other) == old(
                        self,
                    ).spec_status(other)
            },
            caller@ != old(self).spec_owner()@ ==> {
                &&& r == Err::<(), RuntimeError>(RuntimeError::Unauthorized)
                &&& *final(self) == *old(self)
            },
    {
        if !account_eq(caller, &self.owner) {
            return Err(RuntimeError::Unauthorized);
        }
        self.ledger.fail(payment_id);
        Ok(())
    }

    /// Builds the outbound message of a payment: the payment program for
    /// these arguments, addressed to the custody chain.
    fn build_payment_outbound(&self, amount: u128, payment_id: [u8; 32], caller: AccountId) -> (m:
        OutboundMessage)
        ensures
            m.destination == asset_hub_location(),
            is_payment_program(
                m.message,
                payment_id@,
                self.spec_remote_address(),
                self.spec_transfer_call_bytes(amount, caller),
            ),
    {
        let beneficiary = self.get_ah_address();
        let transfer = RuntimeCall::Assets(
            AssetsCall::TransferApproved {
                id: ASSET_ID,
                owner: MultiAddress::Id(caller),
                destination: MultiAddress::Id(beneficiary),
                amount,
            },
        );
        let encoded = encode_runtime_call(&transfer);
        let program = build_payment_program(&payment_id, &beneficiary, encoded);
        OutboundMessage {
            destination: Location::SiblingParachain(ASSET_HUB_PARA_ID),
            message: program,
        }
    }

    /// Builds — without recording or sending anything — the exact message
    /// that `pay` would hand the outbound channel for these arguments, or
    /// `DuplicateOrCompleted` if a payment under this id is in flight or
    /// done.
    pub fn pay_message(&self, amount: u128, payment_id: [u8; 32], caller: AccountId) -> (r: Result<
        OutboundMessage,
        RuntimeError,
    >)
        requires
            self.wf(),
        ensures
            self.spec_status(payment_id@).can_begin() ==> {
                &&& r matches Ok(m)
                &&& m.destination == asset_hub_location()
                &&& is_payment_program(
                    m.message,
                    payment_id@,
                    self.spec_remote_address(),
                    self.spec_transfer_call_bytes(amount, caller),
                )
            },
            !self.spec_status(payment_id@).can_begin() ==> (r matches Err(e) && e
                == RuntimeError::DuplicateOrCompleted),
    {
        let key = slice_to_vec(payment_id.as_slice());
        let status = self.ledger.status_of(&key);
        if !status.begin_allowed() {
            return Err(RuntimeError::DuplicateOrCompleted);
        }
        Ok(self.build_payment_outbound(amount, payment_id, caller))
    }

    /// Initiates the payment `payment_id` over `amount` for the payer
    /// `caller`: refuses ids that are `Ongoing` or `Done`; otherwise builds
    /// the payment program (the one `pay_message` describes) and, if the
    /// channel accepted it under `send`, appends it to the outbox, records
    /// `Ongoing`, and returns the message hash. A refused send leaves the
    /// whole state exactly as it was — the ledger write is rolled back with
    /// the call.
    pub fn pay(
        &mut self,
        amount: u128,
        payment_id: [u8; 32],
        caller: AccountId,
        send: &SendOutcome,
    ) -> (r: Result<[u8; 32], RuntimeError>)
        requires
            old(self).wf(),
        ensures
            final(self).wf(),
            final(self).spec_owner() == old(self).spec_owner(),
            final(self).spec_account() == old(self).spec_account(),
            !old(self).spec_status(payment_id@).can_begin() ==> {
                &&& r == Err::<[u8; 32], RuntimeError>(RuntimeError::DuplicateOrCompleted)
                &&& *final(self) == *old(self)
            },
            old(self).spec_status(payment_id@).can_begin() ==> match *send {
                SendOutcome::Accepted(hash) => {
                    &&& r == Ok::<[u8; 32], RuntimeError>(hash)
                    &&& final(self).spec_status(payment_id@) == Status::Ongoing
                    &&& forall|other: Seq<u8>|
                        other != payment_id@ ==> final(self).spec_status(other) == old(
                            self,
                        ).spec_status(other)
                    &&& final(self).spec_outbox().len() == old(self).spec_outbox().len() + 1
                    &&& forall|i: int|
                        0 <= i < old(self).spec_outbox().len() ==> final(self).spec_outbox()[i]
                            == old(self).spec_outbox()[i]
                    &&& final(self).spec_outbox().last().destination == asset_hub_location()
                    &&& is_payment_program(
                        final(self).spec_outbox().last().message,
                        payment_id@,
                        old(self).spec_remote_address(),
                        old(self).spec_transfer_call_bytes(amount, caller),
                    )
                },
                SendOutcome::SendRefused => r == Err::<[u8; 32], RuntimeError>(
                    RuntimeError::SendFailed,
                ) && *final(self) == *old(self),
                SendOutcome::ExecuteRefused => r == Err::<[u8; 32], RuntimeError>(
                    RuntimeError::ExecuteFailed,
                ) && *final(self) == *old(self),
            },
    {
        let key = slice_to_vec(payment_id.as_slice());
        let status = self.ledger.status_of(&key);
        if !status.begin_allowed() {
            return Err(RuntimeError::DuplicateOrCompleted);
        }
        let message = self.build_payment_outbound(amount, payment_id, caller);
        match send {
            SendOutcome::Accepted(hash) => {
                let _begun = self.ledger.begin(key);
                self.outbox.push(message);
                Ok(*hash)
            },
            SendOutcome::SendRefused => Err(RuntimeError::SendFailed),
            SendOutcome::ExecuteRefused => Err(RuntimeError::ExecuteFailed),
        }
    }

    /// Dispatches a caller-supplied pre-encoded call on the custody chain,
    /// bypassing the ledger entirely: if the channel accepted the minimal
    /// program under `send`, appends it to the outbox and returns the
    /// message hash; a refused send changes nothing.
    pub fn generic_execute_ah(&mut self, encoded_extrinsic: Vec<u8>, send: &SendOutcome) -> (r:
        Result<[u8; 32], RuntimeError>)
        requires
            old(self).wf(),
        ensures
            final(self).wf(),
            final(self).spec_owner() == old(self).spec_owner(),
            final(self).spec_account() == old(self).spec_account(),
            forall|id: Seq<u8>| final(self).spec_status(id) == old(self).spec_status(id),
            match *send {
                SendOutcome::Accepted(hash) => {
                    &&& r == Ok::<[u8; 32], RuntimeError>(hash)
                    &&& final(self).spec_outbox().len() == old(self).spec_outbox().len() + 1
                    &&& forall|i: int|
                        0 <= i < old(self).spec_outbox().len() ==> final(self).spec_outbox()[i]
                            == old(self).spec_outbox()[i]
                    &&& final(self).spec_outbox().last().destination == asset_hub_location()
                    &&& is_generic_program(
                        final(self).spec_outbox().last().message,
                        encoded_extrinsic@,
                    )
                },
                SendOutcome::SendRefused => r == Err::<[u8; 32], RuntimeError>(
                    RuntimeError::SendFailed,
                ) && *final(self) == *old(self),
                SendOutcome::ExecuteRefused => r == Err::<[u8; 32], RuntimeError>(
                    RuntimeError::ExecuteFailed,
                ) && *final(self) == *old(self),
            },
    {
        let program = build_generic_program(encoded_extrinsic);
        match send {
            SendOutcome::Accepted(hash) => {
                self.outbox.push(
                    OutboundMessage {
                        destination: Location::SiblingParachain(ASSET_HUB_PARA_ID),
                        message: program,
                    },
                );
                Ok(*hash)
            },
            SendOutcome::SendRefused => Err(RuntimeError::SendFailed),
            SendOutcome::ExecuteRefused => Err(RuntimeError::ExecuteFailed),
        }
    }
}

} // verus!
