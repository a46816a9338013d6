use vstd::prelude::*;

use vstd::bytes::spec_u64_from_le_bytes;
use vstd::bytes::u64_from_le_bytes;
use vstd::slice::slice_subrange;

verus! {

/// The parachain that custodies the transferable asset (the Asset Hub).
pub const ASSET_HUB_PARA_ID: u32 = 1000;

/// This chain's own parachain id, under which its sovereign accounts are
/// derived on sibling chains and to which error reports travel back.
pub const OWN_PARA_ID: u32 = 4001;

/// The most the orchestrator will spend on remote execution fees.
pub const FEE_MAX: u128 = 10_000_000_000;

/// The reference-time half of the weight budget declared for remote calls.
pub const REF_TIME: u64 = 1_000_000_000;

/// The proof-size half of the weight budget declared for remote calls.
pub const PROOF_SIZE: u64 = 100_000;

/// A weight budget for remote execution.
#[derive(Clone, Copy, PartialEq, Eq, Debug)]
pub struct Weight {
    pub ref_time: u64,
    pub proof_size: u64,
}

/// A place in the chain topology, as far as the programs here point at one:
/// the relay chain above, a sibling parachain, or an account local to the
/// chain a program runs on.
#[derive(Clone, Copy, PartialEq, Eq, Debug)]
pub enum Location {
    /// The chain one step up: the relay chain.
    Parent,
    /// A sibling parachain, by its id.
    SiblingParachain(u32),
    /// A 32-byte account on the chain the program executes on.
    LocalAccount32([u8; 32]),
}

/// A fungible amount of the asset known under `location`.
#[derive(Clone, Copy, PartialEq, Eq, Debug)]
pub struct Asset {
    pub location: Location,
    pub amount: u128,
}

/// The origin classification a dispatched call executes under.
#[derive(Clone, Copy, PartialEq, Eq, Debug)]
pub enum OriginKind {
    Native,
    SovereignAccount,
    Superuser,
    Xcm,
}

/// Where and how an asynchronous error report is to be delivered.
#[derive(Clone, Copy, PartialEq, Eq, Debug)]
pub struct QueryResponseInfo {
    /// The chain the report travels to.
    pub destination: Location,
    /// The correlation key of the report: here the first eight bytes of the
    /// payment id, read as a little-endian integer.
    pub query_id: u64,
    /// The weight budget for delivering the report.
    pub max_weight: Weight,
}

/// One instruction of a cross-chain program — the closed set the builders
/// below emit.
#[derive(Debug)]
pub enum Instruction {
    /// Withdraw the given asset from the sender's sovereign holdings into
    /// the program's holding register.
    WithdrawAsset(Asset),
    /// Spend from the given asset to buy execution time, without an upper
    /// weight limit, for the rest of the program.
    BuyExecution(Asset),
    /// Move any surplus already paid but not consumed back into holding.
    RefundSurplus,
    /// Deposit everything left in holding to the beneficiary.
    DepositAsset { beneficiary: Location },
    /// Instructions guaranteed to run after the main body, whatever its
    /// outcome.
    SetAppendix(Xcm),
    /// Instructions that run only if the main body fails.
    SetErrorHandler(Xcm),
    /// Send an asynchronous error report to the given destination.
    ReportError(QueryResponseInfo),
    /// Dispatch the pre-encoded call on the executing chain under the given
    /// origin classification and weight budget.
    Transact { origin_kind: OriginKind, require_weight_at_most: Weight, call: Vec<u8> },
    /// Require that the last dispatched call reported success.
    ExpectTransactStatus,
    /// Tag the whole program with a 32-byte topic for observers.
    SetTopic([u8; 32]),
}

/// An ordered cross-chain program.
#[derive(Debug)]
pub struct Xcm {
    pub instructions: Vec<Instruction>,
}

/// A program together with the chain it is addressed to, as handed to the
/// outbound channel.
#[derive(Debug)]
pub struct OutboundMessage {
    pub destination: Location,
    pub message: Xcm,
}

/// The fee asset every program here starts from: relay-chain currency, up
/// to `FEE_MAX`.
pub open spec fn fee_asset() -> Asset {
    Asset { location: Location::Parent, amount: FEE_MAX }
}

/// The weight budget declared for remote calls and error reports.
pub open spec fn execution_weight() -> Weight {
    Weight { ref_time: REF_TIME, proof_size: PROOF_SIZE }
}

/// The location of the asset-custody chain, as seen from this chain.
pub open spec fn asset_hub_location() -> Location {
    Location::SiblingParachain(ASSET_HUB_PARA_ID)
}

/// The orchestrator's own chain, as seen from the sibling chain a program
/// executes on: where failure reports are delivered.
pub open spec fn own_chain_location() -> Location {
    Location::SiblingParachain(OWN_PARA_ID)
}

/// The query id correlating an error report with a payment: the first
/// eight bytes of the payment id, read little-endian.
pub open spec fn payment_query_id(payment_id: Seq<u8>) -> u64 {
    spec_u64_from_le_bytes(payment_id.subrange(0, 8))
}

/// The appendix of a payment program: refund the fee surplus, then deposit
/// everything left at the orchestrator's derived remote address.
pub open spec fn is_payment_appendix(x: Xcm, beneficiary: Seq<u8>) -> bool {
    let ins = x.instructions@;
    &&& ins.len() == 2
    &&& ins[0] is RefundSurplus
    &&& ins[1] matches Instruction::DepositAsset { beneficiary: loc }
        && loc matches Location::LocalAccount32(account) && account@ == beneficiary
}

/// The error handler of a payment program: report failure back toward the
/// orchestrator's own chain, tagged with the payment's query id.
pub open spec fn is_payment_error_handler(x: Xcm, payment_id: Seq<u8>) -> bool {
    let ins = x.instructions@;
    &&& ins.len() == 1
    &&& ins[0] == Instruction::ReportError(
        QueryResponseInfo {
            destination: own_chain_location(),
            query_id: payment_query_id(payment_id),
            max_weight: execution_weight(),
        },
    )
}

/// The exact shape of a payment program: withdraw the fee asset, buy
/// execution, attach the refund-and-deposit appendix and the error-report
/// handler, dispatch `call_bytes` as a sovereign-account call under the
/// declared weight budget, require that dispatch to have succeeded, and tag
/// the program with the payment id.
pub open spec fn is_payment_program(
    p: Xcm,
    payment_id: Seq<u8>,
    beneficiary: Seq<u8>,
    call_bytes: Seq<u8>,
) -> bool {
    let ins = p.instructions@;
    &&& ins.len() == 7
    &&& ins[0] matches Instruction::WithdrawAsset(a) && a == fee_asset()
    &&& ins[1] matches Instruction::BuyExecution(a) && a == fee_asset()
    &&& ins[2] matches Instruction::SetAppendix(appendix) && is_payment_appendix(
        appendix,
        beneficiary,
    )
    &&& ins[3] matches Instruction::SetErrorHandler(handler) && is_payment_error_handler(
        handler,
        payment_id,
    )
    &&& ins[4] matches Instruction::Transact { origin_kind, require_weight_at_most, call }
        && origin_kind == OriginKind::SovereignAccount && require_weight_at_most
        == execution_weight() && call@ == call_bytes
    &&& ins[5] is ExpectTransactStatus
    &&& ins[6] matches Instruction::SetTopic(topic) && topic@ == payment_id
}

/// The shape of a generic execution program: withdraw the fee asset, buy
/// execution, dispatch `call_bytes` — nothing else.
pub open spec fn is_generic_program(p: Xcm, call_bytes: Seq<u8>) -> bool {
    let ins = p.instructions@;
    &&& ins.len() == 3
    &&& ins[0] matches Instruction::WithdrawAsset(a) && a == fee_asset()
    &&& ins[1] matches Instruction::BuyExecution(a) && a == fee_asset()
    &&& ins[2] matches Instruction::Transact { origin_kind, require_weight_at_most, call }
        && origin_kind == OriginKind::SovereignAccount && require_weight_at_most
        == execution_weight() && call@ == call_bytes
}

/// Builds the payment program for `payment_id` that dispatches `call` and
/// routes refunds and deposits to `beneficiary`.
pub fn build_payment_program(payment_id: &[u8; 32], beneficiary: &[u8; 32], call: Vec<u8>) -> (p:
    Xcm)
    ensures
        is_payment_program(p, payment_id@, beneficiary@, call@),
{
    let id_slice = payment_id.as_slice();
    let query_id = u64_from_le_bytes(slice_subrange(id_slice, 0, 8));
    let mut appendix: Vec<Instruction> = Vec::new();
    appendix.push(Instruction::RefundSurplus);
    appendix.push(
        Instruction::DepositAsset { beneficiary: Location::LocalAccount32(*beneficiary) },
    );
    let mut handler: Vec<Instruction> = Vec::new();
    handler.push(
        Instruction::ReportError(
            QueryResponseInfo {
                destination: Location::SiblingParachain(OWN_PARA_ID),
                query_id,
                max_weight: Weight { ref_time: REF_TIME, proof_size: PROOF_SIZE },
            },
        ),
    );
    let mut ins: Vec<Instruction> = Vec::new();
    ins.push(Instruction::WithdrawAsset(Asset { location: Location::Parent, amount: FEE_MAX }));
    ins.push(Instruction::BuyExecution(Asset { location: Location::Parent, amount: FEE_MAX }));
    ins.push(Instruction::SetAppendix(Xcm { instructions: appendix }));
    ins.push(Instruction::SetErrorHandler(Xcm { instructions: handler }));
    ins.push(
        Instruction::Transact {
            origin_kind: OriginKind::SovereignAccount,
            require_weight_at_most: Weight { ref_time: REF_TIME, proof_size: PROOF_SIZE },
            call,
        },
    );
    ins.push(Instruction::ExpectTransactStatus);
    ins.push(Instruction::SetTopic(*payment_id));
    Xcm { instructions: ins }
}

/// Builds the minimal program that dispatches a caller-supplied pre-encoded
/// call on the asset-custody chain.
pub fn build_generic_program(call: Vec<u8>) -> (p: Xcm)
    ensures
        is_generic_program(p, call@),
{
    let mut ins: Vec<Instruction> = Vec::new();
    ins.push(Instruction::WithdrawAsset(Asset { location: Location::Parent, amount: FEE_MAX }));
    ins.push(Instruction::BuyExecution(Asset { location: Location::Parent, amount: FEE_MAX }));
    ins.push(
        Instruction::Transact {
            origin_kind: OriginKind::SovereignAccount,
            require_weight_at_most: Weight { ref_time: REF_TIME, proof_size: PROOF_SIZE },
            call,
        },
    );
    Xcm { instructions: ins }
}

} // verus!
