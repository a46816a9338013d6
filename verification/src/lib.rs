//! A non-custodial payment orchestrator for a payment chain that settles
//! through a remote asset-custody chain over an asynchronous cross-chain
//! messaging channel.
//!
//! The library holds the verified core: the payment state machine and its
//! ledger, the deterministic derivation of the orchestrator's remote address,
//! the byte-exact encoding of the remote transfer call, and the construction
//! of the cross-chain instruction program. The host ledger (caller identity,
//! durable storage, the outbound message channel) stays outside; its inputs
//! and verdicts enter these functions as plain values.

pub mod address;
pub mod codec;
pub mod error;
pub mod ledger;
pub mod message;
pub mod processor;
pub mod status;
pub mod transfer;
