//! Events emitted by the contract. Every event carries the `stream_id` it
//! concerns, so indexers can follow a single stream.

use vstd::prelude::*;

use crate::account::AccountId;

verus! {

/// Emitted when a new stream is created and its deposit pulled in.
#[derive(Copy, Clone, Debug, PartialEq, Eq)]
pub struct StreamCreated {
    pub stream_id: u64,
    pub sender: AccountId,
    pub recipient: AccountId,
    pub token: AccountId,
    pub deposit: i128,
    pub start_time: u64,
    pub end_time: u64,
    pub cancelable: bool,
}

/// Emitted when the recipient withdraws accrued funds.
#[derive(Copy, Clone, Debug, PartialEq, Eq)]
pub struct Withdrawn {
    pub stream_id: u64,
    pub recipient: AccountId,
    pub amount: i128,
    /// Total withdrawn from the stream after this withdrawal.
    pub withdrawn_total: i128,
}

/// Emitted when a stream is cancelled. The recipient's accrued balance and
/// the sender's refund are both paid in the same operation.
#[derive(Copy, Clone, Debug, PartialEq, Eq)]
pub struct StreamCancelled {
    pub stream_id: u64,
    pub cancelled_by: AccountId,
    /// Amount paid out to the recipient at cancellation.
    pub recipient_amount: i128,
    /// Amount refunded to the sender at cancellation.
    pub sender_amount: i128,
}

/// Emitted when the sender adds funds to an existing stream.
#[derive(Copy, Clone, Debug, PartialEq, Eq)]
pub struct StreamToppedUp {
    pub stream_id: u64,
    pub sender: AccountId,
    pub amount: i128,
    /// Stream deposit after the top-up.
    pub new_deposit: i128,
}

/// Any event the contract publishes.
#[derive(Copy, Clone, Debug, PartialEq, Eq)]
pub enum ContractEvent {
    Created(StreamCreated),
    Withdrawn(Withdrawn),
    Cancelled(StreamCancelled),
    ToppedUp(StreamToppedUp),
}

} // verus!
