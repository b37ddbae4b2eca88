//! StreamPay: continuous, linear streaming payments.
//!
//! A deposit is locked and accrues to a recipient per second between
//! `start_time` and `end_time`, for payroll, contributor pay, subscriptions
//! or vesting. The recipient withdraws accrued funds at any time; the sender
//! can top up or cancel with a fair pro-rata refund.
//!
//! - [`stream`]: the stream state and the checked accrual math.
//! - [`contract`]: the entry points, as decisions from loaded state to a
//!   plan of effects, and [`StreamingPayments`], the contract over its
//!   storage.
//! - [`storage`]: the stream-id counter and the streams by id.
//! - [`laws`]: properties of the library as a whole.

pub mod account;
pub mod contract;
pub mod errors;
pub mod events;
pub mod funds;
pub mod laws;
pub mod storage;
pub mod stream;

pub use account::AccountId;
pub use contract::{Effect, Plan, StreamingPayments, Transfer};
pub use errors::StreamError;
pub use events::{ContractEvent, StreamCancelled, StreamCreated, StreamToppedUp, Withdrawn};
pub use storage::{get_stream, next_stream_id, put_stream, StreamStore};
pub use stream::{
    available_amount, cancel_amounts, elapsed_seconds, streamed_amount, streamed_at,
    validate_capacity, DataKey, Stream, StreamStatus, MAX_DURATION_SECONDS,
};
