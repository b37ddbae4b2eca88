//! Error type of the streaming-payments library.
//!
//! Every expected failure is a [`StreamError`] variant with a stable numeric
//! code (see [`StreamError::code`]), so clients can branch on failures
//! without parsing strings. Codes are part of the public interface: they are
//! never renumbered or reused, only appended.

use vstd::prelude::*;

verus! {

/// Errors returned by the streaming-payments contract.
#[derive(Copy, Clone, Debug, PartialEq, Eq, Structural, PartialOrd, Ord)]
pub enum StreamError {
    /// No stream exists with the provided id.
    StreamNotFound,
    /// The caller is not the sender of the stream.
    NotStreamSender,
    /// The caller is not the recipient of the stream.
    NotStreamRecipient,
    /// The stream is not `cancelable`, so the recipient cannot cancel it.
    StreamNotCancellable,
    /// The stream is cancelled or depleted; the operation is not permitted.
    StreamNotActive,
    /// `start_time` is before the current ledger timestamp.
    StartTimeInPast,
    /// `end_time` is not strictly after `start_time`.
    InvalidTimeRange,
    /// The stream duration exceeds the maximum supported duration.
    DurationTooLong,
    /// A provided amount (deposit, top-up, or withdrawal) is zero or negative.
    ZeroAmount,
    /// The requested withdrawal exceeds the accrued, unwithdrawn balance.
    AmountExceedsAvailable,
    /// An intermediate computation would overflow; all math is checked.
    MathOverflow,
    /// The caller is not permitted to perform this action.
    NotAuthorized,
}

/// The stable numeric code of each error variant.
pub open spec fn error_code(e: StreamError) -> u32 {
    match e {
        StreamError::StreamNotFound => 1,
        StreamError::NotStreamSender => 2,
        StreamError::NotStreamRecipient => 3,
        StreamError::StreamNotCancellable => 4,
        StreamError::StreamNotActive => 5,
        StreamError::StartTimeInPast => 6,
        StreamError::InvalidTimeRange => 7,
        StreamError::DurationTooLong => 8,
        StreamError::ZeroAmount => 9,
        StreamError::AmountExceedsAvailable => 10,
        StreamError::MathOverflow => 11,
        StreamError::NotAuthorized => 12,
    }
}

impl StreamError {
    /// The variant's stable numeric code, as clients see it on the wire.
    pub fn code(&self) -> (c: u32)
        ensures
            c == error_code(*self),
    {
        match self {
            StreamError::StreamNotFound => 1,
            StreamError::NotStreamSender => 2,
            StreamError::NotStreamRecipient => 3,
            StreamError::StreamNotCancellable => 4,
            StreamError::StreamNotActive => 5,
            StreamError::StartTimeInPast => 6,
            StreamError::InvalidTimeRange => 7,
            StreamError::DurationTooLong => 8,
            StreamError::ZeroAmount => 9,
            StreamError::AmountExceedsAvailable => 10,
            StreamError::MathOverflow => 11,
            StreamError::NotAuthorized => 12,
        }
    }
}

} // verus!
