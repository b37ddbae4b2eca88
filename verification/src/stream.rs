//! Stream state and the checked accrual math.
//!
//! Accrual is linear over the stream window: a stream funded with `deposit`
//! between `start_time` and `end_time` streams `deposit * elapsed / duration`
//! tokens, floored to whole token units. All arithmetic is checked (`u128`
//! intermediate products) and reports [`StreamError::MathOverflow`] instead of
//! overflowing.

use vstd::prelude::*;
use vstd::arithmetic::div_mod::{lemma_div_is_ordered, lemma_fundamental_div_mod, lemma_div_multiples_vanish};
use vstd::arithmetic::mul::lemma_mul_inequality;

use crate::account::AccountId;
use crate::errors::StreamError;

verus! {

/// Maximum supported stream duration: 100 years, including leap days
/// (36,525 days). Bounds worst-case rate multiplications and rejects
/// nonsensical windows early.
pub const MAX_DURATION_SECONDS: u64 = 3_155_760_000;

/// Lifecycle state of a stream.
#[derive(Copy, Clone, Debug, PartialEq, Eq, Structural)]
pub enum StreamStatus {
    /// Running; funds accrue and can be withdrawn or topped up.
    Active,
    /// Cancelled; remaining funds were split at cancellation. Terminal.
    Cancelled,
    /// Fully streamed and fully withdrawn. Terminal.
    Depleted,
}

/// Full state of a payment stream.
#[derive(Copy, Clone, Debug, PartialEq, Eq)]
pub struct Stream {
    pub id: u64,
    pub sender: AccountId,
    pub recipient: AccountId,
    pub token: AccountId,
    /// Total amount funded into the stream (initial deposit + top-ups).
    pub deposit: i128,
    /// Total amount paid to the recipient so far (withdrawals + cancel payout).
    pub withdrawn: i128,
    pub start_time: u64,
    pub end_time: u64,
    /// If true, the recipient may also cancel and reclaim their accrued balance.
    pub cancelable: bool,
    pub status: StreamStatus,
}

/// Storage keys of the contract.
#[derive(Copy, Clone, Debug, PartialEq, Eq, Structural)]
pub enum DataKey {
    /// Next stream id to hand out; ids start at 1.
    NextStreamId,
    /// The stream with the given id.
    Stream(u64),
}

// ------------------------------------------------------------------ model --

/// `2^128`, the modulus of `u128`.
pub open spec fn u128_modulus() -> int {
    u128::MAX as int + 1
}

/// The `u128` that has the same bits as the `i128` value `v`.
pub open spec fn u128_bits_of(v: int) -> int {
    if v >= 0 { v } else { v + u128_modulus() }
}

/// `d`, or `1` where `d` is zero.
pub open spec fn at_least_one(d: int) -> int {
    if d == 0 { 1 } else { d }
}

/// Whether `deposit * duration`, with the deposit read as `u128` bits and a
/// zero duration counted as one second, fits in `u128`.
pub open spec fn capacity_fits(deposit: int, duration: int) -> bool {
    u128_bits_of(deposit) * at_least_one(duration) <= u128::MAX
}

/// Seconds of the half-open window `[start, end)` that have elapsed at `now`.
pub open spec fn elapsed_at(now: int, start: int, end: int) -> int {
    if now <= start {
        0
    } else if now >= end {
        end - start
    } else {
        now - start
    }
}

/// Whether the rate product `deposit * elapsed` is needed and exceeds `u128`.
pub open spec fn accrual_overflows(deposit: int, duration: int, elapsed: int) -> bool {
    elapsed != 0 && deposit > 0 && duration != 0 && deposit * elapsed > u128::MAX
}

/// Amount streamed after `elapsed` seconds of a `duration`-second window
/// funded with `deposit`: `deposit * elapsed / duration`, floored, capped at
/// `deposit`; zero when nothing has elapsed or nothing was funded.
pub open spec fn streamed_spec(deposit: int, duration: int, elapsed: int) -> int {
    if elapsed == 0 || deposit <= 0 || duration == 0 {
        0
    } else {
        let ratio = deposit * elapsed / duration;
        if ratio < deposit { ratio } else { deposit }
    }
}

/// What [`streamed_at`] returns.
pub open spec fn accrual(deposit: i128, duration: u64, elapsed: u64) -> Result<i128, StreamError> {
    if accrual_overflows(deposit as int, duration as int, elapsed as int) {
        Err(StreamError::MathOverflow)
    } else {
        Ok(streamed_spec(deposit as int, duration as int, elapsed as int) as i128)
    }
}

/// Whether `v` is a value of `i128`.
pub open spec fn fits_i128(v: int) -> bool {
    i128::MIN <= v <= i128::MAX
}

impl Stream {
    /// Length of the window in seconds.
    pub open spec fn window(self) -> int {
        self.end_time - self.start_time
    }

    /// Seconds of the window elapsed at `now`.
    pub open spec fn elapsed(self, now: u64) -> int {
        elapsed_at(now as int, self.start_time as int, self.end_time as int)
    }

    /// Whether computing the accrued amount at `now` overflows.
    pub open spec fn accrual_overflows_at(self, now: u64) -> bool {
        accrual_overflows(self.deposit as int, self.window(), self.elapsed(now))
    }

    /// Amount accrued at `now`.
    pub open spec fn streamed(self, now: u64) -> int {
        streamed_spec(self.deposit as int, self.window(), self.elapsed(now))
    }

    /// What [`streamed_amount`] returns at `now`.
    pub open spec fn streamed_outcome(self, now: u64) -> Result<i128, StreamError> {
        if self.accrual_overflows_at(now) {
            Err(StreamError::MathOverflow)
        } else {
            Ok(self.streamed(now) as i128)
        }
    }

    /// What [`available_amount`] returns at `now`: nothing for a cancelled
    /// stream, otherwise accrued minus withdrawn.
    pub open spec fn available_outcome(self, now: u64) -> Result<i128, StreamError> {
        if self.status == StreamStatus::Cancelled {
            Ok(0)
        } else if self.accrual_overflows_at(now) || !fits_i128(self.streamed(now) - self.withdrawn) {
            Err(StreamError::MathOverflow)
        } else {
            Ok((self.streamed(now) - self.withdrawn) as i128)
        }
    }

    /// What [`cancel_amounts`] returns at `now`: the recipient's
    /// accrued-but-unwithdrawn balance and the sender's unaccrued remainder.
    pub open spec fn cancel_outcome(self, now: u64) -> Result<(i128, i128), StreamError> {
        if self.accrual_overflows_at(now)
            || !fits_i128(self.streamed(now) - self.withdrawn)
            || !fits_i128(self.deposit - self.streamed(now)) {
            Err(StreamError::MathOverflow)
        } else {
            Ok((
                (self.streamed(now) - self.withdrawn) as i128,
                (self.deposit - self.streamed(now)) as i128,
            ))
        }
    }

    /// The shape every stored stream has: a non-empty window of at most
    /// [`MAX_DURATION_SECONDS`], a positive deposit whose rate product fits,
    /// `0 <= withdrawn <= deposit`, and a status that agrees with the
    /// payouts (a depleted stream has paid out everything, an active one
    /// has not).
    pub open spec fn well_formed(self) -> bool {
        &&& self.start_time < self.end_time
        &&& self.window() <= MAX_DURATION_SECONDS
        &&& self.deposit > 0
        &&& capacity_fits(self.deposit as int, self.window())
        &&& 0 <= self.withdrawn <= self.deposit
        &&& self.status == StreamStatus::Depleted ==> self.withdrawn == self.deposit
        &&& self.status == StreamStatus::Active ==> self.withdrawn < self.deposit
    }

    /// Seconds in the stream's full window. At least one for every stored
    /// stream (`create_stream` rejects `end_time <= start_time`).
    pub fn duration(&self) -> (d: u64)
        requires
            self.start_time <= self.end_time,
        ensures
            d == self.window(),
    {
        self.end_time - self.start_time
    }
}

// ------------------------------------------------------------ arithmetic --

/// `x <= m / d` exactly when `x * d <= m`, for a positive `d`.
proof fn lemma_le_div_iff_mul_le(x: int, m: int, d: int)
    requires
        d > 0,
        x >= 0,
        m >= 0,
    ensures
        (x <= m / d) <==> (x * d <= m),
{
    lemma_fundamental_div_mod(m, d);
    let q = m / d;
    let r = m % d;
    assert(0 <= r < d) by {
        vstd::arithmetic::div_mod::lemma_mod_pos_bound(m, d);
    }
    if x <= q {
        lemma_mul_inequality(x, q, d);
        assert(q * d == d * q) by (nonlinear_arith);
    } else {
        lemma_mul_inequality(q + 1, x, d);
        assert((q + 1) * d == d * q + d) by (nonlinear_arith);
    }
}

/// The floored ratio lies in `[0, deposit]`.
pub proof fn lemma_streamed_bounds(deposit: int, duration: int, elapsed: int)
    requires
        elapsed >= 0,
        duration >= 0,
    ensures
        0 <= streamed_spec(deposit, duration, elapsed),
        deposit >= 0 ==> streamed_spec(deposit, duration, elapsed) <= deposit,
{
    if elapsed != 0 && deposit > 0 && duration != 0 {
        assert(deposit * elapsed >= 0) by (nonlinear_arith)
            requires deposit > 0, elapsed >= 0;
        assert(deposit * elapsed / duration >= 0) by (nonlinear_arith)
            requires deposit * elapsed >= 0, duration > 0;
    }
}

/// With a positive deposit and a positive window, the floored ratio reaches
/// the full deposit once the whole window has elapsed.
pub proof fn lemma_full_window_streams_deposit(deposit: int, duration: int, elapsed: int)
    requires
        deposit > 0,
        duration > 0,
        elapsed >= duration,
    ensures
        streamed_spec(deposit, duration, elapsed) == deposit,
{
    lemma_mul_inequality(duration, elapsed, deposit);
    assert(duration * deposit == deposit * duration) by (nonlinear_arith);
    assert(elapsed * deposit == deposit * elapsed) by (nonlinear_arith);
    lemma_div_is_ordered(deposit * duration, deposit * elapsed, duration);
    lemma_div_multiples_vanish(deposit, duration);
    assert(duration * deposit / duration == deposit);
}

/// The floored ratio never decreases as time passes.
pub proof fn lemma_streamed_monotone_in_elapsed(deposit: int, duration: int, e1: int, e2: int)
    requires
        0 <= e1 <= e2,
        duration >= 0,
    ensures
        streamed_spec(deposit, duration, e1) <= streamed_spec(deposit, duration, e2),
{
    lemma_streamed_bounds(deposit, duration, e1);
    if e1 != 0 && deposit > 0 && duration != 0 {
        lemma_mul_inequality(e1, e2, deposit);
        assert(e1 * deposit == deposit * e1) by (nonlinear_arith);
        assert(e2 * deposit == deposit * e2) by (nonlinear_arith);
        lemma_div_is_ordered(deposit * e1, deposit * e2, duration);
    }
}

/// The floored ratio never decreases as the deposit grows.
pub proof fn lemma_streamed_monotone_in_deposit(d1: int, d2: int, duration: int, elapsed: int)
    requires
        d1 <= d2,
        duration >= 0,
        elapsed >= 0,
    ensures
        streamed_spec(d1, duration, elapsed) <= streamed_spec(d2, duration, elapsed),
{
    lemma_streamed_bounds(d2, duration, elapsed);
    if elapsed != 0 && d1 > 0 && duration != 0 {
        lemma_mul_inequality(d1, d2, elapsed);
        lemma_div_is_ordered(d1 * elapsed, d2 * elapsed, duration);
    }
}

/// A deposit whose worst-case product `deposit * duration` fits in `u128`
/// never overflows the rate product within its window.
pub proof fn lemma_capacity_prevents_overflow(deposit: int, duration: int, elapsed: int)
    requires
        deposit > 0,
        duration > 0,
        0 <= elapsed <= duration,
        capacity_fits(deposit, duration),
    ensures
        !accrual_overflows(deposit, duration, elapsed),
{
    lemma_mul_inequality(elapsed, duration, deposit);
    assert(elapsed * deposit == deposit * elapsed) by (nonlinear_arith);
    assert(duration * deposit == deposit * duration) by (nonlinear_arith);
}

// ----------------------------------------------------------------- code --

/// Seconds elapsed of the stream window at ledger time `now`.
///
/// The window is half-open `[start_time, end_time)`: at `now == start_time`
/// nothing has accrued yet; at `now >= end_time` the full duration has
/// elapsed.
pub fn elapsed_seconds(now: u64, start_time: u64, end_time: u64) -> (e: u64)
    requires
        end_time < start_time ==> now <= start_time,
    ensures
        e == elapsed_at(now as int, start_time as int, end_time as int),
{
    if now <= start_time {
        0
    } else if now >= end_time {
        end_time - start_time
    } else {
        now - start_time
    }
}

/// Validates that `deposit * duration` (the worst-case rate multiplication)
/// fits in `u128`, so [`streamed_amount`] can never overflow for this stream.
///
/// The deposit is read by its `u128` bits and a zero duration counts as one
/// second.
pub fn validate_capacity(deposit: i128, duration: u64) -> (r: Result<(), StreamError>)
    ensures
        r is Ok <==> capacity_fits(deposit as int, duration as int),
        r matches Err(e) ==> e == StreamError::MathOverflow,
{
    let d: u128 = if duration == 0 { 1 } else { duration as u128 };
    let cap = u128::MAX / d;
    let bits = deposit as u128;
    assert(bits == u128_bits_of(deposit as int)) by (bit_vector)
        requires
            bits == deposit as u128;
    proof {
        lemma_le_div_iff_mul_le(bits as int, u128::MAX as int, d as int);
    }
    if bits > cap {
        return Err(StreamError::MathOverflow);
    }
    Ok(())
}

/// Amount streamed after `elapsed` seconds of a `duration`-second window
/// funded with `deposit`.
///
/// Linear rate: `deposit * elapsed / duration`, floored to whole token
/// units, capped at `deposit`. Reports [`StreamError::MathOverflow`] when the
/// product exceeds `u128` rather than overflowing.
pub fn streamed_at(deposit: i128, duration: u64, elapsed: u64) -> (r: Result<i128, StreamError>)
    ensures
        r == accrual(deposit, duration, elapsed),
        r matches Ok(v) ==> 0 <= v && (deposit >= 0 ==> v <= deposit),
{
    proof {
        lemma_streamed_bounds(deposit as int, duration as int, elapsed as int);
    }
    if elapsed == 0 || deposit <= 0 || duration == 0 {
        return Ok(0);
    }
    let wide_deposit = deposit as u128;
    let product = match wide_deposit.checked_mul(elapsed as u128) {
        Some(p) => p,
        None => return Err(StreamError::MathOverflow),
    };
    let ratio = product / (duration as u128);
    let streamed = if ratio < wide_deposit { ratio } else { wide_deposit };
    Ok(streamed as i128)
}

/// Amount streamed (accrued) by `stream` at ledger time `now`.
pub fn streamed_amount(now: u64, stream: &Stream) -> (r: Result<i128, StreamError>)
    requires
        stream.start_time <= stream.end_time,
    ensures
        r == stream.streamed_outcome(now),
{
    let elapsed = elapsed_seconds(now, stream.start_time, stream.end_time);
    streamed_at(stream.deposit, stream.duration(), elapsed)
}

/// Accrued-but-unwithdrawn balance of `stream` at ledger time `now`. Zero
/// for cancelled streams (their payout was settled at cancellation).
pub fn available_amount(now: u64, stream: &Stream) -> (r: Result<i128, StreamError>)
    requires
        stream.status != StreamStatus::Cancelled ==> stream.start_time <= stream.end_time,
    ensures
        r == stream.available_outcome(now),
{
    if stream.status == StreamStatus::Cancelled {
        return Ok(0);
    }
    let streamed = streamed_amount(now, stream)?;
    match streamed.checked_sub(stream.withdrawn) {
        Some(v) => Ok(v),
        None => Err(StreamError::MathOverflow),
    }
}

/// Payout split at cancellation: `(recipient_amount, sender_amount)`.
///
/// The recipient receives their accrued-but-unwithdrawn balance; the sender
/// is refunded the unaccrued remainder.
pub fn cancel_amounts(now: u64, stream: &Stream) -> (r: Result<(i128, i128), StreamError>)
    requires
        stream.start_time <= stream.end_time,
    ensures
        r == stream.cancel_outcome(now),
{
    let streamed = streamed_amount(now, stream)?;
    let recipient_amount = match streamed.checked_sub(stream.withdrawn) {
        Some(v) => v,
        None => return Err(StreamError::MathOverflow),
    };
    let sender_amount = match stream.deposit.checked_sub(streamed) {
        Some(v) => v,
        None => return Err(StreamError::MathOverflow),
    };
    Ok((recipient_amount, sender_amount))
}

} // verus!
