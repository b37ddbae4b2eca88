//! Properties of the library as a whole.

use vstd::prelude::*;

use crate::account::AccountId;
use crate::contract::{
    admission_outcome, cancellation_outcome, opening_plan, top_up_outcome,
    top_up_target_outcome, withdrawal_outcome, withdrawal_target_outcome, Plan, Transfer,
};
use crate::events::{ContractEvent, StreamCreated, Withdrawn};
use crate::errors::{error_code, StreamError};
use crate::storage::allocation;
use crate::stream::{
    lemma_capacity_prevents_overflow, lemma_full_window_streams_deposit,
    lemma_streamed_bounds, lemma_streamed_monotone_in_deposit,
    lemma_streamed_monotone_in_elapsed, capacity_fits, elapsed_at, streamed_spec, accrual, Stream, StreamStatus,
    MAX_DURATION_SECONDS,
};

verus! {

/// A freshly opened stream that passed admission is well formed.
pub proof fn lemma_open_is_well_formed(
    now: u64,
    id: u64,
    sender: AccountId,
    recipient: AccountId,
    token: AccountId,
    deposit_amount: i128,
    start_time: u64,
    end_time: u64,
    cancelable: bool,
)
    requires
        admission_outcome(now, sender, token, deposit_amount, start_time, end_time) is Ok,
    ensures
        opening_plan(id, sender, recipient, token, deposit_amount, start_time, end_time, cancelable).stream.well_formed(),
{
}

/// A successful withdrawal of a positive amount keeps a well-formed stream
/// well formed.
pub proof fn lemma_withdraw_keeps_well_formed(now: u64, s: Stream, amount: i128)
    requires
        s.well_formed(),
        amount > 0,
        withdrawal_outcome(now, s, amount) is Ok,
    ensures
        withdrawal_outcome(now, s, amount)->Ok_0.stream.well_formed(),
{
    lemma_streamed_bounds(s.deposit as int, s.window(), s.elapsed(now));
}

/// A successful cancellation keeps a well-formed stream well formed.
pub proof fn lemma_cancel_keeps_well_formed(now: u64, s: Stream, caller: AccountId)
    requires
        s.well_formed(),
        cancellation_outcome(now, Some(s), caller) is Ok,
    ensures
        cancellation_outcome(now, Some(s), caller)->Ok_0.stream.well_formed(),
{
    lemma_streamed_bounds(s.deposit as int, s.window(), s.elapsed(now));
}

/// A successful top-up by a positive amount keeps a well-formed stream well
/// formed.
pub proof fn lemma_top_up_keeps_well_formed(s: Stream, amount: i128)
    requires
        s.well_formed(),
        s.status == StreamStatus::Active,
        amount > 0,
        top_up_outcome(s, amount) is Ok,
    ensures
        top_up_outcome(s, amount)->Ok_0.1.stream.well_formed(),
{
}


/// Accrual never decreases as the ledger clock advances.
pub proof fn law_accrual_never_decreases(s: Stream, t1: u64, t2: u64)
    requires
        s.start_time <= s.end_time,
        t1 <= t2,
    ensures
        s.streamed(t1) <= s.streamed(t2),
{
    lemma_streamed_monotone_in_elapsed(s.deposit as int, s.window(), s.elapsed(t1), s.elapsed(t2));
}

/// Nothing accrues until the start time is passed; at or after the end time
/// the whole deposit has accrued, and all of it not yet withdrawn is
/// available unless the stream was cancelled.
pub proof fn law_accrual_window(s: Stream, now: u64)
    requires
        s.well_formed(),
    ensures
        now <= s.start_time ==> s.streamed(now) == 0,
        now >= s.end_time ==> s.streamed(now) == s.deposit,
        now >= s.end_time && s.status != StreamStatus::Cancelled ==> s.available_outcome(now)
            == Ok::<i128, StreamError>((s.deposit - s.withdrawn) as i128),
{
    if now >= s.end_time {
        lemma_full_window_streams_deposit(s.deposit as int, s.window(), s.elapsed(now));
        lemma_capacity_prevents_overflow(s.deposit as int, s.window(), s.elapsed(now));
    }
}

/// The accrual of a stored stream never overflows, at any time: the rate
/// product is bounded by `deposit * duration`, which was checked to fit.
pub proof fn law_stored_streams_never_overflow(s: Stream, now: u64)
    requires
        s.well_formed(),
    ensures
        !s.accrual_overflows_at(now),
        s.streamed_outcome(now) == Ok::<i128, StreamError>(s.streamed(now) as i128),
{
    lemma_capacity_prevents_overflow(s.deposit as int, s.window(), s.elapsed(now));
}

/// A cancellation pays the recipient exactly what was available and
/// refunds the sender exactly the unaccrued remainder, so together they
/// receive everything not yet withdrawn; afterwards the stream records
/// everything accrued as withdrawn.
pub proof fn law_cancel_splits_remainder(now: u64, s: Stream, caller: AccountId)
    requires
        cancellation_outcome(now, Some(s), caller) is Ok,
    ensures
        ({
            let plan = cancellation_outcome(now, Some(s), caller)->Ok_0;
            let ev = plan.event->Cancelled_0;
            &&& plan.event is Cancelled
            &&& ev.recipient_amount + ev.sender_amount == s.deposit - s.withdrawn
            &&& s.available_outcome(now) == Ok::<i128, StreamError>(ev.recipient_amount)
            &&& ev.sender_amount == s.deposit - s.streamed(now)
            &&& plan.stream.withdrawn == s.streamed(now)
            &&& plan.stream.status == StreamStatus::Cancelled
        }),
{
}

/// A withdrawal lowers what is available at the same time by exactly the
/// amount paid, so the same accrued funds can never be paid twice (a
/// reentrant withdrawal sees the stored payout).
pub proof fn law_withdraw_consumes_available(now: u64, s: Stream, amount: i128)
    requires
        amount > 0,
        withdrawal_outcome(now, s, amount) is Ok,
    ensures
        ({
            let plan = withdrawal_outcome(now, s, amount)->Ok_0;
            &&& s.available_outcome(now) is Ok
            &&& plan.stream.available_outcome(now) == Ok::<i128, StreamError>(
                (s.available_outcome(now)->Ok_0 - amount) as i128,
            )
            &&& plan.stream.withdrawn == s.withdrawn + amount
            &&& plan.to_recipient == Some(
                Transfer { token: s.token, account: s.recipient, amount },
            )
        }),
{
}

/// A top-up never lowers what has accrued, at any time.
pub proof fn law_top_up_only_adds(s: Stream, amount: i128, now: u64)
    requires
        s.start_time <= s.end_time,
        amount > 0,
        top_up_outcome(s, amount) is Ok,
    ensures
        s.streamed(now) <= top_up_outcome(s, amount)->Ok_0.1.stream.streamed(now),
        top_up_outcome(s, amount)->Ok_0.1.stream.deposit == s.deposit + amount,
{
    lemma_streamed_monotone_in_deposit(
        s.deposit as int,
        s.deposit + amount,
        s.window(),
        s.elapsed(now),
    );
}

/// Cancelled and depleted streams are terminal: withdrawals, cancellations
/// and top-ups of them are rejected.
pub proof fn law_terminal_states(now: u64, s: Stream, amount: i128, caller: AccountId)
    requires
        s.status != StreamStatus::Active,
        amount > 0,
    ensures
        withdrawal_outcome(now, s, amount) == Err::<Plan, StreamError>(StreamError::StreamNotActive),
        cancellation_outcome(now, Some(s), caller) == Err::<Plan, StreamError>(
            StreamError::StreamNotActive,
        ),
        top_up_target_outcome(Some(s), amount) == Err::<Stream, StreamError>(
            StreamError::StreamNotActive,
        ),
{
}

/// What a stream still owes out of the contract's holdings: nothing once
/// cancelled (its split was paid), otherwise deposit minus withdrawn.
pub open spec fn outstanding(s: Stream) -> int {
    if s.status == StreamStatus::Cancelled {
        0
    } else {
        s.deposit - s.withdrawn
    }
}

/// The amount a transfer moves, or zero for none.
pub open spec fn moved(t: Option<Transfer>) -> int {
    match t {
        Some(t) => t.amount as int,
        None => 0,
    }
}

/// Total the plan pays out of the contract.
pub open spec fn paid_out(plan: Plan) -> int {
    moved(plan.to_recipient) + moved(plan.to_sender)
}

/// Opening a stream pulls in exactly what the new stream owes.
pub proof fn law_open_funds_match(
    now: u64,
    id: u64,
    sender: AccountId,
    recipient: AccountId,
    token: AccountId,
    deposit_amount: i128,
    start_time: u64,
    end_time: u64,
    cancelable: bool,
)
    requires
        admission_outcome(now, sender, token, deposit_amount, start_time, end_time) is Ok,
    ensures
        ({
            let pull = admission_outcome(now, sender, token, deposit_amount, start_time, end_time)->Ok_0;
            let plan = opening_plan(id, sender, recipient, token, deposit_amount, start_time, end_time, cancelable);
            &&& pull.token == plan.stream.token
            &&& pull.amount - paid_out(plan) == outstanding(plan.stream)
        }),
{
}

/// A withdrawal pays out exactly what the stream's debt shrinks by.
pub proof fn law_withdraw_funds_match(now: u64, s: Stream, amount: i128)
    requires
        s.status != StreamStatus::Cancelled,
        withdrawal_outcome(now, s, amount) is Ok,
    ensures
        outstanding(s) - paid_out(withdrawal_outcome(now, s, amount)->Ok_0)
            == outstanding(withdrawal_outcome(now, s, amount)->Ok_0.stream),
{
}

/// A cancellation pays out everything the stream still owes, provided the
/// recipient had not been paid beyond what has accrued at `now`. Every
/// stream stored by [`StreamingPayments`](crate::contract::StreamingPayments)
/// satisfies this at any time from the contract's clock on.
pub proof fn law_cancel_funds_match(now: u64, s: Stream, caller: AccountId)
    requires
        s.well_formed(),
        s.withdrawn <= s.streamed(now),
        cancellation_outcome(now, Some(s), caller) is Ok,
    ensures
        outstanding(s) - paid_out(cancellation_outcome(now, Some(s), caller)->Ok_0)
            == outstanding(cancellation_outcome(now, Some(s), caller)->Ok_0.stream),
{
    lemma_streamed_bounds(s.deposit as int, s.window(), s.elapsed(now));
}

/// A top-up pulls in exactly what the stream's debt grows by.
pub proof fn law_top_up_funds_match(s: Stream, amount: i128)
    requires
        s.status != StreamStatus::Cancelled,
        top_up_outcome(s, amount) is Ok,
    ensures
        outstanding(s) + top_up_outcome(s, amount)->Ok_0.0.amount - paid_out(
            top_up_outcome(s, amount)->Ok_0.1,
        ) == outstanding(top_up_outcome(s, amount)->Ok_0.1.stream),
{
}

/// Payouts never exceed accrual: after a withdrawal the recipient has been
/// paid at most what has accrued, after a cancellation exactly that, and a
/// top-up keeps it so; with [`law_accrual_never_decreases`] this keeps
/// `withdrawn <= streamed <= deposit` as time passes.
pub proof fn law_withdrawn_within_accrued(now: u64, s: Stream, amount: i128, caller: AccountId)
    requires
        s.well_formed(),
    ensures
        withdrawal_outcome(now, s, amount) is Ok ==> withdrawal_outcome(now, s, amount)->Ok_0.stream.withdrawn
            <= withdrawal_outcome(now, s, amount)->Ok_0.stream.streamed(now),
        cancellation_outcome(now, Some(s), caller) is Ok ==> cancellation_outcome(now, Some(s), caller)->Ok_0.stream.withdrawn
            == cancellation_outcome(now, Some(s), caller)->Ok_0.stream.streamed(now),
        (s.withdrawn <= s.streamed(now) && amount > 0 && top_up_outcome(s, amount) is Ok)
            ==> top_up_outcome(s, amount)->Ok_0.1.stream.withdrawn
            <= top_up_outcome(s, amount)->Ok_0.1.stream.streamed(now),
{
    if amount > 0 && top_up_outcome(s, amount) is Ok {
        law_top_up_only_adds(s, amount, now);
    }
}

/// Stream ids start at 1 and each creation hands out the next one (the
/// counter saturates at `u64::MAX`).
pub proof fn law_ids_count_up(stored: Option<u64>)
    ensures
        allocation(None).0 == 1,
        allocation(stored).0 < u64::MAX ==> allocation(Some(allocation(stored).1)).0
            == allocation(stored).0 + 1,
{
}

/// Distinct errors have distinct numeric codes.
pub proof fn law_error_codes_distinct(a: StreamError, b: StreamError)
    requires
        a != b,
    ensures
        error_code(a) != error_code(b),
{
}

/// Linear accrual: inside its window, a stored stream has accrued exactly
/// `deposit * (now - start_time) / (end_time - start_time)`, floored and
/// capped at the deposit, and, unless cancelled, that minus what was
/// withdrawn is available.
pub proof fn law_linear_accrual(s: Stream, now: u64)
    requires
        s.well_formed(),
        s.start_time <= now <= s.end_time,
    ensures
        elapsed_at(now as int, s.start_time as int, s.end_time as int) == now - s.start_time,
        ({
            let ratio = s.deposit * (now - s.start_time) / (s.end_time - s.start_time);
            let expected = if ratio < s.deposit { ratio } else { s.deposit as int };
            &&& s.streamed(now) == expected
            &&& s.streamed_outcome(now) == Ok::<i128, StreamError>(expected as i128)
            &&& s.status != StreamStatus::Cancelled ==> s.available_outcome(now) == Ok::<
                i128,
                StreamError,
            >((expected - s.withdrawn) as i128)
        }),
{
    lemma_capacity_prevents_overflow(s.deposit as int, s.window(), s.elapsed(now));
    lemma_streamed_bounds(s.deposit as int, s.window(), s.elapsed(now));
    if now == s.start_time {
        assert(s.deposit * 0 == 0) by (nonlinear_arith);
        assert(0int / (s.end_time - s.start_time) == 0) by (nonlinear_arith)
            requires s.end_time - s.start_time > 0;
    }
}

/// The pure rate function computes `deposit * elapsed / duration`, floored
/// and capped at the deposit, whenever the product fits in `u128`, and is
/// zero when nothing elapsed or nothing was funded.
pub proof fn law_rate_is_floored_ratio(deposit: i128, duration: u64, elapsed: u64)
    ensures
        (elapsed == 0 || deposit <= 0 || duration == 0) ==> accrual(deposit, duration, elapsed)
            == Ok::<i128, StreamError>(0),
        (elapsed > 0 && deposit > 0 && duration > 0 && deposit * elapsed <= u128::MAX) ==> ({
            let ratio = (deposit * elapsed) / (duration as int);
            accrual(deposit, duration, elapsed) == Ok::<i128, StreamError>(
                (if ratio < deposit { ratio } else { deposit as int }) as i128,
            )
        }),
        (elapsed > 0 && deposit > 0 && duration > 0 && deposit * elapsed > u128::MAX) ==> accrual(
            deposit,
            duration,
            elapsed,
        ) == Err::<i128, StreamError>(StreamError::MathOverflow),
{
}

/// The sender may cancel an active stored stream at any ledger time, and so
/// may its recipient where the stream is cancelable: the stream becomes
/// cancelled with everything accrued recorded as withdrawn, the recipient
/// is paid what had accrued and not been withdrawn, and the sender is
/// refunded the unaccrued rest (each only where positive).
pub proof fn law_permitted_cancel_succeeds(now: u64, s: Stream, caller: AccountId)
    requires
        s.well_formed(),
        s.status == StreamStatus::Active,
        caller@ == s.sender@ || (caller@ == s.recipient@ && s.cancelable),
    ensures
        cancellation_outcome(now, Some(s), caller) is Ok,
        ({
            let plan = cancellation_outcome(now, Some(s), caller)->Ok_0;
            let to_recipient = s.streamed(now) - s.withdrawn;
            let to_sender = s.deposit - s.streamed(now);
            &&& plan.stream == Stream {
                status: StreamStatus::Cancelled,
                withdrawn: s.streamed(now) as i128,
                ..s
            }
            &&& plan.to_recipient == (if to_recipient > 0 {
                Some(Transfer { token: s.token, account: s.recipient, amount: to_recipient as i128 })
            } else {
                None
            })
            &&& plan.to_sender == (if to_sender > 0 {
                Some(Transfer { token: s.token, account: s.sender, amount: to_sender as i128 })
            } else {
                None
            })
        }),
{
    lemma_capacity_prevents_overflow(s.deposit as int, s.window(), s.elapsed(now));
    lemma_streamed_bounds(s.deposit as int, s.window(), s.elapsed(now));
}

/// A withdrawal of an active stored stream succeeds for every positive
/// amount up to what is available, whatever the ledger time: the amount is
/// paid to the recipient and added to what was withdrawn, and the stream is
/// depleted exactly when everything is paid out. A larger amount is
/// refused as exceeding what is available.
pub proof fn law_withdraw_up_to_available(now: u64, s: Stream, amount: i128)
    requires
        s.well_formed(),
        s.status == StreamStatus::Active,
        amount > 0,
    ensures
        amount <= s.streamed(now) - s.withdrawn ==> {
            &&& withdrawal_outcome(now, s, amount) is Ok
            &&& withdrawal_outcome(now, s, amount)->Ok_0.stream == Stream {
                withdrawn: (s.withdrawn + amount) as i128,
                status: if s.withdrawn + amount == s.deposit {
                    StreamStatus::Depleted
                } else {
                    StreamStatus::Active
                },
                ..s
            }
            &&& withdrawal_outcome(now, s, amount)->Ok_0.to_recipient == Some(
                Transfer { token: s.token, account: s.recipient, amount },
            )
            &&& withdrawal_outcome(now, s, amount)->Ok_0.to_sender is None
            &&& withdrawal_outcome(now, s, amount)->Ok_0.event == ContractEvent::Withdrawn(
                Withdrawn {
                    stream_id: s.id,
                    recipient: s.recipient,
                    amount,
                    withdrawn_total: (s.withdrawn + amount) as i128,
                },
            )
        },
        amount > s.streamed(now) - s.withdrawn ==> withdrawal_outcome(now, s, amount) == Err::<
            Plan,
            StreamError,
        >(StreamError::AmountExceedsAvailable),
{
    lemma_capacity_prevents_overflow(s.deposit as int, s.window(), s.elapsed(now));
    lemma_streamed_bounds(s.deposit as int, s.window(), s.elapsed(now));
}

/// A top-up of an active stored stream by a positive amount succeeds
/// exactly when the new deposit fits in `i128` and the new deposit times
/// the window fits in `u128`; it then pulls the amount from the sender and
/// raises the deposit by it, leaving everything else unchanged.
pub proof fn law_top_up_succeeds_when_it_fits(s: Stream, amount: i128)
    requires
        s.well_formed(),
        s.status == StreamStatus::Active,
        amount > 0,
    ensures
        top_up_outcome(s, amount) is Ok <==> (s.deposit + amount <= i128::MAX && (s.deposit
            + amount) * (s.end_time - s.start_time) <= u128::MAX),
        top_up_outcome(s, amount) is Err ==> top_up_outcome(s, amount) == Err::<
            (Transfer, Plan),
            StreamError,
        >(StreamError::MathOverflow),
        top_up_outcome(s, amount) is Ok ==> {
            &&& top_up_outcome(s, amount)->Ok_0.0 == Transfer {
                token: s.token,
                account: s.sender,
                amount,
            }
            &&& top_up_outcome(s, amount)->Ok_0.1.stream == Stream {
                deposit: (s.deposit + amount) as i128,
                ..s
            }
        },
        top_up_target_outcome(Some(s), amount) == Ok::<Stream, StreamError>(s),
{
}

/// Creating a stream succeeds exactly when the deposit is positive, the
/// start is not in the past, the window is non-empty and at most
/// [`MAX_DURATION_SECONDS`] long, and deposit times window fits in `u128`;
/// it then pulls exactly the deposit from the sender in the given token.
/// Each failing check has its own error, tried in that order.
pub proof fn law_admission_exact(
    now: u64,
    sender: AccountId,
    token: AccountId,
    deposit_amount: i128,
    start_time: u64,
    end_time: u64,
)
    ensures
        admission_outcome(now, sender, token, deposit_amount, start_time, end_time) is Ok <==> (
        deposit_amount > 0 && start_time >= now && end_time > start_time && end_time - start_time
            <= MAX_DURATION_SECONDS && deposit_amount * (end_time - start_time) <= u128::MAX),
        admission_outcome(now, sender, token, deposit_amount, start_time, end_time) is Ok
            ==> admission_outcome(now, sender, token, deposit_amount, start_time, end_time)->Ok_0
            == (Transfer { token, account: sender, amount: deposit_amount }),
        deposit_amount <= 0 ==> admission_outcome(now, sender, token, deposit_amount, start_time, end_time)
            == Err::<Transfer, StreamError>(StreamError::ZeroAmount),
        deposit_amount > 0 && start_time < now ==> admission_outcome(now, sender, token, deposit_amount, start_time, end_time)
            == Err::<Transfer, StreamError>(StreamError::StartTimeInPast),
        deposit_amount > 0 && start_time >= now && end_time <= start_time ==> admission_outcome(now, sender, token, deposit_amount, start_time, end_time)
            == Err::<Transfer, StreamError>(StreamError::InvalidTimeRange),
        deposit_amount > 0 && start_time >= now && end_time > start_time && end_time - start_time > MAX_DURATION_SECONDS
            ==> admission_outcome(now, sender, token, deposit_amount, start_time, end_time)
            == Err::<Transfer, StreamError>(StreamError::DurationTooLong),
        deposit_amount > 0 && start_time >= now && end_time > start_time && end_time - start_time <= MAX_DURATION_SECONDS
            && deposit_amount * (end_time - start_time) > u128::MAX
            ==> admission_outcome(now, sender, token, deposit_amount, start_time, end_time)
            == Err::<Transfer, StreamError>(StreamError::MathOverflow),
{
}

/// The capacity check admits a non-negative deposit exactly when
/// `deposit * duration` fits in `u128` (a zero duration counting as one
/// second); a negative deposit, read by its `u128` bits (at least `2^127`),
/// only with a duration of at most one second.
pub proof fn law_capacity_exact(deposit: i128, duration: u64)
    ensures
        deposit >= 0 && duration > 0 ==> (capacity_fits(deposit as int, duration as int) <==> deposit
            * duration <= u128::MAX),
        deposit >= 0 && duration == 0 ==> capacity_fits(deposit as int, duration as int),
        deposit < 0 ==> (capacity_fits(deposit as int, duration as int) <==> duration <= 1),
{
    if deposit < 0 && duration <= 1 {
        let bits = deposit + u128::MAX + 1;
        assert(bits * 1 == bits);
    }
    if deposit >= 0 && duration == 0 {
        assert(deposit * 1 == deposit);
    }
    if deposit < 0 && duration >= 2 {
        let bits = deposit + u128::MAX + 1;
        assert(bits >= 0x8000_0000_0000_0000_0000_0000_0000_0000);
        assert(bits * duration >= bits * 2) by (nonlinear_arith)
            requires bits >= 0, duration >= 2;
    }
}

/// Outside the window nothing more elapses: before or at the start nothing
/// has, at or after the end the whole window has.
pub proof fn law_elapsed_outside_window(now: u64, start_time: u64, end_time: u64)
    requires
        start_time <= end_time,
    ensures
        now <= start_time ==> elapsed_at(now as int, start_time as int, end_time as int) == 0,
        now >= end_time ==> elapsed_at(now as int, start_time as int, end_time as int) == end_time
            - start_time,
        0 <= elapsed_at(now as int, start_time as int, end_time as int) <= end_time - start_time,
{
}

/// A cancelled stream has nothing available, whatever the time.
pub proof fn law_cancelled_has_nothing_available(s: Stream, now: u64)
    requires
        s.status == StreamStatus::Cancelled,
    ensures
        s.available_outcome(now) == Ok::<i128, StreamError>(0),
{
}

/// Who may not cancel: a missing stream is not found, an inactive one is
/// refused, a recipient may not cancel a non-cancelable stream, and anyone
/// who is neither sender nor recipient is not authorized.
pub proof fn law_cancel_refusals(now: u64, s: Stream, caller: AccountId)
    ensures
        cancellation_outcome(now, None, caller) == Err::<Plan, StreamError>(StreamError::StreamNotFound),
        s.status == StreamStatus::Active && caller@ != s.sender@ && caller@ == s.recipient@
            && !s.cancelable ==> cancellation_outcome(now, Some(s), caller) == Err::<Plan, StreamError>(
            StreamError::StreamNotCancellable,
        ),
        s.status == StreamStatus::Active && caller@ != s.sender@ && caller@ != s.recipient@
            ==> cancellation_outcome(now, Some(s), caller) == Err::<Plan, StreamError>(
            StreamError::NotAuthorized,
        ),
{
}

/// A withdrawal or top-up of a non-positive amount is refused first; then a
/// missing stream is not found.
pub proof fn law_amount_then_lookup(found: Option<Stream>, amount: i128)
    ensures
        amount <= 0 ==> withdrawal_target_outcome(found, amount) == Err::<Stream, StreamError>(
            StreamError::ZeroAmount,
        ),
        amount <= 0 ==> top_up_target_outcome(found, amount) == Err::<Stream, StreamError>(
            StreamError::ZeroAmount,
        ),
        amount > 0 && found is None ==> withdrawal_target_outcome(found, amount) == Err::<
            Stream,
            StreamError,
        >(StreamError::StreamNotFound),
        amount > 0 && found is None ==> top_up_target_outcome(found, amount) == Err::<
            Stream,
            StreamError,
        >(StreamError::StreamNotFound),
        amount > 0 && found is Some ==> withdrawal_target_outcome(found, amount) == Ok::<
            Stream,
            StreamError,
        >(found->Some_0),
{
}

/// A new stream records exactly its arguments, with nothing withdrawn and
/// active, is announced with those values, and pays nobody.
pub proof fn law_opening_records_arguments(
    id: u64,
    sender: AccountId,
    recipient: AccountId,
    token: AccountId,
    deposit_amount: i128,
    start_time: u64,
    end_time: u64,
    cancelable: bool,
)
    ensures
        ({
            let plan = opening_plan(id, sender, recipient, token, deposit_amount, start_time, end_time, cancelable);
            &&& plan.stream.id == id
            &&& plan.stream.sender == sender
            &&& plan.stream.recipient == recipient
            &&& plan.stream.token == token
            &&& plan.stream.deposit == deposit_amount
            &&& plan.stream.withdrawn == 0
            &&& plan.stream.start_time == start_time
            &&& plan.stream.end_time == end_time
            &&& plan.stream.cancelable == cancelable
            &&& plan.stream.status == StreamStatus::Active
            &&& plan.event == ContractEvent::Created(
                StreamCreated {
                    stream_id: id,
                    sender,
                    recipient,
                    token,
                    deposit: deposit_amount,
                    start_time,
                    end_time,
                    cancelable,
                },
            )
            &&& plan.to_recipient is None
            &&& plan.to_sender is None
        }),
{
}

} // verus!
