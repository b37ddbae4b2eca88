//! The contract's entry points.
//!
//! Each entry point is split at the points where the host has to act:
//! loading a stream, checking a party's authorization, moving tokens,
//! publishing an event. The decisions between those points are the
//! functions here, from the loaded state and the call's arguments to a
//! [`Plan`]: the stream to store, the event to publish and the payouts to
//! make, in that order. [`StreamingPayments`] composes them over an
//! in-memory [`StreamStore`] and records every token movement and event it
//! would have the host perform.

use vstd::prelude::*;

use crate::account::AccountId;
use crate::errors::StreamError;
use crate::events::{ContractEvent, StreamCancelled, StreamCreated, StreamToppedUp, Withdrawn};
use crate::funds::{
    holdings_cover, lemma_auth_keeps_cover, lemma_cancel_covers, lemma_empty_covers, lemma_open_covers,
    lemma_top_up_covers, lemma_withdraw_covers,
};
use crate::laws::{
    lemma_cancel_keeps_well_formed, lemma_open_is_well_formed, lemma_top_up_keeps_well_formed,
    lemma_withdraw_keeps_well_formed, law_accrual_never_decreases, law_withdrawn_within_accrued,
};
use crate::storage::{allocation, get_stream, next_stream_id, put_stream, StreamStore};
use crate::stream::{
    available_amount, cancel_amounts, capacity_fits, fits_i128, lemma_streamed_bounds,
    validate_capacity, Stream,
    StreamStatus, MAX_DURATION_SECONDS,
};

verus! {

/// A token movement between the contract and one party. Whether it goes
/// into or out of the contract is said by the [`Effect`] that carries it.
#[derive(Copy, Clone, Debug, PartialEq, Eq)]
pub struct Transfer {
    pub token: AccountId,
    pub account: AccountId,
    pub amount: i128,
}

/// What one successful state change asks of the host, in order: store
/// `stream`, publish `event`, then pay the recipient and the sender where
/// an amount is due.
#[derive(Copy, Clone, Debug, PartialEq, Eq)]
pub struct Plan {
    pub stream: Stream,
    pub event: ContractEvent,
    pub to_recipient: Option<Transfer>,
    pub to_sender: Option<Transfer>,
}

/// A step the contract has the host perform.
#[derive(Copy, Clone, Debug, PartialEq, Eq)]
pub enum Effect {
    /// Pull tokens from `account` into the contract (allowance-based).
    Pull(Transfer),
    /// Publish an event.
    Publish(ContractEvent),
    /// Pay tokens from the contract to `account`.
    Pay(Transfer),
    /// Have the host check that `account` authorized the invocation; the
    /// host aborts the invocation otherwise.
    RequireAuth(AccountId),
}

// ------------------------------------------------------------ outcomes --

/// Validation of a new stream; on success, the deposit to pull from the
/// sender.
pub open spec fn admission_outcome(
    now: u64,
    sender: AccountId,
    token: AccountId,
    deposit_amount: i128,
    start_time: u64,
    end_time: u64,
) -> Result<Transfer, StreamError> {
    if deposit_amount <= 0 {
        Err(StreamError::ZeroAmount)
    } else if start_time < now {
        Err(StreamError::StartTimeInPast)
    } else if end_time <= start_time {
        Err(StreamError::InvalidTimeRange)
    } else if end_time - start_time > MAX_DURATION_SECONDS {
        Err(StreamError::DurationTooLong)
    } else if !capacity_fits(deposit_amount as int, end_time - start_time) {
        Err(StreamError::MathOverflow)
    } else {
        Ok(Transfer { token, account: sender, amount: deposit_amount })
    }
}

/// The plan that stores a freshly created stream and announces it.
pub open spec fn opening_plan(
    id: u64,
    sender: AccountId,
    recipient: AccountId,
    token: AccountId,
    deposit_amount: i128,
    start_time: u64,
    end_time: u64,
    cancelable: bool,
) -> Plan {
    Plan {
        stream: Stream {
            id,
            sender,
            recipient,
            token,
            deposit: deposit_amount,
            withdrawn: 0,
            start_time,
            end_time,
            cancelable,
            status: StreamStatus::Active,
        },
        event: ContractEvent::Created(
            StreamCreated {
                stream_id: id,
                sender,
                recipient,
                token,
                deposit: deposit_amount,
                start_time,
                end_time,
                cancelable,
            },
        ),
        to_recipient: None,
        to_sender: None,
    }
}

/// The stream a withdrawal of `amount` acts on, given what was loaded.
pub open spec fn withdrawal_target_outcome(found: Option<Stream>, amount: i128) -> Result<
    Stream,
    StreamError,
> {
    if amount <= 0 {
        Err(StreamError::ZeroAmount)
    } else {
        match found {
            Some(s) => Ok(s),
            None => Err(StreamError::StreamNotFound),
        }
    }
}

/// Withdrawal of `amount` from `s` at `now`, once the recipient has
/// authorized it.
pub open spec fn withdrawal_outcome(now: u64, s: Stream, amount: i128) -> Result<Plan, StreamError> {
    if s.status != StreamStatus::Active {
        Err(StreamError::StreamNotActive)
    } else {
        match s.available_outcome(now) {
            Err(e) => Err(e),
            Ok(available) => if amount > available {
                Err(StreamError::AmountExceedsAvailable)
            } else if !fits_i128(s.withdrawn + amount) {
                Err(StreamError::MathOverflow)
            } else {
                let total = (s.withdrawn + amount) as i128;
                Ok(
                    Plan {
                        stream: Stream {
                            withdrawn: total,
                            status: if total == s.deposit {
                                StreamStatus::Depleted
                            } else {
                                StreamStatus::Active
                            },
                            ..s
                        },
                        event: ContractEvent::Withdrawn(
                            Withdrawn {
                                stream_id: s.id,
                                recipient: s.recipient,
                                amount,
                                withdrawn_total: total,
                            },
                        ),
                        to_recipient: Some(
                            Transfer { token: s.token, account: s.recipient, amount },
                        ),
                        to_sender: None,
                    },
                )
            },
        }
    }
}

/// A payout of `amount` of `token` to `account`, where it is positive.
pub open spec fn payout(token: AccountId, account: AccountId, amount: i128) -> Option<Transfer> {
    if amount > 0 {
        Some(Transfer { token, account, amount })
    } else {
        None
    }
}

/// Whether `caller` may cancel the active stream `s`: its sender always,
/// its recipient only if the stream is `cancelable`.
pub open spec fn cancel_permitted(s: Stream, caller: AccountId) -> bool {
    &&& s.status == StreamStatus::Active
    &&& (caller@ == s.sender@ || (caller@ == s.recipient@ && s.cancelable))
}

/// Cancellation by `caller` at `now` of the stream that was loaded, once
/// `caller` has authorized it.
pub open spec fn cancellation_outcome(now: u64, found: Option<Stream>, caller: AccountId) -> Result<
    Plan,
    StreamError,
> {
    match found {
        None => Err(StreamError::StreamNotFound),
        Some(s) => if s.status != StreamStatus::Active {
            Err(StreamError::StreamNotActive)
        } else if caller@ != s.sender@ && caller@ == s.recipient@ && !s.cancelable {
            Err(StreamError::StreamNotCancellable)
        } else if caller@ != s.sender@ && caller@ != s.recipient@ {
            Err(StreamError::NotAuthorized)
        } else {
            match s.cancel_outcome(now) {
                Err(e) => Err(e),
                Ok((recipient_amount, sender_amount)) => if !fits_i128(
                    s.withdrawn + recipient_amount,
                ) {
                    Err(StreamError::MathOverflow)
                } else {
                    Ok(
                        Plan {
                            stream: Stream {
                                status: StreamStatus::Cancelled,
                                withdrawn: (s.withdrawn + recipient_amount) as i128,
                                ..s
                            },
                            event: ContractEvent::Cancelled(
                                StreamCancelled {
                                    stream_id: s.id,
                                    cancelled_by: caller,
                                    recipient_amount,
                                    sender_amount,
                                },
                            ),
                            to_recipient: payout(s.token, s.recipient, recipient_amount),
                            to_sender: payout(s.token, s.sender, sender_amount),
                        },
                    )
                },
            }
        },
    }
}

/// The stream a top-up of `amount` acts on, given what was loaded.
pub open spec fn top_up_target_outcome(found: Option<Stream>, amount: i128) -> Result<
    Stream,
    StreamError,
> {
    if amount <= 0 {
        Err(StreamError::ZeroAmount)
    } else {
        match found {
            None => Err(StreamError::StreamNotFound),
            Some(s) => if s.status != StreamStatus::Active {
                Err(StreamError::StreamNotActive)
            } else {
                Ok(s)
            },
        }
    }
}

/// Top-up of `s` by `amount`, once the sender has authorized it: the funds
/// to pull from the sender, then the plan.
pub open spec fn top_up_outcome(s: Stream, amount: i128) -> Result<(Transfer, Plan), StreamError> {
    if !fits_i128(s.deposit + amount) {
        Err(StreamError::MathOverflow)
    } else if !capacity_fits(s.deposit + amount, s.window()) {
        Err(StreamError::MathOverflow)
    } else {
        let new_deposit = (s.deposit + amount) as i128;
        Ok(
            (
                Transfer { token: s.token, account: s.sender, amount },
                Plan {
                    stream: Stream { deposit: new_deposit, ..s },
                    event: ContractEvent::ToppedUp(
                        StreamToppedUp { stream_id: s.id, sender: s.sender, amount, new_deposit },
                    ),
                    to_recipient: None,
                    to_sender: None,
                },
            ),
        )
    }
}

/// The effect of a payout, if any.
pub open spec fn payout_effects(t: Option<Transfer>) -> Seq<Effect> {
    match t {
        Some(t) => seq![Effect::Pay(t)],
        None => Seq::empty(),
    }
}

/// The effects of carrying out `plan` after storing its stream.
pub open spec fn plan_effects(plan: Plan) -> Seq<Effect> {
    seq![Effect::Publish(plan.event)] + payout_effects(plan.to_recipient) + payout_effects(
        plan.to_sender,
    )
}

// ----------------------------------------------------------- decisions --

/// Validates the arguments of `create_stream` at ledger time `now` and
/// returns the deposit to pull from the sender.
///
/// * `deposit_amount` must be positive.
/// * `start_time` must not be in the past.
/// * `end_time` must be strictly after `start_time` and the window at most
///   [`MAX_DURATION_SECONDS`] long.
/// * `deposit_amount * duration` must fit in `u128`.
pub fn admit_stream(
    now: u64,
    sender: AccountId,
    token: AccountId,
    deposit_amount: i128,
    start_time: u64,
    end_time: u64,
) -> (r: Result<Transfer, StreamError>)
    ensures
        r == admission_outcome(now, sender, token, deposit_amount, start_time, end_time),
{
    if deposit_amount <= 0 {
        return Err(StreamError::ZeroAmount);
    }
    if start_time < now {
        return Err(StreamError::StartTimeInPast);
    }
    if end_time <= start_time {
        return Err(StreamError::InvalidTimeRange);
    }
    let duration = end_time - start_time;
    if duration > MAX_DURATION_SECONDS {
        return Err(StreamError::DurationTooLong);
    }
    validate_capacity(deposit_amount, duration)?;
    Ok(Transfer { token, account: sender, amount: deposit_amount })
}

/// The plan for a newly created stream with id `id`: store it as active
/// with nothing withdrawn, and announce it.
pub fn open_stream(
    id: u64,
    sender: AccountId,
    recipient: AccountId,
    token: AccountId,
    deposit_amount: i128,
    start_time: u64,
    end_time: u64,
    cancelable: bool,
) -> (plan: Plan)
    ensures
        plan == opening_plan(
            id,
            sender,
            recipient,
            token,
            deposit_amount,
            start_time,
            end_time,
            cancelable,
        ),
{
    Plan {
        stream: Stream {
            id,
            sender,
            recipient,
            token,
            deposit: deposit_amount,
            withdrawn: 0,
            start_time,
            end_time,
            cancelable,
            status: StreamStatus::Active,
        },
        event: ContractEvent::Created(
            StreamCreated {
                stream_id: id,
                sender,
                recipient,
                token,
                deposit: deposit_amount,
                start_time,
                end_time,
                cancelable,
            },
        ),
        to_recipient: None,
        to_sender: None,
    }
}

/// The stream a withdrawal acts on: rejects a non-positive `amount`, then a
/// missing stream. The recipient of the returned stream must authorize the
/// withdrawal before [`plan_withdraw`].
pub fn withdrawal_target(found: Option<Stream>, amount: i128) -> (r: Result<Stream, StreamError>)
    ensures
        r == withdrawal_target_outcome(found, amount),
{
    if amount <= 0 {
        return Err(StreamError::ZeroAmount);
    }
    match found {
        Some(s) => Ok(s),
        None => Err(StreamError::StreamNotFound),
    }
}

/// Withdraws `amount` of the accrued-but-unwithdrawn balance of `stream` at
/// ledger time `now` for its recipient.
///
/// Rejects inactive streams and amounts above what has accrued. The stream
/// is recorded as depleted once everything was paid out. The plan pays
/// `amount` to the recipient after storing the stream and publishing the
/// event.
pub fn plan_withdraw(now: u64, stream: &Stream, amount: i128) -> (r: Result<Plan, StreamError>)
    requires
        stream.status == StreamStatus::Active ==> stream.start_time <= stream.end_time,
    ensures
        r == withdrawal_outcome(now, *stream, amount),
{
    if stream.status != StreamStatus::Active {
        return Err(StreamError::StreamNotActive);
    }
    let available = available_amount(now, stream)?;
    if amount > available {
        return Err(StreamError::AmountExceedsAvailable);
    }
    let total = match stream.withdrawn.checked_add(amount) {
        Some(t) => t,
        None => return Err(StreamError::MathOverflow),
    };
    let status = if total == stream.deposit {
        StreamStatus::Depleted
    } else {
        StreamStatus::Active
    };
    Ok(
        Plan {
            stream: Stream { withdrawn: total, status, ..*stream },
            event: ContractEvent::Withdrawn(
                Withdrawn {
                    stream_id: stream.id,
                    recipient: stream.recipient,
                    amount,
                    withdrawn_total: total,
                },
            ),
            to_recipient: Some(Transfer { token: stream.token, account: stream.recipient, amount }),
            to_sender: None,
        },
    )
}

/// Cancels the loaded stream on behalf of `caller` at ledger time `now`:
/// pays the recipient their accrued-but-unwithdrawn balance and refunds the
/// sender the unaccrued remainder.
///
/// Allowed for the sender always, and for the recipient only if the stream
/// is `cancelable`. Cancelling an inactive stream is rejected. Zero amounts
/// are not paid.
pub fn plan_cancel(now: u64, found: Option<Stream>, caller: AccountId) -> (r: Result<
    Plan,
    StreamError,
>)
    requires
        found matches Some(s) ==> (cancel_permitted(s, caller) ==> s.start_time <= s.end_time),
    ensures
        r == cancellation_outcome(now, found, caller),
{
    let s = match found {
        Some(s) => s,
        None => return Err(StreamError::StreamNotFound),
    };
    if s.status != StreamStatus::Active {
        return Err(StreamError::StreamNotActive);
    }
    if !caller.same_as(&s.sender) {
        if caller.same_as(&s.recipient) {
            if !s.cancelable {
                return Err(StreamError::StreamNotCancellable);
            }
        } else {
            return Err(StreamError::NotAuthorized);
        }
    }
    let (recipient_amount, sender_amount) = cancel_amounts(now, &s)?;
    let total = match s.withdrawn.checked_add(recipient_amount) {
        Some(t) => t,
        None => return Err(StreamError::MathOverflow),
    };
    let to_recipient = if recipient_amount > 0 {
        Some(Transfer { token: s.token, account: s.recipient, amount: recipient_amount })
    } else {
        None
    };
    let to_sender = if sender_amount > 0 {
        Some(Transfer { token: s.token, account: s.sender, amount: sender_amount })
    } else {
        None
    };
    Ok(
        Plan {
            stream: Stream { status: StreamStatus::Cancelled, withdrawn: total, ..s },
            event: ContractEvent::Cancelled(
                StreamCancelled {
                    stream_id: s.id,
                    cancelled_by: caller,
                    recipient_amount,
                    sender_amount,
                },
            ),
            to_recipient,
            to_sender,
        },
    )
}

/// Whether `caller` may cancel `stream`: it must be active, and `caller`
/// its sender, or its recipient where the stream is `cancelable`.
pub fn may_cancel(stream: &Stream, caller: &AccountId) -> (r: bool)
    ensures
        r == cancel_permitted(*stream, *caller),
{
    stream.status == StreamStatus::Active && (caller.same_as(&stream.sender) || (caller.same_as(
        &stream.recipient,
    ) && stream.cancelable))
}

/// The stream a top-up acts on: rejects a non-positive `amount`, a missing
/// stream and an inactive one. The sender of the returned stream must
/// authorize the top-up before [`plan_top_up`].
pub fn top_up_target(found: Option<Stream>, amount: i128) -> (r: Result<Stream, StreamError>)
    ensures
        r == top_up_target_outcome(found, amount),
{
    if amount <= 0 {
        return Err(StreamError::ZeroAmount);
    }
    let s = match found {
        Some(s) => s,
        None => return Err(StreamError::StreamNotFound),
    };
    if s.status != StreamStatus::Active {
        return Err(StreamError::StreamNotActive);
    }
    Ok(s)
}

/// Adds `amount` to the deposit of `stream`. Accrual stays linear over the
/// unchanged window, so the accrued amount grows pro rata at once. Returns
/// the funds to pull from the sender, then the plan.
pub fn plan_top_up(stream: &Stream, amount: i128) -> (r: Result<(Transfer, Plan), StreamError>)
    requires
        fits_i128(stream.deposit + amount) ==> stream.start_time <= stream.end_time,
    ensures
        r == top_up_outcome(*stream, amount),
{
    let new_deposit = match stream.deposit.checked_add(amount) {
        Some(d) => d,
        None => return Err(StreamError::MathOverflow),
    };
    validate_capacity(new_deposit, stream.duration())?;
    Ok(
        (
            Transfer { token: stream.token, account: stream.sender, amount },
            Plan {
                stream: Stream { deposit: new_deposit, ..*stream },
                event: ContractEvent::ToppedUp(
                    StreamToppedUp {
                        stream_id: stream.id,
                        sender: stream.sender,
                        amount,
                        new_deposit,
                    },
                ),
                to_recipient: None,
                to_sender: None,
            },
        ),
    )
}

// --------------------------------------------------------------- model --

/// The contract over its storage: the stream-id counter and the streams by
/// id, with every authorization check, token movement and event it has the
/// host perform recorded in order, and the latest ledger time it acted at.
///
/// Each entry point takes the ledger time where it needs one; the ledger
/// clock never runs backwards. A successful call records the authorization
/// it asks of the host at the point where it asks for it: the sender's for
/// `create_stream` and `top_up`, the recipient's for `withdraw`, the
/// caller's for `cancel_stream`. Without that authorization the host aborts
/// the call, which then has no effect.
pub struct StreamingPayments {
    storage: StreamStore,
    effects: Vec<Effect>,
    clock: u64,
}

/// The stored streams are well formed and none has paid its recipient more
/// than has accrued by ledger time `t1`, so none has by a later `t2`.
proof fn lemma_advance_clock(streams: Map<u64, Stream>, t1: u64, t2: u64)
    requires
        t1 <= t2,
        forall|id: u64| #[trigger]
            streams.contains_key(id) ==> streams[id].well_formed() && streams[id].withdrawn
                <= streams[id].streamed(t1),
    ensures
        forall|id: u64| #[trigger]
            streams.contains_key(id) ==> streams[id].withdrawn <= streams[id].streamed(t2),
{
    assert forall|id: u64| #[trigger] streams.contains_key(id) implies streams[id].withdrawn
        <= streams[id].streamed(t2) by {
        law_accrual_never_decreases(streams[id], t1, t2);
    }
}

impl StreamingPayments {
    /// The stored streams, by id.
    pub closed spec fn streams(&self) -> Map<u64, Stream> {
        self.storage.contents()
    }

    /// The stored stream-id counter.
    pub closed spec fn counter(&self) -> Option<u64> {
        self.storage.counter()
    }

    /// Every effect performed so far, in order.
    pub closed spec fn effect_log(&self) -> Seq<Effect> {
        self.effects@
    }

    /// The latest ledger time the contract acted at.
    pub closed spec fn clock(&self) -> u64 {
        self.clock
    }

    /// The stream stored under `id`, if any.
    pub open spec fn lookup(&self, id: u64) -> Option<Stream> {
        if self.streams().contains_key(id) {
            Some(self.streams()[id])
        } else {
            None
        }
    }

    /// Every stored stream sits under its own id, is well formed, and has
    /// paid its recipient no more than had accrued by the contract's clock.
    pub open spec fn well_formed(&self) -> bool {
        forall|id: u64| #[trigger]
            self.streams().contains_key(id) ==> self.streams()[id].id == id
                && self.streams()[id].well_formed() && self.streams()[id].withdrawn
                <= self.streams()[id].streamed(self.clock())
    }

    /// The contract's holdings, as moved by the recorded effects, cover
    /// what its streams still owe, in every token.
    pub open spec fn holdings_cover_debts(&self) -> bool {
        holdings_cover(self.effect_log(), self.streams())
    }

    /// Nothing observable differs between `self` and `before`.
    pub open spec fn unchanged_from(&self, before: &Self) -> bool {
        &&& self.streams() == before.streams()
        &&& self.counter() == before.counter()
        &&& self.effect_log() == before.effect_log()
        &&& self.clock() == before.clock()
    }

    /// `self` is `before` with `plan` carried out after the effects in
    /// `first`: its stream stored under `id`, its effects appended.
    pub open spec fn carried_out(&self, before: &Self, id: u64, first: Seq<Effect>, plan: Plan) -> bool {
        &&& self.streams() == before.streams().insert(id, plan.stream)
        &&& self.effect_log() == before.effect_log() + first + plan_effects(plan)
    }

    /// What `withdraw` decides for the stream stored under `id`.
    pub open spec fn withdraw_outcome(&self, now: u64, id: u64, amount: i128) -> Result<Plan, StreamError> {
        match withdrawal_target_outcome(self.lookup(id), amount) {
            Err(e) => Err(e),
            Ok(s) => withdrawal_outcome(now, s, amount),
        }
    }

    /// What `top_up` decides for the stream stored under `id`.
    pub open spec fn top_up_decision(&self, id: u64, amount: i128) -> Result<(Transfer, Plan), StreamError> {
        match top_up_target_outcome(self.lookup(id), amount) {
            Err(e) => Err(e),
            Ok(s) => top_up_outcome(s, amount),
        }
    }

    /// A contract with empty storage that has done nothing yet, its clock
    /// at ledger time zero.
    pub fn new() -> (c: StreamingPayments)
        ensures
            c.streams() == Map::<u64, Stream>::empty(),
            c.counter() is None,
            c.effect_log() == Seq::<Effect>::empty(),
            c.clock() == 0,
            c.well_formed(),
            c.holdings_cover_debts(),
    {
        proof {
            lemma_empty_covers();
        }
        StreamingPayments { storage: StreamStore::new(), effects: Vec::new(), clock: 0 }
    }

    /// Every effect performed so far, in order.
    pub fn effects(&self) -> (r: &Vec<Effect>)
        ensures
            r@ == self.effect_log(),
    {
        &self.effects
    }

    /// The latest ledger time the contract acted at.
    pub fn ledger_time(&self) -> (t: u64)
        ensures
            t == self.clock(),
    {
        self.clock
    }

    fn load(&self, id: u64) -> (r: Option<Stream>)
        ensures
            r == self.lookup(id),
    {
        match get_stream(&self.storage, id) {
            Ok(s) => Some(s),
            Err(_) => None,
        }
    }

    fn carry_out(&mut self, plan: Plan)
        ensures
            final(self).streams() == old(self).streams().insert(plan.stream.id, plan.stream),
            final(self).counter() == old(self).counter(),
            final(self).clock() == old(self).clock(),
            final(self).effect_log() == old(self).effect_log() + plan_effects(plan),
    {
        put_stream(&mut self.storage, &plan.stream);
        self.effects.push(Effect::Publish(plan.event));
        match plan.to_recipient {
            Some(t) => self.effects.push(Effect::Pay(t)),
            None => {},
        }
        match plan.to_sender {
            Some(t) => self.effects.push(Effect::Pay(t)),
            None => {},
        }
        assert(final(self).effect_log() =~= old(self).effect_log() + plan_effects(plan));
    }

    /// Creates a linear payment stream and pulls `deposit_amount` of `token`
    /// from `sender` into the contract, with the sender's authorization.
    /// Returns the new stream id (1 for the first stream, then one more each
    /// time).
    pub fn create_stream(
        &mut self,
        now: u64,
        sender: AccountId,
        recipient: AccountId,
        token: AccountId,
        deposit_amount: i128,
        start_time: u64,
        end_time: u64,
        cancelable: bool,
    ) -> (r: Result<u64, StreamError>)
        requires
            old(self).well_formed(),
            old(self).clock() <= now,
        ensures
            final(self).well_formed(),
            old(self).holdings_cover_debts() ==> final(self).holdings_cover_debts(),
            match admission_outcome(now, sender, token, deposit_amount, start_time, end_time) {
                Err(e) => r == Err::<u64, StreamError>(e) && final(self).unchanged_from(old(self)),
                Ok(pull) => {
                    let id = allocation(old(self).counter()).0;
                    &&& r == Ok::<u64, StreamError>(id)
                    &&& final(self).counter() == Some(allocation(old(self).counter()).1)
                    &&& final(self).clock() == now
                    &&& final(self).carried_out(
                        old(self),
                        id,
                        seq![Effect::RequireAuth(sender), Effect::Pull(pull)],
                        opening_plan(
                            id,
                            sender,
                            recipient,
                            token,
                            deposit_amount,
                            start_time,
                            end_time,
                            cancelable,
                        ),
                    )
                },
            },
    {
        let pull = admit_stream(now, sender, token, deposit_amount, start_time, end_time)?;
        let ghost streams0 = old(self).streams();
        let ghost log1 = old(self).effect_log().push(Effect::RequireAuth(sender));
        proof {
            lemma_advance_clock(streams0, old(self).clock(), now);
            if old(self).holdings_cover_debts() {
                lemma_auth_keeps_cover(old(self).effect_log(), streams0, sender);
            }
        }
        self.clock = now;
        self.effects.push(Effect::RequireAuth(sender));
        self.effects.push(Effect::Pull(pull));
        let id = next_stream_id(&mut self.storage);
        let plan = open_stream(
            id,
            sender,
            recipient,
            token,
            deposit_amount,
            start_time,
            end_time,
            cancelable,
        );
        proof {
            lemma_open_is_well_formed(
                now,
                id,
                sender,
                recipient,
                token,
                deposit_amount,
                start_time,
                end_time,
                cancelable,
            );
            lemma_streamed_bounds(plan.stream.deposit as int, plan.stream.window(), plan.stream.elapsed(now));
        }
        self.carry_out(plan);
        assert(self.effect_log() =~= old(self).effect_log() + seq![
            Effect::RequireAuth(sender),
            Effect::Pull(pull),
        ] + plan_effects(plan));
        assert(self.effect_log() =~= log1 + (seq![Effect::Pull(pull)] + plan_effects(plan)));
        proof {
            if old(self).holdings_cover_debts() {
                lemma_open_covers(
                    log1,
                    streams0,
                    now,
                    id,
                    sender,
                    recipient,
                    token,
                    deposit_amount,
                    start_time,
                    end_time,
                    cancelable,
                );
            }
        }
        Ok(id)
    }

    /// Withdraws `amount` of the accrued-but-unwithdrawn balance of stream
    /// `stream_id` at ledger time `now` and pays it to the recipient, with
    /// the recipient's authorization.
    ///
    /// Before `start_time` nothing has accrued; at or after `end_time` the
    /// full remainder is available.
    pub fn withdraw(&mut self, now: u64, stream_id: u64, amount: i128) -> (r: Result<(), StreamError>)
        requires
            old(self).well_formed(),
            old(self).clock() <= now,
        ensures
            final(self).well_formed(),
            old(self).holdings_cover_debts() ==> final(self).holdings_cover_debts(),
            match old(self).withdraw_outcome(now, stream_id, amount) {
                Err(e) => r == Err::<(), StreamError>(e) && final(self).unchanged_from(old(self)),
                Ok(plan) => {
                    &&& r is Ok
                    &&& final(self).counter() == old(self).counter()
                    &&& final(self).clock() == now
                    &&& final(self).carried_out(
                        old(self),
                        stream_id,
                        seq![Effect::RequireAuth(old(self).lookup(stream_id)->Some_0.recipient)],
                        plan,
                    )
                },
            },
    {
        let found = self.load(stream_id);
        let s = withdrawal_target(found, amount)?;
        let plan = plan_withdraw(now, &s, amount)?;
        let ghost streams0 = old(self).streams();
        let ghost log1 = old(self).effect_log().push(Effect::RequireAuth(s.recipient));
        proof {
            lemma_withdraw_keeps_well_formed(now, s, amount);
            law_withdrawn_within_accrued(now, s, amount, s.sender);
            lemma_advance_clock(streams0, old(self).clock(), now);
            if old(self).holdings_cover_debts() {
                lemma_auth_keeps_cover(old(self).effect_log(), streams0, s.recipient);
                lemma_withdraw_covers(log1, streams0, now, stream_id, amount);
            }
        }
        self.clock = now;
        self.effects.push(Effect::RequireAuth(s.recipient));
        self.carry_out(plan);
        assert(self.effect_log() =~= old(self).effect_log() + seq![Effect::RequireAuth(s.recipient)]
            + plan_effects(plan));
        assert(self.effect_log() =~= log1 + plan_effects(plan));
        Ok(())
    }

    /// Cancels stream `stream_id` on behalf of `caller`, with the caller's
    /// authorization, at ledger time `now`: pays the recipient their
    /// accrued-but-unwithdrawn balance and refunds the sender the unaccrued
    /// remainder.
    ///
    /// Callable by the sender always, and by the recipient only if the
    /// stream was created `cancelable`. Cancelling an already-cancelled or
    /// depleted stream is rejected with [`StreamError::StreamNotActive`].
    pub fn cancel_stream(&mut self, now: u64, caller: AccountId, stream_id: u64) -> (r: Result<
        (),
        StreamError,
    >)
        requires
            old(self).well_formed(),
            old(self).clock() <= now,
        ensures
            final(self).well_formed(),
            old(self).holdings_cover_debts() ==> final(self).holdings_cover_debts(),
            match cancellation_outcome(now, old(self).lookup(stream_id), caller) {
                Err(e) => r == Err::<(), StreamError>(e) && final(self).unchanged_from(old(self)),
                Ok(plan) => {
                    &&& r is Ok
                    &&& final(self).counter() == old(self).counter()
                    &&& final(self).clock() == now
                    &&& final(self).carried_out(
                        old(self),
                        stream_id,
                        seq![Effect::RequireAuth(caller)],
                        plan,
                    )
                },
            },
    {
        let found = self.load(stream_id);
        let plan = plan_cancel(now, found, caller)?;
        let ghost streams0 = old(self).streams();
        let ghost log1 = old(self).effect_log().push(Effect::RequireAuth(caller));
        proof {
            let s = found->Some_0;
            lemma_cancel_keeps_well_formed(now, s, caller);
            law_withdrawn_within_accrued(now, s, 1, caller);
            lemma_advance_clock(streams0, old(self).clock(), now);
            if old(self).holdings_cover_debts() {
                lemma_auth_keeps_cover(old(self).effect_log(), streams0, caller);
                lemma_cancel_covers(log1, streams0, now, stream_id, caller);
            }
        }
        self.clock = now;
        self.effects.push(Effect::RequireAuth(caller));
        self.carry_out(plan);
        assert(self.effect_log() =~= old(self).effect_log() + seq![Effect::RequireAuth(caller)]
            + plan_effects(plan));
        assert(self.effect_log() =~= log1 + plan_effects(plan));
        Ok(())
    }

    /// Adds `amount` to the deposit of stream `stream_id`, pulling it from
    /// the sender with the sender's authorization. Accrual stays linear over
    /// the unchanged window. Rejected on cancelled or depleted streams.
    pub fn top_up(&mut self, stream_id: u64, amount: i128) -> (r: Result<(), StreamError>)
        requires
            old(self).well_formed(),
        ensures
            final(self).well_formed(),
            old(self).holdings_cover_debts() ==> final(self).holdings_cover_debts(),
            match old(self).top_up_decision(stream_id, amount) {
                Err(e) => r == Err::<(), StreamError>(e) && final(self).unchanged_from(old(self)),
                Ok((pull, plan)) => {
                    &&& r is Ok
                    &&& final(self).counter() == old(self).counter()
                    &&& final(self).clock() == old(self).clock()
                    &&& final(self).carried_out(
                        old(self),
                        stream_id,
                        seq![Effect::RequireAuth(plan.stream.sender), Effect::Pull(pull)],
                        plan,
                    )
                },
            },
    {
        let found = self.load(stream_id);
        let s = top_up_target(found, amount)?;
        let (pull, plan) = plan_top_up(&s, amount)?;
        let ghost streams0 = old(self).streams();
        let ghost log1 = old(self).effect_log().push(Effect::RequireAuth(s.sender));
        proof {
            lemma_top_up_keeps_well_formed(s, amount);
            law_withdrawn_within_accrued(old(self).clock(), s, amount, s.sender);
            if old(self).holdings_cover_debts() {
                lemma_auth_keeps_cover(old(self).effect_log(), streams0, s.sender);
                lemma_top_up_covers(log1, streams0, stream_id, amount);
            }
        }
        self.effects.push(Effect::RequireAuth(s.sender));
        self.effects.push(Effect::Pull(pull));
        self.carry_out(plan);
        assert(self.effect_log() =~= old(self).effect_log() + seq![
            Effect::RequireAuth(s.sender),
            Effect::Pull(pull),
        ] + plan_effects(plan));
        assert(self.effect_log() =~= log1 + (seq![Effect::Pull(pull)] + plan_effects(plan)));
        Ok(())
    }

    /// Read-only view of a stream's full state.
    pub fn get_stream(&self, stream_id: u64) -> (r: Result<Stream, StreamError>)
        ensures
            r == (match self.lookup(stream_id) {
                Some(s) => Ok::<Stream, StreamError>(s),
                None => Err::<Stream, StreamError>(StreamError::StreamNotFound),
            }),
    {
        get_stream(&self.storage, stream_id)
    }

    /// Read-only view of the accrued-but-unwithdrawn balance of stream
    /// `stream_id` at ledger time `now`. Zero before `start_time` and for
    /// cancelled streams; the full remainder at or after `end_time`; never
    /// negative from the contract's clock on.
    pub fn available(&self, now: u64, stream_id: u64) -> (r: Result<i128, StreamError>)
        requires
            self.well_formed(),
        ensures
            r == (match self.lookup(stream_id) {
                Some(s) => s.available_outcome(now),
                None => Err::<i128, StreamError>(StreamError::StreamNotFound),
            }),
            self.clock() <= now ==> (r matches Ok(v) ==> v >= 0),
    {
        let s = get_stream(&self.storage, stream_id)?;
        proof {
            if self.clock() <= now {
                law_accrual_never_decreases(s, self.clock(), now);
            }
        }
        available_amount(now, &s)
    }
}

} // verus!
