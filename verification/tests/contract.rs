//! Entry-point tests over the in-memory contract. Token balances are read
//! off the recorded effects: the sender starts with twice the deposit, every
//! pull moves tokens from an account into the contract and every payout
//! moves them back out.

use streampay::{
    AccountId, ContractEvent, Effect, StreamCancelled, StreamCreated, StreamError, StreamStatus,
    StreamToppedUp, StreamingPayments, Withdrawn, MAX_DURATION_SECONDS,
};

const DAY: u64 = 24 * 60 * 60;
/// 1000 tokens with 7 decimals.
const DEPOSIT: i128 = 10_000_000_000;

fn party(tag: u8) -> AccountId {
    AccountId::from_strkey([tag; 56])
}

struct Fixture {
    contract: StreamingPayments,
    now: u64,
    token: AccountId,
    sender: AccountId,
    recipient: AccountId,
}

impl Fixture {
    fn setup() -> Self {
        Fixture {
            contract: StreamingPayments::new(),
            now: 0,
            token: party(b'T'),
            sender: party(b'S'),
            recipient: party(b'R'),
        }
    }

    /// Creates a stream starting `start_in` seconds from now, lasting
    /// `duration` seconds, with the given deposit and cancelability.
    fn create_stream(&mut self, deposit: i128, start_in: u64, duration: u64, cancelable: bool) -> u64 {
        let now = self.now;
        self.contract
            .create_stream(
                now,
                self.sender,
                self.recipient,
                self.token,
                deposit,
                now + start_in,
                now + start_in + duration,
                cancelable,
            )
            .unwrap()
    }

    fn try_create(&mut self, deposit: i128, start: u64, end: u64) -> Result<u64, StreamError> {
        let now = self.now;
        self.contract.create_stream(
            now,
            self.sender,
            self.recipient,
            self.token,
            deposit,
            start,
            end,
            false,
        )
    }

    fn advance_time(&mut self, seconds: u64) {
        self.now += seconds;
    }

    fn available(&self, id: u64) -> i128 {
        self.contract.available(self.now, id).unwrap()
    }

    fn withdraw(&mut self, id: u64, amount: i128) -> Result<(), StreamError> {
        let now = self.now;
        self.contract.withdraw(now, id, amount)
    }

    fn cancel(&mut self, caller: AccountId, id: u64) -> Result<(), StreamError> {
        let now = self.now;
        self.contract.cancel_stream(now, caller, id)
    }

    fn balance(&self, who: &AccountId) -> i128 {
        let mut b: i128 = if *who == self.sender { 2 * DEPOSIT } else { 0 };
        for e in self.contract.effects() {
            match e {
                Effect::Pull(t) if t.account == *who && t.token == self.token => b -= t.amount,
                Effect::Pay(t) if t.account == *who && t.token == self.token => b += t.amount,
                _ => {}
            }
        }
        b
    }

    fn contract_balance(&self) -> i128 {
        let mut b: i128 = 0;
        for e in self.contract.effects() {
            match e {
                Effect::Pull(t) if t.token == self.token => b += t.amount,
                Effect::Pay(t) if t.token == self.token => b -= t.amount,
                _ => {}
            }
        }
        b
    }

    fn events(&self) -> Vec<ContractEvent> {
        let mut out = Vec::new();
        for e in self.contract.effects() {
            if let Effect::Publish(ev) = e {
                out.push(*ev);
            }
        }
        out
    }
}

// ---------------------------------------------------------------- creation --

#[test]
fn create_stream_pulls_deposit_and_stores_state() {
    let mut f = Fixture::setup();
    let now = f.now;
    let id = f.create_stream(DEPOSIT, DAY, 30 * DAY, true);

    let stream = f.contract.get_stream(id).unwrap();
    assert_eq!(stream.id, id);
    assert_eq!(stream.sender, f.sender);
    assert_eq!(stream.recipient, f.recipient);
    assert_eq!(stream.token, f.token);
    assert_eq!(stream.deposit, DEPOSIT);
    assert_eq!(stream.withdrawn, 0);
    assert_eq!(stream.start_time, now + DAY);
    assert_eq!(stream.end_time, now + DAY + 30 * DAY);
    assert!(stream.cancelable);
    assert_eq!(stream.status, StreamStatus::Active);

    assert_eq!(f.balance(&f.sender), DEPOSIT);
    assert_eq!(f.contract_balance(), DEPOSIT);
}

#[test]
fn create_stream_rejects_zero_and_negative_amounts() {
    let mut f = Fixture::setup();
    let now = f.now;
    for deposit in [0i128, -1] {
        let err = f.try_create(deposit, now + DAY, now + 2 * DAY).unwrap_err();
        assert_eq!(err, StreamError::ZeroAmount);
    }
}

#[test]
fn create_stream_rejects_zero_duration() {
    let mut f = Fixture::setup();
    let now = f.now;
    let err = f.try_create(DEPOSIT, now + DAY, now + DAY).unwrap_err();
    assert_eq!(err, StreamError::InvalidTimeRange);
}

#[test]
fn create_stream_rejects_inverted_time_range() {
    let mut f = Fixture::setup();
    let now = f.now;
    let err = f.try_create(DEPOSIT, now + 2 * DAY, now + DAY).unwrap_err();
    assert_eq!(err, StreamError::InvalidTimeRange);
}

#[test]
fn create_stream_rejects_start_time_in_the_past() {
    let mut f = Fixture::setup();
    let now = f.now;
    f.advance_time(DAY);
    let err = f.try_create(DEPOSIT, now, now + 2 * DAY).unwrap_err();
    assert_eq!(err, StreamError::StartTimeInPast);
}

#[test]
fn create_stream_allows_start_time_exactly_now() {
    let mut f = Fixture::setup();
    let now = f.now;
    let id = f.try_create(DEPOSIT, now, now + DAY).unwrap();
    assert_eq!(f.available(id), 0);
}

#[test]
fn create_stream_rejects_duration_over_max() {
    let mut f = Fixture::setup();
    let now = f.now;
    let err = f.try_create(DEPOSIT, now, now + MAX_DURATION_SECONDS + 1).unwrap_err();
    assert_eq!(err, StreamError::DurationTooLong);

    let id = f.try_create(DEPOSIT, now, now + MAX_DURATION_SECONDS).unwrap();
    assert!(id >= 1);
}

#[test]
fn create_stream_rejects_deposit_that_overflows_rate_math() {
    let mut f = Fixture::setup();
    let now = f.now;
    let deposit = i128::MAX;
    let duration = 2 * 365 * DAY;
    let err = f.try_create(deposit, now, now + duration).unwrap_err();
    assert_eq!(err, StreamError::MathOverflow);
}

// ------------------------------------------------- accrual & withdrawal -----

#[test]
fn withdraw_before_start_returns_zero_and_reverts() {
    let mut f = Fixture::setup();
    let id = f.create_stream(DEPOSIT, DAY, 30 * DAY, false);

    assert_eq!(f.available(id), 0);
    let err = f.withdraw(id, 1000).unwrap_err();
    assert_eq!(err, StreamError::AmountExceedsAvailable);
}

#[test]
fn withdraw_at_exact_start_is_zero() {
    let mut f = Fixture::setup();
    let id = f.create_stream(DEPOSIT, DAY, 30 * DAY, false);
    f.advance_time(DAY);
    assert_eq!(f.available(id), 0);
}

#[test]
fn withdraw_accrues_linearly() {
    let mut f = Fixture::setup();
    let id = f.create_stream(DEPOSIT, DAY, 10 * DAY, false);

    f.advance_time(2 * DAY);
    assert_eq!(f.available(id), DEPOSIT / 10);

    f.advance_time(4 * DAY);
    assert_eq!(f.available(id), DEPOSIT / 2);
}

#[test]
fn withdraw_exact_amount_at_end_drains_stream() {
    let mut f = Fixture::setup();
    let id = f.create_stream(DEPOSIT, DAY, 10 * DAY, false);

    f.advance_time(11 * DAY);
    assert_eq!(f.available(id), DEPOSIT);

    f.withdraw(id, DEPOSIT).unwrap();
    let stream = f.contract.get_stream(id).unwrap();
    assert_eq!(stream.withdrawn, DEPOSIT);
    assert_eq!(stream.status, StreamStatus::Depleted);
    assert_eq!(f.balance(&f.recipient), DEPOSIT);
    assert_eq!(f.contract_balance(), 0);
}

#[test]
fn withdraw_after_end_allows_full_remaining_balance() {
    let mut f = Fixture::setup();
    let id = f.create_stream(DEPOSIT, DAY, 10 * DAY, false);
    f.advance_time(100 * DAY);
    assert_eq!(f.available(id), DEPOSIT);
}

#[test]
fn withdraw_reverts_if_amount_exceeds_available() {
    let mut f = Fixture::setup();
    let id = f.create_stream(DEPOSIT, DAY, 10 * DAY, false);
    f.advance_time(2 * DAY);
    let err = f.withdraw(id, DEPOSIT / 10 + 1).unwrap_err();
    assert_eq!(err, StreamError::AmountExceedsAvailable);
    assert_eq!(f.available(id), DEPOSIT / 10);
}

#[test]
fn withdraw_rejects_zero_amount() {
    let mut f = Fixture::setup();
    let id = f.create_stream(DEPOSIT, DAY, 10 * DAY, false);
    f.advance_time(2 * DAY);
    let err = f.withdraw(id, 0).unwrap_err();
    assert_eq!(err, StreamError::ZeroAmount);
}

#[test]
fn multiple_partial_withdrawals_in_sequence() {
    let mut f = Fixture::setup();
    let id = f.create_stream(DEPOSIT, DAY, 10 * DAY, false);

    f.advance_time(2 * DAY);
    assert_eq!(f.available(id), DEPOSIT / 10);
    let first = DEPOSIT / 20;
    f.withdraw(id, first).unwrap();

    f.advance_time(DAY);
    let second = f.available(id);
    assert_eq!(second, 3 * DEPOSIT / 20);
    f.withdraw(id, second).unwrap();

    f.advance_time(20 * DAY);
    let withdrawn_total = first + second;
    let rest = f.available(id);
    assert_eq!(rest, DEPOSIT - withdrawn_total);
    f.withdraw(id, rest).unwrap();

    let stream = f.contract.get_stream(id).unwrap();
    assert_eq!(stream.status, StreamStatus::Depleted);
    assert_eq!(f.balance(&f.recipient), DEPOSIT);
    assert_eq!(f.contract_balance(), 0);
}

#[test]
fn withdraw_on_cancelled_stream_reverts() {
    let mut f = Fixture::setup();
    let id = f.create_stream(DEPOSIT, DAY, 10 * DAY, true);
    f.advance_time(2 * DAY);
    let recipient = f.recipient;
    f.cancel(recipient, id).unwrap();
    let err = f.withdraw(id, 1).unwrap_err();
    assert_eq!(err, StreamError::StreamNotActive);
    assert_eq!(f.available(id), 0);
}

#[test]
fn withdraw_unknown_stream_reverts() {
    let mut f = Fixture::setup();
    let err = f.withdraw(999, 1).unwrap_err();
    assert_eq!(err, StreamError::StreamNotFound);
}

// ------------------------------------------------------------ cancellation --

#[test]
fn cancel_by_sender_refunds_remainder_and_pays_accrued() {
    let mut f = Fixture::setup();
    let id = f.create_stream(DEPOSIT, DAY, 10 * DAY, false);
    f.advance_time(3 * DAY);

    let sender = f.sender;
    f.cancel(sender, id).unwrap();

    let accrued = DEPOSIT / 5;
    let stream = f.contract.get_stream(id).unwrap();
    assert_eq!(stream.status, StreamStatus::Cancelled);
    assert_eq!(stream.withdrawn, accrued);
    assert_eq!(f.balance(&f.recipient), accrued);
    assert_eq!(f.balance(&f.sender), 2 * DEPOSIT - accrued);
    assert_eq!(f.contract_balance(), 0);
}

#[test]
fn cancel_before_start_refunds_everything_to_sender() {
    let mut f = Fixture::setup();
    let id = f.create_stream(DEPOSIT, DAY, 10 * DAY, false);
    let sender = f.sender;
    f.cancel(sender, id).unwrap();
    assert_eq!(f.balance(&f.recipient), 0);
    assert_eq!(f.balance(&f.sender), 2 * DEPOSIT);
    let stream = f.contract.get_stream(id).unwrap();
    assert_eq!(stream.status, StreamStatus::Cancelled);
    assert_eq!(stream.withdrawn, 0);
}

#[test]
fn cancel_after_end_pays_recipient_everything() {
    let mut f = Fixture::setup();
    let id = f.create_stream(DEPOSIT, DAY, 10 * DAY, false);
    f.advance_time(50 * DAY);
    let sender = f.sender;
    f.cancel(sender, id).unwrap();
    assert_eq!(f.balance(&f.recipient), DEPOSIT);
    assert_eq!(f.balance(&f.sender), DEPOSIT);
}

#[test]
fn cancel_fully_withdrawn_stream_reverts() {
    let mut f = Fixture::setup();
    let id = f.create_stream(DEPOSIT, DAY, 10 * DAY, false);
    f.advance_time(20 * DAY);
    f.withdraw(id, DEPOSIT).unwrap();
    assert_eq!(f.contract.get_stream(id).unwrap().status, StreamStatus::Depleted);

    let sender = f.sender;
    let err = f.cancel(sender, id).unwrap_err();
    assert_eq!(err, StreamError::StreamNotActive);
}

#[test]
fn cancel_twice_reverts() {
    let mut f = Fixture::setup();
    let id = f.create_stream(DEPOSIT, DAY, 10 * DAY, false);
    let sender = f.sender;
    f.cancel(sender, id).unwrap();
    let err = f.cancel(sender, id).unwrap_err();
    assert_eq!(err, StreamError::StreamNotActive);
}

#[test]
fn recipient_cannot_cancel_non_cancelable_stream() {
    let mut f = Fixture::setup();
    let id = f.create_stream(DEPOSIT, DAY, 10 * DAY, false);
    let recipient = f.recipient;
    let err = f.cancel(recipient, id).unwrap_err();
    assert_eq!(err, StreamError::StreamNotCancellable);
    assert_eq!(f.contract.get_stream(id).unwrap().status, StreamStatus::Active);
}

#[test]
fn recipient_can_cancel_cancelable_stream() {
    let mut f = Fixture::setup();
    let id = f.create_stream(DEPOSIT, DAY, 10 * DAY, true);
    f.advance_time(2 * DAY);
    let recipient = f.recipient;
    f.cancel(recipient, id).unwrap();
    assert_eq!(f.contract.get_stream(id).unwrap().status, StreamStatus::Cancelled);
    assert_eq!(f.balance(&f.recipient), DEPOSIT / 10);
    assert_eq!(f.balance(&f.sender), 2 * DEPOSIT - DEPOSIT / 10);
}

#[test]
fn third_party_cannot_cancel_any_stream() {
    let mut f = Fixture::setup();
    let id = f.create_stream(DEPOSIT, DAY, 10 * DAY, true);
    let err = f.cancel(party(b'X'), id).unwrap_err();
    assert_eq!(err, StreamError::NotAuthorized);
}

#[test]
fn cancel_at_exact_start_pays_sender_everything() {
    let mut f = Fixture::setup();
    let id = f.create_stream(DEPOSIT, DAY, 10 * DAY, false);
    f.advance_time(DAY);
    let sender = f.sender;
    f.cancel(sender, id).unwrap();
    assert_eq!(f.balance(&f.sender), 2 * DEPOSIT);
    assert_eq!(f.balance(&f.recipient), 0);
}

// ------------------------------------------------------------ top-up --------

#[test]
fn top_up_increases_deposit_and_accrual_pro_rata() {
    let mut f = Fixture::setup();
    let id = f.create_stream(DEPOSIT, DAY, 10 * DAY, false);

    f.advance_time(3 * DAY);
    assert_eq!(f.available(id), DEPOSIT / 5);

    let top_up = DEPOSIT / 2;
    f.contract.top_up(id, top_up).unwrap();

    let new_deposit = DEPOSIT + top_up;
    assert_eq!(f.available(id), new_deposit * 2 / 10);

    let stream = f.contract.get_stream(id).unwrap();
    assert_eq!(stream.deposit, new_deposit);
    assert_eq!(f.contract_balance(), new_deposit);
}

#[test]
fn top_up_after_end_fully_withdrawable() {
    let mut f = Fixture::setup();
    let id = f.create_stream(DEPOSIT, DAY, 10 * DAY, false);
    f.advance_time(20 * DAY);

    let extra = DEPOSIT / 2;
    f.contract.top_up(id, extra).unwrap();
    f.withdraw(id, DEPOSIT + extra).unwrap();
    assert_eq!(f.balance(&f.recipient), DEPOSIT + extra);
}

#[test]
fn top_up_rejected_on_cancelled_stream() {
    let mut f = Fixture::setup();
    let id = f.create_stream(DEPOSIT, DAY, 10 * DAY, false);
    let sender = f.sender;
    f.cancel(sender, id).unwrap();
    let err = f.contract.top_up(id, 1000).unwrap_err();
    assert_eq!(err, StreamError::StreamNotActive);
}

#[test]
fn top_up_rejected_on_depleted_stream() {
    let mut f = Fixture::setup();
    let id = f.create_stream(DEPOSIT, DAY, 10 * DAY, false);
    f.advance_time(20 * DAY);
    f.withdraw(id, DEPOSIT).unwrap();
    let err = f.contract.top_up(id, 1000).unwrap_err();
    assert_eq!(err, StreamError::StreamNotActive);
}

#[test]
fn top_up_rejects_zero_amount() {
    let mut f = Fixture::setup();
    let id = f.create_stream(DEPOSIT, DAY, 10 * DAY, false);
    let err = f.contract.top_up(id, 0).unwrap_err();
    assert_eq!(err, StreamError::ZeroAmount);
}

#[test]
fn top_up_rejects_amount_that_would_overflow_rate_math() {
    let mut f = Fixture::setup();
    let id = f.create_stream(DEPOSIT, DAY, 10 * DAY, false);
    let err = f.contract.top_up(id, i128::MAX).unwrap_err();
    assert_eq!(err, StreamError::MathOverflow);
    assert_eq!(f.contract.get_stream(id).unwrap().deposit, DEPOSIT);
}

// ------------------------------------------------------------ reentrancy ----

/// A token whose payout reenters `withdraw` runs that inner call after the
/// outer withdrawal's state was stored, at the same ledger time. Here the
/// reentrant call is issued in exactly that state.
#[test]
fn reentrant_withdrawal_during_payout_cannot_double_spend() {
    let mut f = Fixture::setup();
    let id = f.create_stream(DEPOSIT, DAY, 10 * DAY, false);

    f.advance_time(2 * DAY);

    f.withdraw(id, DEPOSIT / 10).unwrap();
    let inner = f.withdraw(id, DEPOSIT / 10);
    assert_eq!(inner, Err(StreamError::AmountExceedsAvailable));

    let stream = f.contract.get_stream(id).unwrap();
    assert_eq!(stream.withdrawn, DEPOSIT / 10);
    assert_eq!(stream.status, StreamStatus::Active);
}

// ------------------------------------------------------------ events --------

#[test]
fn events_are_emitted_with_expected_payloads() {
    let mut f = Fixture::setup();
    let now = f.now;

    let id = f
        .contract
        .create_stream(now, f.sender, f.recipient, f.token, DEPOSIT, now + DAY, now + DAY + 10 * DAY, true)
        .unwrap();

    let created = StreamCreated {
        stream_id: id,
        sender: f.sender,
        recipient: f.recipient,
        token: f.token,
        deposit: DEPOSIT,
        start_time: now + DAY,
        end_time: now + DAY + 10 * DAY,
        cancelable: true,
    };
    assert_eq!(f.events(), vec![ContractEvent::Created(created)]);

    f.advance_time(3 * DAY);
    f.withdraw(id, 1000).unwrap();
    let withdrawn = Withdrawn {
        stream_id: id,
        recipient: f.recipient,
        amount: 1000,
        withdrawn_total: 1000,
    };
    assert_eq!(f.events()[1..], [ContractEvent::Withdrawn(withdrawn)]);

    let streamed = DEPOSIT / 5;
    let recipient = f.recipient;
    f.cancel(recipient, id).unwrap();
    let cancelled = StreamCancelled {
        stream_id: id,
        cancelled_by: f.recipient,
        recipient_amount: streamed - 1000,
        sender_amount: DEPOSIT - streamed,
    };
    assert_eq!(f.events()[2..], [ContractEvent::Cancelled(cancelled)]);
}

#[test]
fn top_up_event_emitted() {
    let mut f = Fixture::setup();
    let id = f.create_stream(DEPOSIT, DAY, 10 * DAY, false);
    let now = f.now;

    let created = StreamCreated {
        stream_id: id,
        sender: f.sender,
        recipient: f.recipient,
        token: f.token,
        deposit: DEPOSIT,
        start_time: now + DAY,
        end_time: now + DAY + 10 * DAY,
        cancelable: false,
    };
    assert_eq!(f.events(), vec![ContractEvent::Created(created)]);

    f.contract.top_up(id, 1234).unwrap();
    let topped_up = StreamToppedUp {
        stream_id: id,
        sender: f.sender,
        amount: 1234,
        new_deposit: DEPOSIT + 1234,
    };
    assert_eq!(f.events()[1..], [ContractEvent::ToppedUp(topped_up)]);
}
