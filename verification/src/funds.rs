//! Accounting of the contract's token holdings against what its streams
//! still owe.

use vstd::prelude::*;

use crate::account::AccountId;
use crate::contract::{
    admission_outcome, cancellation_outcome, opening_plan, payout_effects, plan_effects,
    top_up_outcome, withdrawal_outcome, Effect, Plan, Transfer,
};
use crate::laws::outstanding;
use crate::stream::{lemma_streamed_bounds, Stream, StreamStatus};

verus! {

/// How one effect changes the contract's holdings of `token`: a pull adds,
/// a payout subtracts, an event or an authorization check moves nothing.
pub open spec fn effect_flow(e: Effect, token: AccountId) -> int {
    match e {
        Effect::Pull(t) => if t.token == token { t.amount as int } else { 0 },
        Effect::Pay(t) => if t.token == token { -(t.amount as int) } else { 0 },
        Effect::Publish(_) => 0,
        Effect::RequireAuth(_) => 0,
    }
}

/// Net amount of `token` that the effects in `log` moved into the contract.
pub open spec fn net_intake(log: Seq<Effect>, token: AccountId) -> int
    decreases log.len(),
{
    if log.len() == 0 {
        0
    } else {
        net_intake(log.drop_last(), token) + effect_flow(log.last(), token)
    }
}

/// What stream `s` still owes in `token`.
pub open spec fn owed(s: Stream, token: AccountId) -> int {
    if s.token == token { outstanding(s) } else { 0 }
}

/// What the stream stored under `id`, if any, owes in `token`.
pub open spec fn owed_at(streams: Map<u64, Stream>, id: u64, token: AccountId) -> int {
    if streams.contains_key(id) { owed(streams[id], token) } else { 0 }
}

/// What the streams with ids below `n` owe in `token`.
pub open spec fn owed_below(streams: Map<u64, Stream>, token: AccountId, n: nat) -> int
    decreases n,
{
    if n == 0 {
        0
    } else {
        owed_below(streams, token, (n - 1) as nat) + owed_at(streams, (n - 1) as u64, token)
    }
}

/// What all stored streams owe in `token`.
pub open spec fn total_owed(streams: Map<u64, Stream>, token: AccountId) -> int {
    owed_below(streams, token, u64::MAX as nat + 1)
}

/// The contract's holdings, as moved by the effects in `log`, cover what
/// the streams owe, in every token.
pub open spec fn holdings_cover(log: Seq<Effect>, streams: Map<u64, Stream>) -> bool {
    forall|token: AccountId| #[trigger] net_intake(log, token) >= total_owed(streams, token)
}

pub proof fn lemma_net_intake_append(a: Seq<Effect>, b: Seq<Effect>, token: AccountId)
    ensures
        net_intake(a + b, token) == net_intake(a, token) + net_intake(b, token),
    decreases b.len(),
{
    if b.len() == 0 {
        assert(a + b =~= a);
    } else {
        lemma_net_intake_append(a, b.drop_last(), token);
        assert((a + b).drop_last() =~= a + b.drop_last());
        assert((a + b).last() == b.last());
    }
}

pub proof fn lemma_net_intake_single(e: Effect, token: AccountId)
    ensures
        net_intake(seq![e], token) == effect_flow(e, token),
{
    assert(seq![e].drop_last() =~= Seq::<Effect>::empty());
    assert(net_intake(Seq::<Effect>::empty(), token) == 0);
    assert(seq![e].last() == e);
}

pub proof fn lemma_payout_flow(t: Option<Transfer>, token: AccountId)
    ensures
        net_intake(payout_effects(t), token) == match t {
            Some(t) => if t.token == token { -(t.amount as int) } else { 0 },
            None => 0,
        },
{
    match t {
        Some(x) => lemma_net_intake_single(Effect::Pay(x), token),
        None => {},
    }
}

/// The holdings a plan's effects move: minus its payouts in their token.
pub proof fn lemma_plan_flow(plan: Plan, token: AccountId)
    ensures
        net_intake(plan_effects(plan), token) == (match plan.to_recipient {
            Some(t) => if t.token == token { -(t.amount as int) } else { 0 },
            None => 0,
        }) + (match plan.to_sender {
            Some(t) => if t.token == token { -(t.amount as int) } else { 0 },
            None => 0,
        }),
{
    let head = seq![Effect::Publish(plan.event)];
    lemma_net_intake_single(Effect::Publish(plan.event), token);
    lemma_net_intake_append(head, payout_effects(plan.to_recipient), token);
    lemma_net_intake_append(head + payout_effects(plan.to_recipient), payout_effects(plan.to_sender), token);
    lemma_payout_flow(plan.to_recipient, token);
    lemma_payout_flow(plan.to_sender, token);
}

pub proof fn lemma_owed_below_empty(token: AccountId, n: nat)
    ensures
        owed_below(Map::<u64, Stream>::empty(), token, n) == 0,
    decreases n,
{
    if n > 0 {
        lemma_owed_below_empty(token, (n - 1) as nat);
    }
}

/// Storing `s` under `k` changes what the streams owe by what `s` owes
/// minus what the stream it replaces owed.
pub proof fn lemma_owed_below_insert(streams: Map<u64, Stream>, token: AccountId, n: nat, k: u64, s: Stream)
    requires
        n <= u64::MAX as nat + 1,
    ensures
        owed_below(streams.insert(k, s), token, n) == owed_below(streams, token, n) + (if k < n {
            owed(s, token) - owed_at(streams, k, token)
        } else {
            0
        }),
    decreases n,
{
    if n > 0 {
        lemma_owed_below_insert(streams, token, (n - 1) as nat, k, s);
        let j = (n - 1) as u64;
        assert(j as int == n - 1);
        if j == k {
            assert(streams.insert(k, s).contains_key(j) && streams.insert(k, s)[j] == s);
        } else {
            assert(streams.insert(k, s).contains_key(j) == streams.contains_key(j));
            assert(streams.contains_key(j) ==> streams.insert(k, s)[j] == streams[j]);
        }
    }
}

/// Carrying out a step keeps the holdings covering what is owed when the
/// step's effects bring in, in every token, at least the growth of what
/// the stored stream owes.
pub proof fn lemma_cover_step(
    log: Seq<Effect>,
    streams: Map<u64, Stream>,
    step: Seq<Effect>,
    id: u64,
    s: Stream,
)
    requires
        holdings_cover(log, streams),
        forall|token: AccountId| #[trigger]
            net_intake(step, token) >= owed(s, token) - owed_at(streams, id, token),
    ensures
        holdings_cover(log + step, streams.insert(id, s)),
{
    assert forall|token: AccountId| #[trigger]
        net_intake(log + step, token) >= total_owed(streams.insert(id, s), token) by {
        lemma_net_intake_append(log, step, token);
        lemma_owed_below_insert(streams, token, u64::MAX as nat + 1, id, s);
        assert(net_intake(log, token) >= total_owed(streams, token));
        assert(net_intake(step, token) >= owed(s, token) - owed_at(streams, id, token));
    }
}

/// Opening a stream keeps the holdings covering what is owed, even where
/// its id was already in use (the replaced stream's debt is dropped).
pub proof fn lemma_open_covers(
    log: Seq<Effect>,
    streams: Map<u64, Stream>,
    now: u64,
    id: u64,
    sender: AccountId,
    recipient: AccountId,
    token: AccountId,
    deposit_amount: i128,
    start_time: u64,
    end_time: u64,
    cancelable: bool,
)
    requires
        holdings_cover(log, streams),
        streams.contains_key(id) ==> streams[id].well_formed(),
        admission_outcome(now, sender, token, deposit_amount, start_time, end_time) is Ok,
    ensures
        holdings_cover(
            log + (seq![
                Effect::Pull(
                    admission_outcome(now, sender, token, deposit_amount, start_time, end_time)->Ok_0,
                ),
            ] + plan_effects(
                opening_plan(id, sender, recipient, token, deposit_amount, start_time, end_time, cancelable),
            )),
            streams.insert(
                id,
                opening_plan(id, sender, recipient, token, deposit_amount, start_time, end_time, cancelable).stream,
            ),
        ),
{
    let pull = admission_outcome(now, sender, token, deposit_amount, start_time, end_time)->Ok_0;
    let plan = opening_plan(id, sender, recipient, token, deposit_amount, start_time, end_time, cancelable);
    let step = seq![Effect::Pull(pull)] + plan_effects(plan);
    assert forall|tok: AccountId| #[trigger]
        net_intake(step, tok) >= owed(plan.stream, tok) - owed_at(streams, id, tok) by {
        lemma_net_intake_single(Effect::Pull(pull), tok);
        lemma_plan_flow(plan, tok);
        lemma_net_intake_append(seq![Effect::Pull(pull)], plan_effects(plan), tok);
    }
    lemma_cover_step(log, streams, step, id, plan.stream);
}

/// A withdrawal keeps the holdings covering what is owed.
pub proof fn lemma_withdraw_covers(log: Seq<Effect>, streams: Map<u64, Stream>, now: u64, id: u64, amount: i128)
    requires
        holdings_cover(log, streams),
        streams.contains_key(id),
        withdrawal_outcome(now, streams[id], amount) is Ok,
    ensures
        holdings_cover(
            log + plan_effects(withdrawal_outcome(now, streams[id], amount)->Ok_0),
            streams.insert(id, withdrawal_outcome(now, streams[id], amount)->Ok_0.stream),
        ),
{
    let plan = withdrawal_outcome(now, streams[id], amount)->Ok_0;
    let step = plan_effects(plan);
    assert forall|tok: AccountId| #[trigger]
        net_intake(step, tok) >= owed(plan.stream, tok) - owed_at(streams, id, tok) by {
        lemma_plan_flow(plan, tok);
    }
    lemma_cover_step(log, streams, step, id, plan.stream);
}

/// A cancellation keeps the holdings covering what is owed, provided the
/// recipient had not been paid beyond what has accrued at `now`.
pub proof fn lemma_cancel_covers(
    log: Seq<Effect>,
    streams: Map<u64, Stream>,
    now: u64,
    id: u64,
    caller: AccountId,
)
    requires
        holdings_cover(log, streams),
        streams.contains_key(id),
        streams[id].well_formed(),
        streams[id].withdrawn <= streams[id].streamed(now),
        cancellation_outcome(now, Some(streams[id]), caller) is Ok,
    ensures
        holdings_cover(
            log + plan_effects(cancellation_outcome(now, Some(streams[id]), caller)->Ok_0),
            streams.insert(id, cancellation_outcome(now, Some(streams[id]), caller)->Ok_0.stream),
        ),
{
    let s = streams[id];
    let plan = cancellation_outcome(now, Some(s), caller)->Ok_0;
    let step = plan_effects(plan);
    lemma_streamed_bounds(s.deposit as int, s.window(), s.elapsed(now));
    assert forall|tok: AccountId| #[trigger]
        net_intake(step, tok) >= owed(plan.stream, tok) - owed_at(streams, id, tok) by {
        lemma_plan_flow(plan, tok);
    }
    lemma_cover_step(log, streams, step, id, plan.stream);
}

/// A top-up keeps the holdings covering what is owed.
pub proof fn lemma_top_up_covers(log: Seq<Effect>, streams: Map<u64, Stream>, id: u64, amount: i128)
    requires
        holdings_cover(log, streams),
        streams.contains_key(id),
        streams[id].status != StreamStatus::Cancelled,
        top_up_outcome(streams[id], amount) is Ok,
    ensures
        holdings_cover(
            log + (seq![Effect::Pull(top_up_outcome(streams[id], amount)->Ok_0.0)] + plan_effects(
                top_up_outcome(streams[id], amount)->Ok_0.1,
            )),
            streams.insert(id, top_up_outcome(streams[id], amount)->Ok_0.1.stream),
        ),
{
    let (pull, plan) = top_up_outcome(streams[id], amount)->Ok_0;
    let step = seq![Effect::Pull(pull)] + plan_effects(plan);
    assert forall|tok: AccountId| #[trigger]
        net_intake(step, tok) >= owed(plan.stream, tok) - owed_at(streams, id, tok) by {
        lemma_net_intake_single(Effect::Pull(pull), tok);
        lemma_plan_flow(plan, tok);
        lemma_net_intake_append(seq![Effect::Pull(pull)], plan_effects(plan), tok);
    }
    lemma_cover_step(log, streams, step, id, plan.stream);
}

/// Nothing is owed and nothing held before any effect.
pub proof fn lemma_empty_covers()
    ensures
        holdings_cover(Seq::<Effect>::empty(), Map::<u64, Stream>::empty()),
{
    assert forall|token: AccountId| #[trigger]
        net_intake(Seq::<Effect>::empty(), token) >= total_owed(Map::<u64, Stream>::empty(), token) by {
        lemma_owed_below_empty(token, u64::MAX as nat + 1);
    }
}

/// An authorization check moves no funds.
pub proof fn lemma_auth_keeps_cover(log: Seq<Effect>, streams: Map<u64, Stream>, account: AccountId)
    requires
        holdings_cover(log, streams),
    ensures
        holdings_cover(log.push(Effect::RequireAuth(account)), streams),
{
    assert forall|token: AccountId| #[trigger]
        net_intake(log.push(Effect::RequireAuth(account)), token) >= total_owed(streams, token) by {
        assert(log.push(Effect::RequireAuth(account)).drop_last() =~= log);
        assert(log.push(Effect::RequireAuth(account)).last() == Effect::RequireAuth(account));
        assert(net_intake(log, token) >= total_owed(streams, token));
    }
}

} // verus!
