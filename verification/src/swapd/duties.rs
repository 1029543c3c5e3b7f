//! What the daemon owes each party when its syncers report: at which depths and amounts
//! it publishes, pays, signs and ends a swap.
use vstd::prelude::*;

use crate::base::{
    Blockchain, Error, Outcome, ServiceBus, ServiceId, SwapRole, TaskId, TxLabel, Txid,
};
use crate::blob::{joined, Blob};
use crate::chain::{parsed_transaction, Transaction};
use crate::crypto::{aggregates, viewpair_address, MoneroAddress, Params};
use crate::message::{
    AddressTransaction, BuyProcedureSignature, FundingInfo, Msg, Request, SweepAddress,
    SyncEvent, Task, TaskTarget, TransactionConfirmations, Tx,
};
use crate::swapd::checkpoint::PendingRequest;
use crate::swapd::conduct::held;
use crate::swapd::rpc_msg::{to_wallet, ReactionView};
use crate::swapd::runtime::{Op, RuntimeView};
use crate::swapd::state::{AliceState, BobState, State};
use crate::swapd::steps::{
    lemma_among_five, lemma_among_four, lemma_among_joined, lemma_among_one, lemma_among_two,
};
use crate::swapd::sync_events::{
    abort_tasks, alice_asked, alice_to_lock, all_dropped, bought, final_noted,
    monero_event_admitted, on_bitcoin_event, on_final_buy, on_final_cancel, on_final_lock,
    on_final_punish, on_final_refund, on_monero_event, outcome_told, sweep_outcome, to_btc,
    to_node, to_xmr,
};
use crate::swapd::syncer_client::{abort_every, watches};

verus! {

/// The depth at which a report shows the transaction that is watched under a label, if
/// it is final.
pub open spec fn final_depth(rt: RuntimeView, event: SyncEvent, label: TxLabel) -> Option<u32> {
    match event {
        SyncEvent::TransactionConfirmations(t) => match t.confirmations {
            Some(c) => if rt.syncer.watched_txs.dom().contains(t.id)
                && rt.syncer.watched_txs[t.id] == label && rt.temporal_safety.btc_finality_thr
                <= c {
                Some(c)
            } else {
                None
            },
            None => None,
        },
        _ => None,
    }
}

/// Whether Alice has signed, has neither locked her monero nor published the buy, and
/// does not watch the shared address yet: then she is to lock.
pub open spec fn alice_must_lock(rt: RuntimeView) -> bool {
    &&& rt.state matches State::Alice(
        AliceState::RefundSigA { xmr_locked: false, buy_published: false, .. },
    )
    &&& forall|id: TaskId| #[trigger]
        rt.syncer.watched_addrs.dom().contains(id) ==> rt.syncer.watched_addrs[id]
            != TxLabel::AccLock
}

/// Whether the lock is out, nobody has cancelled it, and the bitcoin are not on their
/// way to Alice.
pub open spec fn cancellable(state: State) -> bool {
    match state {
        State::Alice(AliceState::RefundSigA { buy_published, cancel_seen, .. }) => !buy_published
            && !cancel_seen,
        State::Bob(BobState::CorearbB { cancel_seen, .. }) => !cancel_seen,
        State::Bob(BobState::BuySigB { buy_tx_seen }) => !buy_tx_seen,
        _ => false,
    }
}

/// Whether the daemon has to cancel: the lock is final and as deep as the cancel's
/// timelock.
pub open spec fn must_cancel(rt: RuntimeView, event: SyncEvent) -> bool {
    &&& final_depth(rt, event, TxLabel::Lock) matches Some(c)
    &&& rt.temporal_safety.cancel_timelock <= c
    &&& cancellable(rt.state)
    &&& rt.txs.dom().contains(TxLabel::Cancel)
    &&& !alice_must_lock(rt)
}

/// Whether Alice has to buy: the lock is final, and at least the race threshold away
/// from the cancel's timelock.
pub open spec fn must_buy(rt: RuntimeView, event: SyncEvent) -> bool {
    &&& final_depth(rt, event, TxLabel::Lock) matches Some(c)
    &&& c + rt.temporal_safety.race_thr <= rt.temporal_safety.cancel_timelock
    &&& rt.state matches State::Alice(
        AliceState::RefundSigA { buy_published: false, cancel_seen: false, .. },
    )
    &&& rt.txs.dom().contains(TxLabel::Buy)
    &&& !alice_must_lock(rt)
    &&& !must_cancel(rt, event)
}

/// Whether Alice has to punish: the cancel is final and as deep as the punish's
/// timelock, her monero are locked, and Bob has not taken his refund.
pub open spec fn must_punish(rt: RuntimeView, event: SyncEvent) -> bool {
    &&& final_depth(rt, event, TxLabel::Cancel) matches Some(c)
    &&& rt.temporal_safety.punish_timelock <= c
    &&& rt.state matches State::Alice(
        AliceState::RefundSigA { xmr_locked: true, refund_seen: false, .. },
    )
    &&& rt.txs.dom().contains(TxLabel::Punish)
}

/// Whether Bob has to take his refund: the cancel is final, and at least the race
/// threshold away from the punish's timelock.
pub open spec fn must_refund(rt: RuntimeView, event: SyncEvent) -> bool {
    &&& final_depth(rt, event, TxLabel::Cancel) matches Some(c)
    &&& c + rt.temporal_safety.race_thr <= rt.temporal_safety.punish_timelock
    &&& (rt.state matches State::Bob(BobState::CorearbB { .. })) || (rt.state matches State::Bob(
        BobState::BuySigB { .. },
    ))
    &&& rt.txs.dom().contains(TxLabel::Refund)
}

proof fn lemma_noted(rt: RuntimeView, t: TransactionConfirmations, label: TxLabel, op: Op)
    ensures
        final_noted(rt, t, label).contains(op) <==> {
            ||| op == Op::NoteConfs(t.id, t.confirmations, rt.temporal_safety.btc_finality_thr)
            ||| label == TxLabel::Lock && op == Op::KeepLockConfs(t)
            ||| label == TxLabel::Cancel && op == Op::KeepCancelConfs(t)
            ||| label == TxLabel::Cancel && op == Op::EnterState(rt.state.sup_cancel_seen())
        },
{
    let note = Op::NoteConfs(t.id, t.confirmations, rt.temporal_safety.btc_finality_thr);
    lemma_among_one(note, op);
    lemma_among_one(Op::KeepLockConfs(t), op);
    lemma_among_two(Op::KeepCancelConfs(t), Op::EnterState(rt.state.sup_cancel_seen()), op);
    lemma_among_joined(seq![note], seq![Op::KeepLockConfs(t)], op);
    lemma_among_joined(
        seq![note],
        seq![Op::KeepCancelConfs(t), Op::EnterState(rt.state.sup_cancel_seen())],
        op,
    );
}

/// A word to the wallet or to the node of how a swap ended.
spec fn tells_outcome(op: Op, outcome: Outcome) -> bool {
    ||| op == Op::Send(ServiceBus::Ctl, ServiceId::Wallet, Request::SwapOutcome(outcome))
    ||| op == Op::Send(ServiceBus::Ctl, ServiceId::Farcasterd, Request::SwapOutcome(outcome))
}

/// The order to a syncer to end all tasks.
spec fn ends_tasks(rt: RuntimeView, op: Op) -> bool {
    let all = Request::SyncerTask(
        Task::Abort { task_target: TaskTarget::AllTasks, respond: false },
    );
    ||| op == Op::Send(
        ServiceBus::Ctl,
        ServiceId::Syncer(Blockchain::Monero, rt.syncer.network),
        all,
    )
    ||| op == Op::Send(
        ServiceBus::Ctl,
        ServiceId::Syncer(Blockchain::Bitcoin, rt.syncer.network),
        all,
    )
}

proof fn lemma_ended(rt: RuntimeView, outcome: Outcome, op: Op)
    ensures
        abort_tasks(rt).contains(op) <==> ends_tasks(rt, op),
        outcome_told(outcome).contains(op) <==> tells_outcome(op, outcome),
        all_dropped().contains(op) <==> (op matches Op::DropTx(label) && (label == TxLabel::Lock
            || label == TxLabel::Cancel || label == TxLabel::Refund || label == TxLabel::Buy
            || label == TxLabel::Punish)),
{
    lemma_among_two(to_xmr(rt, abort_every()), to_btc(rt, abort_every()), op);
    lemma_among_two(
        to_wallet(ServiceBus::Ctl, Request::SwapOutcome(outcome)),
        to_node(Request::SwapOutcome(outcome)),
        op,
    );
    lemma_among_five(
        Op::DropTx(TxLabel::Lock),
        Op::DropTx(TxLabel::Cancel),
        Op::DropTx(TxLabel::Refund),
        Op::DropTx(TxLabel::Buy),
        Op::DropTx(TxLabel::Punish),
        op,
    );
}

/// A step about a final lock, for one who is not to lock monero first.
spec fn lock_step(rt: RuntimeView, event: SyncEvent, op: Op) -> bool {
    ||| must_cancel(rt, event) && op == Op::Broadcast(rt.txs[TxLabel::Cancel])
    ||| must_buy(rt, event) && (op == Op::Broadcast(rt.txs[TxLabel::Buy]) || op == Op::EnterState(
        bought(rt.state),
    ))
    ||| must_stop_funding(rt, event) && (op == Op::AwaitFunding(false) || op == Op::Send(
        ServiceBus::Ctl,
        ServiceId::Farcasterd,
        Request::FundingCanceled(Blockchain::Monero),
    ))
}

/// Whether Alice's client has to be told that monero are no longer wanted: the lock is
/// final and closer than the race threshold to the cancel's timelock.
pub open spec fn must_stop_funding(rt: RuntimeView, event: SyncEvent) -> bool {
    &&& final_depth(rt, event, TxLabel::Lock) matches Some(c)
    &&& rt.temporal_safety.cancel_timelock < c + rt.temporal_safety.race_thr
    &&& rt.state matches State::Alice(
        AliceState::RefundSigA { buy_published: false, cancel_seen: false, .. },
    )
    &&& rt.syncer.awaiting_funding
    &&& !alice_must_lock(rt)
    &&& !must_cancel(rt, event)
}

proof fn lemma_lock_final(rt: RuntimeView, event: SyncEvent, c: u32, op: Op)
    requires
        final_depth(rt, event, TxLabel::Lock) == Some(c),
        !alice_must_lock(rt),
    ensures
        on_final_lock(rt, c).contains(op) <==> lock_step(rt, event, op),
{
    lemma_among_one(Op::Broadcast(rt.txs[TxLabel::Cancel]), op);
    lemma_among_two(
        Op::Broadcast(rt.txs[TxLabel::Buy]),
        Op::EnterState(bought(rt.state)),
        op,
    );
    lemma_among_two(
        Op::AwaitFunding(false),
        to_node(Request::FundingCanceled(Blockchain::Monero)),
        op,
    );
}

/// Whether the swap is over for Alice: the cancel is final, and she has not locked.
pub open spec fn alice_unlocked_cancel(rt: RuntimeView, event: SyncEvent) -> bool {
    &&& final_depth(rt, event, TxLabel::Cancel) is Some
    &&& rt.state is Alice
    &&& !(rt.state matches State::Alice(AliceState::RefundSigA { xmr_locked: true, .. }))
}

spec fn cancel_step(rt: RuntimeView, event: SyncEvent, op: Op) -> bool {
    ||| must_punish(rt, event) && (op == Op::Broadcast(rt.txs[TxLabel::Punish]) || op
        == Op::EnsureBtcTx(TxLabel::Punish, rt.txs[TxLabel::Punish].id()))
    ||| must_refund(rt, event) && op == Op::Broadcast(rt.txs[TxLabel::Refund])
    ||| alice_unlocked_cancel(rt, event) && {
        ||| rt.syncer.awaiting_funding && (op == Op::AwaitFunding(false) || op == Op::Send(
            ServiceBus::Ctl,
            ServiceId::Farcasterd,
            Request::FundingCanceled(Blockchain::Monero),
        ))
        ||| op == Op::UpdateState(State::Alice(AliceState::FinishA(Outcome::FailureRefund)))
        ||| ends_tasks(rt, op)
        ||| tells_outcome(op, Outcome::FailureRefund)
        ||| op == Op::DropTx(TxLabel::Lock)
        ||| op == Op::DropTx(TxLabel::Buy)
        ||| op == Op::DropTx(TxLabel::Cancel)
        ||| op == Op::DropTx(TxLabel::Punish)
    }
}

proof fn lemma_cancel_final(rt: RuntimeView, event: SyncEvent, c: u32, op: Op)
    requires
        final_depth(rt, event, TxLabel::Cancel) == Some(c),
    ensures
        ({
            let seen = RuntimeView { state: rt.state.sup_cancel_seen(), ..rt };
            on_final_cancel(seen, c).contains(op) <==> cancel_step(rt, event, op)
        }),
{
    let seen = RuntimeView { state: rt.state.sup_cancel_seen(), ..rt };
    lemma_among_two(
        Op::EnsureBtcTx(TxLabel::Punish, rt.txs[TxLabel::Punish].id()),
        Op::Broadcast(rt.txs[TxLabel::Punish]),
        op,
    );
    lemma_among_one(Op::Broadcast(rt.txs[TxLabel::Refund]), op);
    let stopped: Seq<Op> = if rt.syncer.awaiting_funding {
        seq![
            to_node(Request::FundingCanceled(Blockchain::Monero)),
            Op::AwaitFunding(false),
        ]
    } else {
        seq![]
    };
    lemma_among_two(
        to_node(Request::FundingCanceled(Blockchain::Monero)),
        Op::AwaitFunding(false),
        op,
    );
    let over = Op::UpdateState(State::Alice(AliceState::FinishA(Outcome::FailureRefund)));
    let let_go = seq![
        Op::DropTx(TxLabel::Lock),
        Op::DropTx(TxLabel::Buy),
        Op::DropTx(TxLabel::Cancel),
        Op::DropTx(TxLabel::Punish),
    ];
    lemma_among_one(over, op);
    lemma_among_four(
        Op::DropTx(TxLabel::Lock),
        Op::DropTx(TxLabel::Buy),
        Op::DropTx(TxLabel::Cancel),
        Op::DropTx(TxLabel::Punish),
        op,
    );
    lemma_ended(rt, Outcome::FailureRefund, op);
    let told = outcome_told(Outcome::FailureRefund);
    assert(abort_tasks(seen) == abort_tasks(rt));
    lemma_among_joined(stopped, seq![over], op);
    lemma_among_joined(stopped + seq![over], abort_tasks(rt), op);
    lemma_among_joined(stopped + seq![over] + abort_tasks(rt), told, op);
    lemma_among_joined(stopped + seq![over] + abort_tasks(rt) + told, let_go, op);
}

spec fn buy_step(rt: RuntimeView, op: Op) -> bool {
    ||| (rt.state matches State::Alice(AliceState::RefundSigA { buy_published: true, .. })) && {
        ||| op == Op::UpdateState(State::Alice(AliceState::FinishA(Outcome::SuccessSwap)))
        ||| ends_tasks(rt, op)
        ||| tells_outcome(op, Outcome::SuccessSwap)
        ||| op == Op::DropTx(TxLabel::Cancel)
        ||| op == Op::DropTx(TxLabel::Punish)
    }
    ||| rt.state is Bob && rt.syncer.txids.dom().contains(TxLabel::Buy) && op == Op::RetrieveTx(
        TxLabel::Buy,
    )
}

proof fn lemma_buy_final(rt: RuntimeView, op: Op)
    ensures
        on_final_buy(rt).contains(op) <==> buy_step(rt, op),
{
    let over = Op::UpdateState(State::Alice(AliceState::FinishA(Outcome::SuccessSwap)));
    lemma_among_one(over, op);
    lemma_among_one(Op::RetrieveTx(TxLabel::Buy), op);
    lemma_ended(rt, Outcome::SuccessSwap, op);
    lemma_among_two(Op::DropTx(TxLabel::Cancel), Op::DropTx(TxLabel::Punish), op);
    let told = outcome_told(Outcome::SuccessSwap);
    lemma_among_joined(seq![over], abort_tasks(rt), op);
    lemma_among_joined(seq![over] + abort_tasks(rt), told, op);
    lemma_among_joined(
        seq![over] + abort_tasks(rt) + told,
        seq![Op::DropTx(TxLabel::Cancel), Op::DropTx(TxLabel::Punish)],
        op,
    );
}

/// Alice's state once she has seen Bob's refund.
spec fn refund_noticed(state: State, to: State) -> bool {
    match state {
        State::Alice(
            AliceState::RefundSigA {
                local_params,
                remote_params,
                xmr_locked,
                buy_published,
                cancel_seen,
                refund_seen,
            },
        ) => to == State::Alice(
            AliceState::RefundSigA {
                local_params,
                remote_params,
                xmr_locked,
                buy_published,
                cancel_seen,
                refund_seen: true,
            },
        ),
        _ => to == state,
    }
}

spec fn refund_step(rt: RuntimeView, op: Op) -> bool {
    match rt.state {
        State::Alice(a) => !(a matches AliceState::RefundSigA { refund_seen: true, .. })
            && rt.syncer.txids.dom().contains(TxLabel::Refund) && (op == Op::RetrieveTx(
            TxLabel::Refund,
        ) || (op matches Op::EnterState(to) && refund_noticed(rt.state, to))),
        State::Bob(_) => {
            ||| ends_tasks(rt, op)
            ||| op == Op::UpdateState(State::Bob(BobState::FinishB(Outcome::FailureRefund)))
            ||| tells_outcome(op, Outcome::FailureRefund)
            ||| (op matches Op::DropTx(label) && label != TxLabel::Funding && label
                != TxLabel::AccLock)
        },
    }
}

proof fn lemma_refund_final(rt: RuntimeView, op: Op)
    ensures
        on_final_refund(rt).contains(op) <==> refund_step(rt, op),
{
    lemma_among_two(
        Op::EnterState(rt.state.a_sup_refundsig_refund_seen()),
        Op::RetrieveTx(TxLabel::Refund),
        op,
    );
    let over = Op::UpdateState(State::Bob(BobState::FinishB(Outcome::FailureRefund)));
    let told = outcome_told(Outcome::FailureRefund);
    lemma_among_one(over, op);
    lemma_ended(rt, Outcome::FailureRefund, op);
    lemma_among_joined(abort_tasks(rt), seq![over], op);
    lemma_among_joined(abort_tasks(rt) + seq![over], told, op);
    lemma_among_joined(abort_tasks(rt) + seq![over] + told, all_dropped(), op);
}

spec fn punish_step(rt: RuntimeView, op: Op) -> bool {
    ||| ends_tasks(rt, op)
    ||| rt.state is Alice && op == Op::UpdateState(
        State::Alice(AliceState::FinishA(Outcome::FailurePunish)),
    )
    ||| rt.state is Bob && op == Op::UpdateState(
        State::Bob(BobState::FinishB(Outcome::FailurePunish)),
    )
    ||| tells_outcome(op, Outcome::FailurePunish)
    ||| (op matches Op::DropTx(label) && label != TxLabel::Funding && label != TxLabel::AccLock)
}

proof fn lemma_punish_final(rt: RuntimeView, op: Op)
    ensures
        on_final_punish(rt).contains(op) <==> punish_step(rt, op),
{
    let over = Op::UpdateState(
        match rt.state.swap_role() {
            SwapRole::Alice => State::Alice(AliceState::FinishA(Outcome::FailurePunish)),
            SwapRole::Bob => State::Bob(BobState::FinishB(Outcome::FailurePunish)),
        },
    );
    let told = outcome_told(Outcome::FailurePunish);
    lemma_among_one(over, op);
    lemma_ended(rt, Outcome::FailurePunish, op);
    lemma_among_joined(abort_tasks(rt), seq![over], op);
    lemma_among_joined(abort_tasks(rt) + seq![over], told, op);
    lemma_among_joined(abort_tasks(rt) + seq![over] + told, all_dropped(), op);
}

/// The steps about a transaction on the bitcoin chain, but for those with which Alice is
/// asked for monero.
spec fn depth_step(rt: RuntimeView, t: TransactionConfirmations, op: Op) -> bool {
    let event = SyncEvent::TransactionConfirmations(t);
    ||| op == Op::NoteConfs(t.id, t.confirmations, rt.temporal_safety.btc_finality_thr)
    ||| final_depth(rt, event, TxLabel::Lock) is Some && (op == Op::KeepLockConfs(t) || lock_step(
        rt,
        event,
        op,
    ))
    ||| final_depth(rt, event, TxLabel::Cancel) is Some && (op == Op::KeepCancelConfs(t) || op
        == Op::EnterState(rt.state.sup_cancel_seen()) || cancel_step(rt, event, op))
    ||| final_depth(rt, event, TxLabel::Buy) is Some && buy_step(rt, op)
    ||| final_depth(rt, event, TxLabel::Refund) is Some && refund_step(rt, op)
    ||| final_depth(rt, event, TxLabel::Punish) is Some && punish_step(rt, op)
}

/// A step with which Alice is asked for monero.
spec fn asks_alice(op: Op) -> bool {
    ||| op == Op::AwaitFunding(true)
    ||| op matches Op::Send(_, _, Request::FundingInfo(_))
    ||| op is EnsureXmrAddr
}

proof fn lemma_asked(
    rt: RuntimeView,
    spend: [u8; 32],
    view: [u8; 32],
    address: MoneroAddress,
    op: Op,
)
    ensures
        alice_asked(rt, spend, view, address).contains(op) ==> asks_alice(op),
{
    let ops = alice_asked(rt, spend, view, address);
    if ops.contains(op) {
        let k = choose|k: int| 0 <= k < ops.len() && ops[k] == op;
        assert(ops[k] == op);
    }
}

proof fn lemma_alice_funds(
    rt: RuntimeView,
    t: TransactionConfirmations,
    c: u32,
    r: ReactionView,
    op: Op,
)
    requires
        on_bitcoin_event(rt, SyncEvent::TransactionConfirmations(t), r),
        final_depth(rt, SyncEvent::TransactionConfirmations(t), TxLabel::Lock) == Some(c),
        alice_must_lock(rt),
    ensures
        !asks_alice(op) ==> (r.ops.contains(op) <==> depth_step(rt, t, op)),
{
    assert(alice_to_lock(rt));
    let before = final_noted(rt, t, TxLabel::Lock);
    lemma_noted(rt, t, TxLabel::Lock, op);
    if let (Some(Params::Alice(alice)), Some(Params::Bob(bob))) = (
        rt.state.local_params(),
        rt.state.remote_params(),
    ) {
        if r.ops != before {
            let (spend, view, address) = choose|
                spend: [u8; 32],
                view: [u8; 32],
                address: MoneroAddress,
            |
                {
                    &&& aggregates(Some((spend, view)), rt.swap_id, *alice, *bob)
                    &&& viewpair_address(rt.syncer.network, spend@, view@) == Some(address.0@)
                    &&& r.ops == before + #[trigger] alice_asked(rt, spend, view, address)
                };
            lemma_asked(rt, spend, view, address, op);
            lemma_among_joined(before, alice_asked(rt, spend, view, address), op);
        }
    }
}

proof fn lemma_depth(
    rt: RuntimeView,
    t: TransactionConfirmations,
    r: ReactionView,
    op: Op,
)
    requires
        on_bitcoin_event(rt, SyncEvent::TransactionConfirmations(t), r),
    ensures
        !asks_alice(op) ==> (r.ops.contains(op) <==> depth_step(rt, t, op)),
{
    let event = SyncEvent::TransactionConfirmations(t);
    let note = Op::NoteConfs(t.id, t.confirmations, rt.temporal_safety.btc_finality_thr);
    lemma_among_one(note, op);
    assert(alice_to_lock(rt) == alice_must_lock(rt));
    if let Some(c) = t.confirmations {
        if rt.temporal_safety.btc_finality_thr <= c && rt.syncer.watched_txs.dom().contains(t.id) {
            let label = rt.syncer.watched_txs[t.id];
            let before = final_noted(rt, t, label);
            lemma_noted(rt, t, label, op);
            match label {
                TxLabel::Lock => {
                    if alice_must_lock(rt) {
                        lemma_alice_funds(rt, t, c, r, op);
                    } else {
                        lemma_lock_final(rt, event, c, op);
                        lemma_among_joined(before, on_final_lock(rt, c), op);
                    }
                },
                TxLabel::Cancel => {
                    let seen = RuntimeView { state: rt.state.sup_cancel_seen(), ..rt };
                    lemma_cancel_final(rt, event, c, op);
                    lemma_among_joined(before, on_final_cancel(seen, c), op);
                },
                TxLabel::Buy => {
                    lemma_buy_final(rt, op);
                    lemma_among_joined(before, on_final_buy(rt), op);
                },
                TxLabel::Refund => {
                    lemma_refund_final(rt, op);
                    lemma_among_joined(before, on_final_refund(rt), op);
                },
                TxLabel::Punish => {
                    lemma_punish_final(rt, op);
                    lemma_among_joined(before, on_final_punish(rt), op);
                },
                _ => {},
            }
        }
    }
}

/// Of what the bitcoin syncer reports other than depths.
proof fn lemma_no_depth(rt: RuntimeView, event: SyncEvent, r: ReactionView, op: Op)
    requires
        on_bitcoin_event(rt, event, r),
        !(event is TransactionConfirmations),
    ensures
        r.ops.contains(op) ==> {
            ||| op is NoteHeight
            ||| op == Op::AwaitFunding(false)
            ||| op is ForgetRetrieval
            ||| op is Pause
            ||| op is EnterState && event is TransactionRetrieved
            ||| op matches Op::Send(_, _, request) && (request is FundingCompleted || request is Tx
                || request is SyncerTask && (event matches SyncEvent::TransactionRetrieved {
                tx,
                ..
            } && tx is None))
        },
{
    if r.ops.contains(op) {
        let k = choose|k: int| 0 <= k < r.ops.len() && r.ops[k] == op;
        assert(r.ops[k] == op);
    }
}

/// The daemon publishes exactly what it has to, on word of a final transaction: the
/// cancel, the buy, the punish or the refund. Nothing else that the bitcoin syncer
/// reports makes it publish.
pub proof fn law_daemon_publishes(
    rt: RuntimeView,
    event: SyncEvent,
    r: ReactionView,
    tx: Transaction,
)
    requires
        on_bitcoin_event(rt, event, r),
    ensures
        r.ops.contains(Op::Broadcast(tx)) <==> {
            ||| must_cancel(rt, event) && held(rt, TxLabel::Cancel, tx)
            ||| must_buy(rt, event) && held(rt, TxLabel::Buy, tx)
            ||| must_punish(rt, event) && held(rt, TxLabel::Punish, tx)
            ||| must_refund(rt, event) && held(rt, TxLabel::Refund, tx)
        },
{
    let op = Op::Broadcast(tx);
    if let SyncEvent::TransactionConfirmations(t) = event {
        lemma_depth(rt, t, r, op);
    } else {
        lemma_no_depth(rt, event, r, op);
    }
}

/// Funding is called off exactly when the lock grows too old for it, or when the cancel
/// is final before Alice has locked.
pub proof fn law_daemon_stops_funding(
    rt: RuntimeView,
    event: SyncEvent,
    r: ReactionView,
    bus: ServiceBus,
    dest: ServiceId,
    chain: Blockchain,
)
    requires
        on_bitcoin_event(rt, event, r),
    ensures
        r.ops.contains(Op::Send(bus, dest, Request::FundingCanceled(chain))) <==> {
            &&& bus == ServiceBus::Ctl
            &&& dest == ServiceId::Farcasterd
            &&& chain == Blockchain::Monero
            &&& must_stop_funding(rt, event) || (alice_unlocked_cancel(rt, event)
                && rt.syncer.awaiting_funding)
        },
{
    let op = Op::Send(bus, dest, Request::FundingCanceled(chain));
    if let SyncEvent::TransactionConfirmations(t) = event {
        lemma_depth(rt, t, r, op);
    } else {
        lemma_no_depth(rt, event, r, op);
    }
}

/// How a swap ends on word of a final transaction: Alice's published buy makes it a
/// success, and a cancel before she has locked a refund; Bob's refund makes it a refund
/// for him, and the punish a punishment for both.
pub open spec fn ended_by(rt: RuntimeView, event: SyncEvent) -> Option<State> {
    if final_depth(rt, event, TxLabel::Buy) is Some && (rt.state matches State::Alice(
        AliceState::RefundSigA { buy_published: true, .. },
    )) {
        Some(State::Alice(AliceState::FinishA(Outcome::SuccessSwap)))
    } else if alice_unlocked_cancel(rt, event) {
        Some(State::Alice(AliceState::FinishA(Outcome::FailureRefund)))
    } else if final_depth(rt, event, TxLabel::Refund) is Some && rt.state is Bob {
        Some(State::Bob(BobState::FinishB(Outcome::FailureRefund)))
    } else if final_depth(rt, event, TxLabel::Punish) is Some {
        match rt.state {
            State::Alice(_) => Some(State::Alice(AliceState::FinishA(Outcome::FailurePunish))),
            State::Bob(_) => Some(State::Bob(BobState::FinishB(Outcome::FailurePunish))),
        }
    } else {
        None
    }
}

/// The client hears of a new state exactly when a final transaction has ended the swap.
pub proof fn law_daemon_ends(
    rt: RuntimeView,
    event: SyncEvent,
    r: ReactionView,
    state: State,
)
    requires
        on_bitcoin_event(rt, event, r),
    ensures
        r.ops.contains(Op::UpdateState(state)) <==> ended_by(rt, event) == Some(state),
{
    let op = Op::UpdateState(state);
    if let SyncEvent::TransactionConfirmations(t) = event {
        lemma_depth(rt, t, r, op);
    } else {
        lemma_no_depth(rt, event, r, op);
    }
}

/// The wallet and the node hear how a swap ended exactly when it has.
pub proof fn law_daemon_tells_outcome(
    rt: RuntimeView,
    event: SyncEvent,
    r: ReactionView,
    bus: ServiceBus,
    dest: ServiceId,
    outcome: Outcome,
)
    requires
        on_bitcoin_event(rt, event, r),
    ensures
        r.ops.contains(Op::Send(bus, dest, Request::SwapOutcome(outcome))) <==> {
            &&& bus == ServiceBus::Ctl
            &&& dest == ServiceId::Wallet || dest == ServiceId::Farcasterd
            &&& ended_by(rt, event) == Some(State::Alice(AliceState::FinishA(outcome))) || ended_by(
                rt,
                event,
            ) == Some(State::Bob(BobState::FinishB(outcome)))
        },
{
    let op = Op::Send(bus, dest, Request::SwapOutcome(outcome));
    if let SyncEvent::TransactionConfirmations(t) = event {
        lemma_depth(rt, t, r, op);
    } else {
        lemma_no_depth(rt, event, r, op);
    }
}

/// All tasks of both syncers are ended exactly when the swap is, and no single one is.
pub proof fn law_daemon_ends_tasks(
    rt: RuntimeView,
    event: SyncEvent,
    r: ReactionView,
    bus: ServiceBus,
    dest: ServiceId,
    target: TaskTarget,
    respond: bool,
)
    requires
        on_bitcoin_event(rt, event, r),
    ensures
        event is TransactionConfirmations ==> (r.ops.contains(
            Op::Send(bus, dest, Request::SyncerTask(Task::Abort { task_target: target, respond })),
        ) <==> {
            &&& bus == ServiceBus::Ctl
            &&& dest == ServiceId::Syncer(Blockchain::Monero, rt.syncer.network) || dest
                == ServiceId::Syncer(Blockchain::Bitcoin, rt.syncer.network)
            &&& target == TaskTarget::AllTasks
            &&& !respond
            &&& ended_by(rt, event) is Some
        }),
{
    let op = Op::Send(bus, dest, Request::SyncerTask(Task::Abort { task_target: target, respond }));
    if let SyncEvent::TransactionConfirmations(t) = event {
        lemma_depth(rt, t, r, op);
    } else {
        lemma_no_depth(rt, event, r, op);
    }
}

/// A final buy is fetched for Bob, and for Alice a final refund that she had not seen,
/// if its identifier is known: nothing else is.
pub proof fn law_daemon_fetches(
    rt: RuntimeView,
    event: SyncEvent,
    r: ReactionView,
    label: TxLabel,
)
    requires
        on_bitcoin_event(rt, event, r),
    ensures
        r.ops.contains(Op::RetrieveTx(label)) <==> {
            &&& final_depth(rt, event, label) is Some
            &&& rt.syncer.txids.dom().contains(label)
            &&& match label {
                TxLabel::Buy => rt.state is Bob,
                TxLabel::Refund => rt.state is Alice && !(rt.state matches State::Alice(
                    AliceState::RefundSigA { refund_seen: true, .. },
                )),
                _ => false,
            }
        },
{
    let op = Op::RetrieveTx(label);
    if let SyncEvent::TransactionConfirmations(t) = event {
        lemma_depth(rt, t, r, op);
    } else {
        lemma_no_depth(rt, event, r, op);
    }
}

/// The latest word on the lock and on the cancel is kept exactly when it is that they
/// are final, and every depth is noted as it was reported.
pub proof fn law_daemon_notes_depths(
    rt: RuntimeView,
    event: SyncEvent,
    r: ReactionView,
    t: TransactionConfirmations,
)
    requires
        on_bitcoin_event(rt, event, r),
    ensures
        r.ops.contains(Op::KeepLockConfs(t)) <==> event == SyncEvent::TransactionConfirmations(t)
            && final_depth(rt, event, TxLabel::Lock) is Some,
        r.ops.contains(Op::KeepCancelConfs(t)) <==> event == SyncEvent::TransactionConfirmations(t)
            && final_depth(rt, event, TxLabel::Cancel) is Some,
        r.ops.contains(
            Op::NoteConfs(t.id, t.confirmations, rt.temporal_safety.btc_finality_thr),
        ) <==> event == SyncEvent::TransactionConfirmations(t),
        !r.ops.contains(Op::KeepBuyConfs(t)),
{
    let lock = Op::KeepLockConfs(t);
    let cancel = Op::KeepCancelConfs(t);
    let buy = Op::KeepBuyConfs(t);
    let note = Op::NoteConfs(t.id, t.confirmations, rt.temporal_safety.btc_finality_thr);
    if let SyncEvent::TransactionConfirmations(reported) = event {
        lemma_depth(rt, reported, r, lock);
        lemma_depth(rt, reported, r, cancel);
        lemma_depth(rt, reported, r, buy);
        lemma_depth(rt, reported, r, note);
    } else {
        lemma_no_depth(rt, event, r, lock);
        lemma_no_depth(rt, event, r, cancel);
        lemma_no_depth(rt, event, r, buy);
        lemma_no_depth(rt, event, r, note);
    }
}

/// Transactions are let go of exactly when the swap has ended: after Alice's buy those
/// with which she could cancel or punish; after a cancel before she has locked all that
/// she holds; and all of them after Bob's refund and after a punish.
pub proof fn law_daemon_lets_go(
    rt: RuntimeView,
    event: SyncEvent,
    r: ReactionView,
    label: TxLabel,
)
    requires
        on_bitcoin_event(rt, event, r),
    ensures
        r.ops.contains(Op::DropTx(label)) <==> {
            ||| final_depth(rt, event, TxLabel::Buy) is Some && ended_by(rt, event) is Some && (label
                == TxLabel::Cancel || label == TxLabel::Punish)
            ||| alice_unlocked_cancel(rt, event) && (label == TxLabel::Lock || label == TxLabel::Buy
                || label == TxLabel::Cancel || label == TxLabel::Punish)
            ||| (final_depth(rt, event, TxLabel::Refund) is Some || final_depth(
                rt,
                event,
                TxLabel::Punish,
            ) is Some) && ended_by(rt, event) is Some && (label == TxLabel::Lock || label
                == TxLabel::Cancel || label == TxLabel::Refund || label == TxLabel::Buy || label
                == TxLabel::Punish)
        },
{
    let op = Op::DropTx(label);
    if let SyncEvent::TransactionConfirmations(t) = event {
        lemma_depth(rt, t, r, op);
    } else {
        lemma_no_depth(rt, event, r, op);
    }
}

/// Alice's state in which something more has come about, all else being equal.
pub open spec fn alice_moved(
    from: State,
    to: State,
    buys: bool,
    sees_cancel: bool,
    sees_refund: bool,
) -> bool {
    from matches State::Alice(
        AliceState::RefundSigA {
            local_params,
            remote_params,
            xmr_locked,
            buy_published,
            cancel_seen,
            refund_seen,
        },
    ) && to == State::Alice(
        AliceState::RefundSigA {
            local_params,
            remote_params,
            xmr_locked,
            buy_published: buy_published || buys,
            cancel_seen: cancel_seen || sees_cancel,
            refund_seen: refund_seen || sees_refund,
        },
    )
}

/// A silent change of state is one of these: Alice has published her buy; a party sees a
/// final cancel; Alice sees a final refund.
pub proof fn law_daemon_moves_on(rt: RuntimeView, event: SyncEvent, r: ReactionView, state: State)
    requires
        on_bitcoin_event(rt, event, r),
        event is TransactionConfirmations,
        rt.state matches State::Alice(AliceState::RefundSigA { .. }),
        !(rt.state matches State::Alice(AliceState::RefundSigA { refund_seen: true, .. })),
    ensures
        r.ops.contains(Op::EnterState(state)) <==> {
            ||| must_buy(rt, event) && alice_moved(rt.state, state, true, false, false)
            ||| final_depth(rt, event, TxLabel::Cancel) is Some && alice_moved(
                rt.state,
                state,
                false,
                true,
                false,
            )
            ||| final_depth(rt, event, TxLabel::Refund) is Some && rt.syncer.txids.dom().contains(
                TxLabel::Refund,
            ) && alice_moved(rt.state, state, false, false, true)
        },
{
    if let SyncEvent::TransactionConfirmations(t) = event {
        lemma_depth(rt, t, r, Op::EnterState(state));
    }
}

/// A final lock makes Alice, who is to lock her monero, ask for the agreed amount and a
/// margin of 20000000000 piconeros, at the address that both parties' keys make on the
/// swap's network, and watch that address; and it fails the request where the keys make
/// no address, or the amount cannot be written.
pub proof fn law_daemon_asks_alice(
    rt: RuntimeView,
    t: TransactionConfirmations,
    r: ReactionView,
    alice: Blob,
    bob: Blob,
)
    requires
        on_bitcoin_event(rt, SyncEvent::TransactionConfirmations(t), r),
        final_depth(rt, SyncEvent::TransactionConfirmations(t), TxLabel::Lock) is Some,
        alice_must_lock(rt),
        rt.state matches State::Alice(AliceState::RefundSigA { local_params, remote_params, .. })
            && local_params == Params::Alice(alice) && remote_params == Params::Bob(bob),
    ensures
        r.result is Ok ==> {
            &&& r.ops.last() matches Op::EnsureXmrAddr(label, spend, view, from_height)
            &&& label == TxLabel::AccLock
            &&& from_height is None
            &&& aggregates(Some((spend, view)), rt.swap_id, alice, bob)
            &&& r.ops[2] == Op::AwaitFunding(true)
            &&& match rt.enquirer {
                Some(enquirer) => r.ops.len() == 5 && (r.ops[3] matches Op::Send(
                    bus,
                    dest,
                    Request::FundingInfo(FundingInfo::Monero(info)),
                ) && bus == ServiceBus::Ctl && dest == enquirer && info.swap_id == rt.swap_id
                    && info.amount == rt.syncer.monero_amount + 20000000000 && viewpair_address(
                    rt.syncer.network,
                    spend@,
                    view@,
                ) == Some(info.address.0@)),
                None => r.ops.len() == 4,
            }
        },
        r.result == Err::<(), Error>(Error::AmountOverflow) ==> rt.syncer.monero_amount
            + 20000000000 > u64::MAX,
        r.result is Err ==> r.ops.len() == 2,
{
    assert(alice_to_lock(rt));
    let before = final_noted(rt, t, TxLabel::Lock);
    assert(before.len() == 2);
    if r.result is Ok {
        let (spend, view, address) = choose|
            spend: [u8; 32],
            view: [u8; 32],
            address: MoneroAddress,
        |
            {
                &&& aggregates(Some((spend, view)), rt.swap_id, alice, bob)
                &&& viewpair_address(rt.syncer.network, spend@, view@) == Some(address.0@)
                &&& r.ops == before + #[trigger] alice_asked(rt, spend, view, address)
            };
        let asked = alice_asked(rt, spend, view, address);
        assert(asked.len() == if rt.enquirer is Some { 3int } else { 2int });
        assert(r.ops[2] == asked[0]);
        assert(r.ops.last() == asked.last());
        if rt.enquirer is Some {
            assert(r.ops[3] == asked[1]);
        }
    }
}

/// A transaction that was fetched goes to the wallet of the party that waits for it:
/// the buy to Bob's, once he has signed it; the refund to Alice's, once her monero are
/// locked. The funding goes to Bob's wallet exactly when it is waited for and paid to the
/// watched address. The wallet hears of no other transaction.
pub proof fn law_daemon_passes_on(
    rt: RuntimeView,
    event: SyncEvent,
    r: ReactionView,
    bus: ServiceBus,
    dest: ServiceId,
    tx: Tx,
)
    requires
        on_bitcoin_event(rt, event, r),
        r.ops.contains(Op::Send(bus, dest, Request::Tx(tx))),
    ensures
        bus == ServiceBus::Ctl,
        dest == ServiceId::Wallet,
        match tx {
            Tx::Buy(t) => (rt.state matches State::Bob(BobState::BuySigB { .. })) && (
            event matches SyncEvent::TransactionRetrieved { id, tx: got } && got == Some(t)
                && rt.syncer.retrieving_txs.dom().contains(id) && rt.syncer.retrieving_txs[id].0
                == TxLabel::Buy),
            Tx::Refund(t) => (rt.state matches State::Alice(
                AliceState::RefundSigA { xmr_locked: true, .. },
            )) && (event matches SyncEvent::TransactionRetrieved { id, tx: got } && got == Some(t)
                && rt.syncer.retrieving_txs.dom().contains(id) && rt.syncer.retrieving_txs[id].0
                == TxLabel::Refund),
            Tx::Funding(t) => event matches SyncEvent::AddressTransaction(a)
                && rt.syncer.watched_addrs.dom().contains(a.id) && rt.syncer.watched_addrs[a.id]
                == TxLabel::Funding && rt.syncer.awaiting_funding && parsed_transaction(
                joined(a.tx@),
            ) == Some((t.encoding()@, t.id().0@)),
            _ => false,
        },
{
    let op = Op::Send(bus, dest, Request::Tx(tx));
    if let SyncEvent::TransactionConfirmations(t) = event {
        lemma_depth(rt, t, r, op);
    } else {
        let k = choose|k: int| 0 <= k < r.ops.len() && r.ops[k] == op;
        assert(r.ops[k] == op);
    }
}

/// What was fetched is forgotten, and goes to the wallet that waits for it; what could
/// not be fetched is asked for again after a pause.
pub proof fn law_daemon_has_fetched(
    rt: RuntimeView,
    id: TaskId,
    tx: Option<Transaction>,
    r: ReactionView,
)
    requires
        on_bitcoin_event(rt, SyncEvent::TransactionRetrieved { id, tx }, r),
    ensures
        r.result is Ok,
        !rt.syncer.retrieving_txs.dom().contains(id) ==> r.ops.len() == 0,
        rt.syncer.retrieving_txs.dom().contains(id) && tx is None ==> r.ops.len() == 2 && r.ops[0]
            == Op::Pause && r.ops[1] == Op::Send(
            ServiceBus::Ctl,
            ServiceId::Syncer(Blockchain::Bitcoin, rt.syncer.network),
            Request::SyncerTask(rt.syncer.retrieving_txs[id].1),
        ),
        rt.syncer.retrieving_txs.dom().contains(id) ==> (tx matches Some(t) ==> {
            &&& r.ops.len() > 0
            &&& r.ops[0] == Op::ForgetRetrieval(id)
            &&& rt.syncer.retrieving_txs[id].0 == TxLabel::Buy && (rt.state matches State::Bob(
                BobState::BuySigB { .. },
            )) ==> r.ops.len() == 3 && r.ops[1] == Op::EnterState(
                State::Bob(BobState::BuySigB { buy_tx_seen: true }),
            ) && r.ops[2] == Op::Send(
                ServiceBus::Ctl,
                ServiceId::Wallet,
                Request::Tx(Tx::Buy(t)),
            )
            &&& rt.syncer.retrieving_txs[id].0 == TxLabel::Refund && (rt.state matches State::Alice(
                AliceState::RefundSigA { xmr_locked: true, .. },
            )) ==> r.ops.len() == 2 && r.ops[1] == Op::Send(
                ServiceBus::Ctl,
                ServiceId::Wallet,
                Request::Tx(Tx::Refund(t)),
            )
        }),
{
}

/// Bob's funding is taken exactly when it comes in a transaction that can be read, at the
/// watched address, while it is waited for: then it is waited for no more, and node and
/// wallet hear of it. Another payment is passed over.
pub proof fn law_daemon_takes_funding(rt: RuntimeView, a: AddressTransaction, r: ReactionView)
    requires
        on_bitcoin_event(rt, SyncEvent::AddressTransaction(a), r),
    ensures
        parsed_transaction(joined(a.tx@)) is None ==> r.ops.len() == 0 && r.result == Err::<
            (),
            Error,
        >(Error::MalformedTransaction),
        parsed_transaction(joined(a.tx@)) is Some ==> r.result is Ok && if rt.syncer.awaiting_funding
            && rt.syncer.watched_addrs.dom().contains(a.id) && rt.syncer.watched_addrs[a.id]
            == TxLabel::Funding {
            &&& r.ops.len() == 3
            &&& r.ops[0] == Op::AwaitFunding(false)
            &&& r.ops[1] == Op::Send(
                ServiceBus::Ctl,
                ServiceId::Farcasterd,
                Request::FundingCompleted(Blockchain::Bitcoin),
            )
            &&& r.ops[2] matches Op::Send(bus, dest, Request::Tx(Tx::Funding(tx)))
            &&& bus == ServiceBus::Ctl
            &&& dest == ServiceId::Wallet
            &&& parsed_transaction(joined(a.tx@)) == Some((tx.encoding()@, tx.id().0@))
        } else {
            r.ops.len() == 0
        },
{
}

/// The last request that waits for the monero syncer, if any wait.
pub open spec fn last_waiting(rt: RuntimeView) -> Option<(PendingRequest, nat)> {
    let monero = ServiceId::Syncer(Blockchain::Monero, rt.syncer.network);
    if rt.pending_requests.dom().contains(monero) {
        Some((rt.pending_requests[monero].last(), rt.pending_requests[monero].len()))
    } else {
        None
    }
}

/// Bob's signature on the buy goes out exactly when Alice's monero are reported as deep
/// as their finality threshold, before any cancel, and it alone waits for that; Bob's
/// state then says that he has signed.
pub proof fn law_daemon_releases_signature(
    rt: RuntimeView,
    event: SyncEvent,
    bus: ServiceBus,
    dest: ServiceId,
    signature: BuyProcedureSignature,
)
    ensures
        on_monero_event(rt, event).contains(
            Op::Send(bus, dest, Request::Protocol(Msg::BuyProcedureSignature(signature))),
        ) <==> {
            &&& event matches SyncEvent::TransactionConfirmations(t)
            &&& t.confirmations matches Some(c)
            &&& rt.temporal_safety.xmr_finality_thr <= c
            &&& rt.state matches State::Bob(BobState::CorearbB { cancel_seen: false, .. })
            &&& last_waiting(rt) == Some(
                (
                    PendingRequest {
                        dest,
                        bus_id: bus,
                        request: Request::Protocol(Msg::BuyProcedureSignature(signature)),
                    },
                    1nat,
                ),
            )
            &&& bus == ServiceBus::Msg
        },
        on_monero_event(rt, event).contains(
            Op::Send(bus, dest, Request::Protocol(Msg::BuyProcedureSignature(signature))),
        ) ==> on_monero_event(rt, event).contains(
            Op::UpdateState(State::Bob(BobState::BuySigB { buy_tx_seen: false })),
        ) && on_monero_event(rt, event).contains(
            Op::DropDeferred(ServiceId::Syncer(Blockchain::Monero, rt.syncer.network)),
        ),
{
    let ops = on_monero_event(rt, event);
    let op = Op::Send(bus, dest, Request::Protocol(Msg::BuyProcedureSignature(signature)));
    if ops.contains(op) {
        let k = choose|k: int| 0 <= k < ops.len() && ops[k] == op;
        assert(ops[k] == op);
    }
    if ops.len() == 3 && event is TransactionConfirmations {
        assert(ops.contains(ops[0]));
        assert(ops.contains(ops[1]));
        assert(ops.contains(ops[2]));
    }
}

/// The sweep of the monero that waits is sent exactly when a transaction is reported at
/// a depth at which monero can be spent, to Bob who has signed or to Alice whose monero
/// are locked, from the height of that transaction.
pub proof fn law_daemon_sweeps(
    rt: RuntimeView,
    event: SyncEvent,
    bus: ServiceBus,
    dest: ServiceId,
    sweep: SweepAddress,
)
    ensures
        on_monero_event(rt, event).contains(
            Op::Send(bus, dest, Request::SyncerTask(Task::SweepAddress(sweep))),
        ) <==> {
            &&& event matches SyncEvent::TransactionConfirmations(t)
            &&& t.confirmations matches Some(c)
            &&& rt.temporal_safety.sweep_monero_thr <= c
            &&& (rt.state matches State::Bob(BobState::BuySigB { .. })) || (rt.state matches State::Alice(
                AliceState::RefundSigA { xmr_locked: true, .. },
            ))
            &&& bus == ServiceBus::Ctl
            &&& last_waiting(rt) matches Some((waiting, _))
            &&& waiting.dest == dest
            &&& waiting.bus_id == ServiceBus::Ctl
            &&& waiting.request matches Request::SyncerTask(Task::SweepAddress(task))
            &&& sweep.id == task.id
            &&& sweep.lifetime == task.lifetime
            &&& sweep.retry == task.retry
            &&& sweep.addendum == task.addendum
            &&& sweep.from_height == Some((rt.syncer.monero_height - c) as u64)
        },
{
    let ops = on_monero_event(rt, event);
    let op = Op::Send(bus, dest, Request::SyncerTask(Task::SweepAddress(sweep)));
    if ops.contains(op) {
        let k = choose|k: int| 0 <= k < ops.len() && ops[k] == op;
        assert(ops[k] == op);
    }
    if ops.len() == 2 && event is TransactionConfirmations {
        assert(ops.contains(ops[1]));
    }
}

/// A payment to a watched monero address is taken for Alice's lock by Bob exactly if it
/// is of at least the agreed amount: then its transaction is watched in place of the
/// address.
pub proof fn law_daemon_sees_monero_as_bob(rt: RuntimeView, a: AddressTransaction)
    requires
        rt.state is Bob,
        rt.syncer.watched_addrs.dom().contains(a.id),
        rt.syncer.watched_addrs[a.id] == TxLabel::AccLock,
    ensures
        ({
            let ops = on_monero_event(rt, SyncEvent::AddressTransaction(a));
            if rt.syncer.monero_amount <= a.amount {
                &&& ops.len() == 3
                &&& ops[0] == Op::UnwatchAddr(a.id)
                &&& ops[1] == Op::EnsureXmrTx(TxLabel::AccLock, a.hash)
                &&& ops[2] == Op::Send(
                    ServiceBus::Ctl,
                    ServiceId::Syncer(Blockchain::Monero, rt.syncer.network),
                    Request::SyncerTask(
                        Task::Abort { task_target: TaskTarget::TaskId(a.id), respond: false },
                    ),
                )
            } else {
                ops.len() == 0
            }
        }),
{
    assert(watches(rt.syncer.watched_addrs, TxLabel::AccLock));
}

/// Alice, who has signed and has not locked, takes any payment to a watched monero
/// address for her lock: her state says so, the node hears that the funding is complete
/// if it was waited for, its transaction is watched unless one is, and the address no
/// longer is.
pub proof fn law_daemon_sees_monero_as_alice(rt: RuntimeView, a: AddressTransaction)
    requires
        rt.state matches State::Alice(AliceState::RefundSigA { .. }),
        rt.syncer.watched_addrs.dom().contains(a.id),
    ensures
        ({
            let ops = on_monero_event(rt, SyncEvent::AddressTransaction(a));
            rt.state matches State::Alice(
                AliceState::RefundSigA {
                    local_params,
                    remote_params,
                    xmr_locked,
                    buy_published,
                    cancel_seen,
                    refund_seen,
                },
            ) && if xmr_locked {
                ops.len() == 0
            } else {
                &&& ops.len() >= 3
                &&& ops[0] == Op::EnterState(
                    State::Alice(
                        AliceState::RefundSigA {
                            local_params,
                            remote_params,
                            xmr_locked: true,
                            buy_published,
                            cancel_seen,
                            refund_seen,
                        },
                    ),
                )
                &&& ops[ops.len() - 2] == Op::UnwatchAddr(a.id)
                &&& ops[ops.len() - 1] == Op::Send(
                    ServiceBus::Ctl,
                    ServiceId::Syncer(Blockchain::Monero, rt.syncer.network),
                    Request::SyncerTask(
                        Task::Abort { task_target: TaskTarget::TaskId(a.id), respond: false },
                    ),
                )
                &&& ops.len() == if watches(rt.syncer.watched_txs, TxLabel::AccLock) {
                    3int
                } else if rt.syncer.awaiting_funding {
                    6int
                } else {
                    4int
                }
                &&& ops.len() >= 4 ==> ops[ops.len() - 3] == Op::EnsureXmrTx(
                    TxLabel::AccLock,
                    a.hash,
                )
                &&& ops.len() == 6 ==> ops[1] == Op::Send(
                    ServiceBus::Ctl,
                    ServiceId::Farcasterd,
                    Request::FundingCompleted(Blockchain::Monero),
                ) && ops[2] == Op::AwaitFunding(false)
            }
        }),
{
}

/// How a swap ends whose sweep has succeeded: Bob, who has signed, has bought; Alice,
/// who has seen Bob's refund, has her monero back.
pub open spec fn swept_into(rt: RuntimeView, event: SyncEvent) -> Option<State> {
    match event {
        SyncEvent::SweepSuccess { id } => if rt.syncer.sweeping_addr != Some(id) {
            None
        } else {
            match rt.state {
                State::Bob(BobState::BuySigB { .. }) => Some(
                    State::Bob(BobState::FinishB(Outcome::SuccessSwap)),
                ),
                State::Alice(
                    AliceState::RefundSigA { xmr_locked: true, refund_seen: true, .. },
                ) => Some(State::Alice(AliceState::FinishA(Outcome::FailureRefund))),
                _ => None,
            }
        },
        _ => None,
    }
}

/// A swap ends on word of the monero syncer exactly when the sweep under way has
/// succeeded: the client, the wallet and the node hear how.
pub proof fn law_daemon_has_swept(
    rt: RuntimeView,
    event: SyncEvent,
    outcome: Outcome,
)
    ensures
        on_monero_event(rt, event).contains(
            Op::UpdateState(State::Bob(BobState::FinishB(outcome))),
        ) <==> swept_into(rt, event) == Some(State::Bob(BobState::FinishB(outcome))),
        on_monero_event(rt, event).contains(
            Op::UpdateState(State::Alice(AliceState::FinishA(outcome))),
        ) <==> swept_into(rt, event) == Some(State::Alice(AliceState::FinishA(outcome))),
        on_monero_event(rt, event).contains(
            Op::Send(ServiceBus::Ctl, ServiceId::Wallet, Request::SwapOutcome(outcome)),
        ) <==> swept_into(rt, event) == Some(State::Alice(AliceState::FinishA(outcome)))
            || swept_into(rt, event) == Some(State::Bob(BobState::FinishB(outcome))),
        on_monero_event(rt, event).contains(
            Op::Send(ServiceBus::Ctl, ServiceId::Farcasterd, Request::SwapOutcome(outcome)),
        ) <==> swept_into(rt, event) == Some(State::Alice(AliceState::FinishA(outcome)))
            || swept_into(rt, event) == Some(State::Bob(BobState::FinishB(outcome))),
{
    lemma_swept(rt, event, Op::UpdateState(State::Bob(BobState::FinishB(outcome))));
    lemma_swept(rt, event, Op::UpdateState(State::Alice(AliceState::FinishA(outcome))));
    lemma_swept(
        rt,
        event,
        Op::Send(ServiceBus::Ctl, ServiceId::Wallet, Request::SwapOutcome(outcome)),
    );
    lemma_swept(
        rt,
        event,
        Op::Send(ServiceBus::Ctl, ServiceId::Farcasterd, Request::SwapOutcome(outcome)),
    );
}

proof fn lemma_swept(rt: RuntimeView, event: SyncEvent, op: Op)
    ensures
        (op matches Op::UpdateState(state) && !(state matches State::Bob(BobState::BuySigB { .. })))
            || (op matches Op::Send(_, _, Request::SwapOutcome(_))) ==> (on_monero_event(
            rt,
            event,
        ).contains(op) <==> (swept_into(rt, event) matches Some(state) && {
            ||| op == Op::UpdateState(state)
            ||| state matches State::Bob(BobState::FinishB(outcome)) && tells_outcome(op, outcome)
            ||| state matches State::Alice(AliceState::FinishA(outcome)) && tells_outcome(
                op,
                outcome,
            )
        })),
{
    let ops = on_monero_event(rt, event);
    if let SyncEvent::SweepSuccess { id } = event {
        let funded: Seq<Op> = if rt.syncer.awaiting_funding {
            seq![
                Op::AwaitFunding(false),
                to_node(
                    Request::FundingCompleted(
                        match rt.state.swap_role() {
                            SwapRole::Alice => Blockchain::Monero,
                            SwapRole::Bob => Blockchain::Bitcoin,
                        },
                    ),
                ),
            ]
        } else {
            seq![]
        };
        if rt.syncer.awaiting_funding {
            lemma_among_two(funded[0], funded[1], op);
        }
        let let_go = seq![
            Op::DropTx(TxLabel::Lock),
            Op::DropTx(TxLabel::Cancel),
            Op::DropTx(TxLabel::Refund),
            Op::DropTx(TxLabel::Punish),
        ];
        lemma_among_four(
            Op::DropTx(TxLabel::Lock),
            Op::DropTx(TxLabel::Cancel),
            Op::DropTx(TxLabel::Refund),
            Op::DropTx(TxLabel::Punish),
            op,
        );
        let ended: Seq<Op> = match sweep_outcome(rt.state) {
            Some((state, outcome)) => seq![Op::UpdateState(state)] + outcome_told(outcome)
                + let_go,
            None => seq![],
        };
        if let Some((state, outcome)) = sweep_outcome(rt.state) {
            lemma_among_one(Op::UpdateState(state), op);
            lemma_ended(rt, outcome, op);
            lemma_among_joined(seq![Op::UpdateState(state)], outcome_told(outcome), op);
            lemma_among_joined(
                seq![Op::UpdateState(state)] + outcome_told(outcome),
                let_go,
                op,
            );
        }
        lemma_ended(rt, Outcome::SuccessSwap, op);
        lemma_among_joined(funded, abort_tasks(rt), op);
        lemma_among_joined(funded + abort_tasks(rt), ended, op);
    } else if ops.contains(op) {
        let k = choose|k: int| 0 <= k < ops.len() && ops[k] == op;
        assert(ops[k] == op);
    }
}

/// A silent change of Bob's state on word of a depth is that he sees a final cancel.
pub proof fn law_daemon_moves_bob_on(
    rt: RuntimeView,
    event: SyncEvent,
    r: ReactionView,
    state: State,
)
    requires
        on_bitcoin_event(rt, event, r),
        event is TransactionConfirmations,
        rt.state is Bob,
    ensures
        r.ops.contains(Op::EnterState(state)) <==> final_depth(rt, event, TxLabel::Cancel) is Some
            && match rt.state {
            State::Bob(BobState::CorearbB { local_params, remote_params, .. }) => state
                == State::Bob(
                BobState::CorearbB { local_params, remote_params, cancel_seen: true },
            ),
            _ => state == rt.state,
        },
{
    if let SyncEvent::TransactionConfirmations(t) = event {
        lemma_depth(rt, t, r, Op::EnterState(state));
    }
}

/// The punish is watched exactly when it is published.
pub proof fn law_daemon_watches_punish(
    rt: RuntimeView,
    event: SyncEvent,
    r: ReactionView,
    label: TxLabel,
    txid: Txid,
)
    requires
        on_bitcoin_event(rt, event, r),
    ensures
        r.ops.contains(Op::EnsureBtcTx(label, txid)) <==> label == TxLabel::Punish && must_punish(
            rt,
            event,
        ) && txid == rt.txs[TxLabel::Punish].id(),
{
    let op = Op::EnsureBtcTx(label, txid);
    if let SyncEvent::TransactionConfirmations(t) = event {
        lemma_depth(rt, t, r, op);
    } else {
        lemma_no_depth(rt, event, r, op);
    }
}

/// On word of a depth, funding is waited for no more exactly when it is called off.
pub proof fn law_daemon_awaits_no_more(
    rt: RuntimeView,
    event: SyncEvent,
    r: ReactionView,
)
    requires
        on_bitcoin_event(rt, event, r),
    ensures
        event is TransactionConfirmations ==> (r.ops.contains(Op::AwaitFunding(false))
            <==> must_stop_funding(rt, event) || (alice_unlocked_cancel(rt, event)
            && rt.syncer.awaiting_funding)),
{
    let op = Op::AwaitFunding(false);
    if let SyncEvent::TransactionConfirmations(t) = event {
        lemma_depth(rt, t, r, op);
    } else {
        lemma_no_depth(rt, event, r, op);
    }
}

/// Each chain's syncer reports that chain's height, which is noted. A depth on the monero
/// chain at which nothing is due is noted against monero's finality.
pub proof fn law_daemon_hears_chains(
    rt: RuntimeView,
    height: u64,
    t: TransactionConfirmations,
    r: ReactionView,
)
    requires
        on_bitcoin_event(rt, SyncEvent::HeightChanged { height }, r),
    ensures
        r.result is Ok && r.ops.len() == 1 && r.ops[0] == Op::NoteHeight(
            Blockchain::Bitcoin,
            height,
        ),
        on_monero_event(rt, SyncEvent::HeightChanged { height }).len() == 1,
        on_monero_event(rt, SyncEvent::HeightChanged { height })[0] == Op::NoteHeight(
            Blockchain::Monero,
            height,
        ),
        last_waiting(rt) is None || t.confirmations is None || (t.confirmations matches Some(c) && c
            < rt.temporal_safety.xmr_finality_thr && c < rt.temporal_safety.sweep_monero_thr) ==> {
            let ops = on_monero_event(rt, SyncEvent::TransactionConfirmations(t));
            ops.len() == 1 && ops[0] == Op::NoteConfs(
                t.id,
                t.confirmations,
                rt.temporal_safety.xmr_finality_thr,
            )
        },
{
}

/// A sweep that has succeeded for Bob, who has signed, or for Alice, who has locked, ends
/// all tasks, and completes a funding that was still waited for: Bob's of bitcoin,
/// Alice's of monero. Any other sweep is passed over.
pub proof fn law_daemon_winds_up_sweep(rt: RuntimeView, id: TaskId)
    ensures
        ({
            let ops = on_monero_event(rt, SyncEvent::SweepSuccess { id });
            let all = Request::SyncerTask(
                Task::Abort { task_target: TaskTarget::AllTasks, respond: false },
            );
            let funded: int = if rt.syncer.awaiting_funding {
                2
            } else {
                0
            };
            if rt.syncer.sweeping_addr == Some(id) && ((rt.state matches State::Bob(
                BobState::BuySigB { .. },
            )) || (rt.state matches State::Alice(
                AliceState::RefundSigA { xmr_locked: true, .. },
            ))) {
                &&& ops.len() >= funded + 2
                &&& rt.syncer.awaiting_funding ==> ops[0] == Op::AwaitFunding(false) && ops[1]
                    == Op::Send(
                    ServiceBus::Ctl,
                    ServiceId::Farcasterd,
                    Request::FundingCompleted(
                        if rt.state is Alice {
                            Blockchain::Monero
                        } else {
                            Blockchain::Bitcoin
                        },
                    ),
                )
                &&& ops[funded] == Op::Send(
                    ServiceBus::Ctl,
                    ServiceId::Syncer(Blockchain::Monero, rt.syncer.network),
                    all,
                )
                &&& ops[funded + 1] == Op::Send(
                    ServiceBus::Ctl,
                    ServiceId::Syncer(Blockchain::Bitcoin, rt.syncer.network),
                    all,
                )
                &&& swept_into(rt, SyncEvent::SweepSuccess { id }) is None ==> ops.len() == funded
                    + 2
            } else {
                ops.len() == 0
            }
        }),
{
}

/// A report of the monero syncer can be handled whatever it says, but for one that makes
/// a sweep due where nothing waits, or from deeper than the chain is high.
pub proof fn law_daemon_admits_monero(rt: RuntimeView, event: SyncEvent)
    ensures
        !monero_event_admitted(rt, event) <==> {
            &&& event matches SyncEvent::TransactionConfirmations(t)
            &&& t.confirmations matches Some(c)
            &&& rt.temporal_safety.sweep_monero_thr <= c
            &&& (rt.state matches State::Bob(BobState::BuySigB { .. })) || (rt.state matches State::Alice(
                AliceState::RefundSigA { xmr_locked: true, .. },
            ))
            &&& last_waiting(rt) matches Some((last, n))
            &&& n == 0 || (rt.syncer.monero_height < c && last.bus_id == ServiceBus::Ctl && (
            last.request matches Request::SyncerTask(Task::SweepAddress(_))))
        },
{
}

} // verus!
