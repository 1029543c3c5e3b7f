//! What holds of a swap as a whole.
use std::sync::Arc;
use vstd::prelude::*;

use crate::base::{
    Blockchain, Checksum, Error, Notice, Outcome, ServiceBus, ServiceId, SwapId, SwapRole, TaskId,
    TxLabel,
};
use crate::blob::joined;
use crate::chain::{parsed_transaction, Transaction};
use crate::crypto::{
    aggregates, law_shared_keys_agree, ripemd160_digest, viewpair_address, MoneroAddress, Params,
};
use crate::message::{
    CheckpointMultipartChunk, Failure, Msg, Request, SyncEvent, TransactionConfirmations, Tx,
};
use crate::swapd::checkpoint::{Checkpoint, CheckpointState, CheckpointSwapd};
use crate::swapd::chunks::{
    assembles, collected, cut, is_part, law_reassembly, max_chunk, numbered,
};
use crate::swapd::rpc_ctl::{backlog_sent, on_rpc_ctl, permitted, Clock};
use crate::swapd::rpc_msg::{done, on_rpc_msg, refused, ReactionView};
use crate::swapd::runtime::{
    dispatches, kept_for_peer, queues, stepped, stepped_all, Dispatch, Op, RuntimeView,
};
use crate::swapd::swap_state::{
    alice_sees_lock, bob_locks, bob_sees_funding, confs_in, fits, funding_in, lock_cancellable,
    lock_final_in, plain, reacts, reads_keys, replays, resumes, watch_acc_lock,
    BobRefundProcedureSignatures, End, Event, Pending, PlanView, SwapStateMachine,
};
use crate::swapd::sync_events::{
    alice_asked, alice_to_fund, final_noted, on_bitcoin_event, on_final, on_final_buy,
    on_final_cancel, on_final_lock, on_final_punish, on_final_refund, on_monero_confs,
    on_monero_event, on_monero_payment, on_sweep,
};
use crate::swapd::syncer_client::{bears, SyncerView};
use crate::swapd::wallet::{WalletCall, WalletReply};

verus! {

/// The transitions of the automaton.
pub open spec fn edge(from: SwapStateMachine, to: SwapStateMachine) -> bool {
    match from {
        SwapStateMachine::StartTaker(_) => to is BobInitTaker || to is AliceInitTaker || to
            is SwapEnd,
        SwapStateMachine::StartMaker(_) => to is BobInitMaker || to is AliceInitMaker || to
            is SwapEnd,
        SwapStateMachine::BobInitMaker(_) => to is BobInitMaker || to is BobReveal || to
            is BobAbortAwaitingBitcoinSweep,
        SwapStateMachine::AliceInitMaker(_) => to is AliceReveal || to is SwapEnd,
        SwapStateMachine::BobInitTaker(_) => to is BobTakerMakerCommit || to
            is BobAbortAwaitingBitcoinSweep,
        SwapStateMachine::AliceInitTaker(_) => to is AliceTakerMakerCommit || to is SwapEnd,
        SwapStateMachine::BobTakerMakerCommit(_) => to is BobTakerMakerCommit || to is BobReveal
            || to is BobAbortAwaitingBitcoinSweep,
        SwapStateMachine::AliceTakerMakerCommit(_) => to is AliceReveal || to is SwapEnd,
        SwapStateMachine::BobReveal(_) => to is BobFunded || to is BobAbortAwaitingBitcoinSweep,
        SwapStateMachine::BobFunded(_) => to is BobRefundProcedureSignatures || to is BobCanceled
            || to is BobAbortAwaitingBitcoinSweep,
        SwapStateMachine::BobRefundProcedureSignatures(_) => to is BobAccordantLock || to
            is BobCanceled,
        SwapStateMachine::BobAccordantLock(_) => to is BobAccordantLockFinal || to is BobCanceled,
        SwapStateMachine::BobAccordantLockFinal(_) => to is BobAccordantLockFinal || to
            is BobBuyFinal || to is BobCanceled,
        SwapStateMachine::BobBuyFinal(_) => to is BobBuySweeping,
        SwapStateMachine::BobBuySweeping => to is SwapEnd,
        SwapStateMachine::BobCanceled => to is BobCancelFinal,
        SwapStateMachine::BobCancelFinal => to is SwapEnd,
        SwapStateMachine::BobAbortAwaitingBitcoinSweep => to is SwapEnd,
        SwapStateMachine::AliceReveal(_) => to is AliceCoreArbitratingSetup || to is SwapEnd,
        SwapStateMachine::AliceCoreArbitratingSetup(_) => to is AliceArbitratingLockFinal || to
            is AliceCanceled,
        SwapStateMachine::AliceArbitratingLockFinal(_) => to is AliceArbitratingLockFinal || to
            is AliceAccordantLock || to is AliceCanceled,
        SwapStateMachine::AliceAccordantLock(_) => to is AliceBuyProcedureSignature || to
            is AliceCanceled,
        SwapStateMachine::AliceBuyProcedureSignature => to is SwapEnd,
        SwapStateMachine::AliceCanceled(_) => to is AliceCanceled || to is AliceRefund || to
            is AlicePunish || to is SwapEnd,
        SwapStateMachine::AliceRefund(_) => to is AliceRefundSweeping,
        SwapStateMachine::AliceRefundSweeping => to is SwapEnd,
        SwapStateMachine::AlicePunish => to is SwapEnd,
        SwapStateMachine::SwapEnd(_) => to == from,
    }
}

/// The states in which the wallet is asked a question.
pub open spec fn asked_in(from: SwapStateMachine, pending: Pending) -> bool {
    match pending {
        Pending::Taker { swap_role } => from == SwapStateMachine::StartTaker(swap_role),
        Pending::Maker { swap_role, .. } => from == SwapStateMachine::StartMaker(swap_role),
        Pending::BobMakerCommit { .. } => from is BobInitTaker,
        Pending::AliceMakerCommit { .. } => from is AliceInitTaker,
        Pending::BobFundingTx { .. } => from is BobReveal,
        Pending::BobSetup { .. } => from is BobReveal,
        Pending::BobRefundSignatures { .. } => from is BobFunded,
        Pending::BobBuyTx => from is BobAccordantLockFinal,
        Pending::BobAbort { .. } => from is BobInitMaker || from is BobInitTaker || from
            is BobTakerMakerCommit || from is BobReveal || from is BobFunded,
        Pending::AliceReveal { .. } => from is AliceInitMaker || from is AliceTakerMakerCommit,
        Pending::AliceSetup { .. } => from is AliceReveal,
        Pending::AliceBuySignature => from is AliceAccordantLock,
        Pending::AliceRefundTx => from is AliceCanceled,
    }
}

/// A state goes over to another only along the automaton, and asks the wallet only
/// what belongs to it.
pub proof fn law_automaton(rt: RuntimeView, sm: SwapStateMachine, event: Event, r: PlanView)
    requires
        reacts(rt, sm, event, r),
    ensures
        r.end matches End::Next(to) ==> edge(sm, to),
        r.end matches End::Ask(_, pending) ==> asked_in(sm, pending),
{
}

/// After the wallet's answer too, a state goes over to another only along the
/// automaton, and asks the wallet only what belongs to it.
pub proof fn law_automaton_resumed(
    sm: SwapStateMachine,
    rt: RuntimeView,
    pending: Pending,
    reply: WalletReply,
    r: PlanView,
)
    requires
        asked_in(sm, pending),
        fits(pending, reply),
        resumes(rt, pending, reply, r),
    ensures
        r.end matches End::Next(to) ==> edge(sm, to),
        r.end matches End::Ask(_, next) ==> asked_in(sm, next),
{
}

/// The outcome of a swap is final: whatever comes, nothing is done and nothing changes.
pub proof fn law_end_is_final(rt: RuntimeView, outcome: Outcome, event: Event, r: PlanView)
    requires
        reacts(rt, SwapStateMachine::SwapEnd(outcome), event, r),
    ensures
        r.ops == Seq::<Op>::empty(),
        r.end == End::Next(SwapStateMachine::SwapEnd(outcome)),
{
}

/// The states in which the bitcoin may be locked already.
pub open spec fn locked_in(sm: SwapStateMachine) -> bool {
    ||| sm is BobRefundProcedureSignatures
    ||| sm is BobAccordantLock
    ||| sm is BobAccordantLockFinal
    ||| sm is AliceCoreArbitratingSetup
    ||| sm is AliceArbitratingLockFinal
    ||| sm is AliceAccordantLock
}

/// The states in which Alice, or a party that has not begun, can drop the swap.
pub open spec fn droppable(sm: SwapStateMachine) -> bool {
    ||| sm is StartTaker
    ||| sm is StartMaker
    ||| sm is AliceInitMaker
    ||| sm is AliceInitTaker
    ||| sm is AliceTakerMakerCommit
    ||| sm is AliceReveal
}

/// The states in which Bob can drop the swap after sweeping his funds.
pub open spec fn sweepable(sm: SwapStateMachine) -> bool {
    ||| sm is BobInitMaker
    ||| sm is BobInitTaker
    ||| sm is BobTakerMakerCommit
    ||| sm is BobReveal
    ||| sm is BobFunded
}

/// Asked to abort a locked-in swap, the daemon tells whoever asked that it cannot, and
/// does nothing else.
pub proof fn law_no_abort_after_lock(
    rt: RuntimeView,
    sm: SwapStateMachine,
    source: ServiceId,
    r: PlanView,
)
    requires
        locked_in(sm),
        reacts(rt, sm, Event { source, request: Request::AbortSwap }, r),
    ensures
        r.end == End::Stay,
        r.ops == seq![
            Op::Send(
                ServiceBus::Ctl,
                source,
                Request::Failure(Failure { code: 0, info: Notice::AbortImpossible }),
            ),
        ],
{
}

/// Before the lock a swap can be aborted: it ends, and whoever asked is told; or, on
/// Bob's side, the wallet is first asked how to sweep the funding address. After the
/// locked-in states a request to abort is passed over.
pub proof fn law_abort(rt: RuntimeView, sm: SwapStateMachine, source: ServiceId, r: PlanView)
    requires
        reacts(rt, sm, Event { source, request: Request::AbortSwap }, r),
    ensures
        droppable(sm) ==> r.end == End::Next(SwapStateMachine::SwapEnd(Outcome::FailureAbort))
            && r.ops == seq![
            Op::Send(ServiceBus::Ctl, source, Request::Info(Notice::AbortedSwap)),
        ],
        sweepable(sm) ==> r.ops == Seq::<Op>::empty() && (r.end matches End::Ask(
            WalletCall::SweepBitcoin { .. },
            Pending::BobAbort { source: asker },
        ) && asker == source),
        !droppable(sm) && !sweepable(sm) && !locked_in(sm) && !(sm is SwapEnd) ==> r == plain(
            End::Stay,
        ),
{
}

/// Whether the lock is final and old enough in a request, and a cancel is at hand.
pub open spec fn may_cancel(rt: RuntimeView, request: Request, tx: Transaction) -> bool {
    confs_in(request) matches Some((id, c)) && bears(rt.syncer.watched_txs, id, TxLabel::Lock)
        && rt.temporal_safety.valid_cancel(c) && rt.txs.dom().contains(TxLabel::Cancel) && tx
        == rt.txs[TxLabel::Cancel]
}

/// Whether the cancel is final in a request, nobody has bought, and a refund is at
/// hand.
pub open spec fn may_refund(rt: RuntimeView, request: Request, tx: Transaction) -> bool {
    confs_in(request) matches Some((id, c)) && bears(rt.syncer.watched_txs, id, TxLabel::Cancel)
        && rt.temporal_safety.final_tx(c, Blockchain::Bitcoin) && rt.syncer.buy_tx_confs is None
        && rt.txs.dom().contains(TxLabel::Refund) && tx == rt.txs[TxLabel::Refund]
}

/// Whether the cancel is final and old enough in a request, and a punish is at hand.
pub open spec fn may_punish(rt: RuntimeView, request: Request, tx: Transaction) -> bool {
    confs_in(request) matches Some((id, c)) && bears(rt.syncer.watched_txs, id, TxLabel::Cancel)
        && rt.temporal_safety.valid_punish(c) && rt.txs.dom().contains(TxLabel::Punish) && tx
        == rt.txs[TxLabel::Punish]
}

/// On a request the automaton publishes nothing but a cancel that the age of the lock
/// allows, Bob's refund once the cancel is final, and Alice's punish once the age of
/// the cancel allows it.
pub proof fn law_publication(
    rt: RuntimeView,
    sm: SwapStateMachine,
    event: Event,
    r: PlanView,
    tx: Transaction,
)
    requires
        reacts(rt, sm, event, r),
        r.ops.contains(Op::Broadcast(tx)),
    ensures
        ({
            ||| may_cancel(rt, event.request, tx)
            ||| sm is BobCanceled && may_refund(rt, event.request, tx)
            ||| sm is AliceCanceled && may_punish(rt, event.request, tx)
        }),
{
    let k = choose|k: int| 0 <= k < r.ops.len() && r.ops[k] == Op::Broadcast(tx);
    assert(r.ops[k] == Op::Broadcast(tx));
}

/// Steps of which none publishes a transaction or books a task.
spec fn quiet(ops: Seq<Op>) -> bool {
    forall|k: int|
        0 <= k < ops.len() ==> !((#[trigger] ops[k]) is Broadcast) && !(ops[k] is BookTx) && !(
        ops[k] is BookSweep)
}

proof fn lemma_quiet_joined(a: Seq<Op>, b: Seq<Op>)
    requires
        quiet(a),
        quiet(b),
    ensures
        quiet(a + b),
{
    let both = a + b;
    assert forall|k: int| 0 <= k < both.len() implies !((#[trigger] both[k]) is Broadcast) && !(
    both[k] is BookTx) && !(both[k] is BookSweep) by {
        if k < a.len() {
            assert(both[k] == a[k]);
        } else {
            assert(both[k] == b[k - a.len()]);
        }
    }
}

proof fn lemma_replays_quiet(rt: RuntimeView)
    ensures
        quiet(replays(rt)),
{
}

/// Of the steps with which Bob locks, the first publishes the lock, and the others
/// neither publish nor book anything.
proof fn lemma_lock_ops(
    rt: RuntimeView,
    reply: WalletReply,
    local_params: Params,
    remote_params: Params,
    funding_address: crate::chain::BitcoinAddress,
    keys: Option<([u8; 32], [u8; 32])>,
)
    requires
        reply is RefundSigned,
    ensures
        ({
            let ops = bob_locks(
                rt,
                local_params,
                remote_params,
                funding_address,
                reply->RefundSigned_wallet,
                reply->buy_procedure_signature,
                reply->lock_tx,
                reply->RefundSigned_cancel_tx,
                reply->refund_tx,
                keys,
            ).ops;
            &&& ops.len() > 0
            &&& ops[0] == Op::Broadcast(reply->lock_tx)
            &&& quiet(ops.skip(1))
        }),
{
    let kept = seq![
        Op::KeepTx(TxLabel::Cancel, reply->RefundSigned_cancel_tx),
        Op::KeepTx(TxLabel::Refund, reply->refund_tx),
    ];
    let last = seq![
        Op::EnsureBtcTxid(TxLabel::Buy, reply->buy_procedure_signature.buy.id()),
        Op::CheckpointAt(
            None,
            SwapStateMachine::BobRefundProcedureSignatures(
                BobRefundProcedureSignatures {
                    local_params,
                    funding_address,
                    remote_params,
                    wallet: reply->RefundSigned_wallet,
                    buy_procedure_signature: reply->buy_procedure_signature,
                },
            ),
        ),
    ];
    let watched = watch_acc_lock(keys);
    lemma_replays_quiet(rt);
    lemma_quiet_joined(watched, kept);
    lemma_quiet_joined(watched + kept, replays(rt));
    lemma_quiet_joined(watched + kept + replays(rt), last);
    let ops = bob_locks(
        rt,
        local_params,
        remote_params,
        funding_address,
        reply->RefundSigned_wallet,
        reply->buy_procedure_signature,
        reply->lock_tx,
        reply->RefundSigned_cancel_tx,
        reply->refund_tx,
        keys,
    ).ops;
    assert(ops.skip(1) =~= watched + kept + replays(rt) + last);
}

/// Of the steps of a reaction to the wallet's answer that locks Bob's bitcoin.
proof fn lemma_lock_resumed(
    rt: RuntimeView,
    pending: Pending,
    reply: WalletReply,
    r: PlanView,
    k: int,
)
    requires
        pending is BobRefundSignatures,
        fits(pending, reply),
        resumes(rt, pending, reply, r),
        0 <= k < r.ops.len(),
    ensures
        r.ops[k] matches Op::Broadcast(tx) ==> tx == reply->lock_tx,
        !(r.ops[k] is BookTx),
        !(r.ops[k] is BookSweep),
{
    if let Pending::BobRefundSignatures { local_params, remote_params, funding_address } = pending {
        let keys = match (local_params, remote_params) {
            (Params::Bob(bob), Params::Alice(alice)) => {
                let (spend, view) = choose|spend: [u8; 32], view: [u8; 32]|
                    {
                        &&& #[trigger] aggregates(
                            Some((spend, view)),
                            rt.swap_id,
                            alice,
                            bob,
                        )
                        &&& r == bob_locks(
                            rt,
                            local_params,
                            remote_params,
                            funding_address,
                            reply->RefundSigned_wallet,
                            reply->buy_procedure_signature,
                            reply->lock_tx,
                            reply->RefundSigned_cancel_tx,
                            reply->refund_tx,
                            Some((spend, view)),
                        )
                    };
                Some((spend, view))
            },
            _ => None,
        };
        lemma_lock_ops(rt, reply, local_params, remote_params, funding_address, keys);
        if k > 0 {
            assert(r.ops.skip(1)[k - 1] == r.ops[k]);
        }
    }
}

/// Of the steps of a reaction with which Alice answers Bob's setup.
proof fn lemma_setup_resumed(
    rt: RuntimeView,
    pending: Pending,
    reply: WalletReply,
    r: PlanView,
)
    requires
        pending is AliceSetup,
        fits(pending, reply),
        resumes(rt, pending, reply, r),
    ensures
        quiet(r.ops),
{
    if let WalletReply::CoreArbSigned {
        refund_procedure_signatures,
        cancel_tx,
        punish_tx,
        ..
    } = reply {
        let kept = seq![
            Op::KeepTx(TxLabel::Cancel, cancel_tx),
            Op::KeepTx(TxLabel::Punish, punish_tx),
        ];
        let last = seq![
            r.ops[r.ops.len() - 2],
            Op::SendPeer(Msg::RefundProcedureSignatures(refund_procedure_signatures)),
        ];
        lemma_replays_quiet(rt);
        lemma_quiet_joined(kept, replays(rt));
        lemma_quiet_joined(kept + replays(rt), last);
        assert(r.ops =~= kept + replays(rt) + last);
    }
}

/// On the wallet's answer the automaton publishes nothing but Bob's lock, and what
/// Alice makes of Bob's signature: a cancel if the age of the lock allows it, else the
/// buy. So she never publishes a buy that could be cancelled at that moment.
pub proof fn law_publication_resumed(
    rt: RuntimeView,
    pending: Pending,
    reply: WalletReply,
    r: PlanView,
    tx: Transaction,
)
    requires
        fits(pending, reply),
        resumes(rt, pending, reply, r),
        r.ops.contains(Op::Broadcast(tx)),
    ensures
        ({
            ||| (reply matches WalletReply::RefundSigned { lock_tx, .. } && tx == lock_tx)
            ||| (reply matches WalletReply::BuySigned { cancel_tx, .. } && tx == cancel_tx
                && lock_cancellable(rt))
            ||| (reply matches WalletReply::BuySigned { buy_tx, .. } && tx == buy_tx
                && !lock_cancellable(rt))
        }),
{
    let k = choose|k: int| 0 <= k < r.ops.len() && r.ops[k] == Op::Broadcast(tx);
    assert(r.ops[k] == Op::Broadcast(tx));
    if pending is BobRefundSignatures {
        lemma_lock_resumed(rt, pending, reply, r, k);
    } else if pending is AliceSetup {
        lemma_setup_resumed(rt, pending, reply, r);
    }
}

/// The daemon publishes the buy only while no cancel can race it, and the cancel only
/// once the age of the lock allows it; never both.
pub proof fn law_lock_published_safely(rt: RuntimeView, c: u32, tx: Transaction)
    requires
        rt.temporal_safety.ordered(),
        on_final_lock(rt, c).contains(Op::Broadcast(tx)),
    ensures
        ({
            ||| (tx == rt.txs[TxLabel::Cancel] && rt.temporal_safety.valid_cancel(c)
                && !rt.temporal_safety.safe_buy(c))
            ||| (tx == rt.txs[TxLabel::Buy] && rt.temporal_safety.safe_buy(c)
                && !rt.temporal_safety.valid_cancel(c))
        }),
{
    let ops = on_final_lock(rt, c);
    let k = choose|k: int| 0 <= k < ops.len() && ops[k] == Op::Broadcast(tx);
    assert(ops[k] == Op::Broadcast(tx));
}

/// The daemon punishes only once the age of the cancel allows it and Alice's monero
/// are locked, and takes Bob's refund only while no punish can race it.
pub proof fn law_cancel_published_safely(rt: RuntimeView, c: u32, tx: Transaction)
    requires
        rt.temporal_safety.ordered(),
        on_final_cancel(rt, c).contains(Op::Broadcast(tx)),
    ensures
        ({
            ||| (tx == rt.txs[TxLabel::Punish] && rt.temporal_safety.valid_punish(c)
                && !rt.temporal_safety.safe_refund(c) && rt.state.a_xmr_locked())
            ||| (tx == rt.txs[TxLabel::Refund] && rt.temporal_safety.safe_refund(c)
                && !rt.temporal_safety.valid_punish(c) && rt.state.swap_role() == SwapRole::Bob)
        }),
{
    let ops = on_final_cancel(rt, c);
    let k = choose|k: int| 0 <= k < ops.len() && ops[k] == Op::Broadcast(tx);
    assert(ops[k] == Op::Broadcast(tx));
}

/// Steps that neither keep a transaction nor take a checkpoint over.
pub open spec fn keeps_no_tx(ops: Seq<Op>) -> bool {
    forall|k: int|
        0 <= k < ops.len() ==> !((#[trigger] ops[k]) is KeepTx) && !(ops[k] is Restore)
}

proof fn lemma_dropped(rt: RuntimeView, ops: Seq<Op>, label: TxLabel)
    requires
        keeps_no_tx(ops),
        !rt.txs.dom().contains(label) || ops.contains(Op::DropTx(label)),
    ensures
        !stepped_all(rt, ops).txs.dom().contains(label),
    decreases ops.len(),
{
    if ops.len() > 0 {
        let init = ops.drop_last();
        assert(keeps_no_tx(init)) by {
            assert forall|k: int| 0 <= k < init.len() implies !((#[trigger] init[k]) is KeepTx)
                && !(init[k] is Restore) by {
                assert(init[k] == ops[k]);
            }
        }
        assert(!(ops[ops.len() - 1] is KeepTx));
        if ops.last() == Op::DropTx(label) {
        } else {
            if rt.txs.dom().contains(label) {
                let k = choose|k: int| 0 <= k < ops.len() && ops[k] == Op::DropTx(label);
                assert(init[k] == Op::DropTx(label));
            }
            lemma_dropped(rt, init, label);
        }
    }
}

/// When a swap has ended otherwise than by abort, no transaction is left with which its
/// outcome could be challenged: neither a cancel nor a punish, and, except after
/// Alice's purchase, neither a refund nor a buy.
pub proof fn law_end_disarms(
    rt: RuntimeView,
    sm: SwapStateMachine,
    event: Event,
    r: PlanView,
    outcome: Outcome,
)
    requires
        reacts(rt, sm, event, r),
        !(sm is SwapEnd),
        r.end == End::Next(SwapStateMachine::SwapEnd(outcome)),
        outcome != Outcome::FailureAbort,
    ensures
        !stepped_all(rt, r.ops).txs.dom().contains(TxLabel::Cancel),
        !stepped_all(rt, r.ops).txs.dom().contains(TxLabel::Punish),
        !(sm is AliceBuyProcedureSignature) ==> !stepped_all(rt, r.ops).txs.dom().contains(
            TxLabel::Refund,
        ) && !stepped_all(rt, r.ops).txs.dom().contains(TxLabel::Buy),
{
    if sm is AliceBuyProcedureSignature {
        assert(r.ops[3] == Op::DropTx(TxLabel::Cancel));
        assert(r.ops[4] == Op::DropTx(TxLabel::Punish));
    } else {
        let n = r.ops.len() - 4;
        assert(r.ops[n] == Op::DropTx(TxLabel::Cancel));
        assert(r.ops[n + 1] == Op::DropTx(TxLabel::Refund));
        assert(r.ops[n + 2] == Op::DropTx(TxLabel::Buy));
        assert(r.ops[n + 3] == Op::DropTx(TxLabel::Punish));
        lemma_dropped(rt, r.ops, TxLabel::Refund);
        lemma_dropped(rt, r.ops, TxLabel::Buy);
    }
    lemma_dropped(rt, r.ops, TxLabel::Cancel);
    lemma_dropped(rt, r.ops, TxLabel::Punish);
}

/// Whether some steps bring a swap to its finish.
pub open spec fn finishes(ops: Seq<Op>) -> bool {
    exists|k: int|
        0 <= k < ops.len() && ((#[trigger] ops[k]) matches Op::UpdateState(state)
            && state.name().stage is Finish)
}

/// Steps that keep no transaction, and that let go of the cancel and the punish if they
/// bring the swap to its finish.
spec fn disarming(ops: Seq<Op>) -> bool {
    &&& keeps_no_tx(ops)
    &&& finishes(ops) ==> ops.contains(Op::DropTx(TxLabel::Cancel)) && ops.contains(
        Op::DropTx(TxLabel::Punish),
    )
}

proof fn lemma_disarming_joined(a: Seq<Op>, b: Seq<Op>)
    requires
        keeps_no_tx(a),
        !finishes(a),
        disarming(b),
    ensures
        disarming(a + b),
{
    let both = a + b;
    assert forall|k: int| 0 <= k < both.len() implies !((#[trigger] both[k]) is KeepTx) && !(
    both[k] is Restore) by {
        if k < a.len() {
            assert(both[k] == a[k]);
        } else {
            assert(both[k] == b[k - a.len()]);
        }
    }
    if finishes(both) {
        let k = choose|k: int|
            0 <= k < both.len() && ((#[trigger] both[k]) matches Op::UpdateState(state)
                && state.name().stage is Finish);
        if k < a.len() {
            assert(a[k] == both[k]);
        }
        assert(b[k - a.len()] == both[k]);
        let i = choose|i: int| 0 <= i < b.len() && b[i] == Op::DropTx(TxLabel::Cancel);
        let j = choose|j: int| 0 <= j < b.len() && b[j] == Op::DropTx(TxLabel::Punish);
        assert(both[a.len() + i] == Op::DropTx(TxLabel::Cancel));
        assert(both[a.len() + j] == Op::DropTx(TxLabel::Punish));
    }
}

proof fn lemma_ends_disarmed(rt: RuntimeView, c: u32, id: TaskId)
    ensures
        disarming(on_final_cancel(rt, c)),
        disarming(on_final_buy(rt)),
        disarming(on_final_refund(rt)),
        disarming(on_final_punish(rt)),
        disarming(on_sweep(rt, id)),
{
    let ops = on_final_cancel(rt, c);
    if ops.len() > 4 {
        assert(ops[ops.len() - 2] == Op::DropTx(TxLabel::Cancel));
        assert(ops[ops.len() - 1] == Op::DropTx(TxLabel::Punish));
    }
    let ops = on_final_buy(rt);
    if ops.len() > 4 {
        assert(ops[ops.len() - 2] == Op::DropTx(TxLabel::Cancel));
        assert(ops[ops.len() - 1] == Op::DropTx(TxLabel::Punish));
    }
    let ops = on_final_refund(rt);
    if ops.len() > 4 {
        assert(ops[ops.len() - 4] == Op::DropTx(TxLabel::Cancel));
        assert(ops[ops.len() - 1] == Op::DropTx(TxLabel::Punish));
    }
    let ops = on_final_punish(rt);
    assert(ops[ops.len() - 4] == Op::DropTx(TxLabel::Cancel));
    assert(ops[ops.len() - 1] == Op::DropTx(TxLabel::Punish));
    let ops = on_sweep(rt, id);
    if ops.len() > 4 {
        assert(ops[ops.len() - 3] == Op::DropTx(TxLabel::Cancel));
        assert(ops[ops.len() - 1] == Op::DropTx(TxLabel::Punish));
    }
}

proof fn lemma_final_disarming(
    rt: RuntimeView,
    t: TransactionConfirmations,
    label: TxLabel,
    c: u32,
    r: ReactionView,
)
    requires
        on_final(rt, t, label, c, r),
    ensures
        disarming(r.ops),
{
    let before = final_noted(rt, t, label);
    assert(keeps_no_tx(before) && !finishes(before));
    if label == TxLabel::Lock {
        lemma_lock_disarming(rt, before, c, r);
    } else if label == TxLabel::Cancel {
        let seen = RuntimeView { state: rt.state.sup_cancel_seen(), ..rt };
        lemma_ends_disarmed(seen, c, t.id);
        lemma_disarming_joined(before, on_final_cancel(seen, c));
    } else {
        lemma_ends_disarmed(rt, c, t.id);
        lemma_disarming_joined(before, on_final_buy(rt));
        lemma_disarming_joined(before, on_final_refund(rt));
        lemma_disarming_joined(before, on_final_punish(rt));
    }
}

proof fn lemma_lock_disarming(rt: RuntimeView, before: Seq<Op>, c: u32, r: ReactionView)
    requires
        keeps_no_tx(before),
        !finishes(before),
        alice_to_fund(rt, before, r) || r == done(before + on_final_lock(rt, c)),
    ensures
        disarming(r.ops),
{
    assert(disarming(on_final_lock(rt, c)));
    lemma_disarming_joined(before, on_final_lock(rt, c));
    assert(before + Seq::empty() =~= before);
    assert(disarming(Seq::empty()));
    lemma_disarming_joined(before, Seq::empty());
    if r != done(before + on_final_lock(rt, c)) && r.ops != before {
        let (spend, view, address) = choose|spend: [u8; 32], view: [u8; 32], address: MoneroAddress|
            r == done(before + #[trigger] alice_asked(rt, spend, view, address));
        assert(disarming(alice_asked(rt, spend, view, address)));
        lemma_disarming_joined(before, alice_asked(rt, spend, view, address));
    }
}

proof fn lemma_monero_disarming(rt: RuntimeView, event: SyncEvent)
    ensures
        disarming(on_monero_event(rt, event)),
{
    if let SyncEvent::SweepSuccess { id } = event {
        lemma_ends_disarmed(rt, 0, id);
    } else if let SyncEvent::AddressTransaction(a) = event {
        assert(disarming(on_monero_payment(rt, a)));
    } else if let SyncEvent::TransactionConfirmations(t) = event {
        assert(disarming(on_monero_confs(rt, t)));
    }
}

/// When a report of a syncer brings a swap to its finish, no transaction is left with
/// which the finish could be challenged: neither a cancel nor a punish.
pub proof fn law_finish_disarms(rt: RuntimeView, event: SyncEvent, r: ReactionView)
    requires
        on_bitcoin_event(rt, event, r) || r == done(on_monero_event(rt, event)),
        finishes(r.ops),
    ensures
        !stepped_all(rt, r.ops).txs.dom().contains(TxLabel::Cancel),
        !stepped_all(rt, r.ops).txs.dom().contains(TxLabel::Punish),
{
    if r == done(on_monero_event(rt, event)) {
        lemma_monero_disarming(rt, event);
    } else if let SyncEvent::TransactionConfirmations(t) = event {
        if rt.syncer.watched_txs.dom().contains(t.id) && t.confirmations is Some
            && rt.temporal_safety.final_tx(t.confirmations->0, Blockchain::Bitcoin) {
            lemma_final_disarming(rt, t, rt.syncer.watched_txs[t.id], t.confirmations->0, r);
        }
    }
    lemma_dropped(rt, r.ops, TxLabel::Cancel);
    lemma_dropped(rt, r.ops, TxLabel::Punish);
}

/// Every task at work has a number that was given out.
pub open spec fn tasks_numbered(s: SyncerView) -> bool {
    &&& forall|id: TaskId| #[trigger] s.watched_addrs.dom().contains(id) ==> id.0 <= s.counter
    &&& forall|id: TaskId| #[trigger] s.watched_txs.dom().contains(id) ==> id.0 <= s.counter
    &&& forall|id: TaskId| #[trigger] s.retrieving_txs.dom().contains(id) ==> id.0 <= s.counter
    &&& s.sweeping_addr matches Some(id) ==> id.0 <= s.counter
}

/// A step that books a task books the next one.
pub open spec fn books_next(rt: RuntimeView, op: Op) -> bool {
    match op {
        Op::BookTx(id, _) => id == rt.syncer.next_id(),
        Op::BookSweep(id) => id == rt.syncer.next_id(),
        _ => true,
    }
}

/// No step gives a number twice: tasks stay numbered, and the number of the next task
/// is one that no task at work has.
pub proof fn law_tasks_numbered(rt: RuntimeView, op: Op)
    requires
        tasks_numbered(rt.syncer),
        rt.syncer.counter < u32::MAX,
        books_next(rt, op),
    ensures
        tasks_numbered(stepped(rt, op).syncer),
        stepped(rt, op).syncer.counter >= rt.syncer.counter,
        !rt.syncer.watched_addrs.dom().contains(rt.syncer.next_id()),
        !rt.syncer.watched_txs.dom().contains(rt.syncer.next_id()),
        !rt.syncer.retrieving_txs.dom().contains(rt.syncer.next_id()),
{
}

/// The tasks that the automaton books are the next ones.
pub proof fn law_books_next(rt: RuntimeView, sm: SwapStateMachine, event: Event, r: PlanView, k: int)
    requires
        reacts(rt, sm, event, r),
        0 <= k < r.ops.len(),
    ensures
        books_next(rt, r.ops[k]),
{
}

/// The tasks that are booked on the wallet's answer are the next ones.
pub proof fn law_books_next_resumed(
    rt: RuntimeView,
    pending: Pending,
    reply: WalletReply,
    r: PlanView,
    k: int,
)
    requires
        fits(pending, reply),
        resumes(rt, pending, reply, r),
        0 <= k < r.ops.len(),
    ensures
        books_next(rt, r.ops[k]),
{
    if pending is BobRefundSignatures {
        lemma_lock_resumed(rt, pending, reply, r, k);
    } else if pending is AliceSetup {
        lemma_setup_resumed(rt, pending, reply, r);
    }
}

/// A restart takes a swap up where a checkpoint left it: what the snapshot of one
/// runtime holds is what another has after taking it over.
pub proof fn law_checkpoint_restores(
    before: RuntimeView,
    checkpoint: Arc<Checkpoint>,
    c: CheckpointSwapd,
    after: RuntimeView,
)
    requires
        checkpoint.state == CheckpointState::CheckpointSwapd(c),
        c.state == before.state,
        c.enquirer == before.enquirer,
        c.temporal_safety == before.temporal_safety,
        c.txs@ == before.txs,
        queues(c.pending_requests@) == before.pending_requests,
    ensures
        stepped(after, Op::Restore(checkpoint)) == (RuntimeView {
            state: before.state,
            enquirer: before.enquirer,
            temporal_safety: before.temporal_safety,
            txs: before.txs,
            pending_requests: before.pending_requests,
            ..after
        }),
{
}

/// The runtime after a message was sent to the peer, and waits again if it could not be
/// delivered.
pub open spec fn resent(rt: RuntimeView, msg: Msg, delivered: bool) -> RuntimeView {
    let after = stepped(rt, Op::SendPeer(msg));
    if delivered {
        after
    } else {
        kept_for_peer(after, msg)
    }
}

/// The runtime after messages were sent to the peer, each with its own luck.
pub open spec fn resent_all(rt: RuntimeView, msgs: Seq<Msg>, delivered: Seq<bool>) -> RuntimeView
    decreases msgs.len(),
{
    if msgs.len() == 0 {
        rt
    } else {
        let k = msgs.len() - 1;
        resent(resent_all(rt, msgs.drop_last(), delivered), msgs[k], delivered[k])
    }
}

/// The messages that could not be delivered, in order.
pub open spec fn undelivered(msgs: Seq<Msg>, delivered: Seq<bool>) -> Seq<Msg>
    decreases msgs.len(),
{
    if msgs.len() == 0 {
        Seq::empty()
    } else {
        let k = msgs.len() - 1;
        let before = undelivered(msgs.drop_last(), delivered);
        if delivered[k] {
            before
        } else {
            before.push(msgs[k])
        }
    }
}

proof fn lemma_resent(rt: RuntimeView, msgs: Seq<Msg>, delivered: Seq<bool>)
    ensures
        resent_all(rt, msgs, delivered) == (RuntimeView {
            pending_peer_request: rt.pending_peer_request + undelivered(msgs, delivered),
            ..rt
        }),
    decreases msgs.len(),
{
    let after = resent_all(rt, msgs, delivered);
    if msgs.len() > 0 {
        lemma_resent(rt, msgs.drop_last(), delivered);
    }
    assert(after.pending_peer_request =~= rt.pending_peer_request + undelivered(msgs, delivered));
}

proof fn lemma_undelivered(msgs: Seq<Msg>, delivered: Seq<bool>)
    requires
        msgs.len() <= delivered.len(),
    ensures
        (forall|k: int| 0 <= k < msgs.len() ==> !#[trigger] delivered[k]) ==> undelivered(
            msgs,
            delivered,
        ) == msgs,
        (forall|k: int| 0 <= k < msgs.len() ==> #[trigger] delivered[k]) ==> undelivered(
            msgs,
            delivered,
        ) == Seq::<Msg>::empty(),
    decreases msgs.len(),
{
    if msgs.len() > 0 {
        lemma_undelivered(msgs.drop_last(), delivered);
        assert(msgs =~= msgs.drop_last().push(msgs[msgs.len() - 1]));
    } else {
        assert(msgs =~= Seq::empty());
    }
}

/// When the peer is back, every message that waited for it is sent to it over the
/// message bus, once and in order.
/// Afterwards exactly those wait that could not be delivered again, in order: all of
/// them if nothing gets through, none if everything does. Nothing else changes.
pub proof fn law_backlog_sent(rt: RuntimeView, delivered: Seq<bool>)
    requires
        rt.pending_peer_request.len() == delivered.len() <= usize::MAX,
    ensures
        ({
            let msgs = rt.pending_peer_request;
            let ops = backlog_sent(msgs);
            let after = stepped(resent_all(rt, msgs, delivered), ops.last());
            &&& ops.len() == msgs.len() + 1
            &&& forall|i: int|
                0 <= i < msgs.len() ==> #[trigger] ops[i] == Op::SendPeer(msgs[i])
            &&& forall|i: int, d: Option<Dispatch>|
                0 <= i < msgs.len() && #[trigger] dispatches(
                    resent_all(rt, msgs.take(i), delivered),
                    ops[i],
                    d,
                ) ==> d == Some(
                    Dispatch::Peer(ServiceBus::Msg, rt.peer_service, Request::Protocol(msgs[i])),
                )
            &&& after == (RuntimeView {
                pending_peer_request: undelivered(msgs, delivered),
                ..rt
            })
            &&& (forall|k: int| 0 <= k < msgs.len() ==> !#[trigger] delivered[k]) ==> after == rt
            &&& (forall|k: int| 0 <= k < msgs.len() ==> #[trigger] delivered[k])
                ==> after.pending_peer_request == Seq::<Msg>::empty()
        }),
{
    let msgs = rt.pending_peer_request;
    let ops = backlog_sent(msgs);
    let after = stepped(resent_all(rt, msgs, delivered), ops.last());
    lemma_resent(rt, msgs, delivered);
    lemma_undelivered(msgs, delivered);
    assert forall|i: int, d: Option<Dispatch>|
        0 <= i < msgs.len() && #[trigger] dispatches(
            resent_all(rt, msgs.take(i), delivered),
            ops[i],
            d,
        ) implies d == Some(
        Dispatch::Peer(ServiceBus::Msg, rt.peer_service, Request::Protocol(msgs[i])),
    ) by {
        lemma_resent(rt, msgs.take(i), delivered);
        assert(ops[i] == Op::SendPeer(msgs[i]));
    }
    assert(after.pending_peer_request =~= undelivered(msgs, delivered));
}

/// A message is handled only if it came over the swap's own connection and belongs to
/// the swap; else nothing is done.
pub proof fn law_foreign_messages_refused(rt: RuntimeView, source: ServiceId, msg: Msg)
    ensures
        source != rt.peer_service ==> on_rpc_msg(rt, source, Request::Protocol(msg)) == refused(
            Error::IncorrectPeer(rt.peer_service, source),
        ),
        source == rt.peer_service && msg.swap_id() is Some && msg.swap_id() != Some(rt.swap_id)
            ==> on_rpc_msg(rt, source, Request::Protocol(msg)) == refused(
            Error::IncorrectSwapId(rt.swap_id, msg.swap_id()->0),
        ),
{
}

/// A stranger on the control bus gets nothing done.
pub proof fn law_strangers_refused(
    rt: RuntimeView,
    source: ServiceId,
    request: Request,
    clock: Clock,
    r: ReactionView,
)
    requires
        !permitted(rt, source, request),
        on_rpc_ctl(rt, source, request, clock, r),
    ensures
        r.ops == Seq::<Op>::empty(),
        r.result == Err::<(), Error>(Error::Permission),
{
}

/// No step writes a checkpoint of the automaton.
spec fn keeps_none(ops: Seq<Op>) -> bool {
    forall|k: int| 0 <= k < ops.len() ==> !((#[trigger] ops[k]) is CheckpointAt)
}

proof fn lemma_keeps_none_joined(a: Seq<Op>, b: Seq<Op>)
    requires
        keeps_none(a),
        keeps_none(b),
    ensures
        keeps_none(a + b),
{
    let both = a + b;
    assert forall|k: int| 0 <= k < both.len() implies !((#[trigger] both[k]) is CheckpointAt) by {
        if k < a.len() {
            assert(both[k] == a[k]);
        } else {
            assert(both[k] == b[k - a.len()]);
        }
    }
}

/// Bob's checkpoint at the lock, which is the last step.
proof fn lemma_lock_checkpoint(
    rt: RuntimeView,
    pending: Pending,
    reply: WalletReply,
    r: PlanView,
    k: int,
)
    requires
        pending is BobRefundSignatures,
        fits(pending, reply),
        resumes(rt, pending, reply, r),
        0 <= k < r.ops.len(),
        r.ops[k] is CheckpointAt,
    ensures
        r.end == End::Next(r.ops[k]->CheckpointAt_1),
{
    if let Pending::BobRefundSignatures { local_params, remote_params, funding_address } = pending {
        let keys = match (local_params, remote_params) {
            (Params::Bob(bob), Params::Alice(alice)) => {
                let (spend, view) = choose|spend: [u8; 32], view: [u8; 32]|
                    {
                        &&& #[trigger] aggregates(
                            Some((spend, view)),
                            rt.swap_id,
                            alice,
                            bob,
                        )
                        &&& r == bob_locks(
                            rt,
                            local_params,
                            remote_params,
                            funding_address,
                            reply->RefundSigned_wallet,
                            reply->buy_procedure_signature,
                            reply->lock_tx,
                            reply->RefundSigned_cancel_tx,
                            reply->refund_tx,
                            Some((spend, view)),
                        )
                    };
                Some((spend, view))
            },
            _ => None,
        };
        let first = seq![Op::Broadcast(reply->lock_tx)];
        let kept = seq![
            Op::KeepTx(TxLabel::Cancel, reply->RefundSigned_cancel_tx),
            Op::KeepTx(TxLabel::Refund, reply->refund_tx),
        ];
        let watched = watch_acc_lock(keys);
        let buy = seq![Op::EnsureBtcTxid(TxLabel::Buy, reply->buy_procedure_signature.buy.id())];
        lemma_keeps_none_joined(first, watched);
        lemma_keeps_none_joined(first + watched, kept);
        lemma_keeps_none_joined(first + watched + kept, replays(rt));
        lemma_keeps_none_joined(first + watched + kept + replays(rt), buy);
        let before = first + watched + kept + replays(rt) + buy;
        assert(r.ops =~= before.push(r.ops.last()));
        if k < before.len() {
            assert(before[k] == r.ops[k]);
        }
    }
}

/// Alice's checkpoint before her signatures go out.
proof fn lemma_setup_checkpoint(
    rt: RuntimeView,
    pending: Pending,
    reply: WalletReply,
    r: PlanView,
    k: int,
)
    requires
        pending is AliceSetup,
        fits(pending, reply),
        resumes(rt, pending, reply, r),
        0 <= k < r.ops.len(),
        r.ops[k] is CheckpointAt,
    ensures
        r.end == End::Next(r.ops[k]->CheckpointAt_1),
{
    if let WalletReply::CoreArbSigned { cancel_tx, punish_tx, .. } = reply {
        let kept = seq![
            Op::KeepTx(TxLabel::Cancel, cancel_tx),
            Op::KeepTx(TxLabel::Punish, punish_tx),
        ];
        lemma_keeps_none_joined(kept, replays(rt));
        let before = kept + replays(rt);
        assert(r.ops =~= before + seq![r.ops[r.ops.len() - 2], r.ops.last()]);
        if k < before.len() {
            assert(before[k] == r.ops[k]);
        }
    }
}

/// A checkpoint of the automaton holds the state that the reaction leads to, so that a
/// restart goes on from there.
pub proof fn law_checkpoint_of_next(
    rt: RuntimeView,
    pending: Pending,
    reply: WalletReply,
    r: PlanView,
    msg: Option<Msg>,
    state: SwapStateMachine,
)
    requires
        fits(pending, reply),
        resumes(rt, pending, reply, r),
        r.ops.contains(Op::CheckpointAt(msg, state)),
    ensures
        r.end == End::Next(state),
{
    let k = choose|k: int| 0 <= k < r.ops.len() && r.ops[k] == Op::CheckpointAt(msg, state);
    assert(r.ops[k] is CheckpointAt);
    if pending is BobRefundSignatures {
        lemma_lock_checkpoint(rt, pending, reply, r, k);
    } else if pending is AliceSetup {
        lemma_setup_checkpoint(rt, pending, reply, r, k);
    }
}

/// Whether two reactions are the same, where a funding transaction counts by its
/// encoding and its identifier.
pub open spec fn alike(a: PlanView, b: PlanView) -> bool {
    a == b || (a.ops == b.ops && match (a.end, b.end) {
        (
            End::Ask(WalletCall::FundingTx { wallet, funding: Tx::Funding(s), swap_id }, pending),
            End::Ask(
                WalletCall::FundingTx { wallet: other, funding: Tx::Funding(t), swap_id: id },
                then,
            ),
        ) => wallet == other && swap_id == id && pending == then && s.encoding()@ == t.encoding()@
            && s.id() == t.id(),
        _ => false,
    })
}

proof fn lemma_keys_read(
    rt: RuntimeView,
    alice: crate::blob::Blob,
    bob: crate::blob::Blob,
    wallet: crate::swapd::wallet::Wallet,
    a: PlanView,
    b: PlanView,
)
    requires
        reads_keys(rt, alice, bob, wallet, a),
        reads_keys(rt, alice, bob, wallet, b),
    ensures
        a == b,
{
    assert forall|k: ([u8; 32], [u8; 32]), l: ([u8; 32], [u8; 32])|
        #[trigger] aggregates(Some(k), rt.swap_id, alice, bob) && #[trigger] aggregates(
            Some(l),
            rt.swap_id,
            alice,
            bob,
        ) implies k == l by {
        law_shared_keys_agree(Some(k), Some(l), rt.swap_id, alice, bob);
    }
    let failed = plain(End::Fail(Error::MalformedParameters));
    if a != failed && b != failed {
        let (s, v, x) = choose|spend: [u8; 32], view: [u8; 32], address: MoneroAddress|
            {
                &&& aggregates(Some((spend, view)), rt.swap_id, alice, bob)
                &&& viewpair_address(rt.syncer.network, spend@, view@) == Some(address.0@)
                &&& a == #[trigger] alice_sees_lock(rt, wallet, spend, view, address)
            };
        let (s2, v2, y) = choose|spend: [u8; 32], view: [u8; 32], address: MoneroAddress|
            {
                &&& aggregates(Some((spend, view)), rt.swap_id, alice, bob)
                &&& viewpair_address(rt.syncer.network, spend@, view@) == Some(address.0@)
                &&& b == #[trigger] alice_sees_lock(rt, wallet, spend, view, address)
            };
        assert((s, v) == (s2, v2));
        assert(x.0 =~= y.0);
    }
}

/// The automaton reacts alike whether it is run by `SwapStateMachineExecutor::execute`
/// or by `SwapStateMachine::next`: runtime, state and request fix the reaction, up to
/// the encoding of a funding transaction.
pub proof fn law_execute_as_next(
    rt: RuntimeView,
    sm: SwapStateMachine,
    event: Event,
    executed: PlanView,
    next: PlanView,
)
    requires
        reacts(rt, sm, event, executed),
        reacts(rt, sm, event, next),
    ensures
        alike(executed, next),
        !(sm is BobReveal) ==> executed == next,
{
    if let SwapStateMachine::AliceCoreArbitratingSetup(s) = sm {
        if lock_final_in(rt, event.request) {
            if let (Params::Alice(alice), Params::Bob(bob)) = (s.local_params, s.remote_params) {
                lemma_keys_read(rt, alice, bob, s.wallet, executed, next);
            }
        }
    } else if let SwapStateMachine::BobReveal(s) = sm {
        if let Some(payment) = funding_in(rt, event.request) {
            if let Some(parsed) = parsed_transaction(joined(payment.tx@)) {
                let t = choose|tx: Transaction|
                    {
                        &&& parsed == (tx.encoding()@, tx.id().0@)
                        &&& executed == #[trigger] bob_sees_funding(
                            rt,
                            event.source,
                            s,
                            payment.amount,
                            tx,
                        )
                    };
                let u = choose|tx: Transaction|
                    {
                        &&& parsed == (tx.encoding()@, tx.id().0@)
                        &&& next == #[trigger] bob_sees_funding(
                            rt,
                            event.source,
                            s,
                            payment.amount,
                            tx,
                        )
                    };
                assert(t.id().0 =~= u.id().0);
            }
        }
    }
}

/// A part of a checkpoint by its place and its bytes.
pub open spec fn parts_in(arrivals: Seq<CheckpointMultipartChunk>) -> Seq<(usize, Seq<u8>)> {
    arrivals.map_values(
        |c: CheckpointMultipartChunk| (c.msg_index, c.serialized_state_chunk@),
    )
}

/// The steps with which parts of a checkpoint from a service are collected.
pub open spec fn collecting(source: ServiceId, arrivals: Seq<CheckpointMultipartChunk>) -> Seq<Op> {
    arrivals.map_values(|c: CheckpointMultipartChunk| Op::CollectChunk(source, c))
}

proof fn lemma_collected_once(parts: Seq<(usize, Seq<u8>)>)
    requires
        parts.no_duplicates(),
    ensures
        collected(parts) == parts,
    decreases parts.len(),
{
    if parts.len() > 0 {
        let init = parts.drop_last();
        assert(init.no_duplicates());
        lemma_collected_once(init);
        assert(!init.contains(parts.last())) by {
            if init.contains(parts.last()) {
                let j = choose|j: int| 0 <= j < init.len() && init[j] == parts.last();
                assert(parts[j] == parts[parts.len() - 1]);
            }
        }
        assert(init.push(parts.last()) =~= parts);
    } else {
        assert(parts =~= Seq::empty());
    }
}

proof fn lemma_collecting(
    rt: RuntimeView,
    source: ServiceId,
    sum: Checksum,
    arrivals: Seq<CheckpointMultipartChunk>,
    k: int,
)
    requires
        !rt.chunks.dom().contains(sum),
        parts_in(arrivals).no_duplicates(),
        forall|i: int| 0 <= i < arrivals.len() ==> (#[trigger] arrivals[i]).checksum == sum,
        0 < k <= arrivals.len(),
    ensures
        stepped_all(rt, collecting(source, arrivals).take(k)) == (RuntimeView {
            chunks: rt.chunks.insert(sum, parts_in(arrivals).take(k)),
            ..rt
        }),
    decreases k,
{
    let ops = collecting(source, arrivals);
    let parts = parts_in(arrivals);
    let chunk = arrivals[k - 1];
    assert(ops.take(k).drop_last() =~= ops.take(k - 1));
    assert(ops.take(k).last() == Op::CollectChunk(source, chunk));
    assert(parts.take(k) =~= parts.take(k - 1).push(parts[k - 1]));
    let earlier = parts.take(k - 1);
    assert(!earlier.contains(parts[k - 1])) by {
        if earlier.contains(parts[k - 1]) {
            let j = choose|j: int| 0 <= j < earlier.len() && earlier[j] == parts[k - 1];
            assert(parts[j] == parts[k - 1]);
        }
    }
    let before = stepped_all(rt, ops.take(k - 1));
    if k > 1 {
        lemma_collecting(rt, source, sum, arrivals, k - 1);
        assert(before.parts(sum) == parts.take(k - 1));
        assert(before.chunks.insert(sum, parts.take(k)) =~= rt.chunks.insert(sum, parts.take(k)));
    } else {
        assert(before == rt);
        assert(parts.take(0) =~= Seq::empty());
        assert(before.parts(sum) =~= parts.take(0));
    }
}

/// The parts into which a checkpoint was cut may arrive in any order, each once, over
/// the control bus: every request succeeds with the one step that collects its part.
/// Until the last of them has come nothing but the collection changes and nothing is
/// asked of the outside world, and then the bytes that were cut up are to be read, as coming
/// from the service that sent the last part, for the swap whose checkpoint it is.
pub proof fn law_checkpoint_collected(
    rt: RuntimeView,
    source: ServiceId,
    swap_id: SwapId,
    bytes: Seq<u8>,
    sum: Checksum,
    arrivals: Seq<CheckpointMultipartChunk>,
    places: Seq<int>,
    k: int,
    clock: Clock,
    r: ReactionView,
    d: Option<Dispatch>,
)
    requires
        sum.0@ == ripemd160_digest(bytes),
        !rt.chunks.dom().contains(sum),
        arrivals.len() == cut(bytes, max_chunk()).len(),
        places.len() == arrivals.len(),
        places.no_duplicates(),
        forall|i: int|
            0 <= i < arrivals.len() ==> 0 <= #[trigger] places[i] < arrivals.len() && is_part(
                arrivals[i],
                swap_id,
                bytes,
                places[i],
            ),
        0 <= k < arrivals.len(),
        permitted(rt, source, Request::CheckpointMultipartChunk(arrivals[k])),
        on_rpc_ctl(
            stepped_all(rt, collecting(source, arrivals).take(k)),
            source,
            Request::CheckpointMultipartChunk(arrivals[k]),
            clock,
            r,
        ),
        dispatches(
            stepped_all(rt, collecting(source, arrivals).take(k)),
            Op::CollectChunk(source, arrivals[k]),
            d,
        ),
    ensures
        r == done(seq![Op::CollectChunk(source, arrivals[k])]),
        stepped_all(rt, collecting(source, arrivals).take(k + 1)) == (RuntimeView {
            chunks: rt.chunks.insert(sum, parts_in(arrivals).take(k + 1)),
            ..rt
        }),
        k < arrivals.len() - 1 ==> d is None,
        k == arrivals.len() - 1 ==> {
            &&& d matches Some(Dispatch::Decode(from, id, read))
            &&& from == source
            &&& id == swap_id
            &&& read@ == bytes
        },
{
    let ops = collecting(source, arrivals);
    let parts = parts_in(arrivals);
    let n = arrivals.len();
    let whole = numbered(bytes, max_chunk());
    assert forall|i: int| 0 <= i < n implies (#[trigger] arrivals[i]).checksum == sum && parts[i]
        == whole[places[i]] by {
        assert(is_part(arrivals[i], swap_id, bytes, places[i]));
        assert(arrivals[i].checksum.0 =~= sum.0);
        assert(parts[i].0 == places[i]);
    }
    assert forall|i: int, j: int| 0 <= i < n && 0 <= j < n && i != j implies parts[i]
        != parts[j] by {
        assert(is_part(arrivals[i], swap_id, bytes, places[i]));
        assert(is_part(arrivals[j], swap_id, bytes, places[j]));
        assert(places[i] != places[j]);
    }
    assert(parts.no_duplicates());
    lemma_collecting(rt, source, sum, arrivals, k + 1);
    if k > 0 {
        lemma_collecting(rt, source, sum, arrivals, k);
    }
    let before = stepped_all(rt, ops.take(k));
    let op = Op::CollectChunk(source, arrivals[k]);
    assert(ops.take(k + 1).drop_last() =~= ops.take(k));
    assert(stepped(before, op).parts(sum) == parts.take(k + 1));
    assert(is_part(arrivals[k], swap_id, bytes, places[k]));
    if k == n - 1 {
        assert(parts.take(k + 1) =~= parts);
        lemma_collected_once(parts);
        assert forall|i: int| 0 <= i < parts.len() implies whole.contains(#[trigger] parts[i]) by {
            assert(parts[i] == whole[places[i]]);
        }
        assert forall|read: Seq<u8>| #[trigger] assembles(parts, read) implies read == bytes by {
            law_reassembly(bytes, max_chunk(), parts, read);
        }
    }
}

} // verus!
