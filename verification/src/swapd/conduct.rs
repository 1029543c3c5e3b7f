//! How the automaton conducts itself: at which depths and amounts it publishes, pays,
//! signs and gives up.
use vstd::prelude::*;

use crate::base::{
    Blockchain, Error, Notice, Outcome, ServiceBus, ServiceId, TaskId, TxLabel, Txid,
};
use crate::blob::{joined, Blob};
use crate::chain::{parsed_transaction, BitcoinAddress, Transaction};
use crate::crypto::{
    aggregates, alice_opens, bob_opens, spec_aggregate, viewpair_address, Commit, Params, Reveal,
};
use crate::message::{
    AddressTransaction, Failure, FundingInfo, Msg, Request, SweepAddress, SyncEvent, Task,
    TaskTarget, TransactionConfirmations, Tx, TxHash,
};
use crate::swapd::runtime::{Op, RuntimeView};
use crate::swapd::steps::{
    lemma_among_five, lemma_among_four, lemma_among_joined, lemma_among_one, lemma_among_six,
    lemma_among_three, lemma_among_two,
};
use crate::swapd::swap_state::{
    abort_impossible, abort_swap, alice_interrupt, alice_sees_acc_lock, bob_interrupt, confs_in,
    funding_notice, is_open, order_btc, order_xmr, reacts, to_farcasterd, wind_up,
    AliceArbitratingLockFinal, AliceCoreArbitratingSetup, BobExchange, BobReveal, End, Event,
    Pending, PlanView, SwapStateMachine,
};
use crate::swapd::syncer_client::{abort_every, abort_one, watches};
use crate::swapd::wallet::{Wallet, WalletCall};

verus! {

/// The depth at which a request reports a transaction on the chain, whichever it is.
pub open spec fn any_depth_in(request: Request) -> Option<u32> {
    match request {
        Request::SyncerEvent(SyncEvent::TransactionConfirmations(t)) => t.confirmations,
        _ => None,
    }
}

/// The depth at which a request reports the transaction that is watched under a label.
pub open spec fn depth_in(rt: RuntimeView, request: Request, label: TxLabel) -> Option<u32> {
    match request {
        Request::SyncerEvent(SyncEvent::TransactionConfirmations(t)) => {
            if rt.syncer.watched_txs.dom().contains(t.id) && rt.syncer.watched_txs[t.id] == label {
                t.confirmations
            } else {
                None
            }
        },
        _ => None,
    }
}

/// Whether a transaction is reported on the chain, and no less deep than a threshold.
pub open spec fn reaches(depth: Option<u32>, threshold: u32) -> bool {
    depth matches Some(c) && threshold <= c
}

/// The payment that a request reports to the address that is watched under a label.
pub open spec fn payment_in(rt: RuntimeView, request: Request, label: TxLabel) -> Option<
    AddressTransaction,
> {
    match request {
        Request::SyncerEvent(SyncEvent::AddressTransaction(a)) => {
            if rt.syncer.watched_addrs.dom().contains(a.id) && rt.syncer.watched_addrs[a.id]
                == label {
                Some(a)
            } else {
                None
            }
        },
        _ => None,
    }
}

/// Whether a transaction is the one that is kept under a label.
pub open spec fn held(rt: RuntimeView, label: TxLabel, tx: Transaction) -> bool {
    rt.txs.dom().contains(label) && rt.txs[label] == tx
}

/// Whether a request says that the watched monero address is empty.
pub open spec fn empty_address_in(rt: RuntimeView, request: Request) -> bool {
    request matches Request::SyncerEvent(SyncEvent::Empty(id)) && rt.syncer.watched_addrs.dom().contains(
        id,
    ) && rt.syncer.watched_addrs[id] == TxLabel::AccLock
}

/// Whether Alice is being asked for monero that, at a depth of the lock, would come too
/// close to its cancel.
pub open spec fn funding_too_late(rt: RuntimeView, c: u32) -> bool {
    rt.syncer.awaiting_funding && rt.temporal_safety.btc_finality_thr <= c
        && rt.temporal_safety.cancel_timelock < c + rt.temporal_safety.race_thr
}

/// Whether a cancel has to be published: the swap is locked in, and the lock is reported
/// final and as deep as the cancel's timelock. An Alice who is being asked for monero
/// first withdraws the request.
pub open spec fn cancel_due(
    rt: RuntimeView,
    sm: SwapStateMachine,
    request: Request,
    tx: Transaction,
) -> bool {
    &&& held(rt, TxLabel::Cancel, tx)
    &&& depth_in(rt, request, TxLabel::Lock) matches Some(c)
    &&& rt.temporal_safety.btc_finality_thr <= c
    &&& rt.temporal_safety.cancel_timelock <= c
    &&& {
        ||| sm is BobRefundProcedureSignatures
        ||| sm is BobAccordantLock
        ||| sm is BobAccordantLockFinal
        ||| sm is AliceAccordantLock
        ||| sm is AliceArbitratingLockFinal && !funding_too_late(rt, c)
    }
}

/// Whether Bob's refund has to be published: the cancel is final and nobody has bought.
pub open spec fn refund_due(
    rt: RuntimeView,
    sm: SwapStateMachine,
    request: Request,
    tx: Transaction,
) -> bool {
    &&& sm is BobCanceled
    &&& held(rt, TxLabel::Refund, tx)
    &&& rt.syncer.buy_tx_confs is None
    &&& reaches(depth_in(rt, request, TxLabel::Cancel), rt.temporal_safety.btc_finality_thr)
}

/// Whether Bob has to be punished: the cancel is final and as deep as the punish's
/// timelock.
pub open spec fn punish_due(
    rt: RuntimeView,
    sm: SwapStateMachine,
    request: Request,
    tx: Transaction,
) -> bool {
    &&& sm is AliceCanceled
    &&& held(rt, TxLabel::Punish, tx)
    &&& reaches(depth_in(rt, request, TxLabel::Cancel), rt.temporal_safety.btc_finality_thr)
    &&& reaches(depth_in(rt, request, TxLabel::Cancel), rt.temporal_safety.punish_timelock)
}

/// A transaction is published exactly when it has to be: the cancel once the lock is
/// old enough, Bob's refund once the cancel is final, the punish once the cancel is
/// old enough. No other request makes the automaton publish, and none of these fails
/// to.
pub proof fn law_published_when_due(
    rt: RuntimeView,
    sm: SwapStateMachine,
    event: Event,
    r: PlanView,
    tx: Transaction,
)
    requires
        reacts(rt, sm, event, r),
    ensures
        r.ops.contains(Op::Broadcast(tx)) <==> (cancel_due(rt, sm, event.request, tx)
            || refund_due(rt, sm, event.request, tx) || punish_due(rt, sm, event.request, tx)),
{
    if r.ops.contains(Op::Broadcast(tx)) {
        let k = choose|k: int| 0 <= k < r.ops.len() && r.ops[k] == Op::Broadcast(tx);
        assert(r.ops[k] == Op::Broadcast(tx));
    }
    if cancel_due(rt, sm, event.request, tx) {
        assert(r.ops[1] == Op::Broadcast(tx));
    }
    if refund_due(rt, sm, event.request, tx) || punish_due(rt, sm, event.request, tx) {
        assert(r.ops[2] == Op::Broadcast(tx));
    }
}

/// What is published is let go of in the same reaction, so that it is not published
/// twice, and a swap whose cancel was just published waits for word of it where it is.
pub proof fn law_published_once(
    rt: RuntimeView,
    sm: SwapStateMachine,
    event: Event,
    r: PlanView,
    tx: Transaction,
)
    requires
        reacts(rt, sm, event, r),
    ensures
        cancel_due(rt, sm, event.request, tx) ==> r.ops == seq![
            Op::DropTx(TxLabel::Cancel),
            Op::Broadcast(tx),
        ] && r.end == End::Stay,
        refund_due(rt, sm, event.request, tx) ==> r.ops.contains(Op::DropTx(TxLabel::Refund))
            && r.end == End::Next(SwapStateMachine::BobCancelFinal),
        punish_due(rt, sm, event.request, tx) ==> r.ops.contains(Op::DropTx(TxLabel::Punish))
            && r.ops.contains(Op::EnsureBtcTxid(TxLabel::Punish, tx.id())) && r.end == End::Next(
            SwapStateMachine::AlicePunish,
        ),
{
    if refund_due(rt, sm, event.request, tx) {
        assert(r.ops[1] == Op::DropTx(TxLabel::Refund));
    }
    if punish_due(rt, sm, event.request, tx) {
        assert(r.ops[0] == Op::DropTx(TxLabel::Punish));
        assert(r.ops[1] == Op::EnsureBtcTxid(TxLabel::Punish, tx.id()));
    }
}

/// On a request the automaton sends the counterparty nothing but Bob's signature on the
/// buy, and that exactly when Alice's monero are reported as deep as their finality
/// threshold: not before, since they could still vanish, and not later.
pub proof fn law_signature_released(
    rt: RuntimeView,
    sm: SwapStateMachine,
    event: Event,
    r: PlanView,
    msg: Msg,
)
    requires
        reacts(rt, sm, event, r),
    ensures
        r.ops.contains(Op::SendPeer(msg)) <==> {
            &&& sm matches SwapStateMachine::BobAccordantLock(s)
            &&& msg == Msg::BuyProcedureSignature(s.buy_procedure_signature)
            &&& reaches(
                depth_in(rt, event.request, TxLabel::AccLock),
                rt.temporal_safety.xmr_finality_thr,
            )
        },
{
    if r.ops.contains(Op::SendPeer(msg)) {
        let k = choose|k: int| 0 <= k < r.ops.len() && r.ops[k] == Op::SendPeer(msg);
        assert(r.ops[k] == Op::SendPeer(msg));
    }
    if sm is BobAccordantLock && r.ops.len() == 1 {
        assert(r.ops.contains(r.ops[0]));
    }
}

/// The monero that Bob bought, or that Alice got back, are swept exactly when a
/// transaction is reported at a depth at which monero can be spent; the order is the one
/// that waits, and it goes to the syncer of the monero chain.
pub proof fn law_monero_swept_when_spendable(
    rt: RuntimeView,
    sm: SwapStateMachine,
    event: Event,
    r: PlanView,
    bus: ServiceBus,
    dest: ServiceId,
    sweep: SweepAddress,
)
    requires
        reacts(rt, sm, event, r),
    ensures
        r.ops.contains(Op::Send(bus, dest, Request::SyncerTask(Task::SweepAddress(sweep)))) <==> {
            &&& sm == SwapStateMachine::BobBuyFinal(sweep) || sm == SwapStateMachine::AliceRefund(
                sweep,
            )
            &&& bus == ServiceBus::Ctl
            &&& dest == ServiceId::Syncer(Blockchain::Monero, rt.syncer.network)
            &&& reaches(any_depth_in(event.request), rt.temporal_safety.sweep_monero_thr)
        },
        r.end == End::Next(SwapStateMachine::BobBuySweeping) <==> {
            &&& sm is BobBuyFinal
            &&& reaches(any_depth_in(event.request), rt.temporal_safety.sweep_monero_thr)
        },
        r.end == End::Next(SwapStateMachine::AliceRefundSweeping) <==> {
            &&& sm is AliceRefund
            &&& reaches(any_depth_in(event.request), rt.temporal_safety.sweep_monero_thr)
        },
{
    let order = Op::Send(bus, dest, Request::SyncerTask(Task::SweepAddress(sweep)));
    if r.ops.contains(order) {
        let k = choose|k: int| 0 <= k < r.ops.len() && r.ops[k] == order;
        assert(r.ops[k] == order);
    }
    if r.ops.len() == 1 {
        assert(r.ops.contains(r.ops[0]));
    }
}

/// Bob goes on, from lock to purchase or refund, exactly on these reports: at least the
/// agreed monero were paid to the shared address; that payment is final; the buy is
/// final and can be retrieved; the cancel is on the chain; the cancel is final and
/// nobody has bought.
pub proof fn law_bob_goes_on(rt: RuntimeView, sm: SwapStateMachine, event: Event, r: PlanView)
    requires
        reacts(rt, sm, event, r),
    ensures
        (r.end matches End::Next(to) && to is BobAccordantLock) <==> {
            &&& sm is BobRefundProcedureSignatures
            &&& payment_in(rt, event.request, TxLabel::AccLock) matches Some(a)
            &&& rt.syncer.monero_amount <= a.amount
        },
        (r.end matches End::Next(to) && to is BobAccordantLockFinal) <==> {
            ||| sm is BobAccordantLock && reaches(
                depth_in(rt, event.request, TxLabel::AccLock),
                rt.temporal_safety.xmr_finality_thr,
            )
            ||| sm is BobAccordantLockFinal && rt.syncer.txids.dom().contains(TxLabel::Buy)
                && reaches(
                depth_in(rt, event.request, TxLabel::Buy),
                rt.temporal_safety.btc_finality_thr,
            )
        },
        r.end == End::Next(SwapStateMachine::BobCanceled) <==> {
            &&& sm is BobFunded || sm is BobRefundProcedureSignatures || sm is BobAccordantLock
                || sm is BobAccordantLockFinal
            &&& depth_in(rt, event.request, TxLabel::Cancel) is Some
        },
        r.end == End::Next(SwapStateMachine::BobCancelFinal) <==> {
            &&& sm is BobCanceled
            &&& rt.txs.dom().contains(TxLabel::Refund)
            &&& rt.syncer.buy_tx_confs is None
            &&& reaches(
                depth_in(rt, event.request, TxLabel::Cancel),
                rt.temporal_safety.btc_finality_thr,
            )
        },
{
}

/// What a party knows stays with it from state to state.
pub proof fn law_knowledge_kept(rt: RuntimeView, sm: SwapStateMachine, event: Event, r: PlanView)
    requires
        reacts(rt, sm, event, r),
    ensures
        sm matches SwapStateMachine::BobRefundProcedureSignatures(s) ==> (r.end matches End::Next(
            SwapStateMachine::BobAccordantLock(t),
        ) ==> t.local_params == s.local_params && t.funding_address == s.funding_address
            && t.remote_params == s.remote_params && t.wallet == s.wallet
            && t.buy_procedure_signature == s.buy_procedure_signature),
        sm matches SwapStateMachine::BobAccordantLock(s) ==> (r.end matches End::Next(
            SwapStateMachine::BobAccordantLockFinal(t),
        ) ==> t.local_params == s.local_params && t.funding_address == s.funding_address
            && t.remote_params == s.remote_params && t.wallet == s.wallet),
        sm matches SwapStateMachine::BobAccordantLockFinal(s) ==> (r.end matches End::Next(
            SwapStateMachine::BobAccordantLockFinal(t),
        ) ==> t == s),
        sm matches SwapStateMachine::AliceCoreArbitratingSetup(s) ==> {
            &&& r.end matches End::Next(SwapStateMachine::AliceArbitratingLockFinal(t)) ==> t.wallet
                == s.wallet
            &&& r.end matches End::Next(SwapStateMachine::AliceCanceled(t)) ==> t.wallet == s.wallet
        },
        sm matches SwapStateMachine::AliceArbitratingLockFinal(s) ==> {
            &&& r.end matches End::Next(SwapStateMachine::AliceArbitratingLockFinal(t)) ==> t == s
            &&& r.end matches End::Next(SwapStateMachine::AliceAccordantLock(t)) ==> t.wallet
                == s.wallet
            &&& r.end matches End::Next(SwapStateMachine::AliceCanceled(t)) ==> t.wallet == s.wallet
        },
        sm matches SwapStateMachine::AliceAccordantLock(s) ==> (r.end matches End::Next(
            SwapStateMachine::AliceCanceled(t),
        ) ==> t.wallet == s.wallet),
        sm matches SwapStateMachine::AliceCanceled(s) ==> (r.end matches End::Next(
            SwapStateMachine::AliceCanceled(t),
        ) ==> t == s),
{
}

/// Alice goes on exactly on these reports: Bob's lock is as deep as bitcoin's finality
/// threshold, and the two parties' keys make an address; no more than the required
/// monero were paid to it; the cancel is on the chain, or too many monero were paid; the
/// cancel is as deep as the punish's timelock. She waits on, in the state she is in,
/// while she is asked for monero, when that request is withdrawn, and while Bob's final
/// refund is fetched.
pub proof fn law_alice_goes_on(rt: RuntimeView, sm: SwapStateMachine, event: Event, r: PlanView)
    requires
        reacts(rt, sm, event, r),
    ensures
        sm is AliceCoreArbitratingSetup ==> ((r.end matches End::Next(to) && to
            is AliceArbitratingLockFinal) ==> reaches(
            depth_in(rt, event.request, TxLabel::Lock),
            rt.temporal_safety.btc_finality_thr,
        )),
        sm matches SwapStateMachine::AliceCoreArbitratingSetup(s) ==> (reaches(
            depth_in(rt, event.request, TxLabel::Lock),
            rt.temporal_safety.btc_finality_thr,
        ) && s.local_params is Alice && s.remote_params is Bob ==> {
            ||| r.end matches End::Next(to) && to is AliceArbitratingLockFinal
            ||| r.end == End::Fail(Error::MalformedParameters)
        }),
        sm is AliceArbitratingLockFinal ==> ((r.end matches End::Next(to) && to
            is AliceArbitratingLockFinal) <==> {
            ||| empty_address_in(rt, event.request)
            ||| depth_in(rt, event.request, TxLabel::Lock) matches Some(c) && funding_too_late(rt, c)
        }),
        (r.end matches End::Next(to) && to is AliceArbitratingLockFinal) ==> sm
            is AliceArbitratingLockFinal || sm is AliceCoreArbitratingSetup,
        (r.end matches End::Next(to) && to is AliceAccordantLock) <==> {
            &&& sm matches SwapStateMachine::AliceArbitratingLockFinal(s)
            &&& payment_in(rt, event.request, TxLabel::AccLock) matches Some(a)
            &&& a.amount <= s.required_funding_amount
        },
        (r.end matches End::Next(to) && to is AliceCanceled) <==> {
            ||| (sm is AliceCoreArbitratingSetup || sm is AliceArbitratingLockFinal || sm
                is AliceAccordantLock) && depth_in(rt, event.request, TxLabel::Cancel) is Some
            ||| sm matches SwapStateMachine::AliceArbitratingLockFinal(s) && payment_in(
                rt,
                event.request,
                TxLabel::AccLock,
            ) matches Some(a) && a.amount > s.required_funding_amount
            ||| sm is AliceCanceled && rt.syncer.txids.dom().contains(TxLabel::Refund) && reaches(
                depth_in(rt, event.request, TxLabel::Refund),
                rt.temporal_safety.btc_finality_thr,
            )
        },
        r.end == End::Next(SwapStateMachine::AlicePunish) <==> {
            &&& sm is AliceCanceled
            &&& rt.txs.dom().contains(TxLabel::Punish)
            &&& reaches(
                depth_in(rt, event.request, TxLabel::Cancel),
                rt.temporal_safety.btc_finality_thr,
            )
            &&& reaches(
                depth_in(rt, event.request, TxLabel::Cancel),
                rt.temporal_safety.punish_timelock,
            )
        },
{
}

/// Bob's lock opens Alice's turn: the monero address is watched under the sum of the two
/// parties' keys, from the height noted for it or the height of the chain, and Alice
/// knows the address on the swap's network and how much the swap asks of her.
pub proof fn law_monero_address_shown(
    rt: RuntimeView,
    s: AliceCoreArbitratingSetup,
    event: Event,
    r: PlanView,
)
    requires
        reacts(rt, SwapStateMachine::AliceCoreArbitratingSetup(s), event, r),
    ensures
        r.end matches End::Next(SwapStateMachine::AliceArbitratingLockFinal(t)) ==> {
            &&& t.required_funding_amount == rt.syncer.monero_amount
            &&& t.funding_info.amount == rt.syncer.monero_amount
            &&& t.funding_info.swap_id == rt.swap_id
            &&& r.ops.len() == 2
            &&& r.ops[0] == Op::MarkMoneroHeight
            &&& r.ops[1] matches Op::EnsureXmrAddr(label, spend, view, from_height)
            &&& label == TxLabel::AccLock
            &&& from_height == Some(
                match rt.monero_address_creation_height {
                    Some(h) => h,
                    None => rt.syncer.monero_height,
                },
            )
            &&& viewpair_address(rt.syncer.network, spend@, view@) == Some(
                t.funding_info.address.0@,
            )
            &&& s.local_params matches Params::Alice(alice)
            &&& s.remote_params matches Params::Bob(bob)
            &&& aggregates(Some((spend, view)), rt.swap_id, alice, bob)
        },
        r.end == End::Fail(Error::MalformedParameters) ==> (s.local_params matches Params::Alice(
            alice,
        ) && (s.remote_params matches Params::Bob(bob) && (spec_aggregate(
            rt.swap_id,
            alice,
            bob,
        ) matches Some((spend, view)) ==> viewpair_address(rt.syncer.network, spend, view) is None))),
{
}

/// The payment that a request reports to the funding address while Bob waits for it.
pub open spec fn bitcoin_paid_in(rt: RuntimeView, request: Request) -> Option<AddressTransaction> {
    if rt.syncer.awaiting_funding {
        payment_in(rt, request, TxLabel::Funding)
    } else {
        None
    }
}

/// Bob's wallet takes in the funding transaction if and only if it pays exactly what is
/// required: the node then hears that the funding is complete. On any other amount,
/// smaller or greater, the node hears which it was, and the wallet is asked to sweep the
/// funding address. Either way Bob no longer waits for funds. A payment whose
/// transaction cannot be read fails.
pub proof fn law_bitcoin_funding_exact(rt: RuntimeView, s: BobReveal, event: Event, r: PlanView)
    requires
        reacts(rt, SwapStateMachine::BobReveal(s), event, r),
    ensures
        (r.end matches End::Ask(call, _) && call is FundingTx) <==> (bitcoin_paid_in(
            rt,
            event.request,
        ) matches Some(a) && parsed_transaction(joined(a.tx@)) is Some && a.amount
            == s.required_funding_amount),
        r.end matches End::Ask(WalletCall::FundingTx { wallet, funding, swap_id }, pending) ==> {
            &&& wallet == s.wallet
            &&& swap_id == rt.swap_id
            &&& bitcoin_paid_in(rt, event.request) matches Some(a)
            &&& funding matches Tx::Funding(tx)
            &&& parsed_transaction(joined(a.tx@)) == Some((tx.encoding()@, tx.id().0@))
            &&& pending == (Pending::BobFundingTx {
                local_params: s.local_params,
                remote_params: s.remote_params,
                funding_address: s.funding_address,
                alice_reveal: s.alice_reveal,
            })
        },
        (r.end matches End::Ask(call, pending) && call == (WalletCall::SweepBitcoin {
            wallet: s.wallet,
            funding_address: s.funding_address,
            swap_id: rt.swap_id,
        }) && pending == (Pending::BobAbort { source: event.source })) <==> {
            ||| event.request is AbortSwap
            ||| bitcoin_paid_in(rt, event.request) matches Some(a) && parsed_transaction(
                joined(a.tx@),
            ) is Some && a.amount != s.required_funding_amount
        },
        r.ops.contains(
            Op::Send(
                ServiceBus::Ctl,
                ServiceId::Farcasterd,
                Request::FundingCompleted(Blockchain::Bitcoin),
            ),
        ) <==> (r.end matches End::Ask(call, _) && call is FundingTx),
        (bitcoin_paid_in(rt, event.request) matches Some(a) && parsed_transaction(
            joined(a.tx@),
        ) is Some) ==> r.ops.len() == 2 && r.ops[0] == Op::AwaitFunding(false),
        bitcoin_paid_in(rt, event.request) matches Some(a) ==> (parsed_transaction(
            joined(a.tx@),
        ) is Some && a.amount != s.required_funding_amount ==> r.ops[1] == Op::Report(
            Some(ServiceId::Farcasterd),
            Notice::IncorrectFunding { required: s.required_funding_amount, funded: a.amount },
        )),
        r.end is Fail <==> (bitcoin_paid_in(rt, event.request) matches Some(a)
            && parsed_transaction(joined(a.tx@)) is None),
        bitcoin_paid_in(rt, event.request) is None && !(event.request is AbortSwap) ==> r.end
            == End::Stay && r.ops.len() == 0,
{
    if r.ops.len() == 2 {
        assert(r.ops.contains(r.ops[1]));
    }
}

/// What Bob has settled with Alice before she reveals her parameters.
pub open spec fn bob_settled(sm: SwapStateMachine) -> Option<BobExchange> {
    match sm {
        SwapStateMachine::BobInitMaker(s) => Some(
            BobExchange {
                local_commit: s.local_commit,
                local_params: s.local_params,
                funding_address: s.funding_address,
                remote_commit: s.remote_commit,
                wallet: s.wallet,
                deferred: s.deferred,
            },
        ),
        SwapStateMachine::BobTakerMakerCommit(s) => Some(
            BobExchange {
                local_commit: s.local_commit,
                local_params: s.local_params,
                funding_address: s.funding_address,
                remote_commit: s.remote_commit,
                wallet: s.wallet,
                deferred: s.deferred,
            },
        ),
        _ => None,
    }
}

/// The reveal that Bob looks at: the one that comes in, or the one kept until the fee
/// rate is known.
pub open spec fn reveal_at_hand(rt: RuntimeView, x: BobExchange, request: Request) -> Option<Reveal> {
    match request {
        Request::Protocol(Msg::Reveal(reveal)) => Some(reveal),
        Request::AbortSwap => None,
        _ => if rt.syncer.btc_fee_estimate_sat_per_kvb is Some {
            x.deferred
        } else {
            None
        },
    }
}

/// Whether a reveal opens a commitment of the same party, and brings these parameters.
pub open spec fn brings(reveal: Reveal, commit: Commit, params: Params) -> bool {
    match (reveal, commit) {
        (Reveal::AliceParameters(r), Commit::AliceParameters(c)) => params == Params::Alice(r.body)
            && alice_opens(c.swap_id.0@ + c.body@, r.swap_id.0@ + r.body@),
        (Reveal::BobParameters(r), Commit::BobParameters(c)) => params == Params::Bob(r.body)
            && bob_opens(c.swap_id.0@ + c.body@, r.swap_id.0@ + r.body@),
        _ => false,
    }
}

/// Whether an amount is the agreed one and the least fee that pays for a lock
/// transaction of 122 virtual bytes at a fee rate per thousand.
pub open spec fn amount_with_fee(agreed: u64, sat_per_kvb: u64, amount: int) -> bool {
    let fee = amount - agreed;
    &&& sat_per_kvb * 122 <= fee * 1000
    &&& (fee - 1) * 1000 < sat_per_kvb * 122
}

/// Bob asks for bitcoin exactly when the fee rate is known and a reveal opens Alice's
/// commitment. He asks for the agreed amount and the least sufficient fee, at the
/// address his wallet gave him, which is watched, and goes on with what was settled.
pub proof fn law_bob_asks_for_funding(
    rt: RuntimeView,
    sm: SwapStateMachine,
    event: Event,
    r: PlanView,
    x: BobExchange,
)
    requires
        reacts(rt, sm, event, r),
        bob_settled(sm) == Some(x),
    ensures
        r.end matches End::Next(SwapStateMachine::BobReveal(t)) ==> {
            &&& rt.syncer.btc_fee_estimate_sat_per_kvb matches Some(rate)
            &&& amount_with_fee(rt.syncer.bitcoin_amount, rate, t.required_funding_amount as int)
            &&& reveal_at_hand(rt, x, event.request) == Some(t.alice_reveal)
            &&& brings(t.alice_reveal, x.remote_commit, t.remote_params)
            &&& t.local_params == x.local_params
            &&& t.funding_address == x.funding_address
            &&& t.wallet == x.wallet
            &&& r.ops.contains(Op::AwaitFunding(true))
            &&& r.ops.contains(Op::EnsureBtcAddr(TxLabel::Funding, x.funding_address))
            &&& rt.enquirer matches Some(enquirer) ==> r.ops.contains(
                Op::Send(
                    ServiceBus::Ctl,
                    enquirer,
                    Request::FundingInfo(
                        FundingInfo::Bitcoin {
                            swap_id: rt.swap_id,
                            address: x.funding_address,
                            amount: t.required_funding_amount,
                        },
                    ),
                ),
            )
        },
        !(r.end matches End::Next(to) && to is BobReveal) ==> r.ops.len() == 0,
{
    if r.ops.len() > 0 {
        assert(r.ops.contains(r.ops[0]));
        assert(r.ops.contains(r.ops[1]));
        assert(r.ops.contains(r.ops[r.ops.len() - 1]));
    }
}

/// A reveal that opens Alice's commitment is taken: Bob asks for funds if the fee rate
/// is known and the amount can be written, and else keeps the reveal. One that does not
/// open it fails the swap. Without a reveal nothing happens, but that an abort has the
/// wallet sweep the funding address.
pub proof fn law_bob_takes_reveals(
    rt: RuntimeView,
    sm: SwapStateMachine,
    event: Event,
    r: PlanView,
    x: BobExchange,
    amount: int,
)
    requires
        reacts(rt, sm, event, r),
        bob_settled(sm) == Some(x),
    ensures
        reveal_at_hand(rt, x, event.request) matches Some(reveal) ==> {
            &&& r.end == End::Fail(Error::RemoteParamsInvalid) <==> (forall|p: Params|
                !brings(reveal, x.remote_commit, p))
            &&& rt.syncer.btc_fee_estimate_sat_per_kvb matches Some(rate) ==> (amount_with_fee(
                rt.syncer.bitcoin_amount,
                rate,
                amount,
            ) && r.end != End::Fail(Error::RemoteParamsInvalid) ==> (if amount <= u64::MAX {
                r.end matches End::Next(SwapStateMachine::BobReveal(t))
                    && t.required_funding_amount == amount
            } else {
                r.end == End::Fail(Error::AmountOverflow)
            }))
            &&& rt.syncer.btc_fee_estimate_sat_per_kvb is None && r.end != End::Fail(
                Error::RemoteParamsInvalid,
            ) ==> {
                &&& r.end matches End::Next(to)
                &&& (to is BobInitMaker) == (sm is BobInitMaker)
                &&& bob_settled(to) == Some(BobExchange { deferred: Some(reveal), ..x })
            }
        },
        event.request is AbortSwap ==> r.end == End::Ask(
            WalletCall::SweepBitcoin {
                wallet: x.wallet,
                funding_address: x.funding_address,
                swap_id: rt.swap_id,
            },
            Pending::BobAbort { source: event.source },
        ),
        reveal_at_hand(rt, x, event.request) is None && !(event.request is AbortSwap) ==> r.end
            == End::Stay,
{
    if let Some(reveal) = reveal_at_hand(rt, x, event.request) {
        match reveal {
            Reveal::AliceParameters(s) => {
                assert(brings(reveal, x.remote_commit, Params::Alice(s.body)) || forall|p: Params|
                    !brings(reveal, x.remote_commit, p));
            },
            Reveal::BobParameters(s) => {
                assert(brings(reveal, x.remote_commit, Params::Bob(s.body)) || forall|p: Params|
                    !brings(reveal, x.remote_commit, p));
            },
            Reveal::Proof(_) => {},
        }
    }
}

/// Alice takes Bob's parameters only out of a reveal that opens his commitment, and
/// hands just that reveal to her wallet; one that does not open it fails the swap.
pub proof fn law_alice_takes_reveals(
    rt: RuntimeView,
    sm: SwapStateMachine,
    event: Event,
    r: PlanView,
    reveal: Reveal,
)
    requires
        reacts(rt, sm, event, r),
        event.request == Request::Protocol(Msg::Reveal(reveal)),
    ensures
        sm matches SwapStateMachine::AliceInitMaker(s) ==> (if r.end is Ask {
            r.end matches End::Ask(
                WalletCall::BobReveals { wallet, reveal_msg, swap_id },
                Pending::AliceReveal { local_params, remote_params },
            ) && wallet == s.wallet && reveal_msg == reveal && swap_id == rt.swap_id
                && local_params == s.local_params && brings(reveal, s.remote_commit, remote_params)
        } else {
            r.end == End::Fail(Error::RemoteParamsInvalid) && (forall|p: Params|
                !brings(reveal, s.remote_commit, p))
        }),
        sm matches SwapStateMachine::AliceTakerMakerCommit(s) ==> (if r.end is Ask {
            r.end matches End::Ask(
                WalletCall::BobReveals { wallet, reveal_msg, swap_id },
                Pending::AliceReveal { local_params, remote_params },
            ) && wallet == s.wallet && reveal_msg == reveal && swap_id == rt.swap_id
                && local_params == s.local_params && brings(reveal, s.remote_commit, remote_params)
        } else {
            r.end == End::Fail(Error::RemoteParamsInvalid) && (forall|p: Params|
                !brings(reveal, s.remote_commit, p))
        }),
        !(sm is AliceInitMaker || sm is AliceTakerMakerCommit) ==> !(r.end matches End::Ask(call, _)
            && call is BobReveals),
{
}

/// Whether Bob drops a swap in a state: an abort is asked for, or the maker knows no
/// such offer.
pub open spec fn bob_drops(sm: SwapStateMachine, request: Request) -> bool {
    ||| request is AbortSwap && (sm is BobInitTaker || sm is BobTakerMakerCommit || sm
        is BobInitMaker || sm is BobReveal || sm is BobFunded)
    ||| sm is BobInitTaker && (request matches Request::Protocol(Msg::OfferNotFound(_)))
}

/// What Bob's wallet and his funding address are in a state in which he can drop a swap.
pub open spec fn bob_funds(sm: SwapStateMachine) -> Option<(Wallet, BitcoinAddress)> {
    match sm {
        SwapStateMachine::BobInitTaker(s) => Some((s.wallet, s.funding_address)),
        SwapStateMachine::BobTakerMakerCommit(s) => Some((s.wallet, s.funding_address)),
        SwapStateMachine::BobInitMaker(s) => Some((s.wallet, s.funding_address)),
        SwapStateMachine::BobReveal(s) => Some((s.wallet, s.funding_address)),
        SwapStateMachine::BobFunded(s) => Some((s.wallet, s.funding_address)),
        _ => None,
    }
}

/// Before Bob drops a swap his wallet is asked to sweep his own funding address, and
/// whoever asked is remembered.
pub proof fn law_bob_sweeps_his_funds(
    rt: RuntimeView,
    sm: SwapStateMachine,
    event: Event,
    r: PlanView,
    wallet: Wallet,
    funding_address: BitcoinAddress,
)
    requires
        reacts(rt, sm, event, r),
        bob_funds(sm) == Some((wallet, funding_address)),
    ensures
        bob_drops(sm, event.request) ==> r.ops.len() == 0 && r.end == End::Ask(
            WalletCall::SweepBitcoin { wallet, funding_address, swap_id: rt.swap_id },
            Pending::BobAbort { source: event.source },
        ),
        !(sm is BobReveal) && !bob_drops(sm, event.request) ==> !(r.end matches End::Ask(call, _)
            && call is SweepBitcoin),
{
}

/// The wallet is opened for a swap, as the client asked for it: a taker's only if the
/// request names this swap, a maker's with the taker's commitment. The fee rate and both
/// chains' heights are watched from then on, and a taker's counterparty and client are
/// noted.
pub proof fn law_swap_begun(rt: RuntimeView, sm: SwapStateMachine, event: Event, r: PlanView)
    requires
        reacts(rt, sm, event, r),
    ensures
        (r.end matches End::Ask(call, _) && call is NewTaker) <==> (sm is StartTaker && (
        event.request matches Request::InitTakerSwap(init) && init.swap_id == rt.swap_id)),
        r.end matches End::Ask(
            WalletCall::NewTaker {
                public_offer,
                target_bitcoin_address,
                target_monero_address,
                key_manager,
                swap_id,
            },
            pending,
        ) ==> {
            &&& event.request matches Request::InitTakerSwap(init)
            &&& sm matches SwapStateMachine::StartTaker(swap_role)
            &&& public_offer == rt.public_offer
            &&& target_bitcoin_address == init.target_bitcoin_address
            &&& target_monero_address == init.target_monero_address
            &&& key_manager == init.key_manager
            &&& swap_id == rt.swap_id
            &&& pending == (Pending::Taker { swap_role })
            &&& r.ops.contains(Op::WatchFee)
            &&& r.ops.contains(Op::WatchHeight(Blockchain::Bitcoin))
            &&& r.ops.contains(Op::WatchHeight(Blockchain::Monero))
            &&& r.ops.contains(Op::UsePeer(init.peerd))
            &&& r.ops.contains(Op::UseEnquirer(Some(init.report_to)))
            &&& r.ops.contains(
                Op::Connected(!(init.peerd matches ServiceId::Peer(n, _) && n == 0)),
            )
            &&& r.ops.len() == 6
        },
        (r.end matches End::Ask(call, _) && call is NewMaker) <==> (sm is StartMaker
            && event.request is InitMakerSwap),
        r.end matches End::Ask(
            WalletCall::NewMaker {
                public_offer,
                target_bitcoin_address,
                target_monero_address,
                key_manager,
                swap_id,
                commit,
            },
            pending,
        ) ==> {
            &&& event.request matches Request::InitMakerSwap(init)
            &&& sm matches SwapStateMachine::StartMaker(swap_role)
            &&& public_offer == rt.public_offer
            &&& target_bitcoin_address == init.target_bitcoin_address
            &&& target_monero_address == init.target_monero_address
            &&& key_manager == init.key_manager
            &&& swap_id == init.swap_id
            &&& commit == init.commit
            &&& pending == (Pending::Maker {
                swap_role,
                peerd: init.peerd,
                report_to: init.report_to,
                swap_id: init.swap_id,
                commit: init.commit,
            })
            &&& r.ops.contains(Op::WatchFee)
            &&& r.ops.contains(Op::WatchHeight(Blockchain::Bitcoin))
            &&& r.ops.contains(Op::WatchHeight(Blockchain::Monero))
            &&& r.ops.len() == 3
        },
{
    if sm is StartTaker && r.ops.len() == 6 {
        assert(r.ops.contains(r.ops[0]) && r.ops.contains(r.ops[1]) && r.ops.contains(r.ops[2]));
        assert(r.ops.contains(r.ops[3]) && r.ops.contains(r.ops[4]) && r.ops.contains(r.ops[5]));
    }
    if sm is StartMaker && r.ops.len() == 3 {
        assert(r.ops.contains(r.ops[0]) && r.ops.contains(r.ops[1]) && r.ops.contains(r.ops[2]));
    }
}

/// Whether a request brings the transaction whose retrieval bears a label.
pub open spec fn retrieved_in(rt: RuntimeView, request: Request, label: TxLabel, tx: Transaction) -> bool {
    request matches Request::SyncerEvent(SyncEvent::TransactionRetrieved { id, tx: got }) && got
        == Some(tx) && rt.syncer.retrieving_txs.dom().contains(id) && rt.syncer.retrieving_txs[id].0
        == label
}

/// Each message of the counterparty, and each transaction that was fetched, goes to the
/// wallet in the one state that waits for it, unchanged, and with the wallet of that
/// state.
pub proof fn law_wallet_consulted(
    rt: RuntimeView,
    sm: SwapStateMachine,
    event: Event,
    r: PlanView,
    call: WalletCall,
    pending: Pending,
)
    requires
        reacts(rt, sm, event, r),
    ensures
        call matches WalletCall::MakerCommit { wallet, remote_commit, swap_id } ==> (r.end
            == End::Ask(call, pending) <==> {
            &&& event.request == Request::Protocol(Msg::MakerCommit(remote_commit))
            &&& swap_id == rt.swap_id
            &&& {
                ||| sm matches SwapStateMachine::BobInitTaker(s) && wallet == s.wallet && pending
                    == (Pending::BobMakerCommit {
                    local_commit: s.local_commit,
                    local_params: s.local_params,
                    funding_address: s.funding_address,
                    remote_commit,
                })
                ||| sm matches SwapStateMachine::AliceInitTaker(s) && wallet == s.wallet && pending
                    == (Pending::AliceMakerCommit { local_params: s.local_params, remote_commit })
            }
        }),
        call matches WalletCall::CoreArbitratingSetup { wallet, setup, swap_id } ==> (r.end
            == End::Ask(call, pending) <==> {
            &&& event.request == Request::Protocol(Msg::CoreArbitratingSetup(setup))
            &&& swap_id == rt.swap_id
            &&& sm matches SwapStateMachine::AliceReveal(s)
            &&& wallet == s.wallet
            &&& pending == (Pending::AliceSetup {
                local_params: s.local_params,
                remote_params: s.remote_params,
            })
        }),
        call matches WalletCall::RefundProcedureSignatures { wallet, signatures, swap_id } ==> (
        r.end == End::Ask(call, pending) <==> {
            &&& event.request == Request::Protocol(Msg::RefundProcedureSignatures(signatures))
            &&& swap_id == rt.swap_id
            &&& sm matches SwapStateMachine::BobFunded(s)
            &&& wallet == s.wallet
            &&& pending == (Pending::BobRefundSignatures {
                local_params: s.local_params,
                remote_params: s.remote_params,
                funding_address: s.funding_address,
            })
        }),
        call matches WalletCall::BuyProcedureSignature { wallet, signature, swap_id } ==> (r.end
            == End::Ask(call, pending) <==> {
            &&& event.request == Request::Protocol(Msg::BuyProcedureSignature(signature))
            &&& swap_id == rt.swap_id
            &&& sm matches SwapStateMachine::AliceAccordantLock(s)
            &&& wallet == s.wallet
            &&& pending == Pending::AliceBuySignature
        }),
        call matches WalletCall::BuyTx { wallet, tx, swap_id, from_height } ==> (r.end == End::Ask(
            call,
            pending,
        ) <==> {
            &&& retrieved_in(rt, event.request, TxLabel::Buy, tx)
            &&& swap_id == rt.swap_id
            &&& from_height == rt.monero_address_creation_height
            &&& sm matches SwapStateMachine::BobAccordantLockFinal(s)
            &&& wallet == s.wallet
            &&& pending == Pending::BobBuyTx
        }),
        call matches WalletCall::RefundTx { wallet, tx, swap_id, from_height } ==> (r.end
            == End::Ask(call, pending) <==> {
            &&& retrieved_in(rt, event.request, TxLabel::Refund, tx)
            &&& swap_id == rt.swap_id
            &&& from_height == rt.monero_address_creation_height
            &&& sm matches SwapStateMachine::AliceCanceled(s)
            &&& wallet == s.wallet
            &&& pending == Pending::AliceRefundTx
        }),
        call is AliceReveals ==> r.end != End::Ask(call, pending),
{
}

/// A final buy is fetched for Bob, and a final refund for Alice, if its identifier is
/// known and it was not fetched before: nothing else is.
pub proof fn law_settlement_fetched(
    rt: RuntimeView,
    sm: SwapStateMachine,
    event: Event,
    r: PlanView,
    label: TxLabel,
)
    requires
        reacts(rt, sm, event, r),
    ensures
        r.ops.contains(Op::RetrieveTx(label)) <==> {
            &&& (sm is BobAccordantLockFinal && label == TxLabel::Buy) || (sm is AliceCanceled
                && label == TxLabel::Refund)
            &&& rt.syncer.txids.dom().contains(label)
            &&& reaches(depth_in(rt, event.request, label), rt.temporal_safety.btc_finality_thr)
        },
{
    if r.ops.contains(Op::RetrieveTx(label)) {
        let k = choose|k: int| 0 <= k < r.ops.len() && r.ops[k] == Op::RetrieveTx(label);
        assert(r.ops[k] == Op::RetrieveTx(label));
    }
    if sm is BobAccordantLockFinal && r.ops.len() == 2 {
        assert(r.ops.contains(r.ops[1]));
    }
    if sm is AliceCanceled && r.ops.len() == 1 {
        assert(r.ops.contains(r.ops[0]));
    }
}

/// Whether a request says that the sweep under way has succeeded.
pub open spec fn sweep_done_in(rt: RuntimeView, request: Request) -> bool {
    request matches Request::SyncerEvent(SyncEvent::SweepSuccess { id }) && rt.syncer.sweeping_addr
        == Some(id)
}

/// Whether a request says that the sweep under way, and no other task, was given up.
pub open spec fn sweep_dropped_in(rt: RuntimeView, request: Request) -> bool {
    request matches Request::SyncerEvent(SyncEvent::TaskAborted { ids }) && ids@.len() == 1
        && rt.syncer.sweeping_addr == Some(ids@[0])
}

/// A swap ends with an outcome exactly on the event that brings it about: a success when
/// Bob has swept the monero he bought or Alice's buy is final; a refund when Bob's is
/// final or its address is paid, or when Alice has swept her monero back; a punishment
/// when there is word of the punish; an abort when nothing was locked.
pub proof fn law_outcome(
    rt: RuntimeView,
    sm: SwapStateMachine,
    event: Event,
    r: PlanView,
    outcome: Outcome,
)
    requires
        reacts(rt, sm, event, r),
        !(sm is SwapEnd),
    ensures
        r.end == End::Next(SwapStateMachine::SwapEnd(outcome)) <==> match outcome {
            Outcome::SuccessSwap => {
                ||| sm is BobBuySweeping && sweep_done_in(rt, event.request)
                ||| sm is AliceBuyProcedureSignature && reaches(
                    depth_in(rt, event.request, TxLabel::Buy),
                    rt.temporal_safety.btc_finality_thr,
                )
            },
            Outcome::FailureRefund => {
                ||| sm is BobCancelFinal && reaches(
                    depth_in(rt, event.request, TxLabel::Refund),
                    rt.temporal_safety.btc_finality_thr,
                )
                ||| sm is BobCancelFinal && payment_in(rt, event.request, TxLabel::Refund) is Some
                ||| sm is AliceRefundSweeping && sweep_done_in(rt, event.request)
            },
            Outcome::FailurePunish => sm is AlicePunish && (event.request matches Request::SyncerEvent(
                SyncEvent::TransactionConfirmations(t),
            ) && rt.syncer.watched_txs.dom().contains(t.id) && rt.syncer.watched_txs[t.id]
                == TxLabel::Punish),
            Outcome::FailureAbort => {
                ||| event.request is AbortSwap && (sm is StartTaker || sm is StartMaker || sm
                    is AliceInitMaker || sm is AliceInitTaker || sm is AliceTakerMakerCommit || sm
                    is AliceReveal)
                ||| sm is AliceInitTaker && (event.request matches Request::Protocol(
                    Msg::OfferNotFound(_),
                ))
                ||| sm is BobAbortAwaitingBitcoinSweep && (sweep_done_in(rt, event.request)
                    || sweep_dropped_in(rt, event.request))
            },
        },
{
}

/// What means nothing to the automaton leaves a swap as it is: a request that is no
/// message of the counterparty, no report of a syncer, no start and no abort. The one
/// exception is Bob, who takes a reveal up again once the fee rate is known.
pub proof fn law_nothing_else(rt: RuntimeView, sm: SwapStateMachine, event: Event, r: PlanView)
    requires
        reacts(rt, sm, event, r),
        !(sm is SwapEnd),
        bob_settled(sm) matches Some(x) ==> x.deferred is None,
        !(event.request is Protocol) && !(event.request is SyncerEvent) && !(event.request
            is AbortSwap) && !(event.request is InitTakerSwap) && !(event.request is InitMakerSwap),
    ensures
        r.ops.len() == 0,
        r.end == End::Stay,
{
}

/// Word of a transaction that is not watched changes nothing, but that a sweep waits for
/// any transaction that is deep enough.
pub proof fn law_unwatched_passed_over(
    rt: RuntimeView,
    sm: SwapStateMachine,
    event: Event,
    r: PlanView,
    t: TransactionConfirmations,
)
    requires
        reacts(rt, sm, event, r),
        !(sm is SwapEnd) && !(sm is BobBuyFinal) && !(sm is AliceRefund),
        bob_settled(sm) matches Some(x) ==> x.deferred is None,
        event.request == Request::SyncerEvent(SyncEvent::TransactionConfirmations(t)),
        !rt.syncer.watched_txs.dom().contains(t.id),
    ensures
        r.ops.len() == 0,
        r.end == End::Stay,
{
}

/// Whether some watched transaction bears a label.
pub open spec fn tx_watched(rt: RuntimeView, label: TxLabel) -> bool {
    exists|id: TaskId| #[trigger]
        rt.syncer.watched_txs.dom().contains(id) && rt.syncer.watched_txs[id] == label
}

/// A request to the node.
spec fn tells_node(op: Op, request: Request) -> bool {
    op == Op::Send(ServiceBus::Ctl, ServiceId::Farcasterd, request)
}

/// A task for a syncer.
spec fn orders(rt: RuntimeView, op: Op, chain: Blockchain, task: Task) -> bool {
    op == Op::Send(
        ServiceBus::Ctl,
        ServiceId::Syncer(chain, rt.syncer.network),
        Request::SyncerTask(task),
    )
}

/// The word that a swap is aborted.
spec fn tells_aborted(event: Event, op: Op) -> bool {
    op == Op::Send(ServiceBus::Ctl, event.source, Request::Info(Notice::AbortedSwap))
}

/// A step that ends a swap for good.
spec fn winds_up(rt: RuntimeView, op: Op) -> bool {
    let all = Task::Abort { task_target: TaskTarget::AllTasks, respond: false };
    ||| orders(rt, op, Blockchain::Monero, all)
    ||| orders(rt, op, Blockchain::Bitcoin, all)
    ||| op == Op::DropTx(TxLabel::Cancel)
    ||| op == Op::DropTx(TxLabel::Refund)
    ||| op == Op::DropTx(TxLabel::Buy)
    ||| op == Op::DropTx(TxLabel::Punish)
}

/// A step with which Alice takes a payment for her lock.
spec fn takes_lock(
    rt: RuntimeView,
    s: AliceArbitratingLockFinal,
    a: AddressTransaction,
    op: Op,
) -> bool {
    ||| !tx_watched(rt, TxLabel::AccLock) && {
        ||| op == Op::BookTx(rt.syncer.next_id(), TxLabel::AccLock)
        ||| orders(
            rt,
            op,
            Blockchain::Monero,
            Task::WatchTransaction {
                id: rt.syncer.next_id(),
                lifetime: rt.syncer.lifetime(Blockchain::Monero),
                hash: TxHash::Monero(a.hash),
                confirmation_bound: rt.syncer.confirmation_bound,
            },
        )
        ||| rt.syncer.awaiting_funding && (op == Op::AwaitFunding(false) || tells_node(
            op,
            Request::FundingCompleted(Blockchain::Monero),
        ))
    }
    ||| op == Op::UnwatchAddr(a.id)
    ||| orders(
        rt,
        op,
        Blockchain::Monero,
        Task::Abort { task_target: TaskTarget::TaskId(a.id), respond: false },
    )
    ||| a.amount < s.required_funding_amount && op == Op::Report(
        rt.enquirer,
        Notice::TooSmallFunding { required: s.required_funding_amount, funded: a.amount },
    )
    ||| a.amount > s.required_funding_amount && op == Op::Report(
        rt.enquirer,
        Notice::TooBigFunding { required: s.required_funding_amount, funded: a.amount },
    )
}

proof fn lemma_lock_taken(
    rt: RuntimeView,
    s: AliceArbitratingLockFinal,
    a: AddressTransaction,
    op: Op,
)
    ensures
        alice_sees_acc_lock(rt, s, a).ops.contains(op) <==> takes_lock(rt, s, a, op),
{
    let watch = order_xmr(rt, rt.syncer.tx_task(Blockchain::Monero, TxHash::Monero(a.hash)));
    let book = Op::BookTx(rt.syncer.next_id(), TxLabel::AccLock);
    let completed = to_farcasterd(Request::FundingCompleted(Blockchain::Monero));
    let watched: Seq<Op> = if watches(rt.syncer.watched_txs, TxLabel::AccLock) {
        seq![]
    } else if rt.syncer.awaiting_funding {
        seq![book, completed, Op::AwaitFunding(false), watch]
    } else {
        seq![book, watch]
    };
    let reported: Seq<Op> = match funding_notice(s.required_funding_amount, a.amount) {
        Some(notice) => seq![Op::Report(rt.enquirer, notice)],
        None => seq![],
    };
    let left = order_xmr(rt, abort_one(a.id));
    assert(watches(rt.syncer.watched_txs, TxLabel::AccLock) == tx_watched(rt, TxLabel::AccLock));
    lemma_among_four(book, completed, Op::AwaitFunding(false), watch, op);
    lemma_among_two(book, watch, op);
    lemma_among_two(Op::UnwatchAddr(a.id), left, op);
    if let Some(notice) = funding_notice(s.required_funding_amount, a.amount) {
        lemma_among_one(Op::Report(rt.enquirer, notice), op);
    }
    lemma_among_joined(watched, seq![Op::UnwatchAddr(a.id), left], op);
    lemma_among_joined(watched + seq![Op::UnwatchAddr(a.id), left], reported, op);
}

proof fn lemma_wound_up(rt: RuntimeView, before: Seq<Op>, op: Op)
    ensures
        (before + wind_up(rt)).contains(op) <==> before.contains(op) || winds_up(rt, op),
        wind_up(rt).contains(op) <==> winds_up(rt, op),
{
    lemma_among_six(
        order_xmr(rt, abort_every()),
        order_btc(rt, abort_every()),
        Op::DropTx(TxLabel::Cancel),
        Op::DropTx(TxLabel::Refund),
        Op::DropTx(TxLabel::Buy),
        Op::DropTx(TxLabel::Punish),
        op,
    );
    lemma_among_joined(before, wind_up(rt), op);
}

/// A step that the cancel, its publication and a late request for monero call for.
spec fn alice_interrupted(rt: RuntimeView, event: Event, op: Op) -> bool {
    ||| event.request is AbortSwap && refuses_abort(event, op)
    ||| depth_in(rt, event.request, TxLabel::Cancel) is Some && rt.syncer.awaiting_funding && (
    tells_node(op, Request::FundingCanceled(Blockchain::Monero)) || op == Op::AwaitFunding(false))
    ||| cancels(rt, event, op)
}

spec fn bob_interrupted(rt: RuntimeView, event: Event, op: Op) -> bool {
    ||| event.request is AbortSwap && refuses_abort(event, op)
    ||| cancels(rt, event, op)
}

spec fn refuses_abort(event: Event, op: Op) -> bool {
    op == Op::Send(
        ServiceBus::Ctl,
        event.source,
        Request::Failure(Failure { code: 0, info: Notice::AbortImpossible }),
    )
}

spec fn cancels(rt: RuntimeView, event: Event, op: Op) -> bool {
    &&& rt.txs.dom().contains(TxLabel::Cancel)
    &&& reaches(depth_in(rt, event.request, TxLabel::Lock), rt.temporal_safety.btc_finality_thr)
    &&& reaches(depth_in(rt, event.request, TxLabel::Lock), rt.temporal_safety.cancel_timelock)
    &&& op == Op::DropTx(TxLabel::Cancel) || op == Op::Broadcast(rt.txs[TxLabel::Cancel])
}

proof fn lemma_interrupted(rt: RuntimeView, event: Event, wallet: Wallet, op: Op)
    ensures
        alice_interrupt(rt, event, wallet).ops.contains(op) <==> alice_interrupted(rt, event, op),
        bob_interrupt(rt, event).ops.contains(op) <==> bob_interrupted(rt, event, op),
{
    let canceled = to_farcasterd(Request::FundingCanceled(Blockchain::Monero));
    lemma_among_two(canceled, Op::AwaitFunding(false), op);
    lemma_among_two(
        Op::DropTx(TxLabel::Cancel),
        Op::Broadcast(rt.txs[TxLabel::Cancel]),
        op,
    );
    lemma_among_one(abort_impossible(event.source).ops[0], op);
}

/// Whether Bob's buy, his refund or the cancel is reported final in a request.
spec fn final_in(rt: RuntimeView, event: Event, label: TxLabel) -> bool {
    reaches(depth_in(rt, event.request, label), rt.temporal_safety.btc_finality_thr)
}

spec fn notes(rt: RuntimeView, event: Event, op: Op) -> bool {
    op matches Op::NoteConfs(id, confirmations, thr) && thr == rt.temporal_safety.btc_finality_thr
        && event.request == Request::SyncerEvent(
        SyncEvent::TransactionConfirmations(TransactionConfirmations { id, confirmations }),
    )
}

/// The steps of a reaction, state by state.
spec fn takes(rt: RuntimeView, sm: SwapStateMachine, event: Event, op: Op) -> bool {
    match sm {
        SwapStateMachine::StartTaker(_) => match event.request {
            Request::InitTakerSwap(init) => init.swap_id == rt.swap_id && {
                ||| op == Op::WatchFee
                ||| op is WatchHeight
                ||| op == Op::UsePeer(init.peerd)
                ||| op == Op::Connected(is_open(init.peerd))
                ||| op == Op::UseEnquirer(Some(init.report_to))
            },
            Request::AbortSwap => tells_aborted(event, op),
            _ => false,
        },
        SwapStateMachine::StartMaker(_) => match event.request {
            Request::InitMakerSwap(_) => op == Op::WatchFee || op is WatchHeight,
            Request::AbortSwap => tells_aborted(event, op),
            _ => false,
        },
        SwapStateMachine::BobInitTaker(s) => (event.request matches Request::Protocol(
            Msg::MakerCommit(_),
        )) && op == Op::EnsureBtcAddr(TxLabel::Funding, s.funding_address),
        SwapStateMachine::AliceInitTaker(_) => {
            ||| event.request is AbortSwap && tells_aborted(event, op)
            ||| (event.request matches Request::Protocol(Msg::OfferNotFound(_))) && tells_aborted(
                event,
                op,
            )
        },
        SwapStateMachine::AliceTakerMakerCommit(_) => event.request is AbortSwap
            && tells_aborted(event, op),
        SwapStateMachine::AliceInitMaker(_) => event.request is AbortSwap && tells_aborted(
            event,
            op,
        ),
        SwapStateMachine::BobReveal(s) => match bitcoin_paid_in(rt, event.request) {
            Some(a) => parsed_transaction(joined(a.tx@)) is Some && {
                ||| op == Op::AwaitFunding(false)
                ||| a.amount != s.required_funding_amount && op == Op::Report(
                    Some(ServiceId::Farcasterd),
                    Notice::IncorrectFunding {
                        required: s.required_funding_amount,
                        funded: a.amount,
                    },
                )
                ||| a.amount == s.required_funding_amount && tells_node(
                    op,
                    Request::FundingCompleted(Blockchain::Bitcoin),
                )
            },
            None => false,
        },
        SwapStateMachine::BobRefundProcedureSignatures(_) => {
            ||| bob_interrupted(rt, event, op)
            ||| payment_in(rt, event.request, TxLabel::AccLock) matches Some(a)
                && rt.syncer.monero_amount <= a.amount && {
                ||| op == Op::UnwatchAddr(a.id)
                ||| op == Op::EnsureXmrTx(TxLabel::AccLock, a.hash)
                ||| orders(
                    rt,
                    op,
                    Blockchain::Monero,
                    Task::Abort { task_target: TaskTarget::TaskId(a.id), respond: false },
                )
            }
        },
        SwapStateMachine::BobAccordantLock(s) => {
            ||| bob_interrupted(rt, event, op)
            ||| reaches(
                depth_in(rt, event.request, TxLabel::AccLock),
                rt.temporal_safety.xmr_finality_thr,
            ) && op == Op::SendPeer(Msg::BuyProcedureSignature(s.buy_procedure_signature))
        },
        SwapStateMachine::BobAccordantLockFinal(_) => {
            ||| bob_interrupted(rt, event, op)
            ||| event.request matches Request::SyncerEvent(
                SyncEvent::TransactionRetrieved { id, tx },
            ) && tx is Some && op == Op::ForgetRetrieval(id)
            ||| final_in(rt, event, TxLabel::Buy) && rt.syncer.txids.dom().contains(TxLabel::Buy)
                && (notes(rt, event, op) || op == Op::RetrieveTx(TxLabel::Buy))
        },
        SwapStateMachine::BobBuyFinal(sweep) => reaches(
            any_depth_in(event.request),
            rt.temporal_safety.sweep_monero_thr,
        ) && orders(rt, op, Blockchain::Monero, Task::SweepAddress(sweep)),
        SwapStateMachine::AliceRefund(sweep) => reaches(
            any_depth_in(event.request),
            rt.temporal_safety.sweep_monero_thr,
        ) && orders(rt, op, Blockchain::Monero, Task::SweepAddress(sweep)),
        SwapStateMachine::BobBuySweeping => sweep_done_in(rt, event.request) && {
            ||| winds_up(rt, op)
            ||| rt.syncer.awaiting_funding && (op == Op::AwaitFunding(false) || tells_node(
                op,
                Request::FundingCompleted(Blockchain::Bitcoin),
            ))
        },
        SwapStateMachine::AliceRefundSweeping => sweep_done_in(rt, event.request) && {
            ||| winds_up(rt, op)
            ||| rt.syncer.awaiting_funding && (op == Op::AwaitFunding(false) || tells_node(
                op,
                Request::FundingCompleted(Blockchain::Monero),
            ))
        },
        SwapStateMachine::BobCanceled => final_in(rt, event, TxLabel::Cancel)
            && rt.syncer.buy_tx_confs is None && rt.txs.dom().contains(TxLabel::Refund) && {
            ||| notes(rt, event, op)
            ||| op == Op::DropTx(TxLabel::Refund)
            ||| op == Op::Broadcast(rt.txs[TxLabel::Refund])
        },
        SwapStateMachine::BobCancelFinal => {
            ||| final_in(rt, event, TxLabel::Refund) && (notes(rt, event, op) || winds_up(rt, op))
            ||| payment_in(rt, event.request, TxLabel::Refund) is Some && winds_up(rt, op)
        },
        SwapStateMachine::BobAbortAwaitingBitcoinSweep => (sweep_done_in(rt, event.request)
            || sweep_dropped_in(rt, event.request)) && (tells_node(
            op,
            Request::FundingCanceled(Blockchain::Bitcoin),
        ) || tells_aborted(event, op)),
        SwapStateMachine::AliceReveal(_) => match event.request {
            Request::Protocol(Msg::CoreArbitratingSetup(setup)) => {
                ||| op == Op::EnsureBtcTxid(TxLabel::Lock, setup.lock.id())
                ||| op == Op::EnsureBtcTxid(TxLabel::Cancel, setup.cancel.id())
                ||| op == Op::EnsureBtcTxid(TxLabel::Refund, setup.refund.id())
            },
            Request::AbortSwap => tells_aborted(event, op),
            _ => false,
        },
        SwapStateMachine::AliceCoreArbitratingSetup(_) => alice_interrupted(rt, event, op),
        SwapStateMachine::AliceArbitratingLockFinal(s) => {
            ||| empty_address_in(rt, event.request) && (op == Op::AwaitFunding(true) || (
            rt.enquirer matches Some(enquirer) && op == Op::Send(
                ServiceBus::Ctl,
                enquirer,
                Request::FundingInfo(FundingInfo::Monero(s.funding_info)),
            )))
            ||| payment_in(rt, event.request, TxLabel::AccLock) matches Some(a) && takes_lock(
                rt,
                s,
                a,
                op,
            )
            ||| if depth_in(rt, event.request, TxLabel::Lock) matches Some(c) && funding_too_late(
                rt,
                c,
            ) {
                tells_node(op, Request::FundingCanceled(Blockchain::Monero)) || op
                    == Op::AwaitFunding(false)
            } else {
                alice_interrupted(rt, event, op)
            }
        },
        SwapStateMachine::AliceAccordantLock(_) => match event.request {
            Request::Protocol(Msg::BuyProcedureSignature(signature)) => op == Op::EnsureBtcTxid(
                TxLabel::Buy,
                signature.buy.id(),
            ),
            _ => alice_interrupted(rt, event, op),
        },
        SwapStateMachine::AliceBuyProcedureSignature => final_in(rt, event, TxLabel::Buy) && {
            ||| notes(rt, event, op)
            ||| winds_up(rt, op) && op != Op::DropTx(TxLabel::Refund) && op != Op::DropTx(
                TxLabel::Buy,
            )
        },
        SwapStateMachine::AliceCanceled(_) => {
            ||| event.request matches Request::SyncerEvent(
                SyncEvent::TransactionRetrieved { id, tx },
            ) && tx is Some && rt.syncer.retrieving_txs.dom().contains(id)
                && rt.syncer.retrieving_txs[id].0 == TxLabel::Refund && op == Op::ForgetRetrieval(
                id,
            )
            ||| final_in(rt, event, TxLabel::Refund) && rt.syncer.txids.dom().contains(
                TxLabel::Refund,
            ) && op == Op::RetrieveTx(TxLabel::Refund)
            ||| final_in(rt, event, TxLabel::Cancel) && reaches(
                depth_in(rt, event.request, TxLabel::Cancel),
                rt.temporal_safety.punish_timelock,
            ) && rt.txs.dom().contains(TxLabel::Punish) && {
                ||| op == Op::DropTx(TxLabel::Punish)
                ||| op == Op::EnsureBtcTxid(TxLabel::Punish, rt.txs[TxLabel::Punish].id())
                ||| op == Op::Broadcast(rt.txs[TxLabel::Punish])
            }
        },
        SwapStateMachine::AlicePunish => (event.request matches Request::SyncerEvent(
            SyncEvent::TransactionConfirmations(t),
        ) && rt.syncer.watched_txs.dom().contains(t.id) && rt.syncer.watched_txs[t.id]
            == TxLabel::Punish) && winds_up(rt, op),
        _ => false,
    }
}

/// Whether the keys of the monero address are worked out in a reaction.
spec fn opens_address(rt: RuntimeView, sm: SwapStateMachine, event: Event) -> bool {
    sm is AliceCoreArbitratingSetup && final_in(rt, event, TxLabel::Lock)
}

proof fn lemma_begins(rt: RuntimeView, sm: SwapStateMachine, event: Event, r: PlanView, op: Op)
    requires
        reacts(rt, sm, event, r),
        sm is StartTaker || sm is StartMaker,
    ensures
        r.ops.contains(op) <==> takes(rt, sm, event, op),
{
    let bitcoin = Op::WatchHeight(Blockchain::Bitcoin);
    let monero = Op::WatchHeight(Blockchain::Monero);
    lemma_among_one(abort_swap(event.source).ops[0], op);
    lemma_among_three(Op::WatchFee, bitcoin, monero, op);
    if let Request::InitTakerSwap(init) = event.request {
        lemma_among_six(
            Op::WatchFee,
            bitcoin,
            monero,
            Op::UsePeer(init.peerd),
            Op::Connected(is_open(init.peerd)),
            Op::UseEnquirer(Some(init.report_to)),
            op,
        );
    }
}

proof fn lemma_exchanges(rt: RuntimeView, sm: SwapStateMachine, event: Event, r: PlanView, op: Op)
    requires
        reacts(rt, sm, event, r),
        sm is BobInitTaker || sm is AliceInitTaker || sm is AliceTakerMakerCommit || sm
            is AliceInitMaker || sm is AliceReveal || sm is BobAbortAwaitingBitcoinSweep || sm
            is BobFunded,
    ensures
        r.ops.contains(op) <==> takes(rt, sm, event, op),
{
    let aborted = abort_swap(event.source).ops;
    lemma_among_one(aborted[0], op);
    let canceled = to_farcasterd(Request::FundingCanceled(Blockchain::Bitcoin));
    lemma_among_one(canceled, op);
    lemma_among_joined(seq![canceled], aborted, op);
    if let Request::Protocol(Msg::CoreArbitratingSetup(setup)) = event.request {
        lemma_among_three(
            Op::EnsureBtcTxid(TxLabel::Lock, setup.lock.id()),
            Op::EnsureBtcTxid(TxLabel::Cancel, setup.cancel.id()),
            Op::EnsureBtcTxid(TxLabel::Refund, setup.refund.id()),
            op,
        );
    }
    if let SwapStateMachine::BobInitTaker(s) = sm {
        lemma_among_one(Op::EnsureBtcAddr(TxLabel::Funding, s.funding_address), op);
    }
}

proof fn lemma_bob_funds(rt: RuntimeView, s: BobReveal, event: Event, r: PlanView, op: Op)
    requires
        reacts(rt, SwapStateMachine::BobReveal(s), event, r),
    ensures
        r.ops.contains(op) <==> takes(rt, SwapStateMachine::BobReveal(s), event, op),
{
    if let Some(a) = bitcoin_paid_in(rt, event.request) {
        lemma_among_two(
            Op::AwaitFunding(false),
            Op::Report(
                Some(ServiceId::Farcasterd),
                Notice::IncorrectFunding { required: s.required_funding_amount, funded: a.amount },
            ),
            op,
        );
        lemma_among_two(
            Op::AwaitFunding(false),
            to_farcasterd(Request::FundingCompleted(Blockchain::Bitcoin)),
            op,
        );
    }
}

proof fn lemma_bob_waits(rt: RuntimeView, sm: SwapStateMachine, event: Event, r: PlanView, op: Op)
    requires
        reacts(rt, sm, event, r),
        sm is BobRefundProcedureSignatures || sm is BobAccordantLock || sm
            is BobAccordantLockFinal,
    ensures
        r.ops.contains(op) <==> takes(rt, sm, event, op),
{
    lemma_interrupted(rt, event, arbitrary(), op);
    if let Some(a) = payment_in(rt, event.request, TxLabel::AccLock) {
        lemma_among_three(
            Op::UnwatchAddr(a.id),
            Op::EnsureXmrTx(TxLabel::AccLock, a.hash),
            order_xmr(rt, abort_one(a.id)),
            op,
        );
    }
    if let SwapStateMachine::BobAccordantLock(s) = sm {
        lemma_among_one(
            Op::SendPeer(Msg::BuyProcedureSignature(s.buy_procedure_signature)),
            op,
        );
    }
    if let Request::SyncerEvent(SyncEvent::TransactionRetrieved { id, .. }) = event.request {
        lemma_among_one(Op::ForgetRetrieval(id), op);
    }
    if let Some((id, c)) = confs_in(event.request) {
        lemma_among_two(
            Op::NoteConfs(id, Some(c), rt.temporal_safety.btc_finality_thr),
            Op::RetrieveTx(TxLabel::Buy),
            op,
        );
    }
}

proof fn lemma_settles(rt: RuntimeView, sm: SwapStateMachine, event: Event, r: PlanView, op: Op)
    requires
        reacts(rt, sm, event, r),
        sm is BobBuyFinal || sm is AliceRefund || sm is BobCanceled || sm is BobCancelFinal || sm
            is AliceBuyProcedureSignature || sm is AlicePunish,
    ensures
        r.ops.contains(op) <==> takes(rt, sm, event, op),
{
    if let SwapStateMachine::BobBuyFinal(sweep) = sm {
        lemma_among_one(order_xmr(rt, Task::SweepAddress(sweep)), op);
    }
    if let SwapStateMachine::AliceRefund(sweep) = sm {
        lemma_among_one(order_xmr(rt, Task::SweepAddress(sweep)), op);
    }
    lemma_wound_up(rt, seq![], op);
    if let Some((id, c)) = confs_in(event.request) {
        let note = Op::NoteConfs(id, Some(c), rt.temporal_safety.btc_finality_thr);
        lemma_among_one(note, op);
        lemma_wound_up(rt, seq![note], op);
        lemma_among_three(
            note,
            Op::DropTx(TxLabel::Refund),
            Op::Broadcast(rt.txs[TxLabel::Refund]),
            op,
        );
        lemma_among_five(
            note,
            order_xmr(rt, abort_every()),
            order_btc(rt, abort_every()),
            Op::DropTx(TxLabel::Cancel),
            Op::DropTx(TxLabel::Punish),
            op,
        );
    }
}

proof fn lemma_sweeps(rt: RuntimeView, sm: SwapStateMachine, event: Event, r: PlanView, op: Op)
    requires
        reacts(rt, sm, event, r),
        sm is BobBuySweeping || sm is AliceRefundSweeping,
    ensures
        r.ops.contains(op) <==> takes(rt, sm, event, op),
{
    let funded = if sm is BobBuySweeping {
        Blockchain::Bitcoin
    } else {
        Blockchain::Monero
    };
    let completed = to_farcasterd(Request::FundingCompleted(funded));
    lemma_among_two(Op::AwaitFunding(false), completed, op);
    lemma_wound_up(rt, seq![Op::AwaitFunding(false), completed], op);
    lemma_wound_up(rt, seq![], op);
}

proof fn lemma_alice_waits(rt: RuntimeView, sm: SwapStateMachine, event: Event, r: PlanView, op: Op)
    requires
        reacts(rt, sm, event, r),
        sm is AliceArbitratingLockFinal || sm is AliceAccordantLock || sm is AliceCanceled || (sm
            is AliceCoreArbitratingSetup && !opens_address(rt, sm, event)),
    ensures
        r.ops.contains(op) <==> takes(rt, sm, event, op),
{
    match sm {
        SwapStateMachine::AliceArbitratingLockFinal(s) => {
            lemma_interrupted(rt, event, s.wallet, op);
            let canceled = to_farcasterd(Request::FundingCanceled(Blockchain::Monero));
            lemma_among_two(canceled, Op::AwaitFunding(false), op);
            if let Some(a) = payment_in(rt, event.request, TxLabel::AccLock) {
                lemma_lock_taken(rt, s, a, op);
            }
            lemma_among_one(Op::AwaitFunding(true), op);
            let none: Seq<Op> = seq![];
            lemma_among_joined(seq![Op::AwaitFunding(true)], none, op);
            if let Some(enquirer) = rt.enquirer {
                let asked = Op::Send(
                    ServiceBus::Ctl,
                    enquirer,
                    Request::FundingInfo(FundingInfo::Monero(s.funding_info)),
                );
                lemma_among_one(asked, op);
                lemma_among_joined(seq![Op::AwaitFunding(true)], seq![asked], op);
            }
        },
        SwapStateMachine::AliceAccordantLock(s) => {
            lemma_interrupted(rt, event, s.wallet, op);
            if let Request::Protocol(Msg::BuyProcedureSignature(signature)) = event.request {
                lemma_among_one(Op::EnsureBtcTxid(TxLabel::Buy, signature.buy.id()), op);
            }
        },
        SwapStateMachine::AliceCoreArbitratingSetup(s) => {
            lemma_interrupted(rt, event, s.wallet, op);
        },
        _ => {
            if let Request::SyncerEvent(SyncEvent::TransactionRetrieved { id, .. }) =
                event.request {
                lemma_among_one(Op::ForgetRetrieval(id), op);
            }
            lemma_among_one(Op::RetrieveTx(TxLabel::Refund), op);
            lemma_among_three(
                Op::DropTx(TxLabel::Punish),
                Op::EnsureBtcTxid(TxLabel::Punish, rt.txs[TxLabel::Punish].id()),
                Op::Broadcast(rt.txs[TxLabel::Punish]),
                op,
            );
        },
    }
}

/// What Bob does about a reveal has its own laws; of all other reactions but the one in
/// which Alice works out the monero address, these are the steps.
proof fn lemma_takes(rt: RuntimeView, sm: SwapStateMachine, event: Event, r: PlanView, op: Op)
    requires
        reacts(rt, sm, event, r),
    ensures
        bob_settled(sm) is None && !opens_address(rt, sm, event) ==> (r.ops.contains(op) <==> takes(
            rt,
            sm,
            event,
            op,
        )),
        opens_address(rt, sm, event) ==> (r.ops.contains(op) ==> op is MarkMoneroHeight || op
            is EnsureXmrAddr),
        bob_settled(sm) matches Some(x) ==> (r.ops.contains(op) <==> (r.end matches End::Next(
            SwapStateMachine::BobReveal(t),
        ) && {
            ||| op == Op::AwaitFunding(true)
            ||| op == Op::EnsureBtcAddr(TxLabel::Funding, t.funding_address)
            ||| rt.enquirer matches Some(enquirer) && op == Op::Send(
                ServiceBus::Ctl,
                enquirer,
                Request::FundingInfo(
                    FundingInfo::Bitcoin {
                        swap_id: rt.swap_id,
                        address: t.funding_address,
                        amount: t.required_funding_amount,
                    },
                ),
            )
        })),
{
    if sm is StartTaker || sm is StartMaker {
        lemma_begins(rt, sm, event, r, op);
    } else if sm is BobInitTaker || sm is AliceInitTaker || sm is AliceTakerMakerCommit || sm
        is AliceInitMaker || sm is AliceReveal || sm is BobAbortAwaitingBitcoinSweep || sm
        is BobFunded {
        lemma_exchanges(rt, sm, event, r, op);
    } else if sm is BobReveal {
        lemma_bob_funds(rt, sm->BobReveal_0, event, r, op);
    } else if sm is BobRefundProcedureSignatures || sm is BobAccordantLock || sm
        is BobAccordantLockFinal {
        lemma_bob_waits(rt, sm, event, r, op);
    } else if sm is BobBuyFinal || sm is AliceRefund || sm is BobCanceled || sm is BobCancelFinal
        || sm is AliceBuyProcedureSignature || sm is AlicePunish {
        lemma_settles(rt, sm, event, r, op);
    } else if sm is BobBuySweeping || sm is AliceRefundSweeping {
        lemma_sweeps(rt, sm, event, r, op);
    } else if opens_address(rt, sm, event) {
        if r.ops.contains(op) {
            lemma_address_opened(rt, sm, event, r, op);
        }
    } else if sm is AliceArbitratingLockFinal || sm is AliceAccordantLock || sm is AliceCanceled
        || sm is AliceCoreArbitratingSetup {
        lemma_alice_waits(rt, sm, event, r, op);
    } else if bob_settled(sm) is Some {
        lemma_bob_asks(rt, sm, event, r, op, bob_settled(sm)->0);
    }
}

proof fn lemma_address_opened(
    rt: RuntimeView,
    sm: SwapStateMachine,
    event: Event,
    r: PlanView,
    op: Op,
)
    requires
        reacts(rt, sm, event, r),
        opens_address(rt, sm, event),
        r.ops.contains(op),
    ensures
        op is MarkMoneroHeight || op is EnsureXmrAddr,
{
    let k = choose|k: int| 0 <= k < r.ops.len() && r.ops[k] == op;
    assert(r.ops[k] == op);
}

proof fn lemma_bob_asks(
    rt: RuntimeView,
    sm: SwapStateMachine,
    event: Event,
    r: PlanView,
    op: Op,
    x: BobExchange,
)
    requires
        reacts(rt, sm, event, r),
        bob_settled(sm) == Some(x),
    ensures
        r.ops.contains(op) <==> (r.end matches End::Next(SwapStateMachine::BobReveal(t)) && {
            ||| op == Op::AwaitFunding(true)
            ||| op == Op::EnsureBtcAddr(TxLabel::Funding, t.funding_address)
            ||| rt.enquirer matches Some(enquirer) && op == Op::Send(
                ServiceBus::Ctl,
                enquirer,
                Request::FundingInfo(
                    FundingInfo::Bitcoin {
                        swap_id: rt.swap_id,
                        address: t.funding_address,
                        amount: t.required_funding_amount,
                    },
                ),
            )
        }),
{
    if let End::Next(SwapStateMachine::BobReveal(t)) = r.end {
        let watch = Op::EnsureBtcAddr(TxLabel::Funding, t.funding_address);
        lemma_among_two(Op::AwaitFunding(true), watch, op);
        if let Some(enquirer) = rt.enquirer {
            let info = FundingInfo::Bitcoin {
                swap_id: rt.swap_id,
                address: t.funding_address,
                amount: t.required_funding_amount,
            };
            lemma_among_three(
                Op::AwaitFunding(true),
                Op::Send(ServiceBus::Ctl, enquirer, Request::FundingInfo(info)),
                watch,
                op,
            );
        }
    }
}

/// The node hears that funding is no longer wanted exactly when Alice, while she is asked
/// for monero, sees the lock grow too old or the cancel on the chain, and when Bob's
/// abort is through.
pub proof fn law_funding_canceled(
    rt: RuntimeView,
    sm: SwapStateMachine,
    event: Event,
    r: PlanView,
    bus: ServiceBus,
    dest: ServiceId,
    chain: Blockchain,
)
    requires
        reacts(rt, sm, event, r),
    ensures
        r.ops.contains(Op::Send(bus, dest, Request::FundingCanceled(chain))) <==> {
            &&& bus == ServiceBus::Ctl
            &&& dest == ServiceId::Farcasterd
            &&& match chain {
                Blockchain::Bitcoin => sm is BobAbortAwaitingBitcoinSweep && (sweep_done_in(
                    rt,
                    event.request,
                ) || sweep_dropped_in(rt, event.request)),
                Blockchain::Monero => {
                    ||| sm is AliceArbitratingLockFinal && (depth_in(
                        rt,
                        event.request,
                        TxLabel::Lock,
                    ) matches Some(c) && funding_too_late(rt, c))
                    ||| (sm is AliceCoreArbitratingSetup || sm is AliceArbitratingLockFinal || sm
                        is AliceAccordantLock) && rt.syncer.awaiting_funding && depth_in(
                        rt,
                        event.request,
                        TxLabel::Cancel,
                    ) is Some
                },
            }
        },
{
    let op = Op::Send(bus, dest, Request::FundingCanceled(chain));
    lemma_takes(rt, sm, event, r, op);
}

/// The node hears that funding is complete exactly when Bob is paid what is required,
/// when Alice's awaited payment is first seen, and, where it was still waited for, when
/// a sweep has ended the swap.
pub proof fn law_funding_completed(
    rt: RuntimeView,
    sm: SwapStateMachine,
    event: Event,
    r: PlanView,
    bus: ServiceBus,
    dest: ServiceId,
    chain: Blockchain,
)
    requires
        reacts(rt, sm, event, r),
    ensures
        r.ops.contains(Op::Send(bus, dest, Request::FundingCompleted(chain))) <==> {
            &&& bus == ServiceBus::Ctl
            &&& dest == ServiceId::Farcasterd
            &&& rt.syncer.awaiting_funding
            &&& match chain {
                Blockchain::Bitcoin => {
                    ||| sm matches SwapStateMachine::BobReveal(s) && payment_in(
                        rt,
                        event.request,
                        TxLabel::Funding,
                    ) matches Some(a) && a.amount == s.required_funding_amount
                        && parsed_transaction(joined(a.tx@)) is Some
                    ||| sm is BobBuySweeping && sweep_done_in(rt, event.request)
                },
                Blockchain::Monero => {
                    ||| sm is AliceArbitratingLockFinal && payment_in(
                        rt,
                        event.request,
                        TxLabel::AccLock,
                    ) is Some && !tx_watched(rt, TxLabel::AccLock)
                    ||| sm is AliceRefundSweeping && sweep_done_in(rt, event.request)
                },
            }
        },
{
    let op = Op::Send(bus, dest, Request::FundingCompleted(chain));
    lemma_takes(rt, sm, event, r, op);
}

/// The client is asked for monero exactly while the watched address is empty, with what
/// Alice knows of it, and for bitcoin exactly when Bob goes over to waiting for them.
pub proof fn law_funding_asked(
    rt: RuntimeView,
    sm: SwapStateMachine,
    event: Event,
    r: PlanView,
    bus: ServiceBus,
    dest: ServiceId,
    info: FundingInfo,
)
    requires
        reacts(rt, sm, event, r),
    ensures
        r.ops.contains(Op::Send(bus, dest, Request::FundingInfo(info))) <==> {
            &&& bus == ServiceBus::Ctl
            &&& rt.enquirer == Some(dest)
            &&& match info {
                FundingInfo::Monero(m) => sm matches SwapStateMachine::AliceArbitratingLockFinal(s)
                    && m == s.funding_info && empty_address_in(rt, event.request),
                FundingInfo::Bitcoin { swap_id, address, amount } => r.end matches End::Next(
                    SwapStateMachine::BobReveal(t),
                ) && swap_id == rt.swap_id && address == t.funding_address && amount
                    == t.required_funding_amount,
            }
        },
{
    let op = Op::Send(bus, dest, Request::FundingInfo(info));
    lemma_takes(rt, sm, event, r, op);
}

/// Funding is waited for from the moment it is asked for until it is seen, or is no
/// longer wanted.
pub proof fn law_funding_awaited(
    rt: RuntimeView,
    sm: SwapStateMachine,
    event: Event,
    r: PlanView,
    awaited: bool,
)
    requires
        reacts(rt, sm, event, r),
    ensures
        r.ops.contains(Op::AwaitFunding(awaited)) <==> if awaited {
            ||| sm is AliceArbitratingLockFinal && empty_address_in(rt, event.request)
            ||| r.end matches End::Next(to) && to is BobReveal
        } else {
            ||| r.ops.contains(
                Op::Send(
                    ServiceBus::Ctl,
                    ServiceId::Farcasterd,
                    Request::FundingCompleted(Blockchain::Bitcoin),
                ),
            )
            ||| r.ops.contains(
                Op::Send(
                    ServiceBus::Ctl,
                    ServiceId::Farcasterd,
                    Request::FundingCompleted(Blockchain::Monero),
                ),
            )
            ||| r.ops.contains(
                Op::Send(
                    ServiceBus::Ctl,
                    ServiceId::Farcasterd,
                    Request::FundingCanceled(Blockchain::Monero),
                ),
            )
            ||| sm is BobReveal && (bitcoin_paid_in(rt, event.request) matches Some(a)
                && parsed_transaction(joined(a.tx@)) is Some)
        },
{
    let op = Op::AwaitFunding(awaited);
    lemma_takes(rt, sm, event, r, op);
    law_funding_completed(
        rt,
        sm,
        event,
        r,
        ServiceBus::Ctl,
        ServiceId::Farcasterd,
        Blockchain::Bitcoin,
    );
    law_funding_completed(
        rt,
        sm,
        event,
        r,
        ServiceBus::Ctl,
        ServiceId::Farcasterd,
        Blockchain::Monero,
    );
    law_funding_canceled(
        rt,
        sm,
        event,
        r,
        ServiceBus::Ctl,
        ServiceId::Farcasterd,
        Blockchain::Monero,
    );
}

/// Of an amount that is not the required one somebody hears: the node of Bob's bitcoin,
/// the client of Alice's monero, and of those whether they are too few or too many.
pub proof fn law_wrong_funding_reported(
    rt: RuntimeView,
    sm: SwapStateMachine,
    event: Event,
    r: PlanView,
    dest: Option<ServiceId>,
    notice: Notice,
)
    requires
        reacts(rt, sm, event, r),
    ensures
        r.ops.contains(Op::Report(dest, notice)) <==> match sm {
            SwapStateMachine::BobReveal(s) => {
                &&& dest == Some(ServiceId::Farcasterd)
                &&& bitcoin_paid_in(rt, event.request) matches Some(a)
                &&& parsed_transaction(joined(a.tx@)) is Some
                &&& a.amount != s.required_funding_amount
                &&& notice == (Notice::IncorrectFunding {
                    required: s.required_funding_amount,
                    funded: a.amount,
                })
            },
            SwapStateMachine::AliceArbitratingLockFinal(s) => {
                &&& dest == rt.enquirer
                &&& payment_in(rt, event.request, TxLabel::AccLock) matches Some(a)
                &&& {
                    ||| a.amount < s.required_funding_amount && notice == (Notice::TooSmallFunding {
                        required: s.required_funding_amount,
                        funded: a.amount,
                    })
                    ||| a.amount > s.required_funding_amount && notice == (Notice::TooBigFunding {
                        required: s.required_funding_amount,
                        funded: a.amount,
                    })
                }
            },
            _ => false,
        },
{
    let op = Op::Report(dest, notice);
    lemma_takes(rt, sm, event, r, op);
}

/// Whoever asked hears that a swap is aborted exactly when it is.
pub proof fn law_abort_told(
    rt: RuntimeView,
    sm: SwapStateMachine,
    event: Event,
    r: PlanView,
    bus: ServiceBus,
    dest: ServiceId,
    notice: Notice,
)
    requires
        reacts(rt, sm, event, r),
        !(sm is SwapEnd),
    ensures
        r.ops.contains(Op::Send(bus, dest, Request::Info(notice))) <==> {
            &&& bus == ServiceBus::Ctl
            &&& dest == event.source
            &&& notice == Notice::AbortedSwap
            &&& r.end == End::Next(SwapStateMachine::SwapEnd(Outcome::FailureAbort))
        },
{
    let op = Op::Send(bus, dest, Request::Info(notice));
    lemma_takes(rt, sm, event, r, op);
}

/// Nobody hears of a failure but one who asks for an abort of a locked-in swap.
pub proof fn law_abort_refused(
    rt: RuntimeView,
    sm: SwapStateMachine,
    event: Event,
    r: PlanView,
    bus: ServiceBus,
    dest: ServiceId,
    failure: Failure,
)
    requires
        reacts(rt, sm, event, r),
    ensures
        r.ops.contains(Op::Send(bus, dest, Request::Failure(failure))) <==> {
            &&& bus == ServiceBus::Ctl
            &&& dest == event.source
            &&& failure == (Failure { code: 0, info: Notice::AbortImpossible })
            &&& event.request is AbortSwap
            &&& sm is BobRefundProcedureSignatures || sm is BobAccordantLock || sm
                is BobAccordantLockFinal || sm is AliceCoreArbitratingSetup || sm
                is AliceArbitratingLockFinal || sm is AliceAccordantLock
        },
{
    let op = Op::Send(bus, dest, Request::Failure(failure));
    lemma_takes(rt, sm, event, r, op);
}

/// The payment to the shared monero address that a party takes for Alice's lock: Bob one
/// of at least the agreed amount, Alice any.
pub open spec fn monero_lock_taken(rt: RuntimeView, sm: SwapStateMachine, request: Request) -> Option<
    AddressTransaction,
> {
    match payment_in(rt, request, TxLabel::AccLock) {
        Some(a) => if sm is AliceArbitratingLockFinal || (sm is BobRefundProcedureSignatures
            && rt.syncer.monero_amount <= a.amount) {
            Some(a)
        } else {
            None
        },
        None => None,
    }
}

/// The address of a payment that is taken for Alice's lock is no longer watched, and the
/// monero syncer is told to stop; all tasks of both syncers are ended when a swap ends
/// that was not aborted. No other task is ended.
pub proof fn law_tasks_ended(
    rt: RuntimeView,
    sm: SwapStateMachine,
    event: Event,
    r: PlanView,
    bus: ServiceBus,
    dest: ServiceId,
    target: TaskTarget,
    respond: bool,
)
    requires
        reacts(rt, sm, event, r),
        !(sm is SwapEnd),
    ensures
        r.ops.contains(
            Op::Send(bus, dest, Request::SyncerTask(Task::Abort { task_target: target, respond })),
        ) <==> {
            &&& bus == ServiceBus::Ctl
            &&& !respond
            &&& match target {
                TaskTarget::TaskId(id) => monero_lock_taken(rt, sm, event.request) matches Some(a)
                    && id == a.id && dest == ServiceId::Syncer(Blockchain::Monero, rt.syncer.network),
                TaskTarget::AllTasks => (dest == ServiceId::Syncer(
                    Blockchain::Monero,
                    rt.syncer.network,
                ) || dest == ServiceId::Syncer(Blockchain::Bitcoin, rt.syncer.network)) && (
                r.end matches End::Next(SwapStateMachine::SwapEnd(outcome)) && outcome
                    != Outcome::FailureAbort),
            }
        },
{
    let op = Op::Send(bus, dest, Request::SyncerTask(Task::Abort { task_target: target, respond }));
    lemma_takes(rt, sm, event, r, op);
}

/// An address is forgotten exactly when its payment is taken for Alice's lock.
pub proof fn law_address_forgotten(
    rt: RuntimeView,
    sm: SwapStateMachine,
    event: Event,
    r: PlanView,
    id: TaskId,
)
    requires
        reacts(rt, sm, event, r),
    ensures
        r.ops.contains(Op::UnwatchAddr(id)) <==> (monero_lock_taken(
            rt,
            sm,
            event.request,
        ) matches Some(a) && id == a.id),
{
    let op = Op::UnwatchAddr(id);
    lemma_takes(rt, sm, event, r, op);
}

/// Bob has the payment that he takes for Alice's lock watched under that name, and no
/// other monero transaction.
pub proof fn law_monero_lock_watched(
    rt: RuntimeView,
    sm: SwapStateMachine,
    event: Event,
    r: PlanView,
    label: TxLabel,
    hash: Blob,
)
    requires
        reacts(rt, sm, event, r),
    ensures
        r.ops.contains(Op::EnsureXmrTx(label, hash)) <==> {
            &&& sm is BobRefundProcedureSignatures
            &&& label == TxLabel::AccLock
            &&& monero_lock_taken(rt, sm, event.request) matches Some(a)
            &&& hash == a.hash
        },
{
    let op = Op::EnsureXmrTx(label, hash);
    lemma_takes(rt, sm, event, r, op);
}

/// Alice has the payment that she takes for her lock watched once, under the next number.
pub proof fn law_own_lock_watched(
    rt: RuntimeView,
    sm: SwapStateMachine,
    event: Event,
    r: PlanView,
    id: TaskId,
    label: TxLabel,
)
    requires
        reacts(rt, sm, event, r),
    ensures
        r.ops.contains(Op::BookTx(id, label)) <==> {
            &&& sm is AliceArbitratingLockFinal
            &&& label == TxLabel::AccLock
            &&& payment_in(rt, event.request, TxLabel::AccLock) is Some
            &&& !tx_watched(rt, TxLabel::AccLock)
            &&& id == rt.syncer.next_id()
        },
{
    let op = Op::BookTx(id, label);
    lemma_takes(rt, sm, event, r, op);
}

/// The task with which Alice has her lock watched is sent along with that booking, and no
/// other transaction is watched in this way.
pub proof fn law_own_lock_task_sent(
    rt: RuntimeView,
    sm: SwapStateMachine,
    event: Event,
    r: PlanView,
    bus: ServiceBus,
    dest: ServiceId,
    id: TaskId,
    lifetime: u64,
    hash: TxHash,
    confirmation_bound: u32,
)
    requires
        reacts(rt, sm, event, r),
    ensures
        r.ops.contains(
            Op::Send(
                bus,
                dest,
                Request::SyncerTask(
                    Task::WatchTransaction { id, lifetime, hash, confirmation_bound },
                ),
            ),
        ) <==> {
            &&& r.ops.contains(Op::BookTx(id, TxLabel::AccLock))
            &&& bus == ServiceBus::Ctl
            &&& dest == ServiceId::Syncer(Blockchain::Monero, rt.syncer.network)
            &&& lifetime == rt.syncer.lifetime(Blockchain::Monero)
            &&& confirmation_bound == rt.syncer.confirmation_bound
            &&& payment_in(rt, event.request, TxLabel::AccLock) matches Some(a)
            &&& hash == TxHash::Monero(a.hash)
        },
{
    let task = Task::WatchTransaction { id, lifetime, hash, confirmation_bound };
    let op = Op::Send(bus, dest, Request::SyncerTask(task));
    lemma_takes(rt, sm, event, r, op);
    lemma_takes(rt, sm, event, r, Op::BookTx(id, TxLabel::AccLock));
}

/// Alice watches Bob's lock, cancel and refund from the moment she knows them, the buy
/// from the moment she has Bob's signature, and the punish when she publishes it.
pub proof fn law_transactions_watched(
    rt: RuntimeView,
    sm: SwapStateMachine,
    event: Event,
    r: PlanView,
    label: TxLabel,
    txid: Txid,
)
    requires
        reacts(rt, sm, event, r),
    ensures
        r.ops.contains(Op::EnsureBtcTxid(label, txid)) <==> {
            ||| sm is AliceReveal && (event.request matches Request::Protocol(
                Msg::CoreArbitratingSetup(setup),
            ) && {
                ||| label == TxLabel::Lock && txid == setup.lock.id()
                ||| label == TxLabel::Cancel && txid == setup.cancel.id()
                ||| label == TxLabel::Refund && txid == setup.refund.id()
            })
            ||| sm is AliceAccordantLock && label == TxLabel::Buy && (event.request matches Request::Protocol(
                Msg::BuyProcedureSignature(signature),
            ) && txid == signature.buy.id())
            ||| label == TxLabel::Punish && rt.txs.dom().contains(TxLabel::Punish) && txid
                == rt.txs[TxLabel::Punish].id() && punish_due(
                rt,
                sm,
                event.request,
                rt.txs[TxLabel::Punish],
            )
        },
{
    let op = Op::EnsureBtcTxid(label, txid);
    lemma_takes(rt, sm, event, r, op);
}

/// Bob's funding address is watched from the maker's commitment on, or from the moment
/// he asks for funds; no other bitcoin address is.
pub proof fn law_funding_address_watched(
    rt: RuntimeView,
    sm: SwapStateMachine,
    event: Event,
    r: PlanView,
    label: TxLabel,
    address: BitcoinAddress,
)
    requires
        reacts(rt, sm, event, r),
    ensures
        r.ops.contains(Op::EnsureBtcAddr(label, address)) <==> {
            &&& label == TxLabel::Funding
            &&& {
                ||| sm matches SwapStateMachine::BobInitTaker(s) && address == s.funding_address && (
                event.request matches Request::Protocol(Msg::MakerCommit(_)))
                ||| r.end matches End::Next(SwapStateMachine::BobReveal(t)) && address
                    == t.funding_address
            }
        },
{
    let op = Op::EnsureBtcAddr(label, address);
    lemma_takes(rt, sm, event, r, op);
}

/// A kept transaction is let go of exactly when it is published or when it can no longer
/// be wanted: after a buy that is final Alice neither cancels nor punishes, and after
/// any other end that is not an abort nothing is left.
pub proof fn law_transactions_let_go(
    rt: RuntimeView,
    sm: SwapStateMachine,
    event: Event,
    r: PlanView,
    label: TxLabel,
)
    requires
        reacts(rt, sm, event, r),
        !(sm is SwapEnd),
    ensures
        r.ops.contains(Op::DropTx(label)) <==> {
            ||| rt.txs.dom().contains(label) && label == TxLabel::Cancel && cancel_due(
                rt,
                sm,
                event.request,
                rt.txs[label],
            )
            ||| rt.txs.dom().contains(label) && label == TxLabel::Refund && refund_due(
                rt,
                sm,
                event.request,
                rt.txs[label],
            )
            ||| rt.txs.dom().contains(label) && label == TxLabel::Punish && punish_due(
                rt,
                sm,
                event.request,
                rt.txs[label],
            )
            ||| r.end matches End::Next(SwapStateMachine::SwapEnd(outcome)) && outcome
                != Outcome::FailureAbort && (label == TxLabel::Cancel || label == TxLabel::Punish
                || !(sm is AliceBuyProcedureSignature) && (label == TxLabel::Refund || label
                == TxLabel::Buy))
        },
{
    let op = Op::DropTx(label);
    lemma_takes(rt, sm, event, r, op);
}

/// A retrieval is forgotten exactly when what it was for has come.
pub proof fn law_retrieval_forgotten(
    rt: RuntimeView,
    sm: SwapStateMachine,
    event: Event,
    r: PlanView,
    id: TaskId,
)
    requires
        reacts(rt, sm, event, r),
    ensures
        r.ops.contains(Op::ForgetRetrieval(id)) <==> (event.request matches Request::SyncerEvent(
            SyncEvent::TransactionRetrieved { id: of, tx },
        ) && of == id && tx is Some && {
            ||| sm is BobAccordantLockFinal
            ||| sm is AliceCanceled && rt.syncer.retrieving_txs.dom().contains(id)
                && rt.syncer.retrieving_txs[id].0 == TxLabel::Refund
        }),
{
    let op = Op::ForgetRetrieval(id);
    lemma_takes(rt, sm, event, r, op);
}

/// The depth of a final transaction that settles a swap is noted as it was reported: of
/// the buy on both sides, and on Bob's side of the cancel and of the refund.
pub proof fn law_settlement_noted(
    rt: RuntimeView,
    sm: SwapStateMachine,
    event: Event,
    r: PlanView,
    id: TaskId,
    confirmations: Option<u32>,
    thr: u32,
)
    requires
        reacts(rt, sm, event, r),
    ensures
        r.ops.contains(Op::NoteConfs(id, confirmations, thr)) <==> {
            &&& thr == rt.temporal_safety.btc_finality_thr
            &&& event.request == Request::SyncerEvent(
                SyncEvent::TransactionConfirmations(TransactionConfirmations { id, confirmations }),
            )
            &&& {
                ||| sm is BobAccordantLockFinal && rt.syncer.txids.dom().contains(TxLabel::Buy)
                    && reaches(depth_in(rt, event.request, TxLabel::Buy), thr)
                ||| sm is AliceBuyProcedureSignature && reaches(
                    depth_in(rt, event.request, TxLabel::Buy),
                    thr,
                )
                ||| sm is BobCancelFinal && reaches(
                    depth_in(rt, event.request, TxLabel::Refund),
                    thr,
                )
                ||| sm is BobCanceled && rt.txs.dom().contains(TxLabel::Refund)
                    && rt.syncer.buy_tx_confs is None && reaches(
                    depth_in(rt, event.request, TxLabel::Cancel),
                    thr,
                )
            }
        },
{
    let op = Op::NoteConfs(id, confirmations, thr);
    lemma_takes(rt, sm, event, r, op);
}

/// On a request nothing is kept, restored, checkpointed, replayed or deferred, no task is
/// booked for a sweep, and the process goes on: such steps come only after the wallet
/// has answered, or not from the automaton at all.
pub proof fn law_steps_of_a_request(
    rt: RuntimeView,
    sm: SwapStateMachine,
    event: Event,
    r: PlanView,
    op: Op,
)
    requires
        reacts(rt, sm, event, r),
        r.ops.contains(op),
    ensures
        !(op is KeepTx) && !(op is Restore) && !(op is Checkpoint) && !(op is CheckpointAt),
        !(op is Replay) && !(op is Defer) && !(op is DeferAlso) && !(op is DropDeferred),
        !(op is BookSweep) && !(op is EnterState) && !(op is UpdateState) && !(op is Exit),
        !(op is KeepLockConfs) && !(op is KeepCancelConfs) && !(op is KeepBuyConfs),
        !(op is NoteFee) && !(op is NoteHeight) && !(op is RememberTxid) && !(op is Pause),
        !(op is TryReport) && !(op is ReportFailure) && !(op is UseMakerPeer),
        op is UsePeer || op is Connected || op is UseEnquirer || op is WatchFee || op
            is WatchHeight ==> r.end is Ask,
        op is MarkMoneroHeight || op is EnsureXmrAddr ==> sm is AliceCoreArbitratingSetup,
        op matches Op::Send(_, _, request) ==> {
            ||| request is FundingCanceled
            ||| request is FundingCompleted
            ||| request is FundingInfo
            ||| request is Info
            ||| request is Failure
            ||| request matches Request::SyncerTask(task) && (task is Abort || task
                is WatchTransaction || task is SweepAddress)
        },
{
    lemma_takes(rt, sm, event, r, op);
}

} // verus!
