//! What the automaton makes of each answer of the wallet.
use vstd::prelude::*;

use crate::base::{
    Blockchain, Error, Notice, Outcome, ServiceBus, ServiceId, SwapId, SwapRole, TaskId, TxLabel,
};
use crate::chain::{BitcoinAddress, Transaction};
use crate::crypto::{
    aggregates, alice_commitment, bob_commitment, spec_aggregate, Commit, Params, Reveal, Sealed,
};
use crate::message::{
    BuyProcedureSignature, CoreArbitratingSetup, Failure, Msg, Request, SweepAddress,
    SweepAddressAddendum, SweepBitcoinAddress, SweepMoneroAddress, SyncEvent, Task, TaskTarget,
    TransactionConfirmations,
};
use crate::swapd::conduct::{amount_with_fee, reaches};
use crate::swapd::runtime::{Op, RuntimeView};
use crate::swapd::steps::{
    lemma_among_joined, lemma_among_one, lemma_among_six, lemma_among_two,
};
use crate::swapd::swap_state::{
    bob_locks, fits, funding_amount, order_btc, order_xmr, replays, resumes, to_farcasterd, watch_acc_lock, wind_up,
    BobRefundProcedureSignatures, End, Pending, PlanView, SwapStateMachine,
};
use crate::swapd::syncer_client::abort_every;
use crate::swapd::wallet::{Wallet, WalletCall, WalletReply};

verus! {

/// Whether a commitment is the one that binds a party to its parameters in a swap.
pub open spec fn binds(commit: Commit, swap_id: SwapId, params: Params) -> bool {
    match params {
        Params::Alice(body) => commit matches Commit::AliceParameters(c) && c.swap_id == swap_id
            && alice_commitment(swap_id.0@ + body@) == Some(c.body@),
        Params::Bob(body) => commit matches Commit::BobParameters(c) && c.swap_id == swap_id
            && bob_commitment(swap_id.0@ + body@) == Some(c.body@),
    }
}

/// Whether nothing binds a party to its parameters, which are none.
pub open spec fn unbindable(swap_id: SwapId, params: Params) -> bool {
    match params {
        Params::Alice(body) => alice_commitment(swap_id.0@ + body@) is None,
        Params::Bob(body) => bob_commitment(swap_id.0@ + body@) is None,
    }
}

/// A taker whose wallet is open sends the commitment to its own parameters, with the
/// offer it takes, after the client was told, and remembers what it committed to. With
/// parameters that cannot be committed to nothing is sent, the client is told, and the
/// swap fails.
pub proof fn law_taker_commits(
    rt: RuntimeView,
    swap_role: SwapRole,
    wallet: Wallet,
    local_params: Params,
    funding_address: Option<BitcoinAddress>,
    r: PlanView,
)
    requires
        resumes(
            rt,
            Pending::Taker { swap_role },
            WalletReply::Opened { wallet, local_params, funding_address },
            r,
        ),
    ensures
        r.ops.len() == 2,
        r.ops[0] == Op::TryReport(rt.enquirer, Notice::ProposingToTake(rt.swap_id)),
        unbindable(rt.swap_id, local_params) ==> {
            &&& r.ops[1] == Op::ReportFailure(
                rt.enquirer,
                Failure { code: 0, info: Notice::CommitFailed },
            )
            &&& r.end == End::Fail(Error::MalformedParameters)
        },
        !unbindable(rt.swap_id, local_params) ==> {
            &&& r.ops[1] matches Op::SendPeer(Msg::TakerCommit(sent))
            &&& binds(sent.commit, rt.swap_id, local_params)
            &&& sent.swap_id == rt.swap_id
            &&& sent.public_offer == rt.public_offer.text
            &&& match swap_role {
                SwapRole::Bob => r.end matches End::Next(SwapStateMachine::BobInitTaker(s))
                    && s.local_commit == sent.commit && s.local_params == local_params
                    && s.funding_address == funding_address->0 && s.wallet == wallet,
                SwapRole::Alice => r.end matches End::Next(SwapStateMachine::AliceInitTaker(s))
                    && s.local_params == local_params && s.wallet == wallet,
            }
        },
{
}

/// A maker whose wallet is open notes counterparty and client, tells the client, sends
/// the commitment to its own parameters, and remembers both commitments. With
/// parameters that cannot be committed to nothing is sent, the client is told, and the
/// swap fails.
pub proof fn law_maker_commits(
    rt: RuntimeView,
    swap_role: SwapRole,
    peerd: ServiceId,
    report_to: ServiceId,
    swap_id: SwapId,
    remote_commit: Commit,
    wallet: Wallet,
    local_params: Params,
    funding_address: Option<BitcoinAddress>,
    r: PlanView,
)
    requires
        resumes(
            rt,
            Pending::Maker { swap_role, peerd, report_to, swap_id, commit: remote_commit },
            WalletReply::Opened { wallet, local_params, funding_address },
            r,
        ),
    ensures
        r.ops.len() == if peerd == ServiceId::Loopback { 4int } else { 5int },
        r.ops[0] == Op::UsePeer(peerd),
        peerd != ServiceId::Loopback ==> r.ops[1] == Op::Connected(true),
        r.ops[r.ops.len() - 3] == Op::UseEnquirer(Some(report_to)),
        r.ops[r.ops.len() - 2] == Op::TryReport(
            Some(report_to),
            Notice::AcceptingSwap(swap_id, peerd),
        ),
        unbindable(rt.swap_id, local_params) ==> {
            &&& r.ops[r.ops.len() - 1] == Op::ReportFailure(
                Some(report_to),
                Failure { code: 0, info: Notice::CommitFailed },
            )
            &&& r.end == End::Fail(Error::MalformedParameters)
        },
        !unbindable(rt.swap_id, local_params) ==> {
            &&& r.ops[r.ops.len() - 1] matches Op::SendPeer(Msg::MakerCommit(sent))
            &&& binds(sent, rt.swap_id, local_params)
            &&& match swap_role {
                SwapRole::Bob => r.end matches End::Next(SwapStateMachine::BobInitMaker(s))
                    && s.local_commit == sent && s.local_params == local_params && s.funding_address
                    == funding_address->0 && s.remote_commit == remote_commit && s.wallet == wallet
                    && s.deferred is None,
                SwapRole::Alice => r.end matches End::Next(SwapStateMachine::AliceInitMaker(s))
                    && s.local_params == local_params && s.remote_commit == remote_commit
                    && s.wallet == wallet,
            }
        },
{
}

/// A taker that has the maker's commitment reveals its own parameters, as the wallet
/// has put them, and remembers the commitment.
pub proof fn law_taker_reveals(
    rt: RuntimeView,
    pending: Pending,
    wallet: Wallet,
    reveal_msg: Reveal,
    r: PlanView,
)
    requires
        resumes(rt, pending, WalletReply::Revealed { wallet, reveal_msg }, r),
    ensures
        pending is BobMakerCommit || pending is AliceMakerCommit ==> r.ops.len() == 1 && r.ops[0]
            == Op::SendPeer(Msg::Reveal(reveal_msg)),
        pending matches Pending::BobMakerCommit {
            local_commit,
            local_params,
            funding_address,
            remote_commit,
        } ==> (r.end matches End::Next(SwapStateMachine::BobTakerMakerCommit(s)) && s.local_commit
            == local_commit && s.local_params == local_params && s.funding_address
            == funding_address && s.remote_commit == remote_commit && s.wallet == wallet
            && s.deferred is None),
        pending matches Pending::AliceMakerCommit { local_params, remote_commit } ==> (
        r.end matches End::Next(SwapStateMachine::AliceTakerMakerCommit(s)) && s.local_params
            == local_params && s.remote_commit == remote_commit && s.wallet == wallet),
{
}

/// Once the funding transaction is taken in, and not before, the wallet hears Alice's
/// reveal.
pub proof fn law_reveal_after_funding(
    rt: RuntimeView,
    local_params: Params,
    remote_params: Params,
    funding_address: BitcoinAddress,
    alice_reveal: Reveal,
    wallet: Wallet,
    r: PlanView,
)
    requires
        resumes(
            rt,
            Pending::BobFundingTx { local_params, remote_params, funding_address, alice_reveal },
            WalletReply::Funded { wallet },
            r,
        ),
    ensures
        r.ops.len() == 0,
        r.end == End::Ask(
            WalletCall::AliceReveals { wallet, reveal_msg: alice_reveal, swap_id: rt.swap_id },
            Pending::BobSetup { local_params, remote_params, funding_address },
        ),
{
}

/// Bob's transactions go out in this order: a maker first reveals; lock, cancel and
/// refund are watched under their own identifiers; the height for the monero address is
/// noted; a checkpoint is written at the state that follows, with the message; and only
/// then is the message sent.
pub proof fn law_setup_sent(
    rt: RuntimeView,
    local_params: Params,
    remote_params: Params,
    funding_address: BitcoinAddress,
    wallet: Wallet,
    maker_reveal: Option<Reveal>,
    setup: CoreArbitratingSetup,
    r: PlanView,
)
    requires
        resumes(
            rt,
            Pending::BobSetup { local_params, remote_params, funding_address },
            WalletReply::SetUp { wallet, maker_reveal, core_arb_setup: setup },
            r,
        ),
    ensures
        maker_reveal matches Some(reveal) ==> r.ops.len() == 7 && r.ops[0] == Op::SendPeer(
            Msg::Reveal(reveal),
        ),
        maker_reveal is None ==> r.ops.len() == 6,
        r.ops[r.ops.len() - 6] == Op::EnsureBtcTxid(TxLabel::Lock, setup.lock.id()),
        r.ops[r.ops.len() - 5] == Op::EnsureBtcTxid(TxLabel::Cancel, setup.cancel.id()),
        r.ops[r.ops.len() - 4] == Op::EnsureBtcTxid(TxLabel::Refund, setup.refund.id()),
        r.ops[r.ops.len() - 3] == Op::MarkMoneroHeight,
        r.end matches End::Next(next) && r.ops[r.ops.len() - 2] == Op::CheckpointAt(
            Some(Msg::CoreArbitratingSetup(setup)),
            next,
        ),
        r.ops[r.ops.len() - 1] == Op::SendPeer(Msg::CoreArbitratingSetup(setup)),
        r.end matches End::Next(SwapStateMachine::BobFunded(s)) && s.local_params == local_params
            && s.remote_params == remote_params && s.funding_address == funding_address && s.wallet
            == wallet,
{
}

/// The latest word that is handled once more: what was last heard of a transaction.
pub open spec fn repeats(rt: RuntimeView, confs: Option<TransactionConfirmations>, op: Op) -> bool {
    confs matches Some(c) && op == Op::Replay(
        ServiceId::Syncer(Blockchain::Bitcoin, rt.syncer.network),
        Request::SyncerEvent(SyncEvent::TransactionConfirmations(c)),
    )
}

proof fn lemma_replays(rt: RuntimeView, op: Op)
    ensures
        replays(rt).contains(op) <==> repeats(rt, rt.syncer.lock_tx_confs, op) || repeats(
            rt,
            rt.syncer.cancel_tx_confs,
            op,
        ),
{
    let none: Seq<Op> = seq![];
    let lock: Seq<Op> = match rt.syncer.lock_tx_confs {
        Some(c) => seq![
            Op::Replay(
                rt.bitcoin_syncer(),
                Request::SyncerEvent(SyncEvent::TransactionConfirmations(c)),
            ),
        ],
        None => none,
    };
    let cancel: Seq<Op> = match rt.syncer.cancel_tx_confs {
        Some(c) => seq![
            Op::Replay(
                rt.bitcoin_syncer(),
                Request::SyncerEvent(SyncEvent::TransactionConfirmations(c)),
            ),
        ],
        None => none,
    };
    if rt.syncer.lock_tx_confs is Some {
        lemma_among_one(lock[0], op);
    }
    if rt.syncer.cancel_tx_confs is Some {
        lemma_among_one(cancel[0], op);
    }
    lemma_among_joined(lock, cancel, op);
    assert(replays(rt) =~= lock + cancel);
}

/// With Alice's signatures in hand Bob publishes his lock, and nothing else. He keeps
/// the cancel and the refund, each under its own name, watches for the buy he signed and
/// for monero at the address that both parties' keys make, handles the latest word on
/// lock and cancel once more, and writes a checkpoint at the state that follows.
pub proof fn law_bob_locks(
    rt: RuntimeView,
    local_params: Params,
    remote_params: Params,
    funding_address: BitcoinAddress,
    wallet: Wallet,
    buy_procedure_signature: BuyProcedureSignature,
    lock_tx: Transaction,
    cancel_tx: Transaction,
    refund_tx: Transaction,
    r: PlanView,
    op: Op,
)
    requires
        resumes(
            rt,
            Pending::BobRefundSignatures { local_params, remote_params, funding_address },
            WalletReply::RefundSigned {
                wallet,
                buy_procedure_signature,
                lock_tx,
                cancel_tx,
                refund_tx,
            },
            r,
        ),
    ensures
        r.end is Fail <==> (local_params matches Params::Bob(bob) && (
        remote_params matches Params::Alice(alice) && spec_aggregate(
            rt.swap_id,
            alice,
            bob,
        ) is None)),
        r.end is Fail ==> r.end == End::Fail(Error::MalformedParameters) && r.ops.len() == 0,
        !(r.end is Fail) ==> {
            &&& r.end matches End::Next(SwapStateMachine::BobRefundProcedureSignatures(s))
            &&& s.local_params == local_params
            &&& s.remote_params == remote_params
            &&& s.funding_address == funding_address
            &&& s.wallet == wallet
            &&& s.buy_procedure_signature == buy_procedure_signature
            &&& r.ops[0] == Op::Broadcast(lock_tx)
            &&& !(op is EnsureXmrAddr) ==> (r.ops.contains(op) <==> {
                ||| op == Op::Broadcast(lock_tx)
                ||| op == Op::KeepTx(TxLabel::Cancel, cancel_tx)
                ||| op == Op::KeepTx(TxLabel::Refund, refund_tx)
                ||| repeats(rt, rt.syncer.lock_tx_confs, op)
                ||| repeats(rt, rt.syncer.cancel_tx_confs, op)
                ||| op == Op::EnsureBtcTxid(TxLabel::Buy, buy_procedure_signature.buy.id())
                ||| r.end matches End::Next(next) && op == Op::CheckpointAt(None, next)
            })
            &&& op matches Op::EnsureXmrAddr(label, spend, view, from_height) ==> (r.ops.contains(
                op,
            ) <==> {
                &&& label == TxLabel::AccLock
                &&& from_height is None
                &&& local_params matches Params::Bob(bob)
                &&& remote_params matches Params::Alice(alice)
                &&& spec_aggregate(rt.swap_id, alice, bob) == Some((spend@, view@))
            })
        },
{
    let keys: Option<([u8; 32], [u8; 32])> = match (local_params, remote_params) {
        (Params::Bob(bob), Params::Alice(alice)) => {
            let (spend, view) = choose|spend: [u8; 32], view: [u8; 32]|
                {
                    &&& #[trigger] aggregates(Some((spend, view)), rt.swap_id, alice, bob)
                    &&& r == bob_locks(
                        rt,
                        local_params,
                        remote_params,
                        funding_address,
                        wallet,
                        buy_procedure_signature,
                        lock_tx,
                        cancel_tx,
                        refund_tx,
                        Some((spend, view)),
                    )
                };
            Some((spend, view))
        },
        _ => None,
    };
    if !(r.end is Fail) {
        lemma_lock_steps(
            rt,
            local_params,
            remote_params,
            funding_address,
            wallet,
            buy_procedure_signature,
            lock_tx,
            cancel_tx,
            refund_tx,
            keys,
            op,
        );
        if let Op::EnsureXmrAddr(_, spend, view, _) = op {
            if let Some(k) = keys {
                if k.0@ == spend@ && k.1@ == view@ {
                    assert(k.0 =~= spend);
                    assert(k.1 =~= view);
                }
            }
        }
    }
}

proof fn lemma_lock_steps(
    rt: RuntimeView,
    local_params: Params,
    remote_params: Params,
    funding_address: BitcoinAddress,
    wallet: Wallet,
    buy_procedure_signature: BuyProcedureSignature,
    lock_tx: Transaction,
    cancel_tx: Transaction,
    refund_tx: Transaction,
    keys: Option<([u8; 32], [u8; 32])>,
    op: Op,
)
    ensures
        ({
            let r = bob_locks(
                rt,
                local_params,
                remote_params,
                funding_address,
                wallet,
                buy_procedure_signature,
                lock_tx,
                cancel_tx,
                refund_tx,
                keys,
            );
            &&& r.ops[0] == Op::Broadcast(lock_tx)
            &&& r.ops.contains(op) <==> {
                ||| op == Op::Broadcast(lock_tx)
                ||| keys matches Some((spend, view)) && op == Op::EnsureXmrAddr(
                    TxLabel::AccLock,
                    spend,
                    view,
                    None,
                )
                ||| op == Op::KeepTx(TxLabel::Cancel, cancel_tx)
                ||| op == Op::KeepTx(TxLabel::Refund, refund_tx)
                ||| repeats(rt, rt.syncer.lock_tx_confs, op)
                ||| repeats(rt, rt.syncer.cancel_tx_confs, op)
                ||| op == Op::EnsureBtcTxid(TxLabel::Buy, buy_procedure_signature.buy.id())
                ||| r.end matches End::Next(next) && op == Op::CheckpointAt(None, next)
            }
        }),
{
    let next = SwapStateMachine::BobRefundProcedureSignatures(
        BobRefundProcedureSignatures {
            local_params,
            funding_address,
            remote_params,
            wallet,
            buy_procedure_signature,
        },
    );
    let first = seq![Op::Broadcast(lock_tx)];
    let watched = watch_acc_lock(keys);
    let kept = seq![
        Op::KeepTx(TxLabel::Cancel, cancel_tx),
        Op::KeepTx(TxLabel::Refund, refund_tx),
    ];
    let last = seq![
        Op::EnsureBtcTxid(TxLabel::Buy, buy_procedure_signature.buy.id()),
        Op::CheckpointAt(None, next),
    ];
    lemma_among_one(Op::Broadcast(lock_tx), op);
    if keys is Some {
        lemma_among_one(watched[0], op);
    }
    lemma_among_two(
        Op::KeepTx(TxLabel::Cancel, cancel_tx),
        Op::KeepTx(TxLabel::Refund, refund_tx),
        op,
    );
    lemma_among_two(
        Op::EnsureBtcTxid(TxLabel::Buy, buy_procedure_signature.buy.id()),
        Op::CheckpointAt(None, next),
        op,
    );
    lemma_replays(rt, op);
    lemma_among_joined(first, watched, op);
    lemma_among_joined(first + watched, kept, op);
    lemma_among_joined(first + watched + kept, replays(rt), op);
    lemma_among_joined(first + watched + kept + replays(rt), last, op);
    assert((first + watched + kept + replays(rt) + last)[0] == first[0]);
}

/// Alice keeps the cancel and the punish, each under its own name, handles the latest
/// word on lock and cancel once more, writes a checkpoint at the state that follows,
/// with her signatures, and only then sends them.
pub proof fn law_alice_signs(
    rt: RuntimeView,
    local_params: Params,
    remote_params: Params,
    wallet: Wallet,
    signatures: Sealed,
    cancel_tx: Transaction,
    punish_tx: Transaction,
    r: PlanView,
    op: Op,
)
    requires
        resumes(
            rt,
            Pending::AliceSetup { local_params, remote_params },
            WalletReply::CoreArbSigned {
                wallet,
                refund_procedure_signatures: signatures,
                cancel_tx,
                punish_tx,
            },
            r,
        ),
    ensures
        r.end matches End::Next(SwapStateMachine::AliceCoreArbitratingSetup(s)) && s.local_params
            == local_params && s.remote_params == remote_params && s.wallet == wallet,
        r.ops.contains(op) <==> {
            ||| op == Op::KeepTx(TxLabel::Cancel, cancel_tx)
            ||| op == Op::KeepTx(TxLabel::Punish, punish_tx)
            ||| repeats(rt, rt.syncer.lock_tx_confs, op)
            ||| repeats(rt, rt.syncer.cancel_tx_confs, op)
            ||| r.end matches End::Next(next) && op == Op::CheckpointAt(
                Some(Msg::RefundProcedureSignatures(signatures)),
                next,
            )
            ||| op == Op::SendPeer(Msg::RefundProcedureSignatures(signatures))
        },
        r.ops.len() >= 4,
        r.ops[r.ops.len() - 2] is CheckpointAt,
        r.ops[r.ops.len() - 1] == Op::SendPeer(Msg::RefundProcedureSignatures(signatures)),
{
    let next = r.end->Next_0;
    let kept = seq![
        Op::KeepTx(TxLabel::Cancel, cancel_tx),
        Op::KeepTx(TxLabel::Punish, punish_tx),
    ];
    let checkpoint = Op::CheckpointAt(Some(Msg::RefundProcedureSignatures(signatures)), next);
    let sent = Op::SendPeer(Msg::RefundProcedureSignatures(signatures));
    let last = seq![checkpoint, sent];
    lemma_among_two(
        Op::KeepTx(TxLabel::Cancel, cancel_tx),
        Op::KeepTx(TxLabel::Punish, punish_tx),
        op,
    );
    lemma_among_two(checkpoint, sent, op);
    lemma_replays(rt, op);
    lemma_among_joined(kept, replays(rt), op);
    lemma_among_joined(kept + replays(rt), last, op);
    assert(r.ops =~= kept + replays(rt) + last);
}

/// The depth at which the lock was last heard to be, if it was on the chain.
pub open spec fn last_lock_depth(rt: RuntimeView) -> Option<u32> {
    match rt.syncer.lock_tx_confs {
        Some(t) => t.confirmations,
        None => None,
    }
}

/// Alice, who can both cancel and buy, cancels exactly when the lock was last heard to
/// be final and as deep as the cancel's timelock, and buys exactly when not: she never
/// publishes both. A buy is followed by a checkpoint at the state that follows.
pub proof fn law_alice_buys_or_cancels(
    rt: RuntimeView,
    wallet: Wallet,
    cancel_tx: Transaction,
    buy_tx: Transaction,
    r: PlanView,
    op: Op,
)
    requires
        resumes(
            rt,
            Pending::AliceBuySignature,
            WalletReply::BuySigned { wallet, cancel_tx, buy_tx },
            r,
        ),
    ensures
        r.ops.contains(op) <==> {
            let late = reaches(last_lock_depth(rt), rt.temporal_safety.btc_finality_thr) && reaches(
                last_lock_depth(rt),
                rt.temporal_safety.cancel_timelock,
            );
            ||| op == Op::KeepTx(TxLabel::Cancel, cancel_tx)
            ||| op == Op::KeepTx(TxLabel::Buy, buy_tx)
            ||| late && op == Op::Broadcast(cancel_tx)
            ||| !late && op == Op::Broadcast(buy_tx)
            ||| !late && op == Op::CheckpointAt(None, SwapStateMachine::AliceBuyProcedureSignature)
        },
        if reaches(last_lock_depth(rt), rt.temporal_safety.btc_finality_thr) && reaches(
            last_lock_depth(rt),
            rt.temporal_safety.cancel_timelock,
        ) {
            r.end matches End::Next(SwapStateMachine::AliceCanceled(s)) && s.wallet == wallet
        } else {
            r.end == End::Next(SwapStateMachine::AliceBuyProcedureSignature)
        },
{
    let kept = seq![Op::KeepTx(TxLabel::Cancel, cancel_tx), Op::KeepTx(TxLabel::Buy, buy_tx)];
    let bought = Op::CheckpointAt(None, SwapStateMachine::AliceBuyProcedureSignature);
    lemma_among_two(
        Op::KeepTx(TxLabel::Cancel, cancel_tx),
        Op::KeepTx(TxLabel::Buy, buy_tx),
        op,
    );
    lemma_among_one(Op::Broadcast(cancel_tx), op);
    lemma_among_two(Op::Broadcast(buy_tx), bought, op);
    lemma_among_joined(kept, seq![Op::Broadcast(cancel_tx)], op);
    lemma_among_joined(kept, seq![Op::Broadcast(buy_tx), bought], op);
}

/// Whether an order sweeps monero under these keys, under the next number.
pub open spec fn sweeps_monero(
    rt: RuntimeView,
    keys: SweepMoneroAddress,
    from_height: Option<u64>,
    sweep: SweepAddress,
) -> bool {
    &&& sweep.id.0 == (rt.syncer.counter + 1) as u32
    &&& sweep.lifetime == rt.syncer.lifetime(Blockchain::Monero)
    &&& sweep.from_height == from_height
    &&& sweep.retry
    &&& sweep.addendum == SweepAddressAddendum::Monero(keys)
}

/// Bob, who has found Alice's key in her buy, books the sweep of the monero, to be
/// repeated until it succeeds, and waits with it until they can be spent.
pub proof fn law_bob_prepares_sweep(
    rt: RuntimeView,
    keys: SweepMoneroAddress,
    from_height: Option<u64>,
    r: PlanView,
)
    requires
        resumes(
            rt,
            Pending::BobBuyTx,
            WalletReply::SweepMonero { xmr_keys: keys, from_height },
            r,
        ),
    ensures
        r.end matches End::Next(SwapStateMachine::BobBuyFinal(sweep)) && sweeps_monero(
            rt,
            keys,
            from_height,
            sweep,
        ) && r.ops.len() == 1 && r.ops[0] == Op::BookSweep(sweep.id),
{
}

/// Alice, who has found Bob's key in his refund, books the sweep of her monero if they
/// were ever seen on the chain. If they were not the swap is over: all tasks are ended
/// and nothing is left that could be published.
pub proof fn law_alice_prepares_sweep(
    rt: RuntimeView,
    keys: SweepMoneroAddress,
    from_height: Option<u64>,
    r: PlanView,
    op: Op,
)
    requires
        resumes(
            rt,
            Pending::AliceRefundTx,
            WalletReply::SweepMonero { xmr_keys: keys, from_height },
            r,
        ),
    ensures
        rt.syncer.confirmations.dom().contains(TxLabel::AccLock) ==> (r.end matches End::Next(
            SwapStateMachine::AliceRefund(sweep),
        ) && sweeps_monero(rt, keys, from_height, sweep) && r.ops.len() == 1 && r.ops[0]
            == Op::BookSweep(sweep.id)),
        !rt.syncer.confirmations.dom().contains(TxLabel::AccLock) ==> r.end == End::Next(
            SwapStateMachine::SwapEnd(Outcome::FailureRefund),
        ) && (r.ops.contains(op) <==> {
            ||| op == Op::Send(
                ServiceBus::Ctl,
                ServiceId::Syncer(Blockchain::Monero, rt.syncer.network),
                Request::SyncerTask(
                    Task::Abort {
                        task_target: TaskTarget::AllTasks,
                        respond: false,
                    },
                ),
            )
            ||| op == Op::Send(
                ServiceBus::Ctl,
                ServiceId::Syncer(Blockchain::Bitcoin, rt.syncer.network),
                Request::SyncerTask(
                    Task::Abort {
                        task_target: TaskTarget::AllTasks,
                        respond: false,
                    },
                ),
            )
            ||| op == Op::DropTx(TxLabel::Cancel)
            ||| op == Op::DropTx(TxLabel::Refund)
            ||| op == Op::DropTx(TxLabel::Buy)
            ||| op == Op::DropTx(TxLabel::Punish)
            ||| rt.syncer.awaiting_funding && op == Op::AwaitFunding(false)
            ||| rt.syncer.awaiting_funding && op == Op::Send(
                ServiceBus::Ctl,
                ServiceId::Farcasterd,
                Request::FundingCompleted(Blockchain::Monero),
            )
        }),
{
    let completed = to_farcasterd(Request::FundingCompleted(Blockchain::Monero));
    let reported = seq![Op::AwaitFunding(false), completed];
    let none: Seq<Op> = seq![];
    lemma_among_two(Op::AwaitFunding(false), completed, op);
    lemma_among_six(
        order_xmr(rt, abort_every()),
        order_btc(rt, abort_every()),
        Op::DropTx(TxLabel::Cancel),
        Op::DropTx(TxLabel::Refund),
        Op::DropTx(TxLabel::Buy),
        Op::DropTx(TxLabel::Punish),
        op,
    );
    lemma_among_joined(reported, wind_up(rt), op);
    lemma_among_joined(none, wind_up(rt), op);
}

/// Bob's abort sweeps his funding address, under the next number and without repeating
/// a sweep of nothing; whoever asked hears that the swap is being aborted.
pub proof fn law_abort_sweeps(
    rt: RuntimeView,
    source: ServiceId,
    keys: SweepBitcoinAddress,
    r: PlanView,
)
    requires
        resumes(
            rt,
            Pending::BobAbort { source },
            WalletReply::SweepBitcoin { btc_keys: keys },
            r,
        ),
    ensures
        r.end == End::Next(SwapStateMachine::BobAbortAwaitingBitcoinSweep),
        r.ops.len() == 3,
        r.ops[0] == Op::BookSweep(TaskId((rt.syncer.counter + 1) as u32)),
        r.ops[1] matches Op::Send(bus, dest, Request::SyncerTask(Task::SweepAddress(sweep))) && bus
            == ServiceBus::Ctl && dest == ServiceId::Syncer(Blockchain::Bitcoin, rt.syncer.network)
            && sweep.id.0 == (rt.syncer.counter + 1) as u32 && sweep.lifetime == rt.syncer.lifetime(
            Blockchain::Bitcoin,
        ) && sweep.from_height is None && !sweep.retry && sweep.addendum
            == SweepAddressAddendum::Bitcoin(keys),
        r.ops[2] == Op::Send(ServiceBus::Ctl, source, Request::Info(Notice::AbortingSwap)),
{
}

/// Alice, who has Bob's parameters, reveals hers if she is the maker, as the wallet has
/// put them, and keeps both parties' parameters.
pub proof fn law_alice_reveals(
    rt: RuntimeView,
    local_params: Params,
    remote_params: Params,
    wallet: Wallet,
    maker_reveal: Option<Reveal>,
    r: PlanView,
)
    requires
        resumes(
            rt,
            Pending::AliceReveal { local_params, remote_params },
            WalletReply::Informed { wallet, maker_reveal },
            r,
        ),
    ensures
        maker_reveal is None ==> r.ops.len() == 0,
        maker_reveal matches Some(reveal) ==> r.ops.len() == 1 && r.ops[0] == Op::SendPeer(
            Msg::Reveal(reveal),
        ),
        r.end matches End::Next(SwapStateMachine::AliceReveal(s)) && s.local_params == local_params
            && s.remote_params == remote_params && s.wallet == wallet,
{
}

/// Each question has its own kind of answer, and a wallet that is opened for Bob brings a
/// funding address.
pub proof fn law_answers_fit(pending: Pending, reply: WalletReply)
    ensures
        fits(pending, reply) <==> match reply {
            WalletReply::Opened { funding_address, .. } => match pending {
                Pending::Taker { swap_role } => swap_role == SwapRole::Alice || funding_address
                    is Some,
                Pending::Maker { swap_role, .. } => swap_role == SwapRole::Alice || funding_address
                    is Some,
                _ => false,
            },
            WalletReply::Revealed { .. } => pending is BobMakerCommit || pending
                is AliceMakerCommit,
            WalletReply::Informed { .. } => pending is AliceReveal,
            WalletReply::Funded { .. } => pending is BobFundingTx,
            WalletReply::SetUp { .. } => pending is BobSetup,
            WalletReply::CoreArbSigned { .. } => pending is AliceSetup,
            WalletReply::RefundSigned { .. } => pending is BobRefundSignatures,
            WalletReply::BuySigned { .. } => pending is AliceBuySignature,
            WalletReply::SweepMonero { .. } => pending is BobBuyTx || pending is AliceRefundTx,
            WalletReply::SweepBitcoin { .. } => pending is BobAbort,
        },
{
}

/// What Bob has to fund is the agreed amount and the least fee that pays for his lock.
pub proof fn law_funding_amount(rt: RuntimeView, sat_per_kvb: u64)
    ensures
        amount_with_fee(
            rt.syncer.bitcoin_amount,
            sat_per_kvb,
            funding_amount(rt, sat_per_kvb),
        ),
{
}

} // verus!
