//! What comes from the other daemons of this node.
use std::sync::Arc;
use vstd::prelude::*;

use crate::base::{
    Blockchain, Error, Fault, Key, Notice, RequestType, ServiceBus, ServiceId, SwapId, SwapRole, TradeRole, TxLabel,
    Txid,
};
use crate::chain::Transaction;
use crate::crypto::{
    aggregate_xmr_spend_view, aggregates, commits_to, committable, Commit, Params, Reveal,
    Sealed,
};
use crate::map::VecMap;
use crate::message::{
    BuyProcedureSignature, CoreArbitratingSetup, Failure, InitSwap, Keyset, Msg, Request, SwapInfo,
    SweepMoneroAddress, SyncEvent, TakerCommit, Task, TransactionConfirmations, Tx,
};
use crate::swapd::checkpoint::{Checkpoint, CheckpointState, CheckpointSwapd, PendingRequest};
use crate::swapd::rpc_msg::{
    done, msg_admitted, nothing, on_rpc_msg, refuse, refused, Reaction, ReactionView,
};
use crate::swapd::runtime::{maker_report, taker_report, Op, Runtime, RuntimeView};
use crate::swapd::state::{AliceState, BobState, State};
use crate::swapd::swap_state::UNKNOWN_FAILURE;
use crate::swapd::sync_events::{
    deferred, monero_event_admitted, on_bitcoin_event, on_monero_event,
};

verus! {

/// How long the daemon has been up and since when it is, in seconds.
#[derive(Clone, Copy, Debug, PartialEq, Eq, Structural)]
pub struct Clock {
    pub uptime: u64,
    pub since: u64,
}

/// Whether a service may send a request to the swap daemon: the syncers of the swap's
/// network, the node, wallet and checkpoint daemons may send anything, clients may ask
/// for information, and everybody may say hello.
pub open spec fn permitted(rt: RuntimeView, source: ServiceId, request: Request) -> bool {
    ||| request is Hello
    ||| source == rt.bitcoin_syncer()
    ||| source == rt.monero_syncer()
    ||| source == ServiceId::Farcasterd
    ||| source == ServiceId::Wallet
    ||| source == ServiceId::Checkpoint
    ||| (request is GetInfo && source is Client)
}

/// The node at the other end of a peer service.
pub open spec fn maker_peer_noted(peerd: ServiceId) -> Seq<Op> {
    match peerd {
        ServiceId::Peer(_, addr) => seq![Op::UseMakerPeer(addr)],
        _ => seq![],
    }
}

/// A request of a kind that is not served on the control bus, or not now.
pub open spec fn not_supported(request_type: RequestType) -> ReactionView {
    refused(Error::NotSupported(ServiceBus::Ctl, request_type))
}

/// The steps with which a taker begins.
pub open spec fn taker_begins(rt: RuntimeView, init: InitSwap) -> Seq<Op> {
    seq![Op::UsePeer(init.peerd), Op::UseEnquirer(init.report_to)] + maker_peer_noted(init.peerd)
        + seq![taker_report(rt.swap_id, init.report_to)]
}

/// The steps with which a maker begins.
pub open spec fn maker_begins(init: InitSwap) -> Seq<Op> {
    seq![Op::UsePeer(init.peerd)] + maker_peer_noted(init.peerd) + seq![
        Op::UseEnquirer(init.report_to),
        maker_report(init.swap_id, init.peerd, init.report_to),
    ]
}

/// Parameters that cannot be committed to end the swap before it has begun.
pub open spec fn no_commitment(before: Seq<Op>, report_to: Option<ServiceId>) -> ReactionView {
    ReactionView {
        ops: before.push(
            Op::ReportFailure(
                report_to,
                Failure { code: UNKNOWN_FAILURE, info: Notice::CommitFailed },
            ),
        ),
        result: Err(Error::MalformedParameters),
    }
}

/// The taker's commitment goes out.
pub open spec fn taker_begun(rt: RuntimeView, init: InitSwap, commit: Commit) -> ReactionView {
    done(
        taker_begins(rt, init) + seq![
            Op::SendPeer(
                Msg::TakerCommit(
                    TakerCommit {
                        commit,
                        public_offer: rt.state.public_offer()->0.text,
                        swap_id: init.swap_id,
                    },
                ),
            ),
            Op::UpdateState(
                rt.state.sup_start_to_commit(
                    commit,
                    init.local_params,
                    init.funding_address,
                    None,
                ),
            ),
        ],
    )
}

/// Whether a reaction is the one to the order to take an offer up.
pub open spec fn on_take_swap(rt: RuntimeView, init: InitSwap, r: ReactionView) -> bool {
    if init.remote_commit is Some || !rt.state.start() {
        r == not_supported(RequestType::TakeSwap)
    } else if init.swap_id != rt.swap_id {
        r == done(Seq::empty())
    } else if !committable(rt.swap_id, init.local_params) {
        r == no_commitment(taker_begins(rt, init), init.report_to)
    } else {
        exists|commit: Commit|
            commits_to(commit, rt.swap_id, init.local_params) && r == #[trigger] taker_begun(
                rt,
                init,
                commit,
            )
    }
}

/// The maker's commitment goes out.
pub open spec fn maker_begun(rt: RuntimeView, init: InitSwap, commit: Commit) -> ReactionView {
    done(
        maker_begins(init) + seq![
            Op::SendPeer(Msg::MakerCommit(commit)),
            Op::UpdateState(
                rt.state.sup_start_to_commit(
                    commit,
                    init.local_params,
                    init.funding_address,
                    init.remote_commit,
                ),
            ),
        ],
    )
}

/// Whether a reaction is the one to the order to answer a taker.
pub open spec fn on_make_swap(rt: RuntimeView, init: InitSwap, r: ReactionView) -> bool {
    if init.remote_commit is None || !rt.state.start() {
        r == not_supported(RequestType::MakeSwap)
    } else if !committable(rt.swap_id, init.local_params) {
        r == no_commitment(maker_begins(init), init.report_to)
    } else {
        exists|commit: Commit|
            commits_to(commit, rt.swap_id, init.local_params) && r == #[trigger] maker_begun(
                rt,
                init,
                commit,
            )
    }
}

/// The order to sweep the monero waits until they are deep enough.
pub open spec fn on_sweep_order(rt: RuntimeView, keys: SweepMoneroAddress) -> ReactionView {
    let sweep = rt.syncer.xmr_sweep(keys, None, true);
    done(
        seq![
            Op::BookSweep(sweep.id),
            Op::Defer(
                rt.monero_syncer(),
                PendingRequest {
                    dest: rt.monero_syncer(),
                    bus_id: ServiceBus::Ctl,
                    request: Request::SyncerTask(Task::SweepAddress(sweep)),
                },
            ),
        ],
    )
}

/// The wallet has the proof ready: it goes out, and the parameters after it.
pub open spec fn on_own_reveal(rt: RuntimeView, proof: Reveal) -> ReactionView {
    if rt.state.commit() && rt.state.remote_commit() is Some {
        done(
            seq![
                Op::SendPeer(Msg::Reveal(proof)),
                Op::SendPeer(
                    Msg::Reveal(Reveal::carrying(proof.swap_id(), *rt.state.local_params()->0)),
                ),
                Op::UpdateState(rt.state.sup_commit_to_reveal()),
            ],
        )
    } else {
        not_supported(RequestType::Protocol)
    }
}

/// Whether Bob's funding was waited for: a taker has revealed by then, a maker has
/// committed, and the counterparty's proof and parameters wait for the wallet.
pub open spec fn funding_due(rt: RuntimeView, source: ServiceId) -> bool {
    &&& source == ServiceId::Wallet
    &&& (rt.state.trade_role() == Some(TradeRole::Taker) && rt.state.revealed())
        || (rt.state.trade_role() == Some(TradeRole::Maker) && rt.state.commit())
    &&& deferred(rt, source) matches Some(queue) && queue.len() == 2
}

/// A request that waited for the wallet is sent if it is the proof.
pub open spec fn proof_sent(p: PendingRequest) -> Seq<Op> {
    match (p.request, p.dest, p.bus_id) {
        (
            Request::Protocol(Msg::Reveal(Reveal::Proof(_))),
            ServiceId::Wallet,
            ServiceBus::Msg,
        ) => seq![Op::Send(ServiceBus::Msg, ServiceId::Wallet, p.request)],
        _ => seq![],
    }
}

/// A request that waited for the wallet is sent if it is Alice's parameters.
pub open spec fn params_sent(p: PendingRequest) -> Seq<Op> {
    match (p.request, p.dest, p.bus_id) {
        (
            Request::Protocol(Msg::Reveal(Reveal::AliceParameters(_))),
            ServiceId::Wallet,
            ServiceBus::Msg,
        ) => seq![Op::Send(ServiceBus::Msg, ServiceId::Wallet, p.request)],
        _ => seq![],
    }
}

/// Bob is funded: the proof and the parameters that waited go to the wallet.
pub open spec fn on_funding_updated(rt: RuntimeView, source: ServiceId) -> ReactionView {
    if funding_due(rt, source) {
        let queue = rt.pending_requests[source];
        done(
            seq![Op::DropDeferred(source)] + proof_sent(queue[0]) + params_sent(queue[1]),
        )
    } else {
        not_supported(RequestType::FundingUpdated)
    }
}

/// Whether both parties' parameters are known after they were revealed.
pub open spec fn params_known(state: State) -> bool {
    state.revealed() && state.remote_params() is Some && state.local_params() is Some
}

/// Bob's transactions are ready: a checkpoint is written, they are watched and sent.
pub open spec fn on_own_setup(rt: RuntimeView, setup: CoreArbitratingSetup) -> ReactionView {
    if params_known(rt.state) {
        done(
            seq![
                Op::Checkpoint(Msg::CoreArbitratingSetup(setup)),
                Op::EnsureBtcTx(TxLabel::Lock, setup.lock.id()),
                Op::EnsureBtcTx(TxLabel::Cancel, setup.cancel.id()),
                Op::EnsureBtcTx(TxLabel::Refund, setup.refund.id()),
                Op::SendPeer(Msg::CoreArbitratingSetup(setup)),
                Op::UpdateState(
                    State::Bob(
                        BobState::CorearbB {
                            local_params: *rt.state.local_params()->0,
                            remote_params: *rt.state.remote_params()->0,
                            cancel_seen: false,
                        },
                    ),
                ),
            ],
        )
    } else {
        not_supported(RequestType::Protocol)
    }
}

/// Alice's signatures are ready: a checkpoint is written and they are sent.
pub open spec fn on_own_refund_signatures(rt: RuntimeView, signatures: Sealed) -> ReactionView {
    if params_known(rt.state) {
        done(
            seq![
                Op::Checkpoint(Msg::RefundProcedureSignatures(signatures)),
                Op::SendPeer(Msg::RefundProcedureSignatures(signatures)),
                Op::UpdateState(
                    State::Alice(
                        AliceState::RefundSigA {
                            local_params: *rt.state.local_params()->0,
                            remote_params: *rt.state.remote_params()->0,
                            xmr_locked: false,
                            buy_published: false,
                            cancel_seen: false,
                            refund_seen: false,
                        },
                    ),
                ),
            ],
        )
    } else {
        not_supported(RequestType::Protocol)
    }
}

/// Bob's signature on the buy transaction is ready: a checkpoint is written, the
/// transaction is watched and remembered, and the signature waits until Alice's monero
/// are final.
pub open spec fn on_own_buy_signature(rt: RuntimeView, signature: BuyProcedureSignature) -> ReactionView {
    if rt.state.b_core_arb() && !rt.syncer.txids.dom().contains(TxLabel::Buy) {
        done(
            seq![
                Op::Checkpoint(Msg::BuyProcedureSignature(signature)),
                Op::EnsureBtcTx(TxLabel::Buy, signature.buy.id()),
                Op::RememberTxid(TxLabel::Buy, signature.buy.id()),
                Op::Defer(
                    rt.monero_syncer(),
                    PendingRequest {
                        dest: rt.peer_service,
                        bus_id: ServiceBus::Msg,
                        request: Request::Protocol(Msg::BuyProcedureSignature(signature)),
                    },
                ),
            ],
        )
    } else {
        not_supported(RequestType::Protocol)
    }
}

/// The lock is published, and the shared monero address is watched under its keys.
pub open spec fn lock_published(tx: Transaction, keys: Option<([u8; 32], [u8; 32])>) -> Seq<Op> {
    match keys {
        Some((spend, view)) => seq![
            Op::Broadcast(tx),
            Op::EnsureXmrAddr(TxLabel::AccLock, spend, view, None),
        ],
        None => seq![Op::Broadcast(tx)],
    }
}

/// Whether a reaction is the one to Bob's lock transaction.
pub open spec fn on_lock_tx(rt: RuntimeView, tx: Transaction, r: ReactionView) -> bool {
    match (rt.state.local_params(), rt.state.remote_params()) {
        (Some(Params::Bob(bob)), Some(Params::Alice(alice))) => if aggregates(
            None,
            rt.swap_id,
            *alice,
            *bob,
        ) {
            r == (ReactionView {
                ops: lock_published(tx, None),
                result: Err(Error::MalformedParameters),
            })
        } else {
            exists|spend: [u8; 32], view: [u8; 32]|
                {
                    &&& #[trigger] aggregates(Some((spend, view)), rt.swap_id, *alice, *bob)
                    &&& r == done(lock_published(tx, Some((spend, view))))
                }
        },
        _ => r == done(lock_published(tx, None)),
    }
}

/// The latest word on a transaction is handled again.
pub open spec fn replayed(rt: RuntimeView, confs: Option<TransactionConfirmations>) -> Seq<Op> {
    match confs {
        Some(t) => seq![
            Op::Replay(
                rt.bitcoin_syncer(),
                Request::SyncerEvent(SyncEvent::TransactionConfirmations(t)),
            ),
        ],
        None => seq![],
    }
}

/// Whether a reaction is the one to a transaction from the wallet: it is kept, and the
/// latest word on the transaction it spends is handled again in its light.
pub open spec fn on_tx(rt: RuntimeView, tx: Tx, r: ReactionView) -> bool {
    match tx {
        Tx::Lock(tx) => on_lock_tx(rt, tx, r),
        Tx::Cancel(tx) => r == done(
            seq![Op::KeepTx(TxLabel::Cancel, tx)] + replayed(rt, rt.syncer.lock_tx_confs),
        ),
        Tx::Buy(tx) => r == done(
            seq![Op::KeepTx(TxLabel::Buy, tx)] + replayed(rt, rt.syncer.lock_tx_confs),
        ),
        Tx::Refund(tx) => r == done(
            seq![Op::KeepTx(TxLabel::Refund, tx)] + replayed(rt, rt.syncer.cancel_tx_confs),
        ),
        Tx::Punish(tx) => r == done(
            seq![Op::KeepTx(TxLabel::Punish, tx)] + replayed(rt, rt.syncer.cancel_tx_confs),
        ),
        Tx::Funding(_) => true,
    }
}

/// The identifier of no swap: all its bytes are zero.
pub open spec fn is_zero(swap_id: SwapId) -> bool {
    forall|i: int| 0 <= i < 32 ==> swap_id.0@[i] == 0
}

/// What is told about a swap.
pub open spec fn info_on(rt: RuntimeView, clock: Clock) -> SwapInfo {
    SwapInfo {
        swap_id: if is_zero(rt.swap_id) {
            None
        } else {
            Some(rt.swap_id)
        },
        maker_peer: rt.maker_peer,
        uptime: clock.uptime,
        since: clock.since,
        local_keys: Keyset {  },
        remote_keys: match rt.maker_peer {
            Some(peer) => Some((peer, Keyset {  })),
            None => None,
        },
    }
}

/// The peer is back: what waited for it is sent, and then waits no more. What cannot be
/// delivered again has joined the end of those that wait, and stays there.
pub open spec fn backlog_sent(msgs: Seq<Msg>) -> Seq<Op> {
    msgs.map_values(|m: Msg| Op::SendPeer(m)).push(Op::ForgetPeerBacklog(msgs.len() as usize))
}

/// The steps with which a swap goes on after a restart: the checkpoint is taken over,
/// both chains and all its transactions are watched, and its last message is handled
/// again.
pub open spec fn restored(checkpoint: Arc<Checkpoint>, c: CheckpointSwapd) -> Seq<Op> {
    seq![
        Op::Restore(checkpoint),
        Op::WatchHeight(Blockchain::Bitcoin),
        Op::WatchHeight(Blockchain::Monero),
    ] + c.txs.listed().map_values(|e: (TxLabel, Transaction)| Op::WatchBtcTx(e.0, e.1.id()))
        + c.txids.listed().map_values(|e: (TxLabel, Txid)| Op::WatchBtcTx(e.0, e.1)) + seq![
        Op::TryReport(Some(ServiceId::Farcasterd), Notice::RestoredAt(c.state.name())),
        Op::Replay(ServiceId::Database, Request::Protocol(c.last_msg)),
    ]
}

/// The reaction to a checkpoint; a wallet's is passed over.
pub open spec fn on_checkpoint(checkpoint: Arc<Checkpoint>) -> ReactionView {
    match checkpoint.state {
        CheckpointState::CheckpointSwapd(c) => done(restored(checkpoint, c)),
        CheckpointState::CheckpointWallet(_) => done(Seq::empty()),
    }
}

/// Whether a reaction is the one to a permitted request.
pub open spec fn on_permitted(
    rt: RuntimeView,
    source: ServiceId,
    request: Request,
    clock: Clock,
    r: ReactionView,
) -> bool {
    let unsupported = not_supported(request.get_type());
    match request {
        Request::Terminate => r == (if source == ServiceId::Farcasterd {
            done(seq![Op::Exit])
        } else {
            unsupported
        }),
        Request::SweepXmrAddress(keys) => r == (if source == ServiceId::Wallet {
            on_sweep_order(rt, keys)
        } else {
            unsupported
        }),
        Request::TakeSwap(init) => on_take_swap(rt, init, r),
        Request::MakeSwap(init) => on_make_swap(rt, init, r),
        Request::FundingUpdated => r == on_funding_updated(rt, source),
        Request::SyncerEvent(event) => if source == rt.monero_syncer() {
            r == done(on_monero_event(rt, event))
        } else if source == rt.bitcoin_syncer() {
            on_bitcoin_event(rt, event, r)
        } else {
            r == unsupported
        },
        Request::Protocol(msg) => match msg {
            Msg::Reveal(proof) => r == on_own_reveal(rt, proof),
            Msg::CoreArbitratingSetup(setup) => r == on_own_setup(rt, setup),
            Msg::RefundProcedureSignatures(s) => r == on_own_refund_signatures(rt, s),
            Msg::BuyProcedureSignature(s) => r == on_own_buy_signature(rt, s),
            _ => r == unsupported,
        },
        Request::Tx(tx) => on_tx(rt, tx, r),
        Request::GetInfo => r == done(
            seq![Op::Send(ServiceBus::Ctl, source, Request::SwapInfo(info_on(rt, clock)))],
        ),
        Request::PeerdReconnected => r == done(backlog_sent(rt.pending_peer_request)),
        Request::CheckpointMultipartChunk(chunk) => r == done(
            seq![Op::CollectChunk(source, chunk)],
        ),
        Request::Checkpoint(checkpoint) => r == on_checkpoint(checkpoint),
        _ => r == unsupported,
    }
}

/// Whether a reaction is the one to a request on the control bus.
pub open spec fn on_rpc_ctl(
    rt: RuntimeView,
    source: ServiceId,
    request: Request,
    clock: Clock,
    r: ReactionView,
) -> bool {
    if permitted(rt, source, request) {
        on_permitted(rt, source, request, clock, r)
    } else {
        r == refused(Error::Permission)
    }
}

/// Whether Bob brings the funding address without which he cannot begin.
pub open spec fn init_complete(state: State, init: InitSwap) -> bool {
    state.swap_role() == SwapRole::Bob ==> init.funding_address is Some
}

/// Whether the order to take an offer up is one that begins this swap.
pub open spec fn takes(rt: RuntimeView, init: InitSwap) -> bool {
    init.remote_commit is None && rt.state.start() && init.swap_id == rt.swap_id
}

/// Whether the order to answer a taker is one that begins this swap.
pub open spec fn makes(rt: RuntimeView, init: InitSwap) -> bool {
    init.remote_commit is Some && rt.state.start()
}

/// The requests that can come over the control bus: Bob begins with a funding address,
/// the wallet sends a lock only when it is due and never a funding transaction, and the
/// monero syncer reports what can be.
pub open spec fn ctl_admitted(rt: RuntimeView, source: ServiceId, request: Request) -> bool {
    permitted(rt, source, request) ==> match request {
        Request::TakeSwap(init) => takes(rt, init) ==> init_complete(rt.state, init),
        Request::MakeSwap(init) => makes(rt, init) ==> init_complete(rt.state, init),
        Request::Tx(Tx::Funding(_)) => false,
        Request::Tx(Tx::Lock(_)) => rt.state.b_core_arb(),
        Request::SyncerEvent(event) => source == rt.monero_syncer() ==> monero_event_admitted(
            rt,
            event,
        ),
        _ => true,
    }
}

fn finish(ops: Vec<Op>) -> (r: Reaction)
    ensures
        r@ == done(ops@),
{
    Reaction { ops, result: Ok(()) }
}

fn unsupported(request_type: RequestType) -> (r: Reaction)
    ensures
        r@ == not_supported(request_type),
{
    refuse(Error::NotSupported(ServiceBus::Ctl, request_type))
}

fn note_maker_peer(ops: &mut Vec<Op>, peerd: ServiceId)
    ensures
        final(ops)@ == old(ops)@ + maker_peer_noted(peerd),
{
    if let ServiceId::Peer(_, addr) = peerd {
        ops.push(Op::UseMakerPeer(addr));
    }
    assert(ops@ =~= old(ops)@ + maker_peer_noted(peerd));
}

impl Runtime {
    fn permits(&self, source: ServiceId, request: &Request) -> (r: bool)
        ensures
            r == permitted(self@, source, *request),
    {
        if source.same(&self.syncer_state.bitcoin_syncer()) || source.same(
            &self.syncer_state.monero_syncer(),
        ) {
            return true;
        }
        match (request, source) {
            (Request::Hello, _) => true,
            (_, ServiceId::Farcasterd) => true,
            (_, ServiceId::Wallet) => true,
            (_, ServiceId::Checkpoint) => true,
            (Request::GetInfo, ServiceId::Client(_)) => true,
            _ => false,
        }
    }

    fn init_complete(&self, init: &InitSwap) -> (r: bool)
        ensures
            r == init_complete(self.state, *init),
    {
        self.state.swap_role() == SwapRole::Alice || init.funding_address.is_some()
    }

    /// Checks that a request can come over the control bus.
    pub fn admits_ctl(&self, source: ServiceId, request: &Request) -> (r: bool)
        ensures
            r == ctl_admitted(self@, source, *request),
    {
        if !self.permits(source, request) {
            return true;
        }
        match request {
            Request::TakeSwap(init) => {
                init.remote_commit.is_some() || !self.state.start() || !init.swap_id.same(
                    &self.swap_id,
                ) || self.init_complete(init)
            },
            Request::MakeSwap(init) => {
                init.remote_commit.is_none() || !self.state.start() || self.init_complete(init)
            },
            Request::Tx(Tx::Funding(_)) => false,
            Request::Tx(Tx::Lock(_)) => self.state.b_core_arb(),
            Request::SyncerEvent(event) => {
                if source.same(&self.syncer_state.monero_syncer()) {
                    self.admits_monero_event(event)
                } else {
                    true
                }
            },
            _ => true,
        }
    }

    /// Handles a request on the control bus.
    pub fn handle_rpc_ctl(&self, source: ServiceId, request: Request, clock: Clock) -> (r: Reaction)
        requires
            self.syncer_state.tasks.counter < u32::MAX,
            ctl_admitted(self@, source, request),
        ensures
            on_rpc_ctl(self@, source, request, clock, r@),
    {
        if !self.permits(source, &request) {
            return refuse(Error::Permission);
        }
        let request_type: RequestType = request.get_type();
        match request {
            Request::Terminate => {
                if source.same(&ServiceId::Farcasterd) {
                    let ops = vec![Op::Exit];
                    assert(ops@ =~= seq![Op::Exit]);
                    finish(ops)
                } else {
                    unsupported(request_type)
                }
            },
            Request::SweepXmrAddress(keys) => {
                if source.same(&ServiceId::Wallet) {
                    self.handle_sweep_order(keys)
                } else {
                    unsupported(request_type)
                }
            },
            Request::TakeSwap(init) => self.handle_take_swap(init),
            Request::MakeSwap(init) => self.handle_make_swap(init),
            Request::FundingUpdated => self.handle_funding_updated(source),
            Request::SyncerEvent(event) => {
                if source.same(&self.syncer_state.monero_syncer()) {
                    finish(self.handle_monero_event(&event))
                } else if source.same(&self.syncer_state.bitcoin_syncer()) {
                    self.handle_bitcoin_event(&event)
                } else {
                    unsupported(request_type)
                }
            },
            Request::Protocol(msg) => self.handle_own_msg(msg),
            Request::Tx(tx) => self.handle_tx(tx),
            Request::GetInfo => {
                let info = self.info(clock);
                let ops = vec![Op::Send(ServiceBus::Ctl, source, Request::SwapInfo(info))];
                assert(ops@ =~= seq![
                    Op::Send(ServiceBus::Ctl, source, Request::SwapInfo(info_on(self@, clock))),
                ]);
                finish(ops)
            },
            Request::PeerdReconnected => finish(self.send_backlog()),
            Request::CheckpointMultipartChunk(chunk) => {
                let ghost part = chunk;
                let ops = vec![Op::CollectChunk(source, chunk)];
                assert(ops@ =~= seq![Op::CollectChunk(source, part)]);
                finish(ops)
            },
            Request::Checkpoint(checkpoint) => self.handle_checkpoint(checkpoint),
            _ => unsupported(request_type),
        }
    }

    fn handle_sweep_order(&self, keys: SweepMoneroAddress) -> (r: Reaction)
        requires
            self.syncer_state.tasks.counter < u32::MAX,
        ensures
            r@ == on_sweep_order(self@, keys),
    {
        let ghost expected = on_sweep_order(self@, keys);
        let sweep = self.syncer_state.sweep_xmr(keys, None, true);
        let service = self.syncer_state.monero_syncer();
        let ops = vec![
            Op::BookSweep(sweep.id),
            Op::Defer(
                service,
                PendingRequest {
                    dest: service,
                    bus_id: ServiceBus::Ctl,
                    request: Request::SyncerTask(Task::SweepAddress(sweep)),
                },
            ),
        ];
        assert(ops@ =~= expected.ops);
        finish(ops)
    }

    fn handle_take_swap(&self, init: InitSwap) -> (r: Reaction)
        ensures
            on_take_swap(self@, init, r@),
    {
        if init.remote_commit.is_some() || !self.state.start() {
            return unsupported(RequestType::TakeSwap);
        }
        if !init.swap_id.same(&self.swap_id) {
            return nothing();
        }
        let mut ops = vec![Op::UsePeer(init.peerd), Op::UseEnquirer(init.report_to)];
        note_maker_peer(&mut ops, init.peerd);
        let (report, commit) = self.taker_commit(init.report_to, &init.local_params);
        ops.push(report);
        assert(ops@ =~= taker_begins(self@, init));
        match commit {
            Some(commit) => {
                assert(committable(self.swap_id, init.local_params));
                self.begin_taker(ops, init, commit)
            },
            None => {
                ops.push(
                    Op::ReportFailure(
                        init.report_to,
                        Failure { code: UNKNOWN_FAILURE, info: Notice::CommitFailed },
                    ),
                );
                Reaction { ops, result: Err(Error::MalformedParameters) }
            },
        }
    }

    fn begin_taker(&self, before: Vec<Op>, init: InitSwap, commit: Commit) -> (r: Reaction)
        requires
            self.state.start(),
            before@ == taker_begins(self@, init),
        ensures
            r@ == taker_begun(self@, init, commit),
    {
        let ghost expected = taker_begun(self@, init, commit);
        let mut ops = before;
        if let Some(offer) = self.state.public_offer() {
            ops.push(
                Op::SendPeer(
                    Msg::TakerCommit(
                        TakerCommit {
                            commit: commit.clone(),
                            public_offer: offer.text.clone(),
                            swap_id: init.swap_id,
                        },
                    ),
                ),
            );
        }
        ops.push(
            Op::UpdateState(
                self.state.clone().sup_start_to_commit(
                    commit,
                    init.local_params,
                    init.funding_address,
                    None,
                ),
            ),
        );
        assert(ops@ =~= expected.ops);
        finish(ops)
    }

    fn handle_make_swap(&self, init: InitSwap) -> (r: Reaction)
        ensures
            on_make_swap(self@, init, r@),
    {
        if init.remote_commit.is_none() || !self.state.start() {
            return unsupported(RequestType::MakeSwap);
        }
        let mut ops = vec![Op::UsePeer(init.peerd)];
        note_maker_peer(&mut ops, init.peerd);
        ops.push(Op::UseEnquirer(init.report_to));
        let (report, commit) = self.maker_commit(
            init.peerd,
            init.swap_id,
            init.report_to,
            &init.local_params,
        );
        ops.push(report);
        assert(ops@ =~= maker_begins(init));
        match commit {
            Some(commit) => {
                assert(committable(self.swap_id, init.local_params));
                self.begin_maker(ops, init, commit)
            },
            None => {
                ops.push(
                    Op::ReportFailure(
                        init.report_to,
                        Failure { code: UNKNOWN_FAILURE, info: Notice::CommitFailed },
                    ),
                );
                Reaction { ops, result: Err(Error::MalformedParameters) }
            },
        }
    }

    fn begin_maker(&self, before: Vec<Op>, init: InitSwap, commit: Commit) -> (r: Reaction)
        requires
            before@ == maker_begins(init),
        ensures
            r@ == maker_begun(self@, init, commit),
    {
        let ghost expected = maker_begun(self@, init, commit);
        let mut ops = before;
        ops.push(Op::SendPeer(Msg::MakerCommit(commit.clone())));
        ops.push(
            Op::UpdateState(
                self.state.clone().sup_start_to_commit(
                    commit,
                    init.local_params,
                    init.funding_address,
                    init.remote_commit,
                ),
            ),
        );
        assert(ops@ =~= expected.ops);
        finish(ops)
    }

    fn handle_funding_updated(&self, source: ServiceId) -> (r: Reaction)
        ensures
            r@ == on_funding_updated(self@, source),
    {
        let due = source.same(&ServiceId::Wallet) && ((self.is_taker() && self.state.revealed())
            || (self.is_maker() && self.state.commit()));
        if !due {
            return unsupported(RequestType::FundingUpdated);
        }
        match self.pending_requests.get(&source) {
            Some(queue) => {
                if queue.len() != 2 {
                    return unsupported(RequestType::FundingUpdated);
                }
                let ghost expected = on_funding_updated(self@, source);
                let mut ops = vec![Op::DropDeferred(source)];
                push_proof(&mut ops, queue.at(0));
                push_params(&mut ops, queue.at(1));
                assert(ops@ =~= expected.ops);
                finish(ops)
            },
            None => unsupported(RequestType::FundingUpdated),
        }
    }

    fn handle_own_msg(&self, msg: Msg) -> (r: Reaction)
        ensures
            match msg {
                Msg::Reveal(proof) => r@ == on_own_reveal(self@, proof),
                Msg::CoreArbitratingSetup(setup) => r@ == on_own_setup(self@, setup),
                Msg::RefundProcedureSignatures(s) => r@ == on_own_refund_signatures(self@, s),
                Msg::BuyProcedureSignature(s) => r@ == on_own_buy_signature(self@, s),
                _ => r@ == not_supported(RequestType::Protocol),
            },
    {
        match msg {
            Msg::Reveal(proof) => self.handle_own_reveal(proof),
            Msg::CoreArbitratingSetup(setup) => self.handle_own_setup(setup),
            Msg::RefundProcedureSignatures(s) => self.handle_own_refund_signatures(s),
            Msg::BuyProcedureSignature(s) => self.handle_own_buy_signature(s),
            _ => unsupported(RequestType::Protocol),
        }
    }

    fn handle_own_reveal(&self, proof: Reveal) -> (r: Reaction)
        ensures
            r@ == on_own_reveal(self@, proof),
    {
        let ghost expected = on_own_reveal(self@, proof);
        if self.state.commit() && self.state.remote_commit().is_some() {
            if let Some(params) = self.state.local_params() {
                let own = Reveal::carry(proof.swap_id(), params);
                let ops = vec![
                    Op::SendPeer(Msg::Reveal(proof)),
                    Op::SendPeer(Msg::Reveal(own)),
                    Op::UpdateState(self.state.clone().sup_commit_to_reveal()),
                ];
                assert(ops@ =~= expected.ops);
                return finish(ops);
            }
        }
        unsupported(RequestType::Protocol)
    }

    fn handle_own_setup(&self, setup: CoreArbitratingSetup) -> (r: Reaction)
        ensures
            r@ == on_own_setup(self@, setup),
    {
        let ghost expected = on_own_setup(self@, setup);
        if self.state.revealed() {
            if let (Some(remote), Some(local)) = (
                self.state.remote_params(),
                self.state.local_params(),
            ) {
                let ops = vec![
                    Op::Checkpoint(Msg::CoreArbitratingSetup(setup.clone())),
                    Op::EnsureBtcTx(TxLabel::Lock, setup.lock.txid()),
                    Op::EnsureBtcTx(TxLabel::Cancel, setup.cancel.txid()),
                    Op::EnsureBtcTx(TxLabel::Refund, setup.refund.txid()),
                    Op::SendPeer(Msg::CoreArbitratingSetup(setup)),
                    Op::UpdateState(
                        State::Bob(
                            BobState::CorearbB {
                                local_params: local.clone(),
                                remote_params: remote.clone(),
                                cancel_seen: false,
                            },
                        ),
                    ),
                ];
                assert(ops@ =~= expected.ops);
                return finish(ops);
            }
        }
        unsupported(RequestType::Protocol)
    }

    fn handle_own_refund_signatures(&self, signatures: Sealed) -> (r: Reaction)
        ensures
            r@ == on_own_refund_signatures(self@, signatures),
    {
        let ghost expected = on_own_refund_signatures(self@, signatures);
        if self.state.revealed() {
            if let (Some(remote), Some(local)) = (
                self.state.remote_params(),
                self.state.local_params(),
            ) {
                let ops = vec![
                    Op::Checkpoint(Msg::RefundProcedureSignatures(signatures.clone())),
                    Op::SendPeer(Msg::RefundProcedureSignatures(signatures)),
                    Op::UpdateState(
                        State::Alice(
                            AliceState::RefundSigA {
                                local_params: local.clone(),
                                remote_params: remote.clone(),
                                xmr_locked: false,
                                buy_published: false,
                                cancel_seen: false,
                                refund_seen: false,
                            },
                        ),
                    ),
                ];
                assert(ops@ =~= expected.ops);
                return finish(ops);
            }
        }
        unsupported(RequestType::Protocol)
    }

    fn handle_own_buy_signature(&self, signature: BuyProcedureSignature) -> (r: Reaction)
        ensures
            r@ == on_own_buy_signature(self@, signature),
    {
        let ghost expected = on_own_buy_signature(self@, signature);
        if self.state.b_core_arb() && !self.syncer_state.tasks.txids.contains_key(&TxLabel::Buy) {
            let ops = vec![
                Op::Checkpoint(Msg::BuyProcedureSignature(signature.clone())),
                Op::EnsureBtcTx(TxLabel::Buy, signature.buy.txid()),
                Op::RememberTxid(TxLabel::Buy, signature.buy.txid()),
                Op::Defer(
                    self.syncer_state.monero_syncer(),
                    PendingRequest {
                        dest: self.peer_service,
                        bus_id: ServiceBus::Msg,
                        request: Request::Protocol(Msg::BuyProcedureSignature(signature)),
                    },
                ),
            ];
            assert(ops@ =~= expected.ops);
            finish(ops)
        } else {
            unsupported(RequestType::Protocol)
        }
    }

    fn handle_tx(&self, tx: Tx) -> (r: Reaction)
        ensures
            on_tx(self@, tx, r@),
    {
        match tx {
            Tx::Lock(tx) => self.handle_lock_tx(tx),
            Tx::Cancel(tx) => self.keep_tx(TxLabel::Cancel, tx, self.syncer_state.lock_tx_confs),
            Tx::Buy(tx) => self.keep_tx(TxLabel::Buy, tx, self.syncer_state.lock_tx_confs),
            Tx::Refund(tx) => self.keep_tx(
                TxLabel::Refund,
                tx,
                self.syncer_state.cancel_tx_confs,
            ),
            Tx::Punish(tx) => self.keep_tx(
                TxLabel::Punish,
                tx,
                self.syncer_state.cancel_tx_confs,
            ),
            Tx::Funding(_) => nothing(),
        }
    }

    fn keep_tx(&self, label: TxLabel, tx: Transaction, confs: Option<TransactionConfirmations>) -> (r:
        Reaction)
        ensures
            r@ == done(seq![Op::KeepTx(label, tx)] + replayed(self@, confs)),
    {
        let ghost expected = seq![Op::KeepTx(label, tx)] + replayed(self@, confs);
        let mut ops = vec![Op::KeepTx(label, tx)];
        if let Some(t) = confs {
            ops.push(
                Op::Replay(
                    self.syncer_state.bitcoin_syncer(),
                    Request::SyncerEvent(SyncEvent::TransactionConfirmations(t)),
                ),
            );
        }
        assert(ops@ =~= expected);
        finish(ops)
    }

    fn handle_lock_tx(&self, tx: Transaction) -> (r: Reaction)
        ensures
            on_lock_tx(self@, tx, r@),
    {
        let ghost lock = tx;
        let mut ops = vec![Op::Broadcast(tx)];
        assert(ops@ =~= lock_published(lock, None));
        if let (Some(Params::Bob(bob)), Some(Params::Alice(alice))) = (
            self.state.local_params(),
            self.state.remote_params(),
        ) {
            match aggregate_xmr_spend_view(self.swap_id, alice, bob) {
                Some((spend, view)) => {
                    ops.push(Op::EnsureXmrAddr(TxLabel::AccLock, spend, view, None));
                    assert(ops@ =~= lock_published(lock, Some((spend, view))));
                    assert(aggregates(Some((spend, view)), self@.swap_id, *alice, *bob));
                },
                None => {
                    return Reaction { ops, result: Err(Error::MalformedParameters) };
                },
            }
        }
        finish(ops)
    }

    fn info(&self, clock: Clock) -> (r: SwapInfo)
        ensures
            r == info_on(self@, clock),
    {
        let mut zero: bool = true;
        let mut i: usize = 0;
        while i < 32
            invariant
                i <= 32,
                zero == (forall|j: int| 0 <= j < i ==> self.swap_id.0@[j] == 0),
            decreases 32 - i,
        {
            if self.swap_id.0[i] != 0 {
                zero = false;
                assert(self.swap_id.0@[i as int] != 0);
            }
            i = i + 1;
        }
        SwapInfo {
            swap_id: if zero {
                None
            } else {
                Some(self.swap_id)
            },
            maker_peer: self.maker_peer,
            uptime: clock.uptime,
            since: clock.since,
            local_keys: Keyset {  },
            remote_keys: match self.maker_peer {
                Some(peer) => Some((peer, Keyset {  })),
                None => None,
            },
        }
    }

    fn send_backlog(&self) -> (r: Vec<Op>)
        ensures
            r@ == backlog_sent(self@.pending_peer_request),
    {
        let ghost msgs = self@.pending_peer_request;
        let mut ops: Vec<Op> = Vec::new();
        let mut i: usize = 0;
        while i < self.pending_peer_request.len()
            invariant
                i <= self.pending_peer_request.len(),
                msgs == self.pending_peer_request@,
                ops@ == msgs.take(i as int).map_values(|m: Msg| Op::SendPeer(m)),
            decreases self.pending_peer_request.len() - i,
        {
            ops.push(Op::SendPeer(self.pending_peer_request[i].clone()));
            i = i + 1;
            assert(ops@ =~= msgs.take(i as int).map_values(|m: Msg| Op::SendPeer(m)));
        }
        assert(msgs.take(msgs.len() as int) =~= msgs);
        ops.push(Op::ForgetPeerBacklog(self.pending_peer_request.len()));
        ops
    }

    fn handle_checkpoint(&self, checkpoint: Arc<Checkpoint>) -> (r: Reaction)
        ensures
            r@ == on_checkpoint(checkpoint),
    {
        let ghost expected = on_checkpoint(checkpoint);
        let ghost whole = checkpoint;
        let (watched, last, name) = match &checkpoint.state {
            CheckpointState::CheckpointSwapd(c) => (
                watch_checkpoint(&c.txs, &c.txids),
                c.last_msg.clone(),
                c.state.name(),
            ),
            CheckpointState::CheckpointWallet(_) => {
                return nothing();
            },
        };
        let mut ops = vec![
            Op::Restore(checkpoint),
            Op::WatchHeight(Blockchain::Bitcoin),
            Op::WatchHeight(Blockchain::Monero),
        ];
        let ghost watching = watched@;
        let mut watched = watched;
        ops.append(&mut watched);
        ops.push(Op::TryReport(Some(ServiceId::Farcasterd), Notice::RestoredAt(name)));
        ops.push(Op::Replay(ServiceId::Database, Request::Protocol(last)));
        assert(ops@ =~= expected.ops);
        finish(ops)
    }

    /// Handles a request on any bus.
    pub fn handle(&self, bus: ServiceBus, source: ServiceId, request: Request, clock: Clock) -> (r:
        Reaction)
        requires
            self.syncer_state.tasks.counter < u32::MAX,
            bus == ServiceBus::Msg ==> msg_admitted(self@, source, request),
            bus == ServiceBus::Ctl ==> ctl_admitted(self@, source, request),
        ensures
            match bus {
                ServiceBus::Msg => r@ == on_rpc_msg(self@, source, request),
                ServiceBus::Ctl => on_rpc_ctl(self@, source, request, clock, r@),
                ServiceBus::Bridge => r@ == refused(
                    Error::NotSupported(ServiceBus::Bridge, request.get_type()),
                ),
            },
    {
        match bus {
            ServiceBus::Msg => self.handle_rpc_msg(source, request),
            ServiceBus::Ctl => self.handle_rpc_ctl(source, request, clock),
            ServiceBus::Bridge => refuse(
                Error::NotSupported(ServiceBus::Bridge, request.get_type()),
            ),
        }
    }
}

/// What becomes of a serialized checkpoint that was put together, once it has been read:
/// it is handled as a checkpoint that came whole from the same service.
pub fn reread(source: ServiceId, swap_id: SwapId, read: Result<CheckpointState, Fault>) -> (r:
    Result<(ServiceBus, ServiceId, Request), Error>)
    ensures
        r == (match read {
            Ok(state) => Ok(
                (
                    ServiceBus::Ctl,
                    source,
                    Request::Checkpoint(Arc::new(Checkpoint { swap_id, state })),
                ),
            ),
            Err(fault) => Err::<(ServiceBus, ServiceId, Request), _>(
                Error::MalformedCheckpoint(fault),
            ),
        }),
{
    match read {
        Ok(state) => {
            let checkpoint = Arc::new(Checkpoint { swap_id, state });
            Ok((ServiceBus::Ctl, source, Request::Checkpoint(checkpoint)))
        },
        Err(fault) => Err(Error::MalformedCheckpoint(fault)),
    }
}

fn watch_checkpoint(txs: &VecMap<TxLabel, Transaction>, txids: &VecMap<TxLabel, Txid>) -> (r: Vec<
    Op,
>)
    ensures
        r@ == txs.listed().map_values(|e: (TxLabel, Transaction)| Op::WatchBtcTx(e.0, e.1.id()))
            + txids.listed().map_values(|e: (TxLabel, Txid)| Op::WatchBtcTx(e.0, e.1)),
{
    let ghost first = txs.listed().map_values(
        |e: (TxLabel, Transaction)| Op::WatchBtcTx(e.0, e.1.id()),
    );
    let ghost second = txids.listed().map_values(|e: (TxLabel, Txid)| Op::WatchBtcTx(e.0, e.1));
    let mut ops: Vec<Op> = Vec::new();
    let kept = txs.entries();
    let mut i: usize = 0;
    while i < kept.len()
        invariant
            i <= kept.len(),
            kept@ == txs.listed(),
            first == txs.listed().map_values(
                |e: (TxLabel, Transaction)| Op::WatchBtcTx(e.0, e.1.id()),
            ),
            ops@ == first.take(i as int),
        decreases kept.len() - i,
    {
        ops.push(Op::WatchBtcTx(kept[i].0, kept[i].1.txid()));
        i = i + 1;
        assert(ops@ =~= first.take(i as int));
    }
    assert(ops@ =~= first);
    let remembered = txids.entries();
    let mut j: usize = 0;
    while j < remembered.len()
        invariant
            j <= remembered.len(),
            remembered@ == txids.listed(),
            second == txids.listed().map_values(|e: (TxLabel, Txid)| Op::WatchBtcTx(e.0, e.1)),
            ops@ == first + second.take(j as int),
        decreases remembered.len() - j,
    {
        ops.push(Op::WatchBtcTx(remembered[j].0, remembered[j].1));
        j = j + 1;
        assert(ops@ =~= first + second.take(j as int));
    }
    assert(ops@ =~= first + second);
    ops
}

fn push_proof(ops: &mut Vec<Op>, p: &PendingRequest)
    ensures
        final(ops)@ == old(ops)@ + proof_sent(*p),
{
    if let (
        Request::Protocol(Msg::Reveal(Reveal::Proof(_))),
        ServiceId::Wallet,
        ServiceBus::Msg,
    ) = (&p.request, p.dest, p.bus_id) {
        ops.push(Op::Send(ServiceBus::Msg, ServiceId::Wallet, p.request.clone()));
    }
    assert(ops@ =~= old(ops)@ + proof_sent(*p));
}

fn push_params(ops: &mut Vec<Op>, p: &PendingRequest)
    ensures
        final(ops)@ == old(ops)@ + params_sent(*p),
{
    if let (
        Request::Protocol(Msg::Reveal(Reveal::AliceParameters(_))),
        ServiceId::Wallet,
        ServiceBus::Msg,
    ) = (&p.request, p.dest, p.bus_id) {
        ops.push(Op::Send(ServiceBus::Msg, ServiceId::Wallet, p.request.clone()));
    }
    assert(ops@ =~= old(ops)@ + params_sent(*p));
}

} // verus!
