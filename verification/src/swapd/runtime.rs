//! The runtime of one swap and the steps it can take.
//!
//! A handler looks at the runtime and at a request and answers with a list of
//! steps. The caller performs them in order, each with `Runtime::perform`, and does
//! with the outside world what the step dispatches. Where that fails it stops and
//! reports, so that nothing is done that was to come after.
use std::sync::Arc;
use vstd::prelude::*;

use crate::base::{
    Blockchain, Checksum, Error, Key, NodeAddr, Notice, ServiceBus, ServiceId, SwapId, SwapRole,
    TaskId, TradeRole, TxLabel, Txid,
};
use crate::blob::Blob;
use crate::chain::{BitcoinAddress, Transaction};
use crate::crypto::{
    checksum, commit_to, commits_to, committable, opens, ripemd160_digest, well_tagged, Commit,
    Params, Reveal,
};
use crate::map::VecMap;
use crate::message::{
    CheckpointMultipartChunk, Failure, Msg, Request, Task, TransactionConfirmations, TxHash,
};
use crate::offer::PublicOffer;
use crate::swapd::checkpoint::{
    Checkpoint, CheckpointState, CheckpointSwapd, PendingRequest, Queue,
};
use crate::swapd::chunks::{assembles, with_part, CheckpointChunk, Chunks};
use crate::swapd::state::{AliceState, BobState, State};
use crate::swapd::swap_state::SwapStateMachine;
use crate::swapd::syncer_client::{watches, SyncerState, SyncerView};
use crate::swapd::temporal_safety::TemporalSafety;

verus! {

/// One swap: who takes part, how far it has come, and what is under way.
pub struct Runtime {
    pub swap_id: SwapId,
    pub peer_service: ServiceId,
    /// Whether the connection to the counterparty is open.
    pub connected: bool,
    pub state: State,
    pub maker_peer: Option<NodeAddr>,
    /// The client that asked for the swap.
    pub enquirer: Option<ServiceId>,
    pub syncer_state: SyncerState,
    pub temporal_safety: TemporalSafety,
    pub public_offer: PublicOffer,
    /// The height of the monero chain when the shared address came into being.
    pub monero_address_creation_height: Option<u64>,
    /// Requests that wait for word from a service.
    pub pending_requests: VecMap<ServiceId, Queue>,
    /// Messages that wait for the peer to be reached again.
    pub pending_peer_request: Vec<Msg>,
    pub pending_checkpoint_chunks: VecMap<Checksum, Chunks>,
    /// Transactions that are ready to be published.
    pub txs: VecMap<TxLabel, Transaction>,
}

/// The mathematical content of a `Runtime`.
pub struct RuntimeView {
    pub swap_id: SwapId,
    pub peer_service: ServiceId,
    pub connected: bool,
    pub state: State,
    pub maker_peer: Option<NodeAddr>,
    pub enquirer: Option<ServiceId>,
    pub syncer: SyncerView,
    pub temporal_safety: TemporalSafety,
    pub public_offer: PublicOffer,
    pub monero_address_creation_height: Option<u64>,
    pub pending_requests: Map<ServiceId, Seq<PendingRequest>>,
    pub pending_peer_request: Seq<Msg>,
    pub chunks: Map<Checksum, Seq<(usize, Seq<u8>)>>,
    pub txs: Map<TxLabel, Transaction>,
}

/// The queues of a map, as sequences.
pub open spec fn queues(m: Map<ServiceId, Queue>) -> Map<ServiceId, Seq<PendingRequest>> {
    m.map_values(|q: Queue| q@)
}

/// The collections of a map, as sequences.
pub open spec fn collections(m: Map<Checksum, Chunks>) -> Map<Checksum, Seq<(usize, Seq<u8>)>> {
    m.map_values(|c: Chunks| c@)
}

impl View for Runtime {
    type V = RuntimeView;

    open spec fn view(&self) -> RuntimeView {
        RuntimeView {
            swap_id: self.swap_id,
            peer_service: self.peer_service,
            connected: self.connected,
            state: self.state,
            maker_peer: self.maker_peer,
            enquirer: self.enquirer,
            syncer: self.syncer_state@,
            temporal_safety: self.temporal_safety,
            public_offer: self.public_offer,
            monero_address_creation_height: self.monero_address_creation_height,
            pending_requests: queues(self.pending_requests@),
            pending_peer_request: self.pending_peer_request@,
            chunks: collections(self.pending_checkpoint_chunks@),
            txs: self.txs@,
        }
    }
}

/// One step of a reaction.
#[derive(Debug, PartialEq, Eq)]
pub enum Op {
    /// Have the bitcoin fee rate watched.
    WatchFee,
    /// Have the height of a chain watched.
    WatchHeight(Blockchain),
    /// Have a bitcoin address watched, unless one with the label is.
    EnsureBtcAddr(TxLabel, BitcoinAddress),
    /// Have the monero address of a spend and a view key watched, from a height or
    /// from near the tip, unless one with the label is.
    EnsureXmrAddr(TxLabel, [u8; 32], [u8; 32], Option<u64>),
    /// Have a bitcoin transaction watched.
    WatchBtcTx(TxLabel, Txid),
    /// Have a bitcoin transaction watched, unless one with the label is.
    EnsureBtcTx(TxLabel, Txid),
    /// The same, and remember that it is to be retrieved when it is final.
    EnsureBtcTxid(TxLabel, Txid),
    /// Have a monero transaction watched, unless one with the label is.
    EnsureXmrTx(TxLabel, Blob),
    /// Book a task that watches a transaction; it is sent by a later step.
    BookTx(TaskId, TxLabel),
    /// Book a task that sweeps an address; it is sent by a later step.
    BookSweep(TaskId),
    /// Forget that a task watches an address.
    UnwatchAddr(TaskId),
    /// Remember that a transaction is to be retrieved when it is final.
    RememberTxid(TxLabel, Txid),
    /// Have a remembered transaction retrieved.
    RetrieveTx(TxLabel),
    /// Forget that a task retrieves a transaction.
    ForgetRetrieval(TaskId),
    /// Take note of how deep a watched transaction is, given its finality threshold.
    NoteConfs(TaskId, Option<u32>, u32),
    /// Take note of the height of a chain.
    NoteHeight(Blockchain, u64),
    /// Keep the latest confirmations of the lock transaction.
    KeepLockConfs(TransactionConfirmations),
    /// Keep the latest confirmations of the cancel transaction.
    KeepCancelConfs(TransactionConfirmations),
    /// Keep the latest confirmations of the buy transaction.
    KeepBuyConfs(TransactionConfirmations),
    /// Take note of the bitcoin fee rate, in satoshis per thousand virtual bytes.
    NoteFee(u64),
    /// Begin or cease to wait for funding.
    AwaitFunding(bool),
    /// Publish a bitcoin transaction.
    Broadcast(Transaction),
    /// Keep a transaction to be published later.
    KeepTx(TxLabel, Transaction),
    /// Let go of a kept transaction.
    DropTx(TxLabel),
    /// The counterparty is reached through a service.
    UsePeer(ServiceId),
    /// Whether the connection to the counterparty is open.
    Connected(bool),
    UseMakerPeer(NodeAddr),
    UseEnquirer(Option<ServiceId>),
    /// Go over to a state without a word.
    EnterState(State),
    /// Go over to a state and tell the client.
    UpdateState(State),
    /// Remember the height of the monero chain, unless one is remembered.
    MarkMoneroHeight,
    /// Let a request wait for a service, in place of all that wait for it.
    Defer(ServiceId, PendingRequest),
    /// Let one more request wait for a service.
    DeferAlso(ServiceId, PendingRequest),
    /// Let go of all requests that wait for a service.
    DropDeferred(ServiceId),
    /// Let go of the messages that have waited longest for the peer, so many of them.
    ForgetPeerBacklog(usize),
    /// Take over what a checkpoint holds.
    Restore(Arc<Checkpoint>),
    /// Collect a part of a checkpoint that came from a service.
    CollectChunk(ServiceId, CheckpointMultipartChunk),
    /// Send a request.
    Send(ServiceBus, ServiceId, Request),
    /// Tell somebody, if there is somebody to tell.
    Report(Option<ServiceId>, Notice),
    /// Tell somebody, and let it pass if they cannot be reached.
    TryReport(Option<ServiceId>, Notice),
    /// Tell somebody of a failure, if there is somebody to tell.
    ReportFailure(Option<ServiceId>, Failure),
    /// Send a message to the counterparty.
    SendPeer(Msg),
    /// Write a checkpoint with the message that is to be repeated after a restart.
    Checkpoint(Msg),
    /// Write a checkpoint of the automaton at a state, with the message that is to be
    /// repeated after a restart, if there is one.
    CheckpointAt(Option<Msg>, SwapStateMachine),
    /// Handle a request as if it had just come from a service.
    Replay(ServiceId, Request),
    /// Wait for half a second.
    Pause,
    /// End the process.
    Exit,
}

/// What a step asks of the outside world.
#[derive(Debug, PartialEq, Eq)]
pub enum Dispatch {
    /// Send a request; a failure ends the reaction.
    Send(ServiceBus, ServiceId, Request),
    /// Send a request; a failure is let pass.
    TrySend(ServiceBus, ServiceId, Request),
    /// Send a request that carries a message to the peer; `Runtime::peer_sent` says what
    /// comes of it.
    Peer(ServiceBus, ServiceId, Request),
    /// Write a checkpoint of the swap, see `Runtime::snapshot`.
    Checkpoint(Msg),
    /// Write a checkpoint of the automaton at a state.
    CheckpointAt(Option<Msg>, SwapStateMachine),
    /// Handle a request from a service.
    Replay(ServiceId, Request),
    /// Read a serialized checkpoint of a swap that came from a service, and handle it.
    Decode(ServiceId, SwapId, Blob),
    Pause,
    Exit,
}

impl RuntimeView {
    /// The service that follows the bitcoin chain.
    pub open spec fn bitcoin_syncer(self) -> ServiceId {
        ServiceId::Syncer(Blockchain::Bitcoin, self.syncer.network)
    }

    /// The service that follows the monero chain.
    pub open spec fn monero_syncer(self) -> ServiceId {
        ServiceId::Syncer(Blockchain::Monero, self.syncer.network)
    }

    /// A task on its way to the bitcoin syncer.
    pub open spec fn to_bitcoin(self, task: Task) -> Dispatch {
        Dispatch::Send(ServiceBus::Ctl, self.bitcoin_syncer(), Request::SyncerTask(task))
    }

    /// A task on its way to the monero syncer.
    pub open spec fn to_monero(self, task: Task) -> Dispatch {
        Dispatch::Send(ServiceBus::Ctl, self.monero_syncer(), Request::SyncerTask(task))
    }

    /// The runtime with other syncer news.
    pub open spec fn synced(self, syncer: SyncerView) -> RuntimeView {
        RuntimeView { syncer, ..self }
    }

    /// The parts collected under a checksum.
    pub open spec fn parts(self, sum: Checksum) -> Seq<(usize, Seq<u8>)> {
        if self.chunks.dom().contains(sum) {
            self.chunks[sum]
        } else {
            Seq::empty()
        }
    }

    /// The requests that wait for a service.
    pub open spec fn waiting(self, service: ServiceId) -> Seq<PendingRequest> {
        if self.pending_requests.dom().contains(service) {
            self.pending_requests[service]
        } else {
            Seq::empty()
        }
    }
}

/// The runtime after a step.
pub open spec fn stepped(rt: RuntimeView, op: Op) -> RuntimeView {
    let s = rt.syncer;
    match op {
        Op::WatchFee => rt.synced(s.counted()),
        Op::WatchHeight(_) => rt.synced(s.counted()),
        Op::EnsureBtcAddr(label, _) => if watches(s.watched_addrs, label) {
            rt
        } else {
            rt.synced(s.watching_addr(label))
        },
        Op::EnsureXmrAddr(label, _, _, _) => if watches(s.watched_addrs, label) {
            rt
        } else {
            rt.synced(s.watching_addr(label))
        },
        Op::WatchBtcTx(label, _) => rt.synced(s.watching_tx(label)),
        Op::EnsureBtcTx(label, _) => if watches(s.watched_txs, label) {
            rt
        } else {
            rt.synced(s.watching_tx(label))
        },
        Op::EnsureBtcTxid(label, txid) => if watches(s.watched_txs, label) {
            rt
        } else {
            rt.synced(
                SyncerView { txids: s.txids.insert(label, txid), ..s.watching_tx(label) },
            )
        },
        Op::EnsureXmrTx(label, _) => if watches(s.watched_txs, label) {
            rt
        } else {
            rt.synced(s.watching_tx(label))
        },
        Op::BookTx(id, label) => rt.synced(
            SyncerView { counter: id.0, watched_txs: s.watched_txs.insert(id, label), ..s },
        ),
        Op::BookSweep(id) => rt.synced(
            SyncerView { counter: id.0, sweeping_addr: Some(id), ..s },
        ),
        Op::UnwatchAddr(id) => rt.synced(
            SyncerView { watched_addrs: s.watched_addrs.remove(id), ..s },
        ),
        Op::RememberTxid(label, txid) => rt.synced(
            SyncerView { txids: s.txids.insert(label, txid), ..s },
        ),
        Op::RetrieveTx(label) => if s.txids.dom().contains(label) {
            rt.synced(s.retrieving(label, s.txids[label]))
        } else {
            rt
        },
        Op::ForgetRetrieval(id) => rt.synced(
            SyncerView { retrieving_txs: s.retrieving_txs.remove(id), ..s },
        ),
        Op::NoteConfs(id, confirmations, thr) => rt.synced(s.confirmed(id, confirmations, thr)),
        Op::NoteHeight(blockchain, height) => rt.synced(s.risen(blockchain, height)),
        Op::KeepLockConfs(c) => rt.synced(SyncerView { lock_tx_confs: Some(c), ..s }),
        Op::KeepCancelConfs(c) => rt.synced(SyncerView { cancel_tx_confs: Some(c), ..s }),
        Op::KeepBuyConfs(c) => rt.synced(SyncerView { buy_tx_confs: Some(c), ..s }),
        Op::NoteFee(rate) => rt.synced(
            SyncerView { btc_fee_estimate_sat_per_kvb: Some(rate), ..s },
        ),
        Op::AwaitFunding(b) => rt.synced(SyncerView { awaiting_funding: b, ..s }),
        Op::Broadcast(_) => rt.synced(s.counted()),
        Op::KeepTx(label, tx) => RuntimeView { txs: rt.txs.insert(label, tx), ..rt },
        Op::DropTx(label) => RuntimeView { txs: rt.txs.remove(label), ..rt },
        Op::UsePeer(service) => RuntimeView { peer_service: service, ..rt },
        Op::Connected(b) => RuntimeView { connected: b, ..rt },
        Op::UseMakerPeer(addr) => RuntimeView { maker_peer: Some(addr), ..rt },
        Op::UseEnquirer(enquirer) => RuntimeView { enquirer, ..rt },
        Op::EnterState(state) => RuntimeView { state, ..rt },
        Op::UpdateState(state) => RuntimeView { state, ..rt },
        Op::MarkMoneroHeight => match rt.monero_address_creation_height {
            Some(_) => rt,
            None => RuntimeView {
                monero_address_creation_height: Some(s.height(Blockchain::Monero)),
                ..rt
            },
        },
        Op::Defer(service, request) => RuntimeView {
            pending_requests: rt.pending_requests.insert(service, seq![request]),
            ..rt
        },
        Op::DeferAlso(service, request) => RuntimeView {
            pending_requests: rt.pending_requests.insert(
                service,
                rt.waiting(service).push(request),
            ),
            ..rt
        },
        Op::DropDeferred(service) => RuntimeView {
            pending_requests: rt.pending_requests.remove(service),
            ..rt
        },
        Op::ForgetPeerBacklog(n) => RuntimeView {
            pending_peer_request: if n <= rt.pending_peer_request.len() {
                rt.pending_peer_request.skip(n as int)
            } else {
                Seq::empty()
            },
            ..rt
        },
        Op::Restore(checkpoint) => match checkpoint.state {
            CheckpointState::CheckpointSwapd(c) => RuntimeView {
                state: c.state,
                enquirer: c.enquirer,
                temporal_safety: c.temporal_safety,
                pending_requests: queues(c.pending_requests@),
                txs: c.txs@,
                ..rt
            },
            CheckpointState::CheckpointWallet(_) => rt,
        },
        Op::CollectChunk(_, chunk) => RuntimeView {
            chunks: rt.chunks.insert(
                chunk.checksum,
                with_part(
                    rt.parts(chunk.checksum),
                    (chunk.msg_index, chunk.serialized_state_chunk@),
                ),
            ),
            ..rt
        },
        Op::Send(_, _, _) => rt,
        Op::Report(_, _) => rt,
        Op::TryReport(_, _) => rt,
        Op::ReportFailure(_, _) => rt,
        Op::SendPeer(_) => rt,
        Op::Checkpoint(_) => rt,
        Op::CheckpointAt(_, _) => rt,
        Op::Replay(_, _) => rt,
        Op::Pause => rt,
        Op::Exit => rt,
    }
}

/// Whether a step in a runtime asks this of the outside world.
pub open spec fn dispatches(rt: RuntimeView, op: Op, d: Option<Dispatch>) -> bool {
    let s = rt.syncer;
    match op {
        Op::WatchFee => d == Some(rt.to_bitcoin(s.fee_task())),
        Op::WatchHeight(blockchain) => d == Some(
            match blockchain {
                Blockchain::Bitcoin => rt.to_bitcoin(s.height_task(blockchain)),
                Blockchain::Monero => rt.to_monero(s.height_task(blockchain)),
            },
        ),
        Op::EnsureBtcAddr(label, address) => if watches(s.watched_addrs, label) {
            d is None
        } else {
            d == Some(rt.to_bitcoin(s.addr_btc_task(address.script())))
        },
        Op::EnsureXmrAddr(label, spend, view, from_height) => if watches(s.watched_addrs, label) {
            d is None
        } else {
            d == Some(rt.to_monero(s.addr_xmr_task(spend, view, from_height)))
        },
        Op::WatchBtcTx(_, txid) => d == Some(
            rt.to_bitcoin(s.tx_task(Blockchain::Bitcoin, TxHash::Bitcoin(txid))),
        ),
        Op::EnsureBtcTx(label, txid) => if watches(s.watched_txs, label) {
            d is None
        } else {
            d == Some(rt.to_bitcoin(s.tx_task(Blockchain::Bitcoin, TxHash::Bitcoin(txid))))
        },
        Op::EnsureBtcTxid(label, txid) => if watches(s.watched_txs, label) {
            d is None
        } else {
            d == Some(rt.to_bitcoin(s.tx_task(Blockchain::Bitcoin, TxHash::Bitcoin(txid))))
        },
        Op::EnsureXmrTx(label, hash) => if watches(s.watched_txs, label) {
            d is None
        } else {
            d == Some(rt.to_monero(s.tx_task(Blockchain::Monero, TxHash::Monero(hash))))
        },
        Op::RetrieveTx(label) => if s.txids.dom().contains(label) {
            d == Some(rt.to_bitcoin(s.retrieval_task(s.txids[label])))
        } else {
            d is None
        },
        Op::Broadcast(tx) => d == Some(
            rt.to_bitcoin(Task::BroadcastTransaction { id: s.next_id(), tx: tx.encoding() }),
        ),
        Op::UpdateState(state) => d == told(
            rt.enquirer,
            Notice::StateTransition(rt.state.name(), state.name()),
        ),
        Op::CollectChunk(source, chunk) => {
            let parts = stepped(rt, op).parts(chunk.checksum);
            match d {
                Some(Dispatch::Decode(from, swap_id, bytes)) => {
                    &&& from == source
                    &&& swap_id == chunk.swap_id
                    &&& parts.len() >= chunk.msgs_total
                    &&& assembles(parts, bytes@)
                    &&& ripemd160_digest(bytes@) == chunk.checksum.0@
                },
                Some(_) => false,
                None => parts.len() < chunk.msgs_total || exists|bytes: Seq<u8>| #[trigger]
                    assembles(parts, bytes) && ripemd160_digest(bytes) != chunk.checksum.0@,
            }
        },
        Op::Send(bus, dest, request) => d == Some(Dispatch::Send(bus, dest, request)),
        Op::Report(dest, notice) => d == told(dest, notice),
        Op::TryReport(dest, notice) => d == (match dest {
            Some(dest) => Some(
                Dispatch::TrySend(ServiceBus::Ctl, dest, Request::Progress(notice)),
            ),
            None => None,
        }),
        Op::ReportFailure(dest, failure) => d == (match dest {
            Some(dest) => Some(Dispatch::Send(ServiceBus::Ctl, dest, Request::Failure(failure))),
            None => None,
        }),
        Op::SendPeer(msg) => d == Some(peer_request(rt, msg)),
        Op::Checkpoint(msg) => d == Some(Dispatch::Checkpoint(msg)),
        Op::CheckpointAt(msg, state) => d == Some(Dispatch::CheckpointAt(msg, state)),
        Op::Replay(source, request) => d == Some(Dispatch::Replay(source, request)),
        Op::Pause => d == Some(Dispatch::Pause),
        Op::Exit => d == Some(Dispatch::Exit),
        _ => d is None,
    }
}

/// A word to somebody, if there is somebody to tell.
pub open spec fn told(dest: Option<ServiceId>, notice: Notice) -> Option<Dispatch> {
    match dest {
        Some(dest) => Some(Dispatch::Send(ServiceBus::Ctl, dest, Request::Progress(notice))),
        None => None,
    }
}

fn tell(dest: Option<ServiceId>, notice: Notice) -> (r: Option<Dispatch>)
    ensures
        r == told(dest, notice),
{
    match dest {
        Some(dest) => Some(Dispatch::Send(ServiceBus::Ctl, dest, Request::Progress(notice))),
        None => None,
    }
}

/// A message on its way to the peer.
pub open spec fn peer_request(rt: RuntimeView, msg: Msg) -> Dispatch {
    Dispatch::Peer(ServiceBus::Msg, rt.peer_service, Request::Protocol(msg))
}

/// What the node daemon is told of a peer that cannot be reached.
pub open spec fn unreachable_peer(rt: RuntimeView) -> Dispatch {
    Dispatch::Send(
        ServiceBus::Ctl,
        ServiceId::Farcasterd,
        Request::PeerdUnreachable(rt.peer_service),
    )
}

/// The runtime in which one more message waits for the peer.
pub open spec fn kept_for_peer(rt: RuntimeView, msg: Msg) -> RuntimeView {
    RuntimeView { pending_peer_request: rt.pending_peer_request.push(msg), ..rt }
}

/// The runtime after a list of steps.
pub open spec fn stepped_all(rt: RuntimeView, ops: Seq<Op>) -> RuntimeView
    decreases ops.len(),
{
    if ops.len() == 0 {
        rt
    } else {
        stepped(stepped_all(rt, ops.drop_last()), ops.last())
    }
}

/// The families of steps.
#[derive(Clone, Copy, PartialEq, Eq, Structural)]
pub enum StepKind {
    Watch,
    Note,
    Keep,
    Defer,
    Send,
}

/// The family that a step belongs to.
pub open spec fn kind_of(op: Op) -> StepKind {
    match op {
        Op::WatchFee => StepKind::Watch,
        Op::WatchHeight(_) => StepKind::Watch,
        Op::EnsureBtcAddr(_, _) => StepKind::Watch,
        Op::EnsureXmrAddr(_, _, _, _) => StepKind::Watch,
        Op::WatchBtcTx(_, _) => StepKind::Watch,
        Op::EnsureBtcTx(_, _) => StepKind::Watch,
        Op::EnsureBtcTxid(_, _) => StepKind::Watch,
        Op::EnsureXmrTx(_, _) => StepKind::Watch,
        Op::RetrieveTx(_) => StepKind::Watch,
        Op::Broadcast(_) => StepKind::Watch,
        Op::BookTx(_, _) => StepKind::Note,
        Op::BookSweep(_) => StepKind::Note,
        Op::UnwatchAddr(_) => StepKind::Note,
        Op::RememberTxid(_, _) => StepKind::Note,
        Op::ForgetRetrieval(_) => StepKind::Note,
        Op::NoteConfs(_, _, _) => StepKind::Note,
        Op::NoteHeight(_, _) => StepKind::Note,
        Op::KeepLockConfs(_) => StepKind::Note,
        Op::KeepCancelConfs(_) => StepKind::Note,
        Op::KeepBuyConfs(_) => StepKind::Note,
        Op::NoteFee(_) => StepKind::Note,
        Op::AwaitFunding(_) => StepKind::Note,
        Op::KeepTx(_, _) => StepKind::Keep,
        Op::DropTx(_) => StepKind::Keep,
        Op::UsePeer(_) => StepKind::Keep,
        Op::Connected(_) => StepKind::Keep,
        Op::UseMakerPeer(_) => StepKind::Keep,
        Op::UseEnquirer(_) => StepKind::Keep,
        Op::EnterState(_) => StepKind::Keep,
        Op::UpdateState(_) => StepKind::Keep,
        Op::MarkMoneroHeight => StepKind::Keep,
        Op::ForgetPeerBacklog(_) => StepKind::Keep,
        Op::Restore(_) => StepKind::Keep,
        Op::Defer(_, _) => StepKind::Defer,
        Op::DeferAlso(_, _) => StepKind::Defer,
        Op::DropDeferred(_) => StepKind::Defer,
        Op::CollectChunk(_, _) => StepKind::Defer,
        Op::Send(_, _, _) => StepKind::Send,
        Op::Report(_, _) => StepKind::Send,
        Op::TryReport(_, _) => StepKind::Send,
        Op::ReportFailure(_, _) => StepKind::Send,
        Op::SendPeer(_) => StepKind::Send,
        Op::Checkpoint(_) => StepKind::Send,
        Op::CheckpointAt(_, _) => StepKind::Send,
        Op::Replay(_, _) => StepKind::Send,
        Op::Pause => StepKind::Send,
        Op::Exit => StepKind::Send,
    }
}

fn step_kind(op: &Op) -> (r: StepKind)
    ensures
        r == kind_of(*op),
{
    match op {
        Op::WatchFee => StepKind::Watch,
        Op::WatchHeight(_) => StepKind::Watch,
        Op::EnsureBtcAddr(_, _) => StepKind::Watch,
        Op::EnsureXmrAddr(_, _, _, _) => StepKind::Watch,
        Op::WatchBtcTx(_, _) => StepKind::Watch,
        Op::EnsureBtcTx(_, _) => StepKind::Watch,
        Op::EnsureBtcTxid(_, _) => StepKind::Watch,
        Op::EnsureXmrTx(_, _) => StepKind::Watch,
        Op::RetrieveTx(_) => StepKind::Watch,
        Op::Broadcast(_) => StepKind::Watch,
        Op::BookTx(_, _) => StepKind::Note,
        Op::BookSweep(_) => StepKind::Note,
        Op::UnwatchAddr(_) => StepKind::Note,
        Op::RememberTxid(_, _) => StepKind::Note,
        Op::ForgetRetrieval(_) => StepKind::Note,
        Op::NoteConfs(_, _, _) => StepKind::Note,
        Op::NoteHeight(_, _) => StepKind::Note,
        Op::KeepLockConfs(_) => StepKind::Note,
        Op::KeepCancelConfs(_) => StepKind::Note,
        Op::KeepBuyConfs(_) => StepKind::Note,
        Op::NoteFee(_) => StepKind::Note,
        Op::AwaitFunding(_) => StepKind::Note,
        Op::KeepTx(_, _) => StepKind::Keep,
        Op::DropTx(_) => StepKind::Keep,
        Op::UsePeer(_) => StepKind::Keep,
        Op::Connected(_) => StepKind::Keep,
        Op::UseMakerPeer(_) => StepKind::Keep,
        Op::UseEnquirer(_) => StepKind::Keep,
        Op::EnterState(_) => StepKind::Keep,
        Op::UpdateState(_) => StepKind::Keep,
        Op::MarkMoneroHeight => StepKind::Keep,
        Op::ForgetPeerBacklog(_) => StepKind::Keep,
        Op::Restore(_) => StepKind::Keep,
        Op::Defer(_, _) => StepKind::Defer,
        Op::DeferAlso(_, _) => StepKind::Defer,
        Op::DropDeferred(_) => StepKind::Defer,
        Op::CollectChunk(_, _) => StepKind::Defer,
        Op::Send(_, _, _) => StepKind::Send,
        Op::Report(_, _) => StepKind::Send,
        Op::TryReport(_, _) => StepKind::Send,
        Op::ReportFailure(_, _) => StepKind::Send,
        Op::SendPeer(_) => StepKind::Send,
        Op::Checkpoint(_) => StepKind::Send,
        Op::CheckpointAt(_, _) => StepKind::Send,
        Op::Replay(_, _) => StepKind::Send,
        Op::Pause => StepKind::Send,
        Op::Exit => StepKind::Send,
    }
}

impl Runtime {
    fn bitcoin_task(&self, task: Task) -> (r: Dispatch)
        ensures
            r == self@.to_bitcoin(task),
    {
        Dispatch::Send(
            ServiceBus::Ctl,
            self.syncer_state.bitcoin_syncer(),
            Request::SyncerTask(task),
        )
    }

    fn monero_task(&self, task: Task) -> (r: Dispatch)
        ensures
            r == self@.to_monero(task),
    {
        Dispatch::Send(
            ServiceBus::Ctl,
            self.syncer_state.monero_syncer(),
            Request::SyncerTask(task),
        )
    }

    /// Takes one step: changes the runtime and says what is to be done outside.
    pub fn perform(&mut self, op: Op) -> (r: Option<Dispatch>)
        requires
            old(self).syncer_state.tasks.counter < u32::MAX,
        ensures
            final(self)@ == stepped(old(self)@, op),
            dispatches(old(self)@, op, r),
    {
        match step_kind(&op) {
            StepKind::Watch => self.perform_watch(op),
            StepKind::Note => self.perform_note(op),
            StepKind::Keep => self.perform_keep(op),
            StepKind::Defer => self.perform_defer(op),
            StepKind::Send => self.perform_send(op),
        }
    }

    /// Steps that give a syncer a task.
    fn perform_watch(&mut self, op: Op) -> (r: Option<Dispatch>)
        requires
            kind_of(op) == StepKind::Watch,
            old(self).syncer_state.tasks.counter < u32::MAX,
        ensures
            final(self)@ == stepped(old(self)@, op),
            dispatches(old(self)@, op, r),
    {
        match op {
            Op::WatchFee => self.watch_fee(),
            Op::WatchHeight(blockchain) => self.watch_height(blockchain),
            Op::EnsureBtcAddr(label, address) => self.ensure_btc_addr(label, address),
            Op::EnsureXmrAddr(label, spend, view, from_height) => self.ensure_xmr_addr(label, spend, view, from_height),
            Op::WatchBtcTx(label, txid) => self.watch_btc_tx(label, txid),
            Op::EnsureBtcTx(label, txid) => self.ensure_btc_tx(label, txid),
            Op::EnsureBtcTxid(label, txid) => self.ensure_btc_txid(label, txid),
            Op::EnsureXmrTx(label, hash) => self.ensure_xmr_tx(label, hash),
            Op::RetrieveTx(label) => self.retrieve_tx(label),
            Op::Broadcast(tx) => self.broadcast(tx),
            _ => None,
        }
    }

    fn watch_fee(&mut self) -> (r: Option<Dispatch>)
        requires
            old(self).syncer_state.tasks.counter < u32::MAX,
        ensures
            final(self)@ == stepped(old(self)@, Op::WatchFee),
            dispatches(old(self)@, Op::WatchFee, r),
    {
        let task = self.syncer_state.watch_fee();
        Some(self.bitcoin_task(task))
    }

    fn watch_height(&mut self, blockchain: Blockchain) -> (r: Option<Dispatch>)
        requires
            old(self).syncer_state.tasks.counter < u32::MAX,
        ensures
            final(self)@ == stepped(old(self)@, Op::WatchHeight(blockchain)),
            dispatches(old(self)@, Op::WatchHeight(blockchain), r),
    {
        let task = self.syncer_state.watch_height(blockchain);
        match blockchain {
            Blockchain::Bitcoin => Some(self.bitcoin_task(task)),
            Blockchain::Monero => Some(self.monero_task(task)),
        }
    }

    fn ensure_btc_addr(&mut self, label: TxLabel, address: BitcoinAddress) -> (r: Option<Dispatch>)
        requires
            old(self).syncer_state.tasks.counter < u32::MAX,
        ensures
            final(self)@ == stepped(old(self)@, Op::EnsureBtcAddr(label, address)),
            dispatches(old(self)@, Op::EnsureBtcAddr(label, address), r),
    {
        if self.syncer_state.is_watched_addr(label) {
            None
        } else {
            let task = self.syncer_state.watch_addr_btc(address.script_pubkey(), label);
            Some(self.bitcoin_task(task))
        }
    }

    fn ensure_xmr_addr(&mut self, label: TxLabel, spend: [u8; 32], view: [u8; 32], from_height: Option<u64>) -> (r: Option<Dispatch>)
        requires
            old(self).syncer_state.tasks.counter < u32::MAX,
        ensures
            final(self)@ == stepped(old(self)@, Op::EnsureXmrAddr(label, spend, view, from_height)),
            dispatches(old(self)@, Op::EnsureXmrAddr(label, spend, view, from_height), r),
    {
        if self.syncer_state.is_watched_addr(label) {
            None
        } else {
            let task = self.syncer_state.watch_addr_xmr(spend, view, label, from_height);
            Some(self.monero_task(task))
        }
    }

    fn watch_btc_tx(&mut self, label: TxLabel, txid: Txid) -> (r: Option<Dispatch>)
        requires
            old(self).syncer_state.tasks.counter < u32::MAX,
        ensures
            final(self)@ == stepped(old(self)@, Op::WatchBtcTx(label, txid)),
            dispatches(old(self)@, Op::WatchBtcTx(label, txid), r),
    {
        let task = self.syncer_state.watch_tx_btc(txid, label);
        Some(self.bitcoin_task(task))
    }

    fn ensure_btc_tx(&mut self, label: TxLabel, txid: Txid) -> (r: Option<Dispatch>)
        requires
            old(self).syncer_state.tasks.counter < u32::MAX,
        ensures
            final(self)@ == stepped(old(self)@, Op::EnsureBtcTx(label, txid)),
            dispatches(old(self)@, Op::EnsureBtcTx(label, txid), r),
    {
        if self.syncer_state.is_watched_tx(label) {
            None
        } else {
            let task = self.syncer_state.watch_tx_btc(txid, label);
            Some(self.bitcoin_task(task))
        }
    }

    fn ensure_btc_txid(&mut self, label: TxLabel, txid: Txid) -> (r: Option<Dispatch>)
        requires
            old(self).syncer_state.tasks.counter < u32::MAX,
        ensures
            final(self)@ == stepped(old(self)@, Op::EnsureBtcTxid(label, txid)),
            dispatches(old(self)@, Op::EnsureBtcTxid(label, txid), r),
    {
        if self.syncer_state.is_watched_tx(label) {
            None
        } else {
            let task = self.syncer_state.watch_tx_btc(txid, label);
            self.syncer_state.tasks.txids.insert(label, txid);
            Some(self.bitcoin_task(task))
        }
    }

    fn ensure_xmr_tx(&mut self, label: TxLabel, hash: Blob) -> (r: Option<Dispatch>)
        requires
            old(self).syncer_state.tasks.counter < u32::MAX,
        ensures
            final(self)@ == stepped(old(self)@, Op::EnsureXmrTx(label, hash)),
            dispatches(old(self)@, Op::EnsureXmrTx(label, hash), r),
    {
        if self.syncer_state.is_watched_tx(label) {
            None
        } else {
            let task = self.syncer_state.watch_tx_xmr(hash, label);
            Some(self.monero_task(task))
        }
    }

    fn retrieve_tx(&mut self, label: TxLabel) -> (r: Option<Dispatch>)
        requires
            old(self).syncer_state.tasks.counter < u32::MAX,
        ensures
            final(self)@ == stepped(old(self)@, Op::RetrieveTx(label)),
            dispatches(old(self)@, Op::RetrieveTx(label), r),
    {
        let txid = match self.syncer_state.tasks.txids.get(&label) {
            Some(txid) => Some(*txid),
            None => None,
        };
        match txid {
            Some(txid) => {
                let task = self.syncer_state.retrieve_tx_btc(txid, label);
                Some(self.bitcoin_task(task))
            },
            None => None,
        }
    }

    fn broadcast(&mut self, tx: Transaction) -> (r: Option<Dispatch>)
        requires
            old(self).syncer_state.tasks.counter < u32::MAX,
        ensures
            final(self)@ == stepped(old(self)@, Op::Broadcast(tx)),
            dispatches(old(self)@, Op::Broadcast(tx), r),
    {
        let id: TaskId = self.syncer_state.tasks.new_taskid();
        Some(self.bitcoin_task(Task::BroadcastTransaction { id, tx: tx.raw() }))
    }

    /// Steps that book and note what concerns the syncers.
    fn perform_note(&mut self, op: Op) -> (r: Option<Dispatch>)
        requires
            kind_of(op) == StepKind::Note,
            old(self).syncer_state.tasks.counter < u32::MAX,
        ensures
            final(self)@ == stepped(old(self)@, op),
            dispatches(old(self)@, op, r),
    {
        match op {
            Op::BookTx(id, label) => {
                self.syncer_state.tasks.counter = id.0;
                self.syncer_state.tasks.watched_txs.insert(id, label);
                None
            },
            Op::BookSweep(id) => {
                self.syncer_state.tasks.counter = id.0;
                self.syncer_state.tasks.sweeping_addr = Some(id);
                None
            },
            Op::UnwatchAddr(id) => {
                self.syncer_state.tasks.watched_addrs.remove(&id);
                None
            },
            Op::RememberTxid(label, txid) => {
                self.syncer_state.tasks.txids.insert(label, txid);
                None
            },
            Op::ForgetRetrieval(id) => {
                self.syncer_state.tasks.retrieving_txs.remove(&id);
                None
            },
            Op::NoteConfs(id, confirmations, thr) => {
                self.syncer_state.handle_tx_confs(id, confirmations, thr);
                None
            },
            Op::NoteHeight(blockchain, height) => {
                self.syncer_state.handle_height_change(height, blockchain);
                None
            },
            Op::KeepLockConfs(c) => {
                self.syncer_state.lock_tx_confs = Some(c);
                None
            },
            Op::KeepCancelConfs(c) => {
                self.syncer_state.cancel_tx_confs = Some(c);
                None
            },
            Op::KeepBuyConfs(c) => {
                self.syncer_state.buy_tx_confs = Some(c);
                None
            },
            Op::NoteFee(rate) => {
                self.syncer_state.btc_fee_estimate_sat_per_kvb = Some(rate);
                None
            },
            Op::AwaitFunding(b) => {
                self.syncer_state.awaiting_funding = b;
                None
            },
            _ => None,
        }
    }

    /// Steps that set what the runtime holds.
    fn perform_keep(&mut self, op: Op) -> (r: Option<Dispatch>)
        requires
            kind_of(op) == StepKind::Keep,
            old(self).syncer_state.tasks.counter < u32::MAX,
        ensures
            final(self)@ == stepped(old(self)@, op),
            dispatches(old(self)@, op, r),
    {
        match op {
            Op::KeepTx(label, tx) => {
                self.txs.insert(label, tx);
                None
            },
            Op::DropTx(label) => {
                self.txs.remove(&label);
                None
            },
            Op::UsePeer(service) => {
                self.peer_service = service;
                None
            },
            Op::Connected(b) => {
                self.connected = b;
                None
            },
            Op::UseMakerPeer(addr) => {
                self.maker_peer = Some(addr);
                None
            },
            Op::UseEnquirer(enquirer) => {
                self.enquirer = enquirer;
                None
            },
            Op::EnterState(state) => {
                self.state = state;
                None
            },
            Op::UpdateState(state) => {
                let notice = Notice::StateTransition(self.state.name(), state.name());
                self.state = state;
                tell(self.enquirer, notice)
            },
            Op::MarkMoneroHeight => {
                if self.monero_address_creation_height.is_none() {
                    self.monero_address_creation_height =
                    Some(self.syncer_state.height(Blockchain::Monero));
                }
                None
            },
            Op::ForgetPeerBacklog(n) => {
                self.pending_peer_request = if n <= self.pending_peer_request.len() {
                    self.pending_peer_request.split_off(n)
                } else {
                    Vec::new()
                };
                assert(self@.pending_peer_request =~= stepped(
                    old(self)@,
                    op,
                ).pending_peer_request);
                None
            },
            Op::Restore(checkpoint) => {
                self.restore(&checkpoint);
                None
            },
            _ => None,
        }
    }

    /// Steps that let something wait.
    fn perform_defer(&mut self, op: Op) -> (r: Option<Dispatch>)
        requires
            kind_of(op) == StepKind::Defer,
            old(self).syncer_state.tasks.counter < u32::MAX,
        ensures
            final(self)@ == stepped(old(self)@, op),
            dispatches(old(self)@, op, r),
    {
        match op {
            Op::Defer(service, request) => {
                self.defer(service, request);
                None
            },
            Op::DeferAlso(service, request) => {
                self.defer_also(service, request);
                None
            },
            Op::DropDeferred(service) => {
                self.pending_requests.remove(&service);
                assert(self@.pending_requests =~= old(self)@.pending_requests.remove(service));
                None
            },
            Op::CollectChunk(source, chunk) => self.collect(source, chunk),
            _ => None,
        }
    }

    /// Steps that only send.
    fn perform_send(&mut self, op: Op) -> (r: Option<Dispatch>)
        requires
            kind_of(op) == StepKind::Send,
            old(self).syncer_state.tasks.counter < u32::MAX,
        ensures
            final(self)@ == stepped(old(self)@, op),
            dispatches(old(self)@, op, r),
    {
        match op {
            Op::Send(bus, dest, request) => Some(Dispatch::Send(bus, dest, request)),
            Op::Report(dest, notice) => tell(dest, notice),
            Op::TryReport(dest, notice) => match dest {
                Some(dest) => Some(
                    Dispatch::TrySend(ServiceBus::Ctl, dest, Request::Progress(notice)),
                ),
                None => None,
            },
            Op::ReportFailure(dest, failure) => match dest {
                Some(dest) => Some(
                    Dispatch::Send(ServiceBus::Ctl, dest, Request::Failure(failure)),
                ),
                None => None,
            },
            Op::SendPeer(msg) => Some(
                Dispatch::Peer(ServiceBus::Msg, self.peer_service, Request::Protocol(msg)),
            ),
            Op::Checkpoint(msg) => Some(Dispatch::Checkpoint(msg)),
            Op::CheckpointAt(msg, state) => Some(Dispatch::CheckpointAt(msg, state)),
            Op::Replay(source, request) => Some(Dispatch::Replay(source, request)),
            Op::Pause => Some(Dispatch::Pause),
            Op::Exit => Some(Dispatch::Exit),
            _ => None,
        }
    }

    fn defer(&mut self, service: ServiceId, request: PendingRequest)
        ensures
            final(self)@ == stepped(old(self)@, Op::Defer(service, request)),
    {
        let queue = Queue::one(request);
        self.pending_requests.insert(service, queue);
        assert(self@.pending_requests =~= old(self)@.pending_requests.insert(
            service,
            seq![request],
        ));
    }

    fn defer_also(&mut self, service: ServiceId, request: PendingRequest)
        ensures
            final(self)@ == stepped(old(self)@, Op::DeferAlso(service, request)),
    {
        let queue = match self.pending_requests.get(&service) {
            Some(queue) => queue.pushed(request),
            None => {
                let queue = Queue::one(request);
                assert(queue@ =~= Seq::<PendingRequest>::empty().push(request));
                queue
            },
        };
        self.pending_requests.insert(service, queue);
        assert(self@.pending_requests =~= old(self)@.pending_requests.insert(
            service,
            old(self)@.waiting(service).push(request),
        ));
    }

    fn restore(&mut self, checkpoint: &Arc<Checkpoint>)
        ensures
            final(self)@ == stepped(old(self)@, Op::Restore(*checkpoint)),
    {
        match &checkpoint.state {
            CheckpointState::CheckpointSwapd(c) => {
                self.state = c.state.clone();
                self.enquirer = c.enquirer;
                self.temporal_safety = c.temporal_safety;
                self.pending_requests = c.pending_requests.dup();
                self.txs = c.txs.dup();
            },
            CheckpointState::CheckpointWallet(_) => {},
        }
    }

    fn collect(&mut self, source: ServiceId, chunk: CheckpointMultipartChunk) -> (r: Option<
        Dispatch,
    >)
        ensures
            final(self)@ == stepped(old(self)@, Op::CollectChunk(source, chunk)),
            dispatches(old(self)@, Op::CollectChunk(source, chunk), r),
    {
        let CheckpointMultipartChunk {
            checksum: sum,
            msg_index,
            msgs_total,
            serialized_state_chunk,
            swap_id,
        } = chunk;
        let mut chunks = match self.pending_checkpoint_chunks.remove(&sum) {
            Some(chunks) => chunks,
            None => Chunks::new(),
        };
        chunks.insert(CheckpointChunk { msg_index, serialized_state_chunk });
        let bytes: Option<Vec<u8>> = if chunks.0.len() >= msgs_total {
            Some(chunks.assemble())
        } else {
            None
        };
        let ghost parts = chunks@;
        self.pending_checkpoint_chunks.insert(sum, chunks);
        assert(self@.chunks =~= old(self)@.chunks.insert(sum, parts));
        assert(parts == self@.parts(sum));
        match bytes {
            Some(bytes) => {
                let actual: Checksum = checksum(&bytes);
                if actual.same(&sum) {
                    Some(Dispatch::Decode(source, swap_id, Blob::new(bytes)))
                } else {
                    proof {
                        if actual.0@ == sum.0@ {
                            assert(actual.0 =~= sum.0);
                        }
                        assert(assembles(parts, bytes@));
                    }
                    None
                }
            },
            None => None,
        }
    }

    /// The service under which this swap is known.
    pub fn identity(&self) -> (r: ServiceId)
        ensures
            r == ServiceId::Swap(self.swap_id),
    {
        ServiceId::Swap(self.swap_id)
    }

    /// The swap that is run.
    pub fn swap_id(&self) -> (r: SwapId)
        ensures
            r == self.swap_id,
    {
        self.swap_id
    }

    /// What is to be done when the sending of a message to the peer has ended: nothing
    /// if it was delivered, else the node daemon is told, and `peer_told` says what
    /// comes of the message.
    pub fn peer_sent(&self, delivered: bool) -> (r: Option<Dispatch>)
        ensures
            r == (if delivered {
                None
            } else {
                Some(unreachable_peer(self@))
            }),
    {
        if delivered {
            None
        } else {
            Some(self.peer_unreachable())
        }
    }

    /// What comes of a request to the peer that could not be delivered: the message in
    /// it waits for the peer once the node daemon has been told. Where it could not be
    /// told, that error is the outcome and nothing changes.
    pub fn peer_told(&mut self, request: Request, told: Result<(), Error>) -> (r: Result<
        (),
        Error,
    >)
        ensures
            r == told,
            final(self)@ == (match (told, request) {
                (Ok(_), Request::Protocol(msg)) => kept_for_peer(old(self)@, msg),
                _ => old(self)@,
            }),
    {
        if told.is_ok() {
            if let Request::Protocol(msg) = request {
                self.keep_for_peer(msg);
            }
        }
        told
    }

    /// A message could not be delivered: what the node daemon is told. When it has
    /// been told, `keep_for_peer` lets the message wait.
    pub fn peer_unreachable(&self) -> (r: Dispatch)
        ensures
            r == unreachable_peer(self@),
    {
        Dispatch::Send(
            ServiceBus::Ctl,
            ServiceId::Farcasterd,
            Request::PeerdUnreachable(self.peer_service),
        )
    }

    /// Lets a message that could not be delivered wait for the peer.
    pub fn keep_for_peer(&mut self, msg: Msg)
        ensures
            final(self)@ == kept_for_peer(old(self)@, msg),
    {
        self.pending_peer_request.push(msg);
    }

    /// The checkpoint of the present state, with the message that is to be repeated
    /// after a restart.
    pub fn snapshot(&self, last_msg: Msg) -> (r: CheckpointSwapd)
        ensures
            r.state == self.state,
            r.last_msg == last_msg,
            r.enquirer == self.enquirer,
            r.temporal_safety == self.temporal_safety,
            r.txs@ == self@.txs,
            r.txids@ == self@.syncer.txids,
            queues(r.pending_requests@) == self@.pending_requests,
    {
        CheckpointSwapd {
            state: self.state.clone(),
            last_msg,
            enquirer: self.enquirer,
            temporal_safety: self.temporal_safety,
            txs: self.txs.dup(),
            txids: self.syncer_state.tasks.txids.dup(),
            pending_requests: self.pending_requests.dup(),
        }
    }
}

/// The client hears that the taker proposes the swap.
pub open spec fn taker_report(swap_id: SwapId, enquirer: Option<ServiceId>) -> Op {
    Op::TryReport(enquirer, Notice::ProposingToTake(swap_id))
}

/// The client hears that the maker accepts the swap.
pub open spec fn maker_report(
    swap_id: SwapId,
    peerd: ServiceId,
    enquirer: Option<ServiceId>,
) -> Op {
    Op::TryReport(enquirer, Notice::AcceptingSwap(swap_id, peerd))
}

impl Runtime {
    /// Commits to the taker's parameters; gives no commitment where they are none. The
    /// client hears of the proposal, and whether it can be reached does not matter.
    pub fn taker_commit(&self, enquirer: Option<ServiceId>, params: &Params) -> (r: (
        Op,
        Option<Commit>,
    ))
        ensures
            r.0 == taker_report(self.swap_id, enquirer),
            match r.1 {
                Some(c) => {
                    &&& commits_to(c, self.swap_id, *params)
                    &&& c.swap_id() == self.swap_id
                    &&& well_tagged(self.swap_id, *params) ==> opens(
                        c,
                        Reveal::carrying(self.swap_id, *params),
                    )
                },
                None => !committable(self.swap_id, *params),
            },
    {
        (
            Op::TryReport(enquirer, Notice::ProposingToTake(self.swap_id)),
            commit_to(self.swap_id, params),
        )
    }

    /// Commits to the maker's parameters; gives no commitment where they are none. The
    /// client hears that the swap of the taker behind the peer service is accepted, and
    /// whether it can be reached does not matter.
    pub fn maker_commit(
        &self,
        peerd: ServiceId,
        swap_id: SwapId,
        enquirer: Option<ServiceId>,
        params: &Params,
    ) -> (r: (Op, Option<Commit>))
        ensures
            r.0 == maker_report(swap_id, peerd, enquirer),
            match r.1 {
                Some(c) => {
                    &&& commits_to(c, self.swap_id, *params)
                    &&& c.swap_id() == self.swap_id
                    &&& well_tagged(self.swap_id, *params) ==> opens(
                        c,
                        Reveal::carrying(self.swap_id, *params),
                    )
                },
                None => !committable(self.swap_id, *params),
            },
    {
        (
            Op::TryReport(enquirer, Notice::AcceptingSwap(swap_id, peerd)),
            commit_to(self.swap_id, params),
        )
    }
}

/// The swap that a swap daemon's service runs.
pub fn get_swap_id(source: &ServiceId) -> (r: Result<SwapId, Error>)
    ensures
        r == (match *source {
            ServiceId::Swap(swap_id) => Ok::<SwapId, Error>(swap_id),
            _ => Err(Error::NotSwapd),
        }),
{
    if let ServiceId::Swap(swap_id) = source {
        Ok(*swap_id)
    } else {
        Err(Error::NotSwapd)
    }
}

/// The thresholds that a swap under an offer keeps to.
pub open spec fn safety_of(offer: PublicOffer) -> TemporalSafety {
    TemporalSafety {
        cancel_timelock: offer.offer.cancel_timelock,
        punish_timelock: offer.offer.punish_timelock,
        btc_finality_thr: 1,
        race_thr: 3,
        xmr_finality_thr: 1,
        sweep_monero_thr: 10,
    }
}

/// The role that a maker or taker of an offer plays.
pub open spec fn role_of(offer: PublicOffer, local_trade_role: TradeRole) -> SwapRole {
    match local_trade_role {
        TradeRole::Maker => offer.offer.maker_role,
        TradeRole::Taker => offer.offer.maker_role.other(),
    }
}

/// The first state of a swap.
pub open spec fn start_state(offer: PublicOffer, local_trade_role: TradeRole) -> State {
    match role_of(offer, local_trade_role) {
        SwapRole::Alice => State::Alice(
            AliceState::StartA { local_trade_role, public_offer: offer },
        ),
        SwapRole::Bob => State::Bob(BobState::StartB { local_trade_role, public_offer: offer }),
    }
}

/// A runtime in which nothing has happened.
pub open spec fn fresh(swap_id: SwapId, offer: PublicOffer, local_trade_role: TradeRole) -> RuntimeView {
    RuntimeView {
        swap_id,
        peer_service: ServiceId::Loopback,
        connected: false,
        state: start_state(offer, local_trade_role),
        maker_peer: None,
        enquirer: None,
        syncer: SyncerView {
            counter: 0,
            watched_addrs: Map::empty(),
            watched_txs: Map::empty(),
            retrieving_txs: Map::empty(),
            sweeping_addr: None,
            txids: Map::empty(),
            final_txs: Map::empty(),
            monero_height: 0,
            bitcoin_height: 0,
            confirmation_bound: 50000,
            lock_tx_confs: None,
            cancel_tx_confs: None,
            buy_tx_confs: None,
            network: offer.offer.network,
            monero_amount: offer.offer.accordant_amount,
            bitcoin_amount: offer.offer.arbitrating_amount,
            awaiting_funding: false,
            confirmations: Map::empty(),
            btc_fee_estimate_sat_per_kvb: None,
        },
        temporal_safety: safety_of(offer),
        public_offer: offer,
        monero_address_creation_height: None,
        pending_requests: Map::empty(),
        pending_peer_request: Seq::empty(),
        chunks: Map::empty(),
        txs: Map::empty(),
    }
}

/// Sets up the runtime of a swap under an offer, unless its timelocks leave no room
/// for a safe swap.
pub fn run(swap_id: SwapId, public_offer: PublicOffer, local_trade_role: TradeRole) -> (r: Result<
    Runtime,
    Error,
>)
    ensures
        match r {
            Ok(rt) => safety_of(public_offer).ordered() && rt@ == fresh(
                swap_id,
                public_offer,
                local_trade_role,
            ),
            Err(e) => !safety_of(public_offer).ordered() && e == Error::UnsafeTimelocks,
        },
{
    let local_swap_role: SwapRole = match local_trade_role {
        TradeRole::Maker => public_offer.offer.maker_role,
        TradeRole::Taker => public_offer.offer.maker_role.other(),
    };
    let state = match local_swap_role {
        SwapRole::Alice => State::Alice(
            AliceState::StartA { local_trade_role, public_offer: public_offer.clone() },
        ),
        SwapRole::Bob => State::Bob(
            BobState::StartB { local_trade_role, public_offer: public_offer.clone() },
        ),
    };
    let temporal_safety = TemporalSafety {
        cancel_timelock: public_offer.offer.cancel_timelock,
        punish_timelock: public_offer.offer.punish_timelock,
        btc_finality_thr: 1,
        race_thr: 3,
        xmr_finality_thr: 1,
        sweep_monero_thr: 10,
    };
    match temporal_safety.valid_params() {
        Ok(()) => {},
        Err(e) => {
            return Err(e);
        },
    }
    let syncer_state = SyncerState::new(
        public_offer.offer.network,
        public_offer.offer.accordant_amount,
        public_offer.offer.arbitrating_amount,
    );
    let rt = Runtime {
        swap_id,
        peer_service: ServiceId::Loopback,
        connected: false,
        state,
        maker_peer: None,
        enquirer: None,
        syncer_state,
        temporal_safety,
        public_offer,
        monero_address_creation_height: None,
        pending_requests: VecMap::new(),
        pending_peer_request: Vec::new(),
        pending_checkpoint_chunks: VecMap::new(),
        txs: VecMap::new(),
    };
    assert(rt@ =~= fresh(swap_id, public_offer, local_trade_role)) by {
        assert(rt@.pending_requests =~= Map::empty());
        assert(rt@.chunks =~= Map::empty());
    }
    Ok(rt)
}

} // verus!
