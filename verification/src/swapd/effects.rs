//! What the steps of a reaction do to a runtime and to the world.
use vstd::prelude::*;

use crate::base::{
    Blockchain, Notice, ServiceBus, ServiceId, SwapId, SwapRole, TaskId, TradeRole, TxLabel,
    Txid,
};
use crate::blob::Blob;
use crate::chain::{BitcoinAddress, Transaction};
use crate::message::{
    AddressAddendum, Failure, Msg, Request, Task, TransactionConfirmations, TxHash,
};
use crate::offer::PublicOffer;
use crate::swapd::checkpoint::PendingRequest;
use crate::swapd::runtime::{
    dispatches, fresh, kept_for_peer, safety_of, stepped, unreachable_peer,
    Dispatch, Op, RuntimeView,
};
use crate::swapd::state::{AliceState, BobState, State};
use crate::swapd::swap_state::SwapStateMachine;
use crate::swapd::syncer_client::SyncerView;
use crate::swapd::temporal_safety::TemporalSafety;

verus! {

/// The number of the next task.
pub open spec fn next_number(rt: RuntimeView) -> TaskId {
    TaskId((rt.syncer.counter + 1) as u32)
}

/// The height of a chain, as far as it is known.
pub open spec fn tip(rt: RuntimeView, chain: Blockchain) -> u64 {
    match chain {
        Blockchain::Bitcoin => rt.syncer.bitcoin_height,
        Blockchain::Monero => rt.syncer.monero_height,
    }
}

/// A task of a syncer lives until the chain has grown by the confirmation bound, and for
/// ever while the height is not known or the bound is out of range.
pub proof fn law_task_lifetime(rt: RuntimeView, chain: Blockchain)
    ensures
        rt.syncer.height(chain) == tip(rt, chain),
        tip(rt, chain) == 0 ==> rt.syncer.lifetime(chain) == u64::MAX,
        tip(rt, chain) > 0 && tip(rt, chain) + rt.syncer.confirmation_bound <= u64::MAX
            ==> rt.syncer.lifetime(chain) == tip(rt, chain) + rt.syncer.confirmation_bound,
        tip(rt, chain) + rt.syncer.confirmation_bound > u64::MAX ==> rt.syncer.lifetime(chain)
            == u64::MAX,
{
}

/// Whether a task is on its way to the syncer of a chain.
pub open spec fn ordered_from(rt: RuntimeView, d: Option<Dispatch>, chain: Blockchain, task: Task) -> bool {
    d == Some(
        Dispatch::Send(
            ServiceBus::Ctl,
            ServiceId::Syncer(chain, rt.syncer.network),
            Request::SyncerTask(task),
        ),
    )
}

/// To publish a transaction is to have the bitcoin syncer broadcast its encoding, under
/// the next number. Nothing else changes.
pub proof fn law_broadcast(rt: RuntimeView, tx: Transaction, d: Option<Dispatch>)
    requires
        dispatches(rt, Op::Broadcast(tx), d),
    ensures
        ordered_from(
            rt,
            d,
            Blockchain::Bitcoin,
            Task::BroadcastTransaction { id: next_number(rt), tx: tx.encoding() },
        ),
        stepped(rt, Op::Broadcast(tx)) == (RuntimeView {
            syncer: SyncerView { counter: next_number(rt).0, ..rt.syncer },
            ..rt
        }),
{
}

/// Whether no task in a map bears a label.
pub open spec fn unlabelled(tasks: Map<TaskId, TxLabel>, label: TxLabel) -> bool {
    forall|id: TaskId| #[trigger] tasks.dom().contains(id) ==> tasks[id] != label
}

/// Whether a step only lets one more transaction be watched, under the next number.
pub open spec fn watches_one_more(rt: RuntimeView, to: RuntimeView, label: TxLabel) -> bool {
    &&& to.syncer.watched_txs == rt.syncer.watched_txs.insert(next_number(rt), label)
    &&& to.syncer.counter == next_number(rt).0
    &&& to == RuntimeView {
        syncer: SyncerView {
            watched_txs: to.syncer.watched_txs,
            counter: to.syncer.counter,
            txids: to.syncer.txids,
            ..rt.syncer
        },
        ..rt
    }
}

/// A transaction is watched on its own chain, under its hash and the next number, unless
/// one with its label is watched already: then nothing happens at all. The identifier
/// is remembered only by the step that says so.
pub proof fn law_transaction_watched(
    rt: RuntimeView,
    label: TxLabel,
    txid: Txid,
    hash: Blob,
    btc: Option<Dispatch>,
    again: Option<Dispatch>,
    remembered: Option<Dispatch>,
    xmr: Option<Dispatch>,
)
    requires
        dispatches(rt, Op::EnsureBtcTx(label, txid), btc),
        dispatches(rt, Op::WatchBtcTx(label, txid), again),
        dispatches(rt, Op::EnsureBtcTxid(label, txid), remembered),
        dispatches(rt, Op::EnsureXmrTx(label, hash), xmr),
    ensures
        !unlabelled(rt.syncer.watched_txs, label) ==> {
            &&& btc is None && remembered is None && xmr is None
            &&& stepped(rt, Op::EnsureBtcTx(label, txid)) == rt
            &&& stepped(rt, Op::EnsureBtcTxid(label, txid)) == rt
            &&& stepped(rt, Op::EnsureXmrTx(label, hash)) == rt
        },
        unlabelled(rt.syncer.watched_txs, label) ==> {
            &&& btc == again && remembered == again
            &&& watches_one_more(rt, stepped(rt, Op::EnsureBtcTx(label, txid)), label)
            &&& watches_one_more(rt, stepped(rt, Op::EnsureBtcTxid(label, txid)), label)
            &&& watches_one_more(rt, stepped(rt, Op::EnsureXmrTx(label, hash)), label)
            &&& stepped(rt, Op::EnsureBtcTx(label, txid)).syncer.txids == rt.syncer.txids
            &&& stepped(rt, Op::EnsureXmrTx(label, hash)).syncer.txids == rt.syncer.txids
            &&& stepped(rt, Op::EnsureBtcTxid(label, txid)).syncer.txids
                == rt.syncer.txids.insert(label, txid)
            &&& ordered_from(
                rt,
                xmr,
                Blockchain::Monero,
                Task::WatchTransaction {
                    id: next_number(rt),
                    lifetime: rt.syncer.lifetime(Blockchain::Monero),
                    hash: TxHash::Monero(hash),
                    confirmation_bound: rt.syncer.confirmation_bound,
                },
            )
        },
        watches_one_more(rt, stepped(rt, Op::WatchBtcTx(label, txid)), label),
        stepped(rt, Op::WatchBtcTx(label, txid)).syncer.txids == rt.syncer.txids,
        ordered_from(
            rt,
            again,
            Blockchain::Bitcoin,
            Task::WatchTransaction {
                id: next_number(rt),
                lifetime: rt.syncer.lifetime(Blockchain::Bitcoin),
                hash: TxHash::Bitcoin(txid),
                confirmation_bound: rt.syncer.confirmation_bound,
            },
        ),
{
}

/// The height some blocks behind the tip of a chain, or the first.
pub open spec fn blocks_behind(tip: u64, depth: u64) -> u64 {
    if tip < depth {
        0
    } else {
        (tip - depth) as u64
    }
}

/// An address is watched on its own chain, under the next number, unless one with its
/// label is watched already: a bitcoin address by its script from 6 blocks behind the
/// tip, a monero address by its keys from a given height or 20 blocks behind the tip.
/// Payments to the bitcoin address come with their transactions.
pub proof fn law_address_watched(
    rt: RuntimeView,
    label: TxLabel,
    address: BitcoinAddress,
    spend: [u8; 32],
    view: [u8; 32],
    from_height: Option<u64>,
    btc: Option<Dispatch>,
    xmr: Option<Dispatch>,
)
    requires
        dispatches(rt, Op::EnsureBtcAddr(label, address), btc),
        dispatches(rt, Op::EnsureXmrAddr(label, spend, view, from_height), xmr),
    ensures
        stepped(rt, Op::EnsureBtcAddr(label, address)) == stepped(
            rt,
            Op::EnsureXmrAddr(label, spend, view, from_height),
        ),
        !unlabelled(rt.syncer.watched_addrs, label) ==> btc is None && xmr is None && stepped(
            rt,
            Op::EnsureBtcAddr(label, address),
        ) == rt,
        unlabelled(rt.syncer.watched_addrs, label) ==> {
            &&& stepped(rt, Op::EnsureBtcAddr(label, address)) == (RuntimeView {
                syncer: SyncerView {
                    counter: next_number(rt).0,
                    watched_addrs: rt.syncer.watched_addrs.insert(next_number(rt), label),
                    ..rt.syncer
                },
                ..rt
            })
            &&& ordered_from(
                rt,
                btc,
                Blockchain::Bitcoin,
                Task::WatchAddress {
                    id: next_number(rt),
                    lifetime: rt.syncer.lifetime(Blockchain::Bitcoin),
                    addendum: AddressAddendum::Bitcoin {
                        script_pubkey: address.script(),
                        from_height: blocks_behind(rt.syncer.bitcoin_height, 6),
                    },
                    with_tx: true,
                },
            )
            &&& xmr matches Some(
                Dispatch::Send(bus, dest, Request::SyncerTask(
                    Task::WatchAddress { id, lifetime, addendum, with_tx },
                )),
            )
            &&& bus == ServiceBus::Ctl
            &&& dest == ServiceId::Syncer(Blockchain::Monero, rt.syncer.network)
            &&& id == next_number(rt)
            &&& lifetime == rt.syncer.lifetime(Blockchain::Monero)
            &&& addendum == (AddressAddendum::Monero {
                spend_key: spend,
                view_key: view,
                from_height: match from_height {
                    Some(h) => h,
                    None => blocks_behind(rt.syncer.monero_height, 20),
                },
            })
            &&& !with_tx
        },
{
}

/// A remembered transaction is fetched by its identifier from the bitcoin syncer, once:
/// it is no longer remembered, and the task is noted with its label so that it can be
/// repeated. What is not remembered is not fetched.
pub proof fn law_transaction_fetched(rt: RuntimeView, label: TxLabel, d: Option<Dispatch>)
    requires
        dispatches(rt, Op::RetrieveTx(label), d),
    ensures
        ({
            let to = stepped(rt, Op::RetrieveTx(label));
            if rt.syncer.txids.dom().contains(label) {
                let task = Task::GetTx {
                    id: next_number(rt),
                    hash: TxHash::Bitcoin(rt.syncer.txids[label]),
                };
                &&& ordered_from(rt, d, Blockchain::Bitcoin, task)
                &&& to == (RuntimeView {
                    syncer: SyncerView {
                        counter: next_number(rt).0,
                        retrieving_txs: rt.syncer.retrieving_txs.insert(
                            next_number(rt),
                            (label, task),
                        ),
                        txids: rt.syncer.txids.remove(label),
                        ..rt.syncer
                    },
                    ..rt
                })
            } else {
                d is None && to == rt
            }
        }),
{
}

/// The heights of the chains and the fee rate are watched by tasks of their own syncers
/// under the next number.
pub proof fn law_chains_watched(
    rt: RuntimeView,
    chain: Blockchain,
    height: Option<Dispatch>,
    fee: Option<Dispatch>,
)
    requires
        dispatches(rt, Op::WatchHeight(chain), height),
        dispatches(rt, Op::WatchFee, fee),
    ensures
        ordered_from(
            rt,
            height,
            chain,
            Task::WatchHeight { id: next_number(rt), lifetime: rt.syncer.lifetime(chain) },
        ),
        ordered_from(
            rt,
            fee,
            Blockchain::Bitcoin,
            Task::WatchEstimateFee {
                id: next_number(rt),
                lifetime: rt.syncer.lifetime(Blockchain::Bitcoin),
            },
        ),
        stepped(rt, Op::WatchFee) == stepped(rt, Op::WatchHeight(chain)),
        stepped(rt, Op::WatchFee) == (RuntimeView {
            syncer: SyncerView { counter: next_number(rt).0, ..rt.syncer },
            ..rt
        }),
{
}

/// The depth of a watched transaction is noted under its label, and it counts as final
/// from its threshold on, for good. Of a transaction that is not watched, or not on the
/// chain, nothing is noted.
pub proof fn law_depth_noted(
    rt: RuntimeView,
    id: TaskId,
    confirmations: Option<u32>,
    thr: u32,
    label: TxLabel,
)
    ensures
        ({
            let to = stepped(rt, Op::NoteConfs(id, confirmations, thr));
            let heard = confirmations is Some && rt.syncer.watched_txs.dom().contains(id);
            &&& !heard ==> to == rt
            &&& heard && rt.syncer.watched_txs[id] == label ==> {
                &&& to.syncer.confirmations == rt.syncer.confirmations.insert(
                    label,
                    confirmations->0,
                )
                &&& thr <= confirmations->0 ==> to.syncer.final_txs == rt.syncer.final_txs.insert(
                    label,
                    true,
                )
                &&& thr > confirmations->0 ==> to.syncer.final_txs == rt.syncer.final_txs
            }
            &&& to == (RuntimeView {
                syncer: SyncerView {
                    confirmations: to.syncer.confirmations,
                    final_txs: to.syncer.final_txs,
                    ..rt.syncer
                },
                ..rt
            })
        }),
{
}

/// The height of a chain never falls: of a reported and the known height the greater one
/// is kept, and the other chain's stays as it is.
pub proof fn law_heights_rise(rt: RuntimeView, chain: Blockchain, height: u64)
    ensures
        ({
            let to = stepped(rt, Op::NoteHeight(chain, height));
            &&& tip(to, chain) >= height
            &&& tip(to, chain) >= tip(rt, chain)
            &&& tip(to, chain) == height || tip(to, chain) == tip(rt, chain)
            &&& to == (RuntimeView {
                syncer: match chain {
                    Blockchain::Bitcoin => SyncerView {
                        bitcoin_height: tip(to, chain),
                        ..rt.syncer
                    },
                    Blockchain::Monero => SyncerView {
                        monero_height: tip(to, chain),
                        ..rt.syncer
                    },
                },
                ..rt
            })
        }),
{
}

/// What is kept is there until it is dropped, and neither touches anything else: a
/// transaction under its label, the latest word on lock, cancel and buy, the fee rate,
/// and whether funding is waited for.
pub proof fn law_notes_kept(
    rt: RuntimeView,
    label: TxLabel,
    other: TxLabel,
    tx: Transaction,
    t: TransactionConfirmations,
    rate: u64,
    awaited: bool,
)
    ensures
        ({
            let kept = stepped(rt, Op::KeepTx(label, tx));
            let dropped = stepped(rt, Op::DropTx(label));
            &&& kept.txs.dom().contains(label) && kept.txs[label] == tx
            &&& !dropped.txs.dom().contains(label)
            &&& other != label ==> {
                &&& kept.txs.dom().contains(other) == rt.txs.dom().contains(other)
                &&& dropped.txs.dom().contains(other) == rt.txs.dom().contains(other)
                &&& rt.txs.dom().contains(other) ==> kept.txs[other] == rt.txs[other]
                    && dropped.txs[other] == rt.txs[other]
            }
            &&& kept == RuntimeView { txs: kept.txs, ..rt }
            &&& dropped == RuntimeView { txs: dropped.txs, ..rt }
        }),
        stepped(rt, Op::KeepLockConfs(t)) == (RuntimeView {
            syncer: SyncerView { lock_tx_confs: Some(t), ..rt.syncer },
            ..rt
        }),
        stepped(rt, Op::KeepCancelConfs(t)) == (RuntimeView {
            syncer: SyncerView { cancel_tx_confs: Some(t), ..rt.syncer },
            ..rt
        }),
        stepped(rt, Op::KeepBuyConfs(t)) == (RuntimeView {
            syncer: SyncerView { buy_tx_confs: Some(t), ..rt.syncer },
            ..rt
        }),
        stepped(rt, Op::NoteFee(rate)) == (RuntimeView {
            syncer: SyncerView { btc_fee_estimate_sat_per_kvb: Some(rate), ..rt.syncer },
            ..rt
        }),
        stepped(rt, Op::AwaitFunding(awaited)) == (RuntimeView {
            syncer: SyncerView { awaiting_funding: awaited, ..rt.syncer },
            ..rt
        }),
{
}

/// Tasks that are booked or forgotten are just those: a booking takes the number of its
/// task for the last one given out.
pub proof fn law_tasks_booked(rt: RuntimeView, id: TaskId, label: TxLabel, txid: Txid)
    ensures
        stepped(rt, Op::BookTx(id, label)) == (RuntimeView {
            syncer: SyncerView {
                counter: id.0,
                watched_txs: rt.syncer.watched_txs.insert(id, label),
                ..rt.syncer
            },
            ..rt
        }),
        stepped(rt, Op::BookSweep(id)) == (RuntimeView {
            syncer: SyncerView { counter: id.0, sweeping_addr: Some(id), ..rt.syncer },
            ..rt
        }),
        stepped(rt, Op::UnwatchAddr(id)) == (RuntimeView {
            syncer: SyncerView { watched_addrs: rt.syncer.watched_addrs.remove(id), ..rt.syncer },
            ..rt
        }),
        stepped(rt, Op::ForgetRetrieval(id)) == (RuntimeView {
            syncer: SyncerView {
                retrieving_txs: rt.syncer.retrieving_txs.remove(id),
                ..rt.syncer
            },
            ..rt
        }),
        stepped(rt, Op::RememberTxid(label, txid)) == (RuntimeView {
            syncer: SyncerView { txids: rt.syncer.txids.insert(label, txid), ..rt.syncer },
            ..rt
        }),
{
}

/// The height for the monero address is that of the monero chain when it is first noted,
/// and stays.
pub proof fn law_monero_height_marked_once(rt: RuntimeView)
    ensures
        ({
            let once = stepped(rt, Op::MarkMoneroHeight);
            &&& rt.monero_address_creation_height is Some ==> once == rt
            &&& rt.monero_address_creation_height is None ==> once == (RuntimeView {
                monero_address_creation_height: Some(rt.syncer.monero_height),
                ..rt
            })
            &&& stepped(once, Op::MarkMoneroHeight) == once
        }),
{
}

/// Requests wait in the order in which they came: one that is deferred takes the place of
/// all before it, one more joins the end, and a drop lets go of all; those that wait for
/// another service stay.
pub proof fn law_requests_wait(
    rt: RuntimeView,
    service: ServiceId,
    other: ServiceId,
    request: PendingRequest,
)
    ensures
        ({
            let one = stepped(rt, Op::Defer(service, request));
            let more = stepped(rt, Op::DeferAlso(service, request));
            let none = stepped(rt, Op::DropDeferred(service));
            &&& one.pending_requests.dom().contains(service)
            &&& one.pending_requests[service].len() == 1
            &&& one.pending_requests[service][0] == request
            &&& more.pending_requests.dom().contains(service)
            &&& more.pending_requests[service].last() == request
            &&& rt.pending_requests.dom().contains(service)
                ==> more.pending_requests[service].drop_last() == rt.pending_requests[service]
            &&& !rt.pending_requests.dom().contains(service)
                ==> more.pending_requests[service].len() == 1
            &&& !none.pending_requests.dom().contains(service)
            &&& other != service ==> {
                &&& one.pending_requests.dom().contains(other)
                    == rt.pending_requests.dom().contains(other)
                &&& more.pending_requests.dom().contains(other)
                    == rt.pending_requests.dom().contains(other)
                &&& none.pending_requests.dom().contains(other)
                    == rt.pending_requests.dom().contains(other)
                &&& rt.pending_requests.dom().contains(other) ==> {
                    &&& one.pending_requests[other] == rt.pending_requests[other]
                    &&& more.pending_requests[other] == rt.pending_requests[other]
                    &&& none.pending_requests[other] == rt.pending_requests[other]
                }
            }
            &&& one == RuntimeView { pending_requests: one.pending_requests, ..rt }
            &&& more == RuntimeView { pending_requests: more.pending_requests, ..rt }
            &&& none == RuntimeView { pending_requests: none.pending_requests, ..rt }
        }),
{
}

/// Who is who, and how far the swap has come, is as the step says; the client hears of a
/// state only by the step that tells it, if there is a client.
pub proof fn law_parties_noted(
    rt: RuntimeView,
    service: ServiceId,
    connected: bool,
    enquirer: Option<ServiceId>,
    state: State,
    entered: Option<Dispatch>,
    updated: Option<Dispatch>,
)
    requires
        dispatches(rt, Op::EnterState(state), entered),
        dispatches(rt, Op::UpdateState(state), updated),
    ensures
        stepped(rt, Op::UsePeer(service)) == (RuntimeView { peer_service: service, ..rt }),
        stepped(rt, Op::Connected(connected)) == (RuntimeView { connected, ..rt }),
        stepped(rt, Op::UseEnquirer(enquirer)) == (RuntimeView { enquirer, ..rt }),
        stepped(rt, Op::EnterState(state)) == (RuntimeView { state, ..rt }),
        stepped(rt, Op::UpdateState(state)) == (RuntimeView { state, ..rt }),
        entered is None,
        match rt.enquirer {
            Some(client) => updated == Some(
                Dispatch::Send(
                    ServiceBus::Ctl,
                    client,
                    Request::Progress(
                        Notice::StateTransition(rt.state.name(), state.name()),
                    ),
                ),
            ),
            None => updated is None,
        },
{
}

/// What goes out goes out as the step says, to whom it says, and changes nothing: a
/// message to the counterparty through its service on the message bus, a word to
/// somebody only if there is somebody.
pub proof fn law_sent_as_said(
    rt: RuntimeView,
    bus: ServiceBus,
    dest: ServiceId,
    request: Request,
    msg: Msg,
    who: Option<ServiceId>,
    notice: Notice,
    failure: Failure,
    sent: Option<Dispatch>,
    to_peer: Option<Dispatch>,
    reported: Option<Dispatch>,
    tried: Option<Dispatch>,
    failed: Option<Dispatch>,
    replayed: Option<Dispatch>,
)
    requires
        dispatches(rt, Op::Send(bus, dest, request), sent),
        dispatches(rt, Op::SendPeer(msg), to_peer),
        dispatches(rt, Op::Report(who, notice), reported),
        dispatches(rt, Op::TryReport(who, notice), tried),
        dispatches(rt, Op::ReportFailure(who, failure), failed),
        dispatches(rt, Op::Replay(dest, request), replayed),
    ensures
        sent == Some(Dispatch::Send(bus, dest, request)),
        to_peer == Some(
            Dispatch::Peer(ServiceBus::Msg, rt.peer_service, Request::Protocol(msg)),
        ),
        replayed == Some(Dispatch::Replay(dest, request)),
        who is None ==> reported is None && tried is None && failed is None,
        who matches Some(w) ==> {
            &&& reported == Some(Dispatch::Send(ServiceBus::Ctl, w, Request::Progress(notice)))
            &&& tried == Some(Dispatch::TrySend(ServiceBus::Ctl, w, Request::Progress(notice)))
            &&& failed == Some(Dispatch::Send(ServiceBus::Ctl, w, Request::Failure(failure)))
        },
        stepped(rt, Op::Send(bus, dest, request)) == rt,
        stepped(rt, Op::SendPeer(msg)) == rt,
        stepped(rt, Op::Report(who, notice)) == rt,
        stepped(rt, Op::TryReport(who, notice)) == rt,
        stepped(rt, Op::ReportFailure(who, failure)) == rt,
        stepped(rt, Op::Replay(dest, request)) == rt,
{
}

/// A message that cannot be delivered joins the end of those that wait for the peer, and
/// the node hears which service cannot be reached.
pub proof fn law_undelivered_kept(rt: RuntimeView, msg: Msg)
    ensures
        kept_for_peer(rt, msg).pending_peer_request.len() == rt.pending_peer_request.len() + 1,
        kept_for_peer(rt, msg).pending_peer_request.last() == msg,
        kept_for_peer(rt, msg).pending_peer_request.drop_last() == rt.pending_peer_request,
        kept_for_peer(rt, msg) == (RuntimeView {
            pending_peer_request: kept_for_peer(rt, msg).pending_peer_request,
            ..rt
        }),
        unreachable_peer(rt) == Dispatch::Send(
            ServiceBus::Ctl,
            ServiceId::Farcasterd,
            Request::PeerdUnreachable(rt.peer_service),
        ),
{
}

/// A swap begins from the terms of its offer: the taker plays the part that the maker
/// does not; the amounts, the network and the timelocks are the offer's; bitcoin and
/// monero are final after 1 block, monero can be swept after 10, and 3 blocks are left
/// for a race. Nothing is watched, kept or waiting.
pub proof fn law_swap_starts_from_offer(
    swap_id: SwapId,
    offer: PublicOffer,
    trade_role: TradeRole,
)
    ensures
        ({
            let rt = fresh(swap_id, offer, trade_role);
            let alice = (trade_role == TradeRole::Maker) == (offer.offer.maker_role
                == SwapRole::Alice);
            &&& rt.swap_id == swap_id
            &&& rt.public_offer == offer
            &&& rt.state == if alice {
                State::Alice(
                    AliceState::StartA { local_trade_role: trade_role, public_offer: offer },
                )
            } else {
                State::Bob(BobState::StartB { local_trade_role: trade_role, public_offer: offer })
            }
            &&& rt.syncer.network == offer.offer.network
            &&& rt.syncer.monero_amount == offer.offer.accordant_amount
            &&& rt.syncer.bitcoin_amount == offer.offer.arbitrating_amount
            &&& rt.temporal_safety == (TemporalSafety {
                cancel_timelock: offer.offer.cancel_timelock,
                punish_timelock: offer.offer.punish_timelock,
                btc_finality_thr: 1,
                race_thr: 3,
                xmr_finality_thr: 1,
                sweep_monero_thr: 10,
            })
            &&& rt.syncer.confirmation_bound == 50000
            &&& rt.syncer.counter == 0
            &&& !rt.syncer.awaiting_funding && !rt.connected
            &&& rt.syncer.bitcoin_height == 0 && rt.syncer.monero_height == 0
            &&& rt.syncer.watched_addrs.dom() == Set::<TaskId>::empty()
            &&& rt.syncer.watched_txs.dom() == Set::<TaskId>::empty()
            &&& rt.syncer.retrieving_txs.dom() == Set::<TaskId>::empty()
            &&& rt.syncer.txids.dom() == Set::<TxLabel>::empty()
            &&& rt.syncer.final_txs.dom() == Set::<TxLabel>::empty()
            &&& rt.syncer.confirmations.dom() == Set::<TxLabel>::empty()
            &&& rt.txs.dom() == Set::<TxLabel>::empty()
            &&& rt.pending_requests.dom() == Set::<ServiceId>::empty()
            &&& rt.pending_peer_request.len() == 0
            &&& rt.syncer.sweeping_addr is None
            &&& rt.syncer.lock_tx_confs is None && rt.syncer.cancel_tx_confs is None
                && rt.syncer.buy_tx_confs is None
            &&& rt.syncer.btc_fee_estimate_sat_per_kvb is None
            &&& rt.monero_address_creation_height is None
            &&& rt.peer_service == ServiceId::Loopback
            &&& rt.enquirer is None && rt.maker_peer is None
        }),
        safety_of(offer).ordered() <==> 3 < offer.offer.cancel_timelock < offer.offer.punish_timelock,
{
}

/// In a safe swap every threshold is reached in its turn: the lock is final before it is
/// too late to buy, that is before it can be cancelled, and the cancel before it can be
/// punished, with room for a race each time.
pub proof fn law_thresholds_in_turn(s: TemporalSafety)
    ensures
        s.ordered() <==> {
            &&& s.btc_finality_thr < s.race_thr
            &&& s.race_thr < s.cancel_timelock
            &&& s.cancel_timelock < s.punish_timelock
            &&& s.xmr_finality_thr < s.punish_timelock
        },
{
}

/// What is in order at a depth is decided by that depth alone: at each depth of a final
/// lock either a buy is safe or funding is to stop, and a cancel is valid from its
/// timelock on; likewise a refund is safe up to the race threshold before the punish's
/// timelock, and a punish valid from that timelock on. Nothing is in order before
/// finality.
pub proof fn law_depths_decide(s: TemporalSafety, c: u32)
    ensures
        s.final_tx(c, Blockchain::Bitcoin) <==> c >= s.btc_finality_thr,
        s.final_tx(c, Blockchain::Monero) <==> c >= s.xmr_finality_thr,
        s.safe_buy(c) <==> c >= s.btc_finality_thr && c + s.race_thr <= s.cancel_timelock,
        s.stop_funding_before_cancel(c) <==> c >= s.btc_finality_thr && c + s.race_thr
            > s.cancel_timelock,
        s.valid_cancel(c) <==> c >= s.btc_finality_thr && c >= s.cancel_timelock,
        s.safe_refund(c) <==> c >= s.btc_finality_thr && c + s.race_thr <= s.punish_timelock,
        s.valid_punish(c) <==> c >= s.btc_finality_thr && c >= s.punish_timelock,
{
}

/// A checkpoint is written with the message, and at the state, that the step names; a
/// pause and the end of the process are just that. None of them changes the runtime.
pub proof fn law_checkpoint_asked(
    rt: RuntimeView,
    msg: Msg,
    last: Option<Msg>,
    at: SwapStateMachine,
    swap: Option<Dispatch>,
    automaton: Option<Dispatch>,
    pause: Option<Dispatch>,
    exit: Option<Dispatch>,
)
    requires
        dispatches(rt, Op::Checkpoint(msg), swap),
        dispatches(rt, Op::CheckpointAt(last, at), automaton),
        dispatches(rt, Op::Pause, pause),
        dispatches(rt, Op::Exit, exit),
    ensures
        swap == Some(Dispatch::Checkpoint(msg)),
        automaton == Some(Dispatch::CheckpointAt(last, at)),
        pause == Some(Dispatch::Pause),
        exit == Some(Dispatch::Exit),
        stepped(rt, Op::Checkpoint(msg)) == rt,
        stepped(rt, Op::CheckpointAt(last, at)) == rt,
        stepped(rt, Op::Pause) == rt,
        stepped(rt, Op::Exit) == rt,
{
}

/// What is only noted, kept, booked, deferred or let go of asks nothing of the outside
/// world.
pub proof fn law_notes_silent(rt: RuntimeView, op: Op, d: Option<Dispatch>)
    requires
        dispatches(rt, op, d),
        op is BookTx || op is BookSweep || op is UnwatchAddr || op is RememberTxid || op
            is ForgetRetrieval || op is NoteConfs || op is NoteHeight || op is KeepLockConfs || op
            is KeepCancelConfs || op is KeepBuyConfs || op is NoteFee || op is AwaitFunding || op
            is KeepTx || op is DropTx || op is UsePeer || op is Connected || op is UseMakerPeer
            || op is UseEnquirer || op is EnterState || op is MarkMoneroHeight || op is Defer || op
            is DeferAlso || op is DropDeferred || op is ForgetPeerBacklog || op is Restore,
    ensures
        d is None,
        op matches Op::UseMakerPeer(addr) ==> stepped(rt, op) == (RuntimeView {
            maker_peer: Some(addr),
            ..rt
        }),
{
}

} // verus!
