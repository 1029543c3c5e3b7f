//! What the daemon makes of the counterparty's messages, of the wallet's and of orders on
//! the control bus.
use std::sync::Arc;
use vstd::prelude::*;

use crate::base::{
    Blockchain, Error, Notice, ServiceBus, ServiceId, TaskId, TradeRole, TxLabel,
};
use crate::chain::{BitcoinAddress, Transaction};
use crate::crypto::{spec_aggregate, Commit, Params, Reveal, Sealed};
use crate::message::{
    BuyProcedureSignature, CheckpointMultipartChunk, CoreArbitratingSetup, Failure, FundingInfo,
    InitSwap, Msg, Request, SweepAddressAddendum, SweepMoneroAddress, SyncEvent, Task,
    TransactionConfirmations, Tx,
};
use crate::swapd::answers::{binds, unbindable};
use crate::swapd::checkpoint::{Checkpoint, CheckpointState, PendingRequest};
use crate::swapd::conduct::brings;
use crate::swapd::rpc_ctl::{ctl_admitted, is_zero, on_rpc_ctl, Clock};
use crate::swapd::rpc_msg::{msg_admitted, on_rpc_msg, ReactionView};
use crate::swapd::runtime::{Op, RuntimeView};
use crate::swapd::state::{AliceState, BobState, Exchange, State};
use crate::swapd::sync_events::{monero_event_admitted, news};

verus! {

/// The exchange of parameters that a state is in, and whether the local parameters were
/// not revealed yet.
pub open spec fn exchanging(state: State) -> Option<(Exchange, bool)> {
    match state {
        State::Alice(AliceState::CommitA(x)) => Some((x, true)),
        State::Alice(AliceState::RevealA(x)) => Some((x, false)),
        State::Bob(BobState::CommitB(x, _)) => Some((x, true)),
        State::Bob(BobState::RevealB(x, _)) => Some((x, false)),
        _ => None,
    }
}

/// The same state with another exchange.
pub open spec fn exchanged(state: State, x: Exchange) -> State {
    match state {
        State::Alice(AliceState::CommitA(_)) => State::Alice(AliceState::CommitA(x)),
        State::Alice(AliceState::RevealA(_)) => State::Alice(AliceState::RevealA(x)),
        State::Bob(BobState::CommitB(_, a)) => State::Bob(BobState::CommitB(x, a)),
        State::Bob(BobState::RevealB(_, a)) => State::Bob(BobState::RevealB(x, a)),
        s => s,
    }
}

/// Bob's funding address, until it is funded.
pub open spec fn address_to_fund(state: State) -> Option<BitcoinAddress> {
    match state {
        State::Bob(BobState::CommitB(_, a)) => Some(a),
        State::Bob(BobState::RevealB(_, a)) => Some(a),
        _ => None,
    }
}

/// A message on its way to the wallet.
pub open spec fn passed_to_wallet(msg: Msg) -> Op {
    Op::Send(ServiceBus::Msg, ServiceId::Wallet, Request::Protocol(msg))
}

/// A reaction to a message of the counterparty in this swap.
pub open spec fn hears(rt: RuntimeView, msg: Msg) -> ReactionView {
    on_rpc_msg(rt, rt.peer_service, Request::Protocol(msg))
}

/// A message that belongs to no swap is passed over, one of another swap is refused with
/// both names, and one from a service that is not the counterparty's is refused with
/// both services.
pub proof fn law_message_admitted(rt: RuntimeView, source: ServiceId, msg: Msg)
    ensures
        source != rt.peer_service ==> on_rpc_msg(rt, source, Request::Protocol(msg)).result == Err::<
            (),
            Error,
        >(Error::IncorrectPeer(rt.peer_service, source)),
        msg matches Msg::Reveal(Reveal::AliceParameters(s)) ==> (s.swap_id != rt.swap_id ==> hears(
            rt,
            msg,
        ).result == Err::<(), Error>(Error::IncorrectSwapId(rt.swap_id, s.swap_id))),
        msg matches Msg::Reveal(Reveal::BobParameters(s)) ==> (s.swap_id != rt.swap_id ==> hears(
            rt,
            msg,
        ).result == Err::<(), Error>(Error::IncorrectSwapId(rt.swap_id, s.swap_id))),
        msg matches Msg::Reveal(Reveal::Proof(s)) ==> (s.swap_id != rt.swap_id ==> hears(
            rt,
            msg,
        ).result == Err::<(), Error>(Error::IncorrectSwapId(rt.swap_id, s.swap_id))),
        msg matches Msg::MakerCommit(Commit::AliceParameters(s)) ==> (s.swap_id != rt.swap_id
            ==> hears(rt, msg).result == Err::<(), Error>(
            Error::IncorrectSwapId(rt.swap_id, s.swap_id),
        )),
        msg matches Msg::MakerCommit(Commit::BobParameters(s)) ==> (s.swap_id != rt.swap_id
            ==> hears(rt, msg).result == Err::<(), Error>(
            Error::IncorrectSwapId(rt.swap_id, s.swap_id),
        )),
        msg matches Msg::CoreArbitratingSetup(s) ==> (s.swap_id != rt.swap_id ==> hears(
            rt,
            msg,
        ).result == Err::<(), Error>(Error::IncorrectSwapId(rt.swap_id, s.swap_id))),
        msg matches Msg::RefundProcedureSignatures(s) ==> (s.swap_id != rt.swap_id ==> hears(
            rt,
            msg,
        ).result == Err::<(), Error>(Error::IncorrectSwapId(rt.swap_id, s.swap_id))),
        msg matches Msg::BuyProcedureSignature(s) ==> (s.swap_id != rt.swap_id ==> hears(
            rt,
            msg,
        ).result == Err::<(), Error>(Error::IncorrectSwapId(rt.swap_id, s.swap_id))),
        msg matches Msg::Abort(s) ==> hears(rt, msg).result == Err::<(), Error>(
            if s.swap_id == rt.swap_id {
                Error::AbortNotSupported
            } else {
                Error::IncorrectSwapId(rt.swap_id, s.swap_id)
            },
        ),
        hears(rt, msg).result is Err ==> hears(rt, msg).ops.len() == 0,
        source != rt.peer_service ==> on_rpc_msg(rt, source, Request::Protocol(msg)).ops.len() == 0,
{
}

/// A taker takes the maker's commitment once: it is remembered, Bob's funding address and
/// the heights of both chains are watched, and the wallet hears of it. A maker, or a
/// taker that has one, passes it over.
pub proof fn law_maker_commitment_taken(rt: RuntimeView, commit: Commit)
    requires
        commit.swap_id() == rt.swap_id,
    ensures
        ({
            let r = hears(rt, Msg::MakerCommit(commit));
            let ops = r.ops;
            &&& r.result is Ok
            &&& if exchanging(rt.state) matches Some((x, true)) && x.local_trade_role
                == TradeRole::Taker && x.remote_commit is None {
                &&& ops[0] matches Op::EnterState(to)
                &&& exchanging(rt.state) matches Some((x, _))
                &&& to == exchanged(rt.state, Exchange { remote_commit: Some(commit), ..x })
                &&& ops.last() == passed_to_wallet(Msg::MakerCommit(commit))
                &&& ops[ops.len() - 2] == Op::WatchHeight(Blockchain::Monero)
                &&& ops[ops.len() - 3] == Op::WatchHeight(Blockchain::Bitcoin)
                &&& match address_to_fund(rt.state) {
                    Some(a) => ops.len() == 5 && ops[1] == Op::EnsureBtcAddr(TxLabel::Funding, a),
                    None => ops.len() == 4,
                }
            } else {
                ops.len() == 0
            }
        }),
{
}

/// The proof goes to Alice's wallet at once, and waits for Bob's until he is funded, in
/// place of whatever waited for it.
pub proof fn law_proof_taken(rt: RuntimeView, proof: Sealed)
    requires
        proof.swap_id == rt.swap_id,
    ensures
        ({
            let msg = Msg::Reveal(Reveal::Proof(proof));
            let r = hears(rt, msg);
            &&& r.result is Ok
            &&& r.ops.len() == 1
            &&& rt.state is Alice ==> r.ops[0] == passed_to_wallet(msg)
            &&& rt.state is Bob ==> r.ops[0] == Op::Defer(
                ServiceId::Wallet,
                PendingRequest {
                    dest: ServiceId::Wallet,
                    bus_id: ServiceBus::Msg,
                    request: Request::Protocol(msg),
                },
            )
        }),
{
}

/// Parameters that open the counterparty's commitment are taken over, others are not.
/// Either way Alice's wallet hears of them at once, while Bob's hears of them after the
/// proof, when he is funded; Bob asks his client for the agreed amount and 200 satoshis
/// at his own address. A maker that has not revealed yet begins to follow the chains.
/// Without a commitment they are passed over.
pub proof fn law_parameters_taken(rt: RuntimeView, reveal: Reveal)
    requires
        reveal.swap_id() == rt.swap_id,
        !(reveal is Proof),
    ensures
        ({
            let msg = Msg::Reveal(reveal);
            let r = hears(rt, msg);
            let ops = r.ops;
            match exchanging(rt.state) {
                Some((x, unrevealed)) => match x.remote_commit {
                    Some(commit) => {
                        &&& r.result is Ok
                        &&& (ops.len() > 0 && ops[0] is EnterState) <==> (exists|p: Params|
                            brings(reveal, commit, p))
                        &&& ops[0] matches Op::EnterState(to) ==> (exists|p: Params|
                            brings(reveal, commit, p) && to == exchanged(
                                rt.state,
                                Exchange { remote_params: Some(p), ..x },
                            ))
                        &&& {
                            let first: int = if ops[0] is EnterState {
                                1
                            } else {
                                0
                            };
                            let asked: int = match (rt.state, rt.enquirer) {
                                (State::Alice(_), _) => 0,
                                (State::Bob(_), Some(_)) => 2,
                                (State::Bob(_), None) => 1,
                            };
                            let watched: int = if !(unrevealed && x.local_trade_role
                                == TradeRole::Maker) {
                                0
                            } else if rt.state is Bob {
                                3
                            } else {
                                2
                            };
                            &&& ops.len() == first + 1 + asked + watched
                            &&& rt.state is Alice ==> ops[first] == passed_to_wallet(msg)
                            &&& rt.state is Bob ==> ops[first] == Op::DeferAlso(
                                ServiceId::Wallet,
                                PendingRequest {
                                    dest: ServiceId::Wallet,
                                    bus_id: ServiceBus::Msg,
                                    request: Request::Protocol(msg),
                                },
                            ) && ops[first + 1] == Op::AwaitFunding(true)
                            &&& rt.state is Bob && rt.syncer.bitcoin_amount + 200 <= u64::MAX ==> (
                            rt.enquirer matches Some(enquirer) ==> ops[first + 2] == Op::Send(
                                ServiceBus::Ctl,
                                enquirer,
                                Request::FundingInfo(
                                    FundingInfo::Bitcoin {
                                        swap_id: rt.swap_id,
                                        address: address_to_fund(rt.state)->0,
                                        amount: (rt.syncer.bitcoin_amount + 200) as u64,
                                    },
                                ),
                            ))
                            &&& watched > 0 ==> ops[ops.len() - 1] == Op::WatchHeight(
                                Blockchain::Monero,
                            ) && ops[ops.len() - 2] == Op::WatchHeight(Blockchain::Bitcoin)
                            &&& watched == 3 ==> ops[ops.len() - 3] == Op::EnsureBtcAddr(
                                TxLabel::Funding,
                                address_to_fund(rt.state)->0,
                            )
                        }
                    },
                    None => r.result is Ok && ops.len() == 0,
                },
                None => r.result is Ok && ops.len() == 0,
            }
        }),
{
    let ops = hears(rt, Msg::Reveal(reveal)).ops;
    if let Some((x, _)) = exchanging(rt.state) {
        if let Some(commit) = x.remote_commit {
            if ops[0] is EnterState {
                match reveal {
                    Reveal::AliceParameters(s) => {
                        assert(brings(reveal, commit, Params::Alice(s.body)));
                    },
                    Reveal::BobParameters(s) => {
                        assert(brings(reveal, commit, Params::Bob(s.body)));
                    },
                    Reveal::Proof(_) => {},
                }
            }
        }
    }
}

/// Alice, who has revealed, has Bob's transactions watched under their own names, will
/// have his refund fetched, and passes them on to her wallet. Bob's wallet hears of
/// Alice's signatures once his setup is out, and Alice's wallet of Bob's signature once
/// hers are, after a checkpoint with it and with the buy watched. In any other state
/// such a message is passed over.
pub proof fn law_signatures_taken(
    rt: RuntimeView,
    setup: CoreArbitratingSetup,
    signatures: Sealed,
    signature: BuyProcedureSignature,
)
    requires
        setup.swap_id == rt.swap_id && signatures.swap_id == rt.swap_id && signature.swap_id
            == rt.swap_id,
    ensures
        ({
            let r = hears(rt, Msg::CoreArbitratingSetup(setup));
            r.result is Ok && if rt.state matches State::Alice(AliceState::RevealA(_)) {
                &&& r.ops.len() == 5
                &&& r.ops[0] == Op::EnsureBtcTx(TxLabel::Lock, setup.lock.id())
                &&& r.ops[1] == Op::EnsureBtcTx(TxLabel::Cancel, setup.cancel.id())
                &&& r.ops[2] == Op::EnsureBtcTx(TxLabel::Refund, setup.refund.id())
                &&& r.ops[3] == Op::RememberTxid(TxLabel::Refund, setup.refund.id())
                &&& r.ops[4] == passed_to_wallet(Msg::CoreArbitratingSetup(setup))
            } else {
                r.ops.len() == 0
            }
        }),
        ({
            let r = hears(rt, Msg::RefundProcedureSignatures(signatures));
            r.result is Ok && if rt.state matches State::Bob(BobState::CorearbB { .. }) {
                r.ops.len() == 1 && r.ops[0] == passed_to_wallet(
                    Msg::RefundProcedureSignatures(signatures),
                )
            } else {
                r.ops.len() == 0
            }
        }),
        ({
            let r = hears(rt, Msg::BuyProcedureSignature(signature));
            r.result is Ok && if rt.state matches State::Alice(AliceState::RefundSigA { .. }) {
                &&& r.ops.len() == 3
                &&& r.ops[0] == Op::Checkpoint(Msg::BuyProcedureSignature(signature))
                &&& r.ops[1] == Op::EnsureBtcTx(TxLabel::Buy, signature.buy.id())
                &&& r.ops[2] == passed_to_wallet(Msg::BuyProcedureSignature(signature))
            } else {
                r.ops.len() == 0
            }
        }),
{
}

/// Who may ask on the control bus: the swap's own syncers, the node, the wallet and the
/// keeper of checkpoints anything, a client for information, and everybody may say
/// hello. All others are refused, and nothing is done.
pub open spec fn heard(rt: RuntimeView, source: ServiceId, request: Request) -> bool {
    ||| request is Hello
    ||| source matches ServiceId::Syncer(_, network) && network == rt.syncer.network
    ||| source is Farcasterd || source is Wallet || source is Checkpoint
    ||| source is Client && request is GetInfo
}

/// Only those are heard on the control bus who may ask. The process ends at the node's
/// word alone.
pub proof fn law_only_permitted_heard(
    rt: RuntimeView,
    source: ServiceId,
    request: Request,
    clock: Clock,
    r: ReactionView,
)
    requires
        on_rpc_ctl(rt, source, request, clock, r),
        !(request matches Request::Tx(Tx::Funding(_))),
    ensures
        !heard(rt, source, request) ==> r.result == Err::<(), Error>(Error::Permission)
            && r.ops.len() == 0,
        heard(rt, source, request) ==> r.result != Err::<(), Error>(Error::Permission),
        request is Terminate ==> if source is Farcasterd {
            r.result is Ok && r.ops.len() == 1 && r.ops[0] == Op::Exit
        } else {
            r.result is Err && r.ops.len() == 0
        },
{
}

/// The wallet's order to sweep the monero is booked under the next number and waits for
/// the monero syncer, to be repeated until it succeeds. Nobody else can give it.
pub proof fn law_sweep_order_waits(
    rt: RuntimeView,
    source: ServiceId,
    keys: SweepMoneroAddress,
    clock: Clock,
    r: ReactionView,
)
    requires
        on_rpc_ctl(rt, source, Request::SweepXmrAddress(keys), clock, r),
    ensures
        source is Wallet ==> {
            let monero = ServiceId::Syncer(Blockchain::Monero, rt.syncer.network);
            let id = TaskId((rt.syncer.counter + 1) as u32);
            &&& r.result is Ok
            &&& r.ops.len() == 2
            &&& r.ops[0] == Op::BookSweep(id)
            &&& r.ops[1] matches Op::Defer(service, waiting)
            &&& service == monero
            &&& waiting.dest == monero
            &&& waiting.bus_id == ServiceBus::Ctl
            &&& waiting.request matches Request::SyncerTask(Task::SweepAddress(sweep))
            &&& sweep.id == id
            &&& sweep.lifetime == rt.syncer.lifetime(Blockchain::Monero)
            &&& sweep.from_height is None
            &&& sweep.retry
            &&& sweep.addendum == SweepAddressAddendum::Monero(keys)
        },
        !(source is Wallet) ==> r.result is Err && r.ops.len() == 0,
{
}

/// The state in which a party that brings its parameters has committed to them.
pub open spec fn committed(
    state: State,
    commit: Commit,
    init: InitSwap,
    remote_commit: Option<Commit>,
    to: State,
) -> bool {
    match state {
        State::Alice(AliceState::StartA { local_trade_role, .. }) => to == State::Alice(
            AliceState::CommitA(
                Exchange {
                    local_trade_role,
                    local_params: init.local_params,
                    local_commit: commit,
                    remote_commit,
                    remote_params: None,
                },
            ),
        ),
        State::Bob(BobState::StartB { local_trade_role, .. }) => init.funding_address matches Some(a)
            ==> to == State::Bob(
            BobState::CommitB(
                Exchange {
                    local_trade_role,
                    local_params: init.local_params,
                    local_commit: commit,
                    remote_commit,
                    remote_params: None,
                },
                a,
            ),
        ),
        _ => to == state,
    }
}

/// Whether a swap has not begun.
pub open spec fn unbegun(state: State) -> bool {
    ||| state matches State::Alice(AliceState::StartA { .. })
    ||| state matches State::Bob(BobState::StartB { .. })
}

/// The order to take an offer up, if it brings no commitment of a maker and names this
/// swap, has a swap that has not begun send the commitment to the local parameters, with
/// the offer's text, and go over to having committed. An order for another swap is
/// passed over; a swap that has begun refuses it. Parameters that cannot be committed to
/// fail.
pub proof fn law_offer_taken_up(
    rt: RuntimeView,
    source: ServiceId,
    init: InitSwap,
    clock: Clock,
    r: ReactionView,
)
    requires
        on_rpc_ctl(rt, source, Request::TakeSwap(init), clock, r),
        heard(rt, source, Request::TakeSwap(init)),
    ensures
        !unbegun(rt.state) || init.remote_commit is Some ==> r.result is Err && r.ops.len() == 0,
        unbegun(rt.state) && init.remote_commit is None && init.swap_id != rt.swap_id ==> r.result
            is Ok && r.ops.len() == 0,
        unbegun(rt.state) && init.remote_commit is None && init.swap_id == rt.swap_id ==> {
            &&& r.ops[0] == Op::UsePeer(init.peerd)
            &&& r.ops[1] == Op::UseEnquirer(init.report_to)
            &&& init.peerd matches ServiceId::Peer(_, addr) ==> r.ops[2] == Op::UseMakerPeer(addr)
            &&& if unbindable(rt.swap_id, init.local_params) {
                &&& r.result == Err::<(), Error>(Error::MalformedParameters)
                &&& r.ops.last() == Op::ReportFailure(
                    init.report_to,
                    Failure { code: 0, info: Notice::CommitFailed },
                )
                &&& r.ops.len() == if init.peerd is Peer { 5int } else { 4int }
            } else {
                &&& r.result is Ok
                &&& r.ops.len() == if init.peerd is Peer { 6int } else { 5int }
                &&& r.ops[r.ops.len() - 3] == Op::TryReport(
                    init.report_to,
                    Notice::ProposingToTake(rt.swap_id),
                )
                &&& r.ops[r.ops.len() - 2] matches Op::SendPeer(Msg::TakerCommit(sent))
                &&& binds(sent.commit, rt.swap_id, init.local_params)
                &&& sent.swap_id == rt.swap_id
                &&& rt.state matches State::Alice(AliceState::StartA { public_offer, .. })
                    ==> sent.public_offer == public_offer.text
                &&& rt.state matches State::Bob(BobState::StartB { public_offer, .. })
                    ==> sent.public_offer == public_offer.text
                &&& r.ops[r.ops.len() - 1] matches Op::UpdateState(to)
                &&& committed(rt.state, sent.commit, init, None, to)
            }
        },
{
}

/// The order to answer a taker, whose commitment it brings, has a swap that has not
/// begun send the commitment to the local parameters and go over to having committed,
/// with the taker's remembered.
pub proof fn law_taker_answered(
    rt: RuntimeView,
    source: ServiceId,
    init: InitSwap,
    clock: Clock,
    r: ReactionView,
)
    requires
        on_rpc_ctl(rt, source, Request::MakeSwap(init), clock, r),
        heard(rt, source, Request::MakeSwap(init)),
    ensures
        !unbegun(rt.state) || init.remote_commit is None ==> r.result is Err && r.ops.len() == 0,
        unbegun(rt.state) && init.remote_commit is Some ==> {
            &&& r.ops[0] == Op::UsePeer(init.peerd)
            &&& init.peerd matches ServiceId::Peer(_, addr) ==> r.ops[1] == Op::UseMakerPeer(addr)
            &&& if unbindable(rt.swap_id, init.local_params) {
                &&& r.result == Err::<(), Error>(Error::MalformedParameters)
                &&& r.ops.last() == Op::ReportFailure(
                    init.report_to,
                    Failure { code: 0, info: Notice::CommitFailed },
                )
            } else {
                &&& r.result is Ok
                &&& r.ops.len() == if init.peerd is Peer { 6int } else { 5int }
                &&& r.ops[r.ops.len() - 4] == Op::UseEnquirer(init.report_to)
                &&& r.ops[r.ops.len() - 3] == Op::TryReport(
                    init.report_to,
                    Notice::AcceptingSwap(init.swap_id, init.peerd),
                )
                &&& r.ops[r.ops.len() - 2] matches Op::SendPeer(Msg::MakerCommit(sent))
                &&& binds(sent, rt.swap_id, init.local_params)
                &&& r.ops[r.ops.len() - 1] matches Op::UpdateState(to)
                &&& committed(rt.state, sent, init, init.remote_commit, to)
            }
        },
{
}

/// The proof that the wallet has made goes out before the local parameters, once the
/// counterparty has committed and if nothing was revealed yet; the state then says that
/// they are revealed.
pub proof fn law_own_parameters_revealed(
    rt: RuntimeView,
    source: ServiceId,
    proof: Reveal,
    clock: Clock,
    r: ReactionView,
)
    requires
        on_rpc_ctl(rt, source, Request::Protocol(Msg::Reveal(proof)), clock, r),
        heard(rt, source, Request::Protocol(Msg::Reveal(proof))),
    ensures
        if exchanging(rt.state) matches Some((x, true)) && x.remote_commit is Some {
            &&& r.result is Ok
            &&& r.ops.len() == 3
            &&& r.ops[0] == Op::SendPeer(Msg::Reveal(proof))
            &&& exchanging(rt.state) matches Some((x, _))
            &&& r.ops[1] == Op::SendPeer(
                Msg::Reveal(
                    match x.local_params {
                        Params::Alice(body) => Reveal::AliceParameters(
                            Sealed { swap_id: proof.swap_id(), body },
                        ),
                        Params::Bob(body) => Reveal::BobParameters(
                            Sealed { swap_id: proof.swap_id(), body },
                        ),
                    },
                ),
            )
            &&& rt.state matches State::Alice(_) ==> r.ops[2] == Op::UpdateState(
                State::Alice(AliceState::RevealA(x)),
            )
            &&& address_to_fund(rt.state) matches Some(a) ==> r.ops[2] == Op::UpdateState(
                State::Bob(BobState::RevealB(x, a)),
            )
        } else {
            r.result is Err && r.ops.len() == 0
        },
{
}

/// The parameters of both parties, once the local ones are revealed and the others known.
pub open spec fn both_known(state: State) -> Option<(Params, Params)> {
    match exchanging(state) {
        Some((x, false)) => match x.remote_params {
            Some(remote) => Some((x.local_params, remote)),
            None => None,
        },
        _ => None,
    }
}

/// What the wallet has signed goes out only after a checkpoint with it, and only once
/// both parties' parameters are known: Bob's transactions, which are watched, and
/// Alice's signatures. The state then holds both parties' parameters, with nothing
/// locked, bought, cancelled or refunded.
pub proof fn law_own_signatures_sent(
    rt: RuntimeView,
    source: ServiceId,
    setup: CoreArbitratingSetup,
    signatures: Sealed,
    clock: Clock,
    b: ReactionView,
    a: ReactionView,
)
    requires
        on_rpc_ctl(rt, source, Request::Protocol(Msg::CoreArbitratingSetup(setup)), clock, b),
        on_rpc_ctl(
            rt,
            source,
            Request::Protocol(Msg::RefundProcedureSignatures(signatures)),
            clock,
            a,
        ),
        heard(rt, source, Request::Protocol(Msg::CoreArbitratingSetup(setup))),
    ensures
        match both_known(rt.state) {
            Some((local_params, remote_params)) => {
                &&& b.result is Ok && a.result is Ok
                &&& b.ops.len() == 6
                &&& b.ops[0] == Op::Checkpoint(Msg::CoreArbitratingSetup(setup))
                &&& b.ops[1] == Op::EnsureBtcTx(TxLabel::Lock, setup.lock.id())
                &&& b.ops[2] == Op::EnsureBtcTx(TxLabel::Cancel, setup.cancel.id())
                &&& b.ops[3] == Op::EnsureBtcTx(TxLabel::Refund, setup.refund.id())
                &&& b.ops[4] == Op::SendPeer(Msg::CoreArbitratingSetup(setup))
                &&& b.ops[5] == Op::UpdateState(
                    State::Bob(
                        BobState::CorearbB { local_params, remote_params, cancel_seen: false },
                    ),
                )
                &&& a.ops.len() == 3
                &&& a.ops[0] == Op::Checkpoint(Msg::RefundProcedureSignatures(signatures))
                &&& a.ops[1] == Op::SendPeer(Msg::RefundProcedureSignatures(signatures))
                &&& a.ops[2] == Op::UpdateState(
                    State::Alice(
                        AliceState::RefundSigA {
                            local_params,
                            remote_params,
                            xmr_locked: false,
                            buy_published: false,
                            cancel_seen: false,
                            refund_seen: false,
                        },
                    ),
                )
            },
            None => b.result is Err && a.result is Err && b.ops.len() == 0 && a.ops.len() == 0,
        },
{
}

/// Bob's signature on the buy does not go out when it is made: after a checkpoint the
/// buy is watched and will be fetched, and the signature waits for the monero syncer.
/// It is made once.
pub proof fn law_own_buy_signature_waits(
    rt: RuntimeView,
    source: ServiceId,
    signature: BuyProcedureSignature,
    clock: Clock,
    r: ReactionView,
)
    requires
        on_rpc_ctl(rt, source, Request::Protocol(Msg::BuyProcedureSignature(signature)), clock, r),
        heard(rt, source, Request::Protocol(Msg::BuyProcedureSignature(signature))),
    ensures
        if (rt.state matches State::Bob(BobState::CorearbB { .. }))
            && !rt.syncer.txids.dom().contains(TxLabel::Buy) {
            &&& r.result is Ok
            &&& r.ops.len() == 4
            &&& r.ops[0] == Op::Checkpoint(Msg::BuyProcedureSignature(signature))
            &&& r.ops[1] == Op::EnsureBtcTx(TxLabel::Buy, signature.buy.id())
            &&& r.ops[2] == Op::RememberTxid(TxLabel::Buy, signature.buy.id())
            &&& r.ops[3] == Op::Defer(
                ServiceId::Syncer(Blockchain::Monero, rt.syncer.network),
                PendingRequest {
                    dest: rt.peer_service,
                    bus_id: ServiceBus::Msg,
                    request: Request::Protocol(Msg::BuyProcedureSignature(signature)),
                },
            )
        } else {
            r.result is Err && r.ops.len() == 0
        },
{
}

/// Bob's funding, once the wallet has it, lets the wallet hear what waited: the proof,
/// then Alice's parameters, each if it is what it should be and goes where it should.
/// That is for the wallet to say, and only while exactly two requests wait: to a taker
/// that has revealed or a maker that has not.
pub proof fn law_funding_lets_wallet_hear(
    rt: RuntimeView,
    source: ServiceId,
    clock: Clock,
    r: ReactionView,
)
    requires
        on_rpc_ctl(rt, source, Request::FundingUpdated, clock, r),
        heard(rt, source, Request::FundingUpdated),
    ensures
        ({
            let due = source is Wallet && rt.pending_requests.dom().contains(ServiceId::Wallet)
                && rt.pending_requests[ServiceId::Wallet].len() == 2 && (exchanging(
                rt.state,
            ) matches Some((x, unrevealed)) && unrevealed == (x.local_trade_role
                == TradeRole::Maker));
            let first = rt.pending_requests[ServiceId::Wallet][0];
            let second = rt.pending_requests[ServiceId::Wallet][1];
            &&& !due ==> r.result is Err && r.ops.len() == 0
            &&& due ==> {
                &&& r.result is Ok
                &&& r.ops[0] == Op::DropDeferred(ServiceId::Wallet)
                &&& (first.dest is Wallet && first.bus_id is Msg && (
                first.request matches Request::Protocol(Msg::Reveal(Reveal::Proof(_))))
                    && second.dest is Wallet && second.bus_id is Msg && (
                second.request matches Request::Protocol(Msg::Reveal(Reveal::AliceParameters(_)))))
                    ==> r.ops.len() == 3 && r.ops[1] == Op::Send(
                    ServiceBus::Msg,
                    ServiceId::Wallet,
                    first.request,
                ) && r.ops[2] == Op::Send(ServiceBus::Msg, ServiceId::Wallet, second.request)
            }
        }),
{
}

/// Whether a step handles the latest word on a transaction once more, if there is one,
/// right behind the first step.
pub open spec fn reconsiders(
    rt: RuntimeView,
    ops: Seq<Op>,
    confs: Option<TransactionConfirmations>,
) -> bool {
    match confs {
        Some(t) => ops.len() == 2 && ops[1] == Op::Replay(
            ServiceId::Syncer(Blockchain::Bitcoin, rt.syncer.network),
            Request::SyncerEvent(SyncEvent::TransactionConfirmations(t)),
        ),
        None => ops.len() == 1,
    }
}

/// A transaction that the wallet brings is kept under its own name, and the latest word
/// on the transaction that it spends is handled once more: on the lock for the cancel
/// and the buy, on the cancel for the refund and the punish.
pub proof fn law_transactions_kept(
    rt: RuntimeView,
    source: ServiceId,
    tx: Transaction,
    clock: Clock,
    cancel: ReactionView,
    buy: ReactionView,
    refund: ReactionView,
    punish: ReactionView,
)
    requires
        on_rpc_ctl(rt, source, Request::Tx(Tx::Cancel(tx)), clock, cancel),
        on_rpc_ctl(rt, source, Request::Tx(Tx::Buy(tx)), clock, buy),
        on_rpc_ctl(rt, source, Request::Tx(Tx::Refund(tx)), clock, refund),
        on_rpc_ctl(rt, source, Request::Tx(Tx::Punish(tx)), clock, punish),
        heard(rt, source, Request::Tx(Tx::Cancel(tx))),
    ensures
        cancel.result is Ok && buy.result is Ok && refund.result is Ok && punish.result is Ok,
        cancel.ops[0] == Op::KeepTx(TxLabel::Cancel, tx),
        buy.ops[0] == Op::KeepTx(TxLabel::Buy, tx),
        refund.ops[0] == Op::KeepTx(TxLabel::Refund, tx),
        punish.ops[0] == Op::KeepTx(TxLabel::Punish, tx),
        reconsiders(rt, cancel.ops, rt.syncer.lock_tx_confs),
        reconsiders(rt, buy.ops, rt.syncer.lock_tx_confs),
        reconsiders(rt, refund.ops, rt.syncer.cancel_tx_confs),
        reconsiders(rt, punish.ops, rt.syncer.cancel_tx_confs),
{
}

/// The lock that Bob's wallet brings is published at once, and the monero address that
/// both parties' keys make is watched; where they make none the request fails after
/// that.
pub proof fn law_lock_published_at_once(
    rt: RuntimeView,
    source: ServiceId,
    tx: Transaction,
    clock: Clock,
    r: ReactionView,
)
    requires
        on_rpc_ctl(rt, source, Request::Tx(Tx::Lock(tx)), clock, r),
        heard(rt, source, Request::Tx(Tx::Lock(tx))),
    ensures
        r.ops[0] == Op::Broadcast(tx),
        rt.state matches State::Bob(BobState::CorearbB { local_params, remote_params, .. }) ==> (
        local_params matches Params::Bob(bob) ==> (remote_params matches Params::Alice(alice)
            ==> match spec_aggregate(rt.swap_id, alice, bob) {
            Some((spend, view)) => r.result is Ok && r.ops.len() == 2 && (
            r.ops[1] matches Op::EnsureXmrAddr(label, s, v, from_height) && label
                == TxLabel::AccLock && s@ == spend && v@ == view && from_height is None),
            None => r.result == Err::<(), Error>(Error::MalformedParameters) && r.ops.len() == 1,
        })),
{
}

/// A checkpoint, or a part of one, is taken as it came: a part is collected with the
/// service it came from, a wallet's checkpoint is passed over, and a swap's is restored
/// first of all and its last message handled once more last of all.
pub proof fn law_checkpoints_taken(
    rt: RuntimeView,
    source: ServiceId,
    chunk: CheckpointMultipartChunk,
    checkpoint: Arc<Checkpoint>,
    clock: Clock,
    part: ReactionView,
    whole: ReactionView,
)
    requires
        on_rpc_ctl(rt, source, Request::CheckpointMultipartChunk(chunk), clock, part),
        on_rpc_ctl(rt, source, Request::Checkpoint(checkpoint), clock, whole),
        heard(rt, source, Request::Checkpoint(checkpoint)),
    ensures
        part.result is Ok && part.ops.len() == 1 && part.ops[0] == Op::CollectChunk(source, chunk),
        whole.result is Ok,
        checkpoint.state matches CheckpointState::CheckpointSwapd(c) ==> {
            let n = c.txs.listed().len();
            let m = c.txids.listed().len();
            &&& whole.ops.len() == n + m + 5
            &&& whole.ops[0] == Op::Restore(checkpoint)
            &&& whole.ops[1] == Op::WatchHeight(Blockchain::Bitcoin)
            &&& whole.ops[2] == Op::WatchHeight(Blockchain::Monero)
            &&& forall|i: int|
                0 <= i < n ==> #[trigger] whole.ops[3 + i] == Op::WatchBtcTx(
                    c.txs.listed()[i].0,
                    c.txs.listed()[i].1.id(),
                )
            &&& forall|i: int|
                0 <= i < m ==> #[trigger] whole.ops[3 + n + i] == Op::WatchBtcTx(
                    c.txids.listed()[i].0,
                    c.txids.listed()[i].1,
                )
            &&& whole.ops[whole.ops.len() - 2] == Op::TryReport(
                Some(ServiceId::Farcasterd),
                Notice::RestoredAt(c.state.name()),
            )
            &&& whole.ops.last() == Op::Replay(
                ServiceId::Database,
                Request::Protocol(c.last_msg),
            )
        },
        checkpoint.state is CheckpointWallet ==> whole.ops.len() == 0,
{
}

/// One who asks for information on a swap gets it: its name unless it has none, how long
/// it has been running, and the maker's node if it is known.
pub proof fn law_information_given(
    rt: RuntimeView,
    source: ServiceId,
    clock: Clock,
    r: ReactionView,
)
    requires
        on_rpc_ctl(rt, source, Request::GetInfo, clock, r),
        heard(rt, source, Request::GetInfo),
    ensures
        r.result is Ok,
        r.ops.len() == 1,
        r.ops[0] matches Op::Send(bus, dest, Request::SwapInfo(info)) && bus == ServiceBus::Ctl
            && dest == source && info.uptime == clock.uptime && info.since == clock.since
            && info.maker_peer == rt.maker_peer && (info.remote_keys is Some) == (rt.maker_peer
            is Some) && (info.swap_id == Some(rt.swap_id) || info.swap_id is None) && (info.swap_id
            is None <==> rt.swap_id.0@ == Seq::new(32, |i: int| 0u8)),
{
    if rt.swap_id.0@ == Seq::new(32, |i: int| 0u8) {
        assert forall|i: int| 0 <= i < 32 implies rt.swap_id.0@[i] == 0 by {
            assert(rt.swap_id.0@[i] == Seq::new(32, |i: int| 0u8)[i]);
        }
    } else if is_zero(rt.swap_id) {
        assert(rt.swap_id.0@ =~= Seq::new(32, |i: int| 0u8));
    }
}

/// What a syncer of the swap reports is noted before the automaton reacts to it: the
/// height of its own chain, a depth against its own chain's finality, the fee rate if it
/// comes from the bitcoin syncer, and the latest word on lock, cancel and buy once they
/// are final on the bitcoin chain. From anybody else nothing is noted.
pub proof fn law_news_noted(rt: RuntimeView, source: ServiceId, event: SyncEvent)
    ensures
        ({
            let ops = news(rt, source, event);
            let bitcoin = ServiceId::Syncer(Blockchain::Bitcoin, rt.syncer.network);
            let monero = ServiceId::Syncer(Blockchain::Monero, rt.syncer.network);
            &&& source != bitcoin && source != monero ==> ops.len() == 0
            &&& event matches SyncEvent::HeightChanged { height } ==> {
                &&& source == bitcoin ==> ops.len() == 1 && ops[0] == Op::NoteHeight(
                    Blockchain::Bitcoin,
                    height,
                )
                &&& source == monero ==> ops.len() == 1 && ops[0] == Op::NoteHeight(
                    Blockchain::Monero,
                    height,
                )
            }
            &&& event matches SyncEvent::FeeEstimation { sat_per_kvb, .. } ==> {
                &&& source == bitcoin ==> ops.len() == 1 && ops[0] == Op::NoteFee(sat_per_kvb)
                &&& source == monero ==> ops.len() == 0
            }
            &&& event matches SyncEvent::TransactionConfirmations(t) ==> {
                let final_label = if rt.syncer.watched_txs.dom().contains(t.id) && (
                t.confirmations matches Some(c) && rt.temporal_safety.btc_finality_thr <= c) {
                    Some(rt.syncer.watched_txs[t.id])
                } else {
                    None
                };
                let kept = final_label == Some(TxLabel::Lock) || final_label == Some(
                    TxLabel::Cancel,
                ) || final_label == Some(TxLabel::Buy);
                &&& source == monero ==> ops.len() == 1 && ops[0] == Op::NoteConfs(
                    t.id,
                    t.confirmations,
                    rt.temporal_safety.xmr_finality_thr,
                )
                &&& source == bitcoin ==> {
                    &&& ops.len() == if kept { 2int } else { 1int }
                    &&& ops[0] == Op::NoteConfs(
                        t.id,
                        t.confirmations,
                        rt.temporal_safety.btc_finality_thr,
                    )
                    &&& final_label == Some(TxLabel::Lock) ==> ops[1] == Op::KeepLockConfs(t)
                    &&& final_label == Some(TxLabel::Cancel) ==> ops[1] == Op::KeepCancelConfs(t)
                    &&& final_label == Some(TxLabel::Buy) ==> ops[1] == Op::KeepBuyConfs(t)
                }
            }
            &&& !(event is HeightChanged) && !(event is FeeEstimation) && !(event
                is TransactionConfirmations) ==> ops.len() == 0
        }),
{
}

/// A message can be handled unless it is a taker's commitment or none of a swap, or brings
/// Bob parameters before any proof or an amount to fund that cannot be written; from
/// anybody but the counterparty, or for another swap, anything can.
pub proof fn law_messages_admitted(rt: RuntimeView, source: ServiceId, msg: Msg)
    ensures
        !msg_admitted(rt, source, Request::Protocol(msg)) <==> source == rt.peer_service && {
            ||| msg is Ping || msg is Pong || msg is PingPeer
            ||| msg matches Msg::TakerCommit(t) && t.swap_id == rt.swap_id
            ||| msg matches Msg::Reveal(reveal) && !(reveal is Proof) && reveal.swap_id()
                == rt.swap_id && rt.state is Bob && (!rt.pending_requests.dom().contains(
                ServiceId::Wallet,
            ) || rt.syncer.bitcoin_amount + 200 > u64::MAX) && (exchanging(
                rt.state,
            ) matches Some((x, _)) && x.remote_commit is Some)
        },
{
}

/// A request on the control bus can be handled unless it is one of these from somebody
/// who may ask: the start of Bob's swap without a funding address, a funding
/// transaction, a lock before its time, or a report of the monero syncer that cannot be.
pub proof fn law_requests_admitted(rt: RuntimeView, source: ServiceId, request: Request)
    ensures
        !ctl_admitted(rt, source, request) <==> heard(rt, source, request) && match request {
            Request::TakeSwap(init) => init.remote_commit is None && init.swap_id == rt.swap_id
                && init.funding_address is None && (rt.state matches State::Bob(
                BobState::StartB { .. },
            )),
            Request::MakeSwap(init) => init.remote_commit is Some && init.funding_address is None
                && (rt.state matches State::Bob(BobState::StartB { .. })),
            Request::Tx(Tx::Funding(_)) => true,
            Request::Tx(Tx::Lock(_)) => !(rt.state matches State::Bob(BobState::CorearbB { .. })),
            Request::SyncerEvent(event) => source == ServiceId::Syncer(
                Blockchain::Monero,
                rt.syncer.network,
            ) && !monero_event_admitted(rt, event),
            _ => false,
        },
{
}

} // verus!
