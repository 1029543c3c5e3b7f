//! The automaton that runs a swap.
//!
//! ```text
//!   StartMaker                            StartTaker
//!    |      |                              |      |
//!    |      AliceInitMaker    BobInitTaker        AliceInitTaker
//!    |      |                      |                   |
//!  BobInitMaker |         BobTakerMakerCommit    AliceTakerMakerCommit
//!    |      |                      |                   |
//!    +------|------ BobReveal -----+                   |
//!           |           |                              |
//!           +-----------|----------- AliceReveal ------+
//!                       |                  |
//!    +------------- BobFunded      AliceCoreArbitratingSetup --------+
//!    |                  |                  |                         |
//!    +- BobRefundProcedureSignatures  AliceArbitratingLockFinal -----+
//!    |                  |                  |                         |
//!    +----------- BobAccordantLock    AliceAccordantLock ------------+
//!    |                  |                  |                         |
//!    +------- BobAccordantLockFinal   AliceBuyProcedureSignature     |
//!    |                  |                  |                   AliceCanceled
//!  BobCanceled      BobBuyFinal            |                    |        |
//!    |                  |                  |            AliceRefund  AlicePunish
//!  BobCancelFinal   BobBuySweeping         |                    |        |
//!    |                  |                  |        AliceRefundSweeping  |
//!    +------------------+------------------+--------------------+--------+
//!                                          |
//!                                       SwapEnd
//! ```
//!
//! Until the bitcoin are locked a swap can be aborted: Alice ends it at once, Bob
//! first sweeps what may have been funded.
use vstd::prelude::*;

use crate::base::{
    Blockchain, Error, Key, Notice, Outcome, ServiceBus, ServiceId, SwapId, SwapRole, TaskId,
    TradeRole, TxLabel,
};
use crate::blob::{join, joined, Blob};
use crate::chain::{parsed_transaction, BitcoinAddress, Transaction};
use crate::crypto::{
    aggregate_xmr_spend_view, aggregates, commits_to, committable, lock_address,
    spec_validate_reveal, validate_reveal, viewpair_address, Commit, MoneroAddress, Params, Reveal,
};
use crate::message::{
    AddressTransaction, BuyProcedureSignature, Failure, FundingInfo, InitMakerSwap, InitTakerSwap,
    MoneroFundingInfo, Msg, Request, SweepAddress, SyncEvent, TakerCommit, Task,
    TransactionConfirmations, Tx, TxHash,
};
use crate::swapd::runtime::{maker_report, taker_report, Op, Runtime, RuntimeView};
use crate::swapd::syncer_client::{abort_all, abort_every, abort_one, abort_task, bears, watches};
use crate::swapd::wallet::{Wallet, WalletCall, WalletReply};

verus! {

/// The code of a failure that has no code of its own.
pub const UNKNOWN_FAILURE: u16 = 0;

/// Virtual size of a transaction that spends one pay-to-witness-key-hash output to
/// one pay-to-witness-script-hash output.
pub const LOCK_TX_VSIZE: u64 = 122;

/// The states of a swap.
#[derive(Clone, Debug, PartialEq, Eq)]
pub enum SwapStateMachine {
    StartTaker(SwapRole),
    StartMaker(SwapRole),
    BobInitMaker(BobInitMaker),
    AliceInitMaker(AliceInitMaker),
    BobInitTaker(BobInitTaker),
    AliceInitTaker(AliceInitTaker),
    BobTakerMakerCommit(BobTakerMakerCommit),
    AliceTakerMakerCommit(AliceTakerMakerCommit),
    BobReveal(BobReveal),
    BobFunded(BobFunded),
    BobRefundProcedureSignatures(BobRefundProcedureSignatures),
    BobAccordantLock(BobAccordantLock),
    BobAccordantLockFinal(BobAccordantLockFinal),
    BobBuyFinal(SweepAddress),
    BobBuySweeping,
    BobCanceled,
    BobCancelFinal,
    BobAbortAwaitingBitcoinSweep,
    AliceReveal(AliceReveal),
    AliceCoreArbitratingSetup(AliceCoreArbitratingSetup),
    AliceArbitratingLockFinal(AliceArbitratingLockFinal),
    AliceAccordantLock(AliceAccordantLock),
    AliceBuyProcedureSignature,
    AliceCanceled(AliceCanceled),
    AliceRefund(SweepAddress),
    AliceRefundSweeping,
    AlicePunish,
    SwapEnd(Outcome),
}

#[derive(Clone, Debug, PartialEq, Eq)]
pub struct BobInitMaker {
    pub local_commit: Commit,
    pub local_params: Params,
    pub funding_address: BitcoinAddress,
    pub remote_commit: Commit,
    pub wallet: Wallet,
    /// Alice's reveal, while it waits for a fee estimate.
    pub deferred: Option<Reveal>,
}

#[derive(Clone, Debug, PartialEq, Eq)]
pub struct AliceInitMaker {
    pub local_params: Params,
    pub remote_commit: Commit,
    pub wallet: Wallet,
}

#[derive(Clone, Debug, PartialEq, Eq)]
pub struct BobInitTaker {
    pub local_commit: Commit,
    pub local_params: Params,
    pub funding_address: BitcoinAddress,
    pub wallet: Wallet,
}

#[derive(Clone, Debug, PartialEq, Eq)]
pub struct AliceInitTaker {
    pub local_params: Params,
    pub wallet: Wallet,
}

#[derive(Clone, Debug, PartialEq, Eq)]
pub struct AliceTakerMakerCommit {
    pub local_params: Params,
    pub remote_commit: Commit,
    pub wallet: Wallet,
}

#[derive(Clone, Debug, PartialEq, Eq)]
pub struct BobTakerMakerCommit {
    pub local_commit: Commit,
    pub local_params: Params,
    pub funding_address: BitcoinAddress,
    pub remote_commit: Commit,
    pub wallet: Wallet,
    /// Alice's reveal, while it waits for a fee estimate.
    pub deferred: Option<Reveal>,
}

#[derive(Clone, Debug, PartialEq, Eq)]
pub struct BobReveal {
    pub local_params: Params,
    /// In satoshis.
    pub required_funding_amount: u64,
    pub funding_address: BitcoinAddress,
    pub remote_params: Params,
    pub wallet: Wallet,
    pub alice_reveal: Reveal,
}

#[derive(Clone, Debug, PartialEq, Eq)]
pub struct AliceReveal {
    pub local_params: Params,
    pub remote_params: Params,
    pub wallet: Wallet,
}

#[derive(Debug, PartialEq, Eq)]
pub struct BobFunded {
    pub local_params: Params,
    pub funding_address: BitcoinAddress,
    pub remote_params: Params,
    pub wallet: Wallet,
}

impl Clone for BobFunded {
    fn clone(&self) -> (r: Self)
        ensures
            r == *self,
    {
        BobFunded {
            local_params: self.local_params.clone(),
            funding_address: self.funding_address.clone(),
            remote_params: self.remote_params.clone(),
            wallet: self.wallet.clone(),
        }
    }
}

#[derive(Debug, PartialEq, Eq)]
pub struct AliceCoreArbitratingSetup {
    pub local_params: Params,
    pub remote_params: Params,
    pub wallet: Wallet,
}

impl Clone for AliceCoreArbitratingSetup {
    fn clone(&self) -> (r: Self)
        ensures
            r == *self,
    {
        AliceCoreArbitratingSetup {
            local_params: self.local_params.clone(),
            remote_params: self.remote_params.clone(),
            wallet: self.wallet.clone(),
        }
    }
}

#[derive(Debug, PartialEq, Eq)]
pub struct BobRefundProcedureSignatures {
    pub local_params: Params,
    pub funding_address: BitcoinAddress,
    pub remote_params: Params,
    pub wallet: Wallet,
    pub buy_procedure_signature: BuyProcedureSignature,
}

impl Clone for BobRefundProcedureSignatures {
    fn clone(&self) -> (r: Self)
        ensures
            r == *self,
    {
        BobRefundProcedureSignatures {
            local_params: self.local_params.clone(),
            funding_address: self.funding_address.clone(),
            remote_params: self.remote_params.clone(),
            wallet: self.wallet.clone(),
            buy_procedure_signature: self.buy_procedure_signature.clone(),
        }
    }
}

#[derive(Clone, Debug, PartialEq, Eq)]
pub struct AliceArbitratingLockFinal {
    pub wallet: Wallet,
    pub funding_info: MoneroFundingInfo,
    /// In piconeros.
    pub required_funding_amount: u64,
}

#[derive(Clone, Debug, PartialEq, Eq)]
pub struct BobAccordantLock {
    pub local_params: Params,
    pub funding_address: BitcoinAddress,
    pub remote_params: Params,
    pub wallet: Wallet,
    pub buy_procedure_signature: BuyProcedureSignature,
}

#[derive(Clone, Debug, PartialEq, Eq)]
pub struct AliceAccordantLock {
    pub wallet: Wallet,
}

#[derive(Clone, Debug, PartialEq, Eq)]
pub struct BobAccordantLockFinal {
    pub local_params: Params,
    pub funding_address: BitcoinAddress,
    pub remote_params: Params,
    pub wallet: Wallet,
}

#[derive(Clone, Debug, PartialEq, Eq)]
pub struct AliceCanceled {
    pub wallet: Wallet,
}

/// A request and the service it came from.
#[derive(Debug, PartialEq, Eq)]
pub struct Event {
    pub source: ServiceId,
    pub request: Request,
}

/// What remains to be done when the wallet has answered.
#[derive(Debug, PartialEq, Eq)]
pub enum Pending {
    Taker { swap_role: SwapRole },
    Maker { swap_role: SwapRole, peerd: ServiceId, report_to: ServiceId, swap_id: SwapId, commit: Commit },
    BobMakerCommit {
        local_commit: Commit,
        local_params: Params,
        funding_address: BitcoinAddress,
        remote_commit: Commit,
    },
    AliceMakerCommit { local_params: Params, remote_commit: Commit },
    BobFundingTx {
        local_params: Params,
        remote_params: Params,
        funding_address: BitcoinAddress,
        alice_reveal: Reveal,
    },
    BobSetup { local_params: Params, remote_params: Params, funding_address: BitcoinAddress },
    BobRefundSignatures {
        local_params: Params,
        remote_params: Params,
        funding_address: BitcoinAddress,
    },
    BobBuyTx,
    BobAbort { source: ServiceId },
    AliceReveal { local_params: Params, remote_params: Params },
    AliceSetup { local_params: Params, remote_params: Params },
    AliceBuySignature,
    AliceRefundTx,
}

/// How a reaction ends.
#[derive(Debug, PartialEq, Eq)]
pub enum End {
    /// The swap goes over to a state; it may be the one it was in.
    Next(SwapStateMachine),
    /// The request means nothing in this state.
    Stay,
    /// The request failed.
    Fail(Error),
    /// The wallet is asked; `SwapStateMachine::resume` takes its answer.
    Ask(WalletCall, Pending),
}

/// A reaction: steps to take, and how it ends when all of them were taken.
#[derive(Debug, PartialEq, Eq)]
pub struct Plan {
    pub ops: Vec<Op>,
    pub end: End,
}

/// The mathematical content of a `Plan`.
pub struct PlanView {
    pub ops: Seq<Op>,
    pub end: End,
}

impl View for Plan {
    type V = PlanView;

    open spec fn view(&self) -> PlanView {
        PlanView { ops: self.ops@, end: self.end }
    }
}

/// A reaction in contracts.
pub open spec fn plan(ops: Seq<Op>, end: End) -> PlanView {
    PlanView { ops, end }
}

/// A reaction without steps.
pub open spec fn plain(end: End) -> PlanView {
    PlanView { ops: Seq::empty(), end }
}

fn just(end: End) -> (r: Plan)
    ensures
        r@ == plain(end),
{
    Plan { ops: Vec::new(), end }
}

/// The task and the depth in a report on a watched transaction that is on the chain.
pub open spec fn confs_in(request: Request) -> Option<(TaskId, u32)> {
    match request {
        Request::SyncerEvent(
            SyncEvent::TransactionConfirmations(
                TransactionConfirmations { id, confirmations: Some(c) },
            ),
        ) => Some((id, c)),
        _ => None,
    }
}

fn read_confs(request: &Request) -> (r: Option<(TaskId, u32)>)
    ensures
        r == confs_in(*request),
{
    match request {
        Request::SyncerEvent(
            SyncEvent::TransactionConfirmations(
                TransactionConfirmations { id, confirmations: Some(c) },
            ),
        ) => Some((*id, *c)),
        _ => None,
    }
}

/// A task for the bitcoin syncer.
pub open spec fn order_btc(rt: RuntimeView, task: Task) -> Op {
    Op::Send(ServiceBus::Ctl, rt.bitcoin_syncer(), Request::SyncerTask(task))
}

/// A task for the monero syncer.
pub open spec fn order_xmr(rt: RuntimeView, task: Task) -> Op {
    Op::Send(ServiceBus::Ctl, rt.monero_syncer(), Request::SyncerTask(task))
}

/// A request to the node daemon.
pub open spec fn to_farcasterd(request: Request) -> Op {
    Op::Send(ServiceBus::Ctl, ServiceId::Farcasterd, request)
}

fn btc_order(rt: &Runtime, task: Task) -> (r: Op)
    ensures
        r == order_btc(rt@, task),
{
    Op::Send(ServiceBus::Ctl, rt.syncer_state.bitcoin_syncer(), Request::SyncerTask(task))
}

fn xmr_order(rt: &Runtime, task: Task) -> (r: Op)
    ensures
        r == order_xmr(rt@, task),
{
    Op::Send(ServiceBus::Ctl, rt.syncer_state.monero_syncer(), Request::SyncerTask(task))
}

fn farcasterd(request: Request) -> (r: Op)
    ensures
        r == to_farcasterd(request),
{
    Op::Send(ServiceBus::Ctl, ServiceId::Farcasterd, request)
}

/// The steps that end a swap: no task goes on, and no transaction is left that could
/// still be published.
pub open spec fn wind_up(rt: RuntimeView) -> Seq<Op> {
    seq![
        order_xmr(rt, abort_every()),
        order_btc(rt, abort_every()),
        Op::DropTx(TxLabel::Cancel),
        Op::DropTx(TxLabel::Refund),
        Op::DropTx(TxLabel::Buy),
        Op::DropTx(TxLabel::Punish),
    ]
}

fn push_wind_up(rt: &Runtime, ops: &mut Vec<Op>)
    ensures
        final(ops)@ == old(ops)@ + wind_up(rt@),
{
    ops.push(xmr_order(rt, abort_all()));
    ops.push(btc_order(rt, abort_all()));
    ops.push(Op::DropTx(TxLabel::Cancel));
    ops.push(Op::DropTx(TxLabel::Refund));
    ops.push(Op::DropTx(TxLabel::Buy));
    ops.push(Op::DropTx(TxLabel::Punish));
    assert(ops@ =~= old(ops)@ + wind_up(rt@));
}

/// A swap is aborted at once, and whoever asked is told.
pub open spec fn abort_swap(source: ServiceId) -> PlanView {
    plan(
        seq![Op::Send(ServiceBus::Ctl, source, Request::Info(Notice::AbortedSwap))],
        End::Next(SwapStateMachine::SwapEnd(Outcome::FailureAbort)),
    )
}

pub fn handle_abort_swap(source: ServiceId) -> (r: Plan)
    ensures
        r@ == abort_swap(source),
{
    let r = Plan {
        ops: vec![Op::Send(ServiceBus::Ctl, source, Request::Info(Notice::AbortedSwap))],
        end: End::Next(SwapStateMachine::SwapEnd(Outcome::FailureAbort)),
    };
    assert(r@.ops =~= abort_swap(source).ops);
    r
}

/// A locked-in swap cannot be aborted, and whoever asked is told.
pub open spec fn abort_impossible(source: ServiceId) -> PlanView {
    plan(
        seq![
            Op::Send(
                ServiceBus::Ctl,
                source,
                Request::Failure(
                    Failure { code: UNKNOWN_FAILURE, info: Notice::AbortImpossible },
                ),
            ),
        ],
        End::Stay,
    )
}

pub fn handle_abort_impossible(source: ServiceId) -> (r: Plan)
    ensures
        r@ == abort_impossible(source),
{
    let r = Plan {
        ops: vec![
            Op::Send(
                ServiceBus::Ctl,
                source,
                Request::Failure(
                    Failure { code: UNKNOWN_FAILURE, info: Notice::AbortImpossible },
                ),
            ),
        ],
        end: End::Stay,
    };
    assert(r@.ops =~= abort_impossible(source).ops);
    r
}

/// Bob aborts: the wallet says how the funding address is swept.
pub open spec fn bob_abort_swap(
    rt: RuntimeView,
    source: ServiceId,
    wallet: Wallet,
    funding_address: BitcoinAddress,
) -> PlanView {
    plain(
        End::Ask(
            WalletCall::SweepBitcoin { wallet, funding_address, swap_id: rt.swap_id },
            Pending::BobAbort { source },
        ),
    )
}

pub fn handle_bob_abort_swap(
    rt: &Runtime,
    source: ServiceId,
    wallet: Wallet,
    funding_address: BitcoinAddress,
) -> (r: Plan)
    ensures
        r@ == bob_abort_swap(rt@, source, wallet, funding_address),
{
    just(
        End::Ask(
            WalletCall::SweepBitcoin { wallet, funding_address, swap_id: rt.swap_id },
            Pending::BobAbort { source },
        ),
    )
}

/// Bob's abort when the wallet has answered.
pub open spec fn bob_abort_sweep(
    rt: RuntimeView,
    source: ServiceId,
    sweep: SweepAddress,
) -> PlanView {
    plan(
        seq![
            Op::BookSweep(sweep.id),
            order_btc(rt, Task::SweepAddress(sweep)),
            Op::Send(ServiceBus::Ctl, source, Request::Info(Notice::AbortingSwap)),
        ],
        End::Next(SwapStateMachine::BobAbortAwaitingBitcoinSweep),
    )
}

/// What may come in between on Bob's side after the lock.
pub open spec fn bob_interrupt(rt: RuntimeView, event: Event) -> PlanView {
    match event.request {
        Request::AbortSwap => abort_impossible(event.source),
        _ => match confs_in(event.request) {
            Some((id, c)) => if rt.temporal_safety.final_tx(c, Blockchain::Bitcoin) && bears(
                rt.syncer.watched_txs,
                id,
                TxLabel::Lock,
            ) && rt.temporal_safety.valid_cancel(c) && rt.txs.dom().contains(TxLabel::Cancel) {
                plan(
                    seq![
                        Op::DropTx(TxLabel::Cancel),
                        Op::Broadcast(rt.txs[TxLabel::Cancel]),
                    ],
                    End::Stay,
                )
            } else if bears(rt.syncer.watched_txs, id, TxLabel::Cancel) {
                plain(End::Next(SwapStateMachine::BobCanceled))
            } else {
                plain(End::Stay)
            },
            None => plain(End::Stay),
        },
    }
}

pub fn handle_bob_swap_interrupt_after_lock(rt: &Runtime, event: &Event) -> (r: Plan)
    ensures
        r@ == bob_interrupt(rt@, *event),
{
    if let Request::AbortSwap = event.request {
        return handle_abort_impossible(event.source);
    }
    match read_confs(&event.request) {
        Some((id, c)) => {
            if rt.temporal_safety.final_tx(c, Blockchain::Bitcoin) && rt.syncer_state.tx_bears(
                id,
                TxLabel::Lock,
            ) && rt.temporal_safety.valid_cancel(c) {
                if let Some(tx) = rt.txs.get(&TxLabel::Cancel) {
                    let r = Plan {
                        ops: vec![Op::DropTx(TxLabel::Cancel), Op::Broadcast(tx.clone())],
                        end: End::Stay,
                    };
                    assert(r@.ops =~= bob_interrupt(rt@, *event).ops);
                    return r;
                }
            }
            if rt.syncer_state.tx_bears(id, TxLabel::Cancel) {
                just(End::Next(SwapStateMachine::BobCanceled))
            } else {
                just(End::Stay)
            }
        },
        None => just(End::Stay),
    }
}

/// What may come in between on Alice's side after the lock.
pub open spec fn alice_interrupt(rt: RuntimeView, event: Event, wallet: Wallet) -> PlanView {
    match event.request {
        Request::AbortSwap => abort_impossible(event.source),
        _ => match confs_in(event.request) {
            Some((id, c)) => if bears(rt.syncer.watched_txs, id, TxLabel::Cancel) {
                let end = End::Next(SwapStateMachine::AliceCanceled(AliceCanceled { wallet }));
                if rt.syncer.awaiting_funding {
                    plan(
                        seq![
                            to_farcasterd(Request::FundingCanceled(Blockchain::Monero)),
                            Op::AwaitFunding(false),
                        ],
                        end,
                    )
                } else {
                    plain(end)
                }
            } else if bears(rt.syncer.watched_txs, id, TxLabel::Lock)
                && rt.temporal_safety.valid_cancel(c) && rt.txs.dom().contains(TxLabel::Cancel) {
                plan(
                    seq![
                        Op::DropTx(TxLabel::Cancel),
                        Op::Broadcast(rt.txs[TxLabel::Cancel]),
                    ],
                    End::Stay,
                )
            } else {
                plain(End::Stay)
            },
            None => plain(End::Stay),
        },
    }
}

pub fn handle_alice_swap_interrupt_afer_lock(rt: &Runtime, event: &Event, wallet: Wallet) -> (r:
    Plan)
    ensures
        r@ == alice_interrupt(rt@, *event, wallet),
{
    let ghost expected = alice_interrupt(rt@, *event, wallet);
    if let Request::AbortSwap = event.request {
        return handle_abort_impossible(event.source);
    }
    match read_confs(&event.request) {
        Some((id, c)) => {
            if rt.syncer_state.tx_bears(id, TxLabel::Cancel) {
                let end = End::Next(SwapStateMachine::AliceCanceled(AliceCanceled { wallet }));
                if rt.syncer_state.awaiting_funding {
                    let r = Plan {
                        ops: vec![
                            farcasterd(Request::FundingCanceled(Blockchain::Monero)),
                            Op::AwaitFunding(false),
                        ],
                        end,
                    };
                    assert(r@.ops =~= expected.ops);
                    r
                } else {
                    just(end)
                }
            } else if rt.syncer_state.tx_bears(id, TxLabel::Lock)
                && rt.temporal_safety.valid_cancel(c) {
                if let Some(tx) = rt.txs.get(&TxLabel::Cancel) {
                    let r = Plan {
                        ops: vec![Op::DropTx(TxLabel::Cancel), Op::Broadcast(tx.clone())],
                        end: End::Stay,
                    };
                    assert(r@.ops =~= expected.ops);
                    r
                } else {
                    just(End::Stay)
                }
            } else {
                just(End::Stay)
            }
        },
        None => just(End::Stay),
    }
}

/// Whether a peer service stands for an open connection: connection number 0 does
/// not.
pub open spec fn is_open(peerd: ServiceId) -> bool {
    !(peerd matches ServiceId::Peer(n, _) && n == 0)
}

/// A taker begins: both chains are watched, the counterparty and the client are
/// noted, and the wallet opens.
pub open spec fn init_taker(rt: RuntimeView, event: Event, swap_role: SwapRole) -> PlanView {
    match event.request {
        Request::InitTakerSwap(init) => if init.swap_id != rt.swap_id {
            plain(End::Stay)
        } else {
            plan(
                seq![
                    Op::WatchFee,
                    Op::WatchHeight(Blockchain::Bitcoin),
                    Op::WatchHeight(Blockchain::Monero),
                    Op::UsePeer(init.peerd),
                    Op::Connected(is_open(init.peerd)),
                    Op::UseEnquirer(Some(init.report_to)),
                ],
                End::Ask(
                    WalletCall::NewTaker {
                        public_offer: rt.public_offer,
                        target_bitcoin_address: init.target_bitcoin_address,
                        target_monero_address: init.target_monero_address,
                        key_manager: init.key_manager,
                        swap_id: init.swap_id,
                    },
                    Pending::Taker { swap_role },
                ),
            )
        },
        Request::AbortSwap => abort_swap(event.source),
        _ => plain(End::Stay),
    }
}

pub fn attempt_transition_to_init_taker(rt: &Runtime, event: &Event, swap_role: SwapRole) -> (r:
    Plan)
    ensures
        r@ == init_taker(rt@, *event, swap_role),
{
    match &event.request {
        Request::InitTakerSwap(init) => {
            if !init.swap_id.same(&rt.swap_id) {
                return just(End::Stay);
            }
            let open = match init.peerd {
                ServiceId::Peer(n, _) => n != 0,
                _ => true,
            };
            let r = Plan {
                ops: vec![
                    Op::WatchFee,
                    Op::WatchHeight(Blockchain::Bitcoin),
                    Op::WatchHeight(Blockchain::Monero),
                    Op::UsePeer(init.peerd),
                    Op::Connected(open),
                    Op::UseEnquirer(Some(init.report_to)),
                ],
                end: End::Ask(
                    WalletCall::NewTaker {
                        public_offer: rt.public_offer.clone(),
                        target_bitcoin_address: init.target_bitcoin_address.clone(),
                        target_monero_address: init.target_monero_address.clone(),
                        key_manager: init.key_manager.clone(),
                        swap_id: init.swap_id,
                    },
                    Pending::Taker { swap_role },
                ),
            };
            assert(r@.ops =~= init_taker(rt@, *event, swap_role).ops);
            r
        },
        Request::AbortSwap => handle_abort_swap(event.source),
        _ => just(End::Stay),
    }
}

/// The client hears that no commitment could be made.
pub open spec fn commit_failed(enquirer: Option<ServiceId>) -> Op {
    Op::ReportFailure(enquirer, Failure { code: UNKNOWN_FAILURE, info: Notice::CommitFailed })
}

/// The taker's commitment is sent. Bob waits with his funding address, Alice with
/// nothing but her parameters.
pub open spec fn taker_sends(
    rt: RuntimeView,
    swap_role: SwapRole,
    wallet: Wallet,
    local_params: Params,
    funding_address: Option<BitcoinAddress>,
    commit: Commit,
) -> PlanView {
    plan(
        seq![
            Op::SendPeer(
                Msg::TakerCommit(
                    TakerCommit {
                        commit,
                        public_offer: rt.public_offer.text,
                        swap_id: rt.swap_id,
                    },
                ),
            ),
        ],
        match swap_role {
            SwapRole::Bob => End::Next(
                SwapStateMachine::BobInitTaker(
                    BobInitTaker {
                        local_commit: commit,
                        local_params,
                        funding_address: funding_address->0,
                        wallet,
                    },
                ),
            ),
            SwapRole::Alice => End::Next(
                SwapStateMachine::AliceInitTaker(AliceInitTaker { local_params, wallet }),
            ),
        },
    )
}

/// The client hears of the proposal before the taker's commitment is sent.
pub open spec fn taker_committed(
    rt: RuntimeView,
    swap_role: SwapRole,
    wallet: Wallet,
    local_params: Params,
    funding_address: Option<BitcoinAddress>,
    commit: Commit,
) -> PlanView {
    let sent = taker_sends(rt, swap_role, wallet, local_params, funding_address, commit);
    plan(seq![taker_report(rt.swap_id, rt.enquirer)] + sent.ops, sent.end)
}

/// Sends the taker's commitment.
pub fn send_taker_commit(
    rt: &Runtime,
    swap_role: SwapRole,
    wallet: Wallet,
    local_params: Params,
    funding_address: Option<BitcoinAddress>,
    commit: Commit,
) -> (r: Plan)
    requires
        swap_role == SwapRole::Bob ==> funding_address is Some,
    ensures
        r@ == taker_sends(rt@, swap_role, wallet, local_params, funding_address, commit),
{
    let ghost expected = taker_sends(
        rt@,
        swap_role,
        wallet,
        local_params,
        funding_address,
        commit,
    );
    let ops = vec![
        Op::SendPeer(
            Msg::TakerCommit(
                TakerCommit {
                    commit: commit.clone(),
                    public_offer: rt.public_offer.text.clone(),
                    swap_id: rt.swap_id,
                },
            ),
        ),
    ];
    assert(ops@ =~= expected.ops);
    let next = match (swap_role, funding_address) {
        (SwapRole::Bob, Some(funding_address)) => SwapStateMachine::BobInitTaker(
            BobInitTaker { local_commit: commit, local_params, funding_address, wallet },
        ),
        _ => SwapStateMachine::AliceInitTaker(AliceInitTaker { local_params, wallet }),
    };
    Plan { ops, end: End::Next(next) }
}

/// A maker begins: both chains are watched and the wallet opens.
pub open spec fn init_maker(rt: RuntimeView, event: Event, swap_role: SwapRole) -> PlanView {
    match event.request {
        Request::InitMakerSwap(init) => plan(
            seq![
                Op::WatchFee,
                Op::WatchHeight(Blockchain::Bitcoin),
                Op::WatchHeight(Blockchain::Monero),
            ],
            End::Ask(
                WalletCall::NewMaker {
                    public_offer: rt.public_offer,
                    target_bitcoin_address: init.target_bitcoin_address,
                    target_monero_address: init.target_monero_address,
                    key_manager: init.key_manager,
                    swap_id: init.swap_id,
                    commit: init.commit,
                },
                Pending::Maker {
                    swap_role,
                    peerd: init.peerd,
                    report_to: init.report_to,
                    swap_id: init.swap_id,
                    commit: init.commit,
                },
            ),
        ),
        Request::AbortSwap => abort_swap(event.source),
        _ => plain(End::Stay),
    }
}

pub fn attempt_transition_to_init_maker(rt: &Runtime, event: &Event, swap_role: SwapRole) -> (r:
    Plan)
    ensures
        r@ == init_maker(rt@, *event, swap_role),
{
    match &event.request {
        Request::InitMakerSwap(init) => {
            let r = Plan {
                ops: vec![
                    Op::WatchFee,
                    Op::WatchHeight(Blockchain::Bitcoin),
                    Op::WatchHeight(Blockchain::Monero),
                ],
                end: End::Ask(
                    WalletCall::NewMaker {
                        public_offer: rt.public_offer.clone(),
                        target_bitcoin_address: init.target_bitcoin_address.clone(),
                        target_monero_address: init.target_monero_address.clone(),
                        key_manager: init.key_manager.clone(),
                        swap_id: init.swap_id,
                        commit: init.commit.clone(),
                    },
                    Pending::Maker {
                        swap_role,
                        peerd: init.peerd,
                        report_to: init.report_to,
                        swap_id: init.swap_id,
                        commit: init.commit.clone(),
                    },
                ),
            };
            assert(r@.ops =~= init_maker(rt@, *event, swap_role).ops);
            r
        },
        Request::AbortSwap => handle_abort_swap(event.source),
        _ => just(End::Stay),
    }
}

/// The counterparty and the client of a maker's swap are noted.
pub open spec fn maker_noted(peerd: ServiceId, report_to: ServiceId) -> Seq<Op> {
    if peerd == ServiceId::Loopback {
        seq![Op::UsePeer(peerd), Op::UseEnquirer(Some(report_to))]
    } else {
        seq![Op::UsePeer(peerd), Op::Connected(true), Op::UseEnquirer(Some(report_to))]
    }
}

fn note_maker(peerd: ServiceId, report_to: ServiceId) -> (r: Vec<Op>)
    ensures
        r@ == maker_noted(peerd, report_to),
{
    let r = if peerd.same(&ServiceId::Loopback) {
        vec![Op::UsePeer(peerd), Op::UseEnquirer(Some(report_to))]
    } else {
        vec![Op::UsePeer(peerd), Op::Connected(true), Op::UseEnquirer(Some(report_to))]
    };
    assert(r@ =~= maker_noted(peerd, report_to));
    r
}

/// The maker's commitment is sent in answer to the taker's.
pub open spec fn maker_sends(
    swap_role: SwapRole,
    remote_commit: Commit,
    wallet: Wallet,
    local_params: Params,
    funding_address: Option<BitcoinAddress>,
    commit: Commit,
) -> PlanView {
    plan(
        seq![Op::SendPeer(Msg::MakerCommit(commit))],
        match swap_role {
            SwapRole::Bob => End::Next(
                SwapStateMachine::BobInitMaker(
                    BobInitMaker {
                        local_commit: commit,
                        local_params,
                        funding_address: funding_address->0,
                        remote_commit,
                        wallet,
                        deferred: None,
                    },
                ),
            ),
            SwapRole::Alice => End::Next(
                SwapStateMachine::AliceInitMaker(
                    AliceInitMaker { local_params, remote_commit, wallet },
                ),
            ),
        },
    )
}

/// The counterparty and the client are noted, and the client hears that the swap is
/// accepted, before the maker's commitment is sent.
pub open spec fn maker_committed(
    swap_role: SwapRole,
    peerd: ServiceId,
    report_to: ServiceId,
    swap_id: SwapId,
    remote_commit: Commit,
    wallet: Wallet,
    local_params: Params,
    funding_address: Option<BitcoinAddress>,
    commit: Commit,
) -> PlanView {
    let sent = maker_sends(
        swap_role,
        remote_commit,
        wallet,
        local_params,
        funding_address,
        commit,
    );
    plan(
        maker_noted(peerd, report_to) + seq![maker_report(swap_id, peerd, Some(report_to))]
            + sent.ops,
        sent.end,
    )
}

/// Sends the maker's commitment.
pub fn send_maker_commit(
    swap_role: SwapRole,
    remote_commit: Commit,
    wallet: Wallet,
    local_params: Params,
    funding_address: Option<BitcoinAddress>,
    commit: Commit,
) -> (r: Plan)
    requires
        swap_role == SwapRole::Bob ==> funding_address is Some,
    ensures
        r@ == maker_sends(swap_role, remote_commit, wallet, local_params, funding_address, commit),
{
    let ghost expected = maker_sends(
        swap_role,
        remote_commit,
        wallet,
        local_params,
        funding_address,
        commit,
    );
    let ops = vec![Op::SendPeer(Msg::MakerCommit(commit.clone()))];
    assert(ops@ =~= expected.ops);
    let next = match (swap_role, funding_address) {
        (SwapRole::Bob, Some(funding_address)) => SwapStateMachine::BobInitMaker(
            BobInitMaker {
                local_commit: commit,
                local_params,
                funding_address,
                remote_commit,
                wallet,
                deferred: None,
            },
        ),
        _ => SwapStateMachine::AliceInitMaker(
            AliceInitMaker { local_params, remote_commit, wallet },
        ),
    };
    Plan { ops, end: End::Next(next) }
}

/// Bob took an offer and waits for the maker's commitment.
pub open spec fn from_bob_init_taker(rt: RuntimeView, event: Event, s: BobInitTaker) -> PlanView {
    match event.request {
        Request::Protocol(Msg::OfferNotFound(_)) => bob_abort_swap(
            rt,
            event.source,
            s.wallet,
            s.funding_address,
        ),
        Request::Protocol(Msg::MakerCommit(remote_commit)) => plan(
            seq![Op::EnsureBtcAddr(TxLabel::Funding, s.funding_address)],
            End::Ask(
                WalletCall::MakerCommit { wallet: s.wallet, remote_commit, swap_id: rt.swap_id },
                Pending::BobMakerCommit {
                    local_commit: s.local_commit,
                    local_params: s.local_params,
                    funding_address: s.funding_address,
                    remote_commit,
                },
            ),
        ),
        Request::AbortSwap => bob_abort_swap(rt, event.source, s.wallet, s.funding_address),
        _ => plain(End::Stay),
    }
}

pub fn try_bob_init_taker_to_bob_taker_maker_commit(rt: &Runtime, event: &Event, s: BobInitTaker) -> (r:
    Plan)
    ensures
        r@ == from_bob_init_taker(rt@, *event, s),
{
    let ghost expected = from_bob_init_taker(rt@, *event, s);
    match &event.request {
        Request::Protocol(Msg::OfferNotFound(_)) => handle_bob_abort_swap(
            rt,
            event.source,
            s.wallet,
            s.funding_address,
        ),
        Request::Protocol(Msg::MakerCommit(remote_commit)) => {
            let r = Plan {
                ops: vec![Op::EnsureBtcAddr(TxLabel::Funding, s.funding_address.clone())],
                end: End::Ask(
                    WalletCall::MakerCommit {
                        wallet: s.wallet,
                        remote_commit: remote_commit.clone(),
                        swap_id: rt.swap_id,
                    },
                    Pending::BobMakerCommit {
                        local_commit: s.local_commit,
                        local_params: s.local_params,
                        funding_address: s.funding_address,
                        remote_commit: remote_commit.clone(),
                    },
                ),
            };
            assert(r@.ops =~= expected.ops);
            r
        },
        Request::AbortSwap => handle_bob_abort_swap(
            rt,
            event.source,
            s.wallet,
            s.funding_address,
        ),
        _ => just(End::Stay),
    }
}

/// Alice took an offer and waits for the maker's commitment.
pub open spec fn from_alice_init_taker(rt: RuntimeView, event: Event, s: AliceInitTaker) -> PlanView {
    match event.request {
        Request::Protocol(Msg::OfferNotFound(_)) => abort_swap(event.source),
        Request::Protocol(Msg::MakerCommit(remote_commit)) => plain(
            End::Ask(
                WalletCall::MakerCommit { wallet: s.wallet, remote_commit, swap_id: rt.swap_id },
                Pending::AliceMakerCommit { local_params: s.local_params, remote_commit },
            ),
        ),
        Request::AbortSwap => abort_swap(event.source),
        _ => plain(End::Stay),
    }
}

pub fn try_alice_init_taker_to_alice_taker_maker_commit(
    rt: &Runtime,
    event: &Event,
    s: AliceInitTaker,
) -> (r: Plan)
    ensures
        r@ == from_alice_init_taker(rt@, *event, s),
{
    match &event.request {
        Request::Protocol(Msg::OfferNotFound(_)) => handle_abort_swap(event.source),
        Request::Protocol(Msg::MakerCommit(remote_commit)) => just(
            End::Ask(
                WalletCall::MakerCommit {
                    wallet: s.wallet,
                    remote_commit: remote_commit.clone(),
                    swap_id: rt.swap_id,
                },
                Pending::AliceMakerCommit {
                    local_params: s.local_params,
                    remote_commit: remote_commit.clone(),
                },
            ),
        ),
        Request::AbortSwap => handle_abort_swap(event.source),
        _ => just(End::Stay),
    }
}

/// What Bob has exchanged before Alice reveals, as maker or as taker.
#[derive(Debug, PartialEq, Eq)]
pub struct BobExchange {
    pub local_commit: Commit,
    pub local_params: Params,
    pub funding_address: BitcoinAddress,
    pub remote_commit: Commit,
    pub wallet: Wallet,
    pub deferred: Option<Reveal>,
}

/// The fee that Bob adds to the amount he funds, in satoshis: enough for the lock
/// transaction at a fee rate, rounded up.
pub open spec fn funding_fee(sat_per_kvb: u64) -> int {
    (sat_per_kvb * LOCK_TX_VSIZE + 999) / 1000
}

/// The amount that Bob has to fund, in satoshis.
pub open spec fn funding_amount(rt: RuntimeView, sat_per_kvb: u64) -> int {
    rt.syncer.bitcoin_amount + funding_fee(sat_per_kvb)
}

/// Works out the amount that Bob has to fund; gives nothing where it is out of range.
pub fn required_funding(rt: &Runtime, sat_per_kvb: u64) -> (r: Option<u64>)
    ensures
        match r {
            Some(a) => a == funding_amount(rt@, sat_per_kvb),
            None => funding_amount(rt@, sat_per_kvb) > u64::MAX,
        },
{
    let fee: u128 = (sat_per_kvb as u128 * LOCK_TX_VSIZE as u128 + 999) / 1000;
    let amount: u128 = rt.syncer_state.bitcoin_amount as u128 + fee;
    if amount <= u64::MAX as u128 {
        Some(amount as u64)
    } else {
        None
    }
}

/// Bob is asked for funds, and the address is watched.
pub open spec fn ask_bob_to_fund(rt: RuntimeView, address: BitcoinAddress, amount: u64) -> Seq<Op> {
    let info = Request::FundingInfo(
        FundingInfo::Bitcoin { swap_id: rt.swap_id, address, amount },
    );
    match rt.enquirer {
        Some(enquirer) => seq![
            Op::AwaitFunding(true),
            Op::Send(ServiceBus::Ctl, enquirer, info),
            Op::EnsureBtcAddr(TxLabel::Funding, address),
        ],
        None => seq![Op::AwaitFunding(true), Op::EnsureBtcAddr(TxLabel::Funding, address)],
    }
}

/// Alice has revealed parameters, valid or not, to Bob, who knows the fee rate.
pub open spec fn bob_takes_reveal(
    rt: RuntimeView,
    x: BobExchange,
    alice_reveal: Reveal,
    sat_per_kvb: u64,
) -> PlanView {
    match spec_validate_reveal(alice_reveal, x.remote_commit) {
        Err(_) => plain(End::Fail(Error::RemoteParamsInvalid)),
        Ok(remote_params) => if funding_amount(rt, sat_per_kvb) > u64::MAX {
            plain(End::Fail(Error::AmountOverflow))
        } else {
            let amount = funding_amount(rt, sat_per_kvb) as u64;
            plan(
                ask_bob_to_fund(rt, x.funding_address, amount),
                End::Next(
                    SwapStateMachine::BobReveal(
                        BobReveal {
                            local_params: x.local_params,
                            required_funding_amount: amount,
                            funding_address: x.funding_address,
                            remote_params,
                            wallet: x.wallet,
                            alice_reveal,
                        },
                    ),
                ),
            )
        },
    }
}

fn take_reveal(rt: &Runtime, x: BobExchange, alice_reveal: Reveal, sat_per_kvb: u64) -> (r: Plan)
    ensures
        r@ == bob_takes_reveal(rt@, x, alice_reveal, sat_per_kvb),
{
    let ghost expected = bob_takes_reveal(rt@, x, alice_reveal, sat_per_kvb);
    let remote_params = match validate_reveal(&alice_reveal, &x.remote_commit) {
        Ok(p) => p,
        Err(_) => {
            return just(End::Fail(Error::RemoteParamsInvalid));
        },
    };
    let amount: u64 = match required_funding(rt, sat_per_kvb) {
        Some(a) => a,
        None => {
            return just(End::Fail(Error::AmountOverflow));
        },
    };
    let mut ops: Vec<Op> = Vec::new();
    ops.push(Op::AwaitFunding(true));
    if let Some(enquirer) = rt.enquirer {
        ops.push(
            Op::Send(
                ServiceBus::Ctl,
                enquirer,
                Request::FundingInfo(
                    FundingInfo::Bitcoin {
                        swap_id: rt.swap_id,
                        address: x.funding_address.clone(),
                        amount,
                    },
                ),
            ),
        );
    }
    ops.push(Op::EnsureBtcAddr(TxLabel::Funding, x.funding_address.clone()));
    assert(ops@ =~= expected.ops);
    Plan {
        ops,
        end: End::Next(
            SwapStateMachine::BobReveal(
                BobReveal {
                    local_params: x.local_params,
                    required_funding_amount: amount,
                    funding_address: x.funding_address,
                    remote_params,
                    wallet: x.wallet,
                    alice_reveal,
                },
            ),
        ),
    }
}

/// The state in which Bob waits, as maker or as taker, for the fee rate.
pub open spec fn bob_waits(x: BobExchange, local_trade_role: TradeRole, deferred: Reveal) -> SwapStateMachine {
    match local_trade_role {
        TradeRole::Maker => SwapStateMachine::BobInitMaker(
            BobInitMaker {
                local_commit: x.local_commit,
                local_params: x.local_params,
                funding_address: x.funding_address,
                remote_commit: x.remote_commit,
                wallet: x.wallet,
                deferred: Some(deferred),
            },
        ),
        TradeRole::Taker => SwapStateMachine::BobTakerMakerCommit(
            BobTakerMakerCommit {
                local_commit: x.local_commit,
                local_params: x.local_params,
                funding_address: x.funding_address,
                remote_commit: x.remote_commit,
                wallet: x.wallet,
                deferred: Some(deferred),
            },
        ),
    }
}

/// Bob waits for Alice's parameters. A reveal that comes before the fee rate is known
/// is checked, kept and taken up with the next request after it is.
pub open spec fn bob_awaits_reveal(
    rt: RuntimeView,
    event: Event,
    x: BobExchange,
    local_trade_role: TradeRole,
) -> PlanView {
    match event.request {
        Request::Protocol(Msg::Reveal(alice_reveal)) => match rt.syncer.btc_fee_estimate_sat_per_kvb {
            Some(sat_per_kvb) => bob_takes_reveal(rt, x, alice_reveal, sat_per_kvb),
            None => match spec_validate_reveal(alice_reveal, x.remote_commit) {
                Err(_) => plain(End::Fail(Error::RemoteParamsInvalid)),
                Ok(_) => plain(End::Next(bob_waits(x, local_trade_role, alice_reveal))),
            },
        },
        Request::AbortSwap => bob_abort_swap(rt, event.source, x.wallet, x.funding_address),
        _ => match (x.deferred, rt.syncer.btc_fee_estimate_sat_per_kvb) {
            (Some(alice_reveal), Some(sat_per_kvb)) => bob_takes_reveal(
                rt,
                x,
                alice_reveal,
                sat_per_kvb,
            ),
            _ => plain(End::Stay),
        },
    }
}

pub fn attempt_transition_to_bob_reveal(
    rt: &Runtime,
    event: &Event,
    x: BobExchange,
    local_trade_role: TradeRole,
) -> (r: Plan)
    ensures
        r@ == bob_awaits_reveal(rt@, *event, x, local_trade_role),
{
    match &event.request {
        Request::Protocol(Msg::Reveal(alice_reveal)) => {
            if let Some(sat_per_kvb) = rt.syncer_state.btc_fee_estimate_sat_per_kvb {
                return take_reveal(rt, x, alice_reveal.clone(), sat_per_kvb);
            }
            match validate_reveal(alice_reveal, &x.remote_commit) {
                Err(_) => {
                    return just(End::Fail(Error::RemoteParamsInvalid));
                },
                Ok(_) => {},
            }
            let deferred: Option<Reveal> = Some(alice_reveal.clone());
            let BobExchange {
                local_commit,
                local_params,
                funding_address,
                remote_commit,
                wallet,
                ..
            } = x;
            match local_trade_role {
                TradeRole::Maker => just(
                    End::Next(
                        SwapStateMachine::BobInitMaker(
                            BobInitMaker {
                                local_commit,
                                local_params,
                                funding_address,
                                remote_commit,
                                wallet,
                                deferred,
                            },
                        ),
                    ),
                ),
                TradeRole::Taker => just(
                    End::Next(
                        SwapStateMachine::BobTakerMakerCommit(
                            BobTakerMakerCommit {
                                local_commit,
                                local_params,
                                funding_address,
                                remote_commit,
                                wallet,
                                deferred,
                            },
                        ),
                    ),
                ),
            }
        },
        Request::AbortSwap => handle_bob_abort_swap(
            rt,
            event.source,
            x.wallet,
            x.funding_address,
        ),
        _ => {
            let deferred = match &x.deferred {
                Some(alice_reveal) => Some(alice_reveal.clone()),
                None => None,
            };
            match (deferred, rt.syncer_state.btc_fee_estimate_sat_per_kvb) {
                (Some(alice_reveal), Some(sat_per_kvb)) => take_reveal(
                    rt,
                    x,
                    alice_reveal,
                    sat_per_kvb,
                ),
                _ => just(End::Stay),
            }
        },
    }
}

/// What a taker Bob has exchanged.
pub open spec fn taker_exchange(s: BobTakerMakerCommit) -> BobExchange {
    BobExchange {
        local_commit: s.local_commit,
        local_params: s.local_params,
        funding_address: s.funding_address,
        remote_commit: s.remote_commit,
        wallet: s.wallet,
        deferred: s.deferred,
    }
}

pub fn try_bob_taker_maker_commit_to_bob_reveal(rt: &Runtime, event: &Event, s: BobTakerMakerCommit) -> (r:
    Plan)
    ensures
        r@ == bob_awaits_reveal(rt@, *event, taker_exchange(s), TradeRole::Taker),
{
    let BobTakerMakerCommit {
        local_commit,
        local_params,
        funding_address,
        remote_commit,
        wallet,
        deferred,
    } = s;
    attempt_transition_to_bob_reveal(
        rt,
        event,
        BobExchange {
            local_commit,
            local_params,
            funding_address,
            remote_commit,
            wallet,
            deferred,
        },
        TradeRole::Taker,
    )
}

/// What a maker Bob has exchanged.
pub open spec fn maker_exchange(s: BobInitMaker) -> BobExchange {
    BobExchange {
        local_commit: s.local_commit,
        local_params: s.local_params,
        funding_address: s.funding_address,
        remote_commit: s.remote_commit,
        wallet: s.wallet,
        deferred: s.deferred,
    }
}

pub fn try_bob_init_maker_to_bob_reveal(rt: &Runtime, event: &Event, s: BobInitMaker) -> (r: Plan)
    ensures
        r@ == bob_awaits_reveal(rt@, *event, maker_exchange(s), TradeRole::Maker),
{
    let BobInitMaker {
        local_commit,
        local_params,
        funding_address,
        remote_commit,
        wallet,
        deferred,
    } = s;
    attempt_transition_to_bob_reveal(
        rt,
        event,
        BobExchange {
            local_commit,
            local_params,
            funding_address,
            remote_commit,
            wallet,
            deferred,
        },
        TradeRole::Maker,
    )
}

/// Alice waits for Bob's parameters.
pub open spec fn alice_awaits_reveal(
    rt: RuntimeView,
    event: Event,
    local_params: Params,
    remote_commit: Commit,
    wallet: Wallet,
) -> PlanView {
    match event.request {
        Request::Protocol(Msg::Reveal(bob_reveal)) => match spec_validate_reveal(
            bob_reveal,
            remote_commit,
        ) {
            Err(_) => plain(End::Fail(Error::RemoteParamsInvalid)),
            Ok(remote_params) => plain(
                End::Ask(
                    WalletCall::BobReveals { wallet, reveal_msg: bob_reveal, swap_id: rt.swap_id },
                    Pending::AliceReveal { local_params, remote_params },
                ),
            ),
        },
        Request::AbortSwap => abort_swap(event.source),
        _ => plain(End::Stay),
    }
}

pub fn attempt_transition_to_alice_reveal(
    rt: &Runtime,
    event: &Event,
    local_params: Params,
    remote_commit: Commit,
    wallet: Wallet,
) -> (r: Plan)
    ensures
        r@ == alice_awaits_reveal(rt@, *event, local_params, remote_commit, wallet),
{
    match &event.request {
        Request::Protocol(Msg::Reveal(bob_reveal)) => match validate_reveal(
            bob_reveal,
            &remote_commit,
        ) {
            Err(_) => just(End::Fail(Error::RemoteParamsInvalid)),
            Ok(remote_params) => just(
                End::Ask(
                    WalletCall::BobReveals {
                        wallet,
                        reveal_msg: bob_reveal.clone(),
                        swap_id: rt.swap_id,
                    },
                    Pending::AliceReveal { local_params, remote_params },
                ),
            ),
        },
        Request::AbortSwap => handle_abort_swap(event.source),
        _ => just(End::Stay),
    }
}

pub fn try_alice_taker_maker_commit_to_alice_reveal(
    rt: &Runtime,
    event: &Event,
    s: AliceTakerMakerCommit,
) -> (r: Plan)
    ensures
        r@ == alice_awaits_reveal(rt@, *event, s.local_params, s.remote_commit, s.wallet),
{
    let AliceTakerMakerCommit { local_params, remote_commit, wallet } = s;
    attempt_transition_to_alice_reveal(rt, event, local_params, remote_commit, wallet)
}

pub fn try_alice_init_maker_to_alice_reveal(rt: &Runtime, event: &Event, s: AliceInitMaker) -> (r:
    Plan)
    ensures
        r@ == alice_awaits_reveal(rt@, *event, s.local_params, s.remote_commit, s.wallet),
{
    let AliceInitMaker { local_params, remote_commit, wallet } = s;
    attempt_transition_to_alice_reveal(rt, event, local_params, remote_commit, wallet)
}

/// Funds of some amount came in for Bob, in a transaction.
pub open spec fn bob_sees_funding(
    rt: RuntimeView,
    source: ServiceId,
    s: BobReveal,
    amount: u64,
    tx: Transaction,
) -> PlanView {
    if amount != s.required_funding_amount {
        plan(
            seq![
                Op::AwaitFunding(false),
                Op::Report(
                    Some(ServiceId::Farcasterd),
                    Notice::IncorrectFunding {
                        required: s.required_funding_amount,
                        funded: amount,
                    },
                ),
            ],
            bob_abort_swap(rt, source, s.wallet, s.funding_address).end,
        )
    } else {
        plan(
            seq![
                Op::AwaitFunding(false),
                to_farcasterd(Request::FundingCompleted(Blockchain::Bitcoin)),
            ],
            End::Ask(
                WalletCall::FundingTx {
                    wallet: s.wallet,
                    funding: Tx::Funding(tx),
                    swap_id: rt.swap_id,
                },
                Pending::BobFundingTx {
                    local_params: s.local_params,
                    remote_params: s.remote_params,
                    funding_address: s.funding_address,
                    alice_reveal: s.alice_reveal,
                },
            ),
        )
    }
}

/// Takes in Bob's funding.
pub fn take_funding(rt: &Runtime, source: ServiceId, s: BobReveal, amount: u64, tx: Transaction) -> (r:
    Plan)
    ensures
        r@ == bob_sees_funding(rt@, source, s, amount, tx),
{
    let ghost expected = bob_sees_funding(rt@, source, s, amount, tx);
    if amount != s.required_funding_amount {
        let ops = vec![
            Op::AwaitFunding(false),
            Op::Report(
                Some(ServiceId::Farcasterd),
                Notice::IncorrectFunding { required: s.required_funding_amount, funded: amount },
            ),
        ];
        assert(ops@ =~= expected.ops);
        let abort = handle_bob_abort_swap(rt, source, s.wallet, s.funding_address);
        Plan { ops, end: abort.end }
    } else {
        let ops = vec![
            Op::AwaitFunding(false),
            farcasterd(Request::FundingCompleted(Blockchain::Bitcoin)),
        ];
        assert(ops@ =~= expected.ops);
        Plan {
            ops,
            end: End::Ask(
                WalletCall::FundingTx {
                    wallet: s.wallet,
                    funding: Tx::Funding(tx),
                    swap_id: rt.swap_id,
                },
                Pending::BobFundingTx {
                    local_params: s.local_params,
                    remote_params: s.remote_params,
                    funding_address: s.funding_address,
                    alice_reveal: s.alice_reveal,
                },
            ),
        }
    }
}

/// The payment to Bob's watched funding address in a request, while it is waited for.
pub open spec fn funding_in(rt: RuntimeView, request: Request) -> Option<AddressTransaction> {
    match request {
        Request::SyncerEvent(SyncEvent::AddressTransaction(a)) => if bears(
            rt.syncer.watched_addrs,
            a.id,
            TxLabel::Funding,
        ) && rt.syncer.awaiting_funding {
            Some(a)
        } else {
            None
        },
        _ => None,
    }
}

/// Whether a reaction is the one to a payment whose raw transaction came in parts.
pub open spec fn reads_funding(
    rt: RuntimeView,
    source: ServiceId,
    s: BobReveal,
    payment: AddressTransaction,
    r: PlanView,
) -> bool {
    match parsed_transaction(joined(payment.tx@)) {
        None => r == plain(End::Fail(Error::MalformedTransaction)),
        Some(parsed) => exists|tx: Transaction|
            {
                &&& parsed == (tx.encoding()@, tx.id().0@)
                &&& r == #[trigger] bob_sees_funding(rt, source, s, payment.amount, tx)
            },
    }
}

pub fn try_bob_reveal_to_bob_funded(rt: &Runtime, event: &Event, s: BobReveal) -> (r: Plan)
    ensures
        match funding_in(rt@, event.request) {
            Some(payment) => reads_funding(rt@, event.source, s, payment, r@),
            None => r@ == (match event.request {
                Request::AbortSwap => bob_abort_swap(
                    rt@,
                    event.source,
                    s.wallet,
                    s.funding_address,
                ),
                _ => plain(End::Stay),
            }),
        },
{
    match &event.request {
        Request::SyncerEvent(SyncEvent::AddressTransaction(a)) => {
            if !rt.syncer_state.addr_bears(a.id, TxLabel::Funding)
                || !rt.syncer_state.awaiting_funding {
                return just(End::Stay);
            }
            let raw: Vec<u8> = join(&a.tx);
            match Transaction::decode(&raw) {
                Some(tx) => take_funding(rt, event.source, s, a.amount, tx),
                None => just(End::Fail(Error::MalformedTransaction)),
            }
        },
        Request::AbortSwap => handle_bob_abort_swap(
            rt,
            event.source,
            s.wallet,
            s.funding_address,
        ),
        _ => just(End::Stay),
    }
}

/// Bob's transactions are ready: they are watched, a checkpoint is written, and the
/// setup is sent.
pub open spec fn bob_set_up(
    local_params: Params,
    remote_params: Params,
    funding_address: BitcoinAddress,
    wallet: Wallet,
    bob_reveal: Option<Reveal>,
    setup: crate::message::CoreArbitratingSetup,
) -> PlanView {
    let sent = match bob_reveal {
        Some(bob_reveal) => seq![Op::SendPeer(Msg::Reveal(bob_reveal))],
        None => seq![],
    };
    let next = SwapStateMachine::BobFunded(
        BobFunded { local_params, funding_address, remote_params, wallet },
    );
    plan(
        sent + seq![
            Op::EnsureBtcTxid(TxLabel::Lock, setup.lock.id()),
            Op::EnsureBtcTxid(TxLabel::Cancel, setup.cancel.id()),
            Op::EnsureBtcTxid(TxLabel::Refund, setup.refund.id()),
            Op::MarkMoneroHeight,
            Op::CheckpointAt(Some(Msg::CoreArbitratingSetup(setup)), next),
            Op::SendPeer(Msg::CoreArbitratingSetup(setup)),
        ],
        End::Next(next),
    )
}

fn set_up_bob(
    local_params: Params,
    remote_params: Params,
    funding_address: BitcoinAddress,
    wallet: Wallet,
    bob_reveal: Option<Reveal>,
    setup: crate::message::CoreArbitratingSetup,
) -> (r: Plan)
    ensures
        r@ == bob_set_up(local_params, remote_params, funding_address, wallet, bob_reveal, setup),
{
    let ghost expected = bob_set_up(
        local_params,
        remote_params,
        funding_address,
        wallet,
        bob_reveal,
        setup,
    );
    let mut ops: Vec<Op> = Vec::new();
    if let Some(bob_reveal) = bob_reveal {
        ops.push(Op::SendPeer(Msg::Reveal(bob_reveal)));
    }
    ops.push(Op::EnsureBtcTxid(TxLabel::Lock, setup.lock.txid()));
    ops.push(Op::EnsureBtcTxid(TxLabel::Cancel, setup.cancel.txid()));
    ops.push(Op::EnsureBtcTxid(TxLabel::Refund, setup.refund.txid()));
    ops.push(Op::MarkMoneroHeight);
    let next = BobFunded { local_params, funding_address, remote_params, wallet };
    ops.push(
        Op::CheckpointAt(
            Some(Msg::CoreArbitratingSetup(setup.clone())),
            SwapStateMachine::BobFunded(next.clone()),
        ),
    );
    ops.push(Op::SendPeer(Msg::CoreArbitratingSetup(setup)));
    assert(ops@ =~= expected.ops);
    Plan { ops, end: End::Next(SwapStateMachine::BobFunded(next)) }
}

/// Bob is funded and waits for Alice's refund procedure signatures. Should he find the
/// swap cancelled, it is.
pub open spec fn from_bob_funded(rt: RuntimeView, event: Event, s: BobFunded) -> PlanView {
    match event.request {
        Request::Protocol(Msg::RefundProcedureSignatures(signatures)) => plain(
            End::Ask(
                WalletCall::RefundProcedureSignatures {
                    wallet: s.wallet,
                    signatures,
                    swap_id: rt.swap_id,
                },
                Pending::BobRefundSignatures {
                    local_params: s.local_params,
                    remote_params: s.remote_params,
                    funding_address: s.funding_address,
                },
            ),
        ),
        Request::AbortSwap => bob_abort_swap(rt, event.source, s.wallet, s.funding_address),
        _ => match confs_in(event.request) {
            Some((id, _)) => if bears(rt.syncer.watched_txs, id, TxLabel::Cancel) {
                plain(End::Next(SwapStateMachine::BobCanceled))
            } else {
                plain(End::Stay)
            },
            None => plain(End::Stay),
        },
    }
}

pub fn try_bob_funded_to_bob_refund_procedure_signature(rt: &Runtime, event: &Event, s: BobFunded) -> (r:
    Plan)
    ensures
        r@ == from_bob_funded(rt@, *event, s),
{
    match &event.request {
        Request::Protocol(Msg::RefundProcedureSignatures(signatures)) => just(
            End::Ask(
                WalletCall::RefundProcedureSignatures {
                    wallet: s.wallet,
                    signatures: signatures.clone(),
                    swap_id: rt.swap_id,
                },
                Pending::BobRefundSignatures {
                    local_params: s.local_params,
                    remote_params: s.remote_params,
                    funding_address: s.funding_address,
                },
            ),
        ),
        Request::AbortSwap => handle_bob_abort_swap(
            rt,
            event.source,
            s.wallet,
            s.funding_address,
        ),
        _ => {
            if let Some((id, _)) = read_confs(&event.request) {
                if rt.syncer_state.tx_bears(id, TxLabel::Cancel) {
                    return just(End::Next(SwapStateMachine::BobCanceled));
                }
            }
            just(End::Stay)
        },
    }
}

/// What is replayed once cancelling has become possible: the latest word on the lock
/// and on the cancel transaction.
pub open spec fn replays(rt: RuntimeView) -> Seq<Op> {
    let lock = match rt.syncer.lock_tx_confs {
        Some(c) => seq![
            Op::Replay(
                rt.bitcoin_syncer(),
                Request::SyncerEvent(SyncEvent::TransactionConfirmations(c)),
            ),
        ],
        None => seq![],
    };
    let cancel = match rt.syncer.cancel_tx_confs {
        Some(c) => seq![
            Op::Replay(
                rt.bitcoin_syncer(),
                Request::SyncerEvent(SyncEvent::TransactionConfirmations(c)),
            ),
        ],
        None => seq![],
    };
    lock + cancel
}

fn push_replays(rt: &Runtime, ops: &mut Vec<Op>)
    ensures
        final(ops)@ == old(ops)@ + replays(rt@),
{
    if let Some(c) = rt.syncer_state.lock_tx_confs {
        ops.push(
            Op::Replay(
                rt.syncer_state.bitcoin_syncer(),
                Request::SyncerEvent(SyncEvent::TransactionConfirmations(c)),
            ),
        );
    }
    if let Some(c) = rt.syncer_state.cancel_tx_confs {
        ops.push(
            Op::Replay(
                rt.syncer_state.bitcoin_syncer(),
                Request::SyncerEvent(SyncEvent::TransactionConfirmations(c)),
            ),
        );
    }
    assert(ops@ =~= old(ops)@ + replays(rt@));
}

/// The keys under which Bob watches for Alice's monero: those that the parameters
/// share, if they are Bob's and Alice's.
pub open spec fn watch_acc_lock(keys: Option<([u8; 32], [u8; 32])>) -> Seq<Op> {
    match keys {
        Some((spend, view)) => seq![Op::EnsureXmrAddr(TxLabel::AccLock, spend, view, None)],
        None => seq![],
    }
}

/// Bob locks his bitcoin: the lock is published, Alice's monero are watched for, the
/// cancel and refund transactions are kept, and a checkpoint is written. `keys` are
/// those of the monero address, unless the parameters are not the right party's.
pub open spec fn bob_locks(
    rt: RuntimeView,
    local_params: Params,
    remote_params: Params,
    funding_address: BitcoinAddress,
    wallet: Wallet,
    buy_procedure_signature: BuyProcedureSignature,
    lock_tx: Transaction,
    cancel_tx: Transaction,
    refund_tx: Transaction,
    keys: Option<([u8; 32], [u8; 32])>,
) -> PlanView {
    let next = SwapStateMachine::BobRefundProcedureSignatures(
        BobRefundProcedureSignatures {
            local_params,
            funding_address,
            remote_params,
            wallet,
            buy_procedure_signature,
        },
    );
    plan(
        seq![Op::Broadcast(lock_tx)] + watch_acc_lock(keys) + seq![
            Op::KeepTx(TxLabel::Cancel, cancel_tx),
            Op::KeepTx(TxLabel::Refund, refund_tx),
        ] + replays(rt) + seq![
            Op::EnsureBtcTxid(TxLabel::Buy, buy_procedure_signature.buy.id()),
            Op::CheckpointAt(None, next),
        ],
        End::Next(next),
    )
}

/// Locks Bob's bitcoin.
pub fn lock_bob(
    rt: &Runtime,
    local_params: Params,
    remote_params: Params,
    funding_address: BitcoinAddress,
    wallet: Wallet,
    buy_procedure_signature: BuyProcedureSignature,
    lock_tx: Transaction,
    cancel_tx: Transaction,
    refund_tx: Transaction,
    keys: Option<([u8; 32], [u8; 32])>,
) -> (r: Plan)
    ensures
        r@ == bob_locks(
            rt@,
            local_params,
            remote_params,
            funding_address,
            wallet,
            buy_procedure_signature,
            lock_tx,
            cancel_tx,
            refund_tx,
            keys,
        ),
{
    let ghost expected = bob_locks(
        rt@,
        local_params,
        remote_params,
        funding_address,
        wallet,
        buy_procedure_signature,
        lock_tx,
        cancel_tx,
        refund_tx,
        keys,
    );
    let mut ops: Vec<Op> = Vec::new();
    ops.push(Op::Broadcast(lock_tx));
    if let Some((spend, view)) = keys {
        ops.push(Op::EnsureXmrAddr(TxLabel::AccLock, spend, view, None));
    }
    ops.push(Op::KeepTx(TxLabel::Cancel, cancel_tx));
    ops.push(Op::KeepTx(TxLabel::Refund, refund_tx));
    assert(ops@ =~= seq![Op::Broadcast(lock_tx)] + watch_acc_lock(keys) + seq![
        Op::KeepTx(TxLabel::Cancel, cancel_tx),
        Op::KeepTx(TxLabel::Refund, refund_tx),
    ]);
    push_replays(rt, &mut ops);
    ops.push(Op::EnsureBtcTxid(TxLabel::Buy, buy_procedure_signature.buy.txid()));
    let next = BobRefundProcedureSignatures {
        local_params,
        funding_address,
        remote_params,
        wallet,
        buy_procedure_signature,
    };
    ops.push(
        Op::CheckpointAt(
            None,
            SwapStateMachine::BobRefundProcedureSignatures(next.clone()),
        ),
    );
    assert(ops@ =~= expected.ops);
    Plan { ops, end: End::Next(SwapStateMachine::BobRefundProcedureSignatures(next)) }
}

/// The payment to the watched monero address in a request.
pub open spec fn acc_lock_in(rt: RuntimeView, request: Request) -> Option<AddressTransaction> {
    match request {
        Request::SyncerEvent(SyncEvent::AddressTransaction(a)) => if bears(
            rt.syncer.watched_addrs,
            a.id,
            TxLabel::AccLock,
        ) {
            Some(a)
        } else {
            None
        },
        _ => None,
    }
}

/// Bob has locked and waits for Alice's monero.
pub open spec fn from_bob_refund_procedure_signatures(
    rt: RuntimeView,
    event: Event,
    s: BobRefundProcedureSignatures,
) -> PlanView {
    match acc_lock_in(rt, event.request) {
        Some(a) => if a.amount < rt.syncer.monero_amount {
            plain(End::Stay)
        } else {
            plan(
                seq![
                    Op::UnwatchAddr(a.id),
                    Op::EnsureXmrTx(TxLabel::AccLock, a.hash),
                    order_xmr(rt, abort_one(a.id)),
                ],
                End::Next(
                    SwapStateMachine::BobAccordantLock(
                        BobAccordantLock {
                            local_params: s.local_params,
                            funding_address: s.funding_address,
                            remote_params: s.remote_params,
                            wallet: s.wallet,
                            buy_procedure_signature: s.buy_procedure_signature,
                        },
                    ),
                ),
            )
        },
        None => bob_interrupt(rt, event),
    }
}

pub fn try_bob_refund_procedure_signatures_to_bob_accordant_lock(
    rt: &Runtime,
    event: &Event,
    s: BobRefundProcedureSignatures,
) -> (r: Plan)
    ensures
        r@ == from_bob_refund_procedure_signatures(rt@, *event, s),
{
    let ghost expected = from_bob_refund_procedure_signatures(rt@, *event, s);
    if let Request::SyncerEvent(SyncEvent::AddressTransaction(a)) = &event.request {
        if rt.syncer_state.addr_bears(a.id, TxLabel::AccLock) {
            if a.amount < rt.syncer_state.monero_amount {
                return just(End::Stay);
            }
            let ops = vec![
                Op::UnwatchAddr(a.id),
                Op::EnsureXmrTx(TxLabel::AccLock, a.hash.clone()),
                xmr_order(rt, abort_task(a.id)),
            ];
            assert(ops@ =~= expected.ops);
            return Plan {
                ops,
                end: End::Next(
                    SwapStateMachine::BobAccordantLock(
                        BobAccordantLock {
                            local_params: s.local_params,
                            funding_address: s.funding_address,
                            remote_params: s.remote_params,
                            wallet: s.wallet,
                            buy_procedure_signature: s.buy_procedure_signature,
                        },
                    ),
                ),
            };
        }
    }
    handle_bob_swap_interrupt_after_lock(rt, event)
}

/// Bob has seen Alice's monero and waits until they are final.
pub open spec fn from_bob_accordant_lock(rt: RuntimeView, event: Event, s: BobAccordantLock) -> PlanView {
    match confs_in(event.request) {
        Some((id, c)) => if rt.temporal_safety.final_tx(c, Blockchain::Monero) && bears(
            rt.syncer.watched_txs,
            id,
            TxLabel::AccLock,
        ) {
            plan(
                seq![Op::SendPeer(Msg::BuyProcedureSignature(s.buy_procedure_signature))],
                End::Next(
                    SwapStateMachine::BobAccordantLockFinal(
                        BobAccordantLockFinal {
                            local_params: s.local_params,
                            funding_address: s.funding_address,
                            remote_params: s.remote_params,
                            wallet: s.wallet,
                        },
                    ),
                ),
            )
        } else {
            bob_interrupt(rt, event)
        },
        None => bob_interrupt(rt, event),
    }
}

pub fn try_bob_accordant_lock_to_bob_accordant_lock_final(
    rt: &Runtime,
    event: &Event,
    s: BobAccordantLock,
) -> (r: Plan)
    ensures
        r@ == from_bob_accordant_lock(rt@, *event, s),
{
    let ghost expected = from_bob_accordant_lock(rt@, *event, s);
    if let Some((id, c)) = read_confs(&event.request) {
        if rt.temporal_safety.final_tx(c, Blockchain::Monero) && rt.syncer_state.tx_bears(
            id,
            TxLabel::AccLock,
        ) {
            let ops = vec![Op::SendPeer(Msg::BuyProcedureSignature(s.buy_procedure_signature))];
            assert(ops@ =~= expected.ops);
            return Plan {
                ops,
                end: End::Next(
                    SwapStateMachine::BobAccordantLockFinal(
                        BobAccordantLockFinal {
                            local_params: s.local_params,
                            funding_address: s.funding_address,
                            remote_params: s.remote_params,
                            wallet: s.wallet,
                        },
                    ),
                ),
            };
        }
    }
    handle_bob_swap_interrupt_after_lock(rt, event)
}

/// Whether a task retrieves the transaction that bears the label.
pub open spec fn retrieves(rt: RuntimeView, id: TaskId, label: TxLabel) -> bool {
    rt.syncer.retrieving_txs.dom().contains(id) && rt.syncer.retrieving_txs[id].0 == label
}

fn is_retrieved(rt: &Runtime, id: TaskId, label: TxLabel) -> (r: bool)
    ensures
        r == retrieves(rt@, id, label),
{
    match rt.syncer_state.tasks.retrieving_txs.get(&id) {
        Some(t) => t.0 == label,
        None => false,
    }
}

/// Bob waits for Alice's buy transaction: when it is final it is retrieved, and when
/// it is retrieved the wallet finds Alice's key in it.
pub open spec fn from_bob_accordant_lock_final(
    rt: RuntimeView,
    event: Event,
    s: BobAccordantLockFinal,
) -> PlanView {
    match event.request {
        Request::SyncerEvent(SyncEvent::TransactionRetrieved { id, tx: Some(tx) }) => plan(
            seq![Op::ForgetRetrieval(id)],
            if retrieves(rt, id, TxLabel::Buy) {
                End::Ask(
                    WalletCall::BuyTx {
                        wallet: s.wallet,
                        tx,
                        swap_id: rt.swap_id,
                        from_height: rt.monero_address_creation_height,
                    },
                    Pending::BobBuyTx,
                )
            } else {
                End::Stay
            },
        ),
        _ => match confs_in(event.request) {
            Some((id, c)) => if rt.temporal_safety.final_tx(c, Blockchain::Bitcoin) && bears(
                rt.syncer.watched_txs,
                id,
                TxLabel::Buy,
            ) && rt.syncer.txids.dom().contains(TxLabel::Buy) {
                plan(
                    seq![
                        Op::NoteConfs(id, Some(c), rt.temporal_safety.btc_finality_thr),
                        Op::RetrieveTx(TxLabel::Buy),
                    ],
                    End::Next(SwapStateMachine::BobAccordantLockFinal(s)),
                )
            } else {
                bob_interrupt(rt, event)
            },
            None => bob_interrupt(rt, event),
        },
    }
}

pub fn try_bob_accordant_lock_final_to_bob_buy_final(
    rt: &Runtime,
    event: &Event,
    s: BobAccordantLockFinal,
) -> (r: Plan)
    ensures
        r@ == from_bob_accordant_lock_final(rt@, *event, s),
{
    let ghost expected = from_bob_accordant_lock_final(rt@, *event, s);
    if let Request::SyncerEvent(SyncEvent::TransactionRetrieved { id, tx: Some(tx) }) =
        &event.request {
        let ops = vec![Op::ForgetRetrieval(*id)];
        assert(ops@ =~= expected.ops);
        if is_retrieved(rt, *id, TxLabel::Buy) {
            return Plan {
                ops,
                end: End::Ask(
                    WalletCall::BuyTx {
                        wallet: s.wallet,
                        tx: tx.clone(),
                        swap_id: rt.swap_id,
                        from_height: rt.monero_address_creation_height,
                    },
                    Pending::BobBuyTx,
                ),
            };
        }
        return Plan { ops, end: End::Stay };
    }
    if let Some((id, c)) = read_confs(&event.request) {
        if rt.temporal_safety.final_tx(c, Blockchain::Bitcoin) && rt.syncer_state.tx_bears(
            id,
            TxLabel::Buy,
        ) && rt.syncer_state.tasks.txids.contains_key(&TxLabel::Buy) {
            let ops = vec![
                Op::NoteConfs(id, Some(c), rt.temporal_safety.btc_finality_thr),
                Op::RetrieveTx(TxLabel::Buy),
            ];
            assert(ops@ =~= expected.ops);
            return Plan { ops, end: End::Next(SwapStateMachine::BobAccordantLockFinal(s)) };
        }
    }
    handle_bob_swap_interrupt_after_lock(rt, event)
}

/// The monero can be swept when some watched transaction is deep enough.
pub open spec fn awaits_sweep(
    rt: RuntimeView,
    event: Event,
    sweep: SweepAddress,
    next: SwapStateMachine,
) -> PlanView {
    match confs_in(event.request) {
        Some((_, c)) => if rt.temporal_safety.sweep_monero_thr <= c {
            plan(seq![order_xmr(rt, Task::SweepAddress(sweep))], End::Next(next))
        } else {
            plain(End::Stay)
        },
        None => plain(End::Stay),
    }
}

fn await_sweep(rt: &Runtime, event: &Event, sweep: SweepAddress, next: SwapStateMachine) -> (r: Plan)
    ensures
        r@ == awaits_sweep(rt@, *event, sweep, next),
{
    let ghost expected = awaits_sweep(rt@, *event, sweep, next);
    if let Some((_, c)) = read_confs(&event.request) {
        if c >= rt.temporal_safety.sweep_monero_thr {
            let ops = vec![xmr_order(rt, Task::SweepAddress(sweep))];
            assert(ops@ =~= expected.ops);
            return Plan { ops, end: End::Next(next) };
        }
    }
    just(End::Stay)
}

pub fn try_bob_buy_final_to_bob_buy_sweeping(rt: &Runtime, event: &Event, task: SweepAddress) -> (r:
    Plan)
    ensures
        r@ == awaits_sweep(rt@, *event, task, SwapStateMachine::BobBuySweeping),
{
    await_sweep(rt, event, task, SwapStateMachine::BobBuySweeping)
}

/// The swap is over when the sweep that is under way has succeeded. Funding that was
/// never reported complete is reported now.
pub open spec fn swept(
    rt: RuntimeView,
    event: Event,
    funded: Blockchain,
    outcome: Outcome,
) -> PlanView {
    match event.request {
        Request::SyncerEvent(SyncEvent::SweepSuccess { id }) => if rt.syncer.sweeping_addr == Some(
            id,
        ) {
            let reported = if rt.syncer.awaiting_funding {
                seq![
                    Op::AwaitFunding(false),
                    to_farcasterd(Request::FundingCompleted(funded)),
                ]
            } else {
                seq![]
            };
            plan(reported + wind_up(rt), End::Next(SwapStateMachine::SwapEnd(outcome)))
        } else {
            plain(End::Stay)
        },
        _ => plain(End::Stay),
    }
}

fn is_sweeping(rt: &Runtime, id: TaskId) -> (r: bool)
    ensures
        r == (rt@.syncer.sweeping_addr == Some(id)),
{
    match rt.syncer_state.tasks.sweeping_addr {
        Some(i) => i == id,
        None => false,
    }
}

fn after_sweep(rt: &Runtime, event: &Event, funded: Blockchain, outcome: Outcome) -> (r: Plan)
    ensures
        r@ == swept(rt@, *event, funded, outcome),
{
    let ghost expected = swept(rt@, *event, funded, outcome);
    if let Request::SyncerEvent(SyncEvent::SweepSuccess { id }) = &event.request {
        if is_sweeping(rt, *id) {
            let mut ops: Vec<Op> = Vec::new();
            if rt.syncer_state.awaiting_funding {
                ops.push(Op::AwaitFunding(false));
                ops.push(farcasterd(Request::FundingCompleted(funded)));
            }
            push_wind_up(rt, &mut ops);
            assert(ops@ =~= expected.ops);
            return Plan { ops, end: End::Next(SwapStateMachine::SwapEnd(outcome)) };
        }
    }
    just(End::Stay)
}

pub fn try_bob_buy_sweeping_to_swap_end(rt: &Runtime, event: &Event) -> (r: Plan)
    ensures
        r@ == swept(rt@, *event, Blockchain::Bitcoin, Outcome::SuccessSwap),
{
    after_sweep(rt, event, Blockchain::Bitcoin, Outcome::SuccessSwap)
}

pub fn try_alice_refund_sweeping_to_swap_end(rt: &Runtime, event: &Event) -> (r: Plan)
    ensures
        r@ == swept(rt@, *event, Blockchain::Monero, Outcome::FailureRefund),
{
    after_sweep(rt, event, Blockchain::Monero, Outcome::FailureRefund)
}

/// Bob has seen the cancel transaction: when it is final, and nobody has bought, he
/// takes his refund.
pub open spec fn from_bob_canceled(rt: RuntimeView, event: Event) -> PlanView {
    match confs_in(event.request) {
        Some((id, c)) => if rt.temporal_safety.final_tx(c, Blockchain::Bitcoin) && bears(
            rt.syncer.watched_txs,
            id,
            TxLabel::Cancel,
        ) && rt.syncer.buy_tx_confs is None && rt.txs.dom().contains(TxLabel::Refund) {
            plan(
                seq![
                    Op::NoteConfs(id, Some(c), rt.temporal_safety.btc_finality_thr),
                    Op::DropTx(TxLabel::Refund),
                    Op::Broadcast(rt.txs[TxLabel::Refund]),
                ],
                End::Next(SwapStateMachine::BobCancelFinal),
            )
        } else {
            plain(End::Stay)
        },
        None => plain(End::Stay),
    }
}

pub fn try_bob_canceled_to_bob_cancel_final(rt: &Runtime, event: &Event) -> (r: Plan)
    ensures
        r@ == from_bob_canceled(rt@, *event),
{
    let ghost expected = from_bob_canceled(rt@, *event);
    if let Some((id, c)) = read_confs(&event.request) {
        if rt.temporal_safety.final_tx(c, Blockchain::Bitcoin) && rt.syncer_state.tx_bears(
            id,
            TxLabel::Cancel,
        ) && rt.syncer_state.buy_tx_confs.is_none() {
            if let Some(tx) = rt.txs.get(&TxLabel::Refund) {
                let ops = vec![
                    Op::NoteConfs(id, Some(c), rt.temporal_safety.btc_finality_thr),
                    Op::DropTx(TxLabel::Refund),
                    Op::Broadcast(tx.clone()),
                ];
                assert(ops@ =~= expected.ops);
                return Plan { ops, end: End::Next(SwapStateMachine::BobCancelFinal) };
            }
        }
    }
    just(End::Stay)
}

/// Whether a request reports a payment to the watched address of Bob's refund.
pub open spec fn refund_paid_in(rt: RuntimeView, request: Request) -> bool {
    request matches Request::SyncerEvent(SyncEvent::AddressTransaction(a)) && bears(
        rt.syncer.watched_addrs,
        a.id,
        TxLabel::Refund,
    )
}

/// Bob waits until his refund is final, or until its address is seen paid.
pub open spec fn from_bob_cancel_final(rt: RuntimeView, event: Event) -> PlanView {
    match confs_in(event.request) {
        Some((id, c)) => if rt.temporal_safety.final_tx(c, Blockchain::Bitcoin) && bears(
            rt.syncer.watched_txs,
            id,
            TxLabel::Refund,
        ) {
            plan(
                seq![Op::NoteConfs(id, Some(c), rt.temporal_safety.btc_finality_thr)] + wind_up(
                    rt,
                ),
                End::Next(SwapStateMachine::SwapEnd(Outcome::FailureRefund)),
            )
        } else {
            plain(End::Stay)
        },
        None => if refund_paid_in(rt, event.request) {
            plan(wind_up(rt), End::Next(SwapStateMachine::SwapEnd(Outcome::FailureRefund)))
        } else {
            plain(End::Stay)
        },
    }
}

pub fn try_bob_cancel_final_to_swap_end(rt: &Runtime, event: &Event) -> (r: Plan)
    ensures
        r@ == from_bob_cancel_final(rt@, *event),
{
    let ghost expected = from_bob_cancel_final(rt@, *event);
    if let Some((id, c)) = read_confs(&event.request) {
        if rt.temporal_safety.final_tx(c, Blockchain::Bitcoin) && rt.syncer_state.tx_bears(
            id,
            TxLabel::Refund,
        ) {
            let mut ops = vec![Op::NoteConfs(id, Some(c), rt.temporal_safety.btc_finality_thr)];
            push_wind_up(rt, &mut ops);
            assert(ops@ =~= expected.ops);
            return Plan {
                ops,
                end: End::Next(SwapStateMachine::SwapEnd(Outcome::FailureRefund)),
            };
        }
    }
    if let Request::SyncerEvent(SyncEvent::AddressTransaction(a)) = &event.request {
        if rt.syncer_state.addr_bears(a.id, TxLabel::Refund) {
            let mut ops: Vec<Op> = Vec::new();
            push_wind_up(rt, &mut ops);
            assert(ops@ =~= expected.ops);
            return Plan {
                ops,
                end: End::Next(SwapStateMachine::SwapEnd(Outcome::FailureRefund)),
            };
        }
    }
    just(End::Stay)
}

/// The task whose end ends Bob's abort: the sweep succeeded, or it was given up.
pub open spec fn sweep_over(rt: RuntimeView, request: Request) -> bool {
    match request {
        Request::SyncerEvent(SyncEvent::TaskAborted { ids }) => ids@.len() == 1
            && rt.syncer.sweeping_addr == Some(ids@[0]),
        Request::SyncerEvent(SyncEvent::SweepSuccess { id }) => rt.syncer.sweeping_addr == Some(id),
        _ => false,
    }
}

/// Bob aborts and waits until the sweep of the funding address is over.
pub open spec fn from_awaiting_sweep(rt: RuntimeView, event: Event) -> PlanView {
    if sweep_over(rt, event.request) {
        plan(
            seq![to_farcasterd(Request::FundingCanceled(Blockchain::Bitcoin))] + abort_swap(
                event.source,
            ).ops,
            abort_swap(event.source).end,
        )
    } else {
        plain(End::Stay)
    }
}

pub fn try_awaiting_sweep_to_swap_end(rt: &Runtime, event: &Event) -> (r: Plan)
    ensures
        r@ == from_awaiting_sweep(rt@, *event),
{
    let over = match &event.request {
        Request::SyncerEvent(SyncEvent::TaskAborted { ids }) => ids.len() == 1 && is_sweeping(
            rt,
            ids[0],
        ),
        Request::SyncerEvent(SyncEvent::SweepSuccess { id }) => is_sweeping(rt, *id),
        _ => false,
    };
    if over {
        let r = Plan {
            ops: vec![
                farcasterd(Request::FundingCanceled(Blockchain::Bitcoin)),
                Op::Send(ServiceBus::Ctl, event.source, Request::Info(Notice::AbortedSwap)),
            ],
            end: End::Next(SwapStateMachine::SwapEnd(Outcome::FailureAbort)),
        };
        assert(r@.ops =~= from_awaiting_sweep(rt@, *event).ops);
        r
    } else {
        just(End::Stay)
    }
}

/// Alice has both parties' parameters and waits for Bob's transactions, which she has
/// watched from the moment she knows them.
pub open spec fn from_alice_reveal(rt: RuntimeView, event: Event, s: AliceReveal) -> PlanView {
    match event.request {
        Request::Protocol(Msg::CoreArbitratingSetup(setup)) => plan(
            seq![
                Op::EnsureBtcTxid(TxLabel::Lock, setup.lock.id()),
                Op::EnsureBtcTxid(TxLabel::Cancel, setup.cancel.id()),
                Op::EnsureBtcTxid(TxLabel::Refund, setup.refund.id()),
            ],
            End::Ask(
                WalletCall::CoreArbitratingSetup {
                    wallet: s.wallet,
                    setup,
                    swap_id: rt.swap_id,
                },
                Pending::AliceSetup {
                    local_params: s.local_params,
                    remote_params: s.remote_params,
                },
            ),
        ),
        Request::AbortSwap => abort_swap(event.source),
        _ => plain(End::Stay),
    }
}

pub fn try_alice_reveal_to_alice_core_arbitrating_setup(rt: &Runtime, event: &Event, s: AliceReveal) -> (r:
    Plan)
    ensures
        r@ == from_alice_reveal(rt@, *event, s),
{
    let ghost expected = from_alice_reveal(rt@, *event, s);
    match &event.request {
        Request::Protocol(Msg::CoreArbitratingSetup(setup)) => {
            let ops = vec![
                Op::EnsureBtcTxid(TxLabel::Lock, setup.lock.txid()),
                Op::EnsureBtcTxid(TxLabel::Cancel, setup.cancel.txid()),
                Op::EnsureBtcTxid(TxLabel::Refund, setup.refund.txid()),
            ];
            assert(ops@ =~= expected.ops);
            Plan {
                ops,
                end: End::Ask(
                    WalletCall::CoreArbitratingSetup {
                        wallet: s.wallet,
                        setup: setup.clone(),
                        swap_id: rt.swap_id,
                    },
                    Pending::AliceSetup {
                        local_params: s.local_params,
                        remote_params: s.remote_params,
                    },
                ),
            }
        },
        Request::AbortSwap => handle_abort_swap(event.source),
        _ => just(End::Stay),
    }
}

/// Alice's signatures are ready: she keeps what she may have to publish, writes a
/// checkpoint and sends them.
pub open spec fn alice_set_up(
    rt: RuntimeView,
    local_params: Params,
    remote_params: Params,
    wallet: Wallet,
    signatures: crate::crypto::Sealed,
    cancel_tx: Transaction,
    punish_tx: Transaction,
) -> PlanView {
    let next = SwapStateMachine::AliceCoreArbitratingSetup(
        AliceCoreArbitratingSetup { local_params, remote_params, wallet },
    );
    plan(
        seq![Op::KeepTx(TxLabel::Cancel, cancel_tx), Op::KeepTx(TxLabel::Punish, punish_tx)]
            + replays(rt) + seq![
            Op::CheckpointAt(Some(Msg::RefundProcedureSignatures(signatures)), next),
            Op::SendPeer(Msg::RefundProcedureSignatures(signatures)),
        ],
        End::Next(next),
    )
}

fn set_up_alice(
    rt: &Runtime,
    local_params: Params,
    remote_params: Params,
    wallet: Wallet,
    signatures: crate::crypto::Sealed,
    cancel_tx: Transaction,
    punish_tx: Transaction,
) -> (r: Plan)
    ensures
        r@ == alice_set_up(
            rt@,
            local_params,
            remote_params,
            wallet,
            signatures,
            cancel_tx,
            punish_tx,
        ),
{
    let ghost expected = alice_set_up(
        rt@,
        local_params,
        remote_params,
        wallet,
        signatures,
        cancel_tx,
        punish_tx,
    );
    let mut ops = vec![
        Op::KeepTx(TxLabel::Cancel, cancel_tx),
        Op::KeepTx(TxLabel::Punish, punish_tx),
    ];
    assert(ops@ =~= seq![
        Op::KeepTx(TxLabel::Cancel, cancel_tx),
        Op::KeepTx(TxLabel::Punish, punish_tx),
    ]);
    push_replays(rt, &mut ops);
    let next = AliceCoreArbitratingSetup { local_params, remote_params, wallet };
    ops.push(
        Op::CheckpointAt(
            Some(Msg::RefundProcedureSignatures(signatures.clone())),
            SwapStateMachine::AliceCoreArbitratingSetup(next.clone()),
        ),
    );
    ops.push(Op::SendPeer(Msg::RefundProcedureSignatures(signatures)));
    assert(ops@ =~= expected.ops);
    Plan { ops, end: End::Next(SwapStateMachine::AliceCoreArbitratingSetup(next)) }
}

/// Bob's lock is final, and the monero address is known by its keys: Alice has it
/// watched from the height at which it came into being.
pub open spec fn alice_sees_lock(
    rt: RuntimeView,
    wallet: Wallet,
    spend: [u8; 32],
    view: [u8; 32],
    address: MoneroAddress,
) -> PlanView {
    let height = match rt.monero_address_creation_height {
        Some(h) => h,
        None => rt.syncer.height(Blockchain::Monero),
    };
    plan(
        seq![
            Op::MarkMoneroHeight,
            Op::EnsureXmrAddr(TxLabel::AccLock, spend, view, Some(height)),
        ],
        End::Next(
            SwapStateMachine::AliceArbitratingLockFinal(
                AliceArbitratingLockFinal {
                    wallet,
                    funding_info: MoneroFundingInfo {
                        swap_id: rt.swap_id,
                        address,
                        amount: rt.syncer.monero_amount,
                    },
                    required_funding_amount: rt.syncer.monero_amount,
                },
            ),
        ),
    )
}

/// Has the monero address watched.
pub fn see_lock(
    rt: &Runtime,
    wallet: Wallet,
    spend: [u8; 32],
    view: [u8; 32],
    address: MoneroAddress,
) -> (r: Plan)
    ensures
        r@ == alice_sees_lock(rt@, wallet, spend, view, address),
{
    let height: u64 = match rt.monero_address_creation_height {
        Some(h) => h,
        None => rt.syncer_state.height(Blockchain::Monero),
    };
    let ops = vec![
        Op::MarkMoneroHeight,
        Op::EnsureXmrAddr(TxLabel::AccLock, spend, view, Some(height)),
    ];
    assert(ops@ =~= alice_sees_lock(rt@, wallet, spend, view, address).ops);
    Plan {
        ops,
        end: End::Next(
            SwapStateMachine::AliceArbitratingLockFinal(
                AliceArbitratingLockFinal {
                    wallet,
                    funding_info: MoneroFundingInfo {
                        swap_id: rt.swap_id,
                        address,
                        amount: rt.syncer_state.monero_amount,
                    },
                    required_funding_amount: rt.syncer_state.monero_amount,
                },
            ),
        ),
    }
}

/// Whether a request says that the lock transaction is final.
pub open spec fn lock_final_in(rt: RuntimeView, request: Request) -> bool {
    confs_in(request) matches Some((id, c)) && rt.temporal_safety.final_tx(c, Blockchain::Bitcoin)
        && bears(rt.syncer.watched_txs, id, TxLabel::Lock)
}

/// Whether a reaction is Alice's to a final lock, given both parties' parameters.
pub open spec fn reads_keys(
    rt: RuntimeView,
    alice: Blob,
    bob: Blob,
    wallet: Wallet,
    r: PlanView,
) -> bool {
    ||| r == plain(End::Fail(Error::MalformedParameters)) && (aggregates(
        None,
        rt.swap_id,
        alice,
        bob,
    ) || exists|spend: [u8; 32], view: [u8; 32]|
        {
            &&& #[trigger] aggregates(Some((spend, view)), rt.swap_id, alice, bob)
            &&& viewpair_address(rt.syncer.network, spend@, view@) is None
        })
    ||| exists|spend: [u8; 32], view: [u8; 32], address: MoneroAddress|
        {
            &&& aggregates(Some((spend, view)), rt.swap_id, alice, bob)
            &&& viewpair_address(rt.syncer.network, spend@, view@) == Some(address.0@)
            &&& r == #[trigger] alice_sees_lock(rt, wallet, spend, view, address)
        }
}

/// Alice has signed and waits for Bob's lock to become final.
pub fn try_alice_core_arbitrating_setup_to_alice_arbitrating_lock_final(
    rt: &Runtime,
    event: &Event,
    s: AliceCoreArbitratingSetup,
) -> (r: Plan)
    ensures
        if lock_final_in(rt@, event.request) {
            match (s.local_params, s.remote_params) {
                (Params::Alice(alice), Params::Bob(bob)) => reads_keys(
                    rt@,
                    alice,
                    bob,
                    s.wallet,
                    r@,
                ),
                _ => r@ == plain(End::Stay),
            }
        } else {
            r@ == alice_interrupt(rt@, *event, s.wallet)
        },
{
    if let Some((id, c)) = read_confs(&event.request) {
        if rt.temporal_safety.final_tx(c, Blockchain::Bitcoin) && rt.syncer_state.tx_bears(
            id,
            TxLabel::Lock,
        ) {
            return match (&s.local_params, &s.remote_params) {
                (Params::Alice(alice), Params::Bob(bob)) => {
                    match aggregate_xmr_spend_view(rt.swap_id, alice, bob) {
                        Some((spend, view)) => {
                            match lock_address(rt.syncer_state.network, &spend, &view) {
                                Some(address) => see_lock(rt, s.wallet, spend, view, address),
                                None => {
                                    assert(aggregates(
                                        Some((spend, view)),
                                        rt@.swap_id,
                                        *alice,
                                        *bob,
                                    ));
                                    just(End::Fail(Error::MalformedParameters))
                                },
                            }
                        },
                        None => just(End::Fail(Error::MalformedParameters)),
                    }
                },
                _ => just(End::Stay),
            };
        }
    }
    handle_alice_swap_interrupt_afer_lock(rt, event, s.wallet)
}

/// The word to the client about monero of the wrong amount.
pub open spec fn funding_notice(required: u64, funded: u64) -> Option<Notice> {
    if funded < required {
        Some(Notice::TooSmallFunding { required, funded })
    } else if funded > required {
        Some(Notice::TooBigFunding { required, funded })
    } else {
        None
    }
}

/// Alice's monero were seen in a payment: the transaction is watched in place of the
/// address. Too little is taken in the hope that Bob passes on his signature; with
/// too much the buy shall not go through, so the swap counts as cancelled.
pub open spec fn alice_sees_acc_lock(
    rt: RuntimeView,
    s: AliceArbitratingLockFinal,
    a: AddressTransaction,
) -> PlanView {
    let watch = order_xmr(rt, rt.syncer.tx_task(Blockchain::Monero, TxHash::Monero(a.hash)));
    let watched = if watches(rt.syncer.watched_txs, TxLabel::AccLock) {
        seq![]
    } else if rt.syncer.awaiting_funding {
        seq![
            Op::BookTx(rt.syncer.next_id(), TxLabel::AccLock),
            to_farcasterd(Request::FundingCompleted(Blockchain::Monero)),
            Op::AwaitFunding(false),
            watch,
        ]
    } else {
        seq![Op::BookTx(rt.syncer.next_id(), TxLabel::AccLock), watch]
    };
    let reported = match funding_notice(s.required_funding_amount, a.amount) {
        Some(notice) => seq![Op::Report(rt.enquirer, notice)],
        None => seq![],
    };
    plan(
        watched + seq![Op::UnwatchAddr(a.id), order_xmr(rt, abort_one(a.id))] + reported,
        if a.amount > s.required_funding_amount {
            End::Next(SwapStateMachine::AliceCanceled(AliceCanceled { wallet: s.wallet }))
        } else {
            End::Next(
                SwapStateMachine::AliceAccordantLock(AliceAccordantLock { wallet: s.wallet }),
            )
        },
    )
}

fn see_acc_lock(rt: &Runtime, s: AliceArbitratingLockFinal, a: &AddressTransaction) -> (r: Plan)
    requires
        rt.syncer_state.tasks.counter < u32::MAX,
    ensures
        r@ == alice_sees_acc_lock(rt@, s, *a),
{
    let ghost expected = alice_sees_acc_lock(rt@, s, *a);
    let mut ops: Vec<Op> = Vec::new();
    if !rt.syncer_state.is_watched_tx(TxLabel::AccLock) {
        let id = TaskId(rt.syncer_state.tasks.counter + 1);
        let task = Task::WatchTransaction {
            id,
            lifetime: rt.syncer_state.task_lifetime(Blockchain::Monero),
            hash: TxHash::Monero(a.hash.clone()),
            confirmation_bound: rt.syncer_state.confirmation_bound,
        };
        ops.push(Op::BookTx(id, TxLabel::AccLock));
        if rt.syncer_state.awaiting_funding {
            ops.push(farcasterd(Request::FundingCompleted(Blockchain::Monero)));
            ops.push(Op::AwaitFunding(false));
        }
        ops.push(xmr_order(rt, task));
    }
    ops.push(Op::UnwatchAddr(a.id));
    ops.push(xmr_order(rt, abort_task(a.id)));
    let required: u64 = s.required_funding_amount;
    if a.amount < required {
        ops.push(
            Op::Report(rt.enquirer, Notice::TooSmallFunding { required, funded: a.amount }),
        );
    } else if a.amount > required {
        ops.push(Op::Report(rt.enquirer, Notice::TooBigFunding { required, funded: a.amount }));
    }
    assert(ops@ =~= expected.ops);
    let next = if a.amount > required {
        SwapStateMachine::AliceCanceled(AliceCanceled { wallet: s.wallet })
    } else {
        SwapStateMachine::AliceAccordantLock(AliceAccordantLock { wallet: s.wallet })
    };
    Plan { ops, end: End::Next(next) }
}

/// The empty watched monero address in a request.
pub open spec fn empty_in(rt: RuntimeView, request: Request) -> bool {
    request matches Request::SyncerEvent(SyncEvent::Empty(id)) && bears(
        rt.syncer.watched_addrs,
        id,
        TxLabel::AccLock,
    )
}

/// Bob's lock is final, and Alice's monero are waited for. While the address is empty
/// the client is asked for funds; when the lock grows too old they are no longer
/// wanted.
pub open spec fn from_alice_arbitrating_lock_final(
    rt: RuntimeView,
    event: Event,
    s: AliceArbitratingLockFinal,
) -> PlanView {
    if empty_in(rt, event.request) {
        let asked = match rt.enquirer {
            Some(enquirer) => seq![
                Op::Send(
                    ServiceBus::Ctl,
                    enquirer,
                    Request::FundingInfo(FundingInfo::Monero(s.funding_info)),
                ),
            ],
            None => seq![],
        };
        plan(
            seq![Op::AwaitFunding(true)] + asked,
            End::Next(SwapStateMachine::AliceArbitratingLockFinal(s)),
        )
    } else {
        match acc_lock_in(rt, event.request) {
            Some(a) => alice_sees_acc_lock(rt, s, a),
            None => match confs_in(event.request) {
                Some((id, c)) => if rt.temporal_safety.final_tx(c, Blockchain::Bitcoin) && bears(
                    rt.syncer.watched_txs,
                    id,
                    TxLabel::Lock,
                ) && rt.temporal_safety.stop_funding_before_cancel(c)
                    && rt.syncer.awaiting_funding {
                    plan(
                        seq![
                            to_farcasterd(Request::FundingCanceled(Blockchain::Monero)),
                            Op::AwaitFunding(false),
                        ],
                        End::Next(SwapStateMachine::AliceArbitratingLockFinal(s)),
                    )
                } else {
                    alice_interrupt(rt, event, s.wallet)
                },
                None => alice_interrupt(rt, event, s.wallet),
            },
        }
    }
}

pub fn try_alice_arbitrating_lock_final_to_alice_accordant_lock(
    rt: &Runtime,
    event: &Event,
    s: AliceArbitratingLockFinal,
) -> (r: Plan)
    requires
        rt.syncer_state.tasks.counter < u32::MAX,
    ensures
        r@ == from_alice_arbitrating_lock_final(rt@, *event, s),
{
    let ghost expected = from_alice_arbitrating_lock_final(rt@, *event, s);
    if let Request::SyncerEvent(SyncEvent::Empty(id)) = &event.request {
        if rt.syncer_state.addr_bears(*id, TxLabel::AccLock) {
            let mut ops: Vec<Op> = vec![Op::AwaitFunding(true)];
            if let Some(enquirer) = rt.enquirer {
                ops.push(
                    Op::Send(
                        ServiceBus::Ctl,
                        enquirer,
                        Request::FundingInfo(FundingInfo::Monero(s.funding_info)),
                    ),
                );
            }
            assert(ops@ =~= expected.ops);
            return Plan { ops, end: End::Next(SwapStateMachine::AliceArbitratingLockFinal(s)) };
        }
    }
    if let Request::SyncerEvent(SyncEvent::AddressTransaction(a)) = &event.request {
        if rt.syncer_state.addr_bears(a.id, TxLabel::AccLock) {
            return see_acc_lock(rt, s, a);
        }
    }
    if let Some((id, c)) = read_confs(&event.request) {
        if rt.temporal_safety.final_tx(c, Blockchain::Bitcoin) && rt.syncer_state.tx_bears(
            id,
            TxLabel::Lock,
        ) && rt.temporal_safety.stop_funding_before_cancel(c) && rt.syncer_state.awaiting_funding {
            let ops = vec![
                farcasterd(Request::FundingCanceled(Blockchain::Monero)),
                Op::AwaitFunding(false),
            ];
            assert(ops@ =~= expected.ops);
            return Plan { ops, end: End::Next(SwapStateMachine::AliceArbitratingLockFinal(s)) };
        }
    }
    handle_alice_swap_interrupt_afer_lock(rt, event, s.wallet)
}

/// Alice has locked her monero and waits for Bob's buy procedure signature.
pub open spec fn from_alice_accordant_lock(rt: RuntimeView, event: Event, s: AliceAccordantLock) -> PlanView {
    match event.request {
        Request::Protocol(Msg::BuyProcedureSignature(signature)) => plan(
            seq![Op::EnsureBtcTxid(TxLabel::Buy, signature.buy.id())],
            End::Ask(
                WalletCall::BuyProcedureSignature {
                    wallet: s.wallet,
                    signature,
                    swap_id: rt.swap_id,
                },
                Pending::AliceBuySignature,
            ),
        ),
        _ => alice_interrupt(rt, event, s.wallet),
    }
}

pub fn try_alice_accordant_lock_to_alice_buy_procedure_signature(
    rt: &Runtime,
    event: &Event,
    s: AliceAccordantLock,
) -> (r: Plan)
    ensures
        r@ == from_alice_accordant_lock(rt@, *event, s),
{
    let ghost expected = from_alice_accordant_lock(rt@, *event, s);
    match &event.request {
        Request::Protocol(Msg::BuyProcedureSignature(signature)) => {
            let ops = vec![Op::EnsureBtcTxid(TxLabel::Buy, signature.buy.txid())];
            assert(ops@ =~= expected.ops);
            Plan {
                ops,
                end: End::Ask(
                    WalletCall::BuyProcedureSignature {
                        wallet: s.wallet,
                        signature: signature.clone(),
                        swap_id: rt.swap_id,
                    },
                    Pending::AliceBuySignature,
                ),
            }
        },
        _ => handle_alice_swap_interrupt_afer_lock(rt, event, s.wallet),
    }
}

/// Whether the last that was heard of the lock lets it be cancelled.
pub open spec fn lock_cancellable(rt: RuntimeView) -> bool {
    rt.syncer.lock_tx_confs matches Some(TransactionConfirmations { confirmations: Some(c), .. })
        && rt.temporal_safety.valid_cancel(c)
}

/// Alice can buy. If the lock can be cancelled by now she cancels instead.
pub open spec fn alice_buys(
    rt: RuntimeView,
    wallet: Wallet,
    cancel_tx: Transaction,
    buy_tx: Transaction,
) -> PlanView {
    let kept = seq![Op::KeepTx(TxLabel::Cancel, cancel_tx), Op::KeepTx(TxLabel::Buy, buy_tx)];
    if lock_cancellable(rt) {
        plan(
            kept + seq![Op::Broadcast(cancel_tx)],
            End::Next(SwapStateMachine::AliceCanceled(AliceCanceled { wallet })),
        )
    } else {
        plan(
            kept + seq![
                Op::Broadcast(buy_tx),
                Op::CheckpointAt(None, SwapStateMachine::AliceBuyProcedureSignature),
            ],
            End::Next(SwapStateMachine::AliceBuyProcedureSignature),
        )
    }
}

fn buy(rt: &Runtime, wallet: Wallet, cancel_tx: Transaction, buy_tx: Transaction) -> (r: Plan)
    ensures
        r@ == alice_buys(rt@, wallet, cancel_tx, buy_tx),
{
    let ghost expected = alice_buys(rt@, wallet, cancel_tx, buy_tx);
    let mut ops = vec![
        Op::KeepTx(TxLabel::Cancel, cancel_tx.clone()),
        Op::KeepTx(TxLabel::Buy, buy_tx.clone()),
    ];
    if let Some(TransactionConfirmations { confirmations: Some(c), .. }) =
        rt.syncer_state.lock_tx_confs {
        if rt.temporal_safety.valid_cancel(c) {
            ops.push(Op::Broadcast(cancel_tx));
            assert(ops@ =~= expected.ops);
            return Plan {
                ops,
                end: End::Next(SwapStateMachine::AliceCanceled(AliceCanceled { wallet })),
            };
        }
    }
    ops.push(Op::Broadcast(buy_tx));
    ops.push(Op::CheckpointAt(None, SwapStateMachine::AliceBuyProcedureSignature));
    assert(ops@ =~= expected.ops);
    Plan { ops, end: End::Next(SwapStateMachine::AliceBuyProcedureSignature) }
}

/// Alice waits until her buy transaction is final.
pub open spec fn from_alice_buy_procedure_signature(rt: RuntimeView, event: Event) -> PlanView {
    match confs_in(event.request) {
        Some((id, c)) => if rt.temporal_safety.final_tx(c, Blockchain::Bitcoin) && bears(
            rt.syncer.watched_txs,
            id,
            TxLabel::Buy,
        ) {
            plan(
                seq![
                    Op::NoteConfs(id, Some(c), rt.temporal_safety.btc_finality_thr),
                    order_xmr(rt, abort_every()),
                    order_btc(rt, abort_every()),
                    Op::DropTx(TxLabel::Cancel),
                    Op::DropTx(TxLabel::Punish),
                ],
                End::Next(SwapStateMachine::SwapEnd(Outcome::SuccessSwap)),
            )
        } else {
            plain(End::Stay)
        },
        None => plain(End::Stay),
    }
}

pub fn try_alice_buy_procedure_signature_to_swap_end(rt: &Runtime, event: &Event) -> (r: Plan)
    ensures
        r@ == from_alice_buy_procedure_signature(rt@, *event),
{
    let ghost expected = from_alice_buy_procedure_signature(rt@, *event);
    if let Some((id, c)) = read_confs(&event.request) {
        if rt.temporal_safety.final_tx(c, Blockchain::Bitcoin) && rt.syncer_state.tx_bears(
            id,
            TxLabel::Buy,
        ) {
            let ops = vec![
                Op::NoteConfs(id, Some(c), rt.temporal_safety.btc_finality_thr),
                xmr_order(rt, abort_all()),
                btc_order(rt, abort_all()),
                Op::DropTx(TxLabel::Cancel),
                Op::DropTx(TxLabel::Punish),
            ];
            assert(ops@ =~= expected.ops);
            return Plan { ops, end: End::Next(SwapStateMachine::SwapEnd(Outcome::SuccessSwap)) };
        }
    }
    just(End::Stay)
}

/// The swap was cancelled, and Alice watches what Bob does: a final refund is
/// retrieved, and a cancel that grows old unclaimed is punished.
pub open spec fn from_alice_canceled(rt: RuntimeView, event: Event, s: AliceCanceled) -> PlanView {
    match event.request {
        Request::SyncerEvent(SyncEvent::TransactionRetrieved { id, tx: Some(tx) }) => if retrieves(
            rt,
            id,
            TxLabel::Refund,
        ) {
            plan(
                seq![Op::ForgetRetrieval(id)],
                End::Ask(
                    WalletCall::RefundTx {
                        wallet: s.wallet,
                        tx,
                        swap_id: rt.swap_id,
                        from_height: rt.monero_address_creation_height,
                    },
                    Pending::AliceRefundTx,
                ),
            )
        } else {
            plain(End::Stay)
        },
        _ => match confs_in(event.request) {
            Some((id, c)) => if !rt.temporal_safety.final_tx(c, Blockchain::Bitcoin) {
                plain(End::Stay)
            } else if bears(rt.syncer.watched_txs, id, TxLabel::Refund)
                && rt.syncer.txids.dom().contains(TxLabel::Refund) {
                plan(
                    seq![Op::RetrieveTx(TxLabel::Refund)],
                    End::Next(SwapStateMachine::AliceCanceled(s)),
                )
            } else if bears(rt.syncer.watched_txs, id, TxLabel::Cancel)
                && rt.temporal_safety.valid_punish(c) && rt.txs.dom().contains(TxLabel::Punish) {
                plan(
                    seq![
                        Op::DropTx(TxLabel::Punish),
                        Op::EnsureBtcTxid(TxLabel::Punish, rt.txs[TxLabel::Punish].id()),
                        Op::Broadcast(rt.txs[TxLabel::Punish]),
                    ],
                    End::Next(SwapStateMachine::AlicePunish),
                )
            } else {
                plain(End::Stay)
            },
            None => plain(End::Stay),
        },
    }
}

pub fn try_alice_canceled_to_alice_refund_or_alice_punish(
    rt: &Runtime,
    event: &Event,
    s: AliceCanceled,
) -> (r: Plan)
    ensures
        r@ == from_alice_canceled(rt@, *event, s),
{
    let ghost expected = from_alice_canceled(rt@, *event, s);
    if let Request::SyncerEvent(SyncEvent::TransactionRetrieved { id, tx: Some(tx) }) =
        &event.request {
        if is_retrieved(rt, *id, TxLabel::Refund) {
            let ops = vec![Op::ForgetRetrieval(*id)];
            assert(ops@ =~= expected.ops);
            return Plan {
                ops,
                end: End::Ask(
                    WalletCall::RefundTx {
                        wallet: s.wallet,
                        tx: tx.clone(),
                        swap_id: rt.swap_id,
                        from_height: rt.monero_address_creation_height,
                    },
                    Pending::AliceRefundTx,
                ),
            };
        }
        return just(End::Stay);
    }
    if let Some((id, c)) = read_confs(&event.request) {
        if !rt.temporal_safety.final_tx(c, Blockchain::Bitcoin) {
            return just(End::Stay);
        }
        if rt.syncer_state.tx_bears(id, TxLabel::Refund)
            && rt.syncer_state.tasks.txids.contains_key(&TxLabel::Refund) {
            let ops = vec![Op::RetrieveTx(TxLabel::Refund)];
            assert(ops@ =~= expected.ops);
            return Plan { ops, end: End::Next(SwapStateMachine::AliceCanceled(s)) };
        }
        if rt.syncer_state.tx_bears(id, TxLabel::Cancel) && rt.temporal_safety.valid_punish(c) {
            if let Some(tx) = rt.txs.get(&TxLabel::Punish) {
                let ops = vec![
                    Op::DropTx(TxLabel::Punish),
                    Op::EnsureBtcTxid(TxLabel::Punish, tx.txid()),
                    Op::Broadcast(tx.clone()),
                ];
                assert(ops@ =~= expected.ops);
                return Plan { ops, end: End::Next(SwapStateMachine::AlicePunish) };
            }
        }
    }
    just(End::Stay)
}

/// Bob's refund told Alice how to get her monero back. If none were ever locked the
/// swap is over.
pub open spec fn alice_refunds(rt: RuntimeView, sweep: SweepAddress) -> PlanView {
    if rt.syncer.confirmations.dom().contains(TxLabel::AccLock) {
        plan(
            seq![Op::BookSweep(sweep.id)],
            End::Next(SwapStateMachine::AliceRefund(sweep)),
        )
    } else {
        let reported = if rt.syncer.awaiting_funding {
            seq![
                Op::AwaitFunding(false),
                to_farcasterd(Request::FundingCompleted(Blockchain::Monero)),
            ]
        } else {
            seq![]
        };
        plan(
            reported + wind_up(rt),
            End::Next(SwapStateMachine::SwapEnd(Outcome::FailureRefund)),
        )
    }
}

fn refund(rt: &Runtime, sweep: SweepAddress) -> (r: Plan)
    ensures
        r@ == alice_refunds(rt@, sweep),
{
    let ghost expected = alice_refunds(rt@, sweep);
    if rt.syncer_state.confirmations.contains_key(&TxLabel::AccLock) {
        let ops = vec![Op::BookSweep(sweep.id)];
        assert(ops@ =~= expected.ops);
        Plan { ops, end: End::Next(SwapStateMachine::AliceRefund(sweep)) }
    } else {
        let mut ops: Vec<Op> = Vec::new();
        if rt.syncer_state.awaiting_funding {
            ops.push(Op::AwaitFunding(false));
            ops.push(farcasterd(Request::FundingCompleted(Blockchain::Monero)));
        }
        push_wind_up(rt, &mut ops);
        assert(ops@ =~= expected.ops);
        Plan { ops, end: End::Next(SwapStateMachine::SwapEnd(Outcome::FailureRefund)) }
    }
}

pub fn try_alice_refund_to_alice_refund_sweeping(
    rt: &Runtime,
    event: &Event,
    sweep_address: SweepAddress,
) -> (r: Plan)
    ensures
        r@ == awaits_sweep(rt@, *event, sweep_address, SwapStateMachine::AliceRefundSweeping),
{
    await_sweep(rt, event, sweep_address, SwapStateMachine::AliceRefundSweeping)
}

/// Alice has punished Bob and waits for word of it, on the chain or not.
pub open spec fn from_alice_punish(rt: RuntimeView, event: Event) -> PlanView {
    match event.request {
        Request::SyncerEvent(SyncEvent::TransactionConfirmations(c)) => if bears(
            rt.syncer.watched_txs,
            c.id,
            TxLabel::Punish,
        ) {
            plan(
                wind_up(rt),
                End::Next(SwapStateMachine::SwapEnd(Outcome::FailurePunish)),
            )
        } else {
            plain(End::Stay)
        },
        _ => plain(End::Stay),
    }
}

pub fn try_alice_punish_to_swap_end(rt: &Runtime, event: &Event) -> (r: Plan)
    ensures
        r@ == from_alice_punish(rt@, *event),
{
    if let Request::SyncerEvent(SyncEvent::TransactionConfirmations(c)) = &event.request {
        if rt.syncer_state.tx_bears(c.id, TxLabel::Punish) {
            let mut ops: Vec<Op> = Vec::new();
            push_wind_up(rt, &mut ops);
            assert(ops@ =~= wind_up(rt@));
            return Plan {
                ops,
                end: End::Next(SwapStateMachine::SwapEnd(Outcome::FailurePunish)),
            };
        }
    }
    just(End::Stay)
}

/// Whether an answer of the wallet is one to the question that was asked. A wallet
/// that is opened for Bob comes with a funding address.
pub open spec fn fits(pending: Pending, reply: WalletReply) -> bool {
    match pending {
        Pending::Taker { swap_role } => reply matches WalletReply::Opened { funding_address, .. }
            && (swap_role == SwapRole::Bob ==> funding_address is Some),
        Pending::Maker { swap_role, .. } => reply matches WalletReply::Opened {
            funding_address,
            ..
        } && (swap_role == SwapRole::Bob ==> funding_address is Some),
        Pending::BobMakerCommit { .. } => reply is Revealed,
        Pending::AliceMakerCommit { .. } => reply is Revealed,
        Pending::BobFundingTx { .. } => reply is Funded,
        Pending::BobSetup { .. } => reply is SetUp,
        Pending::BobRefundSignatures { .. } => reply is RefundSigned,
        Pending::BobBuyTx => reply is SweepMonero,
        Pending::BobAbort { .. } => reply is SweepBitcoin,
        Pending::AliceReveal { .. } => reply is Informed,
        Pending::AliceSetup { .. } => reply is CoreArbSigned,
        Pending::AliceBuySignature => reply is BuySigned,
        Pending::AliceRefundTx => reply is SweepMonero,
    }
}

/// Checks that an answer of the wallet is one to the question that was asked.
pub fn reply_fits(pending: &Pending, reply: &WalletReply) -> (r: bool)
    ensures
        r == fits(*pending, *reply),
{
    match (pending, reply) {
        (Pending::Taker { swap_role }, WalletReply::Opened { funding_address, .. }) => {
            *swap_role == SwapRole::Alice || funding_address.is_some()
        },
        (Pending::Maker { swap_role, .. }, WalletReply::Opened { funding_address, .. }) => {
            *swap_role == SwapRole::Alice || funding_address.is_some()
        },
        (Pending::BobMakerCommit { .. }, WalletReply::Revealed { .. }) => true,
        (Pending::AliceMakerCommit { .. }, WalletReply::Revealed { .. }) => true,
        (Pending::BobFundingTx { .. }, WalletReply::Funded { .. }) => true,
        (Pending::BobSetup { .. }, WalletReply::SetUp { .. }) => true,
        (Pending::BobRefundSignatures { .. }, WalletReply::RefundSigned { .. }) => true,
        (Pending::BobBuyTx, WalletReply::SweepMonero { .. }) => true,
        (Pending::BobAbort { .. }, WalletReply::SweepBitcoin { .. }) => true,
        (Pending::AliceReveal { .. }, WalletReply::Informed { .. }) => true,
        (Pending::AliceSetup { .. }, WalletReply::CoreArbSigned { .. }) => true,
        (Pending::AliceBuySignature, WalletReply::BuySigned { .. }) => true,
        (Pending::AliceRefundTx, WalletReply::SweepMonero { .. }) => true,
        _ => false,
    }
}

/// Whether a reaction is the one to an answer of the wallet. Where a commitment or
/// shared keys have to be worked out first, they are those of the parameters.
pub open spec fn resumes(rt: RuntimeView, pending: Pending, reply: WalletReply, r: PlanView) -> bool {
    match (pending, reply) {
        (
            Pending::Taker { swap_role },
            WalletReply::Opened { wallet, local_params, funding_address },
        ) => if committable(rt.swap_id, local_params) {
            exists|commit: Commit|
                {
                    &&& commits_to(commit, rt.swap_id, local_params)
                    &&& r == #[trigger] taker_committed(
                        rt,
                        swap_role,
                        wallet,
                        local_params,
                        funding_address,
                        commit,
                    )
                }
        } else {
            r == plan(
                seq![taker_report(rt.swap_id, rt.enquirer), commit_failed(rt.enquirer)],
                End::Fail(Error::MalformedParameters),
            )
        },
        (
            Pending::Maker { swap_role, peerd, report_to, swap_id, commit: remote_commit },
            WalletReply::Opened { wallet, local_params, funding_address },
        ) => if committable(rt.swap_id, local_params) {
            exists|commit: Commit|
                {
                    &&& commits_to(commit, rt.swap_id, local_params)
                    &&& r == #[trigger] maker_committed(
                        swap_role,
                        peerd,
                        report_to,
                        swap_id,
                        remote_commit,
                        wallet,
                        local_params,
                        funding_address,
                        commit,
                    )
                }
        } else {
            r == plan(
                maker_noted(peerd, report_to) + seq![
                    maker_report(swap_id, peerd, Some(report_to)),
                    commit_failed(Some(report_to)),
                ],
                End::Fail(Error::MalformedParameters),
            )
        },
        (
            Pending::BobMakerCommit { local_commit, local_params, funding_address, remote_commit },
            WalletReply::Revealed { wallet, reveal_msg },
        ) => r == plan(
            seq![Op::SendPeer(Msg::Reveal(reveal_msg))],
            End::Next(
                SwapStateMachine::BobTakerMakerCommit(
                    BobTakerMakerCommit {
                        local_commit,
                        local_params,
                        funding_address,
                        remote_commit,
                        wallet,
                        deferred: None,
                    },
                ),
            ),
        ),
        (
            Pending::AliceMakerCommit { local_params, remote_commit },
            WalletReply::Revealed { wallet, reveal_msg },
        ) => r == plan(
            seq![Op::SendPeer(Msg::Reveal(reveal_msg))],
            End::Next(
                SwapStateMachine::AliceTakerMakerCommit(
                    AliceTakerMakerCommit { local_params, remote_commit, wallet },
                ),
            ),
        ),
        (
            Pending::BobFundingTx { local_params, remote_params, funding_address, alice_reveal },
            WalletReply::Funded { wallet },
        ) => r == plain(
            End::Ask(
                WalletCall::AliceReveals {
                    wallet,
                    reveal_msg: alice_reveal,
                    swap_id: rt.swap_id,
                },
                Pending::BobSetup { local_params, remote_params, funding_address },
            ),
        ),
        (
            Pending::BobSetup { local_params, remote_params, funding_address },
            WalletReply::SetUp { wallet, maker_reveal, core_arb_setup },
        ) => r == bob_set_up(
            local_params,
            remote_params,
            funding_address,
            wallet,
            maker_reveal,
            core_arb_setup,
        ),
        (
            Pending::BobRefundSignatures { local_params, remote_params, funding_address },
            WalletReply::RefundSigned {
                wallet,
                buy_procedure_signature,
                lock_tx,
                cancel_tx,
                refund_tx,
            },
        ) => {
            let locked = |keys: Option<([u8; 32], [u8; 32])>|
                bob_locks(
                    rt,
                    local_params,
                    remote_params,
                    funding_address,
                    wallet,
                    buy_procedure_signature,
                    lock_tx,
                    cancel_tx,
                    refund_tx,
                    keys,
                );
            match (local_params, remote_params) {
                (Params::Bob(bob), Params::Alice(alice)) => if aggregates(
                    None,
                    rt.swap_id,
                    alice,
                    bob,
                ) {
                    r == plain(End::Fail(Error::MalformedParameters))
                } else {
                    exists|spend: [u8; 32], view: [u8; 32]|
                        {
                            &&& #[trigger] aggregates(
                                Some((spend, view)),
                                rt.swap_id,
                                alice,
                                bob,
                            )
                            &&& r == locked(Some((spend, view)))
                        }
                },
                _ => r == locked(None),
            }
        },
        (Pending::BobBuyTx, WalletReply::SweepMonero { xmr_keys, from_height }) => {
            let sweep = rt.syncer.xmr_sweep(xmr_keys, from_height, true);
            r == plan(
                seq![Op::BookSweep(sweep.id)],
                End::Next(SwapStateMachine::BobBuyFinal(sweep)),
            )
        },
        (Pending::BobAbort { source }, WalletReply::SweepBitcoin { btc_keys }) => r == bob_abort_sweep(
            rt,
            source,
            rt.syncer.btc_sweep(btc_keys, false),
        ),
        (
            Pending::AliceReveal { local_params, remote_params },
            WalletReply::Informed { wallet, maker_reveal },
        ) => r == plan(
            match maker_reveal {
                Some(alice_reveal) => seq![Op::SendPeer(Msg::Reveal(alice_reveal))],
                None => seq![],
            },
            End::Next(
                SwapStateMachine::AliceReveal(AliceReveal { local_params, remote_params, wallet }),
            ),
        ),
        (
            Pending::AliceSetup { local_params, remote_params },
            WalletReply::CoreArbSigned {
                wallet,
                refund_procedure_signatures,
                cancel_tx,
                punish_tx,
            },
        ) => r == alice_set_up(
            rt,
            local_params,
            remote_params,
            wallet,
            refund_procedure_signatures,
            cancel_tx,
            punish_tx,
        ),
        (Pending::AliceBuySignature, WalletReply::BuySigned { wallet, cancel_tx, buy_tx }) => r
            == alice_buys(rt, wallet, cancel_tx, buy_tx),
        (Pending::AliceRefundTx, WalletReply::SweepMonero { xmr_keys, from_height }) => r
            == alice_refunds(rt, rt.syncer.xmr_sweep(xmr_keys, from_height, true)),
        _ => true,
    }
}

fn resume_taker(
    rt: &Runtime,
    swap_role: SwapRole,
    wallet: Wallet,
    local_params: Params,
    funding_address: Option<BitcoinAddress>,
) -> (r: Plan)
    requires
        swap_role == SwapRole::Bob ==> funding_address is Some,
    ensures
        resumes(
            rt@,
            Pending::Taker { swap_role },
            WalletReply::Opened { wallet, local_params, funding_address },
            r@,
        ),
{
    let (report, commit) = rt.taker_commit(rt.enquirer, &local_params);
    let mut ops = vec![report];
    match commit {
        Some(commit) => {
            assert(committable(rt.swap_id, local_params));
            let ghost expected = taker_committed(
                rt@,
                swap_role,
                wallet,
                local_params,
                funding_address,
                commit,
            );
            let Plan { ops: mut sent, end } = send_taker_commit(
                rt,
                swap_role,
                wallet,
                local_params,
                funding_address,
                commit,
            );
            ops.append(&mut sent);
            assert(ops@ =~= expected.ops);
            Plan { ops, end }
        },
        None => {
            ops.push(
                Op::ReportFailure(
                    rt.enquirer,
                    Failure { code: UNKNOWN_FAILURE, info: Notice::CommitFailed },
                ),
            );
            assert(ops@ =~= seq![
                taker_report(rt.swap_id, rt.enquirer),
                commit_failed(rt.enquirer),
            ]);
            Plan { ops, end: End::Fail(Error::MalformedParameters) }
        },
    }
}

fn resume_maker(
    rt: &Runtime,
    swap_role: SwapRole,
    peerd: ServiceId,
    report_to: ServiceId,
    swap_id: SwapId,
    remote_commit: Commit,
    wallet: Wallet,
    local_params: Params,
    funding_address: Option<BitcoinAddress>,
) -> (r: Plan)
    requires
        swap_role == SwapRole::Bob ==> funding_address is Some,
    ensures
        resumes(
            rt@,
            Pending::Maker { swap_role, peerd, report_to, swap_id, commit: remote_commit },
            WalletReply::Opened { wallet, local_params, funding_address },
            r@,
        ),
{
    let (report, commit) = rt.maker_commit(peerd, swap_id, Some(report_to), &local_params);
    let mut ops = note_maker(peerd, report_to);
    ops.push(report);
    match commit {
        Some(commit) => {
            assert(committable(rt.swap_id, local_params));
            let ghost expected = maker_committed(
                swap_role,
                peerd,
                report_to,
                swap_id,
                remote_commit,
                wallet,
                local_params,
                funding_address,
                commit,
            );
            let Plan { ops: mut sent, end } = send_maker_commit(
                swap_role,
                remote_commit,
                wallet,
                local_params,
                funding_address,
                commit,
            );
            ops.append(&mut sent);
            assert(ops@ =~= expected.ops);
            Plan { ops, end }
        },
        None => {
            ops.push(
                Op::ReportFailure(
                    Some(report_to),
                    Failure { code: UNKNOWN_FAILURE, info: Notice::CommitFailed },
                ),
            );
            assert(ops@ =~= maker_noted(peerd, report_to) + seq![
                maker_report(swap_id, peerd, Some(report_to)),
                commit_failed(Some(report_to)),
            ]);
            Plan { ops, end: End::Fail(Error::MalformedParameters) }
        },
    }
}

fn resume_lock(
    rt: &Runtime,
    local_params: Params,
    remote_params: Params,
    funding_address: BitcoinAddress,
    wallet: Wallet,
    buy_procedure_signature: BuyProcedureSignature,
    lock_tx: Transaction,
    cancel_tx: Transaction,
    refund_tx: Transaction,
) -> (r: Plan)
    ensures
        resumes(
            rt@,
            Pending::BobRefundSignatures { local_params, remote_params, funding_address },
            WalletReply::RefundSigned {
                wallet,
                buy_procedure_signature,
                lock_tx,
                cancel_tx,
                refund_tx,
            },
            r@,
        ),
{
    let keys = match (&local_params, &remote_params) {
        (Params::Bob(bob), Params::Alice(alice)) => {
            match aggregate_xmr_spend_view(rt.swap_id, alice, bob) {
                Some(keys) => {
                    assert(aggregates(Some((keys.0, keys.1)), rt@.swap_id, *alice, *bob));
                    Some(keys)
                },
                None => {
                    return just(End::Fail(Error::MalformedParameters));
                },
            }
        },
        _ => None,
    };
    lock_bob(
        rt,
        local_params,
        remote_params,
        funding_address,
        wallet,
        buy_procedure_signature,
        lock_tx,
        cancel_tx,
        refund_tx,
        keys,
    )
}

/// Whether a reaction is the one of a state to a request.
pub open spec fn reacts(rt: RuntimeView, sm: SwapStateMachine, event: Event, r: PlanView) -> bool {
    match sm {
        SwapStateMachine::StartTaker(swap_role) => r == init_taker(rt, event, swap_role),
        SwapStateMachine::StartMaker(swap_role) => r == init_maker(rt, event, swap_role),
        SwapStateMachine::BobInitTaker(s) => r == from_bob_init_taker(rt, event, s),
        SwapStateMachine::AliceInitTaker(s) => r == from_alice_init_taker(rt, event, s),
        SwapStateMachine::BobTakerMakerCommit(s) => r == bob_awaits_reveal(
            rt,
            event,
            taker_exchange(s),
            TradeRole::Taker,
        ),
        SwapStateMachine::AliceTakerMakerCommit(s) => r == alice_awaits_reveal(
            rt,
            event,
            s.local_params,
            s.remote_commit,
            s.wallet,
        ),
        SwapStateMachine::BobInitMaker(s) => r == bob_awaits_reveal(
            rt,
            event,
            maker_exchange(s),
            TradeRole::Maker,
        ),
        SwapStateMachine::AliceInitMaker(s) => r == alice_awaits_reveal(
            rt,
            event,
            s.local_params,
            s.remote_commit,
            s.wallet,
        ),
        SwapStateMachine::BobReveal(s) => match funding_in(rt, event.request) {
            Some(payment) => reads_funding(rt, event.source, s, payment, r),
            None => r == (match event.request {
                Request::AbortSwap => bob_abort_swap(
                    rt,
                    event.source,
                    s.wallet,
                    s.funding_address,
                ),
                _ => plain(End::Stay),
            }),
        },
        SwapStateMachine::BobFunded(s) => r == from_bob_funded(rt, event, s),
        SwapStateMachine::BobRefundProcedureSignatures(s) => r
            == from_bob_refund_procedure_signatures(rt, event, s),
        SwapStateMachine::BobAccordantLock(s) => r == from_bob_accordant_lock(rt, event, s),
        SwapStateMachine::BobAccordantLockFinal(s) => r == from_bob_accordant_lock_final(
            rt,
            event,
            s,
        ),
        SwapStateMachine::BobBuyFinal(task) => r == awaits_sweep(
            rt,
            event,
            task,
            SwapStateMachine::BobBuySweeping,
        ),
        SwapStateMachine::BobBuySweeping => r == swept(
            rt,
            event,
            Blockchain::Bitcoin,
            Outcome::SuccessSwap,
        ),
        SwapStateMachine::BobCanceled => r == from_bob_canceled(rt, event),
        SwapStateMachine::BobCancelFinal => r == from_bob_cancel_final(rt, event),
        SwapStateMachine::BobAbortAwaitingBitcoinSweep => r == from_awaiting_sweep(rt, event),
        SwapStateMachine::AliceReveal(s) => r == from_alice_reveal(rt, event, s),
        SwapStateMachine::AliceCoreArbitratingSetup(s) => if lock_final_in(rt, event.request) {
            match (s.local_params, s.remote_params) {
                (Params::Alice(alice), Params::Bob(bob)) => reads_keys(
                    rt,
                    alice,
                    bob,
                    s.wallet,
                    r,
                ),
                _ => r == plain(End::Stay),
            }
        } else {
            r == alice_interrupt(rt, event, s.wallet)
        },
        SwapStateMachine::AliceArbitratingLockFinal(s) => r == from_alice_arbitrating_lock_final(
            rt,
            event,
            s,
        ),
        SwapStateMachine::AliceAccordantLock(s) => r == from_alice_accordant_lock(rt, event, s),
        SwapStateMachine::AliceBuyProcedureSignature => r == from_alice_buy_procedure_signature(
            rt,
            event,
        ),
        SwapStateMachine::AliceCanceled(s) => r == from_alice_canceled(rt, event, s),
        SwapStateMachine::AliceRefund(task) => r == awaits_sweep(
            rt,
            event,
            task,
            SwapStateMachine::AliceRefundSweeping,
        ),
        SwapStateMachine::AliceRefundSweeping => r == swept(
            rt,
            event,
            Blockchain::Monero,
            Outcome::FailureRefund,
        ),
        SwapStateMachine::AlicePunish => r == from_alice_punish(rt, event),
        SwapStateMachine::SwapEnd(outcome) => r == plain(
            End::Next(SwapStateMachine::SwapEnd(outcome)),
        ),
    }
}

impl SwapStateMachine {
    /// The reaction of a state to a request.
    pub fn next(self, event: &Event, rt: &Runtime) -> (r: Plan)
        requires
            rt.syncer_state.tasks.counter < u32::MAX,
        ensures
            reacts(rt@, self, *event, r@),
    {
        match self {
            SwapStateMachine::StartTaker(swap_role) => attempt_transition_to_init_taker(
                rt,
                event,
                swap_role,
            ),
            SwapStateMachine::StartMaker(swap_role) => attempt_transition_to_init_maker(
                rt,
                event,
                swap_role,
            ),
            SwapStateMachine::BobInitTaker(s) => try_bob_init_taker_to_bob_taker_maker_commit(
                rt,
                event,
                s,
            ),
            SwapStateMachine::AliceInitTaker(s) => {
                try_alice_init_taker_to_alice_taker_maker_commit(rt, event, s)
            },
            SwapStateMachine::BobTakerMakerCommit(s) => try_bob_taker_maker_commit_to_bob_reveal(
                rt,
                event,
                s,
            ),
            SwapStateMachine::AliceTakerMakerCommit(s) => {
                try_alice_taker_maker_commit_to_alice_reveal(rt, event, s)
            },
            SwapStateMachine::BobInitMaker(s) => try_bob_init_maker_to_bob_reveal(rt, event, s),
            SwapStateMachine::AliceInitMaker(s) => try_alice_init_maker_to_alice_reveal(
                rt,
                event,
                s,
            ),
            SwapStateMachine::BobReveal(s) => try_bob_reveal_to_bob_funded(rt, event, s),
            SwapStateMachine::BobFunded(s) => try_bob_funded_to_bob_refund_procedure_signature(
                rt,
                event,
                s,
            ),
            SwapStateMachine::BobRefundProcedureSignatures(s) => {
                try_bob_refund_procedure_signatures_to_bob_accordant_lock(rt, event, s)
            },
            SwapStateMachine::BobAccordantLock(s) => {
                try_bob_accordant_lock_to_bob_accordant_lock_final(rt, event, s)
            },
            SwapStateMachine::BobAccordantLockFinal(s) => {
                try_bob_accordant_lock_final_to_bob_buy_final(rt, event, s)
            },
            SwapStateMachine::BobBuyFinal(task) => try_bob_buy_final_to_bob_buy_sweeping(
                rt,
                event,
                task,
            ),
            SwapStateMachine::BobBuySweeping => try_bob_buy_sweeping_to_swap_end(rt, event),
            SwapStateMachine::BobCanceled => try_bob_canceled_to_bob_cancel_final(rt, event),
            SwapStateMachine::BobCancelFinal => try_bob_cancel_final_to_swap_end(rt, event),
            SwapStateMachine::BobAbortAwaitingBitcoinSweep => try_awaiting_sweep_to_swap_end(
                rt,
                event,
            ),
            SwapStateMachine::AliceReveal(s) => try_alice_reveal_to_alice_core_arbitrating_setup(
                rt,
                event,
                s,
            ),
            SwapStateMachine::AliceCoreArbitratingSetup(s) => {
                try_alice_core_arbitrating_setup_to_alice_arbitrating_lock_final(rt, event, s)
            },
            SwapStateMachine::AliceArbitratingLockFinal(s) => {
                try_alice_arbitrating_lock_final_to_alice_accordant_lock(rt, event, s)
            },
            SwapStateMachine::AliceAccordantLock(s) => {
                try_alice_accordant_lock_to_alice_buy_procedure_signature(rt, event, s)
            },
            SwapStateMachine::AliceBuyProcedureSignature => {
                try_alice_buy_procedure_signature_to_swap_end(rt, event)
            },
            SwapStateMachine::AliceCanceled(s) => {
                try_alice_canceled_to_alice_refund_or_alice_punish(rt, event, s)
            },
            SwapStateMachine::AliceRefund(task) => try_alice_refund_to_alice_refund_sweeping(
                rt,
                event,
                task,
            ),
            SwapStateMachine::AliceRefundSweeping => try_alice_refund_sweeping_to_swap_end(
                rt,
                event,
            ),
            SwapStateMachine::AlicePunish => try_alice_punish_to_swap_end(rt, event),
            SwapStateMachine::SwapEnd(outcome) => just(
                End::Next(SwapStateMachine::SwapEnd(outcome)),
            ),
        }
    }

    /// The rest of a reaction, after the wallet has answered or failed.
    pub fn resume(pending: Pending, reply: Result<WalletReply, Error>, rt: &Runtime) -> (r: Plan)
        requires
            rt.syncer_state.tasks.counter < u32::MAX,
            reply matches Ok(reply) ==> fits(pending, reply),
        ensures
            match reply {
                Ok(reply) => resumes(rt@, pending, reply, r@),
                Err(e) => r@ == plain(End::Fail(e)),
            },
    {
        let reply = match reply {
            Ok(reply) => reply,
            Err(e) => {
                return just(End::Fail(e));
            },
        };
        match (pending, reply) {
            (
                Pending::Taker { swap_role },
                WalletReply::Opened { wallet, local_params, funding_address },
            ) => resume_taker(rt, swap_role, wallet, local_params, funding_address),
            (
                Pending::Maker { swap_role, peerd, report_to, swap_id, commit },
                WalletReply::Opened { wallet, local_params, funding_address },
            ) => resume_maker(
                rt,
                swap_role,
                peerd,
                report_to,
                swap_id,
                commit,
                wallet,
                local_params,
                funding_address,
            ),
            (
                Pending::BobMakerCommit {
                    local_commit,
                    local_params,
                    funding_address,
                    remote_commit,
                },
                WalletReply::Revealed { wallet, reveal_msg },
            ) => {
                let ghost sent = reveal_msg;
                let ops = vec![Op::SendPeer(Msg::Reveal(reveal_msg))];
                assert(ops@ =~= seq![Op::SendPeer(Msg::Reveal(sent))]);
                Plan {
                    ops,
                    end: End::Next(
                        SwapStateMachine::BobTakerMakerCommit(
                            BobTakerMakerCommit {
                                local_commit,
                                local_params,
                                funding_address,
                                remote_commit,
                                wallet,
                                deferred: None,
                            },
                        ),
                    ),
                }
            },
            (
                Pending::AliceMakerCommit { local_params, remote_commit },
                WalletReply::Revealed { wallet, reveal_msg },
            ) => {
                let ghost sent = reveal_msg;
                let ops = vec![Op::SendPeer(Msg::Reveal(reveal_msg))];
                assert(ops@ =~= seq![Op::SendPeer(Msg::Reveal(sent))]);
                Plan {
                    ops,
                    end: End::Next(
                        SwapStateMachine::AliceTakerMakerCommit(
                            AliceTakerMakerCommit { local_params, remote_commit, wallet },
                        ),
                    ),
                }
            },
            (
                Pending::BobFundingTx {
                    local_params,
                    remote_params,
                    funding_address,
                    alice_reveal,
                },
                WalletReply::Funded { wallet },
            ) => just(
                End::Ask(
                    WalletCall::AliceReveals {
                        wallet,
                        reveal_msg: alice_reveal,
                        swap_id: rt.swap_id,
                    },
                    Pending::BobSetup { local_params, remote_params, funding_address },
                ),
            ),
            (
                Pending::BobSetup { local_params, remote_params, funding_address },
                WalletReply::SetUp { wallet, maker_reveal, core_arb_setup },
            ) => set_up_bob(
                local_params,
                remote_params,
                funding_address,
                wallet,
                maker_reveal,
                core_arb_setup,
            ),
            (
                Pending::BobRefundSignatures { local_params, remote_params, funding_address },
                WalletReply::RefundSigned {
                    wallet,
                    buy_procedure_signature,
                    lock_tx,
                    cancel_tx,
                    refund_tx,
                },
            ) => resume_lock(
                rt,
                local_params,
                remote_params,
                funding_address,
                wallet,
                buy_procedure_signature,
                lock_tx,
                cancel_tx,
                refund_tx,
            ),
            (Pending::BobBuyTx, WalletReply::SweepMonero { xmr_keys, from_height }) => {
                let sweep = rt.syncer_state.sweep_xmr(xmr_keys, from_height, true);
                let ops = vec![Op::BookSweep(sweep.id)];
                assert(ops@ =~= seq![Op::BookSweep(sweep.id)]);
                Plan { ops, end: End::Next(SwapStateMachine::BobBuyFinal(sweep)) }
            },
            (Pending::BobAbort { source }, WalletReply::SweepBitcoin { btc_keys }) => {
                let sweep = rt.syncer_state.sweep_btc(btc_keys, false);
                let ghost order = sweep;
                let ops = vec![
                    Op::BookSweep(sweep.id),
                    btc_order(rt, Task::SweepAddress(sweep)),
                    Op::Send(ServiceBus::Ctl, source, Request::Info(Notice::AbortingSwap)),
                ];
                assert(ops@ =~= bob_abort_sweep(rt@, source, order).ops);
                Plan { ops, end: End::Next(SwapStateMachine::BobAbortAwaitingBitcoinSweep) }
            },
            (
                Pending::AliceReveal { local_params, remote_params },
                WalletReply::Informed { wallet, maker_reveal },
            ) => {
                let ghost sent = maker_reveal;
                let mut ops: Vec<Op> = Vec::new();
                if let Some(alice_reveal) = maker_reveal {
                    ops.push(Op::SendPeer(Msg::Reveal(alice_reveal)));
                }
                assert(ops@ =~= match sent {
                    Some(alice_reveal) => seq![Op::SendPeer(Msg::Reveal(alice_reveal))],
                    None => seq![],
                });
                Plan {
                    ops,
                    end: End::Next(
                        SwapStateMachine::AliceReveal(
                            AliceReveal { local_params, remote_params, wallet },
                        ),
                    ),
                }
            },
            (
                Pending::AliceSetup { local_params, remote_params },
                WalletReply::CoreArbSigned {
                    wallet,
                    refund_procedure_signatures,
                    cancel_tx,
                    punish_tx,
                },
            ) => set_up_alice(
                rt,
                local_params,
                remote_params,
                wallet,
                refund_procedure_signatures,
                cancel_tx,
                punish_tx,
            ),
            (Pending::AliceBuySignature, WalletReply::BuySigned { wallet, cancel_tx, buy_tx }) => {
                buy(rt, wallet, cancel_tx, buy_tx)
            },
            (Pending::AliceRefundTx, WalletReply::SweepMonero { xmr_keys, from_height }) => {
                let sweep = rt.syncer_state.sweep_xmr(xmr_keys, from_height, true);
                refund(rt, sweep)
            },
            _ => just(End::Stay),
        }
    }

    /// The name of the automaton.
    pub fn name(&self) -> (r: &'static str)
        ensures
            r@ == "Swap State Machine"@,
    {
        "Swap State Machine"
    }
}

/// Runs the automaton.
pub struct SwapStateMachineExecutor {}

impl SwapStateMachineExecutor {
    /// Lets a state react to a request from a service.
    pub fn execute(rt: &Runtime, source: ServiceId, request: Request, sm: SwapStateMachine) -> (r:
        Plan)
        requires
            rt.syncer_state.tasks.counter < u32::MAX,
        ensures
            reacts(rt@, sm, Event { source, request }, r@),
    {
        sm.next(&Event { source, request }, rt)
    }
}

} // verus!
