//! What comes from the two syncers.
use vstd::prelude::*;

use crate::base::{
    Blockchain, Error, Key, Outcome, ServiceBus, ServiceId, SwapRole, TaskId, TxLabel,
};
use crate::blob::{join, joined};
use crate::chain::{parsed_transaction, Transaction};
use crate::crypto::{
    aggregate_xmr_spend_view, aggregates, lock_address, viewpair_address, MoneroAddress, Params,
};
use crate::message::{
    AddressTransaction, FundingInfo, MoneroFundingInfo, Msg, Request, SweepAddress, SyncEvent, Task,
    TransactionConfirmations, Tx,
};
use crate::swapd::checkpoint::PendingRequest;
use crate::swapd::rpc_msg::{
    done, nothing, refuse, refused, to_wallet, wallet_op, Reaction, ReactionView,
};
use crate::swapd::runtime::{Op, Runtime, RuntimeView};
use crate::swapd::state::{AliceState, BobState, State};
use crate::swapd::syncer_client::{abort_all, abort_every, abort_one, abort_task, watches};

verus! {

/// What Alice adds to the amount she funds, in piconeros: 0.02 monero.
pub const ALICE_FUNDING_MARGIN: u64 = 20_000_000_000;

/// A task for the bitcoin syncer.
pub open spec fn to_btc(rt: RuntimeView, task: Task) -> Op {
    Op::Send(ServiceBus::Ctl, rt.bitcoin_syncer(), Request::SyncerTask(task))
}

/// A task for the monero syncer.
pub open spec fn to_xmr(rt: RuntimeView, task: Task) -> Op {
    Op::Send(ServiceBus::Ctl, rt.monero_syncer(), Request::SyncerTask(task))
}

/// A request to the node daemon.
pub open spec fn to_node(request: Request) -> Op {
    Op::Send(ServiceBus::Ctl, ServiceId::Farcasterd, request)
}

fn node_op(request: Request) -> (r: Op)
    ensures
        r == to_node(request),
{
    Op::Send(ServiceBus::Ctl, ServiceId::Farcasterd, request)
}

/// All tasks end.
pub open spec fn abort_tasks(rt: RuntimeView) -> Seq<Op> {
    seq![to_xmr(rt, abort_every()), to_btc(rt, abort_every())]
}

/// The wallet and the node daemon learn how the swap ended.
pub open spec fn outcome_told(outcome: Outcome) -> Seq<Op> {
    seq![
        to_wallet(ServiceBus::Ctl, Request::SwapOutcome(outcome)),
        to_node(Request::SwapOutcome(outcome)),
    ]
}

/// Requests that wait for a service, of which the last is taken.
pub open spec fn deferred(rt: RuntimeView, service: ServiceId) -> Option<Seq<PendingRequest>> {
    if rt.pending_requests.dom().contains(service) {
        Some(rt.pending_requests[service])
    } else {
        None
    }
}

impl Runtime {
    fn btc_op(&self, task: Task) -> (r: Op)
        ensures
            r == to_btc(self@, task),
    {
        Op::Send(
            ServiceBus::Ctl,
            self.syncer_state.bitcoin_syncer(),
            Request::SyncerTask(task),
        )
    }

    fn xmr_op(&self, task: Task) -> (r: Op)
        ensures
            r == to_xmr(self@, task),
    {
        Op::Send(
            ServiceBus::Ctl,
            self.syncer_state.monero_syncer(),
            Request::SyncerTask(task),
        )
    }

    fn push_abort_tasks(&self, ops: &mut Vec<Op>)
        ensures
            final(ops)@ == old(ops)@ + abort_tasks(self@),
    {
        ops.push(self.xmr_op(abort_all()));
        ops.push(self.btc_op(abort_all()));
        assert(ops@ =~= old(ops)@ + abort_tasks(self@));
    }
}

fn push_outcome(ops: &mut Vec<Op>, outcome: Outcome)
    ensures
        final(ops)@ == old(ops)@ + outcome_told(outcome),
{
    ops.push(wallet_op(ServiceBus::Ctl, Request::SwapOutcome(outcome)));
    ops.push(node_op(Request::SwapOutcome(outcome)));
    assert(ops@ =~= old(ops)@ + outcome_told(outcome));
}

/// Alice's monero were seen: the transaction is watched in place of the address.
pub open spec fn alice_locked(rt: RuntimeView, a: AddressTransaction) -> Seq<Op> {
    let watched = if watches(rt.syncer.watched_txs, TxLabel::AccLock) {
        seq![]
    } else if rt.syncer.awaiting_funding {
        seq![
            to_node(Request::FundingCompleted(Blockchain::Monero)),
            Op::AwaitFunding(false),
            Op::EnsureXmrTx(TxLabel::AccLock, a.hash),
        ]
    } else {
        seq![Op::EnsureXmrTx(TxLabel::AccLock, a.hash)]
    };
    seq![Op::EnterState(rt.state.a_sup_refundsig_xmrlocked())] + watched + seq![
        Op::UnwatchAddr(a.id),
        to_xmr(rt, abort_one(a.id)),
    ]
}

/// A payment to a watched monero address.
pub open spec fn on_monero_payment(rt: RuntimeView, a: AddressTransaction) -> Seq<Op> {
    if !rt.syncer.watched_addrs.dom().contains(a.id) {
        seq![]
    } else {
        match rt.state.swap_role() {
            SwapRole::Alice => if rt.state.a_xmr_locked() {
                seq![]
            } else {
                alice_locked(rt, a)
            },
            SwapRole::Bob => if !watches(rt.syncer.watched_addrs, TxLabel::AccLock) || a.amount
                < rt.syncer.monero_amount {
                seq![]
            } else {
                seq![
                    Op::UnwatchAddr(a.id),
                    Op::EnsureXmrTx(rt.syncer.watched_addrs[a.id], a.hash),
                    to_xmr(rt, abort_one(a.id)),
                ]
            },
        }
    }
}

/// Whether the monero may be swept when they are deep enough: Bob has bought, or
/// Alice's monero are locked.
pub open spec fn may_sweep(state: State) -> bool {
    state.b_buy_sig() || (state.a_refundsig() && state.a_xmr_locked())
}

/// The sweep that waits for the monero syncer, if it is the last that waits.
pub open spec fn waiting_sweep(queue: Seq<PendingRequest>) -> Option<SweepAddress> {
    match queue.last() {
        PendingRequest {
            request: Request::SyncerTask(Task::SweepAddress(task)),
            bus_id: ServiceBus::Ctl,
            ..
        } => Some(task),
        _ => None,
    }
}

/// The monero are deep enough: the sweep that waits is sent, from the height at which
/// they were locked.
pub open spec fn sweep_sent(rt: RuntimeView, queue: Seq<PendingRequest>, c: u32) -> Seq<Op> {
    match waiting_sweep(queue) {
        Some(task) => {
            let sweep = SweepAddress {
                from_height: Some((rt.syncer.monero_height - c) as u64),
                ..task
            };
            seq![
                Op::DropDeferred(rt.monero_syncer()),
                Op::Send(
                    ServiceBus::Ctl,
                    queue.last().dest,
                    Request::SyncerTask(Task::SweepAddress(sweep)),
                ),
            ]
        },
        None => seq![Op::DropDeferred(rt.monero_syncer())],
    }
}

/// The monero are final: the buy signature that waits is sent.
pub open spec fn buy_sig_sent(rt: RuntimeView, queue: Seq<PendingRequest>) -> Seq<Op> {
    match queue.last() {
        PendingRequest {
            request: Request::Protocol(Msg::BuyProcedureSignature(signature)),
            bus_id: ServiceBus::Msg,
            dest,
        } => seq![
            Op::DropDeferred(rt.monero_syncer()),
            Op::Send(
                ServiceBus::Msg,
                dest,
                Request::Protocol(Msg::BuyProcedureSignature(signature)),
            ),
            Op::UpdateState(State::Bob(BobState::BuySigB { buy_tx_seen: false })),
        ],
        _ => seq![Op::DropDeferred(rt.monero_syncer())],
    }
}

/// Word of how deep a monero transaction is.
pub open spec fn on_monero_confs(rt: RuntimeView, t: TransactionConfirmations) -> Seq<Op> {
    let noted = seq![Op::NoteConfs(t.id, t.confirmations, rt.temporal_safety.xmr_finality_thr)];
    match (t.confirmations, deferred(rt, rt.monero_syncer())) {
        (Some(c), Some(queue)) => if may_sweep(rt.state) && rt.temporal_safety.sweep_monero_thr
            <= c {
            sweep_sent(rt, queue, c)
        } else if rt.temporal_safety.final_tx(c, Blockchain::Monero) && rt.state.b_core_arb()
            && !rt.state.cancel_seen() && queue.len() == 1 {
            buy_sig_sent(rt, queue)
        } else {
            noted
        },
        _ => noted,
    }
}

/// How a swap ends whose monero were swept: Bob has bought, or Alice was refunded.
pub open spec fn sweep_outcome(state: State) -> Option<(State, Outcome)> {
    if state.b_buy_sig() {
        Some((State::Bob(BobState::FinishB(Outcome::SuccessSwap)), Outcome::SuccessSwap))
    } else if state.a_refund_seen() {
        Some((State::Alice(AliceState::FinishA(Outcome::FailureRefund)), Outcome::FailureRefund))
    } else {
        None
    }
}

/// The monero were swept: nothing goes on, and if the swap is over by that, all learn
/// of it.
pub open spec fn on_sweep(rt: RuntimeView, id: TaskId) -> Seq<Op> {
    if (rt.state.b_buy_sig() || rt.state.a_xmr_locked()) && rt.syncer.sweeping_addr == Some(id) {
        let funded = if rt.syncer.awaiting_funding {
            seq![
                Op::AwaitFunding(false),
                to_node(
                    Request::FundingCompleted(
                        match rt.state.swap_role() {
                            SwapRole::Alice => Blockchain::Monero,
                            SwapRole::Bob => Blockchain::Bitcoin,
                        },
                    ),
                ),
            ]
        } else {
            seq![]
        };
        let ended = match sweep_outcome(rt.state) {
            Some((state, outcome)) => seq![Op::UpdateState(state)] + outcome_told(outcome) + seq![
                Op::DropTx(TxLabel::Lock),
                Op::DropTx(TxLabel::Cancel),
                Op::DropTx(TxLabel::Refund),
                Op::DropTx(TxLabel::Punish),
            ],
            None => seq![],
        };
        funded + abort_tasks(rt) + ended
    } else {
        seq![]
    }
}

/// The reaction to a report of the monero syncer.
pub open spec fn on_monero_event(rt: RuntimeView, event: SyncEvent) -> Seq<Op> {
    match event {
        SyncEvent::HeightChanged { height } => seq![Op::NoteHeight(Blockchain::Monero, height)],
        SyncEvent::AddressTransaction(a) => on_monero_payment(rt, a),
        SyncEvent::TransactionConfirmations(t) => on_monero_confs(rt, t),
        SyncEvent::SweepSuccess { id } => on_sweep(rt, id),
        _ => seq![],
    }
}

/// Reports of the monero syncer that can come: where a request is due that waits for
/// it, there is one, and a sweep starts at a height that exists.
pub open spec fn monero_event_admitted(rt: RuntimeView, event: SyncEvent) -> bool {
    match event {
        SyncEvent::TransactionConfirmations(
            TransactionConfirmations { confirmations: Some(c), .. },
        ) => match deferred(rt, rt.monero_syncer()) {
            Some(queue) => (may_sweep(rt.state) && rt.temporal_safety.sweep_monero_thr <= c)
                ==> queue.len() > 0 && (waiting_sweep(queue) is Some ==> c
                <= rt.syncer.monero_height),
            None => true,
        },
        _ => true,
    }
}

impl Runtime {
    fn may_sweep(&self) -> (r: bool)
        ensures
            r == may_sweep(self.state),
    {
        self.state.b_buy_sig() || (self.state.a_refundsig() && self.state.a_xmr_locked())
    }

    /// Checks that a report of the monero syncer can come.
    pub fn admits_monero_event(&self, event: &SyncEvent) -> (r: bool)
        ensures
            r == monero_event_admitted(self@, *event),
    {
        match event {
            SyncEvent::TransactionConfirmations(
                TransactionConfirmations { confirmations: Some(c), .. },
            ) => {
                let service = self.syncer_state.monero_syncer();
                match self.pending_requests.get(&service) {
                    Some(queue) => {
                        if !(self.may_sweep() && *c >= self.temporal_safety.sweep_monero_thr) {
                            return true;
                        }
                        if queue.len() == 0 {
                            return false;
                        }
                        let last = queue.at(queue.len() - 1);
                        match (&last.request, last.bus_id) {
                            (
                                Request::SyncerTask(Task::SweepAddress(_)),
                                ServiceBus::Ctl,
                            ) => *c as u64 <= self.syncer_state.monero_height,
                            _ => true,
                        }
                    },
                    None => true,
                }
            },
            _ => true,
        }
    }

    /// Handles a report of the monero syncer.
    pub fn handle_monero_event(&self, event: &SyncEvent) -> (r: Vec<Op>)
        requires
            monero_event_admitted(self@, *event),
        ensures
            r@ == on_monero_event(self@, *event),
    {
        match event {
            SyncEvent::HeightChanged { height } => {
                let ops = vec![Op::NoteHeight(Blockchain::Monero, *height)];
                assert(ops@ =~= on_monero_event(self@, *event));
                ops
            },
            SyncEvent::AddressTransaction(a) => self.handle_monero_payment(a),
            SyncEvent::TransactionConfirmations(t) => self.handle_monero_confs(*t),
            SyncEvent::SweepSuccess { id } => self.handle_sweep(*id),
            _ => Vec::new(),
        }
    }

    fn handle_monero_payment(&self, a: &AddressTransaction) -> (r: Vec<Op>)
        ensures
            r@ == on_monero_payment(self@, *a),
    {
        let ghost expected = on_monero_payment(self@, *a);
        let label: TxLabel = match self.syncer_state.tasks.watched_addrs.get(&a.id) {
            Some(label) => *label,
            None => {
                return Vec::new();
            },
        };
        let mut ops: Vec<Op> = Vec::new();
        match self.state.swap_role() {
            SwapRole::Alice => {
                if self.state.a_xmr_locked() {
                    return Vec::new();
                }
                ops.push(Op::EnterState(self.state.clone().a_sup_refundsig_xmrlocked()));
                if !self.syncer_state.is_watched_tx(TxLabel::AccLock) {
                    if self.syncer_state.awaiting_funding {
                        ops.push(node_op(Request::FundingCompleted(Blockchain::Monero)));
                        ops.push(Op::AwaitFunding(false));
                    }
                    ops.push(Op::EnsureXmrTx(TxLabel::AccLock, a.hash.clone()));
                }
                ops.push(Op::UnwatchAddr(a.id));
                ops.push(self.xmr_op(abort_task(a.id)));
            },
            SwapRole::Bob => {
                if !self.syncer_state.is_watched_addr(TxLabel::AccLock) || a.amount
                    < self.syncer_state.monero_amount {
                    return Vec::new();
                }
                ops.push(Op::UnwatchAddr(a.id));
                ops.push(Op::EnsureXmrTx(label, a.hash.clone()));
                ops.push(self.xmr_op(abort_task(a.id)));
            },
        }
        assert(ops@ =~= expected);
        ops
    }

    fn handle_monero_confs(&self, t: TransactionConfirmations) -> (r: Vec<Op>)
        requires
            monero_event_admitted(self@, SyncEvent::TransactionConfirmations(t)),
        ensures
            r@ == on_monero_confs(self@, t),
    {
        let ghost expected = on_monero_confs(self@, t);
        let service = self.syncer_state.monero_syncer();
        if let Some(c) = t.confirmations {
            if let Some(queue) = self.pending_requests.get(&service) {
                assert(deferred(self@, self@.monero_syncer()) == Some(queue@));
                if self.may_sweep() && c >= self.temporal_safety.sweep_monero_thr {
                    return self.send_sweep(queue.at(queue.len() - 1), c, Ghost(queue@));
                }
                if self.temporal_safety.final_tx(c, Blockchain::Monero) && self.state.b_core_arb()
                    && !self.state.cancel_seen() && queue.len() == 1 {
                    return self.send_buy_sig(queue.at(0), Ghost(queue@));
                }
            }
        }
        let ops = vec![
            Op::NoteConfs(t.id, t.confirmations, self.temporal_safety.xmr_finality_thr),
        ];
        assert(ops@ =~= expected);
        ops
    }

    fn send_sweep(&self, last: &PendingRequest, c: u32, queue: Ghost<Seq<PendingRequest>>) -> (r:
        Vec<Op>)
        requires
            queue@.len() > 0,
            *last == queue@.last(),
            waiting_sweep(queue@) is Some ==> c <= self.syncer_state.monero_height,
        ensures
            r@ == sweep_sent(self@, queue@, c),
    {
        let mut ops = vec![Op::DropDeferred(self.syncer_state.monero_syncer())];
        if let (Request::SyncerTask(Task::SweepAddress(task)), ServiceBus::Ctl) = (
            &last.request,
            last.bus_id,
        ) {
            let sweep = SweepAddress {
                id: task.id,
                lifetime: task.lifetime,
                from_height: Some(self.syncer_state.monero_height - c as u64),
                retry: task.retry,
                addendum: task.addendum.clone(),
            };
            ops.push(
                Op::Send(
                    ServiceBus::Ctl,
                    last.dest,
                    Request::SyncerTask(Task::SweepAddress(sweep)),
                ),
            );
        }
        assert(ops@ =~= sweep_sent(self@, queue@, c));
        ops
    }

    fn send_buy_sig(&self, last: &PendingRequest, queue: Ghost<Seq<PendingRequest>>) -> (r: Vec<Op>)
        requires
            queue@.len() > 0,
            *last == queue@.last(),
        ensures
            r@ == buy_sig_sent(self@, queue@),
    {
        let mut ops = vec![Op::DropDeferred(self.syncer_state.monero_syncer())];
        if let (Request::Protocol(Msg::BuyProcedureSignature(signature)), ServiceBus::Msg) = (
            &last.request,
            last.bus_id,
        ) {
            ops.push(
                Op::Send(
                    ServiceBus::Msg,
                    last.dest,
                    Request::Protocol(Msg::BuyProcedureSignature(signature.clone())),
                ),
            );
            ops.push(Op::UpdateState(State::Bob(BobState::BuySigB { buy_tx_seen: false })));
        }
        assert(ops@ =~= buy_sig_sent(self@, queue@));
        ops
    }

    fn handle_sweep(&self, id: TaskId) -> (r: Vec<Op>)
        ensures
            r@ == on_sweep(self@, id),
    {
        let ghost expected = on_sweep(self@, id);
        let sweeping = match self.syncer_state.tasks.sweeping_addr {
            Some(i) => i == id,
            None => false,
        };
        if !(self.state.b_buy_sig() || self.state.a_xmr_locked()) || !sweeping {
            return Vec::new();
        }
        let mut ops: Vec<Op> = Vec::new();
        if self.syncer_state.awaiting_funding {
            ops.push(Op::AwaitFunding(false));
            let funded = match self.state.swap_role() {
                SwapRole::Alice => Blockchain::Monero,
                SwapRole::Bob => Blockchain::Bitcoin,
            };
            ops.push(node_op(Request::FundingCompleted(funded)));
        }
        self.push_abort_tasks(&mut ops);
        let ended = if self.state.b_buy_sig() {
            Some(
                (
                    State::Bob(BobState::FinishB(Outcome::SuccessSwap)),
                    Outcome::SuccessSwap,
                ),
            )
        } else if self.state.a_refund_seen() {
            Some(
                (
                    State::Alice(AliceState::FinishA(Outcome::FailureRefund)),
                    Outcome::FailureRefund,
                ),
            )
        } else {
            None
        };
        if let Some((state, outcome)) = ended {
            ops.push(Op::UpdateState(state));
            push_outcome(&mut ops, outcome);
            ops.push(Op::DropTx(TxLabel::Lock));
            ops.push(Op::DropTx(TxLabel::Cancel));
            ops.push(Op::DropTx(TxLabel::Refund));
            ops.push(Op::DropTx(TxLabel::Punish));
        }
        assert(ops@ =~= expected);
        ops
    }
}

/// The funding transaction came in while it was waited for: the node daemon and the
/// wallet learn of it.
pub open spec fn funding_seen(tx: Transaction) -> Seq<Op> {
    seq![
        Op::AwaitFunding(false),
        to_node(Request::FundingCompleted(Blockchain::Bitcoin)),
        to_wallet(ServiceBus::Ctl, Request::Tx(Tx::Funding(tx))),
    ]
}

/// Whether a payment is the funding that is waited for.
pub open spec fn is_funding(rt: RuntimeView, a: AddressTransaction) -> bool {
    rt.syncer.watched_addrs.dom().contains(a.id) && rt.syncer.watched_addrs[a.id]
        == TxLabel::Funding && rt.syncer.awaiting_funding
}

/// Whether a reaction is the one to a payment on the bitcoin chain. The raw transaction
/// has to be one in any case.
pub open spec fn on_bitcoin_payment(rt: RuntimeView, a: AddressTransaction, r: ReactionView) -> bool {
    match parsed_transaction(joined(a.tx@)) {
        None => r == refused(Error::MalformedTransaction),
        Some(parsed) => if is_funding(rt, a) {
            exists|tx: Transaction|
                parsed == (tx.encoding()@, tx.id().0@) && r == done(#[trigger] funding_seen(tx))
        } else {
            r == done(Seq::empty())
        },
    }
}

/// A transaction was retrieved: Bob's wallet finds Alice's key in a buy, Alice's wallet
/// finds Bob's in a refund.
pub open spec fn on_retrieved(rt: RuntimeView, id: TaskId, tx: Transaction) -> Seq<Op> {
    if !rt.syncer.retrieving_txs.dom().contains(id) {
        seq![]
    } else {
        match rt.syncer.retrieving_txs[id].0 {
            TxLabel::Buy => if rt.state.b_buy_sig() {
                seq![
                    Op::ForgetRetrieval(id),
                    Op::EnterState(rt.state.b_sup_buysig_buy_tx_seen()),
                    to_wallet(ServiceBus::Ctl, Request::Tx(Tx::Buy(tx))),
                ]
            } else {
                seq![Op::ForgetRetrieval(id)]
            },
            TxLabel::Refund => if rt.state.a_refundsig() && rt.state.a_xmr_locked() {
                seq![
                    Op::ForgetRetrieval(id),
                    to_wallet(ServiceBus::Ctl, Request::Tx(Tx::Refund(tx))),
                ]
            } else {
                seq![Op::ForgetRetrieval(id)]
            },
            _ => seq![Op::ForgetRetrieval(id)],
        }
    }
}

/// A transaction could not be retrieved yet: it is tried again after a pause.
pub open spec fn on_not_retrieved(rt: RuntimeView, id: TaskId) -> Seq<Op> {
    if rt.syncer.retrieving_txs.dom().contains(id) {
        seq![Op::Pause, to_btc(rt, rt.syncer.retrieving_txs[id].1)]
    } else {
        seq![]
    }
}

/// What Alice has to fund, in piconeros.
pub open spec fn alice_amount(rt: RuntimeView) -> int {
    rt.syncer.monero_amount + ALICE_FUNDING_MARGIN
}

/// Alice is asked for funds at the shared monero address, and it is watched.
pub open spec fn alice_asked(
    rt: RuntimeView,
    spend: [u8; 32],
    view: [u8; 32],
    address: MoneroAddress,
) -> Seq<Op> {
    let info = Request::FundingInfo(
        FundingInfo::Monero(
            MoneroFundingInfo {
                swap_id: rt.swap_id,
                address,
                amount: alice_amount(rt) as u64,
            },
        ),
    );
    let asked = match rt.enquirer {
        Some(enquirer) => seq![
            Op::AwaitFunding(true),
            Op::Send(ServiceBus::Ctl, enquirer, info),
        ],
        None => seq![Op::AwaitFunding(true)],
    };
    asked + seq![Op::EnsureXmrAddr(TxLabel::AccLock, spend, view, None)]
}

/// Whether Alice is still to lock her monero: she has signed, neither locked nor
/// bought, and does not watch the shared address yet.
pub open spec fn alice_to_lock(rt: RuntimeView) -> bool {
    rt.state.a_refundsig() && !rt.state.a_xmr_locked() && !rt.state.a_buy_published() && !watches(
        rt.syncer.watched_addrs,
        TxLabel::AccLock,
    )
}

/// Whether a reaction, after some steps, is Alice's to a final lock, given the two
/// parties' parameters.
pub open spec fn alice_to_fund(rt: RuntimeView, before: Seq<Op>, r: ReactionView) -> bool {
    match (rt.state.local_params(), rt.state.remote_params()) {
        (Some(Params::Alice(alice)), Some(Params::Bob(bob))) => {
            ||| r == (ReactionView { ops: before, result: Err(Error::MalformedParameters) }) && (
            aggregates(None, rt.swap_id, *alice, *bob) || exists|spend: [u8; 32], view: [u8; 32]|
                {
                    &&& #[trigger] aggregates(Some((spend, view)), rt.swap_id, *alice, *bob)
                    &&& viewpair_address(rt.syncer.network, spend@, view@) is None
                })
            ||| exists|spend: [u8; 32], view: [u8; 32], address: MoneroAddress|
                {
                    &&& aggregates(Some((spend, view)), rt.swap_id, *alice, *bob)
                    &&& viewpair_address(rt.syncer.network, spend@, view@) == Some(address.0@)
                    &&& r == (if alice_amount(rt) > u64::MAX {
                        ReactionView { ops: before, result: Err(Error::AmountOverflow) }
                    } else {
                        done(before + #[trigger] alice_asked(rt, spend, view, address))
                    })
                }
        },
        _ => r == done(before),
    }
}

/// The lock is final, and Alice is not to lock: a lock that is old enough is cancelled,
/// a young one is bought, and one about to grow too old is no longer funded.
pub open spec fn on_final_lock(rt: RuntimeView, c: u32) -> Seq<Op> {
    if rt.temporal_safety.valid_cancel(c) && rt.state.safe_cancel() && rt.txs.dom().contains(
        TxLabel::Cancel,
    ) {
        seq![Op::Broadcast(rt.txs[TxLabel::Cancel])]
    } else if rt.temporal_safety.safe_buy(c) && rt.state.a_refundsig()
        && !rt.state.a_buy_published() && !rt.state.cancel_seen() && rt.txs.dom().contains(
        TxLabel::Buy,
    ) {
        seq![Op::Broadcast(rt.txs[TxLabel::Buy]), Op::EnterState(bought(rt.state))]
    } else if rt.temporal_safety.stop_funding_before_cancel(c) && rt.state.safe_cancel()
        && rt.state.swap_role() == SwapRole::Alice && rt.syncer.awaiting_funding {
        seq![
            Op::AwaitFunding(false),
            to_node(Request::FundingCanceled(Blockchain::Monero)),
        ]
    } else {
        seq![]
    }
}

/// Alice's state after she has published the buy transaction.
pub open spec fn bought(state: State) -> State {
    match state {
        State::Alice(
            AliceState::RefundSigA { local_params, remote_params, xmr_locked, .. },
        ) => State::Alice(
            AliceState::RefundSigA {
                local_params,
                remote_params,
                xmr_locked,
                buy_published: true,
                cancel_seen: false,
                refund_seen: false,
            },
        ),
        s => s,
    }
}

/// The cancel is final: an old one is punished by Alice, a young one is refunded by
/// Bob, and for Alice without locked monero the swap is over.
pub open spec fn on_final_cancel(rt: RuntimeView, c: u32) -> Seq<Op> {
    if rt.temporal_safety.valid_punish(c) && rt.state.a_refundsig() && rt.state.a_xmr_locked()
        && rt.txs.dom().contains(TxLabel::Punish) && !rt.state.a_refund_seen() {
        seq![
            Op::EnsureBtcTx(TxLabel::Punish, rt.txs[TxLabel::Punish].id()),
            Op::Broadcast(rt.txs[TxLabel::Punish]),
        ]
    } else if rt.temporal_safety.safe_refund(c) && (rt.state.b_buy_sig()
        || rt.state.b_core_arb()) && rt.txs.dom().contains(TxLabel::Refund) {
        seq![Op::Broadcast(rt.txs[TxLabel::Refund])]
    } else if rt.state.swap_role() == SwapRole::Alice && !rt.state.a_xmr_locked() {
        let canceled = if rt.syncer.awaiting_funding {
            seq![
                to_node(Request::FundingCanceled(Blockchain::Monero)),
                Op::AwaitFunding(false),
            ]
        } else {
            seq![]
        };
        canceled + seq![
            Op::UpdateState(State::Alice(AliceState::FinishA(Outcome::FailureRefund))),
        ] + abort_tasks(rt) + outcome_told(Outcome::FailureRefund) + seq![
            Op::DropTx(TxLabel::Lock),
            Op::DropTx(TxLabel::Buy),
            Op::DropTx(TxLabel::Cancel),
            Op::DropTx(TxLabel::Punish),
        ]
    } else {
        seq![]
    }
}

/// The buy is final: for Alice the swap is over, Bob has it retrieved.
pub open spec fn on_final_buy(rt: RuntimeView) -> Seq<Op> {
    if rt.state.a_refundsig() && rt.state.a_buy_published() {
        seq![Op::UpdateState(State::Alice(AliceState::FinishA(Outcome::SuccessSwap)))]
            + abort_tasks(rt) + outcome_told(Outcome::SuccessSwap) + seq![
            Op::DropTx(TxLabel::Cancel),
            Op::DropTx(TxLabel::Punish),
        ]
    } else if rt.state.swap_role() == SwapRole::Bob && rt.syncer.txids.dom().contains(
        TxLabel::Buy,
    ) {
        seq![Op::RetrieveTx(TxLabel::Buy)]
    } else {
        seq![]
    }
}

/// All transactions that could still be published are let go of.
pub open spec fn all_dropped() -> Seq<Op> {
    seq![
        Op::DropTx(TxLabel::Lock),
        Op::DropTx(TxLabel::Cancel),
        Op::DropTx(TxLabel::Refund),
        Op::DropTx(TxLabel::Buy),
        Op::DropTx(TxLabel::Punish),
    ]
}

/// The refund is final: Alice has it retrieved, for Bob the swap is over.
pub open spec fn on_final_refund(rt: RuntimeView) -> Seq<Op> {
    match rt.state.swap_role() {
        SwapRole::Alice => if !rt.state.a_refund_seen() && rt.syncer.txids.dom().contains(
            TxLabel::Refund,
        ) {
            seq![
                Op::EnterState(rt.state.a_sup_refundsig_refund_seen()),
                Op::RetrieveTx(TxLabel::Refund),
            ]
        } else {
            seq![]
        },
        SwapRole::Bob => abort_tasks(rt) + seq![
            Op::UpdateState(State::Bob(BobState::FinishB(Outcome::FailureRefund))),
        ] + outcome_told(Outcome::FailureRefund) + all_dropped(),
    }
}

/// The punish is final: the swap is over.
pub open spec fn on_final_punish(rt: RuntimeView) -> Seq<Op> {
    abort_tasks(rt) + seq![
        Op::UpdateState(
            match rt.state.swap_role() {
                SwapRole::Alice => State::Alice(AliceState::FinishA(Outcome::FailurePunish)),
                SwapRole::Bob => State::Bob(BobState::FinishB(Outcome::FailurePunish)),
            },
        ),
    ] + outcome_told(Outcome::FailurePunish) + all_dropped()
}

/// What is noted of a final transaction first of all.
pub open spec fn final_noted(rt: RuntimeView, t: TransactionConfirmations, label: TxLabel) -> Seq<Op> {
    let noted = seq![Op::NoteConfs(t.id, t.confirmations, rt.temporal_safety.btc_finality_thr)];
    match label {
        TxLabel::Lock => noted + seq![Op::KeepLockConfs(t)],
        TxLabel::Cancel => noted + seq![
            Op::KeepCancelConfs(t),
            Op::EnterState(rt.state.sup_cancel_seen()),
        ],
        _ => noted,
    }
}

/// Whether a reaction is the one to a final bitcoin transaction that bears a label. In
/// judging the cancel, it counts as seen.
pub open spec fn on_final(
    rt: RuntimeView,
    t: TransactionConfirmations,
    label: TxLabel,
    c: u32,
    r: ReactionView,
) -> bool {
    let before = final_noted(rt, t, label);
    match label {
        TxLabel::Lock => if alice_to_lock(rt) {
            alice_to_fund(rt, before, r)
        } else {
            r == done(before + on_final_lock(rt, c))
        },
        TxLabel::Cancel => {
            let seen = RuntimeView { state: rt.state.sup_cancel_seen(), ..rt };
            r == done(before + on_final_cancel(seen, c))
        },
        TxLabel::Buy => r == done(before + on_final_buy(rt)),
        TxLabel::Refund => r == done(before + on_final_refund(rt)),
        TxLabel::Punish => r == done(before + on_final_punish(rt)),
        TxLabel::Funding => r == done(before),
        TxLabel::AccLock => r == done(before),
    }
}

/// Whether a reaction is the one to a report of the bitcoin syncer.
pub open spec fn on_bitcoin_event(rt: RuntimeView, event: SyncEvent, r: ReactionView) -> bool {
    match event {
        SyncEvent::HeightChanged { height } => r == done(
            seq![Op::NoteHeight(Blockchain::Bitcoin, height)],
        ),
        SyncEvent::AddressTransaction(a) => on_bitcoin_payment(rt, a, r),
        SyncEvent::TransactionRetrieved { id, tx: Some(tx) } => r == done(
            on_retrieved(rt, id, tx),
        ),
        SyncEvent::TransactionRetrieved { id, tx: None } => r == done(on_not_retrieved(rt, id)),
        SyncEvent::TransactionConfirmations(t) => match t.confirmations {
            Some(c) => if rt.temporal_safety.final_tx(c, Blockchain::Bitcoin)
                && rt.syncer.watched_txs.dom().contains(t.id) {
                on_final(rt, t, rt.syncer.watched_txs[t.id], c, r)
            } else {
                r == done(
                    seq![
                        Op::NoteConfs(t.id, t.confirmations, rt.temporal_safety.btc_finality_thr),
                    ],
                )
            },
            None => r == done(
                seq![Op::NoteConfs(t.id, t.confirmations, rt.temporal_safety.btc_finality_thr)],
            ),
        },
        _ => r == done(Seq::empty()),
    }
}

fn finish(ops: Vec<Op>) -> (r: Reaction)
    ensures
        r@ == done(ops@),
{
    Reaction { ops, result: Ok(()) }
}

impl Runtime {
    /// Handles a report of the bitcoin syncer.
    pub fn handle_bitcoin_event(&self, event: &SyncEvent) -> (r: Reaction)
        ensures
            on_bitcoin_event(self@, *event, r@),
    {
        match event {
            SyncEvent::HeightChanged { height } => {
                let ops = vec![Op::NoteHeight(Blockchain::Bitcoin, *height)];
                assert(ops@ =~= seq![Op::NoteHeight(Blockchain::Bitcoin, *height)]);
                finish(ops)
            },
            SyncEvent::AddressTransaction(a) => self.handle_bitcoin_payment(a),
            SyncEvent::TransactionRetrieved { id, tx } => match tx {
                Some(tx) => finish(self.handle_retrieved(*id, tx)),
                None => finish(self.handle_not_retrieved(*id)),
            },
            SyncEvent::TransactionConfirmations(t) => {
                if let Some(c) = t.confirmations {
                    if self.temporal_safety.final_tx(c, Blockchain::Bitcoin) {
                        if let Some(label) = self.syncer_state.tasks.watched_txs.get(&t.id) {
                            return self.handle_final(*t, *label, c);
                        }
                    }
                }
                let ops = vec![
                    Op::NoteConfs(t.id, t.confirmations, self.temporal_safety.btc_finality_thr),
                ];
                assert(ops@ =~= seq![
                    Op::NoteConfs(t.id, t.confirmations, self.temporal_safety.btc_finality_thr),
                ]);
                finish(ops)
            },
            _ => nothing(),
        }
    }

    fn handle_bitcoin_payment(&self, a: &AddressTransaction) -> (r: Reaction)
        ensures
            on_bitcoin_payment(self@, *a, r@),
    {
        let raw: Vec<u8> = join(&a.tx);
        let tx = match Transaction::decode(&raw) {
            Some(tx) => tx,
            None => {
                return refuse(Error::MalformedTransaction);
            },
        };
        if self.syncer_state.addr_bears(a.id, TxLabel::Funding)
            && self.syncer_state.awaiting_funding {
            let ghost seen = tx;
            let ops = vec![
                Op::AwaitFunding(false),
                node_op(Request::FundingCompleted(Blockchain::Bitcoin)),
                wallet_op(ServiceBus::Ctl, Request::Tx(Tx::Funding(tx))),
            ];
            assert(ops@ =~= funding_seen(seen));
            finish(ops)
        } else {
            nothing()
        }
    }

    fn handle_retrieved(&self, id: TaskId, tx: &Transaction) -> (r: Vec<Op>)
        ensures
            r@ == on_retrieved(self@, id, *tx),
    {
        let label: TxLabel = match self.syncer_state.tasks.retrieving_txs.get(&id) {
            Some(t) => t.0,
            None => {
                return Vec::new();
            },
        };
        let mut ops = vec![Op::ForgetRetrieval(id)];
        match label {
            TxLabel::Buy => {
                if self.state.b_buy_sig() {
                    ops.push(Op::EnterState(self.state.clone().b_sup_buysig_buy_tx_seen()));
                    ops.push(wallet_op(ServiceBus::Ctl, Request::Tx(Tx::Buy(tx.clone()))));
                }
            },
            TxLabel::Refund => {
                if self.state.a_refundsig() && self.state.a_xmr_locked() {
                    ops.push(wallet_op(ServiceBus::Ctl, Request::Tx(Tx::Refund(tx.clone()))));
                }
            },
            _ => {},
        }
        assert(ops@ =~= on_retrieved(self@, id, *tx));
        ops
    }

    fn handle_not_retrieved(&self, id: TaskId) -> (r: Vec<Op>)
        ensures
            r@ == on_not_retrieved(self@, id),
    {
        match self.syncer_state.tasks.retrieving_txs.get(&id) {
            Some(t) => {
                let ops = vec![Op::Pause, self.btc_op(t.1.clone())];
                assert(ops@ =~= on_not_retrieved(self@, id));
                ops
            },
            None => Vec::new(),
        }
    }

    fn handle_final(&self, t: TransactionConfirmations, label: TxLabel, c: u32) -> (r: Reaction)
        requires
            t.confirmations == Some(c),
            self.temporal_safety.final_tx(c, Blockchain::Bitcoin),
        ensures
            on_final(self@, t, label, c, r@),
    {
        let mut ops = vec![
            Op::NoteConfs(t.id, t.confirmations, self.temporal_safety.btc_finality_thr),
        ];
        match label {
            TxLabel::Lock => {
                ops.push(Op::KeepLockConfs(t));
                assert(ops@ =~= final_noted(self@, t, label));
                if self.alice_to_lock() {
                    return self.ask_alice_to_fund(ops);
                }
                self.push_final_lock(&mut ops, c);
            },
            TxLabel::Cancel => {
                ops.push(Op::KeepCancelConfs(t));
                let seen = self.state.clone().sup_cancel_seen();
                ops.push(Op::EnterState(seen.clone()));
                assert(ops@ =~= final_noted(self@, t, label));
                self.push_final_cancel(&mut ops, &seen, c);
            },
            TxLabel::Buy => {
                assert(ops@ =~= final_noted(self@, t, label));
                self.push_final_buy(&mut ops);
            },
            TxLabel::Refund => {
                assert(ops@ =~= final_noted(self@, t, label));
                self.push_final_refund(&mut ops);
            },
            TxLabel::Punish => {
                assert(ops@ =~= final_noted(self@, t, label));
                self.push_final_punish(&mut ops);
            },
            TxLabel::Funding => {
                assert(ops@ =~= final_noted(self@, t, label));
            },
            TxLabel::AccLock => {
                assert(ops@ =~= final_noted(self@, t, label));
            },
        }
        finish(ops)
    }

    fn alice_to_lock(&self) -> (r: bool)
        ensures
            r == alice_to_lock(self@),
    {
        self.state.a_refundsig() && !self.state.a_xmr_locked() && !self.state.a_buy_published()
            && !self.syncer_state.is_watched_addr(TxLabel::AccLock)
    }

    fn ask_alice_to_fund(&self, before: Vec<Op>) -> (r: Reaction)
        ensures
            alice_to_fund(self@, before@, r@),
    {
        match (self.state.local_params(), self.state.remote_params()) {
            (Some(Params::Alice(alice)), Some(Params::Bob(bob))) => {
                match aggregate_xmr_spend_view(self.swap_id, alice, bob) {
                    Some((spend, view)) => {
                        match lock_address(self.syncer_state.network, &spend, &view) {
                            Some(address) => self.fund_alice(before, spend, view, address),
                            None => {
                                assert(aggregates(
                                    Some((spend, view)),
                                    self@.swap_id,
                                    *alice,
                                    *bob,
                                ));
                                Reaction { ops: before, result: Err(Error::MalformedParameters) }
                            },
                        }
                    },
                    None => Reaction { ops: before, result: Err(Error::MalformedParameters) },
                }
            },
            _ => finish(before),
        }
    }

    /// Asks Alice for funds at the shared monero address.
    pub fn fund_alice(
        &self,
        before: Vec<Op>,
        spend: [u8; 32],
        view: [u8; 32],
        address: MoneroAddress,
    ) -> (r: Reaction)
        ensures
            r@ == (if alice_amount(self@) > u64::MAX {
                ReactionView { ops: before@, result: Err(Error::AmountOverflow) }
            } else {
                done(before@ + alice_asked(self@, spend, view, address))
            }),
    {
        let ghost start = before@;
        let mut ops = before;
        let amount: u64 = match self.syncer_state.monero_amount.checked_add(
            ALICE_FUNDING_MARGIN,
        ) {
            Some(amount) => amount,
            None => {
                return Reaction { ops, result: Err(Error::AmountOverflow) };
            },
        };
        ops.push(Op::AwaitFunding(true));
        if let Some(enquirer) = self.enquirer {
            ops.push(
                Op::Send(
                    ServiceBus::Ctl,
                    enquirer,
                    Request::FundingInfo(
                        FundingInfo::Monero(
                            MoneroFundingInfo { swap_id: self.swap_id, address, amount },
                        ),
                    ),
                ),
            );
        }
        ops.push(Op::EnsureXmrAddr(TxLabel::AccLock, spend, view, None));
        assert(ops@ =~= start + alice_asked(self@, spend, view, address));
        finish(ops)
    }

    fn push_final_lock(&self, ops: &mut Vec<Op>, c: u32)
        ensures
            final(ops)@ == old(ops)@ + on_final_lock(self@, c),
    {
        let ghost expected = ops@ + on_final_lock(self@, c);
        if self.temporal_safety.valid_cancel(c) && self.state.safe_cancel() {
            if let Some(tx) = self.txs.get(&TxLabel::Cancel) {
                ops.push(Op::Broadcast(tx.clone()));
                assert(ops@ =~= expected);
                return;
            }
        }
        if self.temporal_safety.safe_buy(c) && self.state.a_refundsig()
            && !self.state.a_buy_published() && !self.state.cancel_seen() {
            if let Some(tx) = self.txs.get(&TxLabel::Buy) {
                ops.push(Op::Broadcast(tx.clone()));
                ops.push(Op::EnterState(self.bought()));
                assert(ops@ =~= expected);
                return;
            }
        }
        if self.temporal_safety.stop_funding_before_cancel(c) && self.state.safe_cancel()
            && self.state.swap_role() == SwapRole::Alice && self.syncer_state.awaiting_funding {
            ops.push(Op::AwaitFunding(false));
            ops.push(node_op(Request::FundingCanceled(Blockchain::Monero)));
        }
        assert(ops@ =~= expected);
    }

    fn bought(&self) -> (r: State)
        ensures
            r == bought(self.state),
    {
        match self.state.clone() {
            State::Alice(
                AliceState::RefundSigA { local_params, remote_params, xmr_locked, .. },
            ) => State::Alice(
                AliceState::RefundSigA {
                    local_params,
                    remote_params,
                    xmr_locked,
                    buy_published: true,
                    cancel_seen: false,
                    refund_seen: false,
                },
            ),
            s => s,
        }
    }

    fn push_final_cancel(&self, ops: &mut Vec<Op>, seen: &State, c: u32)
        ensures
            final(ops)@ == old(ops)@ + on_final_cancel(
                RuntimeView { state: *seen, ..self@ },
                c,
            ),
    {
        let ghost expected = ops@ + on_final_cancel(RuntimeView { state: *seen, ..self@ }, c);
        if self.temporal_safety.valid_punish(c) && seen.a_refundsig() && seen.a_xmr_locked()
            && !seen.a_refund_seen() {
            if let Some(tx) = self.txs.get(&TxLabel::Punish) {
                ops.push(Op::EnsureBtcTx(TxLabel::Punish, tx.txid()));
                ops.push(Op::Broadcast(tx.clone()));
                assert(ops@ =~= expected);
                return;
            }
        }
        if self.temporal_safety.safe_refund(c) && (seen.b_buy_sig() || seen.b_core_arb()) {
            if let Some(tx) = self.txs.get(&TxLabel::Refund) {
                ops.push(Op::Broadcast(tx.clone()));
                assert(ops@ =~= expected);
                return;
            }
        }
        if seen.swap_role() == SwapRole::Alice && !seen.a_xmr_locked() {
            if self.syncer_state.awaiting_funding {
                ops.push(node_op(Request::FundingCanceled(Blockchain::Monero)));
                ops.push(Op::AwaitFunding(false));
            }
            ops.push(
                Op::UpdateState(State::Alice(AliceState::FinishA(Outcome::FailureRefund))),
            );
            self.push_abort_tasks(ops);
            push_outcome(ops, Outcome::FailureRefund);
            ops.push(Op::DropTx(TxLabel::Lock));
            ops.push(Op::DropTx(TxLabel::Buy));
            ops.push(Op::DropTx(TxLabel::Cancel));
            ops.push(Op::DropTx(TxLabel::Punish));
        }
        assert(ops@ =~= expected);
    }

    fn push_final_buy(&self, ops: &mut Vec<Op>)
        ensures
            final(ops)@ == old(ops)@ + on_final_buy(self@),
    {
        let ghost expected = ops@ + on_final_buy(self@);
        if self.state.a_refundsig() && self.state.a_buy_published() {
            ops.push(Op::UpdateState(State::Alice(AliceState::FinishA(Outcome::SuccessSwap))));
            self.push_abort_tasks(ops);
            push_outcome(ops, Outcome::SuccessSwap);
            ops.push(Op::DropTx(TxLabel::Cancel));
            ops.push(Op::DropTx(TxLabel::Punish));
        } else if self.state.swap_role() == SwapRole::Bob
            && self.syncer_state.tasks.txids.contains_key(&TxLabel::Buy) {
            ops.push(Op::RetrieveTx(TxLabel::Buy));
        }
        assert(ops@ =~= expected);
    }

    fn push_final_refund(&self, ops: &mut Vec<Op>)
        ensures
            final(ops)@ == old(ops)@ + on_final_refund(self@),
    {
        let ghost expected = ops@ + on_final_refund(self@);
        match self.state.swap_role() {
            SwapRole::Alice => {
                if !self.state.a_refund_seen() && self.syncer_state.tasks.txids.contains_key(
                    &TxLabel::Refund,
                ) {
                    ops.push(Op::EnterState(self.state.clone().a_sup_refundsig_refund_seen()));
                    ops.push(Op::RetrieveTx(TxLabel::Refund));
                }
            },
            SwapRole::Bob => {
                self.push_abort_tasks(ops);
                ops.push(
                    Op::UpdateState(State::Bob(BobState::FinishB(Outcome::FailureRefund))),
                );
                push_outcome(ops, Outcome::FailureRefund);
                push_all_dropped(ops);
            },
        }
        assert(ops@ =~= expected);
    }

    fn push_final_punish(&self, ops: &mut Vec<Op>)
        ensures
            final(ops)@ == old(ops)@ + on_final_punish(self@),
    {
        let ghost expected = ops@ + on_final_punish(self@);
        self.push_abort_tasks(ops);
        let ended = match self.state.swap_role() {
            SwapRole::Alice => State::Alice(AliceState::FinishA(Outcome::FailurePunish)),
            SwapRole::Bob => State::Bob(BobState::FinishB(Outcome::FailurePunish)),
        };
        ops.push(Op::UpdateState(ended));
        push_outcome(ops, Outcome::FailurePunish);
        push_all_dropped(ops);
        assert(ops@ =~= expected);
    }
}

fn push_all_dropped(ops: &mut Vec<Op>)
    ensures
        final(ops)@ == old(ops)@ + all_dropped(),
{
    ops.push(Op::DropTx(TxLabel::Lock));
    ops.push(Op::DropTx(TxLabel::Cancel));
    ops.push(Op::DropTx(TxLabel::Refund));
    ops.push(Op::DropTx(TxLabel::Buy));
    ops.push(Op::DropTx(TxLabel::Punish));
    assert(ops@ =~= old(ops)@ + all_dropped());
}

/// The latest word on a final transaction that the automaton may come back to.
pub open spec fn final_kept(t: TransactionConfirmations, label: TxLabel) -> Seq<Op> {
    match label {
        TxLabel::Lock => seq![Op::KeepLockConfs(t)],
        TxLabel::Cancel => seq![Op::KeepCancelConfs(t)],
        TxLabel::Buy => seq![Op::KeepBuyConfs(t)],
        _ => seq![],
    }
}

/// What is noted of a report on a watched transaction.
pub open spec fn confs_noted(rt: RuntimeView, source: ServiceId, t: TransactionConfirmations) -> Seq<
    Op,
> {
    if source == rt.monero_syncer() {
        seq![Op::NoteConfs(t.id, t.confirmations, rt.temporal_safety.xmr_finality_thr)]
    } else {
        seq![Op::NoteConfs(t.id, t.confirmations, rt.temporal_safety.btc_finality_thr)] + (
        match t.confirmations {
            Some(c) => if rt.temporal_safety.final_tx(c, Blockchain::Bitcoin)
                && rt.syncer.watched_txs.dom().contains(t.id) {
                final_kept(t, rt.syncer.watched_txs[t.id])
            } else {
                seq![]
            },
            None => seq![],
        })
    }
}

/// What is noted of a report of the swap's syncers before the automaton reacts to it:
/// the heights of the chains, the depths of transactions and the fee rate.
pub open spec fn news(rt: RuntimeView, source: ServiceId, event: SyncEvent) -> Seq<Op> {
    if source != rt.bitcoin_syncer() && source != rt.monero_syncer() {
        seq![]
    } else {
        match event {
            SyncEvent::HeightChanged { height } => if source == rt.monero_syncer() {
                seq![Op::NoteHeight(Blockchain::Monero, height)]
            } else {
                seq![Op::NoteHeight(Blockchain::Bitcoin, height)]
            },
            SyncEvent::FeeEstimation { sat_per_kvb, .. } => if source == rt.bitcoin_syncer() {
                seq![Op::NoteFee(sat_per_kvb)]
            } else {
                seq![]
            },
            SyncEvent::TransactionConfirmations(t) => confs_noted(rt, source, t),
            _ => seq![],
        }
    }
}

impl Runtime {
    /// The steps that note a report of the swap's syncers before the automaton reacts
    /// to it.
    pub fn note_news(&self, source: ServiceId, event: &SyncEvent) -> (r: Vec<Op>)
        ensures
            r@ == news(self@, source, *event),
    {
        let monero: bool = source.same(&self.syncer_state.monero_syncer());
        if !monero && !source.same(&self.syncer_state.bitcoin_syncer()) {
            return Vec::new();
        }
        let mut ops: Vec<Op> = Vec::new();
        match event {
            SyncEvent::HeightChanged { height } => {
                let blockchain = if monero {
                    Blockchain::Monero
                } else {
                    Blockchain::Bitcoin
                };
                ops.push(Op::NoteHeight(blockchain, *height));
            },
            SyncEvent::FeeEstimation { sat_per_kvb, .. } => {
                if !monero {
                    ops.push(Op::NoteFee(*sat_per_kvb));
                }
            },
            SyncEvent::TransactionConfirmations(t) => {
                if monero {
                    let thr: u32 = self.temporal_safety.xmr_finality_thr;
                    ops.push(Op::NoteConfs(t.id, t.confirmations, thr));
                } else {
                    let thr: u32 = self.temporal_safety.btc_finality_thr;
                    ops.push(Op::NoteConfs(t.id, t.confirmations, thr));
                    self.push_final_kept(&mut ops, *t);
                }
            },
            _ => {},
        }
        assert(ops@ =~= news(self@, source, *event));
        ops
    }

    fn push_final_kept(&self, ops: &mut Vec<Op>, t: TransactionConfirmations)
        ensures
            final(ops)@ == old(ops)@ + (match t.confirmations {
                Some(c) => if self@.temporal_safety.final_tx(c, Blockchain::Bitcoin)
                    && self@.syncer.watched_txs.dom().contains(t.id) {
                    final_kept(t, self@.syncer.watched_txs[t.id])
                } else {
                    seq![]
                },
                None => seq![],
            }),
    {
        if let Some(c) = t.confirmations {
            if self.temporal_safety.final_tx(c, Blockchain::Bitcoin) {
                if let Some(label) = self.syncer_state.tasks.watched_txs.get(&t.id) {
                    match *label {
                        TxLabel::Lock => ops.push(Op::KeepLockConfs(t)),
                        TxLabel::Cancel => ops.push(Op::KeepCancelConfs(t)),
                        TxLabel::Buy => ops.push(Op::KeepBuyConfs(t)),
                        _ => {},
                    }
                    assert(ops@ =~= old(ops)@ + final_kept(t, *label));
                    return;
                }
            }
        }
        assert(ops@ =~= old(ops)@);
    }
}

} // verus!
