//! What comes from the counterparty.
use vstd::prelude::*;

use crate::base::{
    Blockchain, Error, Key, RequestType, ServiceBus, ServiceId, SwapRole, TradeRole, TxLabel,
};
use crate::chain::BitcoinAddress;
use crate::crypto::{spec_validate_reveal, validate_reveal, Commit, Reveal};
use crate::message::{BuyProcedureSignature, CoreArbitratingSetup, FundingInfo, Msg, Request};
use crate::swapd::checkpoint::PendingRequest;
use crate::swapd::runtime::{Op, Runtime, RuntimeView};
use crate::swapd::state::State;

verus! {

/// What Bob adds to the amount he funds, in satoshis.
pub const BOB_FUNDING_FEE: u64 = 200;

/// A reaction: steps to take, and whether the request succeeds when all of them were
/// taken.
#[derive(Debug, PartialEq, Eq)]
pub struct Reaction {
    pub ops: Vec<Op>,
    pub result: Result<(), Error>,
}

/// The mathematical content of a `Reaction`.
pub struct ReactionView {
    pub ops: Seq<Op>,
    pub result: Result<(), Error>,
}

impl View for Reaction {
    type V = ReactionView;

    open spec fn view(&self) -> ReactionView {
        ReactionView { ops: self.ops@, result: self.result }
    }
}

/// A request that succeeds with some steps.
pub open spec fn done(ops: Seq<Op>) -> ReactionView {
    ReactionView { ops, result: Ok(()) }
}

/// A request that fails at once.
pub open spec fn refused(error: Error) -> ReactionView {
    ReactionView { ops: Seq::empty(), result: Err(error) }
}

/// A request that asks for nothing.
pub fn nothing() -> (r: Reaction)
    ensures
        r@ == done(Seq::empty()),
{
    Reaction { ops: Vec::new(), result: Ok(()) }
}

/// A request that fails at once.
pub fn refuse(error: Error) -> (r: Reaction)
    ensures
        r@ == refused(error),
{
    Reaction { ops: Vec::new(), result: Err(error) }
}

/// A request on its way to the wallet.
pub open spec fn to_wallet(bus: ServiceBus, request: Request) -> Op {
    Op::Send(bus, ServiceId::Wallet, request)
}

/// The heights of both chains are watched.
pub open spec fn watch_heights() -> Seq<Op> {
    seq![Op::WatchHeight(Blockchain::Bitcoin), Op::WatchHeight(Blockchain::Monero)]
}

/// The maker has committed: the taker can reveal. Bob has his funding address watched.
pub open spec fn on_maker_commit(rt: RuntimeView, commit: Commit) -> ReactionView {
    let watched = match (rt.state.swap_role(), rt.state.b_address()) {
        (SwapRole::Bob, Some(address)) => seq![Op::EnsureBtcAddr(TxLabel::Funding, *address)],
        _ => seq![],
    };
    done(
        seq![Op::EnterState(rt.state.t_sup_remote_commit(commit))] + watched + watch_heights()
            + seq![to_wallet(ServiceBus::Msg, Request::Protocol(Msg::MakerCommit(commit)))],
    )
}

/// A request that waits for the wallet.
pub open spec fn for_wallet(request: Request) -> PendingRequest {
    PendingRequest { dest: ServiceId::Wallet, bus_id: ServiceBus::Msg, request }
}

/// The counterparty's proof: Alice passes it on, Bob keeps it until he is funded.
pub open spec fn on_proof(rt: RuntimeView, msg: Msg) -> ReactionView {
    match rt.state.swap_role() {
        SwapRole::Bob => done(
            seq![Op::Defer(ServiceId::Wallet, for_wallet(Request::Protocol(msg)))],
        ),
        SwapRole::Alice => done(seq![to_wallet(ServiceBus::Msg, Request::Protocol(msg))]),
    }
}

/// What Bob has to fund, in satoshis.
pub open spec fn bob_amount(rt: RuntimeView) -> int {
    rt.syncer.bitcoin_amount + BOB_FUNDING_FEE
}

/// The client is told where to fund.
pub open spec fn funding_asked(rt: RuntimeView, address: BitcoinAddress) -> Seq<Op> {
    let info = Request::FundingInfo(
        FundingInfo::Bitcoin { swap_id: rt.swap_id, address, amount: bob_amount(rt) as u64 },
    );
    match rt.enquirer {
        Some(enquirer) => seq![
            Op::AwaitFunding(true),
            Op::Send(ServiceBus::Ctl, enquirer, info),
        ],
        None => seq![Op::AwaitFunding(true)],
    }
}

/// The state after a reveal: its parameters are taken over if they open the
/// commitment.
pub open spec fn informed(state: State, params: Reveal) -> State {
    match state.remote_commit() {
        Some(commit) => match spec_validate_reveal(params, *commit) {
            Ok(p) => state.sup_remote_params(p),
            Err(_) => state,
        },
        None => state,
    }
}

/// The counterparty's parameters. Alice passes them on; Bob keeps them behind the
/// proof until he is funded, and asks for funds. A maker that has not revealed yet
/// begins to follow the chains.
pub open spec fn on_reveal(rt: RuntimeView, params: Reveal) -> ReactionView {
    let state = informed(rt.state, params);
    let entered = if spec_validate_reveal(params, *rt.state.remote_commit()->0) is Ok {
        seq![Op::EnterState(state)]
    } else {
        seq![]
    };
    let passed = match rt.state.swap_role() {
        SwapRole::Alice => seq![
            to_wallet(ServiceBus::Msg, Request::Protocol(Msg::Reveal(params))),
        ],
        SwapRole::Bob => {
            let kept = seq![
                Op::DeferAlso(
                    ServiceId::Wallet,
                    for_wallet(Request::Protocol(Msg::Reveal(params))),
                ),
            ];
            match rt.state.b_address() {
                Some(address) => kept + funding_asked(rt, *address),
                None => kept,
            }
        },
    };
    let followed = if rt.state.commit() && rt.state.trade_role() == Some(TradeRole::Maker) {
        match rt.state.b_address() {
            Some(address) => seq![Op::EnsureBtcAddr(TxLabel::Funding, *address)]
                + watch_heights(),
            None => watch_heights(),
        }
    } else {
        seq![]
    };
    done(entered + passed + followed)
}

/// Bob's transactions: Alice has them watched, remembers the refund, and passes them
/// on.
pub open spec fn on_core_arb_setup(setup: CoreArbitratingSetup) -> ReactionView {
    done(
        seq![
            Op::EnsureBtcTx(TxLabel::Lock, setup.lock.id()),
            Op::EnsureBtcTx(TxLabel::Cancel, setup.cancel.id()),
            Op::EnsureBtcTx(TxLabel::Refund, setup.refund.id()),
            Op::RememberTxid(TxLabel::Refund, setup.refund.id()),
            to_wallet(ServiceBus::Msg, Request::Protocol(Msg::CoreArbitratingSetup(setup))),
        ],
    )
}

/// Bob's signature on the buy transaction: Alice writes a checkpoint, has the
/// transaction watched, and passes the signature on.
pub open spec fn on_buy_signature(signature: BuyProcedureSignature) -> ReactionView {
    done(
        seq![
            Op::Checkpoint(Msg::BuyProcedureSignature(signature)),
            Op::EnsureBtcTx(TxLabel::Buy, signature.buy.id()),
            to_wallet(
                ServiceBus::Msg,
                Request::Protocol(Msg::BuyProcedureSignature(signature)),
            ),
        ],
    )
}

/// The reaction to a message of the swap.
pub open spec fn on_msg(rt: RuntimeView, msg: Msg) -> ReactionView {
    match msg {
        Msg::MakerCommit(commit) => if rt.state.commit() && rt.state.trade_role() == Some(
            TradeRole::Taker,
        ) && rt.state.remote_commit() is None {
            on_maker_commit(rt, commit)
        } else {
            done(Seq::empty())
        },
        Msg::Reveal(Reveal::Proof(_)) => on_proof(rt, msg),
        Msg::Reveal(params) => if rt.state.remote_commit() is Some {
            on_reveal(rt, params)
        } else {
            done(Seq::empty())
        },
        Msg::CoreArbitratingSetup(setup) => if rt.state.swap_role() == SwapRole::Alice
            && rt.state.revealed() {
            on_core_arb_setup(setup)
        } else {
            done(Seq::empty())
        },
        Msg::RefundProcedureSignatures(_) => if rt.state.b_core_arb() {
            done(seq![to_wallet(ServiceBus::Msg, Request::Protocol(msg))])
        } else {
            done(Seq::empty())
        },
        Msg::BuyProcedureSignature(signature) => if rt.state.a_refundsig() {
            on_buy_signature(signature)
        } else {
            done(Seq::empty())
        },
        Msg::Abort(_) => refused(Error::AbortNotSupported),
        _ => done(Seq::empty()),
    }
}

/// The reaction to a request on the message bus. Only the counterparty may use it, and
/// only for messages of this swap.
pub open spec fn on_rpc_msg(rt: RuntimeView, source: ServiceId, request: Request) -> ReactionView {
    if rt.peer_service != source {
        refused(Error::IncorrectPeer(rt.peer_service, source))
    } else {
        match request {
            Request::Protocol(msg) => match msg.swap_id() {
                Some(id) => if id != rt.swap_id {
                    refused(Error::IncorrectSwapId(rt.swap_id, id))
                } else {
                    on_msg(rt, msg)
                },
                None => done(Seq::empty()),
            },
            _ => refused(Error::NotSupported(ServiceBus::Msg, request.get_type())),
        }
    }
}

/// The requests that can come over the message bus: a taker's commitment goes to the
/// node daemon, and the messages that keep a connection alive stay with the peer
/// daemon. Bob gets the proof before the parameters, and what he has to fund can be
/// counted.
pub open spec fn msg_admitted(rt: RuntimeView, source: ServiceId, request: Request) -> bool {
    rt.peer_service == source ==> match request {
        Request::Protocol(msg) => msg.swap_id() is Some && (msg.swap_id() == Some(rt.swap_id)
            ==> match msg {
            Msg::TakerCommit(_) => false,
            Msg::Reveal(Reveal::Proof(_)) => true,
            Msg::Reveal(_) => (rt.state.remote_commit() is Some && rt.state.swap_role()
                == SwapRole::Bob) ==> rt.pending_requests.dom().contains(ServiceId::Wallet)
                && bob_amount(rt) <= u64::MAX,
            _ => true,
        }),
        _ => true,
    }
}

impl Runtime {
    /// Checks that a request can come over the message bus.
    pub fn admits_msg(&self, source: ServiceId, request: &Request) -> (r: bool)
        ensures
            r == msg_admitted(self@, source, *request),
    {
        if !self.peer_service.same(&source) {
            return true;
        }
        match request {
            Request::Protocol(msg) => match msg.swap_id() {
                Some(id) => {
                    if !id.same(&self.swap_id) {
                        return true;
                    }
                    match msg {
                        Msg::TakerCommit(_) => false,
                        Msg::Reveal(Reveal::Proof(_)) => true,
                        Msg::Reveal(_) => {
                            if self.state.remote_commit().is_some() && self.state.swap_role()
                                == SwapRole::Bob {
                                self.pending_requests.contains_key(&ServiceId::Wallet)
                                    && self.syncer_state.bitcoin_amount <= u64::MAX
                                    - BOB_FUNDING_FEE
                            } else {
                                true
                            }
                        },
                        _ => true,
                    }
                },
                None => false,
            },
            _ => true,
        }
    }

    /// Handles a request on the message bus.
    pub fn handle_rpc_msg(&self, source: ServiceId, request: Request) -> (r: Reaction)
        requires
            msg_admitted(self@, source, request),
        ensures
            r@ == on_rpc_msg(self@, source, request),
    {
        if !self.peer_service.same(&source) {
            return refuse(Error::IncorrectPeer(self.peer_service, source));
        }
        let request_type: RequestType = request.get_type();
        match request {
            Request::Protocol(msg) => match msg.swap_id() {
                Some(id) => {
                    if !id.same(&self.swap_id) {
                        refuse(Error::IncorrectSwapId(self.swap_id, id))
                    } else {
                        self.handle_msg(msg)
                    }
                },
                None => nothing(),
            },
            _ => refuse(Error::NotSupported(ServiceBus::Msg, request_type)),
        }
    }

    fn handle_msg(&self, msg: Msg) -> (r: Reaction)
        requires
            msg matches Msg::Reveal(params) ==> params is Proof || self.state.remote_commit()
                is None || self.state.swap_role() == SwapRole::Alice || bob_amount(self@)
                <= u64::MAX,
        ensures
            r@ == on_msg(self@, msg),
    {
        match msg {
            Msg::MakerCommit(commit) => {
                if self.state.commit() && self.is_taker() && self.state.remote_commit().is_none() {
                    self.handle_maker_commit(commit)
                } else {
                    nothing()
                }
            },
            Msg::Reveal(params) => {
                if let Reveal::Proof(_) = params {
                    return self.handle_proof(Msg::Reveal(params));
                }
                if self.state.remote_commit().is_some() {
                    self.handle_reveal(params)
                } else {
                    nothing()
                }
            },
            Msg::CoreArbitratingSetup(setup) => {
                if self.state.swap_role() == SwapRole::Alice && self.state.revealed() {
                    let ghost expected = on_core_arb_setup(setup);
                    let r = Reaction {
                        ops: vec![
                            Op::EnsureBtcTx(TxLabel::Lock, setup.lock.txid()),
                            Op::EnsureBtcTx(TxLabel::Cancel, setup.cancel.txid()),
                            Op::EnsureBtcTx(TxLabel::Refund, setup.refund.txid()),
                            Op::RememberTxid(TxLabel::Refund, setup.refund.txid()),
                            wallet_op(
                                ServiceBus::Msg,
                                Request::Protocol(Msg::CoreArbitratingSetup(setup)),
                            ),
                        ],
                        result: Ok(()),
                    };
                    assert(r@.ops =~= expected.ops);
                    r
                } else {
                    nothing()
                }
            },
            Msg::RefundProcedureSignatures(signatures) => {
                if self.state.b_core_arb() {
                    let r = Reaction {
                        ops: vec![
                            wallet_op(
                                ServiceBus::Msg,
                                Request::Protocol(Msg::RefundProcedureSignatures(signatures)),
                            ),
                        ],
                        result: Ok(()),
                    };
                    assert(r@.ops =~= on_msg(self@, msg).ops);
                    r
                } else {
                    nothing()
                }
            },
            Msg::BuyProcedureSignature(signature) => {
                if self.state.a_refundsig() {
                    let ghost expected = on_buy_signature(signature);
                    let r = Reaction {
                        ops: vec![
                            Op::Checkpoint(Msg::BuyProcedureSignature(signature.clone())),
                            Op::EnsureBtcTx(TxLabel::Buy, signature.buy.txid()),
                            wallet_op(
                                ServiceBus::Msg,
                                Request::Protocol(Msg::BuyProcedureSignature(signature)),
                            ),
                        ],
                        result: Ok(()),
                    };
                    assert(r@.ops =~= expected.ops);
                    r
                } else {
                    nothing()
                }
            },
            Msg::Abort(_) => refuse(Error::AbortNotSupported),
            _ => nothing(),
        }
    }

    /// Whether this party takes the offer up.
    pub fn is_taker(&self) -> (r: bool)
        ensures
            r == (self.state.trade_role() == Some(TradeRole::Taker)),
    {
        match self.state.trade_role() {
            Some(role) => role == TradeRole::Taker,
            None => false,
        }
    }

    /// Whether this party published the offer.
    pub fn is_maker(&self) -> (r: bool)
        ensures
            r == (self.state.trade_role() == Some(TradeRole::Maker)),
    {
        match self.state.trade_role() {
            Some(role) => role == TradeRole::Maker,
            None => false,
        }
    }

    fn handle_maker_commit(&self, commit: Commit) -> (r: Reaction)
        ensures
            r@ == on_maker_commit(self@, commit),
    {
        let mut ops: Vec<Op> = Vec::new();
        ops.push(Op::EnterState(self.state.clone().t_sup_remote_commit(commit.clone())));
        if self.state.swap_role() == SwapRole::Bob {
            if let Some(address) = self.state.b_address() {
                ops.push(Op::EnsureBtcAddr(TxLabel::Funding, address.clone()));
            }
        }
        ops.push(Op::WatchHeight(Blockchain::Bitcoin));
        ops.push(Op::WatchHeight(Blockchain::Monero));
        ops.push(wallet_op(ServiceBus::Msg, Request::Protocol(Msg::MakerCommit(commit))));
        assert(ops@ =~= on_maker_commit(self@, commit).ops);
        Reaction { ops, result: Ok(()) }
    }

    fn handle_proof(&self, msg: Msg) -> (r: Reaction)
        ensures
            r@ == on_proof(self@, msg),
    {
        let ghost expected = on_proof(self@, msg);
        let ops = match self.state.swap_role() {
            SwapRole::Bob => vec![
                Op::Defer(
                    ServiceId::Wallet,
                    PendingRequest {
                        dest: ServiceId::Wallet,
                        bus_id: ServiceBus::Msg,
                        request: Request::Protocol(msg),
                    },
                ),
            ],
            SwapRole::Alice => vec![wallet_op(ServiceBus::Msg, Request::Protocol(msg))],
        };
        assert(ops@ =~= expected.ops);
        Reaction { ops, result: Ok(()) }
    }

    fn handle_reveal(&self, params: Reveal) -> (r: Reaction)
        requires
            self.state.remote_commit() is Some,
            self.state.swap_role() == SwapRole::Bob ==> bob_amount(self@) <= u64::MAX,
        ensures
            r@ == on_reveal(self@, params),
    {
        let ghost expected = on_reveal(self@, params);
        let mut ops: Vec<Op> = Vec::new();
        if let Some(commit) = self.state.remote_commit() {
            if let Ok(remote) = validate_reveal(&params, commit) {
                ops.push(Op::EnterState(self.state.clone().sup_remote_params(remote)));
            }
        }
        match self.state.swap_role() {
            SwapRole::Alice => {
                ops.push(wallet_op(ServiceBus::Msg, Request::Protocol(Msg::Reveal(params))));
            },
            SwapRole::Bob => {
                ops.push(
                    Op::DeferAlso(
                        ServiceId::Wallet,
                        PendingRequest {
                            dest: ServiceId::Wallet,
                            bus_id: ServiceBus::Msg,
                            request: Request::Protocol(Msg::Reveal(params)),
                        },
                    ),
                );
                if let Some(address) = self.state.b_address() {
                    let amount: u64 = self.syncer_state.bitcoin_amount + BOB_FUNDING_FEE;
                    ops.push(Op::AwaitFunding(true));
                    if let Some(enquirer) = self.enquirer {
                        ops.push(
                            Op::Send(
                                ServiceBus::Ctl,
                                enquirer,
                                Request::FundingInfo(
                                    FundingInfo::Bitcoin {
                                        swap_id: self.swap_id,
                                        address: address.clone(),
                                        amount,
                                    },
                                ),
                            ),
                        );
                    }
                }
            },
        }
        if self.state.commit() && self.is_maker() {
            if let Some(address) = self.state.b_address() {
                ops.push(Op::EnsureBtcAddr(TxLabel::Funding, address.clone()));
            }
            ops.push(Op::WatchHeight(Blockchain::Bitcoin));
            ops.push(Op::WatchHeight(Blockchain::Monero));
        }
        assert(ops@ =~= expected.ops);
        Reaction { ops, result: Ok(()) }
    }
}

/// A request on its way to the wallet.
pub fn wallet_op(bus: ServiceBus, request: Request) -> (r: Op)
    ensures
        r == to_wallet(bus, request),
{
    Op::Send(bus, ServiceId::Wallet, request)
}

} // verus!
