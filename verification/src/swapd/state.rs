//! How far a swap has come, and what is known of it by then.
use vstd::prelude::*;

use crate::base::{Outcome, Stage, StateName, SwapRole, TradeRole};
use crate::chain::BitcoinAddress;
use crate::crypto::{Commit, Params};
use crate::offer::PublicOffer;

verus! {

/// The exchange of commitments and parameters, common to both roles.
#[derive(Debug, PartialEq, Eq)]
pub struct Exchange {
    pub local_trade_role: TradeRole,
    pub local_params: Params,
    pub local_commit: Commit,
    pub remote_commit: Option<Commit>,
    pub remote_params: Option<Params>,
}

impl Clone for Exchange {
    fn clone(&self) -> (r: Self)
        ensures
            r == *self,
    {
        Exchange {
            local_trade_role: self.local_trade_role,
            local_params: self.local_params.clone(),
            local_commit: self.local_commit.clone(),
            remote_commit: match &self.remote_commit {
                Some(c) => Some(c.clone()),
                None => None,
            },
            remote_params: match &self.remote_params {
                Some(p) => Some(p.clone()),
                None => None,
            },
        }
    }
}

/// The states of the party that sells monero.
#[derive(Debug, PartialEq, Eq)]
pub enum AliceState {
    StartA { local_trade_role: TradeRole, public_offer: PublicOffer },
    CommitA(Exchange),
    RevealA(Exchange),
    RefundSigA {
        local_params: Params,
        remote_params: Params,
        xmr_locked: bool,
        buy_published: bool,
        cancel_seen: bool,
        refund_seen: bool,
    },
    FinishA(Outcome),
}

/// The states of the party that sells bitcoin.
#[derive(Debug, PartialEq, Eq)]
pub enum BobState {
    StartB { local_trade_role: TradeRole, public_offer: PublicOffer },
    CommitB(Exchange, BitcoinAddress),
    RevealB(Exchange, BitcoinAddress),
    CorearbB { local_params: Params, remote_params: Params, cancel_seen: bool },
    BuySigB { buy_tx_seen: bool },
    FinishB(Outcome),
}

/// The state of a swap.
#[derive(Debug, PartialEq, Eq)]
pub enum State {
    Alice(AliceState),
    Bob(BobState),
}

impl Clone for State {
    fn clone(&self) -> (r: Self)
        ensures
            r == *self,
    {
        match self {
            State::Alice(a) => State::Alice(
                match a {
                    AliceState::StartA { local_trade_role, public_offer } => AliceState::StartA {
                        local_trade_role: *local_trade_role,
                        public_offer: public_offer.clone(),
                    },
                    AliceState::CommitA(x) => AliceState::CommitA(x.clone()),
                    AliceState::RevealA(x) => AliceState::RevealA(x.clone()),
                    AliceState::RefundSigA {
                        local_params,
                        remote_params,
                        xmr_locked,
                        buy_published,
                        cancel_seen,
                        refund_seen,
                    } => AliceState::RefundSigA {
                        local_params: local_params.clone(),
                        remote_params: remote_params.clone(),
                        xmr_locked: *xmr_locked,
                        buy_published: *buy_published,
                        cancel_seen: *cancel_seen,
                        refund_seen: *refund_seen,
                    },
                    AliceState::FinishA(o) => AliceState::FinishA(*o),
                },
            ),
            State::Bob(b) => State::Bob(
                match b {
                    BobState::StartB { local_trade_role, public_offer } => BobState::StartB {
                        local_trade_role: *local_trade_role,
                        public_offer: public_offer.clone(),
                    },
                    BobState::CommitB(x, a) => BobState::CommitB(x.clone(), a.clone()),
                    BobState::RevealB(x, a) => BobState::RevealB(x.clone(), a.clone()),
                    BobState::CorearbB { local_params, remote_params, cancel_seen } => {
                        BobState::CorearbB {
                            local_params: local_params.clone(),
                            remote_params: remote_params.clone(),
                            cancel_seen: *cancel_seen,
                        }
                    },
                    BobState::BuySigB { buy_tx_seen } => BobState::BuySigB {
                        buy_tx_seen: *buy_tx_seen,
                    },
                    BobState::FinishB(o) => BobState::FinishB(*o),
                },
            ),
        }
    }
}

impl State {
    /// The role played in the swap.
    #[verifier::allow_in_spec]
    pub fn swap_role(&self) -> SwapRole
        returns
            match *self {
                State::Alice(_) => SwapRole::Alice,
                State::Bob(_) => SwapRole::Bob,
            },
    {
        match self {
            State::Alice(_) => SwapRole::Alice,
            State::Bob(_) => SwapRole::Bob,
        }
    }

    /// The swap has not begun.
    #[verifier::allow_in_spec]
    pub fn start(&self) -> bool
        returns
            (*self matches State::Alice(AliceState::StartA { .. })) || (*self matches State::Bob(
                BobState::StartB { .. },
            )),
    {
        match self {
            State::Alice(AliceState::StartA { .. }) => true,
            State::Bob(BobState::StartB { .. }) => true,
            _ => false,
        }
    }

    /// The local commitment was sent and the local parameters were not yet revealed.
    #[verifier::allow_in_spec]
    pub fn commit(&self) -> bool
        returns
            (*self matches State::Alice(AliceState::CommitA(_))) || (*self matches State::Bob(
                BobState::CommitB(_, _),
            )),
    {
        match self {
            State::Alice(AliceState::CommitA(_)) => true,
            State::Bob(BobState::CommitB(_, _)) => true,
            _ => false,
        }
    }

    /// The local parameters were revealed.
    #[verifier::allow_in_spec]
    pub fn revealed(&self) -> bool
        returns
            (*self matches State::Alice(AliceState::RevealA(_))) || (*self matches State::Bob(
                BobState::RevealB(_, _),
            )),
    {
        match self {
            State::Alice(AliceState::RevealA(_)) => true,
            State::Bob(BobState::RevealB(_, _)) => true,
            _ => false,
        }
    }

    /// Alice sent her refund procedure signatures.
    #[verifier::allow_in_spec]
    pub fn a_refundsig(&self) -> bool
        returns
            (*self matches State::Alice(AliceState::RefundSigA { .. })),
    {
        match self {
            State::Alice(AliceState::RefundSigA { .. }) => true,
            _ => false,
        }
    }

    /// Alice saw her monero locked.
    #[verifier::allow_in_spec]
    pub fn a_xmr_locked(&self) -> bool
        returns
            (*self matches State::Alice(AliceState::RefundSigA { xmr_locked: true, .. })),
    {
        match self {
            State::Alice(AliceState::RefundSigA { xmr_locked, .. }) => *xmr_locked,
            _ => false,
        }
    }

    /// Alice published the buy transaction.
    #[verifier::allow_in_spec]
    pub fn a_buy_published(&self) -> bool
        returns
            (*self matches State::Alice(AliceState::RefundSigA { buy_published: true, .. })),
    {
        match self {
            State::Alice(AliceState::RefundSigA { buy_published, .. }) => *buy_published,
            _ => false,
        }
    }

    /// Alice saw Bob's refund transaction.
    #[verifier::allow_in_spec]
    pub fn a_refund_seen(&self) -> bool
        returns
            (*self matches State::Alice(AliceState::RefundSigA { refund_seen: true, .. })),
    {
        match self {
            State::Alice(AliceState::RefundSigA { refund_seen, .. }) => *refund_seen,
            _ => false,
        }
    }

    /// Bob sent his core arbitrating setup.
    #[verifier::allow_in_spec]
    pub fn b_core_arb(&self) -> bool
        returns
            (*self matches State::Bob(BobState::CorearbB { .. })),
    {
        match self {
            State::Bob(BobState::CorearbB { .. }) => true,
            _ => false,
        }
    }

    /// Bob sent his buy procedure signature.
    #[verifier::allow_in_spec]
    pub fn b_buy_sig(&self) -> bool
        returns
            (*self matches State::Bob(BobState::BuySigB { .. })),
    {
        match self {
            State::Bob(BobState::BuySigB { .. }) => true,
            _ => false,
        }
    }

    /// The cancel transaction was seen.
    #[verifier::allow_in_spec]
    pub fn cancel_seen(&self) -> bool
        returns
            (*self matches State::Alice(AliceState::RefundSigA { cancel_seen: true, .. })) || (
            *self matches State::Bob(BobState::CorearbB { cancel_seen: true, .. })),
    {
        match self {
            State::Alice(AliceState::RefundSigA { cancel_seen, .. }) => *cancel_seen,
            State::Bob(BobState::CorearbB { cancel_seen, .. }) => *cancel_seen,
            _ => false,
        }
    }

    /// Cancelling is in order: the lock can be out, nobody cancelled yet, and the
    /// bitcoin are not on their way to Alice.
    #[verifier::allow_in_spec]
    pub fn safe_cancel(&self) -> bool
        returns
            match *self {
                State::Alice(
                    AliceState::RefundSigA { buy_published, cancel_seen, .. },
                ) => !buy_published && !cancel_seen,
                State::Bob(BobState::CorearbB { cancel_seen, .. }) => !cancel_seen,
                State::Bob(BobState::BuySigB { buy_tx_seen }) => !buy_tx_seen,
                _ => false,
            },
    {
        match self {
            State::Alice(AliceState::RefundSigA { buy_published, cancel_seen, .. }) => {
                !*buy_published && !*cancel_seen
            },
            State::Bob(BobState::CorearbB { cancel_seen, .. }) => !*cancel_seen,
            State::Bob(BobState::BuySigB { buy_tx_seen }) => !*buy_tx_seen,
            _ => false,
        }
    }

    /// Maker or taker, as long as it matters.
    #[verifier::allow_in_spec]
    pub fn trade_role(&self) -> Option<TradeRole>
        returns
            match *self {
                State::Alice(AliceState::StartA { local_trade_role, .. }) => Some(local_trade_role),
                State::Bob(BobState::StartB { local_trade_role, .. }) => Some(local_trade_role),
                State::Alice(AliceState::CommitA(x)) => Some(x.local_trade_role),
                State::Alice(AliceState::RevealA(x)) => Some(x.local_trade_role),
                State::Bob(BobState::CommitB(x, _)) => Some(x.local_trade_role),
                State::Bob(BobState::RevealB(x, _)) => Some(x.local_trade_role),
                _ => None,
            },
    {
        match self {
            State::Alice(AliceState::StartA { local_trade_role, .. }) => Some(*local_trade_role),
            State::Bob(BobState::StartB { local_trade_role, .. }) => Some(*local_trade_role),
            State::Alice(AliceState::CommitA(x)) => Some(x.local_trade_role),
            State::Alice(AliceState::RevealA(x)) => Some(x.local_trade_role),
            State::Bob(BobState::CommitB(x, _)) => Some(x.local_trade_role),
            State::Bob(BobState::RevealB(x, _)) => Some(x.local_trade_role),
            _ => None,
        }
    }

    /// The exchange of parameters, while it goes on.
    #[verifier::allow_in_spec]
    pub fn exchange(&self) -> Option<&Exchange>
        returns
            match self {
                State::Alice(AliceState::CommitA(x)) => Some(x),
                State::Alice(AliceState::RevealA(x)) => Some(x),
                State::Bob(BobState::CommitB(x, _)) => Some(x),
                State::Bob(BobState::RevealB(x, _)) => Some(x),
                _ => None,
            },
    {
        match self {
            State::Alice(AliceState::CommitA(x)) => Some(x),
            State::Alice(AliceState::RevealA(x)) => Some(x),
            State::Bob(BobState::CommitB(x, _)) => Some(x),
            State::Bob(BobState::RevealB(x, _)) => Some(x),
            _ => None,
        }
    }

    /// The offer, before the swap has begun.
    #[verifier::allow_in_spec]
    pub fn public_offer(&self) -> Option<&PublicOffer>
        returns
            match self {
                State::Alice(AliceState::StartA { public_offer, .. }) => Some(public_offer),
                State::Bob(BobState::StartB { public_offer, .. }) => Some(public_offer),
                _ => None,
            },
    {
        match self {
            State::Alice(AliceState::StartA { public_offer, .. }) => Some(public_offer),
            State::Bob(BobState::StartB { public_offer, .. }) => Some(public_offer),
            _ => None,
        }
    }

    /// The counterparty's commitment.
    #[verifier::allow_in_spec]
    pub fn remote_commit(&self) -> Option<&Commit>
        returns
            match self.exchange() {
                Some(x) => match &x.remote_commit {
                    Some(c) => Some(c),
                    None => None,
                },
                None => None,
            },
    {
        match self.exchange() {
            Some(x) => match &x.remote_commit {
                Some(c) => Some(c),
                None => None,
            },
            None => None,
        }
    }

    /// The local parameters, while they matter.
    #[verifier::allow_in_spec]
    pub fn local_params(&self) -> Option<&Params>
        returns
            match self {
                State::Alice(AliceState::RefundSigA { local_params, .. }) => Some(local_params),
                State::Bob(BobState::CorearbB { local_params, .. }) => Some(local_params),
                _ => match self.exchange() {
                    Some(x) => Some(&x.local_params),
                    None => None,
                },
            },
    {
        match self {
            State::Alice(AliceState::RefundSigA { local_params, .. }) => Some(local_params),
            State::Bob(BobState::CorearbB { local_params, .. }) => Some(local_params),
            _ => match self.exchange() {
                Some(x) => Some(&x.local_params),
                None => None,
            },
        }
    }

    /// The counterparty's parameters, as soon as they are known and while they
    /// matter.
    #[verifier::allow_in_spec]
    pub fn remote_params(&self) -> Option<&Params>
        returns
            match self {
                State::Alice(AliceState::RefundSigA { remote_params, .. }) => Some(remote_params),
                State::Bob(BobState::CorearbB { remote_params, .. }) => Some(remote_params),
                _ => match self.exchange() {
                    Some(x) => match &x.remote_params {
                        Some(p) => Some(p),
                        None => None,
                    },
                    None => None,
                },
            },
    {
        match self {
            State::Alice(AliceState::RefundSigA { remote_params, .. }) => Some(remote_params),
            State::Bob(BobState::CorearbB { remote_params, .. }) => Some(remote_params),
            _ => match self.exchange() {
                Some(x) => match &x.remote_params {
                    Some(p) => Some(p),
                    None => None,
                },
                None => None,
            },
        }
    }

    /// Bob's funding address, until it is funded.
    #[verifier::allow_in_spec]
    pub fn b_address(&self) -> Option<&BitcoinAddress>
        returns
            match self {
                State::Bob(BobState::CommitB(_, a)) => Some(a),
                State::Bob(BobState::RevealB(_, a)) => Some(a),
                _ => None,
            },
    {
        match self {
            State::Bob(BobState::CommitB(_, a)) => Some(a),
            State::Bob(BobState::RevealB(_, a)) => Some(a),
            _ => None,
        }
    }

    /// The state's name.
    #[verifier::allow_in_spec]
    pub fn name(&self) -> StateName
        returns
            match *self {
                State::Alice(a) => StateName {
                    role: SwapRole::Alice,
                    stage: match a {
                        AliceState::StartA { .. } => Stage::Start,
                        AliceState::CommitA(_) => Stage::Commit,
                        AliceState::RevealA(_) => Stage::Reveal,
                        AliceState::RefundSigA { .. } => Stage::RefundSig,
                        AliceState::FinishA(o) => Stage::Finish(o),
                    },
                },
                State::Bob(b) => StateName {
                    role: SwapRole::Bob,
                    stage: match b {
                        BobState::StartB { .. } => Stage::Start,
                        BobState::CommitB(_, _) => Stage::Commit,
                        BobState::RevealB(_, _) => Stage::Reveal,
                        BobState::CorearbB { .. } => Stage::CoreArb,
                        BobState::BuySigB { .. } => Stage::BuySig,
                        BobState::FinishB(o) => Stage::Finish(o),
                    },
                },
            },
    {
        match self {
            State::Alice(a) => StateName {
                role: SwapRole::Alice,
                stage: match a {
                    AliceState::StartA { .. } => Stage::Start,
                    AliceState::CommitA(_) => Stage::Commit,
                    AliceState::RevealA(_) => Stage::Reveal,
                    AliceState::RefundSigA { .. } => Stage::RefundSig,
                    AliceState::FinishA(o) => Stage::Finish(*o),
                },
            },
            State::Bob(b) => StateName {
                role: SwapRole::Bob,
                stage: match b {
                    BobState::StartB { .. } => Stage::Start,
                    BobState::CommitB(_, _) => Stage::Commit,
                    BobState::RevealB(_, _) => Stage::Reveal,
                    BobState::CorearbB { .. } => Stage::CoreArb,
                    BobState::BuySigB { .. } => Stage::BuySig,
                    BobState::FinishB(o) => Stage::Finish(*o),
                },
            },
        }
    }
}

/// How a state moves on.
impl State {
    /// The swap begins: the local commitment is made. Bob brings his funding address;
    /// without it he stays where he is.
    #[verifier::allow_in_spec]
    pub fn sup_start_to_commit(
        self,
        local_commit: Commit,
        local_params: Params,
        funding_address: Option<BitcoinAddress>,
        remote_commit: Option<Commit>,
    ) -> State
        returns
            match self {
                State::Alice(AliceState::StartA { local_trade_role, .. }) => State::Alice(
                    AliceState::CommitA(
                        Exchange {
                            local_trade_role,
                            local_params,
                            local_commit,
                            remote_commit,
                            remote_params: None,
                        },
                    ),
                ),
                State::Bob(BobState::StartB { local_trade_role, public_offer }) => match funding_address {
                    Some(a) => State::Bob(
                        BobState::CommitB(
                            Exchange {
                                local_trade_role,
                                local_params,
                                local_commit,
                                remote_commit,
                                remote_params: None,
                            },
                            a,
                        ),
                    ),
                    None => State::Bob(BobState::StartB { local_trade_role, public_offer }),
                },
                s => s,
            },
    {
        match self {
            State::Alice(AliceState::StartA { local_trade_role, .. }) => State::Alice(
                AliceState::CommitA(
                    Exchange {
                        local_trade_role,
                        local_params,
                        local_commit,
                        remote_commit,
                        remote_params: None,
                    },
                ),
            ),
            State::Bob(BobState::StartB { local_trade_role, public_offer }) => match funding_address {
                Some(a) => State::Bob(
                    BobState::CommitB(
                        Exchange {
                            local_trade_role,
                            local_params,
                            local_commit,
                            remote_commit,
                            remote_params: None,
                        },
                        a,
                    ),
                ),
                None => State::Bob(BobState::StartB { local_trade_role, public_offer }),
            },
            s => s,
        }
    }

    /// The taker learns the maker's commitment.
    #[verifier::allow_in_spec]
    pub fn t_sup_remote_commit(self, commit: Commit) -> State
        returns
            match self {
                State::Alice(AliceState::CommitA(x)) => State::Alice(
                    AliceState::CommitA(Exchange { remote_commit: Some(commit), ..x }),
                ),
                State::Bob(BobState::CommitB(x, a)) => State::Bob(
                    BobState::CommitB(Exchange { remote_commit: Some(commit), ..x }, a),
                ),
                s => s,
            },
    {
        match self {
            State::Alice(AliceState::CommitA(x)) => State::Alice(
                AliceState::CommitA(Exchange { remote_commit: Some(commit), ..x }),
            ),
            State::Bob(BobState::CommitB(x, a)) => State::Bob(
                BobState::CommitB(Exchange { remote_commit: Some(commit), ..x }, a),
            ),
            s => s,
        }
    }

    /// The counterparty's parameters are known.
    #[verifier::allow_in_spec]
    pub fn sup_remote_params(self, params: Params) -> State
        returns
            match self {
                State::Alice(AliceState::CommitA(x)) => State::Alice(
                    AliceState::CommitA(Exchange { remote_params: Some(params), ..x }),
                ),
                State::Alice(AliceState::RevealA(x)) => State::Alice(
                    AliceState::RevealA(Exchange { remote_params: Some(params), ..x }),
                ),
                State::Bob(BobState::CommitB(x, a)) => State::Bob(
                    BobState::CommitB(Exchange { remote_params: Some(params), ..x }, a),
                ),
                State::Bob(BobState::RevealB(x, a)) => State::Bob(
                    BobState::RevealB(Exchange { remote_params: Some(params), ..x }, a),
                ),
                s => s,
            },
    {
        match self {
            State::Alice(AliceState::CommitA(x)) => State::Alice(
                AliceState::CommitA(Exchange { remote_params: Some(params), ..x }),
            ),
            State::Alice(AliceState::RevealA(x)) => State::Alice(
                AliceState::RevealA(Exchange { remote_params: Some(params), ..x }),
            ),
            State::Bob(BobState::CommitB(x, a)) => State::Bob(
                BobState::CommitB(Exchange { remote_params: Some(params), ..x }, a),
            ),
            State::Bob(BobState::RevealB(x, a)) => State::Bob(
                BobState::RevealB(Exchange { remote_params: Some(params), ..x }, a),
            ),
            s => s,
        }
    }

    /// The local parameters are revealed.
    #[verifier::allow_in_spec]
    pub fn sup_commit_to_reveal(self) -> State
        returns
            match self {
                State::Alice(AliceState::CommitA(x)) => State::Alice(AliceState::RevealA(x)),
                State::Bob(BobState::CommitB(x, a)) => State::Bob(BobState::RevealB(x, a)),
                s => s,
            },
    {
        match self {
            State::Alice(AliceState::CommitA(x)) => State::Alice(AliceState::RevealA(x)),
            State::Bob(BobState::CommitB(x, a)) => State::Bob(BobState::RevealB(x, a)),
            s => s,
        }
    }

    /// Alice's monero are locked.
    #[verifier::allow_in_spec]
    pub fn a_sup_refundsig_xmrlocked(self) -> State
        returns
            match self {
                State::Alice(
                    AliceState::RefundSigA {
                        local_params,
                        remote_params,
                        buy_published,
                        cancel_seen,
                        refund_seen,
                        ..
                    },
                ) => State::Alice(
                    AliceState::RefundSigA {
                        local_params,
                        remote_params,
                        xmr_locked: true,
                        buy_published,
                        cancel_seen,
                        refund_seen,
                    },
                ),
                s => s,
            },
    {
        match self {
            State::Alice(
                AliceState::RefundSigA {
                    local_params,
                    remote_params,
                    buy_published,
                    cancel_seen,
                    refund_seen,
                    ..
                },
            ) => State::Alice(
                AliceState::RefundSigA {
                    local_params,
                    remote_params,
                    xmr_locked: true,
                    buy_published,
                    cancel_seen,
                    refund_seen,
                },
            ),
            s => s,
        }
    }

    /// Alice saw the refund transaction.
    #[verifier::allow_in_spec]
    pub fn a_sup_refundsig_refund_seen(self) -> State
        returns
            match self {
                State::Alice(
                    AliceState::RefundSigA {
                        local_params,
                        remote_params,
                        xmr_locked,
                        buy_published,
                        cancel_seen,
                        ..
                    },
                ) => State::Alice(
                    AliceState::RefundSigA {
                        local_params,
                        remote_params,
                        xmr_locked,
                        buy_published,
                        cancel_seen,
                        refund_seen: true,
                    },
                ),
                s => s,
            },
    {
        match self {
            State::Alice(
                AliceState::RefundSigA {
                    local_params,
                    remote_params,
                    xmr_locked,
                    buy_published,
                    cancel_seen,
                    ..
                },
            ) => State::Alice(
                AliceState::RefundSigA {
                    local_params,
                    remote_params,
                    xmr_locked,
                    buy_published,
                    cancel_seen,
                    refund_seen: true,
                },
            ),
            s => s,
        }
    }

    /// The cancel transaction was seen.
    #[verifier::allow_in_spec]
    pub fn sup_cancel_seen(self) -> State
        returns
            match self {
                State::Alice(
                    AliceState::RefundSigA {
                        local_params,
                        remote_params,
                        xmr_locked,
                        buy_published,
                        refund_seen,
                        ..
                    },
                ) => State::Alice(
                    AliceState::RefundSigA {
                        local_params,
                        remote_params,
                        xmr_locked,
                        buy_published,
                        cancel_seen: true,
                        refund_seen,
                    },
                ),
                State::Bob(BobState::CorearbB { local_params, remote_params, .. }) => State::Bob(
                    BobState::CorearbB { local_params, remote_params, cancel_seen: true },
                ),
                s => s,
            },
    {
        match self {
            State::Alice(
                AliceState::RefundSigA {
                    local_params,
                    remote_params,
                    xmr_locked,
                    buy_published,
                    refund_seen,
                    ..
                },
            ) => State::Alice(
                AliceState::RefundSigA {
                    local_params,
                    remote_params,
                    xmr_locked,
                    buy_published,
                    cancel_seen: true,
                    refund_seen,
                },
            ),
            State::Bob(BobState::CorearbB { local_params, remote_params, .. }) => State::Bob(
                BobState::CorearbB { local_params, remote_params, cancel_seen: true },
            ),
            s => s,
        }
    }

    /// Bob saw the buy transaction.
    #[verifier::allow_in_spec]
    pub fn b_sup_buysig_buy_tx_seen(self) -> State
        returns
            match self {
                State::Bob(BobState::BuySigB { .. }) => State::Bob(
                    BobState::BuySigB { buy_tx_seen: true },
                ),
                s => s,
            },
    {
        match self {
            State::Bob(BobState::BuySigB { .. }) => State::Bob(
                BobState::BuySigB { buy_tx_seen: true },
            ),
            s => s,
        }
    }
}

/// A state is named by its role and its stage, and a finished one by its outcome.
pub proof fn law_states_named(state: State, outcome: Outcome)
    ensures
        state.name().role == SwapRole::Alice <==> state is Alice,
        state.name().stage is Start <==> (state matches State::Alice(AliceState::StartA { .. })) || (
        state matches State::Bob(BobState::StartB { .. })),
        state.name().stage is Commit <==> (state matches State::Alice(AliceState::CommitA(_))) || (
        state matches State::Bob(BobState::CommitB(_, _))),
        state.name().stage is Reveal <==> (state matches State::Alice(AliceState::RevealA(_))) || (
        state matches State::Bob(BobState::RevealB(_, _))),
        state.name().stage is RefundSig <==> (state matches State::Alice(
            AliceState::RefundSigA { .. },
        )),
        state.name().stage is CoreArb <==> (state matches State::Bob(BobState::CorearbB { .. })),
        state.name().stage is BuySig <==> (state matches State::Bob(BobState::BuySigB { .. })),
        state.name().stage == Stage::Finish(outcome) <==> state == State::Alice(
            AliceState::FinishA(outcome),
        ) || state == State::Bob(BobState::FinishB(outcome)),
{
}

} // verus!
