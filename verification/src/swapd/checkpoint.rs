//! Deferred requests and the checkpoints that carry them across restarts.
use std::sync::Arc;
use vstd::prelude::*;

use crate::base::{ServiceBus, ServiceId, SwapId, TxLabel, Txid};
use crate::blob::{share, Blob};
use crate::chain::Transaction;
use crate::map::{Dup, VecMap};
use crate::message::{Msg, Request};
use crate::swapd::state::State;
use crate::swapd::temporal_safety::TemporalSafety;

verus! {

/// A request that waits for its moment, with the bus and the service it goes to.
#[derive(Debug, PartialEq, Eq)]
pub struct PendingRequest {
    pub dest: ServiceId,
    pub bus_id: ServiceBus,
    pub request: Request,
}

impl Clone for PendingRequest {
    fn clone(&self) -> (r: Self)
        ensures
            r == *self,
    {
        PendingRequest { dest: self.dest, bus_id: self.bus_id, request: self.request.clone() }
    }
}

/// The requests that wait for one service, oldest first.
#[derive(Debug, PartialEq, Eq)]
pub struct Queue(pub Arc<Vec<PendingRequest>>);

impl View for Queue {
    type V = Seq<PendingRequest>;

    open spec fn view(&self) -> Seq<PendingRequest> {
        self.0@
    }
}

impl Clone for Queue {
    fn clone(&self) -> (r: Self)
        ensures
            r == *self,
    {
        Queue(share(&self.0))
    }
}

impl Queue {
    pub fn one(request: PendingRequest) -> (r: Queue)
        ensures
            r@ == seq![request],
    {
        Queue(Arc::new(vec![request]))
    }

    pub fn len(&self) -> (r: usize)
        ensures
            r == self@.len(),
    {
        self.0.len()
    }

    pub fn at(&self, i: usize) -> (r: &PendingRequest)
        requires
            i < self@.len(),
        ensures
            *r == self@[i as int],
    {
        &self.0[i]
    }

    /// The queue with one more request at its end.
    pub fn pushed(&self, request: PendingRequest) -> (r: Queue)
        ensures
            r@ == self@.push(request),
    {
        let mut all: Vec<PendingRequest> = Vec::new();
        let mut i: usize = 0;
        while i < self.0.len()
            invariant
                i <= self.0.len(),
                all@ == self@.take(i as int),
            decreases self.0.len() - i,
        {
            all.push(self.0[i].clone());
            i = i + 1;
            assert(all@ =~= self@.take(i as int));
        }
        assert(all@ =~= self@);
        all.push(request);
        Queue(Arc::new(all))
    }
}

impl Dup for Queue {
    fn dup(&self) -> (r: Self) {
        self.clone()
    }
}

impl Dup for Transaction {
    fn dup(&self) -> (r: Self) {
        self.clone()
    }
}

impl Dup for Txid {
    fn dup(&self) -> (r: Self) {
        *self
    }
}

/// All that a swap needs to go on after a restart.
#[derive(Debug, PartialEq, Eq)]
pub struct CheckpointSwapd {
    pub state: State,
    pub last_msg: Msg,
    pub enquirer: Option<ServiceId>,
    pub temporal_safety: TemporalSafety,
    pub txs: VecMap<TxLabel, Transaction>,
    pub txids: VecMap<TxLabel, Txid>,
    pub pending_requests: VecMap<ServiceId, Queue>,
}

/// The checkpoints of the daemons; the wallet's is none of the swap daemon's
/// business.
#[derive(Debug, PartialEq, Eq)]
pub enum CheckpointState {
    CheckpointSwapd(CheckpointSwapd),
    CheckpointWallet(Blob),
}

/// A checkpoint of a swap.
#[derive(Debug, PartialEq, Eq)]
pub struct Checkpoint {
    pub swap_id: SwapId,
    pub state: CheckpointState,
}

} // verus!
