//! What the swap daemon has asked of its two syncers and heard from them.
use vstd::prelude::*;

use crate::base::{Blockchain, Key, Network, ServiceId, TaskId, TxLabel, Txid};
use crate::blob::Blob;
use crate::map::{entries_map, lemma_entries, VecMap};
use crate::message::{
    AddressAddendum, SweepAddress, SweepAddressAddendum, SweepBitcoinAddress, SweepMoneroAddress,
    Task, TaskTarget, TransactionConfirmations, TxHash,
};

verus! {

/// Blocks of bitcoin behind the tip from which on an address is watched.
pub const BTC_WATCH_DEPTH: u64 = 6;

/// Blocks of monero behind the tip from which on an address is watched.
pub const XMR_WATCH_DEPTH: u64 = 20;

/// The tasks at work.
pub struct SyncerTasks {
    /// The number of the latest task.
    pub counter: u32,
    pub watched_addrs: VecMap<TaskId, TxLabel>,
    pub watched_txs: VecMap<TaskId, TxLabel>,
    pub retrieving_txs: VecMap<TaskId, (TxLabel, Task)>,
    pub sweeping_addr: Option<TaskId>,
    /// Transactions that are to be retrieved when they are final.
    pub txids: VecMap<TxLabel, Txid>,
    pub final_txs: VecMap<TxLabel, bool>,
}

/// The tasks and the latest news from both chains.
pub struct SyncerState {
    pub tasks: SyncerTasks,
    pub monero_height: u64,
    pub bitcoin_height: u64,
    pub confirmation_bound: u32,
    /// The latest confirmations of the lock, cancel and buy transaction.
    pub lock_tx_confs: Option<TransactionConfirmations>,
    pub cancel_tx_confs: Option<TransactionConfirmations>,
    pub buy_tx_confs: Option<TransactionConfirmations>,
    pub network: Network,
    pub monero_amount: u64,
    pub bitcoin_amount: u64,
    pub awaiting_funding: bool,
    pub confirmations: VecMap<TxLabel, u32>,
    pub btc_fee_estimate_sat_per_kvb: Option<u64>,
}

/// The mathematical content of a `SyncerState`.
pub struct SyncerView {
    pub counter: u32,
    pub watched_addrs: Map<TaskId, TxLabel>,
    pub watched_txs: Map<TaskId, TxLabel>,
    pub retrieving_txs: Map<TaskId, (TxLabel, Task)>,
    pub sweeping_addr: Option<TaskId>,
    pub txids: Map<TxLabel, Txid>,
    pub final_txs: Map<TxLabel, bool>,
    pub monero_height: u64,
    pub bitcoin_height: u64,
    pub confirmation_bound: u32,
    pub lock_tx_confs: Option<TransactionConfirmations>,
    pub cancel_tx_confs: Option<TransactionConfirmations>,
    pub buy_tx_confs: Option<TransactionConfirmations>,
    pub network: Network,
    pub monero_amount: u64,
    pub bitcoin_amount: u64,
    pub awaiting_funding: bool,
    pub confirmations: Map<TxLabel, u32>,
    pub btc_fee_estimate_sat_per_kvb: Option<u64>,
}

impl View for SyncerState {
    type V = SyncerView;

    open spec fn view(&self) -> SyncerView {
        SyncerView {
            counter: self.tasks.counter,
            watched_addrs: self.tasks.watched_addrs@,
            watched_txs: self.tasks.watched_txs@,
            retrieving_txs: self.tasks.retrieving_txs@,
            sweeping_addr: self.tasks.sweeping_addr,
            txids: self.tasks.txids@,
            final_txs: self.tasks.final_txs@,
            monero_height: self.monero_height,
            bitcoin_height: self.bitcoin_height,
            confirmation_bound: self.confirmation_bound,
            lock_tx_confs: self.lock_tx_confs,
            cancel_tx_confs: self.cancel_tx_confs,
            buy_tx_confs: self.buy_tx_confs,
            network: self.network,
            monero_amount: self.monero_amount,
            bitcoin_amount: self.bitcoin_amount,
            awaiting_funding: self.awaiting_funding,
            confirmations: self.confirmations@,
            btc_fee_estimate_sat_per_kvb: self.btc_fee_estimate_sat_per_kvb,
        }
    }
}

/// Whether some task watches what bears the label.
pub open spec fn watches(tasks: Map<TaskId, TxLabel>, label: TxLabel) -> bool {
    exists|id: TaskId| #[trigger] tasks.dom().contains(id) && tasks[id] == label
}

/// Whether a task exists and bears the label.
pub open spec fn bears(tasks: Map<TaskId, TxLabel>, id: TaskId, label: TxLabel) -> bool {
    tasks.dom().contains(id) && tasks[id] == label
}

fn watched(tasks: &VecMap<TaskId, TxLabel>, label: TxLabel) -> (r: bool)
    ensures
        r == watches(tasks@, label),
{
    let entries = tasks.entries();
    proof {
        lemma_entries(entries@);
    }
    let mut i: usize = 0;
    while i < entries.len()
        invariant
            i <= entries.len(),
            forall|j: int| 0 <= j < i ==> (#[trigger] entries@[j]).1 != label,
            tasks@ == entries_map(entries@),
            forall|j: int|
                0 <= j < entries@.len() ==> tasks@.dom().contains((#[trigger] entries@[j]).0)
                    && tasks@[entries@[j].0] == entries@[j].1,
        decreases entries.len() - i,
    {
        if entries[i].1 == label {
            assert(tasks@.dom().contains(entries@[i as int].0));
            return true;
        }
        i = i + 1;
    }
    proof {
        if watches(tasks@, label) {
            let id = choose|id: TaskId| #[trigger]
                tasks@.dom().contains(id) && tasks@[id] == label;
            let j = choose|j: int| 0 <= j < entries@.len() && entries@[j].0 == id;
            assert(entries@[j].1 == label);
        }
    }
    false
}

impl SyncerView {
    /// The identifier that the next task gets.
    pub open spec fn next_id(self) -> TaskId {
        TaskId((self.counter + 1) as u32)
    }

    /// The height of a chain.
    pub open spec fn height(self, blockchain: Blockchain) -> u64 {
        match blockchain {
            Blockchain::Bitcoin => self.bitcoin_height,
            Blockchain::Monero => self.monero_height,
        }
    }

    /// The height until which a task is kept alive: a bound above the tip, or for
    /// ever while the height is not known.
    pub open spec fn lifetime(self, blockchain: Blockchain) -> u64 {
        let height = self.height(blockchain);
        if height == 0 || height + self.confirmation_bound > u64::MAX {
            u64::MAX
        } else {
            (height + self.confirmation_bound) as u64
        }
    }

    /// The height some blocks behind the tip, or the first.
    pub open spec fn behind(self, blockchain: Blockchain, depth: u64) -> u64 {
        let height = self.height(blockchain);
        if depth > height {
            0
        } else {
            (height - depth) as u64
        }
    }

    /// One more task was numbered.
    pub open spec fn counted(self) -> SyncerView {
        SyncerView { counter: (self.counter + 1) as u32, ..self }
    }

    /// One more task watches an address.
    pub open spec fn watching_addr(self, label: TxLabel) -> SyncerView {
        SyncerView {
            watched_addrs: self.watched_addrs.insert(self.next_id(), label),
            ..self.counted()
        }
    }

    /// One more task watches a transaction.
    pub open spec fn watching_tx(self, label: TxLabel) -> SyncerView {
        SyncerView {
            watched_txs: self.watched_txs.insert(self.next_id(), label),
            ..self.counted()
        }
    }

    /// The task that watches a bitcoin address.
    pub open spec fn addr_btc_task(self, script_pubkey: Blob) -> Task {
        Task::WatchAddress {
            id: self.next_id(),
            lifetime: self.lifetime(Blockchain::Bitcoin),
            addendum: AddressAddendum::Bitcoin {
                script_pubkey,
                from_height: self.behind(Blockchain::Bitcoin, BTC_WATCH_DEPTH),
            },
            with_tx: true,
        }
    }

    /// The task that watches a monero address, from a given height or from some
    /// blocks behind the tip.
    pub open spec fn addr_xmr_task(
        self,
        spend_key: [u8; 32],
        view_key: [u8; 32],
        from_height: Option<u64>,
    ) -> Task {
        Task::WatchAddress {
            id: self.next_id(),
            lifetime: self.lifetime(Blockchain::Monero),
            addendum: AddressAddendum::Monero {
                spend_key,
                view_key,
                from_height: match from_height {
                    Some(h) => h,
                    None => self.behind(Blockchain::Monero, XMR_WATCH_DEPTH),
                },
            },
            with_tx: false,
        }
    }

    /// The task that watches a transaction.
    pub open spec fn tx_task(self, blockchain: Blockchain, hash: TxHash) -> Task {
        Task::WatchTransaction {
            id: self.next_id(),
            lifetime: self.lifetime(blockchain),
            hash,
            confirmation_bound: self.confirmation_bound,
        }
    }

    /// The task that watches a chain's height.
    pub open spec fn height_task(self, blockchain: Blockchain) -> Task {
        Task::WatchHeight { id: self.next_id(), lifetime: self.lifetime(blockchain) }
    }

    /// The task that watches the bitcoin fee rate.
    pub open spec fn fee_task(self) -> Task {
        Task::WatchEstimateFee {
            id: self.next_id(),
            lifetime: self.lifetime(Blockchain::Bitcoin),
        }
    }

    /// The task that retrieves a bitcoin transaction.
    pub open spec fn retrieval_task(self, txid: Txid) -> Task {
        Task::GetTx { id: self.next_id(), hash: TxHash::Bitcoin(txid) }
    }

    /// A final transaction is retrieved, once.
    pub open spec fn retrieving(self, label: TxLabel, txid: Txid) -> SyncerView {
        SyncerView {
            retrieving_txs: self.retrieving_txs.insert(
                self.next_id(),
                (label, self.retrieval_task(txid)),
            ),
            txids: self.txids.remove(label),
            ..self.counted()
        }
    }

    /// The order to sweep the ephemeral monero wallet.
    pub open spec fn xmr_sweep(
        self,
        keys: SweepMoneroAddress,
        from_height: Option<u64>,
        retry: bool,
    ) -> SweepAddress {
        SweepAddress {
            id: self.next_id(),
            lifetime: self.lifetime(Blockchain::Monero),
            from_height,
            retry,
            addendum: SweepAddressAddendum::Monero(keys),
        }
    }

    /// The order to sweep the bitcoin funding address.
    pub open spec fn btc_sweep(self, keys: SweepBitcoinAddress, retry: bool) -> SweepAddress {
        SweepAddress {
            id: self.next_id(),
            lifetime: self.lifetime(Blockchain::Bitcoin),
            from_height: None,
            retry,
            addendum: SweepAddressAddendum::Bitcoin(keys),
        }
    }

    /// Word came of how deep a watched transaction is. A transaction not on the chain
    /// changes nothing; one at or below the threshold is marked final.
    pub open spec fn confirmed(self, id: TaskId, confirmations: Option<u32>, thr: u32) -> SyncerView {
        match confirmations {
            Some(c) => if self.watched_txs.dom().contains(id) {
                let label = self.watched_txs[id];
                SyncerView {
                    confirmations: self.confirmations.insert(label, c),
                    final_txs: if thr <= c {
                        self.final_txs.insert(label, true)
                    } else {
                        self.final_txs
                    },
                    ..self
                }
            } else {
                self
            },
            None => self,
        }
    }

    /// Word came of a chain's height; it never goes back.
    pub open spec fn risen(self, blockchain: Blockchain, height: u64) -> SyncerView {
        match blockchain {
            Blockchain::Bitcoin => SyncerView {
                bitcoin_height: if height > self.bitcoin_height {
                    height
                } else {
                    self.bitcoin_height
                },
                ..self
            },
            Blockchain::Monero => SyncerView {
                monero_height: if height > self.monero_height {
                    height
                } else {
                    self.monero_height
                },
                ..self
            },
        }
    }
}

/// The task that ends another task.
pub open spec fn abort_one(id: TaskId) -> Task {
    Task::Abort { task_target: TaskTarget::TaskId(id), respond: false }
}

/// The task that ends all tasks.
pub open spec fn abort_every() -> Task {
    Task::Abort { task_target: TaskTarget::AllTasks, respond: false }
}

/// The task that ends another task.
pub fn abort_task(id: TaskId) -> (r: Task)
    ensures
        r == abort_one(id),
{
    Task::Abort { task_target: TaskTarget::TaskId(id), respond: false }
}

/// The task that ends all tasks.
pub fn abort_all() -> (r: Task)
    ensures
        r == abort_every(),
{
    Task::Abort { task_target: TaskTarget::AllTasks, respond: false }
}

impl SyncerTasks {
    /// Numbers another task.
    pub fn new_taskid(&mut self) -> (r: TaskId)
        requires
            old(self).counter < u32::MAX,
        ensures
            r.0 == old(self).counter + 1,
            final(self).counter == r.0,
            final(self).watched_addrs == old(self).watched_addrs,
            final(self).watched_txs == old(self).watched_txs,
            final(self).retrieving_txs == old(self).retrieving_txs,
            final(self).sweeping_addr == old(self).sweeping_addr,
            final(self).txids == old(self).txids,
            final(self).final_txs == old(self).final_txs,
    {
        self.counter = self.counter + 1;
        TaskId(self.counter)
    }
}

impl SyncerState {
    /// The state before anything was asked or heard.
    pub fn new(network: Network, monero_amount: u64, bitcoin_amount: u64) -> (r: SyncerState)
        ensures
            r@ == (SyncerView {
                counter: 0,
                watched_addrs: Map::empty(),
                watched_txs: Map::empty(),
                retrieving_txs: Map::empty(),
                sweeping_addr: None,
                txids: Map::empty(),
                final_txs: Map::empty(),
                monero_height: 0,
                bitcoin_height: 0,
                confirmation_bound: 50000,
                lock_tx_confs: None,
                cancel_tx_confs: None,
                buy_tx_confs: None,
                network,
                monero_amount,
                bitcoin_amount,
                awaiting_funding: false,
                confirmations: Map::empty(),
                btc_fee_estimate_sat_per_kvb: None,
            }),
    {
        SyncerState {
            tasks: SyncerTasks {
                counter: 0,
                watched_addrs: VecMap::new(),
                watched_txs: VecMap::new(),
                retrieving_txs: VecMap::new(),
                sweeping_addr: None,
                txids: VecMap::new(),
                final_txs: VecMap::new(),
            },
            monero_height: 0,
            bitcoin_height: 0,
            confirmation_bound: 50000,
            lock_tx_confs: None,
            cancel_tx_confs: None,
            buy_tx_confs: None,
            network,
            monero_amount,
            bitcoin_amount,
            awaiting_funding: false,
            confirmations: VecMap::new(),
            btc_fee_estimate_sat_per_kvb: None,
        }
    }

    #[verifier::allow_in_spec]
    pub fn bitcoin_syncer(&self) -> ServiceId
        returns
            ServiceId::Syncer(Blockchain::Bitcoin, self.network),
    {
        ServiceId::Syncer(Blockchain::Bitcoin, self.network)
    }

    #[verifier::allow_in_spec]
    pub fn monero_syncer(&self) -> ServiceId
        returns
            ServiceId::Syncer(Blockchain::Monero, self.network),
    {
        ServiceId::Syncer(Blockchain::Monero, self.network)
    }

    pub fn is_watched_addr(&self, label: TxLabel) -> (r: bool)
        ensures
            r == watches(self@.watched_addrs, label),
    {
        watched(&self.tasks.watched_addrs, label)
    }

    pub fn is_watched_tx(&self, label: TxLabel) -> (r: bool)
        ensures
            r == watches(self@.watched_txs, label),
    {
        watched(&self.tasks.watched_txs, label)
    }

    /// Whether the task watches the address that bears the label.
    pub fn addr_bears(&self, id: TaskId, label: TxLabel) -> (r: bool)
        ensures
            r == bears(self@.watched_addrs, id, label),
    {
        match self.tasks.watched_addrs.get(&id) {
            Some(l) => *l == label,
            None => false,
        }
    }

    /// Whether the task watches the transaction that bears the label.
    pub fn tx_bears(&self, id: TaskId, label: TxLabel) -> (r: bool)
        ensures
            r == bears(self@.watched_txs, id, label),
    {
        match self.tasks.watched_txs.get(&id) {
            Some(l) => *l == label,
            None => false,
        }
    }

    pub fn height(&self, blockchain: Blockchain) -> (r: u64)
        ensures
            r == self@.height(blockchain),
    {
        match blockchain {
            Blockchain::Bitcoin => self.bitcoin_height,
            Blockchain::Monero => self.monero_height,
        }
    }

    pub fn task_lifetime(&self, blockchain: Blockchain) -> (r: u64)
        ensures
            r == self@.lifetime(blockchain),
    {
        let height: u64 = self.height(blockchain);
        if height == 0 {
            u64::MAX
        } else {
            match height.checked_add(self.confirmation_bound as u64) {
                Some(h) => h,
                None => u64::MAX,
            }
        }
    }

    pub fn from_height(&self, blockchain: Blockchain, depth: u64) -> (r: u64)
        ensures
            r == self@.behind(blockchain, depth),
    {
        let height: u64 = self.height(blockchain);
        if depth > height {
            0
        } else {
            height - depth
        }
    }

    /// How deep a transaction was when it was last heard of.
    pub fn get_confs(&self, label: TxLabel) -> (r: Option<u32>)
        ensures
            match r {
                Some(c) => self@.confirmations.dom().contains(label) && self@.confirmations[label]
                    == c,
                None => !self@.confirmations.dom().contains(label),
            },
    {
        match self.confirmations.get(&label) {
            Some(c) => Some(*c),
            None => None,
        }
    }

    pub fn watch_addr_btc(&mut self, script_pubkey: Blob, label: TxLabel) -> (r: Task)
        requires
            old(self).tasks.counter < u32::MAX,
        ensures
            final(self)@ == old(self)@.watching_addr(label),
            r == old(self)@.addr_btc_task(script_pubkey),
    {
        let from_height: u64 = self.from_height(Blockchain::Bitcoin, BTC_WATCH_DEPTH);
        let lifetime: u64 = self.task_lifetime(Blockchain::Bitcoin);
        let id: TaskId = self.tasks.new_taskid();
        self.tasks.watched_addrs.insert(id, label);
        Task::WatchAddress {
            id,
            lifetime,
            addendum: AddressAddendum::Bitcoin { script_pubkey, from_height },
            with_tx: true,
        }
    }

    pub fn watch_addr_xmr(
        &mut self,
        spend_key: [u8; 32],
        view_key: [u8; 32],
        label: TxLabel,
        from_height: Option<u64>,
    ) -> (r: Task)
        requires
            old(self).tasks.counter < u32::MAX,
        ensures
            final(self)@ == old(self)@.watching_addr(label),
            r == old(self)@.addr_xmr_task(spend_key, view_key, from_height),
    {
        let from_height: u64 = match from_height {
            Some(h) => h,
            None => self.from_height(Blockchain::Monero, XMR_WATCH_DEPTH),
        };
        let lifetime: u64 = self.task_lifetime(Blockchain::Monero);
        let id: TaskId = self.tasks.new_taskid();
        self.tasks.watched_addrs.insert(id, label);
        Task::WatchAddress {
            id,
            lifetime,
            addendum: AddressAddendum::Monero { spend_key, view_key, from_height },
            with_tx: false,
        }
    }

    pub fn watch_tx_btc(&mut self, txid: Txid, label: TxLabel) -> (r: Task)
        requires
            old(self).tasks.counter < u32::MAX,
        ensures
            final(self)@ == old(self)@.watching_tx(label),
            r == old(self)@.tx_task(Blockchain::Bitcoin, TxHash::Bitcoin(txid)),
    {
        let lifetime: u64 = self.task_lifetime(Blockchain::Bitcoin);
        let id: TaskId = self.tasks.new_taskid();
        self.tasks.watched_txs.insert(id, label);
        Task::WatchTransaction {
            id,
            lifetime,
            hash: TxHash::Bitcoin(txid),
            confirmation_bound: self.confirmation_bound,
        }
    }

    pub fn watch_tx_xmr(&mut self, hash: Blob, label: TxLabel) -> (r: Task)
        requires
            old(self).tasks.counter < u32::MAX,
        ensures
            final(self)@ == old(self)@.watching_tx(label),
            r == old(self)@.tx_task(Blockchain::Monero, TxHash::Monero(hash)),
    {
        let lifetime: u64 = self.task_lifetime(Blockchain::Monero);
        let id: TaskId = self.tasks.new_taskid();
        self.tasks.watched_txs.insert(id, label);
        Task::WatchTransaction {
            id,
            lifetime,
            hash: TxHash::Monero(hash),
            confirmation_bound: self.confirmation_bound,
        }
    }

    pub fn watch_height(&mut self, blockchain: Blockchain) -> (r: Task)
        requires
            old(self).tasks.counter < u32::MAX,
        ensures
            final(self)@ == old(self)@.counted(),
            r == old(self)@.height_task(blockchain),
    {
        let lifetime: u64 = self.task_lifetime(blockchain);
        let id: TaskId = self.tasks.new_taskid();
        Task::WatchHeight { id, lifetime }
    }

    pub fn watch_fee(&mut self) -> (r: Task)
        requires
            old(self).tasks.counter < u32::MAX,
        ensures
            final(self)@ == old(self)@.counted(),
            r == old(self)@.fee_task(),
    {
        let lifetime: u64 = self.task_lifetime(Blockchain::Bitcoin);
        let id: TaskId = self.tasks.new_taskid();
        Task::WatchEstimateFee { id, lifetime }
    }

    /// Retrieves a transaction and forgets that it was to be retrieved.
    pub fn retrieve_tx_btc(&mut self, txid: Txid, label: TxLabel) -> (r: Task)
        requires
            old(self).tasks.counter < u32::MAX,
        ensures
            final(self)@ == old(self)@.retrieving(label, txid),
            r == old(self)@.retrieval_task(txid),
    {
        self.tasks.txids.remove(&label);
        let id: TaskId = self.tasks.new_taskid();
        let task: Task = Task::GetTx { id, hash: TxHash::Bitcoin(txid) };
        self.tasks.retrieving_txs.insert(id, (label, task.clone()));
        task
    }

    /// The order that a sweep of the ephemeral monero wallet would be.
    pub fn sweep_xmr(&self, keys: SweepMoneroAddress, from_height: Option<u64>, retry: bool) -> (r:
        SweepAddress)
        requires
            self.tasks.counter < u32::MAX,
        ensures
            r == self@.xmr_sweep(keys, from_height, retry),
    {
        SweepAddress {
            id: TaskId(self.tasks.counter + 1),
            lifetime: self.task_lifetime(Blockchain::Monero),
            from_height,
            retry,
            addendum: SweepAddressAddendum::Monero(keys),
        }
    }

    /// The order that a sweep of the bitcoin funding address would be.
    pub fn sweep_btc(&self, keys: SweepBitcoinAddress, retry: bool) -> (r: SweepAddress)
        requires
            self.tasks.counter < u32::MAX,
        ensures
            r == self@.btc_sweep(keys, retry),
    {
        SweepAddress {
            id: TaskId(self.tasks.counter + 1),
            lifetime: self.task_lifetime(Blockchain::Bitcoin),
            from_height: None,
            retry,
            addendum: SweepAddressAddendum::Bitcoin(keys),
        }
    }

    pub fn handle_height_change(&mut self, height: u64, blockchain: Blockchain)
        ensures
            final(self)@ == old(self)@.risen(blockchain, height),
    {
        match blockchain {
            Blockchain::Bitcoin => {
                if height > self.bitcoin_height {
                    self.bitcoin_height = height;
                }
            },
            Blockchain::Monero => {
                if height > self.monero_height {
                    self.monero_height = height;
                }
            },
        }
    }

    pub fn handle_tx_confs(&mut self, id: TaskId, confirmations: Option<u32>, thr: u32)
        ensures
            final(self)@ == old(self)@.confirmed(id, confirmations, thr),
    {
        let label: TxLabel = match self.tasks.watched_txs.get(&id) {
            Some(l) => *l,
            None => {
                return;
            },
        };
        if let Some(c) = confirmations {
            self.confirmations.insert(label, c);
            if c >= thr {
                self.tasks.final_txs.insert(label, true);
            }
        }
    }
}

} // verus!
