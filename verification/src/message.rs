//! What the daemons say to each other: peer messages, syncer tasks and events, and
//! the requests that carry them.
use std::sync::Arc;
use vstd::prelude::*;

use crate::base::{
    Blockchain, Checksum, NodeAddr, Notice, Outcome, RequestType, ServiceId, SwapId, TaskId, Txid,
};
use crate::blob::{share, Blob};
use crate::chain::{BitcoinAddress, Psbt, Transaction};
use crate::crypto::{Commit, MoneroAddress, Params, Reveal, Sealed};
use crate::swapd::checkpoint::Checkpoint;

verus! {

/// The taker's commitment with the offer that is taken.
#[derive(Debug, PartialEq, Eq)]
pub struct TakerCommit {
    pub commit: Commit,
    pub public_offer: String,
    pub swap_id: SwapId,
}

impl Clone for TakerCommit {
    fn clone(&self) -> (r: Self)
        ensures
            r == *self,
    {
        TakerCommit {
            commit: self.commit.clone(),
            public_offer: self.public_offer.clone(),
            swap_id: self.swap_id,
        }
    }
}

/// Bob's transactions on the arbitrating chain and his signature on the cancel
/// transaction.
#[derive(Debug, PartialEq, Eq)]
pub struct CoreArbitratingSetup {
    pub swap_id: SwapId,
    pub lock: Psbt,
    pub cancel: Psbt,
    pub refund: Psbt,
    pub cancel_sig: Blob,
}

impl Clone for CoreArbitratingSetup {
    fn clone(&self) -> (r: Self)
        ensures
            r == *self,
    {
        CoreArbitratingSetup {
            swap_id: self.swap_id,
            lock: self.lock.clone(),
            cancel: self.cancel.clone(),
            refund: self.refund.clone(),
            cancel_sig: self.cancel_sig.clone(),
        }
    }
}

/// Bob's encrypted signature on the buy transaction.
#[derive(Debug, PartialEq, Eq)]
pub struct BuyProcedureSignature {
    pub swap_id: SwapId,
    pub buy: Psbt,
    pub buy_adaptor_sig: Blob,
}

impl Clone for BuyProcedureSignature {
    fn clone(&self) -> (r: Self)
        ensures
            r == *self,
    {
        BuyProcedureSignature {
            swap_id: self.swap_id,
            buy: self.buy.clone(),
            buy_adaptor_sig: self.buy_adaptor_sig.clone(),
        }
    }
}

/// Messages between the two parties of a swap.
#[derive(Debug, PartialEq, Eq)]
pub enum Msg {
    MakerCommit(Commit),
    TakerCommit(TakerCommit),
    Reveal(Reveal),
    CoreArbitratingSetup(CoreArbitratingSetup),
    RefundProcedureSignatures(Sealed),
    BuyProcedureSignature(BuyProcedureSignature),
    Abort(Sealed),
    /// The maker does not know the offer that was taken.
    OfferNotFound(SwapId),
    Ping,
    Pong,
    PingPeer,
}

impl Clone for Msg {
    fn clone(&self) -> (r: Self)
        ensures
            r == *self,
    {
        match self {
            Msg::MakerCommit(m) => Msg::MakerCommit(m.clone()),
            Msg::TakerCommit(m) => Msg::TakerCommit(m.clone()),
            Msg::Reveal(m) => Msg::Reveal(m.clone()),
            Msg::CoreArbitratingSetup(m) => Msg::CoreArbitratingSetup(m.clone()),
            Msg::RefundProcedureSignatures(m) => Msg::RefundProcedureSignatures(m.clone()),
            Msg::BuyProcedureSignature(m) => Msg::BuyProcedureSignature(m.clone()),
            Msg::Abort(m) => Msg::Abort(m.clone()),
            Msg::OfferNotFound(m) => Msg::OfferNotFound(*m),
            Msg::Ping => Msg::Ping,
            Msg::Pong => Msg::Pong,
            Msg::PingPeer => Msg::PingPeer,
        }
    }
}

impl Msg {
    /// The swap a message belongs to; the messages that keep a connection alive
    /// belong to none.
    pub open spec fn spec_swap_id(&self) -> Option<SwapId> {
        match self {
            Msg::MakerCommit(m) => Some(m.swap_id()),
            Msg::TakerCommit(m) => Some(m.swap_id),
            Msg::Reveal(m) => Some(m.swap_id()),
            Msg::CoreArbitratingSetup(m) => Some(m.swap_id),
            Msg::RefundProcedureSignatures(m) => Some(m.swap_id),
            Msg::BuyProcedureSignature(m) => Some(m.swap_id),
            Msg::Abort(m) => Some(m.swap_id),
            Msg::OfferNotFound(id) => Some(*id),
            Msg::Ping => None,
            Msg::Pong => None,
            Msg::PingPeer => None,
        }
    }

    #[verifier::when_used_as_spec(spec_swap_id)]
    pub fn swap_id(&self) -> (r: Option<SwapId>)
        ensures
            r == self.spec_swap_id(),
    {
        match self {
            Msg::MakerCommit(m) => Some(m.swap_id()),
            Msg::TakerCommit(m) => Some(m.swap_id),
            Msg::Reveal(m) => Some(m.swap_id()),
            Msg::CoreArbitratingSetup(m) => Some(m.swap_id),
            Msg::RefundProcedureSignatures(m) => Some(m.swap_id),
            Msg::BuyProcedureSignature(m) => Some(m.swap_id),
            Msg::Abort(m) => Some(m.swap_id),
            Msg::OfferNotFound(id) => Some(*id),
            Msg::Ping => None,
            Msg::Pong => None,
            Msg::PingPeer => None,
        }
    }
}

/// The keys of an ephemeral monero wallet and where its coins shall go.
#[derive(Debug, PartialEq, Eq)]
pub struct SweepMoneroAddress {
    pub source_spend_key: [u8; 32],
    pub source_view_key: [u8; 32],
    pub destination_address: String,
    pub minimum_balance: u64,
}

impl Clone for SweepMoneroAddress {
    fn clone(&self) -> (r: Self)
        ensures
            r == *self,
    {
        SweepMoneroAddress {
            source_spend_key: self.source_spend_key,
            source_view_key: self.source_view_key,
            destination_address: self.destination_address.clone(),
            minimum_balance: self.minimum_balance,
        }
    }
}

/// The key of the bitcoin funding address and where its coins shall go.
#[derive(Debug, PartialEq, Eq)]
pub struct SweepBitcoinAddress {
    pub source_secret_key: [u8; 32],
    pub source_address: BitcoinAddress,
    pub destination_address: BitcoinAddress,
}

impl Clone for SweepBitcoinAddress {
    fn clone(&self) -> (r: Self)
        ensures
            r == *self,
    {
        SweepBitcoinAddress {
            source_secret_key: self.source_secret_key,
            source_address: self.source_address.clone(),
            destination_address: self.destination_address.clone(),
        }
    }
}

#[derive(Debug, PartialEq, Eq)]
pub enum SweepAddressAddendum {
    Monero(SweepMoneroAddress),
    Bitcoin(SweepBitcoinAddress),
}

impl Clone for SweepAddressAddendum {
    fn clone(&self) -> (r: Self)
        ensures
            r == *self,
    {
        match self {
            SweepAddressAddendum::Monero(a) => SweepAddressAddendum::Monero(a.clone()),
            SweepAddressAddendum::Bitcoin(a) => SweepAddressAddendum::Bitcoin(a.clone()),
        }
    }
}

/// The order to sweep an address.
#[derive(Debug, PartialEq, Eq)]
pub struct SweepAddress {
    pub id: TaskId,
    pub lifetime: u64,
    pub from_height: Option<u64>,
    pub retry: bool,
    pub addendum: SweepAddressAddendum,
}

impl Clone for SweepAddress {
    fn clone(&self) -> (r: Self)
        ensures
            r == *self,
    {
        SweepAddress {
            id: self.id,
            lifetime: self.lifetime,
            from_height: self.from_height,
            retry: self.retry,
            addendum: self.addendum.clone(),
        }
    }
}

/// The address that a syncer watches and the height from which on it does.
#[derive(Debug, PartialEq, Eq)]
pub enum AddressAddendum {
    Bitcoin { script_pubkey: Blob, from_height: u64 },
    Monero { spend_key: [u8; 32], view_key: [u8; 32], from_height: u64 },
}

impl Clone for AddressAddendum {
    fn clone(&self) -> (r: Self)
        ensures
            r == *self,
    {
        match self {
            AddressAddendum::Bitcoin { script_pubkey, from_height } => AddressAddendum::Bitcoin {
                script_pubkey: script_pubkey.clone(),
                from_height: *from_height,
            },
            AddressAddendum::Monero { spend_key, view_key, from_height } => {
                AddressAddendum::Monero {
                    spend_key: *spend_key,
                    view_key: *view_key,
                    from_height: *from_height,
                }
            },
        }
    }
}

/// The hash of a transaction on either chain.
#[derive(Debug, PartialEq, Eq)]
pub enum TxHash {
    Bitcoin(Txid),
    Monero(Blob),
}

impl Clone for TxHash {
    fn clone(&self) -> (r: Self)
        ensures
            r == *self,
    {
        match self {
            TxHash::Bitcoin(id) => TxHash::Bitcoin(*id),
            TxHash::Monero(h) => TxHash::Monero(h.clone()),
        }
    }
}

/// Which tasks of a syncer to abort.
#[derive(Clone, Copy, Debug, PartialEq, Eq, Structural)]
pub enum TaskTarget {
    TaskId(TaskId),
    AllTasks,
}

/// Orders to a syncer.
#[derive(Debug, PartialEq, Eq)]
pub enum Task {
    Abort { task_target: TaskTarget, respond: bool },
    WatchHeight { id: TaskId, lifetime: u64 },
    WatchEstimateFee { id: TaskId, lifetime: u64 },
    WatchAddress { id: TaskId, lifetime: u64, addendum: AddressAddendum, with_tx: bool },
    WatchTransaction { id: TaskId, lifetime: u64, hash: TxHash, confirmation_bound: u32 },
    BroadcastTransaction { id: TaskId, tx: Blob },
    GetTx { id: TaskId, hash: TxHash },
    SweepAddress(SweepAddress),
}

impl Clone for Task {
    fn clone(&self) -> (r: Self)
        ensures
            r == *self,
    {
        match self {
            Task::Abort { task_target, respond } => Task::Abort {
                task_target: *task_target,
                respond: *respond,
            },
            Task::WatchHeight { id, lifetime } => Task::WatchHeight {
                id: *id,
                lifetime: *lifetime,
            },
            Task::WatchEstimateFee { id, lifetime } => Task::WatchEstimateFee {
                id: *id,
                lifetime: *lifetime,
            },
            Task::WatchAddress { id, lifetime, addendum, with_tx } => Task::WatchAddress {
                id: *id,
                lifetime: *lifetime,
                addendum: addendum.clone(),
                with_tx: *with_tx,
            },
            Task::WatchTransaction { id, lifetime, hash, confirmation_bound } => {
                Task::WatchTransaction {
                    id: *id,
                    lifetime: *lifetime,
                    hash: hash.clone(),
                    confirmation_bound: *confirmation_bound,
                }
            },
            Task::BroadcastTransaction { id, tx } => Task::BroadcastTransaction {
                id: *id,
                tx: tx.clone(),
            },
            Task::GetTx { id, hash } => Task::GetTx { id: *id, hash: hash.clone() },
            Task::SweepAddress(s) => Task::SweepAddress(s.clone()),
        }
    }
}

/// How deep a watched transaction is buried; nothing while it is not on the chain.
#[derive(Clone, Copy, Debug, PartialEq, Eq, Structural)]
pub struct TransactionConfirmations {
    pub id: TaskId,
    pub confirmations: Option<u32>,
}

/// A payment to a watched address. The raw transaction may come in several parts.
#[derive(Debug, PartialEq, Eq)]
pub struct AddressTransaction {
    pub id: TaskId,
    pub hash: Blob,
    pub amount: u64,
    pub tx: Arc<Vec<Blob>>,
}

impl Clone for AddressTransaction {
    fn clone(&self) -> (r: Self)
        ensures
            r == *self,
    {
        AddressTransaction {
            id: self.id,
            hash: self.hash.clone(),
            amount: self.amount,
            tx: share(&self.tx),
        }
    }
}

/// What a syncer reports.
#[derive(Debug, PartialEq, Eq)]
pub enum SyncEvent {
    HeightChanged { height: u64 },
    AddressTransaction(AddressTransaction),
    TransactionConfirmations(TransactionConfirmations),
    TransactionRetrieved { id: TaskId, tx: Option<Transaction> },
    TransactionBroadcasted(TaskId),
    TaskAborted { ids: Arc<Vec<TaskId>> },
    SweepSuccess { id: TaskId },
    /// The rate for a transaction that is to be confirmed soon.
    FeeEstimation { id: TaskId, sat_per_kvb: u64 },
    /// A watched address holds nothing yet.
    Empty(TaskId),
}

impl Clone for SyncEvent {
    fn clone(&self) -> (r: Self)
        ensures
            r == *self,
    {
        match self {
            SyncEvent::HeightChanged { height } => SyncEvent::HeightChanged { height: *height },
            SyncEvent::AddressTransaction(a) => SyncEvent::AddressTransaction(a.clone()),
            SyncEvent::TransactionConfirmations(c) => SyncEvent::TransactionConfirmations(*c),
            SyncEvent::TransactionRetrieved { id, tx } => SyncEvent::TransactionRetrieved {
                id: *id,
                tx: match tx {
                    Some(tx) => Some(tx.clone()),
                    None => None,
                },
            },
            SyncEvent::TransactionBroadcasted(id) => SyncEvent::TransactionBroadcasted(*id),
            SyncEvent::TaskAborted { ids } => SyncEvent::TaskAborted { ids: share(ids) },
            SyncEvent::SweepSuccess { id } => SyncEvent::SweepSuccess { id: *id },
            SyncEvent::FeeEstimation { id, sat_per_kvb } => SyncEvent::FeeEstimation {
                id: *id,
                sat_per_kvb: *sat_per_kvb,
            },
            SyncEvent::Empty(id) => SyncEvent::Empty(*id),
        }
    }
}

/// A bitcoin transaction with the part it plays.
#[derive(Debug, PartialEq, Eq)]
pub enum Tx {
    Funding(Transaction),
    Lock(Transaction),
    Cancel(Transaction),
    Refund(Transaction),
    Punish(Transaction),
    Buy(Transaction),
}

impl Clone for Tx {
    fn clone(&self) -> (r: Self)
        ensures
            r == *self,
    {
        match self {
            Tx::Funding(t) => Tx::Funding(t.clone()),
            Tx::Lock(t) => Tx::Lock(t.clone()),
            Tx::Cancel(t) => Tx::Cancel(t.clone()),
            Tx::Refund(t) => Tx::Refund(t.clone()),
            Tx::Punish(t) => Tx::Punish(t.clone()),
            Tx::Buy(t) => Tx::Buy(t.clone()),
        }
    }
}

/// The start of a swap whose parameters the wallet daemon has prepared. Bob brings
/// his funding address, a maker the taker's commitment.
#[derive(Debug, PartialEq, Eq)]
pub struct InitSwap {
    pub peerd: ServiceId,
    pub report_to: Option<ServiceId>,
    pub local_params: Params,
    pub swap_id: SwapId,
    pub remote_commit: Option<Commit>,
    pub funding_address: Option<BitcoinAddress>,
}

impl Clone for InitSwap {
    fn clone(&self) -> (r: Self)
        ensures
            r == *self,
    {
        InitSwap {
            peerd: self.peerd,
            report_to: self.report_to,
            local_params: self.local_params.clone(),
            swap_id: self.swap_id,
            remote_commit: match &self.remote_commit {
                Some(c) => Some(c.clone()),
                None => None,
            },
            funding_address: match &self.funding_address {
                Some(a) => Some(a.clone()),
                None => None,
            },
        }
    }
}

/// The start of a swap as taker, from the user's keys and addresses.
#[derive(Debug, PartialEq, Eq)]
pub struct InitTakerSwap {
    pub peerd: ServiceId,
    pub report_to: ServiceId,
    pub swap_id: SwapId,
    pub key_manager: Blob,
    pub target_bitcoin_address: BitcoinAddress,
    pub target_monero_address: String,
}

impl Clone for InitTakerSwap {
    fn clone(&self) -> (r: Self)
        ensures
            r == *self,
    {
        InitTakerSwap {
            peerd: self.peerd,
            report_to: self.report_to,
            swap_id: self.swap_id,
            key_manager: self.key_manager.clone(),
            target_bitcoin_address: self.target_bitcoin_address.clone(),
            target_monero_address: self.target_monero_address.clone(),
        }
    }
}

/// The start of a swap as maker, from the user's keys and addresses and the taker's
/// commitment.
#[derive(Debug, PartialEq, Eq)]
pub struct InitMakerSwap {
    pub peerd: ServiceId,
    pub report_to: ServiceId,
    pub swap_id: SwapId,
    pub key_manager: Blob,
    pub target_bitcoin_address: BitcoinAddress,
    pub target_monero_address: String,
    pub commit: Commit,
}

impl Clone for InitMakerSwap {
    fn clone(&self) -> (r: Self)
        ensures
            r == *self,
    {
        InitMakerSwap {
            peerd: self.peerd,
            report_to: self.report_to,
            swap_id: self.swap_id,
            key_manager: self.key_manager.clone(),
            target_bitcoin_address: self.target_bitcoin_address.clone(),
            target_monero_address: self.target_monero_address.clone(),
            commit: self.commit.clone(),
        }
    }
}

/// Where to send how much to fund a swap.
#[derive(Debug, PartialEq, Eq)]
pub enum FundingInfo {
    Bitcoin { swap_id: SwapId, address: BitcoinAddress, amount: u64 },
    Monero(MoneroFundingInfo),
}

impl Clone for FundingInfo {
    fn clone(&self) -> (r: Self)
        ensures
            r == *self,
    {
        match self {
            FundingInfo::Bitcoin { swap_id, address, amount } => FundingInfo::Bitcoin {
                swap_id: *swap_id,
                address: address.clone(),
                amount: *amount,
            },
            FundingInfo::Monero(m) => FundingInfo::Monero(*m),
        }
    }
}

/// Where Alice sends how much monero.
#[derive(Clone, Copy, Debug, PartialEq, Eq)]
pub struct MoneroFundingInfo {
    pub swap_id: SwapId,
    pub address: MoneroAddress,
    pub amount: u64,
}

/// A stand-in for the keys of a party, of which clients are told nothing.
#[derive(Clone, Copy, Debug, PartialEq, Eq)]
pub struct Keyset {}

/// What a client is told about a swap: its identifier unless it is all zeros, the
/// peer it runs with, how long it has been up and since when, in seconds, and stand-ins
/// for its own keys and for those of the peer.
#[derive(Clone, Copy, Debug, PartialEq, Eq)]
pub struct SwapInfo {
    pub swap_id: Option<SwapId>,
    pub maker_peer: Option<NodeAddr>,
    pub uptime: u64,
    pub since: u64,
    pub local_keys: Keyset,
    pub remote_keys: Option<(NodeAddr, Keyset)>,
}

#[derive(Clone, Copy, Debug, PartialEq, Eq)]
pub struct Failure {
    pub code: u16,
    pub info: Notice,
}

/// One part of a checkpoint that is too large for one message.
#[derive(Debug, PartialEq, Eq)]
pub struct CheckpointMultipartChunk {
    pub checksum: Checksum,
    pub msg_index: usize,
    pub msgs_total: usize,
    pub serialized_state_chunk: Blob,
    pub swap_id: SwapId,
}

impl Clone for CheckpointMultipartChunk {
    fn clone(&self) -> (r: Self)
        ensures
            r == *self,
    {
        CheckpointMultipartChunk {
            checksum: self.checksum,
            msg_index: self.msg_index,
            msgs_total: self.msgs_total,
            serialized_state_chunk: self.serialized_state_chunk.clone(),
            swap_id: self.swap_id,
        }
    }
}

/// A request that the wallet daemon holds back while it fetches its secrets.
#[derive(Debug, PartialEq, Eq)]
pub enum RuntimeContext {
    GetInfo,
    MakeOffer(Blob),
    TakeOffer(Blob),
    Listen(NodeAddr),
    ConnectPeer(NodeAddr),
}

impl Clone for RuntimeContext {
    fn clone(&self) -> (r: Self)
        ensures
            r == *self,
    {
        match self {
            RuntimeContext::GetInfo => RuntimeContext::GetInfo,
            RuntimeContext::MakeOffer(o) => RuntimeContext::MakeOffer(o.clone()),
            RuntimeContext::TakeOffer(o) => RuntimeContext::TakeOffer(o.clone()),
            RuntimeContext::Listen(a) => RuntimeContext::Listen(*a),
            RuntimeContext::ConnectPeer(a) => RuntimeContext::ConnectPeer(*a),
        }
    }
}

/// Requests on the buses between daemons.
#[derive(Debug, PartialEq, Eq)]
pub enum Request {
    Hello,
    Terminate,
    GetInfo,
    SwapInfo(SwapInfo),
    Protocol(Msg),
    TakeSwap(InitSwap),
    MakeSwap(InitSwap),
    InitTakerSwap(InitTakerSwap),
    InitMakerSwap(InitMakerSwap),
    AbortSwap,
    SweepXmrAddress(SweepMoneroAddress),
    FundingUpdated,
    FundingInfo(FundingInfo),
    FundingCompleted(Blockchain),
    FundingCanceled(Blockchain),
    SyncerTask(Task),
    SyncerEvent(SyncEvent),
    Tx(Tx),
    SwapOutcome(Outcome),
    PeerdReconnected,
    PeerdUnreachable(ServiceId),
    Progress(Notice),
    Info(Notice),
    Failure(Failure),
    CheckpointMultipartChunk(CheckpointMultipartChunk),
    Checkpoint(Arc<Checkpoint>),
    /// The token that gives access to the secrets, and who asks on whose behalf.
    GetSecret(String, RuntimeContext),
    Secret(Blob, RuntimeContext),
    GetNodeId,
    NodeId([u8; 33]),
    Loopback(RuntimeContext),
    MakeOffer(Blob),
    TakeOffer(Blob),
    Listen(NodeAddr),
    ConnectPeer(NodeAddr),
}

impl Request {
    /// The kind of the request.
    #[verifier::allow_in_spec]
    pub fn get_type(&self) -> RequestType
        returns
            match *self {
                Request::Hello => RequestType::Hello,
                Request::Terminate => RequestType::Terminate,
                Request::GetInfo => RequestType::GetInfo,
                Request::SwapInfo(_) => RequestType::SwapInfo,
                Request::Protocol(_) => RequestType::Protocol,
                Request::TakeSwap(_) => RequestType::TakeSwap,
                Request::MakeSwap(_) => RequestType::MakeSwap,
                Request::InitTakerSwap(_) => RequestType::InitTakerSwap,
                Request::InitMakerSwap(_) => RequestType::InitMakerSwap,
                Request::AbortSwap => RequestType::AbortSwap,
                Request::SweepXmrAddress(_) => RequestType::SweepXmrAddress,
                Request::FundingUpdated => RequestType::FundingUpdated,
                Request::FundingInfo(_) => RequestType::FundingInfo,
                Request::FundingCompleted(_) => RequestType::FundingCompleted,
                Request::FundingCanceled(_) => RequestType::FundingCanceled,
                Request::SyncerTask(_) => RequestType::SyncerTask,
                Request::SyncerEvent(_) => RequestType::SyncerEvent,
                Request::Tx(_) => RequestType::Tx,
                Request::SwapOutcome(_) => RequestType::SwapOutcome,
                Request::PeerdReconnected => RequestType::PeerdReconnected,
                Request::PeerdUnreachable(_) => RequestType::PeerdUnreachable,
                Request::Progress(_) => RequestType::Progress,
                Request::Info(_) => RequestType::Info,
                Request::Failure(_) => RequestType::Failure,
                Request::CheckpointMultipartChunk(_) => RequestType::CheckpointMultipartChunk,
                Request::Checkpoint(_) => RequestType::Checkpoint,
                Request::GetSecret(_, _) => RequestType::GetSecret,
                Request::Secret(_, _) => RequestType::Secret,
                Request::GetNodeId => RequestType::GetNodeId,
                Request::NodeId(_) => RequestType::NodeId,
                Request::Loopback(_) => RequestType::Loopback,
                Request::MakeOffer(_) => RequestType::MakeOffer,
                Request::TakeOffer(_) => RequestType::TakeOffer,
                Request::Listen(_) => RequestType::Listen,
                Request::ConnectPeer(_) => RequestType::ConnectPeer,
            },
    {
        match self {
            Request::Hello => RequestType::Hello,
            Request::Terminate => RequestType::Terminate,
            Request::GetInfo => RequestType::GetInfo,
            Request::SwapInfo(_) => RequestType::SwapInfo,
            Request::Protocol(_) => RequestType::Protocol,
            Request::TakeSwap(_) => RequestType::TakeSwap,
            Request::MakeSwap(_) => RequestType::MakeSwap,
            Request::InitTakerSwap(_) => RequestType::InitTakerSwap,
            Request::InitMakerSwap(_) => RequestType::InitMakerSwap,
            Request::AbortSwap => RequestType::AbortSwap,
            Request::SweepXmrAddress(_) => RequestType::SweepXmrAddress,
            Request::FundingUpdated => RequestType::FundingUpdated,
            Request::FundingInfo(_) => RequestType::FundingInfo,
            Request::FundingCompleted(_) => RequestType::FundingCompleted,
            Request::FundingCanceled(_) => RequestType::FundingCanceled,
            Request::SyncerTask(_) => RequestType::SyncerTask,
            Request::SyncerEvent(_) => RequestType::SyncerEvent,
            Request::Tx(_) => RequestType::Tx,
            Request::SwapOutcome(_) => RequestType::SwapOutcome,
            Request::PeerdReconnected => RequestType::PeerdReconnected,
            Request::PeerdUnreachable(_) => RequestType::PeerdUnreachable,
            Request::Progress(_) => RequestType::Progress,
            Request::Info(_) => RequestType::Info,
            Request::Failure(_) => RequestType::Failure,
            Request::CheckpointMultipartChunk(_) => RequestType::CheckpointMultipartChunk,
            Request::Checkpoint(_) => RequestType::Checkpoint,
            Request::GetSecret(_, _) => RequestType::GetSecret,
            Request::Secret(_, _) => RequestType::Secret,
            Request::GetNodeId => RequestType::GetNodeId,
            Request::NodeId(_) => RequestType::NodeId,
            Request::Loopback(_) => RequestType::Loopback,
            Request::MakeOffer(_) => RequestType::MakeOffer,
            Request::TakeOffer(_) => RequestType::TakeOffer,
            Request::Listen(_) => RequestType::Listen,
            Request::ConnectPeer(_) => RequestType::ConnectPeer,
        }
    }
}

impl Clone for Request {
    fn clone(&self) -> (r: Self)
        ensures
            r == *self,
    {
        match self {
            Request::Hello => Request::Hello,
            Request::Terminate => Request::Terminate,
            Request::GetInfo => Request::GetInfo,
            Request::SwapInfo(i) => Request::SwapInfo(*i),
            Request::Protocol(m) => Request::Protocol(m.clone()),
            Request::TakeSwap(i) => Request::TakeSwap(i.clone()),
            Request::MakeSwap(i) => Request::MakeSwap(i.clone()),
            Request::InitTakerSwap(i) => Request::InitTakerSwap(i.clone()),
            Request::InitMakerSwap(i) => Request::InitMakerSwap(i.clone()),
            Request::AbortSwap => Request::AbortSwap,
            Request::SweepXmrAddress(s) => Request::SweepXmrAddress(s.clone()),
            Request::FundingUpdated => Request::FundingUpdated,
            Request::FundingInfo(f) => Request::FundingInfo(f.clone()),
            Request::FundingCompleted(b) => Request::FundingCompleted(*b),
            Request::FundingCanceled(b) => Request::FundingCanceled(*b),
            Request::SyncerTask(t) => Request::SyncerTask(t.clone()),
            Request::SyncerEvent(e) => Request::SyncerEvent(e.clone()),
            Request::Tx(t) => Request::Tx(t.clone()),
            Request::SwapOutcome(o) => Request::SwapOutcome(*o),
            Request::PeerdReconnected => Request::PeerdReconnected,
            Request::PeerdUnreachable(s) => Request::PeerdUnreachable(*s),
            Request::Progress(n) => Request::Progress(*n),
            Request::Info(n) => Request::Info(*n),
            Request::Failure(f) => Request::Failure(*f),
            Request::CheckpointMultipartChunk(c) => Request::CheckpointMultipartChunk(c.clone()),
            Request::Checkpoint(c) => Request::Checkpoint(share(c)),
            Request::GetSecret(t, c) => Request::GetSecret(t.clone(), c.clone()),
            Request::Secret(s, c) => Request::Secret(s.clone(), c.clone()),
            Request::GetNodeId => Request::GetNodeId,
            Request::NodeId(n) => Request::NodeId(*n),
            Request::Loopback(c) => Request::Loopback(c.clone()),
            Request::MakeOffer(o) => Request::MakeOffer(o.clone()),
            Request::TakeOffer(o) => Request::TakeOffer(o.clone()),
            Request::Listen(a) => Request::Listen(*a),
            Request::ConnectPeer(a) => Request::ConnectPeer(*a),
        }
    }
}

/// The type of a request bears the name of its kind, and tells it from every other.
pub proof fn law_request_types(request: Request)
    ensures
        request is Hello <==> request.get_type() is Hello,
        request is Terminate <==> request.get_type() is Terminate,
        request is GetInfo <==> request.get_type() is GetInfo,
        request is SwapInfo <==> request.get_type() is SwapInfo,
        request is Protocol <==> request.get_type() is Protocol,
        request is TakeSwap <==> request.get_type() is TakeSwap,
        request is MakeSwap <==> request.get_type() is MakeSwap,
        request is InitTakerSwap <==> request.get_type() is InitTakerSwap,
        request is InitMakerSwap <==> request.get_type() is InitMakerSwap,
        request is AbortSwap <==> request.get_type() is AbortSwap,
        request is SweepXmrAddress <==> request.get_type() is SweepXmrAddress,
        request is FundingUpdated <==> request.get_type() is FundingUpdated,
        request is FundingInfo <==> request.get_type() is FundingInfo,
        request is FundingCompleted <==> request.get_type() is FundingCompleted,
        request is FundingCanceled <==> request.get_type() is FundingCanceled,
        request is SyncerTask <==> request.get_type() is SyncerTask,
        request is SyncerEvent <==> request.get_type() is SyncerEvent,
        request is Tx <==> request.get_type() is Tx,
        request is SwapOutcome <==> request.get_type() is SwapOutcome,
        request is PeerdReconnected <==> request.get_type() is PeerdReconnected,
        request is PeerdUnreachable <==> request.get_type() is PeerdUnreachable,
        request is Progress <==> request.get_type() is Progress,
        request is Info <==> request.get_type() is Info,
        request is Failure <==> request.get_type() is Failure,
        request is CheckpointMultipartChunk <==> request.get_type() is CheckpointMultipartChunk,
        request is Checkpoint <==> request.get_type() is Checkpoint,
        request is GetSecret <==> request.get_type() is GetSecret,
        request is Secret <==> request.get_type() is Secret,
        request is GetNodeId <==> request.get_type() is GetNodeId,
        request is NodeId <==> request.get_type() is NodeId,
        request is Loopback <==> request.get_type() is Loopback,
        request is MakeOffer <==> request.get_type() is MakeOffer,
        request is TakeOffer <==> request.get_type() is TakeOffer,
        request is Listen <==> request.get_type() is Listen,
        request is ConnectPeer <==> request.get_type() is ConnectPeer,
{
}

/// A message belongs to the swap that it names, whoever made it; those that keep a
/// connection alive belong to none.
pub proof fn law_messages_belong(msg: Msg, id: SwapId)
    ensures
        msg.swap_id() == Some(id) <==> match msg {
            Msg::MakerCommit(Commit::AliceParameters(s)) => s.swap_id == id,
            Msg::MakerCommit(Commit::BobParameters(s)) => s.swap_id == id,
            Msg::TakerCommit(t) => t.swap_id == id,
            Msg::Reveal(Reveal::AliceParameters(s)) => s.swap_id == id,
            Msg::Reveal(Reveal::BobParameters(s)) => s.swap_id == id,
            Msg::Reveal(Reveal::Proof(s)) => s.swap_id == id,
            Msg::CoreArbitratingSetup(s) => s.swap_id == id,
            Msg::RefundProcedureSignatures(s) => s.swap_id == id,
            Msg::BuyProcedureSignature(s) => s.swap_id == id,
            Msg::Abort(s) => s.swap_id == id,
            Msg::OfferNotFound(o) => o == id,
            _ => false,
        },
        msg.swap_id() is None <==> msg is Ping || msg is Pong || msg is PingPeer,
{
}

} // verus!
