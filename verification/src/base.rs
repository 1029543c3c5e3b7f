//! Identifiers, roles and the small closed vocabularies shared by all daemons.
use vstd::prelude::*;

verus! {

/// Values that can be told apart at run time exactly as they are in contracts.
pub trait Key: Copy {
    fn same(&self, other: &Self) -> (r: bool)
        ensures
            r == (*self == *other),
    ;
}

/// Compares two byte arrays of one length.
pub fn same_bytes<const N: usize>(a: &[u8; N], b: &[u8; N]) -> (r: bool)
    ensures
        r == (*a == *b),
{
    let mut i: usize = 0;
    while i < N
        invariant
            i <= N,
            forall|j: int| 0 <= j < i ==> a@[j] == b@[j],
        decreases N - i,
    {
        if a[i] != b[i] {
            assert(a@[i as int] != b@[i as int]);
            return false;
        }
        i = i + 1;
    }
    assert(*a =~= *b);
    true
}

/// Identifier of one swap.
#[derive(Clone, Copy, Debug, PartialEq, Eq)]
pub struct SwapId(pub [u8; 32]);

impl Key for SwapId {
    fn same(&self, other: &Self) -> (r: bool) {
        same_bytes(&self.0, &other.0)
    }
}

/// Identifier of a bitcoin transaction.
#[derive(Clone, Copy, Debug, PartialEq, Eq)]
pub struct Txid(pub [u8; 32]);

/// Identifier of a task handed to a syncer.
#[derive(Clone, Copy, Debug, PartialEq, Eq, Structural)]
pub struct TaskId(pub u32);

impl Key for TaskId {
    fn same(&self, other: &Self) -> (r: bool) {
        *self == *other
    }
}

/// The two sides of a swap: Alice sells monero, Bob sells bitcoin.
#[derive(Clone, Copy, Debug, PartialEq, Eq, Structural)]
pub enum SwapRole {
    Alice,
    Bob,
}

impl SwapRole {
    pub open spec fn spec_other(self) -> SwapRole {
        match self {
            SwapRole::Alice => SwapRole::Bob,
            SwapRole::Bob => SwapRole::Alice,
        }
    }

    /// The counterparty's role.
    #[verifier::when_used_as_spec(spec_other)]
    pub fn other(self) -> (r: SwapRole)
        ensures
            r == self.spec_other(),
    {
        match self {
            SwapRole::Alice => SwapRole::Bob,
            SwapRole::Bob => SwapRole::Alice,
        }
    }
}

/// Who published the offer and who took it up.
#[derive(Clone, Copy, Debug, PartialEq, Eq, Structural)]
pub enum TradeRole {
    Maker,
    Taker,
}

/// The arbitrating chain and the accordant chain.
#[derive(Clone, Copy, Debug, PartialEq, Eq, Structural)]
pub enum Blockchain {
    Bitcoin,
    Monero,
}

#[derive(Clone, Copy, Debug, PartialEq, Eq, Structural)]
pub enum Network {
    Mainnet,
    Testnet,
    Local,
}

/// The transactions of a swap, by the part they play in it.
#[derive(Clone, Copy, Debug, PartialEq, Eq, Structural)]
pub enum TxLabel {
    Funding,
    Lock,
    Buy,
    Cancel,
    Refund,
    Punish,
    AccLock,
}

impl Key for TxLabel {
    fn same(&self, other: &Self) -> (r: bool) {
        *self == *other
    }
}

/// The buses on which the daemons exchange requests.
#[derive(Clone, Copy, Debug, PartialEq, Eq, Structural)]
pub enum ServiceBus {
    Msg,
    Ctl,
    Bridge,
}

/// Address of a remote node: its key, its host and its port.
#[derive(Clone, Copy, Debug, PartialEq, Eq)]
pub struct NodeAddr {
    pub node_id: [u8; 33],
    pub host: [u8; 32],
    pub port: u16,
}

impl Key for NodeAddr {
    fn same(&self, other: &Self) -> (r: bool) {
        same_bytes(&self.node_id, &other.node_id) && same_bytes(&self.host, &other.host)
            && self.port == other.port
    }
}

/// The daemons and clients that send and receive requests.
#[derive(Clone, Copy, Debug, PartialEq, Eq)]
pub enum ServiceId {
    Loopback,
    Farcasterd,
    Wallet,
    Checkpoint,
    Database,
    Swap(SwapId),
    /// A connection to a remote node; connection number 0 is not yet open.
    Peer(u128, NodeAddr),
    Syncer(Blockchain, Network),
    Client(u64),
}

impl Key for ServiceId {
    fn same(&self, other: &Self) -> (r: bool) {
        match (*self, *other) {
            (ServiceId::Loopback, ServiceId::Loopback) => true,
            (ServiceId::Farcasterd, ServiceId::Farcasterd) => true,
            (ServiceId::Wallet, ServiceId::Wallet) => true,
            (ServiceId::Checkpoint, ServiceId::Checkpoint) => true,
            (ServiceId::Database, ServiceId::Database) => true,
            (ServiceId::Swap(a), ServiceId::Swap(b)) => a.same(&b),
            (ServiceId::Peer(n, a), ServiceId::Peer(m, b)) => n == m && a.same(&b),
            (ServiceId::Syncer(c, n), ServiceId::Syncer(d, m)) => c == d && n == m,
            (ServiceId::Client(a), ServiceId::Client(b)) => a == b,
            _ => false,
        }
    }
}

/// A digest under which the parts of one checkpoint are collected.
#[derive(Clone, Copy, Debug, PartialEq, Eq)]
pub struct Checksum(pub [u8; 20]);

impl Key for Checksum {
    fn same(&self, other: &Self) -> (r: bool) {
        same_bytes(&self.0, &other.0)
    }
}

/// How a swap ended.
#[derive(Clone, Copy, Debug, PartialEq, Eq, Structural)]
pub enum Outcome {
    SuccessSwap,
    FailureRefund,
    FailurePunish,
    FailureAbort,
}

/// The steps of the parameter exchange and of the settlement, without their data.
#[derive(Clone, Copy, Debug, PartialEq, Eq, Structural)]
pub enum Stage {
    Start,
    Commit,
    Reveal,
    RefundSig,
    CoreArb,
    BuySig,
    Finish(Outcome),
}

/// Name of a state: whose it is and how far the swap has come.
#[derive(Clone, Copy, Debug, PartialEq, Eq, Structural)]
pub struct StateName {
    pub role: SwapRole,
    pub stage: Stage,
}

/// What the user is told.
#[derive(Clone, Copy, Debug, PartialEq, Eq)]
pub enum Notice {
    /// The taker proposes the swap to the maker.
    ProposingToTake(SwapId),
    /// The maker accepts the swap of the taker reached through the peer service.
    AcceptingSwap(SwapId, ServiceId),
    /// The swap went from one state to another.
    StateTransition(StateName, StateName),
    /// The swap was restored from a checkpoint at a state.
    RestoredAt(StateName),
    /// Bitcoin funding of the wrong amount.
    IncorrectFunding { required: u64, funded: u64 },
    /// Less monero than required was funded.
    TooSmallFunding { required: u64, funded: u64 },
    /// More monero than required was funded.
    TooBigFunding { required: u64, funded: u64 },
    AbortedSwap,
    AbortingSwap,
    /// The swap is locked in and cannot be aborted by hand any more.
    AbortImpossible,
    /// The local parameters could not be committed to.
    CommitFailed,
}

/// What is wrong with bytes that cannot be read.
#[derive(Clone, Copy, Debug, PartialEq, Eq)]
pub enum Fault {
    Malformed,
    /// A map has two entries for a transaction label.
    RepeatedLabel(TxLabel),
    /// A map has two entries for a service.
    RepeatedService(ServiceId),
}

/// The kinds of requests.
#[derive(Clone, Copy, Debug, PartialEq, Eq, Structural)]
pub enum RequestType {
    Hello,
    Terminate,
    GetInfo,
    SwapInfo,
    Protocol,
    TakeSwap,
    MakeSwap,
    InitTakerSwap,
    InitMakerSwap,
    AbortSwap,
    SweepXmrAddress,
    FundingUpdated,
    FundingInfo,
    FundingCompleted,
    FundingCanceled,
    SyncerTask,
    SyncerEvent,
    Tx,
    SwapOutcome,
    PeerdReconnected,
    PeerdUnreachable,
    Progress,
    Info,
    Failure,
    CheckpointMultipartChunk,
    Checkpoint,
    GetSecret,
    Secret,
    GetNodeId,
    NodeId,
    Loopback,
    MakeOffer,
    TakeOffer,
    Listen,
    ConnectPeer,
}

/// Why a request was refused.
#[derive(Clone, Copy, Debug, PartialEq, Eq)]
pub enum Error {
    /// A peer message came over another connection than the swap's: the expected
    /// one and the one found.
    IncorrectPeer(ServiceId, ServiceId),
    /// A peer message belongs to another swap: the expected one and the one found.
    IncorrectSwapId(SwapId, SwapId),
    /// The sender may not control the swap daemon.
    Permission,
    /// The peer asked to abort.
    AbortNotSupported,
    /// A request of this kind is not served on this bus, or not now.
    NotSupported(ServiceBus, RequestType),
    /// The service is not a swap daemon.
    NotSwapd,
    /// Alice's parameters were revealed against a commitment that is not hers.
    ExpectedAliceCommit,
    /// Bob's parameters were revealed against a commitment that is not his.
    ExpectedBobCommit,
    /// A proof was revealed where parameters were due.
    ProofIsNotParameters,
    /// The revealed parameters do not open the commitment.
    CommitmentMismatch,
    /// The counterparty's parameters could not be validated.
    RemoteParamsInvalid,
    /// Parameters that no commitment, reveal or key can be made of.
    MalformedParameters,
    /// Bytes that are no bitcoin transaction.
    MalformedTransaction,
    /// Timelocks and thresholds that leave no room for a safe swap.
    UnsafeTimelocks,
    /// A checkpoint that cannot be read, and what is wrong with it.
    MalformedCheckpoint(Fault),
    /// An amount that no integer of its type can hold.
    AmountOverflow,
    /// The wallet token presented is not the daemon's.
    InvalidToken,
    /// A failure of the wallet or of the transport, reported by the caller.
    External,
}

/// The counterparty plays the other role, and its counterparty this one.
pub proof fn law_roles_opposed(role: SwapRole)
    ensures
        role.other() != role,
        role.other().other() == role,
{
}

} // verus!
