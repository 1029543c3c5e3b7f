//! The byte layout of a swap checkpoint: its services, thresholds, transactions and
//! deferred requests.
use vstd::prelude::*;

use crate::base::{
    Blockchain, Fault, Key, Network, NodeAddr, ServiceBus, ServiceId, SwapId, TxLabel, Txid,
};
use crate::blob::{append, Blob};
use crate::chain::{leading_transaction, readable, Transaction};
use crate::map::{distinct_keys, VecMap};
use crate::swapd::strict::{
    all_written, chained, leading_number, lemma_leading_number, lemma_limits, low_bytes, models,
    number, read_number, write_number, Strict,
};
use crate::swapd::temporal_safety::TemporalSafety;

verus! {

/// The code of a transaction label.
#[verifier::allow_in_spec]
pub fn label_code(x: TxLabel) -> u16
    returns
        match x {
            TxLabel::Funding => 1u16,
            TxLabel::Lock => 2u16,
            TxLabel::Buy => 3u16,
            TxLabel::Cancel => 4u16,
            TxLabel::Refund => 5u16,
            TxLabel::Punish => 6u16,
            TxLabel::AccLock => 7u16,
        },
{
    match x {
        TxLabel::Funding => 1u16,
        TxLabel::Lock => 2u16,
        TxLabel::Buy => 3u16,
        TxLabel::Cancel => 4u16,
        TxLabel::Refund => 5u16,
        TxLabel::Punish => 6u16,
        TxLabel::AccLock => 7u16,
    }
}

/// The value that a code stands for.
#[verifier::allow_in_spec]
pub fn label_of(code: u16) -> Option<TxLabel>
    returns
        if code == 1 {
            Some(TxLabel::Funding)
        } else if code == 2 {
            Some(TxLabel::Lock)
        } else if code == 3 {
            Some(TxLabel::Buy)
        } else if code == 4 {
            Some(TxLabel::Cancel)
        } else if code == 5 {
            Some(TxLabel::Refund)
        } else if code == 6 {
            Some(TxLabel::Punish)
        } else if code == 7 {
            Some(TxLabel::AccLock)
        } else {
            None
        },
{
    if code == 1 {
        Some(TxLabel::Funding)
    } else if code == 2 {
        Some(TxLabel::Lock)
    } else if code == 3 {
        Some(TxLabel::Buy)
    } else if code == 4 {
        Some(TxLabel::Cancel)
    } else if code == 5 {
        Some(TxLabel::Refund)
    } else if code == 6 {
        Some(TxLabel::Punish)
    } else if code == 7 {
        Some(TxLabel::AccLock)
    } else {
        None
    }
}

impl Strict for TxLabel {
    type Model = TxLabel;

    open spec fn model(&self) -> TxLabel {
        *self
    }

    open spec fn fits(m: TxLabel) -> bool {
        true
    }

    open spec fn written(m: TxLabel) -> Seq<u8> {
        <u16 as Strict>::written(label_code(m))
    }

    open spec fn read(s: Seq<u8>) -> Result<(TxLabel, nat), Fault> {
        match <u16 as Strict>::read(s) {
            Ok(t) => match label_of(t.0) {
                Some(x) => Ok((x, t.1)),
                None => Err(Fault::Malformed),
            },
            Err(e) => Err(e),
        }
    }

    proof fn law_reads_back(m: TxLabel, rest: Seq<u8>) {
        <u16 as Strict>::law_reads_back(label_code(m), rest);
    }

    proof fn law_reads_within(s: Seq<u8>) {
    }

    fn strict_encode(&self) -> (r: Option<Vec<u8>>) {
        label_code(*self).strict_encode()
    }

    fn strict_decode(bytes: &Vec<u8>, pos: usize) -> (r: Result<(TxLabel, usize), Fault>) {
        match <u16 as Strict>::strict_decode(bytes, pos) {
            Ok((code, end)) => match label_of(code) {
                Some(x) => Ok((x, end)),
                None => Err(Fault::Malformed),
            },
            Err(e) => Err(e),
        }
    }
}

/// The code of a bus.
#[verifier::allow_in_spec]
pub fn bus_code(x: ServiceBus) -> u8
    returns
        match x {
            ServiceBus::Msg => 0u8,
            ServiceBus::Ctl => 1u8,
            ServiceBus::Bridge => 2u8,
        },
{
    match x {
        ServiceBus::Msg => 0u8,
        ServiceBus::Ctl => 1u8,
        ServiceBus::Bridge => 2u8,
    }
}

/// The value that a code stands for.
#[verifier::allow_in_spec]
pub fn bus_of(code: u8) -> Option<ServiceBus>
    returns
        if code == 0 {
            Some(ServiceBus::Msg)
        } else if code == 1 {
            Some(ServiceBus::Ctl)
        } else if code == 2 {
            Some(ServiceBus::Bridge)
        } else {
            None
        },
{
    if code == 0 {
        Some(ServiceBus::Msg)
    } else if code == 1 {
        Some(ServiceBus::Ctl)
    } else if code == 2 {
        Some(ServiceBus::Bridge)
    } else {
        None
    }
}

impl Strict for ServiceBus {
    type Model = ServiceBus;

    open spec fn model(&self) -> ServiceBus {
        *self
    }

    open spec fn fits(m: ServiceBus) -> bool {
        true
    }

    open spec fn written(m: ServiceBus) -> Seq<u8> {
        <u8 as Strict>::written(bus_code(m))
    }

    open spec fn read(s: Seq<u8>) -> Result<(ServiceBus, nat), Fault> {
        match <u8 as Strict>::read(s) {
            Ok(t) => match bus_of(t.0) {
                Some(x) => Ok((x, t.1)),
                None => Err(Fault::Malformed),
            },
            Err(e) => Err(e),
        }
    }

    proof fn law_reads_back(m: ServiceBus, rest: Seq<u8>) {
        <u8 as Strict>::law_reads_back(bus_code(m), rest);
    }

    proof fn law_reads_within(s: Seq<u8>) {
    }

    fn strict_encode(&self) -> (r: Option<Vec<u8>>) {
        bus_code(*self).strict_encode()
    }

    fn strict_decode(bytes: &Vec<u8>, pos: usize) -> (r: Result<(ServiceBus, usize), Fault>) {
        match <u8 as Strict>::strict_decode(bytes, pos) {
            Ok((code, end)) => match bus_of(code) {
                Some(x) => Ok((x, end)),
                None => Err(Fault::Malformed),
            },
            Err(e) => Err(e),
        }
    }
}

/// The code of a chain.
#[verifier::allow_in_spec]
pub fn chain_code(x: Blockchain) -> u8
    returns
        match x {
            Blockchain::Bitcoin => 0u8,
            Blockchain::Monero => 1u8,
        },
{
    match x {
        Blockchain::Bitcoin => 0u8,
        Blockchain::Monero => 1u8,
    }
}

/// The value that a code stands for.
#[verifier::allow_in_spec]
pub fn chain_of(code: u8) -> Option<Blockchain>
    returns
        if code == 0 {
            Some(Blockchain::Bitcoin)
        } else if code == 1 {
            Some(Blockchain::Monero)
        } else {
            None
        },
{
    if code == 0 {
        Some(Blockchain::Bitcoin)
    } else if code == 1 {
        Some(Blockchain::Monero)
    } else {
        None
    }
}

impl Strict for Blockchain {
    type Model = Blockchain;

    open spec fn model(&self) -> Blockchain {
        *self
    }

    open spec fn fits(m: Blockchain) -> bool {
        true
    }

    open spec fn written(m: Blockchain) -> Seq<u8> {
        <u8 as Strict>::written(chain_code(m))
    }

    open spec fn read(s: Seq<u8>) -> Result<(Blockchain, nat), Fault> {
        match <u8 as Strict>::read(s) {
            Ok(t) => match chain_of(t.0) {
                Some(x) => Ok((x, t.1)),
                None => Err(Fault::Malformed),
            },
            Err(e) => Err(e),
        }
    }

    proof fn law_reads_back(m: Blockchain, rest: Seq<u8>) {
        <u8 as Strict>::law_reads_back(chain_code(m), rest);
    }

    proof fn law_reads_within(s: Seq<u8>) {
    }

    fn strict_encode(&self) -> (r: Option<Vec<u8>>) {
        chain_code(*self).strict_encode()
    }

    fn strict_decode(bytes: &Vec<u8>, pos: usize) -> (r: Result<(Blockchain, usize), Fault>) {
        match <u8 as Strict>::strict_decode(bytes, pos) {
            Ok((code, end)) => match chain_of(code) {
                Some(x) => Ok((x, end)),
                None => Err(Fault::Malformed),
            },
            Err(e) => Err(e),
        }
    }
}

/// The code of a network.
#[verifier::allow_in_spec]
pub fn network_code(x: Network) -> u8
    returns
        match x {
            Network::Mainnet => 0u8,
            Network::Testnet => 1u8,
            Network::Local => 2u8,
        },
{
    match x {
        Network::Mainnet => 0u8,
        Network::Testnet => 1u8,
        Network::Local => 2u8,
    }
}

/// The value that a code stands for.
#[verifier::allow_in_spec]
pub fn network_of(code: u8) -> Option<Network>
    returns
        if code == 0 {
            Some(Network::Mainnet)
        } else if code == 1 {
            Some(Network::Testnet)
        } else if code == 2 {
            Some(Network::Local)
        } else {
            None
        },
{
    if code == 0 {
        Some(Network::Mainnet)
    } else if code == 1 {
        Some(Network::Testnet)
    } else if code == 2 {
        Some(Network::Local)
    } else {
        None
    }
}

impl Strict for Network {
    type Model = Network;

    open spec fn model(&self) -> Network {
        *self
    }

    open spec fn fits(m: Network) -> bool {
        true
    }

    open spec fn written(m: Network) -> Seq<u8> {
        <u8 as Strict>::written(network_code(m))
    }

    open spec fn read(s: Seq<u8>) -> Result<(Network, nat), Fault> {
        match <u8 as Strict>::read(s) {
            Ok(t) => match network_of(t.0) {
                Some(x) => Ok((x, t.1)),
                None => Err(Fault::Malformed),
            },
            Err(e) => Err(e),
        }
    }

    proof fn law_reads_back(m: Network, rest: Seq<u8>) {
        <u8 as Strict>::law_reads_back(network_code(m), rest);
    }

    proof fn law_reads_within(s: Seq<u8>) {
    }

    fn strict_encode(&self) -> (r: Option<Vec<u8>>) {
        network_code(*self).strict_encode()
    }

    fn strict_decode(bytes: &Vec<u8>, pos: usize) -> (r: Result<(Network, usize), Fault>) {
        match <u8 as Strict>::strict_decode(bytes, pos) {
            Ok((code, end)) => match network_of(code) {
                Some(x) => Ok((x, end)),
                None => Err(Fault::Malformed),
            },
            Err(e) => Err(e),
        }
    }
}

impl Strict for Txid {
    type Model = Txid;

    open spec fn model(&self) -> Txid {
        *self
    }

    open spec fn fits(m: Txid) -> bool {
        true
    }

    open spec fn written(m: Txid) -> Seq<u8> {
        m.0@
    }

    open spec fn read(s: Seq<u8>) -> Result<(Txid, nat), Fault> {
        match <[u8; 32] as Strict>::read(s) {
            Ok(t) => Ok((Txid(t.0), t.1)),
            Err(e) => Err(e),
        }
    }

    proof fn law_reads_back(m: Txid, rest: Seq<u8>) {
        <[u8; 32] as Strict>::law_reads_back(m.0, rest);
    }

    proof fn law_reads_within(s: Seq<u8>) {
    }

    fn strict_encode(&self) -> (r: Option<Vec<u8>>) {
        self.0.strict_encode()
    }

    fn strict_decode(bytes: &Vec<u8>, pos: usize) -> (r: Result<(Txid, usize), Fault>) {
        match <[u8; 32] as Strict>::strict_decode(bytes, pos) {
            Ok((id, end)) => Ok((Txid(id), end)),
            Err(e) => Err(e),
        }
    }
}

impl Strict for SwapId {
    type Model = SwapId;

    open spec fn model(&self) -> SwapId {
        *self
    }

    open spec fn fits(m: SwapId) -> bool {
        true
    }

    open spec fn written(m: SwapId) -> Seq<u8> {
        m.0@
    }

    open spec fn read(s: Seq<u8>) -> Result<(SwapId, nat), Fault> {
        match <[u8; 32] as Strict>::read(s) {
            Ok(t) => Ok((SwapId(t.0), t.1)),
            Err(e) => Err(e),
        }
    }

    proof fn law_reads_back(m: SwapId, rest: Seq<u8>) {
        <[u8; 32] as Strict>::law_reads_back(m.0, rest);
    }

    proof fn law_reads_within(s: Seq<u8>) {
    }

    fn strict_encode(&self) -> (r: Option<Vec<u8>>) {
        self.0.strict_encode()
    }

    fn strict_decode(bytes: &Vec<u8>, pos: usize) -> (r: Result<(SwapId, usize), Fault>) {
        match <[u8; 32] as Strict>::strict_decode(bytes, pos) {
            Ok((id, end)) => Ok((SwapId(id), end)),
            Err(e) => Err(e),
        }
    }
}

impl Strict for NodeAddr {
    type Model = NodeAddr;

    open spec fn model(&self) -> NodeAddr {
        *self
    }

    open spec fn fits(m: NodeAddr) -> bool {
        true
    }

    open spec fn written(m: NodeAddr) -> Seq<u8> {
        <([u8; 33], ([u8; 32], u16)) as Strict>::written((m.node_id, (m.host, m.port)))
    }

    open spec fn read(s: Seq<u8>) -> Result<(NodeAddr, nat), Fault> {
        match <([u8; 33], ([u8; 32], u16)) as Strict>::read(s) {
            Ok(t) => Ok((NodeAddr { node_id: t.0.0, host: t.0.1.0, port: t.0.1.1 }, t.1)),
            Err(e) => Err(e),
        }
    }

    proof fn law_reads_back(m: NodeAddr, rest: Seq<u8>) {
        <([u8; 33], ([u8; 32], u16)) as Strict>::law_reads_back(
            (m.node_id, (m.host, m.port)),
            rest,
        );
    }

    proof fn law_reads_within(s: Seq<u8>) {
        <([u8; 33], ([u8; 32], u16)) as Strict>::law_reads_within(s);
    }

    fn strict_encode(&self) -> (r: Option<Vec<u8>>) {
        (self.node_id, (self.host, self.port)).strict_encode()
    }

    fn strict_decode(bytes: &Vec<u8>, pos: usize) -> (r: Result<(NodeAddr, usize), Fault>) {
        match <([u8; 33], ([u8; 32], u16)) as Strict>::strict_decode(bytes, pos) {
            Ok(((node_id, (host, port)), end)) => Ok((NodeAddr { node_id, host, port }, end)),
            Err(e) => Err(e),
        }
    }
}

/// What follows the first byte of a service identifier: the value read of it, one
/// byte further on.
pub open spec fn behind_tag<M>(t: Result<(M, nat), Fault>, f: spec_fn(M) -> ServiceId) -> Result<
    (ServiceId, nat),
    Fault,
> {
    match t {
        Ok(x) => Ok((f(x.0), 1 + x.1)),
        Err(e) => Err(e),
    }
}

impl Strict for ServiceId {
    type Model = ServiceId;

    open spec fn model(&self) -> ServiceId {
        *self
    }

    open spec fn fits(m: ServiceId) -> bool {
        true
    }

    open spec fn written(m: ServiceId) -> Seq<u8> {
        match m {
            ServiceId::Loopback => seq![0u8],
            ServiceId::Farcasterd => seq![1u8],
            ServiceId::Wallet => seq![2u8],
            ServiceId::Checkpoint => seq![3u8],
            ServiceId::Database => seq![4u8],
            ServiceId::Swap(id) => seq![5u8] + <SwapId as Strict>::written(id),
            ServiceId::Peer(n, addr) => seq![6u8] + <(u128, NodeAddr) as Strict>::written(
                (n, addr),
            ),
            ServiceId::Syncer(chain, network) => seq![7u8] + <(
                Blockchain,
                Network,
            ) as Strict>::written((chain, network)),
            ServiceId::Client(n) => seq![8u8] + <u64 as Strict>::written(n),
        }
    }

    open spec fn read(s: Seq<u8>) -> Result<(ServiceId, nat), Fault> {
        let rest = s.skip(1);
        if s.len() == 0 {
            Err(Fault::Malformed)
        } else if s[0] == 0 {
            Ok((ServiceId::Loopback, 1))
        } else if s[0] == 1 {
            Ok((ServiceId::Farcasterd, 1))
        } else if s[0] == 2 {
            Ok((ServiceId::Wallet, 1))
        } else if s[0] == 3 {
            Ok((ServiceId::Checkpoint, 1))
        } else if s[0] == 4 {
            Ok((ServiceId::Database, 1))
        } else if s[0] == 5 {
            behind_tag(<SwapId as Strict>::read(rest), |id: SwapId| ServiceId::Swap(id))
        } else if s[0] == 6 {
            behind_tag(
                <(u128, NodeAddr) as Strict>::read(rest),
                |t: (u128, NodeAddr)| ServiceId::Peer(t.0, t.1),
            )
        } else if s[0] == 7 {
            behind_tag(
                <(Blockchain, Network) as Strict>::read(rest),
                |t: (Blockchain, Network)| ServiceId::Syncer(t.0, t.1),
            )
        } else if s[0] == 8 {
            behind_tag(<u64 as Strict>::read(rest), |n: u64| ServiceId::Client(n))
        } else {
            Err(Fault::Malformed)
        }
    }

    proof fn law_reads_back(m: ServiceId, rest: Seq<u8>) {
        let s = Self::written(m) + rest;
        match m {
            ServiceId::Swap(id) => {
                <SwapId as Strict>::law_reads_back(id, rest);
                assert(s.skip(1) =~= <SwapId as Strict>::written(id) + rest);
            },
            ServiceId::Peer(n, addr) => {
                <(u128, NodeAddr) as Strict>::law_reads_back((n, addr), rest);
                assert(s.skip(1) =~= <(u128, NodeAddr) as Strict>::written((n, addr)) + rest);
            },
            ServiceId::Syncer(chain, network) => {
                <(Blockchain, Network) as Strict>::law_reads_back((chain, network), rest);
                assert(s.skip(1) =~= <(Blockchain, Network) as Strict>::written((chain, network))
                    + rest);
            },
            ServiceId::Client(n) => {
                <u64 as Strict>::law_reads_back(n, rest);
                assert(s.skip(1) =~= <u64 as Strict>::written(n) + rest);
            },
            _ => {},
        }
    }

    proof fn law_reads_within(s: Seq<u8>) {
        if s.len() > 0 {
            <SwapId as Strict>::law_reads_within(s.skip(1));
            <(u128, NodeAddr) as Strict>::law_reads_within(s.skip(1));
            <(Blockchain, Network) as Strict>::law_reads_within(s.skip(1));
            <u64 as Strict>::law_reads_within(s.skip(1));
        }
    }

    fn strict_encode(&self) -> (r: Option<Vec<u8>>) {
        match *self {
            ServiceId::Loopback => Some(vec![0u8]),
            ServiceId::Farcasterd => Some(vec![1u8]),
            ServiceId::Wallet => Some(vec![2u8]),
            ServiceId::Checkpoint => Some(vec![3u8]),
            ServiceId::Database => Some(vec![4u8]),
            ServiceId::Swap(id) => chained(Some(vec![5u8]), id.strict_encode()),
            ServiceId::Peer(n, addr) => chained(Some(vec![6u8]), (n, addr).strict_encode()),
            ServiceId::Syncer(chain, network) => chained(
                Some(vec![7u8]),
                (chain, network).strict_encode(),
            ),
            ServiceId::Client(n) => chained(Some(vec![8u8]), n.strict_encode()),
        }
    }

    fn strict_decode(bytes: &Vec<u8>, pos: usize) -> (r: Result<(ServiceId, usize), Fault>) {
        if pos == bytes.len() {
            return Err(Fault::Malformed);
        }
        assert(bytes@.skip(pos as int).skip(1) =~= bytes@.skip(pos + 1));
        let tag: u8 = bytes[pos];
        if tag == 0 {
            Ok((ServiceId::Loopback, pos + 1))
        } else if tag == 1 {
            Ok((ServiceId::Farcasterd, pos + 1))
        } else if tag == 2 {
            Ok((ServiceId::Wallet, pos + 1))
        } else if tag == 3 {
            Ok((ServiceId::Checkpoint, pos + 1))
        } else if tag == 4 {
            Ok((ServiceId::Database, pos + 1))
        } else if tag == 5 {
            match <SwapId as Strict>::strict_decode(bytes, pos + 1) {
                Ok((id, end)) => Ok((ServiceId::Swap(id), end)),
                Err(e) => Err(e),
            }
        } else if tag == 6 {
            match <(u128, NodeAddr) as Strict>::strict_decode(bytes, pos + 1) {
                Ok(((n, addr), end)) => Ok((ServiceId::Peer(n, addr), end)),
                Err(e) => Err(e),
            }
        } else if tag == 7 {
            match <(Blockchain, Network) as Strict>::strict_decode(bytes, pos + 1) {
                Ok(((chain, network), end)) => Ok((ServiceId::Syncer(chain, network), end)),
                Err(e) => Err(e),
            }
        } else if tag == 8 {
            match <u64 as Strict>::strict_decode(bytes, pos + 1) {
                Ok((n, end)) => Ok((ServiceId::Client(n), end)),
                Err(e) => Err(e),
            }
        } else {
            Err(Fault::Malformed)
        }
    }
}

impl Strict for Blob {
    type Model = Seq<u8>;

    open spec fn model(&self) -> Seq<u8> {
        self@
    }

    open spec fn fits(m: Seq<u8>) -> bool {
        m.len() <= u16::MAX
    }

    open spec fn written(m: Seq<u8>) -> Seq<u8> {
        low_bytes(m.len(), 2) + m
    }

    open spec fn read(s: Seq<u8>) -> Result<(Seq<u8>, nat), Fault> {
        match leading_number(s, 2) {
            Some(n) => if 2 + n.0 <= s.len() {
                Ok((s.skip(2).take(n.0 as int), 2 + n.0))
            } else {
                Err(Fault::Malformed)
            },
            None => Err(Fault::Malformed),
        }
    }

    proof fn law_reads_back(m: Seq<u8>, rest: Seq<u8>) {
        let count = low_bytes(m.len(), 2);
        lemma_limits();
        lemma_leading_number(m.len(), 2, m + rest);
        assert((count + m) + rest =~= count + (m + rest));
        assert((count + (m + rest)).skip(2) =~= m + rest);
        assert((m + rest).take(m.len() as int) =~= m);
    }

    proof fn law_reads_within(s: Seq<u8>) {
    }

    fn strict_encode(&self) -> (r: Option<Vec<u8>>) {
        let bytes: &Vec<u8> = self.bytes();
        if bytes.len() > u16::MAX as usize {
            return None;
        }
        proof {
            lemma_limits();
        }
        let mut out: Vec<u8> = write_number(bytes.len() as u128, 2);
        append(&mut out, bytes);
        Some(out)
    }

    fn strict_decode(bytes: &Vec<u8>, pos: usize) -> (r: Result<(Blob, usize), Fault>) {
        if bytes.len() - pos < 2 {
            return Err(Fault::Malformed);
        }
        proof {
            lemma_limits();
        }
        let n: usize = read_number(bytes, pos, 2) as usize;
        let start: usize = pos + 2;
        if bytes.len() - start < n {
            return Err(Fault::Malformed);
        }
        let mut out: Vec<u8> = Vec::new();
        let mut i: usize = 0;
        while i < n
            invariant
                i <= n,
                start + n <= bytes.len(),
                out@ == bytes@.subrange(start as int, start + i),
            decreases n - i,
        {
            out.push(bytes[start + i]);
            i = i + 1;
            assert(out@ =~= bytes@.subrange(start as int, start + i));
        }
        assert(out@ =~= bytes@.skip(pos as int).skip(2).take(n as int));
        Ok((Blob::new(out), start + n))
    }
}

impl Strict for Transaction {
    /// The consensus encoding and the identifier.
    type Model = (Seq<u8>, Seq<u8>);

    open spec fn model(&self) -> (Seq<u8>, Seq<u8>) {
        (self.encoding()@, self.id().0@)
    }

    open spec fn fits(m: (Seq<u8>, Seq<u8>)) -> bool {
        readable(m.0, m.1)
    }

    open spec fn written(m: (Seq<u8>, Seq<u8>)) -> Seq<u8> {
        m.0
    }

    open spec fn read(s: Seq<u8>) -> Result<((Seq<u8>, Seq<u8>), nat), Fault> {
        match leading_transaction(s) {
            Some(t) => if t.2 <= s.len() {
                Ok(((t.0, t.1), t.2))
            } else {
                Err(Fault::Malformed)
            },
            None => Err(Fault::Malformed),
        }
    }

    proof fn law_reads_back(m: (Seq<u8>, Seq<u8>), rest: Seq<u8>) {
    }

    proof fn law_reads_within(s: Seq<u8>) {
    }

    fn strict_encode(&self) -> (r: Option<Vec<u8>>) {
        let raw: Blob = self.raw();
        let mut out: Vec<u8> = Vec::new();
        append(&mut out, raw.bytes());
        assert(Seq::<u8>::empty() + raw@ =~= raw@);
        Some(out)
    }

    fn strict_decode(bytes: &Vec<u8>, pos: usize) -> (r: Result<(Transaction, usize), Fault>) {
        match Transaction::decode_at(bytes, pos) {
            Some(t) => Ok(t),
            None => Err(Fault::Malformed),
        }
    }
}

impl Strict for TemporalSafety {
    type Model = TemporalSafety;

    open spec fn model(&self) -> TemporalSafety {
        *self
    }

    open spec fn fits(m: TemporalSafety) -> bool {
        true
    }

    open spec fn written(m: TemporalSafety) -> Seq<u8> {
        <((u32, (u32, u32)), (u32, (u32, u32))) as Strict>::written(thresholds(m))
    }

    open spec fn read(s: Seq<u8>) -> Result<(TemporalSafety, nat), Fault> {
        match <((u32, (u32, u32)), (u32, (u32, u32))) as Strict>::read(s) {
            Ok(t) => Ok(
                (
                    TemporalSafety {
                        cancel_timelock: t.0.0.0,
                        punish_timelock: t.0.0.1.0,
                        btc_finality_thr: t.0.0.1.1,
                        race_thr: t.0.1.0,
                        xmr_finality_thr: t.0.1.1.0,
                        sweep_monero_thr: t.0.1.1.1,
                    },
                    t.1,
                ),
            ),
            Err(e) => Err(e),
        }
    }

    proof fn law_reads_back(m: TemporalSafety, rest: Seq<u8>) {
        <((u32, (u32, u32)), (u32, (u32, u32))) as Strict>::law_reads_back(thresholds(m), rest);
    }

    proof fn law_reads_within(s: Seq<u8>) {
        <((u32, (u32, u32)), (u32, (u32, u32))) as Strict>::law_reads_within(s);
    }

    fn strict_encode(&self) -> (r: Option<Vec<u8>>) {
        thresholds(*self).strict_encode()
    }

    fn strict_decode(bytes: &Vec<u8>, pos: usize) -> (r: Result<(TemporalSafety, usize), Fault>) {
        match <((u32, (u32, u32)), (u32, (u32, u32))) as Strict>::strict_decode(bytes, pos) {
            Ok((t, end)) => Ok(
                (
                    TemporalSafety {
                        cancel_timelock: t.0.0,
                        punish_timelock: t.0.1.0,
                        btc_finality_thr: t.0.1.1,
                        race_thr: t.1.0,
                        xmr_finality_thr: t.1.1.0,
                        sweep_monero_thr: t.1.1.1,
                    },
                    end,
                ),
            ),
            Err(e) => Err(e),
        }
    }
}

/// The thresholds in the order in which they are written.
#[verifier::allow_in_spec]
pub fn thresholds(t: TemporalSafety) -> ((u32, (u32, u32)), (u32, (u32, u32)))
    returns
        (
            (t.cancel_timelock, (t.punish_timelock, t.btc_finality_thr)),
            (t.race_thr, (t.xmr_finality_thr, t.sweep_monero_thr)),
        ),
{
    (
        (t.cancel_timelock, (t.punish_timelock, t.btc_finality_thr)),
        (t.race_thr, (t.xmr_finality_thr, t.sweep_monero_thr)),
    )
}

/// Keys that their bytes tell in full.
pub trait Plain: Key + Strict<Model = Self> {
    /// What is wrong with a list that repeats a key.
    spec fn repeated(k: Self) -> Fault;

    fn fault(&self) -> (r: Fault)
        ensures
            r == Self::repeated(*self),
    ;

    proof fn lemma_own_model(k: Self)
        ensures
            k.model() == k,
    ;
}

impl Plain for TxLabel {
    open spec fn repeated(k: Self) -> Fault {
        Fault::RepeatedLabel(k)
    }

    fn fault(&self) -> (r: Fault) {
        Fault::RepeatedLabel(*self)
    }

    proof fn lemma_own_model(k: Self) {
    }
}

impl Plain for ServiceId {
    open spec fn repeated(k: Self) -> Fault {
        Fault::RepeatedService(k)
    }

    fn fault(&self) -> (r: Fault) {
        Fault::RepeatedService(*self)
    }

    proof fn lemma_own_model(k: Self) {
    }
}

proof fn lemma_distinct_models<K: Plain, V: Strict>(entries: Seq<(K, V)>)
    ensures
        distinct_keys(models(entries)) == distinct_keys(entries),
{
    let ms = models(entries);
    assert forall|i: int| 0 <= i < entries.len() implies (#[trigger] ms[i]).0 == entries[i].0 by {
        K::lemma_own_model(entries[i].0);
    }
    if distinct_keys(ms) {
        assert forall|i: int, j: int| 0 <= i < j < entries.len() implies entries[i].0
            != entries[j].0 by {
            assert(ms[i].0 != ms[j].0);
        }
    }
}

/// Whether a key is among those of some entries.
pub open spec fn has_key<K, M>(entries: Seq<(K, M)>, k: K) -> bool {
    exists|i: int| 0 <= i < entries.len() && (#[trigger] entries[i]).0 == k
}

/// A number of entries at the front of some bytes, after those that were read before.
/// The first entry that repeats a key, or is none, ends the reading.
pub open spec fn entries_read<K: Plain, V: Strict>(
    before: Seq<(K, V::Model)>,
    s: Seq<u8>,
    n: nat,
) -> Result<(Seq<(K, V::Model)>, nat), Fault>
    decreases n,
{
    if n == 0 {
        Ok((before, 0))
    } else {
        match <(K, V) as Strict>::read(s) {
            Ok(t) => if has_key(before, t.0.0) {
                Err(K::repeated(t.0.0))
            } else {
                match entries_read::<K, V>(before.push(t.0), s.skip(t.1 as int), (n - 1) as nat) {
                    Ok(ts) => Ok((ts.0, t.1 + ts.1)),
                    Err(e) => Err(e),
                }
            },
            Err(e) => Err(e),
        }
    }
}

proof fn lemma_entries_read_back<K: Plain, V: Strict>(
    ms: Seq<(K, V::Model)>,
    i: int,
    rest: Seq<u8>,
)
    requires
        0 <= i <= ms.len(),
        distinct_keys(ms),
        forall|j: int| 0 <= j < ms.len() ==> <(K, V) as Strict>::fits(#[trigger] ms[j]),
    ensures
        entries_read::<K, V>(
            ms.take(i),
            all_written::<(K, V)>(ms.skip(i)) + rest,
            (ms.len() - i) as nat,
        ) == Ok::<_, Fault>((ms, all_written::<(K, V)>(ms.skip(i)).len())),
    decreases ms.len() - i,
{
    if i < ms.len() {
        let head = <(K, V) as Strict>::written(ms[i]);
        let tail = all_written::<(K, V)>(ms.skip(i + 1));
        assert(ms.skip(i).skip(1) =~= ms.skip(i + 1));
        lemma_entries_read_back::<K, V>(ms, i + 1, rest);
        assert(<(K, V) as Strict>::fits(ms[i]));
        <(K, V) as Strict>::law_reads_back(ms[i], tail + rest);
        assert((head + tail) + rest =~= head + (tail + rest));
        assert((head + (tail + rest)).skip(head.len() as int) =~= tail + rest);
        assert(ms.take(i).push(ms[i]) =~= ms.take(i + 1));
        assert(!has_key(ms.take(i), ms[i].0)) by {
            if has_key(ms.take(i), ms[i].0) {
                let j = choose|j: int|
                    0 <= j < ms.take(i).len() && (#[trigger] ms.take(i)[j]).0 == ms[i].0;
                assert(ms[j].0 != ms[i].0);
            }
        }
    } else {
        assert(ms.take(i) =~= ms);
    }
}

proof fn lemma_entries_read_within<K: Plain, V: Strict>(
    before: Seq<(K, V::Model)>,
    s: Seq<u8>,
    n: nat,
)
    ensures
        entries_read::<K, V>(before, s, n) matches Ok(t) ==> t.1 <= s.len(),
    decreases n,
{
    if n > 0 {
        <(K, V) as Strict>::law_reads_within(s);
        if let Ok(t) = <(K, V) as Strict>::read(s) {
            lemma_entries_read_within::<K, V>(
                before.push(t.0),
                s.skip(t.1 as int),
                (n - 1) as nat,
            );
        }
    }
}

/// What is read when some bytes were read before.
pub open spec fn further<M>(n: nat, rest: Result<(M, nat), Fault>) -> Result<(M, nat), Fault> {
    match rest {
        Ok(t) => Ok((t.0, n + t.1)),
        Err(e) => Err(e),
    }
}

fn finds_key<K: Plain, V: Strict>(entries: &Vec<(K, V)>, key: &K) -> (r: bool)
    ensures
        r == has_key(models(entries@), *key),
{
    let mut i: usize = 0;
    while i < entries.len()
        invariant
            i <= entries.len(),
            forall|j: int| 0 <= j < i ==> (#[trigger] models(entries@)[j]).0 != *key,
        decreases entries.len() - i,
    {
        proof {
            K::lemma_own_model(entries@[i as int].0);
        }
        assert(models(entries@)[i as int].0 == entries@[i as int].0);
        if entries[i].0.same(key) {
            return true;
        }
        i = i + 1;
    }
    false
}

/// A map is written as the list of its entries. Where a list repeats a key, that is
/// what is found wrong with it.
impl<K: Plain, V: Strict> Strict for VecMap<K, V> {
    type Model = Seq<(K, V::Model)>;

    open spec fn model(&self) -> Seq<(K, V::Model)> {
        models(self.listed())
    }

    open spec fn fits(m: Seq<(K, V::Model)>) -> bool {
        <Vec<(K, V)> as Strict>::fits(m) && distinct_keys(m)
    }

    open spec fn written(m: Seq<(K, V::Model)>) -> Seq<u8> {
        <Vec<(K, V)> as Strict>::written(m)
    }

    open spec fn read(s: Seq<u8>) -> Result<(Seq<(K, V::Model)>, nat), Fault> {
        match leading_number(s, 2) {
            Some(n) => further(2, entries_read::<K, V>(Seq::empty(), s.skip(2), n.0)),
            None => Err(Fault::Malformed),
        }
    }

    proof fn law_reads_back(m: Seq<(K, V::Model)>, rest: Seq<u8>) {
        let count = low_bytes(m.len(), 2);
        let items = all_written::<(K, V)>(m);
        lemma_limits();
        lemma_leading_number(m.len(), 2, items + rest);
        lemma_entries_read_back::<K, V>(m, 0, rest);
        assert(m.skip(0) =~= m);
        assert(m.take(0) =~= Seq::empty());
        assert((count + items) + rest =~= count + (items + rest));
        assert((count + (items + rest)).skip(2) =~= items + rest);
    }

    proof fn law_reads_within(s: Seq<u8>) {
        if s.len() >= 2 {
            lemma_entries_read_within::<K, V>(Seq::empty(), s.skip(2), number(s.take(2)));
        }
    }

    fn strict_encode(&self) -> (r: Option<Vec<u8>>) {
        let entries: &Vec<(K, V)> = self.entries();
        proof {
            lemma_distinct_models(entries@);
        }
        entries.strict_encode()
    }

    fn strict_decode(bytes: &Vec<u8>, pos: usize) -> (r: Result<(VecMap<K, V>, usize), Fault>) {
        if bytes.len() - pos < 2 {
            return Err(Fault::Malformed);
        }
        proof {
            lemma_limits();
        }
        let n: usize = read_number(bytes, pos, 2) as usize;
        let start: usize = pos + 2;
        let ghost all = entries_read::<K, V>(Seq::empty(), bytes@.skip(start as int), n as nat);
        assert(bytes@.skip(pos as int).skip(2) =~= bytes@.skip(start as int));
        let mut entries: Vec<(K, V)> = Vec::new();
        let mut at: usize = start;
        let mut i: usize = 0;
        assert(models(entries@) =~= Seq::empty());
        while i < n
            invariant
                i <= n,
                start <= at <= bytes.len(),
                start == pos + 2,
                Self::read(bytes@.skip(pos as int)) == further(2, all),
                all == further(
                    (at - start) as nat,
                    entries_read::<K, V>(
                        models(entries@),
                        bytes@.skip(at as int),
                        (n - i) as nat,
                    ),
                ),
                distinct_keys(models(entries@)),
            decreases n - i,
        {
            let ghost before = models(entries@);
            match <(K, V) as Strict>::strict_decode(bytes, at) {
                Ok((entry, end)) => {
                    assert(bytes@.skip(at as int).skip(end - at) =~= bytes@.skip(end as int));
                    let ghost m = entry.model();
                    proof {
                        K::lemma_own_model(entry.0);
                    }
                    if finds_key(&entries, &entry.0) {
                        return Err(entry.0.fault());
                    }
                    entries.push(entry);
                    proof {
                        assert(models(entries@) =~= before.push(m));
                        assert(distinct_keys(before.push(m)));
                    }
                    at = end;
                },
                Err(e) => {
                    return Err(e);
                },
            }
            i = i + 1;
        }
        proof {
            lemma_distinct_models(entries@);
        }
        match VecMap::of(entries) {
            Some(map) => Ok((map, at)),
            None => Err(Fault::Malformed),
        }
    }
}

proof fn lemma_entries_read_on<K: Plain, V: Strict>(
    before: Seq<(K, V::Model)>,
    ms: Seq<(K, V::Model)>,
    rest: Seq<u8>,
    n: nat,
)
    requires
        ms.len() <= n,
        distinct_keys(before + ms),
        forall|j: int| 0 <= j < ms.len() ==> <(K, V) as Strict>::fits(#[trigger] ms[j]),
    ensures
        entries_read::<K, V>(before, all_written::<(K, V)>(ms) + rest, n) == further(
            all_written::<(K, V)>(ms).len(),
            entries_read::<K, V>(before + ms, rest, (n - ms.len()) as nat),
        ),
    decreases ms.len(),
{
    if ms.len() > 0 {
        let head = <(K, V) as Strict>::written(ms[0]);
        let tail = all_written::<(K, V)>(ms.skip(1));
        assert(<(K, V) as Strict>::fits(ms[0]));
        <(K, V) as Strict>::law_reads_back(ms[0], tail + rest);
        assert((head + tail) + rest =~= head + (tail + rest));
        assert((head + (tail + rest)).skip(head.len() as int) =~= tail + rest);
        assert(before.push(ms[0]) + ms.skip(1) =~= before + ms);
        assert forall|j: int| 0 <= j < ms.skip(1).len() implies <(K, V) as Strict>::fits(
            #[trigger] ms.skip(1)[j],
        ) by {
            assert(ms.skip(1)[j] == ms[j + 1]);
        }
        lemma_entries_read_on::<K, V>(before.push(ms[0]), ms.skip(1), rest, (n - 1) as nat);
        assert(!has_key(before, ms[0].0)) by {
            if has_key(before, ms[0].0) {
                let j = choose|j: int| 0 <= j < before.len() && (#[trigger] before[j]).0 == ms[0].0;
                assert((before + ms)[j].0 != (before + ms)[before.len() as int].0);
            }
        }
    } else {
        assert(before + ms =~= before);
        assert(all_written::<(K, V)>(ms) + rest =~= rest);
    }
}

/// A list of entries that are well formed up to one whose key came before is refused,
/// and the key is named, whatever follows.
pub proof fn law_repeated_key_named<K: Plain, V: Strict>(
    ms: Seq<(K, V::Model)>,
    again: (K, V::Model),
    rest: Seq<u8>,
    n: nat,
)
    requires
        ms.len() < n <= u16::MAX,
        distinct_keys(ms),
        forall|j: int| 0 <= j < ms.len() ==> <(K, V) as Strict>::fits(#[trigger] ms[j]),
        <(K, V) as Strict>::fits(again),
        has_key(ms, again.0),
    ensures
        <VecMap<K, V> as Strict>::read(
            low_bytes(n, 2) + (all_written::<(K, V)>(ms) + (<(K, V) as Strict>::written(again)
                + rest)),
        ) == Err::<(Seq<(K, V::Model)>, nat), _>(K::repeated(again.0)),
{
    let items = all_written::<(K, V)>(ms) + (<(K, V) as Strict>::written(again) + rest);
    lemma_limits();
    lemma_leading_number(n, 2, items);
    assert((low_bytes(n, 2) + items).skip(2) =~= items);
    assert(Seq::<(K, V::Model)>::empty() + ms =~= ms);
    lemma_entries_read_on::<K, V>(
        Seq::empty(),
        ms,
        <(K, V) as Strict>::written(again) + rest,
        n,
    );
    <(K, V) as Strict>::law_reads_back(again, rest);
}

/// A deferred request whose body is already in its wire encoding.
#[derive(Debug, PartialEq, Eq)]
pub struct PendingFrame {
    pub dest: ServiceId,
    pub bus_id: ServiceBus,
    pub request: Blob,
}

impl Strict for PendingFrame {
    type Model = (ServiceId, (ServiceBus, Seq<u8>));

    open spec fn model(&self) -> (ServiceId, (ServiceBus, Seq<u8>)) {
        (self.dest, (self.bus_id, self.request@))
    }

    open spec fn fits(m: (ServiceId, (ServiceBus, Seq<u8>))) -> bool {
        <(ServiceId, (ServiceBus, Blob)) as Strict>::fits(m)
    }

    open spec fn written(m: (ServiceId, (ServiceBus, Seq<u8>))) -> Seq<u8> {
        <(ServiceId, (ServiceBus, Blob)) as Strict>::written(m)
    }

    open spec fn read(s: Seq<u8>) -> Result<((ServiceId, (ServiceBus, Seq<u8>)), nat), Fault> {
        <(ServiceId, (ServiceBus, Blob)) as Strict>::read(s)
    }

    proof fn law_reads_back(m: (ServiceId, (ServiceBus, Seq<u8>)), rest: Seq<u8>) {
        <(ServiceId, (ServiceBus, Blob)) as Strict>::law_reads_back(m, rest);
    }

    proof fn law_reads_within(s: Seq<u8>) {
        <(ServiceId, (ServiceBus, Blob)) as Strict>::law_reads_within(s);
    }

    fn strict_encode(&self) -> (r: Option<Vec<u8>>) {
        (self.dest, (self.bus_id, self.request.clone())).strict_encode()
    }

    fn strict_decode(bytes: &Vec<u8>, pos: usize) -> (r: Result<(PendingFrame, usize), Fault>) {
        match <(ServiceId, (ServiceBus, Blob)) as Strict>::strict_decode(bytes, pos) {
            Ok(((dest, (bus_id, request)), end)) => Ok(
                (PendingFrame { dest, bus_id, request }, end),
            ),
            Err(e) => Err(e),
        }
    }
}

/// What a checkpoint holds behind the state and the last message of the swap.
#[derive(Debug, PartialEq, Eq)]
pub struct CheckpointTail {
    pub enquirer: Option<ServiceId>,
    pub temporal_safety: TemporalSafety,
    pub txs: VecMap<TxLabel, Transaction>,
    pub txids: VecMap<TxLabel, Txid>,
    pub pending_requests: VecMap<ServiceId, Vec<PendingFrame>>,
}

/// The contents of a checkpoint tail.
pub struct TailModel {
    pub enquirer: Option<ServiceId>,
    pub temporal_safety: TemporalSafety,
    pub txs: Seq<(TxLabel, (Seq<u8>, Seq<u8>))>,
    pub txids: Seq<(TxLabel, Txid)>,
    pub pending_requests: Seq<(ServiceId, Seq<(ServiceId, (ServiceBus, Seq<u8>))>)>,
}

impl Strict for CheckpointTail {
    type Model = TailModel;

    open spec fn model(&self) -> TailModel {
        TailModel {
            enquirer: self.enquirer,
            temporal_safety: self.temporal_safety,
            txs: self.txs.model(),
            txids: self.txids.model(),
            pending_requests: self.pending_requests.model(),
        }
    }

    /// Every count and every request fits in two bytes of length, no key is
    /// repeated and every transaction reads back.
    open spec fn fits(m: TailModel) -> bool {
        &&& VecMap::<TxLabel, Transaction>::fits(m.txs)
        &&& VecMap::<TxLabel, Txid>::fits(m.txids)
        &&& VecMap::<ServiceId, Vec<PendingFrame>>::fits(m.pending_requests)
    }

    open spec fn written(m: TailModel) -> Seq<u8> {
        Option::<ServiceId>::written(m.enquirer) + (TemporalSafety::written(m.temporal_safety) + (
        VecMap::<TxLabel, Transaction>::written(m.txs) + (VecMap::<TxLabel, Txid>::written(m.txids)
            + VecMap::<ServiceId, Vec<PendingFrame>>::written(m.pending_requests))))
    }

    open spec fn read(s: Seq<u8>) -> Result<(TailModel, nat), Fault> {
        match Parts::read(s) {
            Ok(t) => Ok(
                (
                    TailModel {
                        enquirer: t.0.0,
                        temporal_safety: t.0.1.0,
                        txs: t.0.1.1.0,
                        txids: t.0.1.1.1.0,
                        pending_requests: t.0.1.1.1.1,
                    },
                    t.1,
                ),
            ),
            Err(e) => Err(e),
        }
    }

    proof fn law_reads_back(m: TailModel, rest: Seq<u8>) {
        Parts::law_reads_back(
            (m.enquirer, (m.temporal_safety, (m.txs, (m.txids, m.pending_requests)))),
            rest,
        );
    }

    proof fn law_reads_within(s: Seq<u8>) {
        Parts::law_reads_within(s);
    }

    fn strict_encode(&self) -> (r: Option<Vec<u8>>) {
        let maps: Option<Vec<u8>> = chained(
            self.txs.strict_encode(),
            chained(self.txids.strict_encode(), self.pending_requests.strict_encode()),
        );
        chained(self.enquirer.strict_encode(), chained(self.temporal_safety.strict_encode(), maps))
    }

    fn strict_decode(bytes: &Vec<u8>, pos: usize) -> (r: Result<(CheckpointTail, usize), Fault>) {
        match Parts::strict_decode(bytes, pos) {
            Ok(((enquirer, (temporal_safety, (txs, (txids, pending_requests)))), end)) => Ok(
                (CheckpointTail { enquirer, temporal_safety, txs, txids, pending_requests }, end),
            ),
            Err(e) => Err(e),
        }
    }
}

/// The parts of a checkpoint tail, in the order in which they are written.
pub type Parts = (
    Option<ServiceId>,
    (
        TemporalSafety,
        (
            VecMap<TxLabel, Transaction>,
            (VecMap<TxLabel, Txid>, VecMap<ServiceId, Vec<PendingFrame>>),
        ),
    ),
);

/// A checkpoint tail that could be written is read back from what was written,
/// whatever follows it.
pub proof fn law_tail_reads_back(tail: CheckpointTail, rest: Seq<u8>)
    requires
        CheckpointTail::fits(tail.model()),
    ensures
        CheckpointTail::read(CheckpointTail::written(tail.model()) + rest) == Ok::<_, Fault>(
            (tail.model(), CheckpointTail::written(tail.model()).len()),
        ),
{
    CheckpointTail::law_reads_back(tail.model(), rest);
}

/// Writes a checkpoint whose state and last message are already in their encodings, if
/// what follows them fits.
pub fn write_checkpoint(state: &Vec<u8>, last_msg: &Vec<u8>, tail: &CheckpointTail) -> (r: Option<
    Vec<u8>,
>)
    ensures
        match r {
            Some(bytes) => CheckpointTail::fits(tail.model()) && bytes@ == state@ + last_msg@
                + CheckpointTail::written(tail.model()),
            None => !CheckpointTail::fits(tail.model()),
        },
{
    let written: Vec<u8> = match tail.strict_encode() {
        Some(bytes) => bytes,
        None => {
            return None;
        },
    };
    let mut out: Vec<u8> = Vec::new();
    append(&mut out, state);
    append(&mut out, last_msg);
    append(&mut out, &written);
    assert(out@ =~= state@ + last_msg@ + written@);
    Some(out)
}

proof fn lemma_laid_out(a: Seq<u8>, b: Seq<u8>, c: Seq<u8>)
    ensures
        (a + b + c).take(a.len() as int) == a,
        (a + b + c).skip(a.len() as int).take(b.len() as int) == b,
        (a + b + c).skip((a.len() + b.len()) as int) == c + Seq::<u8>::empty(),
{
    let all = a + b + c;
    assert(all.take(a.len() as int) =~= a);
    assert(all.skip(a.len() as int).take(b.len() as int) =~= b);
    assert(all.skip((a.len() + b.len()) as int) =~= c + Seq::<u8>::empty());
}

/// Once the state and the last message of a written checkpoint have been read, the rest
/// of it is read back as it was, to the last byte.
pub proof fn law_checkpoint_reads_back(state: Seq<u8>, last_msg: Seq<u8>, tail: CheckpointTail)
    requires
        CheckpointTail::fits(tail.model()),
    ensures
        ({
            let written = CheckpointTail::written(tail.model());
            let bytes = state + last_msg + written;
            &&& bytes.take(state.len() as int) == state
            &&& bytes.skip(state.len() as int).take(last_msg.len() as int) == last_msg
            &&& CheckpointTail::read(bytes.skip((state.len() + last_msg.len()) as int)) == Ok::<
                _,
                Fault,
            >(
                (tail.model(), written.len()),
            )
        }),
{
    lemma_laid_out(state, last_msg, CheckpointTail::written(tail.model()));
    law_tail_reads_back(tail, Seq::empty());
}

} // verus!
