//! Where each byte of a checkpoint stands.
use vstd::arithmetic::div_mod::lemma_div_denominator;
use vstd::arithmetic::power::{lemma_pow0, lemma_pow_positive, pow};
use vstd::prelude::*;

use crate::base::{
    Blockchain, Fault, Network, NodeAddr, ServiceBus, ServiceId, SwapId, TxLabel, Txid,
};
use crate::blob::Blob;
use crate::chain::{leading_transaction, Transaction};
use crate::map::VecMap;
use crate::swapd::codec::{
    bus_code, chain_code, label_code, network_code, CheckpointTail, PendingFrame, Plain, TailModel,
};
use crate::swapd::strict::{all_read, all_written, low_bytes, number, Strict};
use crate::swapd::temporal_safety::TemporalSafety;

verus! {

/// The number that two bytes make, the lowest first.
pub open spec fn two_bytes(s: Seq<u8>) -> int {
    s[0] + 0x100 * s[1]
}

/// The number that four bytes make, the lowest first.
pub open spec fn four_bytes(s: Seq<u8>) -> int {
    s[0] + 0x100 * s[1] + 0x1_0000 * s[2] + 0x100_0000 * s[3]
}

proof fn lemma_two_bytes(x: nat, s: Seq<u8>)
    ensures
        low_bytes(x, 2).len() == 2,
        x < 0x1_0000 ==> two_bytes(low_bytes(x, 2)) == x,
        s.len() >= 2 ==> number(s.take(2)) == two_bytes(s),
{
    reveal_with_fuel(low_bytes, 3);
    reveal_with_fuel(number, 3);
    let t = s.take(2);
    if s.len() >= 2 {
        assert(t.skip(1)[0] == t[1]);
        assert(t.skip(1).skip(1).len() == 0);
    }
}

proof fn lemma_four_bytes(x: nat, s: Seq<u8>)
    ensures
        low_bytes(x, 4).len() == 4,
        x < 0x1_0000_0000 ==> four_bytes(low_bytes(x, 4)) == x,
        s.len() >= 4 ==> number(s.take(4)) == four_bytes(s),
{
    reveal_with_fuel(low_bytes, 5);
    reveal_with_fuel(number, 5);
    let t = s.take(4);
    if s.len() >= 4 {
        assert(t.skip(1)[0] == t[1]);
        assert(t.skip(1).skip(1)[0] == t[2]);
        assert(t.skip(1).skip(1).skip(1)[0] == t[3]);
        assert(t.skip(1).skip(1).skip(1).skip(1).len() == 0);
    }
}

/// Numbers are written lowest byte first, in as many bytes as their type has, and are
/// read so; fewer bytes are no number.
pub proof fn law_numbers_lowest_first(a: u8, b: u16, c: u32, s: Seq<u8>)
    ensures
        <u8 as Strict>::written(a) == seq![a],
        <u16 as Strict>::written(b).len() == 2,
        two_bytes(<u16 as Strict>::written(b)) == b,
        <u32 as Strict>::written(c).len() == 4,
        four_bytes(<u32 as Strict>::written(c)) == c,
        <u8 as Strict>::read(s) == if s.len() >= 1 {
            Ok::<(u8, nat), Fault>((s[0], 1))
        } else {
            Err(Fault::Malformed)
        },
        <u16 as Strict>::read(s) == if s.len() >= 2 {
            Ok::<(u16, nat), Fault>((two_bytes(s) as u16, 2))
        } else {
            Err(Fault::Malformed)
        },
        <u32 as Strict>::read(s) == if s.len() >= 4 {
            Ok::<(u32, nat), Fault>((four_bytes(s) as u32, 4))
        } else {
            Err(Fault::Malformed)
        },
{
    reveal_with_fuel(low_bytes, 2);
    reveal_with_fuel(number, 2);
    assert(<u8 as Strict>::written(a) =~= seq![a]);
    lemma_two_bytes(b as nat, s);
    lemma_four_bytes(c as nat, s);
    if s.len() >= 1 {
        assert(s.take(1).skip(1).len() == 0);
    }
}

/// Long numbers are written likewise, in 8 and in 16 bytes, each byte worth 256 times the
/// one before.
pub proof fn law_long_numbers_lowest_first(a: u64, b: u128, i: int)
    ensures
        <u64 as Strict>::written(a).len() == 8,
        <u128 as Strict>::written(b).len() == 16,
        0 <= i < 8 ==> <u64 as Strict>::written(a)[i] == (a as int / pow(256, i as nat)) % 256,
        0 <= i < 16 ==> <u128 as Strict>::written(b)[i] == (b as int / pow(256, i as nat)) % 256,
{
    lemma_byte_at(a as nat, 8, if 0 <= i < 8 { i } else { 0 });
    lemma_byte_at(b as nat, 16, if 0 <= i < 16 { i } else { 0 });
}

proof fn lemma_byte_at(x: nat, n: nat, i: int)
    requires
        0 <= i < n,
    ensures
        low_bytes(x, n).len() == n,
        low_bytes(x, n)[i] == (x as int / pow(256, i as nat)) % 256,
    decreases n,
{
    let rest = low_bytes(x / 256, (n - 1) as nat);
    if i == 0 {
        lemma_pow0(256);
        if n > 1 {
            lemma_byte_at(x / 256, (n - 1) as nat, 0);
        }
        assert(low_bytes(x, n)[0] == (x % 256) as u8);
        assert(x as int / 1 == x);
    } else {
        let below = pow(256, (i - 1) as nat);
        lemma_pow_positive(256, (i - 1) as nat);
        lemma_byte_at(x / 256, (n - 1) as nat, i - 1);
        assert(low_bytes(x, n)[i] == rest[i - 1]);
        assert(pow(256, i as nat) == 256 * below) by {
            reveal(pow);
        }
        lemma_div_denominator(x as int, 256, below);
    }
}

/// Labels are written in two bytes, the other names in one, each under its own number.
pub proof fn law_names_written(
    label: TxLabel,
    bus: ServiceBus,
    chain: Blockchain,
    network: Network,
)
    ensures
        <TxLabel as Strict>::written(label).len() == 2,
        two_bytes(<TxLabel as Strict>::written(label)) == match label {
            TxLabel::Funding => 1int,
            TxLabel::Lock => 2,
            TxLabel::Buy => 3,
            TxLabel::Cancel => 4,
            TxLabel::Refund => 5,
            TxLabel::Punish => 6,
            TxLabel::AccLock => 7,
        },
        <ServiceBus as Strict>::written(bus) == seq![
            match bus {
                ServiceBus::Msg => 0u8,
                ServiceBus::Ctl => 1,
                ServiceBus::Bridge => 2,
            },
        ],
        <Blockchain as Strict>::written(chain) == seq![
            match chain {
                Blockchain::Bitcoin => 0u8,
                Blockchain::Monero => 1,
            },
        ],
        <Network as Strict>::written(network) == seq![
            match network {
                Network::Mainnet => 0u8,
                Network::Testnet => 1,
                Network::Local => 2,
            },
        ],
{
    let code = label_code(label);
    let b = bus_code(bus);
    let c = chain_code(chain);
    let n = network_code(network);
    law_numbers_lowest_first(b, code, 0, seq![]);
    law_numbers_lowest_first(c, code, 0, seq![]);
    law_numbers_lowest_first(n, code, 0, seq![]);
}

/// A service is written as one byte that says which kind it is, and what names it: a
/// swap's identifier, a peer's connection and node, a syncer's chain and network, a
/// client's number.
pub proof fn law_services_written(
    swap_id: SwapId,
    connection: u128,
    addr: NodeAddr,
    chain: Blockchain,
    network: Network,
    client: u64,
)
    ensures
        <ServiceId as Strict>::written(ServiceId::Loopback) == seq![0u8],
        <ServiceId as Strict>::written(ServiceId::Farcasterd) == seq![1u8],
        <ServiceId as Strict>::written(ServiceId::Wallet) == seq![2u8],
        <ServiceId as Strict>::written(ServiceId::Checkpoint) == seq![3u8],
        <ServiceId as Strict>::written(ServiceId::Database) == seq![4u8],
        <ServiceId as Strict>::written(ServiceId::Swap(swap_id)) == seq![5u8] + swap_id.0@,
        <ServiceId as Strict>::written(ServiceId::Peer(connection, addr)) == seq![6u8] + low_bytes(
            connection as nat,
            16,
        ) + addr.node_id@ + addr.host@ + <u16 as Strict>::written(addr.port),
        <ServiceId as Strict>::written(ServiceId::Syncer(chain, network)) == seq![7u8]
            + <Blockchain as Strict>::written(chain) + <Network as Strict>::written(network),
        <ServiceId as Strict>::written(ServiceId::Client(client)) == seq![8u8] + low_bytes(
            client as nat,
            8,
        ),
{
    assert(<ServiceId as Strict>::written(ServiceId::Peer(connection, addr)) =~= seq![6u8]
        + low_bytes(connection as nat, 16) + addr.node_id@ + addr.host@ + <u16 as Strict>::written(
        addr.port,
    ));
    assert(<ServiceId as Strict>::written(ServiceId::Syncer(chain, network)) =~= seq![7u8]
        + <Blockchain as Strict>::written(chain) + <Network as Strict>::written(network));
}

/// What may be missing is written behind a byte that says whether it is there; two things
/// are written one after the other.
pub proof fn law_parts_written<A: Strict, B: Strict>(a: A::Model, b: B::Model)
    ensures
        <Option<A> as Strict>::written(None) == seq![0u8],
        <Option<A> as Strict>::written(Some(a)) == seq![1u8] + A::written(a),
        <(A, B) as Strict>::written((a, b)) == A::written(a) + B::written(b),
{
}

/// Lists are written behind a count of two bytes, item after item, and bytes behind
/// their number; more than 65535 of them are not written.
pub proof fn law_lists_written<T: Strict>(ms: Seq<T::Model>, bytes: Seq<u8>)
    ensures
        <Vec<T> as Strict>::fits(ms) ==> ms.len() <= 65535,
        ms.len() <= 65535 ==> {
            &&& <Vec<T> as Strict>::written(ms).len() >= 2
            &&& two_bytes(<Vec<T> as Strict>::written(ms)) == ms.len()
            &&& <Vec<T> as Strict>::written(ms).skip(2) == all_written::<T>(ms)
        },
        ms.len() == 0 ==> all_written::<T>(ms).len() == 0,
        ms.len() > 0 ==> all_written::<T>(ms) == T::written(ms[0]) + all_written::<T>(ms.skip(1)),
        <Blob as Strict>::fits(bytes) <==> bytes.len() <= 65535,
        bytes.len() <= 65535 ==> {
            &&& <Blob as Strict>::written(bytes).len() == bytes.len() + 2
            &&& two_bytes(<Blob as Strict>::written(bytes)) == bytes.len()
            &&& <Blob as Strict>::written(bytes).skip(2) == bytes
        },
{
    lemma_two_bytes(ms.len(), seq![]);
    lemma_two_bytes(bytes.len(), seq![]);
    let count = low_bytes(ms.len(), 2);
    assert(<Vec<T> as Strict>::written(ms).skip(2) =~= all_written::<T>(ms));
    assert(<Blob as Strict>::written(bytes).skip(2) =~= bytes);
}

/// The six thresholds are written in 24 bytes: cancel and punish timelock, bitcoin's
/// finality, the race, monero's finality and the depth for a sweep.
pub proof fn law_thresholds_written(t: TemporalSafety)
    ensures
        ({
            let s = <TemporalSafety as Strict>::written(t);
            &&& s.len() == 24
            &&& four_bytes(s) == t.cancel_timelock
            &&& four_bytes(s.skip(4)) == t.punish_timelock
            &&& four_bytes(s.skip(8)) == t.btc_finality_thr
            &&& four_bytes(s.skip(12)) == t.race_thr
            &&& four_bytes(s.skip(16)) == t.xmr_finality_thr
            &&& four_bytes(s.skip(20)) == t.sweep_monero_thr
        }),
{
    lemma_four_bytes(t.cancel_timelock as nat, seq![]);
    lemma_four_bytes(t.punish_timelock as nat, seq![]);
    lemma_four_bytes(t.btc_finality_thr as nat, seq![]);
    lemma_four_bytes(t.race_thr as nat, seq![]);
    lemma_four_bytes(t.xmr_finality_thr as nat, seq![]);
    lemma_four_bytes(t.sweep_monero_thr as nat, seq![]);
}

/// A checkpoint holds, behind the state and the last message: the client, the
/// thresholds, the transactions by their labels as they are on the chain, the
/// identifiers by theirs, and the requests that wait, by service.
pub proof fn law_tail_written(m: TailModel, tx: (Seq<u8>, Seq<u8>))
    ensures
        CheckpointTail::written(m) == Option::<ServiceId>::written(m.enquirer)
            + TemporalSafety::written(m.temporal_safety) + VecMap::<TxLabel, Transaction>::written(
            m.txs,
        ) + VecMap::<TxLabel, Txid>::written(m.txids) + VecMap::<
            ServiceId,
            Vec<PendingFrame>,
        >::written(m.pending_requests),
        <Transaction as Strict>::written(tx) == tx.0,
{
    assert(CheckpointTail::written(m) =~= Option::<ServiceId>::written(m.enquirer)
        + TemporalSafety::written(m.temporal_safety) + VecMap::<TxLabel, Transaction>::written(
        m.txs,
    ) + VecMap::<TxLabel, Txid>::written(m.txids) + VecMap::<
        ServiceId,
        Vec<PendingFrame>,
    >::written(m.pending_requests));
}

/// A map is written as the list of its entries, and fits only if no key stands twice.
pub proof fn law_maps_written<K: Plain, V: Strict>(m: Seq<(K, V::Model)>, i: int, j: int)
    requires
        <VecMap<K, V> as Strict>::fits(m),
    ensures
        <VecMap<K, V> as Strict>::written(m) == <Vec<(K, V)> as Strict>::written(m),
        0 <= i < j < m.len() ==> m[i].0 != m[j].0,
{
}

/// Numbers, byte arrays, identifiers, names, services and thresholds can always be
/// written. Two things can exactly if both can, what may be missing exactly if it is
/// missing or can, a list exactly if it is no longer than 65535 and every item can, a
/// map exactly if besides no key stands twice, and a transaction exactly if its encoding
/// reads back.
pub proof fn law_what_fits<A: Strict, B: Strict, K: Plain>(
    label: TxLabel,
    bus: ServiceBus,
    chain: Blockchain,
    network: Network,
    txid: Txid,
    swap_id: SwapId,
    addr: NodeAddr,
    service: ServiceId,
    safety: TemporalSafety,
    a: A::Model,
    b: B::Model,
    list: Seq<A::Model>,
    map: Seq<(K, A::Model)>,
    tx: (Seq<u8>, Seq<u8>),
)
    ensures
        <u8 as Strict>::fits(0) && <u16 as Strict>::fits(addr.port) && <u32 as Strict>::fits(
            safety.race_thr,
        ),
        <[u8; 32] as Strict>::fits(txid.0) && <[u8; 33] as Strict>::fits(addr.node_id),
        <TxLabel as Strict>::fits(label) && <ServiceBus as Strict>::fits(bus),
        <Blockchain as Strict>::fits(chain) && <Network as Strict>::fits(network),
        <Txid as Strict>::fits(txid) && <SwapId as Strict>::fits(swap_id),
        <NodeAddr as Strict>::fits(addr) && <ServiceId as Strict>::fits(service),
        <TemporalSafety as Strict>::fits(safety),
        <(A, B) as Strict>::fits((a, b)) <==> A::fits(a) && B::fits(b),
        <Option<A> as Strict>::fits(Some(a)) <==> A::fits(a),
        <Option<A> as Strict>::fits(None),
        <Vec<A> as Strict>::fits(list) <==> list.len() <= 65535 && (forall|i: int|
            0 <= i < list.len() ==> A::fits(#[trigger] list[i])),
        <VecMap<K, A> as Strict>::fits(map) <==> <Vec<(K, A)> as Strict>::fits(map) && (forall|
            i: int,
            j: int,
        |
            0 <= i < j < map.len() ==> (#[trigger] map[i]).0 != (#[trigger] map[j]).0),
        <Transaction as Strict>::fits(tx) <==> (forall|rest: Seq<u8>|
            leading_transaction(#[trigger] (tx.0 + rest)) == Some((tx.0, tx.1, tx.0.len()))),
{
}

/// Every number can be written.
pub proof fn law_numbers_fit(a: u8, b: u16, c: u32, d: u64, e: u128)
    ensures
        <u8 as Strict>::fits(a),
        <u16 as Strict>::fits(b),
        <u32 as Strict>::fits(c),
        <u64 as Strict>::fits(d),
        <u128 as Strict>::fits(e),
{
}

/// The rest of a checkpoint can be written exactly if its three maps can, and a request
/// that waits exactly if it is no longer than 65535 bytes.
pub proof fn law_tail_fits(m: TailModel, dest: ServiceId, bus: ServiceBus, request: Seq<u8>)
    ensures
        CheckpointTail::fits(m) <==> VecMap::<TxLabel, Transaction>::fits(m.txs) && VecMap::<
            TxLabel,
            Txid,
        >::fits(m.txids) && VecMap::<ServiceId, Vec<PendingFrame>>::fits(m.pending_requests),
        <PendingFrame as Strict>::fits((dest, (bus, request))) <==> request.len() <= 65535,
        <PendingFrame as Strict>::written((dest, (bus, request))) == <ServiceId as Strict>::written(
            dest,
        ) + (<ServiceBus as Strict>::written(bus) + <Blob as Strict>::written(request)),
{
}

/// A name is read only from a number that is its own: no other number stands for one.
pub proof fn law_names_read(s: Seq<u8>)
    ensures
        <TxLabel as Strict>::read(s) is Ok <==> s.len() >= 2 && 1 <= two_bytes(s) <= 7,
        <TxLabel as Strict>::read(s) matches Ok((label, n)) ==> n == 2 && two_bytes(
            <TxLabel as Strict>::written(label),
        ) == two_bytes(s),
        <ServiceBus as Strict>::read(s) is Ok <==> s.len() >= 1 && s[0] <= 2,
        <ServiceBus as Strict>::read(s) matches Ok((bus, n)) ==> n == 1 && <ServiceBus as Strict>::written(
            bus,
        )[0] == s[0],
        <Blockchain as Strict>::read(s) is Ok <==> s.len() >= 1 && s[0] <= 1,
        <Blockchain as Strict>::read(s) matches Ok((chain, n)) ==> n == 1 && <Blockchain as Strict>::written(
            chain,
        )[0] == s[0],
        <Network as Strict>::read(s) is Ok <==> s.len() >= 1 && s[0] <= 2,
        <Network as Strict>::read(s) matches Ok((network, n)) ==> n == 1 && <Network as Strict>::written(
            network,
        )[0] == s[0],
{
    law_numbers_lowest_first(0, 0, 0, s);
    if let Ok((label, _)) = <TxLabel as Strict>::read(s) {
        law_names_written(label, ServiceBus::Msg, Blockchain::Bitcoin, Network::Local);
    }
    if let Ok((bus, _)) = <ServiceBus as Strict>::read(s) {
        law_names_written(TxLabel::Lock, bus, Blockchain::Bitcoin, Network::Local);
    }
    if let Ok((chain, _)) = <Blockchain as Strict>::read(s) {
        law_names_written(TxLabel::Lock, ServiceBus::Msg, chain, Network::Local);
    }
    if let Ok((network, _)) = <Network as Strict>::read(s) {
        law_names_written(TxLabel::Lock, ServiceBus::Msg, Blockchain::Bitcoin, network);
    }
}

/// A service is read only behind a byte from 0 to 8, and of the kind that byte stands for.
pub proof fn law_services_read(s: Seq<u8>)
    ensures
        <ServiceId as Strict>::read(s) is Ok ==> s.len() >= 1 && s[0] <= 8,
        s.len() >= 1 && s[0] <= 4 ==> <ServiceId as Strict>::read(s) is Ok,
        <ServiceId as Strict>::read(s) matches Ok((id, n)) ==> {
            &&& id is Loopback <==> s[0] == 0
            &&& id is Farcasterd <==> s[0] == 1
            &&& id is Wallet <==> s[0] == 2
            &&& id is Checkpoint <==> s[0] == 3
            &&& id is Database <==> s[0] == 4
            &&& id is Swap <==> s[0] == 5
            &&& id is Peer <==> s[0] == 6
            &&& id is Syncer <==> s[0] == 7
            &&& id is Client <==> s[0] == 8
            &&& n == match id {
                ServiceId::Swap(_) => 33int,
                ServiceId::Peer(_, _) => 84,
                ServiceId::Syncer(_, _) => 3,
                ServiceId::Client(_) => 9,
                _ => 1,
            }
        },
        s.len() >= 33 && s[0] == 5 ==> <ServiceId as Strict>::read(s) is Ok,
        s.len() >= 84 && s[0] == 6 ==> <ServiceId as Strict>::read(s) is Ok,
        s.len() >= 9 && s[0] == 8 ==> <ServiceId as Strict>::read(s) is Ok,
{
}

/// What may be missing is read only behind a 0 or a 1, a list only as long as its count
/// says, and bytes only if as many are there as their number says.
pub proof fn law_parts_read<T: Strict>(s: Seq<u8>)
    ensures
        <Option<T> as Strict>::read(s) is Ok <==> s.len() >= 1 && (s[0] == 0 || (s[0] == 1
            && T::read(s.skip(1)) is Ok)),
        <Option<T> as Strict>::read(s) matches Ok((m, n)) ==> (m is None <==> s[0] == 0),
        <Blob as Strict>::read(s) is Ok <==> s.len() >= 2 && 2 + two_bytes(s) <= s.len(),
        <Blob as Strict>::read(s) matches Ok((m, n)) ==> n == 2 + two_bytes(s) && m == s.subrange(
            2,
            2 + two_bytes(s),
        ),
        <Vec<T> as Strict>::read(s) is Ok ==> s.len() >= 2,
        <Vec<T> as Strict>::read(s) matches Ok((m, n)) ==> m.len() == two_bytes(s),
{
    lemma_two_bytes(0, s);
    if s.len() >= 2 {
        lemma_all_counted::<T>(s.skip(2), number(s.take(2)));
        if 2 + two_bytes(s) <= s.len() {
            assert(s.skip(2).take(two_bytes(s)) =~= s.subrange(2, 2 + two_bytes(s)));
        }
    }
}

proof fn lemma_all_counted<T: Strict>(s: Seq<u8>, n: nat)
    ensures
        all_read::<T>(s, n) matches Ok(t) ==> t.0.len() == n,
    decreases n,
{
    if n > 0 {
        if let Ok(t) = T::read(s) {
            lemma_all_counted::<T>(s.skip(t.1 as int), (n - 1) as nat);
        }
    }
}

} // verus!
