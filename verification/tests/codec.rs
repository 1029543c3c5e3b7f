//! Byte layouts and the parts of a checkpoint.
use std::sync::Arc;

use farcaster_node::base::{
    Blockchain, Fault, Network, NodeAddr, ServiceBus, ServiceId, SwapId, TxLabel, Txid,
};
use farcaster_node::blob::Blob;
use farcaster_node::chain::Transaction;
use farcaster_node::crypto::checksum;
use farcaster_node::map::VecMap;
use farcaster_node::message::{CheckpointMultipartChunk, Request};
use farcaster_node::swapd::checkpoint::{Checkpoint, CheckpointState};
use farcaster_node::swapd::chunks::{
    checkpoint_state, max_chunk_size, CheckpointChunk, Chunks, Letter,
};
use farcaster_node::swapd::codec::{write_checkpoint, CheckpointTail, PendingFrame};
use farcaster_node::swapd::strict::Strict;
use farcaster_node::swapd::temporal_safety::TemporalSafety;

fn tx(n: u32) -> Transaction {
    let tx = bitcoin::Transaction {
        version: 2,
        lock_time: n,
        input: vec![bitcoin::TxIn::default()],
        output: vec![bitcoin::TxOut { value: 1, script_pubkey: bitcoin::Script::new() }],
    };
    Transaction::decode(&bitcoin::consensus::serialize(&tx)).unwrap()
}

fn segwit_tx() -> Transaction {
    let mut input = bitcoin::TxIn::default();
    input.witness = bitcoin::Witness::from_vec(vec![vec![1, 2, 3], vec![]]);
    let tx = bitcoin::Transaction { version: 1, lock_time: 0, input: vec![input], output: vec![] };
    Transaction::decode(&bitcoin::consensus::serialize(&tx)).unwrap()
}

fn safety() -> TemporalSafety {
    TemporalSafety {
        cancel_timelock: 10,
        punish_timelock: 30,
        btc_finality_thr: 1,
        race_thr: 3,
        xmr_finality_thr: 1,
        sweep_monero_thr: 10,
    }
}

fn peer() -> ServiceId {
    ServiceId::Peer(0x0102, NodeAddr { node_id: [2; 33], host: [3; 32], port: 9735 })
}

fn there_and_back<T: Strict + PartialEq + std::fmt::Debug>(value: T) {
    let mut bytes = value.strict_encode().unwrap();
    let end = bytes.len();
    bytes.extend([0xab, 0xcd]);
    let (read, at) = T::strict_decode(&bytes, 0).unwrap();
    assert_eq!(at, end);
    assert_eq!(read, value);
    let mut framed = vec![1u8, 2, 3];
    framed.extend(&bytes);
    let (read, at) = T::strict_decode(&framed, 3).unwrap();
    assert_eq!(at, end + 3);
    assert_eq!(read, value);
    for cut in 0..end {
        assert!(T::strict_decode(&bytes[..cut].to_vec(), 0).is_err());
    }
}

#[test]
fn integers_have_their_lowest_byte_first() {
    assert_eq!(0x1234u16.strict_encode().unwrap(), vec![0x34, 0x12]);
    assert_eq!(0x01020304u32.strict_encode().unwrap(), vec![4, 3, 2, 1]);
    there_and_back(0u8);
    there_and_back(u16::MAX);
    there_and_back(u32::MAX);
    there_and_back(0x0123_4567_89ab_cdefu64);
    there_and_back(u128::MAX - 5);
}

#[test]
fn labels_have_the_codes_of_the_protocol() {
    let labels = [
        TxLabel::Funding,
        TxLabel::Lock,
        TxLabel::Buy,
        TxLabel::Cancel,
        TxLabel::Refund,
        TxLabel::Punish,
        TxLabel::AccLock,
    ];
    for (i, label) in labels.iter().enumerate() {
        assert_eq!(label.strict_encode().unwrap(), vec![i as u8 + 1, 0]);
        there_and_back(*label);
    }
    assert!(TxLabel::strict_decode(&vec![0, 0], 0).is_err());
    assert!(TxLabel::strict_decode(&vec![8, 0], 0).is_err());
    assert!(TxLabel::strict_decode(&vec![1, 1], 0).is_err());
}

#[test]
fn services_and_their_parts() {
    for id in [
        ServiceId::Loopback,
        ServiceId::Farcasterd,
        ServiceId::Wallet,
        ServiceId::Checkpoint,
        ServiceId::Database,
        ServiceId::Swap(SwapId([9; 32])),
        peer(),
        ServiceId::Syncer(Blockchain::Monero, Network::Local),
        ServiceId::Syncer(Blockchain::Bitcoin, Network::Testnet),
        ServiceId::Client(77),
    ] {
        there_and_back(id);
        there_and_back(Some(id));
    }
    there_and_back(None::<ServiceId>);
    assert!(ServiceId::strict_decode(&vec![9], 0).is_err());
    assert!(Option::<ServiceId>::strict_decode(&vec![2, 0], 0).is_err());
    for bus in [ServiceBus::Msg, ServiceBus::Ctl, ServiceBus::Bridge] {
        there_and_back(bus);
    }
    assert!(ServiceBus::strict_decode(&vec![3], 0).is_err());
    assert!(Network::strict_decode(&vec![3], 0).is_err());
    assert!(Blockchain::strict_decode(&vec![2], 0).is_err());
}

#[test]
fn bytes_and_lists_have_a_count_of_two_bytes() {
    assert_eq!(Blob::new(vec![7, 8]).strict_encode().unwrap(), vec![2, 0, 7, 8]);
    assert_eq!(vec![5u16, 6].strict_encode().unwrap(), vec![2, 0, 5, 0, 6, 0]);
    there_and_back(Blob::new(vec![]));
    there_and_back(vec![Txid([1; 32]), Txid([2; 32])]);
    assert!(Blob::new(vec![0; 65535]).strict_encode().is_some());
    assert!(Blob::new(vec![0; 65536]).strict_encode().is_none());
    assert!(vec![0u8; 65535].strict_encode().is_some());
    assert!(vec![0u8; 65536].strict_encode().is_none());
    assert!(vec![Blob::new(vec![0; 65536])].strict_encode().is_none());
}

#[test]
fn transactions_stand_in_their_consensus_encoding() {
    let t = tx(5);
    assert_eq!(&t.strict_encode().unwrap(), t.raw().bytes());
    there_and_back(tx(6));
    there_and_back(segwit_tx());
}

fn labelled(label: TxLabel, n: u32) -> (TxLabel, Transaction) {
    (label, tx(n))
}

#[test]
fn maps_repeat_no_key() {
    let twice = vec![labelled(TxLabel::Lock, 1), labelled(TxLabel::Lock, 2)];
    let bytes = twice.strict_encode().unwrap();
    assert!(Vec::<(TxLabel, Transaction)>::strict_decode(&bytes, 0).is_ok());
    assert_eq!(
        VecMap::<TxLabel, Transaction>::strict_decode(&bytes, 0),
        Err(Fault::RepeatedLabel(TxLabel::Lock))
    );
    // the key is named although what follows it is cut off
    let mut cut = bytes.clone();
    cut[0] = 9;
    assert_eq!(
        VecMap::<TxLabel, Transaction>::strict_decode(&cut, 0),
        Err(Fault::RepeatedLabel(TxLabel::Lock))
    );
    let services = vec![(ServiceId::Wallet, 1u8), (ServiceId::Client(4), 2), (ServiceId::Wallet, 3)];
    assert_eq!(
        VecMap::<ServiceId, u8>::strict_decode(&services.strict_encode().unwrap(), 0),
        Err(Fault::RepeatedService(ServiceId::Wallet))
    );
    let short = VecMap::<ServiceId, u8>::strict_decode(&vec![1, 0, 2], 0);
    assert_eq!(short, Err(Fault::Malformed));
    assert!(VecMap::of(twice).is_none());
    let map = VecMap::of(vec![labelled(TxLabel::Lock, 1), labelled(TxLabel::Buy, 2)]).unwrap();
    there_and_back(map);
}

fn tail() -> CheckpointTail {
    CheckpointTail {
        enquirer: Some(ServiceId::Client(3)),
        temporal_safety: safety(),
        txs: VecMap::of(vec![labelled(TxLabel::Cancel, 1), labelled(TxLabel::Refund, 2)]).unwrap(),
        txids: VecMap::of(vec![(TxLabel::Buy, Txid([6; 32]))]).unwrap(),
        pending_requests: VecMap::of(vec![
            (
                ServiceId::Syncer(Blockchain::Monero, Network::Testnet),
                vec![
                    PendingFrame {
                        dest: peer(),
                        bus_id: ServiceBus::Msg,
                        request: Blob::new(vec![1, 2, 3]),
                    },
                    PendingFrame {
                        dest: ServiceId::Wallet,
                        bus_id: ServiceBus::Ctl,
                        request: Blob::new(vec![]),
                    },
                ],
            ),
            (ServiceId::Wallet, vec![]),
        ])
        .unwrap(),
    }
}

#[test]
fn checkpoint_tail_is_read_back() {
    there_and_back(tail());
    let bytes = tail().strict_encode().unwrap();
    // an enquirer with a tag, a number of the client, then six thresholds
    assert_eq!(bytes[..14].to_vec(), vec![1, 8, 3, 0, 0, 0, 0, 0, 0, 0, 10, 0, 0, 0]);
}

#[test]
fn checkpoint_stands_behind_state_and_message() {
    let bytes = write_checkpoint(&vec![9, 9, 9], &vec![7], &tail()).unwrap();
    assert_eq!(bytes[..5].to_vec(), vec![9, 9, 9, 7, 1]);
    let (back, end) = CheckpointTail::strict_decode(&bytes, 4).unwrap();
    assert_eq!(back, tail());
    assert_eq!(end, bytes.len());
}

#[test]
fn checkpoint_tail_with_an_oversized_request() {
    let mut t = tail();
    let frame = PendingFrame {
        dest: ServiceId::Wallet,
        bus_id: ServiceBus::Msg,
        request: Blob::new(vec![0; 65536]),
    };
    t.pending_requests = VecMap::of(vec![(ServiceId::Wallet, vec![frame])]).unwrap();
    assert!(t.strict_encode().is_none());
    assert!(write_checkpoint(&vec![], &vec![], &t).is_none());
}

#[test]
fn small_checkpoint_goes_in_one_message() {
    assert_eq!(max_chunk_size(), 64545);
    assert_eq!(
        internet2::transport::MAX_FRAME_SIZE,
        farcaster_node::swapd::chunks::MAX_FRAME_SIZE
    );
    let bytes = vec![1u8; 64545];
    let state = || CheckpointState::CheckpointWallet(Blob::new(vec![5]));
    let swap_id = SwapId([1; 32]);
    assert_eq!(
        checkpoint_state(swap_id, state(), &bytes),
        vec![Letter {
            bus: ServiceBus::Ctl,
            source: ServiceId::Swap(swap_id),
            dest: ServiceId::Database,
            request: Request::Checkpoint(Arc::new(Checkpoint { swap_id, state: state() })),
        }]
    );
    assert_eq!(checkpoint_state(swap_id, state(), &vec![1u8; 64546]).len(), 2);
}

fn cut_up(bytes: &Vec<u8>) -> Vec<CheckpointMultipartChunk> {
    let state = CheckpointState::CheckpointWallet(Blob::new(vec![5]));
    checkpoint_state(SwapId([1; 32]), state, bytes)
        .into_iter()
        .map(|letter| match letter {
            Letter {
                bus: ServiceBus::Ctl,
                source: ServiceId::Swap(SwapId(id)),
                dest: ServiceId::Database,
                request: Request::CheckpointMultipartChunk(chunk),
            } if id == [1; 32] => chunk,
            other => panic!("{:?}", other),
        })
        .collect()
}

fn long() -> Vec<u8> {
    (0..150_000u32).map(|i| (i % 251) as u8).collect()
}

#[test]
fn large_checkpoint_is_cut_up_and_put_together() {
    let bytes = long();
    let parts = cut_up(&bytes);
    assert_eq!(parts.len(), 3);
    for (i, part) in parts.iter().enumerate() {
        assert_eq!(part.msg_index, i);
        assert_eq!(part.msgs_total, 3);
        assert_eq!(part.checksum, checksum(&bytes));
        assert_eq!(part.swap_id, SwapId([1; 32]));
    }
    assert_eq!(parts[0].serialized_state_chunk.bytes().len(), 64545);
    assert_eq!(parts[2].serialized_state_chunk.bytes().len(), 150_000 - 2 * 64545);
    // whatever the order, and however often each comes
    let mut chunks = Chunks::new();
    for i in [2usize, 0, 2, 1, 0] {
        chunks.insert(CheckpointChunk {
            msg_index: parts[i].msg_index,
            serialized_state_chunk: parts[i].serialized_state_chunk.clone(),
        });
    }
    assert_eq!(chunks.0.len(), 3);
    assert_eq!(chunks.assemble(), bytes);
}
