//! The swap daemon's runtime and its reactions on the buses.
use std::str::FromStr;
use std::sync::Arc;

use farcaster_core::consensus;
use farcaster_core::crypto::{SharedKeyId, TaggedElement};
use farcaster_core::swap::btcxmr::message::{RevealAliceParameters, RevealBobParameters};

use farcaster_node::base::{
    Blockchain, Error, Fault, Network, NodeAddr, Notice, Outcome, RequestType, ServiceBus, ServiceId, Stage, StateName,
    SwapId, SwapRole, TaskId, TradeRole, TxLabel, Txid,
};
use farcaster_node::blob::Blob;
use farcaster_node::chain::{BitcoinAddress, Psbt, Transaction};
use farcaster_node::crypto::{commit_to, Commit, Params, Reveal, Sealed};
use farcaster_node::message::{
    AddressAddendum, AddressTransaction, BuyProcedureSignature, CheckpointMultipartChunk,
    CoreArbitratingSetup, FundingInfo, InitSwap, Keyset, Msg, Request, SweepAddressAddendum,
    SweepMoneroAddress, SyncEvent, TakerCommit, Task, TaskTarget, TransactionConfirmations, Tx,
    TxHash,
};
use farcaster_node::offer::{Offer, PublicOffer};
use farcaster_node::swapd::checkpoint::{Checkpoint, CheckpointState, PendingRequest};
use farcaster_node::swapd::chunks::checkpoint_state;
use farcaster_node::swapd::rpc_ctl::{reread, Clock};
use farcaster_node::swapd::rpc_msg::Reaction;
use farcaster_node::swapd::runtime::{get_swap_id, run, Dispatch, Op, Runtime};
use farcaster_node::swapd::state::{AliceState, BobState, Exchange, State};
use farcaster_node::swapd::temporal_safety::TemporalSafety;

const ADDRESS: &str = "tb1qw508d6qejxtdg4y5r3zarvary0c5xw7kxpjzsx";

fn swap_id() -> SwapId {
    SwapId([7; 32])
}

fn offer(maker_role: SwapRole) -> PublicOffer {
    PublicOffer {
        text: "Offer:some".to_string(),
        offer: Offer {
            network: Network::Testnet,
            arbitrating_amount: 100_000,
            accordant_amount: 3_000,
            cancel_timelock: 10,
            punish_timelock: 30,
            maker_role,
        },
    }
}

fn alice() -> Runtime {
    run(swap_id(), offer(SwapRole::Alice), TradeRole::Maker).ok().unwrap()
}

fn bob() -> Runtime {
    run(swap_id(), offer(SwapRole::Alice), TradeRole::Taker).ok().unwrap()
}

fn peer() -> ServiceId {
    ServiceId::Peer(1, node())
}

fn node() -> NodeAddr {
    NodeAddr { node_id: [2; 33], host: [3; 32], port: 9735 }
}

fn btc_syncer() -> ServiceId {
    ServiceId::Syncer(Blockchain::Bitcoin, Network::Testnet)
}

fn xmr_syncer() -> ServiceId {
    ServiceId::Syncer(Blockchain::Monero, Network::Testnet)
}

fn client() -> ServiceId {
    ServiceId::Client(4)
}

fn clock() -> Clock {
    Clock { uptime: 12, since: 1000 }
}

fn address() -> BitcoinAddress {
    BitcoinAddress::parse(&ADDRESS.to_string()).unwrap()
}

fn unsigned(n: u32) -> bitcoin::Transaction {
    bitcoin::Transaction {
        version: 2,
        lock_time: n,
        input: vec![bitcoin::TxIn::default()],
        output: vec![bitcoin::TxOut { value: 1, script_pubkey: bitcoin::Script::new() }],
    }
}

fn tx(n: u32) -> Transaction {
    Transaction::decode(&bitcoin::consensus::serialize(&unsigned(n))).unwrap()
}

fn psbt(n: u32) -> Psbt {
    let psbt = bitcoin::util::psbt::PartiallySignedTransaction::from_unsigned_tx(unsigned(n));
    Psbt::decode(&Blob::new(bitcoin::consensus::serialize(&psbt.unwrap()))).unwrap()
}

fn pubkey(n: u8) -> bitcoin::secp256k1::PublicKey {
    let secp = bitcoin::secp256k1::Secp256k1::new();
    let sk = bitcoin::secp256k1::SecretKey::from_slice(&[n; 32]).unwrap();
    bitcoin::secp256k1::PublicKey::from_secret_key(&secp, &sk)
}

fn scalar(n: u8) -> monero::PrivateKey {
    let mut bytes = [0u8; 32];
    bytes[0] = n;
    monero::PrivateKey::from_slice(&bytes).unwrap()
}

fn point(n: u8) -> monero::PublicKey {
    monero::PublicKey::from_private_key(&scalar(n))
}

fn alice_params() -> Params {
    let reveal = RevealAliceParameters {
        swap_id: swap_id().0.into(),
        buy: pubkey(1),
        cancel: pubkey(2),
        refund: pubkey(3),
        punish: pubkey(4),
        adaptor: pubkey(5),
        extra_arbitrating_keys: vec![],
        arbitrating_shared_keys: vec![],
        spend: point(10),
        extra_accordant_keys: vec![],
        accordant_shared_keys: vec![TaggedElement::new(SharedKeyId::new(1), scalar(11))],
        address: bitcoin::Address::from_str(ADDRESS).unwrap(),
    };
    Params::Alice(Blob::new(consensus::serialize(&reveal)[32..].to_vec()))
}

fn bob_params() -> Params {
    let reveal = RevealBobParameters {
        swap_id: swap_id().0.into(),
        buy: pubkey(6),
        cancel: pubkey(7),
        refund: pubkey(8),
        adaptor: pubkey(9),
        extra_arbitrating_keys: vec![],
        arbitrating_shared_keys: vec![],
        spend: point(20),
        extra_accordant_keys: vec![],
        accordant_shared_keys: vec![TaggedElement::new(SharedKeyId::new(1), scalar(22))],
        address: bitcoin::Address::from_str(ADDRESS).unwrap(),
    };
    Params::Bob(Blob::new(consensus::serialize(&reveal)[32..].to_vec()))
}

fn alice_commit() -> Commit {
    commit_to(swap_id(), &alice_params()).unwrap()
}

fn bob_commit() -> Commit {
    commit_to(swap_id(), &bob_params()).unwrap()
}

fn sealed() -> Sealed {
    Sealed { swap_id: swap_id(), body: Blob::new(vec![1]) }
}

fn setup() -> CoreArbitratingSetup {
    CoreArbitratingSetup {
        swap_id: swap_id(),
        lock: psbt(1),
        cancel: psbt(2),
        refund: psbt(3),
        cancel_sig: Blob::new(vec![]),
    }
}

fn buy_signature() -> BuyProcedureSignature {
    BuyProcedureSignature {
        swap_id: swap_id(),
        buy: psbt(4),
        buy_adaptor_sig: Blob::new(vec![]),
    }
}

/// Takes all steps of a reaction that succeeds and gives what they dispatch.
fn follow(rt: &mut Runtime, reaction: Reaction) -> Vec<Dispatch> {
    assert_eq!(reaction.result, Ok(()));
    let mut out = Vec::new();
    for op in reaction.ops {
        out.extend(rt.perform(op));
    }
    out
}

fn ctl(rt: &Runtime, source: ServiceId, request: Request) -> Reaction {
    assert!(rt.admits_ctl(source, &request));
    rt.handle(ServiceBus::Ctl, source, request, clock())
}

fn msg(rt: &Runtime, m: Msg) -> Reaction {
    let request = Request::Protocol(m);
    assert!(rt.admits_msg(rt.peer_service, &request));
    rt.handle(ServiceBus::Msg, rt.peer_service, request, clock())
}

fn refusal(reaction: Reaction) -> Error {
    assert!(reaction.ops.is_empty());
    reaction.result.unwrap_err()
}

fn to_btc(task: Task) -> Dispatch {
    Dispatch::Send(ServiceBus::Ctl, btc_syncer(), Request::SyncerTask(task))
}

fn to_xmr(task: Task) -> Dispatch {
    Dispatch::Send(ServiceBus::Ctl, xmr_syncer(), Request::SyncerTask(task))
}

fn watch_btc(id: u32, txid: Txid) -> Dispatch {
    to_btc(Task::WatchTransaction {
        id: TaskId(id),
        lifetime: u64::MAX,
        hash: TxHash::Bitcoin(txid),
        confirmation_bound: 50000,
    })
}

fn confs(id: u32, c: u32) -> Request {
    Request::SyncerEvent(SyncEvent::TransactionConfirmations(TransactionConfirmations {
        id: TaskId(id),
        confirmations: Some(c),
    }))
}

fn abort_every() -> Task {
    Task::Abort { task_target: TaskTarget::AllTasks, respond: false }
}

fn to_peer(msg: Msg) -> Dispatch {
    Dispatch::Peer(ServiceBus::Msg, peer(), Request::Protocol(msg))
}

fn to_node(request: Request) -> Dispatch {
    Dispatch::Send(ServiceBus::Ctl, ServiceId::Farcasterd, request)
}

fn to_wallet(request: Request) -> Dispatch {
    Dispatch::Send(ServiceBus::Ctl, ServiceId::Wallet, request)
}

fn name(role: SwapRole, stage: Stage) -> StateName {
    StateName { role, stage }
}

fn transition(from: StateName, to: StateName) -> Dispatch {
    Dispatch::Send(
        ServiceBus::Ctl,
        client(),
        Request::Progress(Notice::StateTransition(from, to)),
    )
}

#[test]
fn thresholds_follow_the_offer() {
    let rt = alice();
    assert_eq!(
        rt.temporal_safety,
        TemporalSafety {
            cancel_timelock: 10,
            punish_timelock: 30,
            btc_finality_thr: 1,
            race_thr: 3,
            xmr_finality_thr: 1,
            sweep_monero_thr: 10,
        }
    );
    assert_eq!(rt.identity(), ServiceId::Swap(swap_id()));
    assert_eq!(rt.swap_id(), swap_id());
    assert_eq!(get_swap_id(&rt.identity()), Ok(swap_id()));
    assert_eq!(get_swap_id(&ServiceId::Wallet), Err(Error::NotSwapd));
}

#[test]
fn unsafe_timelocks_are_refused() {
    for (cancel, punish) in [(3, 30), (10, 10), (10, 9), (2, 1)] {
        let mut o = offer(SwapRole::Bob);
        o.offer.cancel_timelock = cancel;
        o.offer.punish_timelock = punish;
        assert_eq!(
            run(swap_id(), o, TradeRole::Maker).err(),
            Some(Error::UnsafeTimelocks)
        );
    }
    let mut o = offer(SwapRole::Bob);
    o.offer.cancel_timelock = 4;
    o.offer.punish_timelock = 5;
    assert!(run(swap_id(), o, TradeRole::Maker).is_ok());
}

#[test]
fn no_depth_allows_a_race() {
    let t = alice().temporal_safety;
    for c in 0..40 {
        assert!(!(t.safe_buy(c) && t.valid_cancel(c)));
        assert!(!(t.safe_refund(c) && t.valid_punish(c)));
        assert_eq!(t.safe_buy(c), (1..=7).contains(&c));
        assert_eq!(t.stop_funding_before_cancel(c), c > 7);
        assert_eq!(t.valid_cancel(c), c >= 10);
        assert_eq!(t.safe_refund(c), (1..=27).contains(&c));
        assert_eq!(t.valid_punish(c), c >= 30);
        assert_eq!(t.final_tx(c, Blockchain::Monero), c >= 1);
    }
}

#[test]
fn first_states_follow_the_roles() {
    assert_eq!(alice().state.name(), name(SwapRole::Alice, Stage::Start));
    assert_eq!(bob().state.name(), name(SwapRole::Bob, Stage::Start));
    let maker = run(swap_id(), offer(SwapRole::Bob), TradeRole::Maker).ok().unwrap();
    assert_eq!(maker.state.swap_role(), SwapRole::Bob);
    assert_eq!(maker.state.trade_role(), Some(TradeRole::Maker));
}

#[test]
fn tasks_are_numbered_and_kept_apart() {
    let mut rt = alice();
    assert_eq!(
        rt.perform(Op::WatchFee),
        Some(to_btc(Task::WatchEstimateFee { id: TaskId(1), lifetime: u64::MAX }))
    );
    assert_eq!(
        rt.perform(Op::WatchHeight(Blockchain::Monero)),
        Some(to_xmr(Task::WatchHeight { id: TaskId(2), lifetime: u64::MAX }))
    );
    rt.perform(Op::NoteHeight(Blockchain::Bitcoin, 700));
    rt.perform(Op::NoteHeight(Blockchain::Bitcoin, 600));
    rt.perform(Op::NoteHeight(Blockchain::Monero, 10));
    assert_eq!(
        rt.perform(Op::EnsureBtcAddr(TxLabel::Funding, address())),
        Some(to_btc(Task::WatchAddress {
            id: TaskId(3),
            lifetime: 50700,
            addendum: AddressAddendum::Bitcoin {
                script_pubkey: address().script_pubkey(),
                from_height: 694,
            },
            with_tx: true,
        }))
    );
    assert_eq!(rt.perform(Op::EnsureBtcAddr(TxLabel::Funding, address())), None);
    assert_eq!(
        rt.perform(Op::EnsureXmrAddr(TxLabel::AccLock, [1; 32], [2; 32], None)),
        Some(to_xmr(Task::WatchAddress {
            id: TaskId(4),
            lifetime: 50010,
            addendum: AddressAddendum::Monero {
                spend_key: [1; 32],
                view_key: [2; 32],
                from_height: 0,
            },
            with_tx: false,
        }))
    );
    assert!(rt.perform(Op::EnsureBtcTx(TxLabel::Lock, Txid([1; 32]))).is_some());
    assert_eq!(rt.perform(Op::EnsureBtcTx(TxLabel::Lock, Txid([1; 32]))), None);
    assert_eq!(rt.syncer_state.tasks.txids.get(&TxLabel::Lock), None);
    assert!(rt.perform(Op::EnsureBtcTxid(TxLabel::Buy, Txid([2; 32]))).is_some());
    assert_eq!(rt.syncer_state.tasks.txids.get(&TxLabel::Buy), Some(&Txid([2; 32])));
    assert_eq!(rt.syncer_state.tasks.counter, 6);
    rt.perform(Op::NoteConfs(TaskId(5), Some(0), 1));
    assert_eq!(rt.syncer_state.get_confs(TxLabel::Lock), Some(0));
    assert_eq!(rt.syncer_state.tasks.final_txs.get(&TxLabel::Lock), None);
    rt.perform(Op::NoteConfs(TaskId(5), Some(1), 1));
    assert_eq!(rt.syncer_state.tasks.final_txs.get(&TxLabel::Lock), Some(&true));
    rt.perform(Op::NoteConfs(TaskId(99), Some(1), 1));
    assert_eq!(rt.syncer_state.get_confs(TxLabel::Cancel), None);
}

#[test]
fn remembered_transaction_is_retrieved_once() {
    let mut rt = bob();
    rt.perform(Op::RememberTxid(TxLabel::Buy, Txid([2; 32])));
    assert_eq!(
        rt.perform(Op::RetrieveTx(TxLabel::Buy)),
        Some(to_btc(Task::GetTx { id: TaskId(1), hash: TxHash::Bitcoin(Txid([2; 32])) }))
    );
    assert_eq!(rt.perform(Op::RetrieveTx(TxLabel::Buy)), None);
    assert_eq!(
        rt.perform(Op::Broadcast(tx(9))),
        Some(to_btc(Task::BroadcastTransaction { id: TaskId(2), tx: tx(9).raw() }))
    );
}

#[test]
fn strangers_are_refused_on_the_control_bus() {
    let rt = bob();
    for source in [
        ServiceId::Loopback,
        ServiceId::Database,
        client(),
        peer(),
        ServiceId::Swap(swap_id()),
        ServiceId::Syncer(Blockchain::Bitcoin, Network::Mainnet),
    ] {
        assert_eq!(refusal(ctl(&rt, source, Request::Terminate)), Error::Permission);
    }
    let info = ctl(&rt, ServiceId::Loopback, Request::GetInfo);
    assert_eq!(refusal(info), Error::Permission);
    let hello = ctl(&rt, ServiceId::Loopback, Request::Hello);
    assert_eq!(refusal(hello), Error::NotSupported(ServiceBus::Ctl, RequestType::Hello));
}

#[test]
fn clients_get_information() {
    let mut rt = bob();
    rt.maker_peer = Some(node());
    let reaction = ctl(&rt, client(), Request::GetInfo);
    match &follow(&mut rt, reaction)[..] {
        [Dispatch::Send(ServiceBus::Ctl, dest, Request::SwapInfo(info))] => {
            assert_eq!(*dest, client());
            assert_eq!(info.swap_id, Some(swap_id()));
            assert_eq!(info.maker_peer, Some(node()));
            assert_eq!((info.uptime, info.since), (12, 1000));
            assert_eq!(info.local_keys, Keyset {});
            assert_eq!(info.remote_keys, Some((node(), Keyset {})));
        }
        other => panic!("{:?}", other),
    }
    rt.swap_id = SwapId([0; 32]);
    let reaction = ctl(&rt, client(), Request::GetInfo);
    match &follow(&mut rt, reaction)[..] {
        [Dispatch::Send(_, _, Request::SwapInfo(info))] => assert_eq!(info.swap_id, None),
        other => panic!("{:?}", other),
    }
}

#[test]
fn only_the_node_daemon_terminates() {
    let mut rt = bob();
    let reaction = ctl(&rt, ServiceId::Farcasterd, Request::Terminate);
    assert_eq!(follow(&mut rt, reaction), vec![Dispatch::Exit]);
    let reaction = ctl(&rt, ServiceId::Wallet, Request::Terminate);
    assert_eq!(refusal(reaction), Error::NotSupported(ServiceBus::Ctl, RequestType::Terminate));
}

#[test]
fn bridge_is_not_supported() {
    let reaction = bob().handle(ServiceBus::Bridge, peer(), Request::Hello, clock());
    assert_eq!(refusal(reaction), Error::NotSupported(ServiceBus::Bridge, RequestType::Hello));
}

#[test]
fn foreign_messages_are_refused() {
    let mut rt = alice();
    rt.peer_service = peer();
    let stranger = ServiceId::Peer(2, node());
    let request = Request::Protocol(Msg::CoreArbitratingSetup(setup()));
    assert!(rt.admits_msg(stranger, &request));
    let reaction = rt.handle(ServiceBus::Msg, stranger, request, clock());
    assert_eq!(refusal(reaction), Error::IncorrectPeer(peer(), stranger));
    let mut other = sealed();
    other.swap_id = SwapId([8; 32]);
    assert_eq!(
        refusal(msg(&rt, Msg::RefundProcedureSignatures(other))),
        Error::IncorrectSwapId(swap_id(), SwapId([8; 32]))
    );
    assert_eq!(refusal(msg(&rt, Msg::Abort(sealed()))), Error::AbortNotSupported);
    let reaction = rt.handle(ServiceBus::Msg, peer(), Request::Terminate, clock());
    assert_eq!(refusal(reaction), Error::NotSupported(ServiceBus::Msg, RequestType::Terminate));
    assert!(!rt.admits_msg(peer(), &Request::Protocol(Msg::Ping)));
    let commit = TakerCommit {
        commit: bob_commit(),
        public_offer: "Offer:some".to_string(),
        swap_id: swap_id(),
    };
    assert!(!rt.admits_msg(peer(), &Request::Protocol(Msg::TakerCommit(commit))));
}

fn take_swap(funding_address: Option<BitcoinAddress>) -> InitSwap {
    InitSwap {
        peerd: peer(),
        report_to: Some(client()),
        local_params: bob_params(),
        swap_id: swap_id(),
        remote_commit: None,
        funding_address,
    }
}

fn make_swap() -> InitSwap {
    InitSwap {
        peerd: peer(),
        report_to: Some(client()),
        local_params: alice_params(),
        swap_id: swap_id(),
        remote_commit: Some(bob_commit()),
        funding_address: None,
    }
}

#[test]
fn taker_begins() {
    let mut rt = bob();
    let init = Request::TakeSwap(take_swap(Some(address())));
    let reaction = ctl(&rt, ServiceId::Farcasterd, init);
    assert_eq!(
        follow(&mut rt, reaction),
        vec![
            Dispatch::TrySend(
                ServiceBus::Ctl,
                client(),
                Request::Progress(Notice::ProposingToTake(swap_id()))
            ),
            to_peer(Msg::TakerCommit(TakerCommit {
                commit: bob_commit(),
                public_offer: "Offer:some".to_string(),
                swap_id: swap_id(),
            })),
            transition(
                name(SwapRole::Bob, Stage::Start),
                name(SwapRole::Bob, Stage::Commit)
            ),
        ]
    );
    assert_eq!(rt.peer_service, peer());
    assert_eq!(rt.enquirer, Some(client()));
    assert_eq!(rt.maker_peer, Some(node()));
    assert!(rt.state.commit());
    assert_eq!(rt.state.b_address(), Some(&address()));
    assert_eq!(rt.state.local_params(), Some(&bob_params()));
    assert_eq!(rt.state.remote_commit(), None);
    // a second time it is out of place
    let again = Request::TakeSwap(take_swap(Some(address())));
    let reaction = ctl(&rt, ServiceId::Farcasterd, again);
    assert_eq!(refusal(reaction), Error::NotSupported(ServiceBus::Ctl, RequestType::TakeSwap));
}

#[test]
fn both_sides_commit_and_report() {
    let rt = alice();
    let (op, commit) = rt.taker_commit(Some(client()), &alice_params());
    assert_eq!(op, Op::TryReport(Some(client()), Notice::ProposingToTake(swap_id())));
    assert_eq!(commit, Some(alice_commit()));
    let (op, commit) = rt.maker_commit(peer(), swap_id(), None, &bob_params());
    assert_eq!(op, Op::TryReport(None, Notice::AcceptingSwap(swap_id(), peer())));
    assert_eq!(commit, Some(bob_commit()));
    let (_, commit) = rt.taker_commit(None, &Params::Alice(Blob::new(vec![1, 2])));
    assert_eq!(commit, None);
}

#[test]
fn taker_of_another_swap_or_without_address() {
    let rt = bob();
    let mut other = take_swap(Some(address()));
    other.swap_id = SwapId([9; 32]);
    let reaction = ctl(&rt, ServiceId::Farcasterd, Request::TakeSwap(other));
    assert_eq!(reaction, Reaction { ops: vec![], result: Ok(()) });
    assert!(!rt.admits_ctl(ServiceId::Farcasterd, &Request::TakeSwap(take_swap(None))));
    // where the swap does not begin, the address is not asked for
    let mut other = take_swap(None);
    other.swap_id = SwapId([9; 32]);
    let reaction = ctl(&rt, ServiceId::Farcasterd, Request::TakeSwap(other));
    assert_eq!(reaction, Reaction { ops: vec![], result: Ok(()) });
    let mut answered = take_swap(None);
    answered.remote_commit = Some(alice_commit());
    let reaction = ctl(&rt, ServiceId::Farcasterd, Request::TakeSwap(answered));
    assert_eq!(refusal(reaction), Error::NotSupported(ServiceBus::Ctl, RequestType::TakeSwap));
    let reaction = ctl(&rt, ServiceId::Farcasterd, Request::MakeSwap(take_swap(None)));
    assert_eq!(refusal(reaction), Error::NotSupported(ServiceBus::Ctl, RequestType::MakeSwap));
}

#[test]
fn taker_without_valid_parameters() {
    let rt = bob();
    let mut init = take_swap(Some(address()));
    init.local_params = Params::Bob(Blob::new(vec![1, 2]));
    let reaction = ctl(&rt, ServiceId::Farcasterd, Request::TakeSwap(init));
    assert_eq!(reaction.result, Err(Error::MalformedParameters));
    assert!(matches!(reaction.ops.last(), Some(Op::ReportFailure(Some(_), _))));
}

#[test]
fn maker_begins() {
    let mut rt = alice();
    let reaction = ctl(&rt, ServiceId::Farcasterd, Request::MakeSwap(make_swap()));
    assert_eq!(
        follow(&mut rt, reaction),
        vec![
            Dispatch::TrySend(
                ServiceBus::Ctl,
                client(),
                Request::Progress(Notice::AcceptingSwap(swap_id(), peer()))
            ),
            to_peer(Msg::MakerCommit(alice_commit())),
            transition(
                name(SwapRole::Alice, Stage::Start),
                name(SwapRole::Alice, Stage::Commit)
            ),
        ]
    );
    assert_eq!(rt.state.remote_commit(), Some(&bob_commit()));
    let mut init = make_swap();
    init.local_params = Params::Alice(Blob::new(vec![]));
    let reaction = ctl(&alice(), ServiceId::Farcasterd, Request::MakeSwap(init));
    assert_eq!(reaction.result, Err(Error::MalformedParameters));
    let mut init = make_swap();
    init.remote_commit = None;
    let reaction = ctl(&alice(), ServiceId::Farcasterd, Request::MakeSwap(init));
    assert_eq!(refusal(reaction), Error::NotSupported(ServiceBus::Ctl, RequestType::MakeSwap));
}

fn exchange(role: TradeRole, local: Params, remote: Option<Commit>) -> Exchange {
    Exchange {
        local_trade_role: role,
        local_commit: commit_to(swap_id(), &local).unwrap(),
        local_params: local,
        remote_commit: remote,
        remote_params: None,
    }
}

/// Bob as taker, who has committed.
fn committed_bob() -> Runtime {
    let mut rt = bob();
    rt.peer_service = peer();
    rt.enquirer = Some(client());
    rt.state = State::Bob(BobState::CommitB(
        exchange(TradeRole::Taker, bob_params(), None),
        address(),
    ));
    rt
}

#[test]
fn taker_and_maker_exchange_parameters() {
    // the maker's commitment
    let mut rt = committed_bob();
    let reaction = msg(&rt, Msg::MakerCommit(alice_commit()));
    let out = follow(&mut rt, reaction);
    assert_eq!(out.len(), 4);
    assert!(matches!(
        &out[0],
        Dispatch::Send(_, _, Request::SyncerTask(Task::WatchAddress { id: TaskId(1), .. }))
    ));
    assert!(matches!(&out[1], Dispatch::Send(_, s, _) if *s == btc_syncer()));
    assert!(matches!(&out[2], Dispatch::Send(_, s, _) if *s == xmr_syncer()));
    assert_eq!(
        out[3],
        Dispatch::Send(
            ServiceBus::Msg,
            ServiceId::Wallet,
            Request::Protocol(Msg::MakerCommit(alice_commit()))
        )
    );
    assert_eq!(rt.state.remote_commit(), Some(&alice_commit()));
    // a second commitment changes nothing
    let reaction = msg(&rt, Msg::MakerCommit(bob_commit()));
    assert_eq!(reaction, Reaction { ops: vec![], result: Ok(()) });
    // the wallet has the proof ready
    let proof = Reveal::Proof(sealed());
    let reaction = ctl(&rt, ServiceId::Wallet, Request::Protocol(Msg::Reveal(proof.clone())));
    let own = Reveal::carry(swap_id(), &bob_params());
    assert_eq!(
        follow(&mut rt, reaction),
        vec![
            to_peer(Msg::Reveal(proof.clone())),
            to_peer(Msg::Reveal(own)),
            transition(
                name(SwapRole::Bob, Stage::Commit),
                name(SwapRole::Bob, Stage::Reveal)
            ),
        ]
    );
    // the parameters cannot come before the proof
    let params = Msg::Reveal(Reveal::carry(swap_id(), &alice_params()));
    assert!(!rt.admits_msg(peer(), &Request::Protocol(params.clone())));
    let reaction = msg(&rt, Msg::Reveal(proof));
    assert_eq!(follow(&mut rt, reaction), vec![]);
    let reaction = msg(&rt, params);
    assert_eq!(
        follow(&mut rt, reaction),
        vec![Dispatch::Send(
            ServiceBus::Ctl,
            client(),
            Request::FundingInfo(FundingInfo::Bitcoin {
                swap_id: swap_id(),
                address: address(),
                amount: 100_200,
            })
        )]
    );
    assert!(rt.syncer_state.awaiting_funding);
    assert_eq!(rt.state.remote_params(), Some(&alice_params()));
    // funded: proof and parameters go to the wallet
    let reaction = ctl(&rt, ServiceId::Wallet, Request::FundingUpdated);
    let out = follow(&mut rt, reaction);
    assert_eq!(out.len(), 2);
    for d in &out {
        assert!(matches!(d, Dispatch::Send(ServiceBus::Msg, ServiceId::Wallet, _)));
    }
    let reaction = ctl(&rt, ServiceId::Wallet, Request::FundingUpdated);
    assert_eq!(refusal(reaction), Error::NotSupported(ServiceBus::Ctl, RequestType::FundingUpdated));
    // Bob's transactions
    let ready = Request::Protocol(Msg::CoreArbitratingSetup(setup()));
    let reaction = ctl(&rt, ServiceId::Wallet, ready);
    let out = follow(&mut rt, reaction);
    assert_eq!(out[0], Dispatch::Checkpoint(Msg::CoreArbitratingSetup(setup())));
    assert_eq!(out[4], to_peer(Msg::CoreArbitratingSetup(setup())));
    assert_eq!(rt.state.name(), name(SwapRole::Bob, Stage::CoreArb));
    // his signature on the buy waits for Alice's monero
    let ready = Request::Protocol(Msg::BuyProcedureSignature(buy_signature()));
    let reaction = ctl(&rt, ServiceId::Wallet, ready.clone());
    let out = follow(&mut rt, reaction);
    assert_eq!(out.len(), 2);
    assert_eq!(rt.syncer_state.tasks.txids.get(&TxLabel::Buy), Some(&psbt(4).txid()));
    let reaction = ctl(&rt, ServiceId::Wallet, ready);
    assert_eq!(refusal(reaction), Error::NotSupported(ServiceBus::Ctl, RequestType::Protocol));
    // his lock is published and the shared address is watched
    let reaction = ctl(&rt, ServiceId::Wallet, Request::Tx(Tx::Lock(tx(1))));
    let out = follow(&mut rt, reaction);
    assert_eq!(out.len(), 2);
    match &out[1] {
        Dispatch::Send(_, _, Request::SyncerTask(Task::WatchAddress { addendum, .. })) => {
            assert_eq!(
                *addendum,
                AddressAddendum::Monero {
                    spend_key: point(30).to_bytes(),
                    view_key: scalar(33).to_bytes(),
                    from_height: 0,
                }
            );
        }
        other => panic!("{:?}", other),
    }
    // Alice's monero come in and become final
    let acc_lock = *rt
        .syncer_state
        .tasks
        .watched_addrs
        .entries()
        .iter()
        .find(|e| e.1 == TxLabel::AccLock)
        .map(|e| &e.0)
        .unwrap();
    let short = AddressTransaction {
        id: acc_lock,
        hash: Blob::new(vec![9]),
        amount: 2_999,
        tx: Arc::new(vec![]),
    };
    let mut enough = short.clone();
    enough.amount = 3_000;
    let paid = Request::SyncerEvent(SyncEvent::AddressTransaction(short));
    let reaction = ctl(&rt, xmr_syncer(), paid);
    assert_eq!(follow(&mut rt, reaction), vec![]);
    let paid = Request::SyncerEvent(SyncEvent::AddressTransaction(enough));
    let reaction = ctl(&rt, xmr_syncer(), paid);
    let out = follow(&mut rt, reaction);
    assert_eq!(out.len(), 2);
    assert_eq!(
        out[1],
        to_xmr(Task::Abort { task_target: TaskTarget::TaskId(acc_lock), respond: false })
    );
    let watched = rt.syncer_state.tasks.counter;
    let reaction = ctl(&rt, xmr_syncer(), confs(watched, 0));
    assert_eq!(follow(&mut rt, reaction), vec![]);
    let reaction = ctl(&rt, xmr_syncer(), confs(watched, 1));
    assert_eq!(
        follow(&mut rt, reaction),
        vec![
            Dispatch::Send(
                ServiceBus::Msg,
                peer(),
                Request::Protocol(Msg::BuyProcedureSignature(buy_signature()))
            ),
            transition(
                name(SwapRole::Bob, Stage::CoreArb),
                name(SwapRole::Bob, Stage::BuySig)
            ),
        ]
    );
}

/// Alice as maker, who has signed.
fn signed_alice() -> Runtime {
    let mut rt = alice();
    rt.peer_service = peer();
    rt.enquirer = Some(client());
    rt.state = State::Alice(AliceState::RevealA(Exchange {
        remote_params: Some(bob_params()),
        ..exchange(TradeRole::Maker, alice_params(), Some(bob_commit()))
    }));
    let reaction = msg(&rt, Msg::CoreArbitratingSetup(setup()));
    let out = follow(&mut rt, reaction);
    assert_eq!(out[0], watch_btc(1, psbt(1).txid()));
    assert_eq!(out[1], watch_btc(2, psbt(2).txid()));
    assert_eq!(out[2], watch_btc(3, psbt(3).txid()));
    let ready = Request::Protocol(Msg::RefundProcedureSignatures(sealed()));
    let reaction = ctl(&rt, ServiceId::Wallet, ready);
    let out = follow(&mut rt, reaction);
    assert_eq!(out[0], Dispatch::Checkpoint(Msg::RefundProcedureSignatures(sealed())));
    assert_eq!(out[1], to_peer(Msg::RefundProcedureSignatures(sealed())));
    assert!(rt.state.a_refundsig());
    rt
}

/// Alice, whose monero are locked.
fn locked_alice() -> Runtime {
    let mut rt = signed_alice();
    let reaction = ctl(&rt, btc_syncer(), confs(1, 1));
    let out = follow(&mut rt, reaction);
    let lock_address =
        monero::Address::from_viewpair(
            monero::Network::Stagenet,
            &monero::ViewPair { spend: point(30), view: scalar(33) },
        );
    match &out[0] {
        Dispatch::Send(_, dest, Request::FundingInfo(FundingInfo::Monero(info))) => {
            assert_eq!(*dest, client());
            assert_eq!(info.amount, 20_000_003_000);
            assert_eq!(info.address.0.to_vec(), lock_address.as_bytes());
        }
        other => panic!("{:?}", other),
    }
    assert!(rt.syncer_state.awaiting_funding);
    let paid = Request::SyncerEvent(SyncEvent::AddressTransaction(AddressTransaction {
        id: TaskId(4),
        hash: Blob::new(vec![9]),
        amount: 20_000_003_000,
        tx: Arc::new(vec![]),
    }));
    let reaction = ctl(&rt, xmr_syncer(), paid);
    let out = follow(&mut rt, reaction);
    assert_eq!(out[0], to_node(Request::FundingCompleted(Blockchain::Monero)));
    assert!(!rt.syncer_state.awaiting_funding);
    assert!(rt.state.a_xmr_locked());
    rt
}

#[test]
fn alice_buys_while_no_cancel_can_race_her() {
    let mut rt = locked_alice();
    let reaction = msg(&rt, Msg::BuyProcedureSignature(buy_signature()));
    let out = follow(&mut rt, reaction);
    assert_eq!(out[0], Dispatch::Checkpoint(Msg::BuyProcedureSignature(buy_signature())));
    let buy_task = rt.syncer_state.tasks.counter;
    let cancel = ctl(&rt, ServiceId::Wallet, Request::Tx(Tx::Cancel(tx(2))));
    let replayed = vec![Dispatch::Replay(btc_syncer(), confs(1, 1))];
    assert_eq!(follow(&mut rt, cancel), replayed);
    let buy = ctl(&rt, ServiceId::Wallet, Request::Tx(Tx::Buy(tx(4))));
    assert_eq!(follow(&mut rt, buy), replayed);
    let reaction = ctl(&rt, btc_syncer(), confs(1, 7));
    match &follow(&mut rt, reaction)[..] {
        [Dispatch::Send(_, _, Request::SyncerTask(Task::BroadcastTransaction { tx: t, .. }))] => {
            assert_eq!(*t, tx(4).raw());
        }
        other => panic!("{:?}", other),
    }
    assert!(rt.state.a_buy_published());
    let reaction = ctl(&rt, btc_syncer(), confs(buy_task, 1));
    assert_eq!(
        follow(&mut rt, reaction),
        vec![
            transition(
                name(SwapRole::Alice, Stage::RefundSig),
                name(SwapRole::Alice, Stage::Finish(Outcome::SuccessSwap))
            ),
            to_xmr(abort_every()),
            to_btc(abort_every()),
            to_wallet(Request::SwapOutcome(Outcome::SuccessSwap)),
            to_node(Request::SwapOutcome(Outcome::SuccessSwap)),
        ]
    );
    // nothing is left to challenge the finish with
    assert!(!rt.txs.contains_key(&TxLabel::Cancel));
    assert!(!rt.txs.contains_key(&TxLabel::Punish));
}

#[test]
fn alice_cancels_an_old_lock_and_punishes() {
    let mut rt = locked_alice();
    for t in [Tx::Cancel(tx(2)), Tx::Buy(tx(4)), Tx::Punish(tx(5))] {
        let reaction = ctl(&rt, ServiceId::Wallet, Request::Tx(t));
        follow(&mut rt, reaction);
    }
    // too late to buy, too early to cancel
    let reaction = ctl(&rt, btc_syncer(), confs(1, 8));
    assert_eq!(follow(&mut rt, reaction), vec![]);
    let reaction = ctl(&rt, btc_syncer(), confs(1, 10));
    match &follow(&mut rt, reaction)[..] {
        [Dispatch::Send(_, _, Request::SyncerTask(Task::BroadcastTransaction { tx: t, .. }))] => {
            assert_eq!(*t, tx(2).raw());
        }
        other => panic!("{:?}", other),
    }
    let reaction = ctl(&rt, btc_syncer(), confs(2, 29));
    assert_eq!(follow(&mut rt, reaction), vec![]);
    assert!(rt.state.cancel_seen());
    let reaction = ctl(&rt, btc_syncer(), confs(2, 30));
    let out = follow(&mut rt, reaction);
    assert_eq!(out.len(), 2);
    let punish = rt.syncer_state.tasks.counter - 1;
    let reaction = ctl(&rt, btc_syncer(), confs(punish, 1));
    follow(&mut rt, reaction);
    assert_eq!(
        rt.state,
        State::Alice(AliceState::FinishA(Outcome::FailurePunish))
    );
    assert!(rt.txs.entries().is_empty());
}

#[test]
fn alice_without_locked_monero_ends_with_the_cancel() {
    let mut rt = signed_alice();
    rt.syncer_state.awaiting_funding = true;
    let reaction = ctl(&rt, btc_syncer(), confs(2, 1));
    let out = follow(&mut rt, reaction);
    assert_eq!(out[0], to_node(Request::FundingCanceled(Blockchain::Monero)));
    assert_eq!(rt.state, State::Alice(AliceState::FinishA(Outcome::FailureRefund)));
    assert!(!rt.syncer_state.awaiting_funding);
}

#[test]
fn funding_stops_before_the_cancel() {
    let mut rt = signed_alice();
    let reaction = ctl(&rt, btc_syncer(), confs(1, 1));
    follow(&mut rt, reaction);
    let reaction = ctl(&rt, btc_syncer(), confs(1, 8));
    assert_eq!(
        follow(&mut rt, reaction),
        vec![to_node(Request::FundingCanceled(Blockchain::Monero))]
    );
}

#[test]
fn bob_is_refunded() {
    let mut rt = committed_bob();
    rt.state = State::Bob(BobState::CorearbB {
        local_params: bob_params(),
        remote_params: alice_params(),
        cancel_seen: false,
    });
    for (label, n) in [(TxLabel::Lock, 1), (TxLabel::Cancel, 2), (TxLabel::Refund, 3)] {
        rt.perform(Op::EnsureBtcTx(label, psbt(n).txid()));
    }
    rt.perform(Op::KeepTx(TxLabel::Refund, tx(3)));
    let reaction = ctl(&rt, btc_syncer(), confs(2, 27));
    match &follow(&mut rt, reaction)[..] {
        [Dispatch::Send(_, _, Request::SyncerTask(Task::BroadcastTransaction { tx: t, .. }))] => {
            assert_eq!(*t, tx(3).raw());
        }
        other => panic!("{:?}", other),
    }
    let reaction = ctl(&rt, btc_syncer(), confs(2, 28));
    assert_eq!(follow(&mut rt, reaction), vec![]);
    let reaction = ctl(&rt, btc_syncer(), confs(3, 1));
    let out = follow(&mut rt, reaction);
    assert_eq!(out[0], to_xmr(abort_every()));
    assert_eq!(out[1], to_btc(abort_every()));
    assert_eq!(rt.state, State::Bob(BobState::FinishB(Outcome::FailureRefund)));
    assert!(rt.txs.entries().is_empty());
}

fn sweep_keys() -> SweepMoneroAddress {
    SweepMoneroAddress {
        source_spend_key: [1; 32],
        source_view_key: [2; 32],
        destination_address: "somewhere".to_string(),
        minimum_balance: 3_000,
    }
}

#[test]
fn bob_buys_and_sweeps() {
    let mut rt = committed_bob();
    rt.state = State::Bob(BobState::BuySigB { buy_tx_seen: false });
    rt.perform(Op::EnsureBtcTx(TxLabel::Buy, psbt(4).txid()));
    rt.perform(Op::RememberTxid(TxLabel::Buy, psbt(4).txid()));
    let reaction = ctl(&rt, btc_syncer(), confs(1, 1));
    assert_eq!(
        follow(&mut rt, reaction),
        vec![to_btc(Task::GetTx { id: TaskId(2), hash: TxHash::Bitcoin(psbt(4).txid()) })]
    );
    let missing = SyncEvent::TransactionRetrieved { id: TaskId(2), tx: None };
    let reaction = ctl(&rt, btc_syncer(), Request::SyncerEvent(missing));
    assert_eq!(
        follow(&mut rt, reaction),
        vec![
            Dispatch::Pause,
            to_btc(Task::GetTx { id: TaskId(2), hash: TxHash::Bitcoin(psbt(4).txid()) }),
        ]
    );
    let found = SyncEvent::TransactionRetrieved { id: TaskId(2), tx: Some(tx(4)) };
    let reaction = ctl(&rt, btc_syncer(), Request::SyncerEvent(found));
    assert_eq!(follow(&mut rt, reaction), vec![to_wallet(Request::Tx(Tx::Buy(tx(4))))]);
    // the sweep waits until the monero are deep enough
    let reaction = ctl(&rt, ServiceId::Wallet, Request::SweepXmrAddress(sweep_keys()));
    assert_eq!(follow(&mut rt, reaction), vec![]);
    rt.perform(Op::NoteHeight(Blockchain::Monero, 500));
    let reaction = ctl(&rt, xmr_syncer(), confs(9, 9));
    assert_eq!(follow(&mut rt, reaction), vec![]);
    let reaction = ctl(&rt, xmr_syncer(), confs(9, 10));
    match &follow(&mut rt, reaction)[..] {
        [Dispatch::Send(_, dest, Request::SyncerTask(Task::SweepAddress(sweep)))] => {
            assert_eq!(*dest, xmr_syncer());
            assert_eq!(sweep.id, TaskId(3));
            assert_eq!(sweep.from_height, Some(490));
            assert_eq!(sweep.addendum, SweepAddressAddendum::Monero(sweep_keys()));
        }
        other => panic!("{:?}", other),
    }
    let other = Request::SyncerEvent(SyncEvent::SweepSuccess { id: TaskId(9) });
    let reaction = ctl(&rt, xmr_syncer(), other);
    assert_eq!(follow(&mut rt, reaction), vec![]);
    let done = Request::SyncerEvent(SyncEvent::SweepSuccess { id: TaskId(3) });
    let reaction = ctl(&rt, xmr_syncer(), done);
    let out = follow(&mut rt, reaction);
    assert_eq!(out[out.len() - 1], to_node(Request::SwapOutcome(Outcome::SuccessSwap)));
    assert_eq!(rt.state, State::Bob(BobState::FinishB(Outcome::SuccessSwap)));
}

#[test]
fn sweep_from_below_the_first_block_cannot_come() {
    let mut rt = committed_bob();
    rt.state = State::Bob(BobState::BuySigB { buy_tx_seen: false });
    let reaction = ctl(&rt, ServiceId::Wallet, Request::SweepXmrAddress(sweep_keys()));
    follow(&mut rt, reaction);
    assert!(!rt.admits_ctl(xmr_syncer(), &confs(9, 10)));
    assert!(rt.admits_ctl(xmr_syncer(), &confs(9, 9)));
}

#[test]
fn bob_takes_his_funding_in() {
    let mut rt = committed_bob();
    rt.perform(Op::EnsureBtcAddr(TxLabel::Funding, address()));
    rt.perform(Op::AwaitFunding(true));
    let raw = tx(8).raw().bytes().clone();
    let parts = vec![Blob::new(raw[..20].to_vec()), Blob::new(raw[20..].to_vec())];
    let payment = |tx: Vec<Blob>| {
        Request::SyncerEvent(SyncEvent::AddressTransaction(AddressTransaction {
            id: TaskId(1),
            hash: Blob::new(vec![]),
            amount: 100_200,
            tx: Arc::new(tx),
        }))
    };
    let reaction = ctl(&rt, btc_syncer(), payment(vec![Blob::new(vec![1])]));
    assert_eq!(refusal(reaction), Error::MalformedTransaction);
    let reaction = ctl(&rt, btc_syncer(), payment(parts.clone()));
    assert_eq!(
        follow(&mut rt, reaction),
        vec![
            to_node(Request::FundingCompleted(Blockchain::Bitcoin)),
            to_wallet(Request::Tx(Tx::Funding(tx(8)))),
        ]
    );
    let reaction = ctl(&rt, btc_syncer(), payment(parts));
    assert_eq!(follow(&mut rt, reaction), vec![]);
}

#[test]
fn transactions_out_of_turn_cannot_come() {
    let rt = committed_bob();
    assert!(!rt.admits_ctl(ServiceId::Wallet, &Request::Tx(Tx::Funding(tx(1)))));
    assert!(!rt.admits_ctl(ServiceId::Wallet, &Request::Tx(Tx::Lock(tx(1)))));
}

#[test]
fn unreachable_peer_gets_its_messages_later() {
    let mut rt = committed_bob();
    assert_eq!(rt.peer_unreachable(), to_node(Request::PeerdUnreachable(peer())));
    rt.keep_for_peer(Msg::MakerCommit(alice_commit()));
    rt.keep_for_peer(Msg::Abort(sealed()));
    let reaction = ctl(&rt, ServiceId::Farcasterd, Request::PeerdReconnected);
    assert_eq!(
        follow(&mut rt, reaction),
        vec![
            to_peer(Msg::MakerCommit(alice_commit())),
            to_peer(Msg::Abort(sealed())),
        ]
    );
    assert!(rt.pending_peer_request.is_empty());
}

/// Sends what waits for the peer; only the messages at some places get through.
fn reconnect(rt: &mut Runtime, delivered: &[bool], told: Result<(), Error>) -> Result<(), Error> {
    let reaction = ctl(rt, ServiceId::Farcasterd, Request::PeerdReconnected);
    let mut luck = delivered.iter();
    for op in reaction.ops {
        if let Some(Dispatch::Peer(bus, dest, request)) = rt.perform(op) {
            assert_eq!((bus, dest), (ServiceBus::Msg, peer()));
            let sent = *luck.next().unwrap();
            match rt.peer_sent(sent) {
                Some(d) => {
                    assert!(!sent);
                    assert_eq!(d, to_node(Request::PeerdUnreachable(peer())));
                    rt.peer_told(request, told)?;
                }
                None => assert!(sent),
            }
        }
    }
    reaction.result
}

#[test]
fn messages_that_fail_again_wait_again() {
    let msgs = vec![
        Msg::MakerCommit(alice_commit()),
        Msg::Abort(sealed()),
        Msg::CoreArbitratingSetup(setup()),
    ];
    let mut rt = committed_bob();
    for m in &msgs {
        rt.keep_for_peer(m.clone());
    }
    // nothing gets through
    assert_eq!(reconnect(&mut rt, &[false, false, false], Ok(())), Ok(()));
    assert_eq!(rt.pending_peer_request, msgs);
    // if not even the node daemon can be told, everything still waits
    let failure = reconnect(&mut rt, &[false, false, false], Err(Error::External));
    assert_eq!(failure, Err(Error::External));
    assert_eq!(rt.pending_peer_request, msgs);
    // the second gets through
    assert_eq!(reconnect(&mut rt, &[false, true, false], Ok(())), Ok(()));
    assert_eq!(rt.pending_peer_request, vec![msgs[0].clone(), msgs[2].clone()]);
    // all get through
    assert_eq!(reconnect(&mut rt, &[true, true], Ok(())), Ok(()));
    assert!(rt.pending_peer_request.is_empty());
}

#[test]
fn checkpoint_restores_a_swap() {
    let mut before = signed_alice();
    before.perform(Op::KeepTx(TxLabel::Cancel, tx(2)));
    before.perform(Op::RememberTxid(TxLabel::Buy, Txid([4; 32])));
    before.perform(Op::DeferAlso(
        xmr_syncer(),
        PendingRequest {
            dest: peer(),
            bus_id: ServiceBus::Msg,
            request: Request::Protocol(Msg::Abort(sealed())),
        },
    ));
    let snapshot = before.snapshot(Msg::RefundProcedureSignatures(sealed()));
    let checkpoint = Arc::new(Checkpoint {
        swap_id: swap_id(),
        state: CheckpointState::CheckpointSwapd(snapshot),
    });
    let mut rt = alice();
    let reaction = ctl(&rt, ServiceId::Checkpoint, Request::Checkpoint(checkpoint));
    let out = follow(&mut rt, reaction);
    assert_eq!(rt.state, before.state);
    assert_eq!(rt.enquirer, before.enquirer);
    assert_eq!(rt.temporal_safety, before.temporal_safety);
    assert_eq!(rt.txs, before.txs);
    assert_eq!(rt.pending_requests, before.pending_requests);
    // heights, the kept transaction and the two remembered ones are watched
    assert_eq!(out.len(), 7);
    assert_eq!(out[2], watch_btc(3, tx(2).txid()));
    assert_eq!(
        out[5],
        Dispatch::TrySend(
            ServiceBus::Ctl,
            ServiceId::Farcasterd,
            Request::Progress(Notice::RestoredAt(name(SwapRole::Alice, Stage::RefundSig)))
        )
    );
    assert_eq!(
        out[6],
        Dispatch::Replay(
            ServiceId::Database,
            Request::Protocol(Msg::RefundProcedureSignatures(sealed()))
        )
    );
    // a wallet's checkpoint is passed over
    let other = Arc::new(Checkpoint {
        swap_id: swap_id(),
        state: CheckpointState::CheckpointWallet(Blob::new(vec![])),
    });
    let reaction = ctl(&rt, ServiceId::Checkpoint, Request::Checkpoint(other));
    assert_eq!(follow(&mut rt, reaction), vec![]);
}

#[test]
fn checkpoint_in_parts_is_collected() {
    let bytes: Vec<u8> = (0..130_000u32).map(|i| (i % 253) as u8).collect();
    let state = || CheckpointState::CheckpointWallet(Blob::new(vec![5]));
    let parts: Vec<CheckpointMultipartChunk> = checkpoint_state(swap_id(), state(), &bytes)
        .into_iter()
        .map(|letter| match letter.request {
            Request::CheckpointMultipartChunk(chunk) => chunk,
            other => panic!("{:?}", other),
        })
        .collect();
    let mut rt = bob();
    let mut last = Vec::new();
    for i in [1usize, 1, 0, 2] {
        assert_eq!(last, vec![]);
        let chunk = Request::CheckpointMultipartChunk(parts[i].clone());
        let reaction = ctl(&rt, ServiceId::Checkpoint, chunk);
        last = follow(&mut rt, reaction);
    }
    assert_eq!(
        last,
        vec![Dispatch::Decode(ServiceId::Checkpoint, swap_id(), Blob::new(bytes))]
    );
    // what was read is handled as if it had come whole
    assert_eq!(
        reread(ServiceId::Checkpoint, swap_id(), Ok(state())),
        Ok((
            ServiceBus::Ctl,
            ServiceId::Checkpoint,
            Request::Checkpoint(Arc::new(Checkpoint { swap_id: swap_id(), state: state() }))
        ))
    );
    let fault = Fault::RepeatedLabel(TxLabel::Buy);
    assert_eq!(
        reread(ServiceId::Checkpoint, swap_id(), Err(fault)),
        Err(Error::MalformedCheckpoint(fault))
    );
    // parts that do not make up what the checksum says
    let forged = CheckpointMultipartChunk {
        msgs_total: 1,
        serialized_state_chunk: Blob::new(vec![1]),
        ..parts[0].clone()
    };
    let mut rt = bob();
    let reaction = ctl(&rt, ServiceId::Checkpoint, Request::CheckpointMultipartChunk(forged));
    assert_eq!(follow(&mut rt, reaction), vec![]);
}
