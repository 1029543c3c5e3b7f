//! The automaton that runs a swap, from its start to each of its ends.
use std::str::FromStr;
use std::sync::Arc;

use farcaster_core::consensus;
use farcaster_core::crypto::{SharedKeyId, TaggedElement};
use farcaster_core::swap::btcxmr::message::{RevealAliceParameters, RevealBobParameters};

use farcaster_node::base::{
    Blockchain, Error, Network, NodeAddr, Notice, Outcome, ServiceBus, ServiceId, SwapId, SwapRole,
    TaskId, TradeRole, TxLabel,
};
use farcaster_node::blob::Blob;
use farcaster_node::chain::{BitcoinAddress, Psbt, Transaction};
use farcaster_node::crypto::{commit_to, Commit, Params, Reveal, Sealed};
use farcaster_node::message::{
    AddressTransaction, BuyProcedureSignature, CoreArbitratingSetup, Failure, FundingInfo,
    InitMakerSwap, InitTakerSwap, Msg, Request, SweepBitcoinAddress, SweepMoneroAddress, SyncEvent,
    TakerCommit, Task, TaskTarget, TransactionConfirmations,
};
use farcaster_node::offer::{Offer, PublicOffer};
use farcaster_node::swapd::runtime::{run, Dispatch, Runtime};
use farcaster_node::swapd::swap_state::{
    reply_fits, required_funding, AliceAccordantLock, AliceArbitratingLockFinal, AliceCanceled,
    AliceCoreArbitratingSetup, AliceInitMaker, AliceInitTaker, AliceReveal, AliceTakerMakerCommit,
    BobAccordantLock, BobAccordantLockFinal, BobFunded, BobInitMaker, BobRefundProcedureSignatures,
    BobReveal, End, Event, Plan, SwapStateMachine, SwapStateMachineExecutor,
};
use farcaster_node::swapd::wallet::{Wallet, WalletCall, WalletReply};

const ADDRESS: &str = "tb1qw508d6qejxtdg4y5r3zarvary0c5xw7kxpjzsx";

fn swap_id() -> SwapId {
    SwapId([7; 32])
}

fn offer() -> PublicOffer {
    PublicOffer {
        text: "Offer:some".to_string(),
        offer: Offer {
            network: Network::Testnet,
            arbitrating_amount: 100_000,
            accordant_amount: 3_000,
            cancel_timelock: 10,
            punish_timelock: 30,
            maker_role: SwapRole::Alice,
        },
    }
}

fn alice() -> Runtime {
    let mut rt = run(swap_id(), offer(), TradeRole::Maker).ok().unwrap();
    rt.peer_service = peer();
    rt.enquirer = Some(client());
    rt
}

fn bob() -> Runtime {
    let mut rt = run(swap_id(), offer(), TradeRole::Taker).ok().unwrap();
    rt.peer_service = peer();
    rt.enquirer = Some(client());
    rt
}

fn peer() -> ServiceId {
    ServiceId::Peer(1, NodeAddr { node_id: [2; 33], host: [3; 32], port: 9735 })
}

fn client() -> ServiceId {
    ServiceId::Client(4)
}

fn btc_syncer() -> ServiceId {
    ServiceId::Syncer(Blockchain::Bitcoin, Network::Testnet)
}

fn xmr_syncer() -> ServiceId {
    ServiceId::Syncer(Blockchain::Monero, Network::Testnet)
}

fn address() -> BitcoinAddress {
    BitcoinAddress::parse(&ADDRESS.to_string()).unwrap()
}

fn unsigned(n: u32) -> bitcoin::Transaction {
    bitcoin::Transaction {
        version: 2,
        lock_time: n,
        input: vec![bitcoin::TxIn::default()],
        output: vec![bitcoin::TxOut { value: 1, script_pubkey: bitcoin::Script::new() }],
    }
}

fn tx(n: u32) -> Transaction {
    Transaction::decode(&bitcoin::consensus::serialize(&unsigned(n))).unwrap()
}

fn psbt(n: u32) -> Psbt {
    let psbt = bitcoin::util::psbt::PartiallySignedTransaction::from_unsigned_tx(unsigned(n));
    Psbt::decode(&Blob::new(bitcoin::consensus::serialize(&psbt.unwrap()))).unwrap()
}

fn pubkey(n: u8) -> bitcoin::secp256k1::PublicKey {
    let secp = bitcoin::secp256k1::Secp256k1::new();
    let sk = bitcoin::secp256k1::SecretKey::from_slice(&[n; 32]).unwrap();
    bitcoin::secp256k1::PublicKey::from_secret_key(&secp, &sk)
}

fn scalar(n: u8) -> monero::PrivateKey {
    let mut bytes = [0u8; 32];
    bytes[0] = n;
    monero::PrivateKey::from_slice(&bytes).unwrap()
}

fn point(n: u8) -> monero::PublicKey {
    monero::PublicKey::from_private_key(&scalar(n))
}

fn alice_params() -> Params {
    let reveal = RevealAliceParameters {
        swap_id: swap_id().0.into(),
        buy: pubkey(1),
        cancel: pubkey(2),
        refund: pubkey(3),
        punish: pubkey(4),
        adaptor: pubkey(5),
        extra_arbitrating_keys: vec![],
        arbitrating_shared_keys: vec![],
        spend: point(10),
        extra_accordant_keys: vec![],
        accordant_shared_keys: vec![TaggedElement::new(SharedKeyId::new(1), scalar(11))],
        address: bitcoin::Address::from_str(ADDRESS).unwrap(),
    };
    Params::Alice(Blob::new(consensus::serialize(&reveal)[32..].to_vec()))
}

fn bob_params() -> Params {
    let reveal = RevealBobParameters {
        swap_id: swap_id().0.into(),
        buy: pubkey(6),
        cancel: pubkey(7),
        refund: pubkey(8),
        adaptor: pubkey(9),
        extra_arbitrating_keys: vec![],
        arbitrating_shared_keys: vec![],
        spend: point(20),
        extra_accordant_keys: vec![],
        accordant_shared_keys: vec![TaggedElement::new(SharedKeyId::new(1), scalar(22))],
        address: bitcoin::Address::from_str(ADDRESS).unwrap(),
    };
    Params::Bob(Blob::new(consensus::serialize(&reveal)[32..].to_vec()))
}

fn alice_commit() -> Commit {
    commit_to(swap_id(), &alice_params()).unwrap()
}

fn bob_commit() -> Commit {
    commit_to(swap_id(), &bob_params()).unwrap()
}

fn alice_reveal() -> Reveal {
    Reveal::carry(swap_id(), &alice_params())
}

fn bob_reveal() -> Reveal {
    Reveal::carry(swap_id(), &bob_params())
}

fn wallet(n: u8) -> Wallet {
    Wallet(Blob::new(vec![n]))
}

fn sealed() -> Sealed {
    Sealed { swap_id: swap_id(), body: Blob::new(vec![1]) }
}

fn setup() -> CoreArbitratingSetup {
    CoreArbitratingSetup {
        swap_id: swap_id(),
        lock: psbt(1),
        cancel: psbt(2),
        refund: psbt(3),
        cancel_sig: Blob::new(vec![]),
    }
}

fn buy_signature() -> BuyProcedureSignature {
    BuyProcedureSignature {
        swap_id: swap_id(),
        buy: psbt(4),
        buy_adaptor_sig: Blob::new(vec![]),
    }
}

fn monero_keys() -> SweepMoneroAddress {
    SweepMoneroAddress {
        source_spend_key: [1; 32],
        source_view_key: [2; 32],
        destination_address: "somewhere".to_string(),
        minimum_balance: 3_000,
    }
}

fn bitcoin_keys() -> SweepBitcoinAddress {
    SweepBitcoinAddress {
        source_secret_key: [1; 32],
        source_address: address(),
        destination_address: address(),
    }
}

/// A runtime and the state it is in.
struct Swap {
    rt: Runtime,
    sm: Option<SwapStateMachine>,
    sent: Vec<Dispatch>,
}

impl Swap {
    fn new(rt: Runtime, sm: SwapStateMachine) -> Swap {
        Swap { rt, sm: Some(sm), sent: Vec::new() }
    }

    fn perform(&mut self, plan: Plan) -> End {
        for op in plan.ops {
            self.sent.extend(self.rt.perform(op));
        }
        plan.end
    }

    /// Reacts to a request without ending in another state.
    fn react(&mut self, source: ServiceId, request: Request) -> End {
        self.sent.clear();
        let sm = self.sm.take().unwrap();
        let plan = SwapStateMachineExecutor::execute(&self.rt, source, request, sm);
        self.perform(plan)
    }

    /// Reacts to a request by going over to a state.
    fn next(&mut self, source: ServiceId, request: Request) -> &SwapStateMachine {
        match self.react(source, request) {
            End::Next(sm) => self.sm = Some(sm),
            other => panic!("{:?}", other),
        }
        self.sm.as_ref().unwrap()
    }

    /// Reacts to a request by asking the wallet, and takes its answer.
    fn ask(&mut self, source: ServiceId, request: Request, reply: WalletReply) -> WalletCall {
        match self.react(source, request) {
            End::Ask(call, pending) => {
                assert!(reply_fits(&pending, &reply));
                let plan = SwapStateMachine::resume(pending, Ok(reply), &self.rt);
                match self.perform(plan) {
                    End::Next(sm) => self.sm = Some(sm),
                    other => panic!("{:?}", other),
                }
                call
            }
            other => panic!("{:?}", other),
        }
    }

    /// Takes note of a report of a syncer.
    fn note(&mut self, source: ServiceId, event: &SyncEvent) {
        for op in self.rt.note_news(source, event) {
            assert_eq!(self.rt.perform(op), None);
        }
    }

    fn state(&self) -> &SwapStateMachine {
        self.sm.as_ref().unwrap()
    }
}

fn confs(id: u32, c: u32) -> Request {
    Request::SyncerEvent(SyncEvent::TransactionConfirmations(TransactionConfirmations {
        id: TaskId(id),
        confirmations: Some(c),
    }))
}

fn id_of(rt: &Runtime, label: TxLabel) -> u32 {
    let txs = rt.syncer_state.tasks.watched_txs.entries();
    txs.iter().find(|e| e.1 == label).map(|e| e.0 .0).unwrap()
}

fn addr_of(rt: &Runtime, label: TxLabel) -> TaskId {
    let addrs = rt.syncer_state.tasks.watched_addrs.entries();
    addrs.iter().find(|e| e.1 == label).map(|e| e.0).unwrap()
}

fn payment(id: TaskId, amount: u64, raw: Vec<Blob>) -> Request {
    Request::SyncerEvent(SyncEvent::AddressTransaction(AddressTransaction {
        id,
        hash: Blob::new(vec![9]),
        amount,
        tx: Arc::new(raw),
    }))
}

fn published(sent: &[Dispatch]) -> Vec<Blob> {
    sent.iter()
        .filter_map(|d| match d {
            Dispatch::Send(_, _, Request::SyncerTask(Task::BroadcastTransaction { tx, .. })) => {
                Some(tx.clone())
            }
            _ => None,
        })
        .collect()
}

fn to_peer(msg: Msg) -> Dispatch {
    Dispatch::Peer(ServiceBus::Msg, peer(), Request::Protocol(msg))
}

fn to_node(request: Request) -> Dispatch {
    Dispatch::Send(ServiceBus::Ctl, ServiceId::Farcasterd, request)
}

fn task(syncer: ServiceId, task: Task) -> Dispatch {
    Dispatch::Send(ServiceBus::Ctl, syncer, Request::SyncerTask(task))
}

fn abort_every() -> Task {
    Task::Abort { task_target: TaskTarget::AllTasks, respond: false }
}

fn init_taker() -> InitTakerSwap {
    InitTakerSwap {
        peerd: peer(),
        report_to: client(),
        swap_id: swap_id(),
        key_manager: Blob::new(vec![5]),
        target_bitcoin_address: address(),
        target_monero_address: "somewhere".to_string(),
    }
}

fn init_maker() -> InitMakerSwap {
    InitMakerSwap {
        peerd: peer(),
        report_to: client(),
        swap_id: swap_id(),
        key_manager: Blob::new(vec![5]),
        target_bitcoin_address: address(),
        target_monero_address: "somewhere".to_string(),
        commit: bob_commit(),
    }
}

/// Bob as taker, up to where he is asked for funds.
fn revealed_bob() -> Swap {
    let mut swap = Swap::new(bob(), SwapStateMachine::StartTaker(SwapRole::Bob));
    let call = swap.ask(
        ServiceId::Farcasterd,
        Request::InitTakerSwap(init_taker()),
        WalletReply::Opened {
            wallet: wallet(1),
            local_params: bob_params(),
            funding_address: Some(address()),
        },
    );
    assert_eq!(
        call,
        WalletCall::NewTaker {
            public_offer: offer(),
            target_bitcoin_address: address(),
            target_monero_address: "somewhere".to_string(),
            key_manager: Blob::new(vec![5]),
            swap_id: swap_id(),
        }
    );
    assert!(swap.rt.connected);
    assert_eq!(
        swap.sent[3..],
        vec![
            Dispatch::TrySend(
                ServiceBus::Ctl,
                client(),
                Request::Progress(Notice::ProposingToTake(swap_id()))
            ),
            to_peer(Msg::TakerCommit(TakerCommit {
                commit: bob_commit(),
                public_offer: "Offer:some".to_string(),
                swap_id: swap_id(),
            })),
        ]
    );
    let call = swap.ask(
        peer(),
        Request::Protocol(Msg::MakerCommit(alice_commit())),
        WalletReply::Revealed { wallet: wallet(2), reveal_msg: bob_reveal() },
    );
    assert!(matches!(call, WalletCall::MakerCommit { .. }));
    assert_eq!(swap.sent[1], to_peer(Msg::Reveal(bob_reveal())));
    // the reveal comes before a fee is known, and waits
    swap.next(peer(), Request::Protocol(Msg::Reveal(alice_reveal())));
    assert!(matches!(
        swap.state(),
        SwapStateMachine::BobTakerMakerCommit(s) if s.deferred == Some(alice_reveal())
    ));
    let fee = SyncEvent::FeeEstimation { id: TaskId(1), sat_per_kvb: 1_001 };
    swap.note(btc_syncer(), &fee);
    swap.next(btc_syncer(), Request::SyncerEvent(fee));
    // 122 virtual bytes at a rate of 1.001 round up to 123 satoshis
    assert_eq!(
        swap.sent,
        vec![Dispatch::Send(
            ServiceBus::Ctl,
            client(),
            Request::FundingInfo(FundingInfo::Bitcoin {
                swap_id: swap_id(),
                address: address(),
                amount: 100_123,
            })
        )]
    );
    assert_eq!(
        *swap.state(),
        SwapStateMachine::BobReveal(BobReveal {
            local_params: bob_params(),
            required_funding_amount: 100_123,
            funding_address: address(),
            remote_params: alice_params(),
            wallet: wallet(2),
            alice_reveal: alice_reveal(),
        })
    );
    swap
}

/// Bob, up to where he has locked.
fn locked_bob() -> Swap {
    let mut swap = revealed_bob();
    let id = addr_of(&swap.rt, TxLabel::Funding);
    let paid = payment(id, 100_123, vec![tx(8).raw()]);
    let call = match swap.react(btc_syncer(), paid) {
        End::Ask(call, pending) => {
            let plan = SwapStateMachine::resume(
                pending,
                Ok(WalletReply::Funded { wallet: wallet(3) }),
                &swap.rt,
            );
            match swap.perform(plan) {
                End::Ask(call, pending) => {
                    let reply = WalletReply::SetUp {
                        wallet: wallet(4),
                        maker_reveal: None,
                        core_arb_setup: setup(),
                    };
                    assert!(reply_fits(&pending, &reply));
                    let plan = SwapStateMachine::resume(pending, Ok(reply), &swap.rt);
                    match swap.perform(plan) {
                        End::Next(sm) => swap.sm = Some(sm),
                        other => panic!("{:?}", other),
                    }
                    assert_eq!(
                        call,
                        WalletCall::AliceReveals {
                            wallet: wallet(3),
                            reveal_msg: alice_reveal(),
                            swap_id: swap_id(),
                        }
                    );
                }
                other => panic!("{:?}", other),
            }
            call
        }
        other => panic!("{:?}", other),
    };
    assert!(matches!(call, WalletCall::FundingTx { .. }));
    assert!(!swap.rt.syncer_state.awaiting_funding);
    assert_eq!(swap.sent[0], to_node(Request::FundingCompleted(Blockchain::Bitcoin)));
    assert_eq!(
        swap.sent[4..],
        vec![
            Dispatch::CheckpointAt(
                Some(Msg::CoreArbitratingSetup(setup())),
                SwapStateMachine::BobFunded(BobFunded {
                    local_params: bob_params(),
                    funding_address: address(),
                    remote_params: alice_params(),
                    wallet: wallet(4),
                })
            ),
            to_peer(Msg::CoreArbitratingSetup(setup())),
        ]
    );
    swap.ask(
        peer(),
        Request::Protocol(Msg::RefundProcedureSignatures(sealed())),
        WalletReply::RefundSigned {
            wallet: wallet(5),
            buy_procedure_signature: buy_signature(),
            lock_tx: tx(1),
            cancel_tx: tx(2),
            refund_tx: tx(3),
        },
    );
    assert_eq!(published(&swap.sent), vec![tx(1).raw()]);
    assert!(swap.rt.txs.contains_key(&TxLabel::Cancel));
    assert!(swap.rt.txs.contains_key(&TxLabel::Refund));
    assert!(matches!(
        swap.state(),
        SwapStateMachine::BobRefundProcedureSignatures(BobRefundProcedureSignatures { .. })
    ));
    swap
}

#[test]
fn bob_swaps() {
    let mut swap = locked_bob();
    let id = addr_of(&swap.rt, TxLabel::AccLock);
    assert_eq!(swap.react(xmr_syncer(), payment(id, 2_999, vec![])), End::Stay);
    let mut swap = locked_bob();
    swap.next(xmr_syncer(), payment(id, 3_000, vec![]));
    assert!(matches!(
        swap.state(),
        SwapStateMachine::BobAccordantLock(BobAccordantLock { .. })
    ));
    let acc_lock = id_of(&swap.rt, TxLabel::AccLock);
    swap.next(xmr_syncer(), confs(acc_lock, 1));
    assert_eq!(swap.sent, vec![to_peer(Msg::BuyProcedureSignature(buy_signature()))]);
    assert!(matches!(
        swap.state(),
        SwapStateMachine::BobAccordantLockFinal(BobAccordantLockFinal { .. })
    ));
    let buy = id_of(&swap.rt, TxLabel::Buy);
    swap.next(btc_syncer(), confs(buy, 1));
    let get = swap.rt.syncer_state.tasks.counter;
    let found = SyncEvent::TransactionRetrieved { id: TaskId(get), tx: Some(tx(4)) };
    let call = swap.ask(
        btc_syncer(),
        Request::SyncerEvent(found),
        WalletReply::SweepMonero { xmr_keys: monero_keys(), from_height: Some(5) },
    );
    assert_eq!(
        call,
        WalletCall::BuyTx {
            wallet: wallet(5),
            tx: tx(4),
            swap_id: swap_id(),
            from_height: Some(0),
        }
    );
    let sweep = match swap.state() {
        SwapStateMachine::BobBuyFinal(sweep) => sweep.clone(),
        other => panic!("{:?}", other),
    };
    assert_eq!(sweep.from_height, Some(5));
    assert!(sweep.retry);
    swap.next(xmr_syncer(), confs(acc_lock, 10));
    assert_eq!(swap.sent, vec![task(xmr_syncer(), Task::SweepAddress(sweep.clone()))]);
    assert_eq!(*swap.state(), SwapStateMachine::BobBuySweeping);
    let done = Request::SyncerEvent(SyncEvent::SweepSuccess { id: sweep.id });
    swap.next(xmr_syncer(), done);
    assert_eq!(*swap.state(), SwapStateMachine::SwapEnd(Outcome::SuccessSwap));
    assert_eq!(
        swap.sent,
        vec![task(xmr_syncer(), abort_every()), task(btc_syncer(), abort_every())]
    );
    assert!(swap.rt.txs.entries().is_empty());
    // the end is final
    swap.next(ServiceId::Farcasterd, Request::AbortSwap);
    assert_eq!(*swap.state(), SwapStateMachine::SwapEnd(Outcome::SuccessSwap));
    assert!(swap.sent.is_empty());
}

#[test]
fn bob_cancels_and_is_refunded() {
    let mut swap = locked_bob();
    let lock = id_of(&swap.rt, TxLabel::Lock);
    let cancel = id_of(&swap.rt, TxLabel::Cancel);
    let refund = id_of(&swap.rt, TxLabel::Refund);
    assert_eq!(swap.react(btc_syncer(), confs(lock, 9)), End::Stay);
    assert!(swap.sent.is_empty());
    swap.sm = locked_bob().sm;
    assert_eq!(swap.react(btc_syncer(), confs(lock, 10)), End::Stay);
    assert_eq!(published(&swap.sent), vec![tx(2).raw()]);
    assert!(!swap.rt.txs.contains_key(&TxLabel::Cancel));
    swap.sm = locked_bob().sm;
    swap.next(btc_syncer(), confs(cancel, 0));
    assert_eq!(*swap.state(), SwapStateMachine::BobCanceled);
    assert_eq!(swap.react(btc_syncer(), confs(cancel, 0)), End::Stay);
    swap.sm = Some(SwapStateMachine::BobCanceled);
    swap.next(btc_syncer(), confs(cancel, 1));
    assert_eq!(published(&swap.sent), vec![tx(3).raw()]);
    assert_eq!(*swap.state(), SwapStateMachine::BobCancelFinal);
    swap.next(btc_syncer(), confs(refund, 1));
    assert_eq!(*swap.state(), SwapStateMachine::SwapEnd(Outcome::FailureRefund));
    assert!(swap.rt.txs.entries().is_empty());
}

#[test]
fn bob_ends_when_his_refund_address_is_paid() {
    let mut swap = locked_bob();
    let id = TaskId(900);
    swap.rt.syncer_state.tasks.watched_addrs.insert(id, TxLabel::Refund);
    swap.sm = Some(SwapStateMachine::BobCancelFinal);
    let funding = addr_of(&swap.rt, TxLabel::Funding);
    assert_eq!(swap.react(btc_syncer(), payment(funding, 1, vec![])), End::Stay);
    swap.sm = Some(SwapStateMachine::BobCancelFinal);
    swap.next(btc_syncer(), payment(id, 1, vec![]));
    assert_eq!(*swap.state(), SwapStateMachine::SwapEnd(Outcome::FailureRefund));
    assert!(swap.rt.txs.entries().is_empty());
}

#[test]
fn syncer_news_is_noted() {
    let mut swap = locked_bob();
    let report = |label_id: u32, c: u32| {
        SyncEvent::TransactionConfirmations(TransactionConfirmations {
            id: TaskId(label_id),
            confirmations: Some(c),
        })
    };
    swap.note(btc_syncer(), &SyncEvent::HeightChanged { height: 77 });
    swap.note(xmr_syncer(), &SyncEvent::HeightChanged { height: 88 });
    assert_eq!(swap.rt.syncer_state.height(Blockchain::Bitcoin), 77);
    assert_eq!(swap.rt.syncer_state.height(Blockchain::Monero), 88);
    let buy = id_of(&swap.rt, TxLabel::Buy);
    let lock = id_of(&swap.rt, TxLabel::Lock);
    swap.note(client(), &report(buy, 5));
    assert_eq!(swap.rt.syncer_state.buy_tx_confs, None);
    swap.note(btc_syncer(), &report(buy, 0));
    assert_eq!(swap.rt.syncer_state.buy_tx_confs, None);
    swap.note(btc_syncer(), &report(buy, 5));
    swap.note(btc_syncer(), &report(lock, 6));
    let state = &swap.rt.syncer_state;
    assert_eq!(state.get_confs(TxLabel::Buy), Some(5));
    assert_eq!(state.buy_tx_confs.unwrap().confirmations, Some(5));
    assert_eq!(state.lock_tx_confs.unwrap().confirmations, Some(6));
    swap.note(xmr_syncer(), &SyncEvent::FeeEstimation { id: TaskId(1), sat_per_kvb: 5 });
    assert_eq!(swap.rt.syncer_state.btc_fee_estimate_sat_per_kvb, Some(1_001));
}

#[test]
fn execute_gives_what_next_gives() {
    let swap = locked_bob();
    let refund = id_of(&swap.rt, TxLabel::Refund);
    let event = || Event { source: btc_syncer(), request: confs(refund, 1) };
    let next = SwapStateMachine::BobCancelFinal.next(&event(), &swap.rt);
    let Event { source, request } = event();
    let sm = SwapStateMachine::BobCancelFinal;
    assert_eq!(SwapStateMachineExecutor::execute(&swap.rt, source, request, sm), next);
}

#[test]
fn bob_finds_the_swap_cancelled_before_he_locks() {
    let mut swap = locked_bob();
    let cancel = id_of(&swap.rt, TxLabel::Cancel);
    swap.sm = Some(SwapStateMachine::BobFunded(BobFunded {
        local_params: bob_params(),
        funding_address: address(),
        remote_params: alice_params(),
        wallet: wallet(4),
    }));
    swap.next(btc_syncer(), confs(cancel, 1));
    assert_eq!(*swap.state(), SwapStateMachine::BobCanceled);
}

#[test]
fn bob_with_the_wrong_funding_aborts() {
    let mut swap = revealed_bob();
    let id = addr_of(&swap.rt, TxLabel::Funding);
    let call = swap.ask(
        btc_syncer(),
        payment(id, 100_000, vec![tx(8).raw()]),
        WalletReply::SweepBitcoin { btc_keys: bitcoin_keys() },
    );
    assert_eq!(
        call,
        WalletCall::SweepBitcoin {
            wallet: wallet(2),
            funding_address: address(),
            swap_id: swap_id(),
        }
    );
    assert_eq!(
        swap.sent[0],
        to_node(Request::Progress(Notice::IncorrectFunding {
            required: 100_123,
            funded: 100_000,
        }))
    );
    assert_eq!(*swap.state(), SwapStateMachine::BobAbortAwaitingBitcoinSweep);
    let sweep = swap.rt.syncer_state.tasks.sweeping_addr.unwrap();
    let aborted = |ids: Vec<TaskId>| {
        Request::SyncerEvent(SyncEvent::TaskAborted { ids: Arc::new(ids) })
    };
    assert_eq!(swap.react(btc_syncer(), aborted(vec![sweep, sweep])), End::Stay);
    swap.sm = Some(SwapStateMachine::BobAbortAwaitingBitcoinSweep);
    swap.next(btc_syncer(), aborted(vec![sweep]));
    assert_eq!(*swap.state(), SwapStateMachine::SwapEnd(Outcome::FailureAbort));
    assert_eq!(swap.sent[0], to_node(Request::FundingCanceled(Blockchain::Bitcoin)));
}

#[test]
fn bob_with_a_malformed_funding_transaction() {
    let mut swap = revealed_bob();
    let id = addr_of(&swap.rt, TxLabel::Funding);
    let paid = payment(id, 100_123, vec![Blob::new(vec![1, 2])]);
    assert_eq!(swap.react(btc_syncer(), paid), End::Fail(Error::MalformedTransaction));
}

#[test]
fn offer_not_found() {
    let mut swap = Swap::new(
        alice(),
        SwapStateMachine::AliceInitTaker(AliceInitTaker {
            local_params: alice_params(),
            wallet: wallet(1),
        }),
    );
    swap.next(peer(), Request::Protocol(Msg::OfferNotFound(swap_id())));
    assert_eq!(*swap.state(), SwapStateMachine::SwapEnd(Outcome::FailureAbort));
}

/// Alice as maker, up to where she has signed.
fn signed_alice() -> Swap {
    let mut swap = Swap::new(alice(), SwapStateMachine::StartMaker(SwapRole::Alice));
    swap.ask(
        ServiceId::Farcasterd,
        Request::InitMakerSwap(init_maker()),
        WalletReply::Opened {
            wallet: wallet(1),
            local_params: alice_params(),
            funding_address: None,
        },
    );
    assert_eq!(
        *swap.state(),
        SwapStateMachine::AliceInitMaker(AliceInitMaker {
            local_params: alice_params(),
            remote_commit: bob_commit(),
            wallet: wallet(1),
        })
    );
    assert_eq!(swap.sent[4], to_peer(Msg::MakerCommit(alice_commit())));
    swap.ask(
        peer(),
        Request::Protocol(Msg::Reveal(bob_reveal())),
        WalletReply::Informed { wallet: wallet(2), maker_reveal: Some(alice_reveal()) },
    );
    assert_eq!(swap.sent, vec![to_peer(Msg::Reveal(alice_reveal()))]);
    assert_eq!(
        *swap.state(),
        SwapStateMachine::AliceReveal(AliceReveal {
            local_params: alice_params(),
            remote_params: bob_params(),
            wallet: wallet(2),
        })
    );
    swap.ask(
        peer(),
        Request::Protocol(Msg::CoreArbitratingSetup(setup())),
        WalletReply::CoreArbSigned {
            wallet: wallet(3),
            refund_procedure_signatures: sealed(),
            cancel_tx: tx(2),
            punish_tx: tx(5),
        },
    );
    assert_eq!(
        swap.sent[3..],
        vec![
            Dispatch::CheckpointAt(
                Some(Msg::RefundProcedureSignatures(sealed())),
                SwapStateMachine::AliceCoreArbitratingSetup(AliceCoreArbitratingSetup {
                    local_params: alice_params(),
                    remote_params: bob_params(),
                    wallet: wallet(3),
                })
            ),
            to_peer(Msg::RefundProcedureSignatures(sealed())),
        ]
    );
    assert_eq!(
        *swap.state(),
        SwapStateMachine::AliceCoreArbitratingSetup(AliceCoreArbitratingSetup {
            local_params: alice_params(),
            remote_params: bob_params(),
            wallet: wallet(3),
        })
    );
    swap
}

/// Alice, up to where Bob's lock is final and she is asked for funds.
fn asked_alice() -> Swap {
    let mut swap = signed_alice();
    let lock = id_of(&swap.rt, TxLabel::Lock);
    swap.next(btc_syncer(), confs(lock, 1));
    let info = match swap.state() {
        SwapStateMachine::AliceArbitratingLockFinal(AliceArbitratingLockFinal {
            funding_info,
            required_funding_amount,
            ..
        }) => {
            assert_eq!(*required_funding_amount, 3_000);
            *funding_info
        }
        other => panic!("{:?}", other),
    };
    let shared = monero::ViewPair { spend: point(30), view: scalar(33) };
    let shared = monero::Address::from_viewpair(monero::Network::Stagenet, &shared);
    assert_eq!(info.address.0.to_vec(), shared.as_bytes());
    let id = addr_of(&swap.rt, TxLabel::AccLock);
    swap.next(xmr_syncer(), Request::SyncerEvent(SyncEvent::Empty(id)));
    assert!(swap.rt.syncer_state.awaiting_funding);
    assert_eq!(
        swap.sent,
        vec![Dispatch::Send(
            ServiceBus::Ctl,
            client(),
            Request::FundingInfo(FundingInfo::Monero(info))
        )]
    );
    swap
}

/// Alice, up to where her monero are locked.
fn locked_alice() -> Swap {
    let mut swap = asked_alice();
    let id = addr_of(&swap.rt, TxLabel::AccLock);
    swap.next(xmr_syncer(), payment(id, 3_000, vec![]));
    assert_eq!(swap.sent[0], to_node(Request::FundingCompleted(Blockchain::Monero)));
    assert_eq!(
        *swap.state(),
        SwapStateMachine::AliceAccordantLock(AliceAccordantLock { wallet: wallet(3) })
    );
    assert!(swap.rt.syncer_state.tasks.watched_addrs.get(&id).is_none());
    swap
}

fn buy_reply() -> WalletReply {
    WalletReply::BuySigned { wallet: wallet(4), cancel_tx: tx(2), buy_tx: tx(4) }
}

#[test]
fn alice_swaps() {
    let mut swap = locked_alice();
    swap.ask(
        peer(),
        Request::Protocol(Msg::BuyProcedureSignature(buy_signature())),
        buy_reply(),
    );
    assert_eq!(published(&swap.sent), vec![tx(4).raw()]);
    assert_eq!(
        swap.sent.last(),
        Some(&Dispatch::CheckpointAt(None, SwapStateMachine::AliceBuyProcedureSignature))
    );
    assert_eq!(*swap.state(), SwapStateMachine::AliceBuyProcedureSignature);
    let buy = id_of(&swap.rt, TxLabel::Buy);
    swap.next(btc_syncer(), confs(buy, 1));
    assert_eq!(*swap.state(), SwapStateMachine::SwapEnd(Outcome::SuccessSwap));
    assert!(!swap.rt.txs.contains_key(&TxLabel::Cancel));
    assert!(!swap.rt.txs.contains_key(&TxLabel::Punish));
}

#[test]
fn alice_cancels_instead_of_buying_too_late() {
    let mut swap = locked_alice();
    swap.rt.syncer_state.lock_tx_confs = Some(TransactionConfirmations {
        id: TaskId(1),
        confirmations: Some(10),
    });
    swap.ask(
        peer(),
        Request::Protocol(Msg::BuyProcedureSignature(buy_signature())),
        buy_reply(),
    );
    assert_eq!(published(&swap.sent), vec![tx(2).raw()]);
    assert_eq!(
        *swap.state(),
        SwapStateMachine::AliceCanceled(AliceCanceled { wallet: wallet(4) })
    );
}

#[test]
fn alice_funds_too_much_or_too_little() {
    let mut swap = asked_alice();
    let id = addr_of(&swap.rt, TxLabel::AccLock);
    swap.next(xmr_syncer(), payment(id, 3_001, vec![]));
    assert_eq!(
        swap.sent.last(),
        Some(&Dispatch::Send(
            ServiceBus::Ctl,
            client(),
            Request::Progress(Notice::TooBigFunding { required: 3_000, funded: 3_001 })
        ))
    );
    assert!(matches!(swap.state(), SwapStateMachine::AliceCanceled(_)));
    let mut swap = asked_alice();
    swap.next(xmr_syncer(), payment(id, 2_999, vec![]));
    assert_eq!(
        swap.sent.last(),
        Some(&Dispatch::Send(
            ServiceBus::Ctl,
            client(),
            Request::Progress(Notice::TooSmallFunding { required: 3_000, funded: 2_999 })
        ))
    );
    assert!(matches!(swap.state(), SwapStateMachine::AliceAccordantLock(_)));
}

#[test]
fn alice_is_no_longer_asked_for_funds_near_the_cancel() {
    let mut swap = asked_alice();
    let lock = id_of(&swap.rt, TxLabel::Lock);
    swap.next(btc_syncer(), confs(lock, 8));
    assert_eq!(swap.sent, vec![to_node(Request::FundingCanceled(Blockchain::Monero))]);
    assert!(!swap.rt.syncer_state.awaiting_funding);
    assert!(matches!(swap.state(), SwapStateMachine::AliceArbitratingLockFinal(_)));
}

fn cancelled_alice() -> Swap {
    let mut swap = locked_alice();
    let cancel = id_of(&swap.rt, TxLabel::Cancel);
    swap.next(btc_syncer(), confs(cancel, 1));
    assert!(matches!(swap.state(), SwapStateMachine::AliceCanceled(_)));
    swap
}

#[test]
fn alice_is_refunded() {
    let mut swap = cancelled_alice();
    let acc_lock = id_of(&swap.rt, TxLabel::AccLock);
    swap.rt.syncer_state.handle_tx_confs(TaskId(acc_lock), Some(3), 1);
    let refund = id_of(&swap.rt, TxLabel::Refund);
    swap.next(btc_syncer(), confs(refund, 1));
    let get = swap.rt.syncer_state.tasks.counter;
    let found = SyncEvent::TransactionRetrieved { id: TaskId(get), tx: Some(tx(3)) };
    let call = swap.ask(
        btc_syncer(),
        Request::SyncerEvent(found),
        WalletReply::SweepMonero { xmr_keys: monero_keys(), from_height: None },
    );
    assert!(matches!(call, WalletCall::RefundTx { .. }));
    let sweep = match swap.state() {
        SwapStateMachine::AliceRefund(sweep) => sweep.clone(),
        other => panic!("{:?}", other),
    };
    swap.next(xmr_syncer(), confs(acc_lock, 10));
    assert_eq!(*swap.state(), SwapStateMachine::AliceRefundSweeping);
    let done = Request::SyncerEvent(SyncEvent::SweepSuccess { id: sweep.id });
    swap.next(xmr_syncer(), done);
    assert_eq!(*swap.state(), SwapStateMachine::SwapEnd(Outcome::FailureRefund));
    assert!(swap.rt.txs.entries().is_empty());
}

#[test]
fn alice_without_monero_has_nothing_to_sweep() {
    let mut swap = cancelled_alice();
    let refund = id_of(&swap.rt, TxLabel::Refund);
    swap.next(btc_syncer(), confs(refund, 1));
    let get = swap.rt.syncer_state.tasks.counter;
    let found = SyncEvent::TransactionRetrieved { id: TaskId(get), tx: Some(tx(3)) };
    swap.ask(
        btc_syncer(),
        Request::SyncerEvent(found),
        WalletReply::SweepMonero { xmr_keys: monero_keys(), from_height: None },
    );
    assert_eq!(*swap.state(), SwapStateMachine::SwapEnd(Outcome::FailureRefund));
}

#[test]
fn alice_punishes() {
    let mut swap = cancelled_alice();
    let cancel = id_of(&swap.rt, TxLabel::Cancel);
    assert_eq!(swap.react(btc_syncer(), confs(cancel, 29)), End::Stay);
    let mut swap = cancelled_alice();
    swap.next(btc_syncer(), confs(cancel, 30));
    assert_eq!(published(&swap.sent), vec![tx(5).raw()]);
    assert_eq!(*swap.state(), SwapStateMachine::AlicePunish);
    let punish = id_of(&swap.rt, TxLabel::Punish);
    swap.next(btc_syncer(), confs(punish, 0));
    assert_eq!(*swap.state(), SwapStateMachine::SwapEnd(Outcome::FailurePunish));
    assert!(swap.rt.txs.entries().is_empty());
}

#[test]
fn swaps_are_aborted_before_the_lock() {
    for sm in [
        SwapStateMachine::StartTaker(SwapRole::Alice),
        SwapStateMachine::StartMaker(SwapRole::Bob),
        SwapStateMachine::AliceInitTaker(AliceInitTaker {
            local_params: alice_params(),
            wallet: wallet(1),
        }),
        SwapStateMachine::AliceTakerMakerCommit(AliceTakerMakerCommit {
            local_params: alice_params(),
            remote_commit: bob_commit(),
            wallet: wallet(1),
        }),
        SwapStateMachine::AliceReveal(AliceReveal {
            local_params: alice_params(),
            remote_params: bob_params(),
            wallet: wallet(1),
        }),
    ] {
        let mut swap = Swap::new(alice(), sm);
        swap.next(client(), Request::AbortSwap);
        assert_eq!(*swap.state(), SwapStateMachine::SwapEnd(Outcome::FailureAbort));
        assert_eq!(
            swap.sent,
            vec![Dispatch::Send(
                ServiceBus::Ctl,
                client(),
                Request::Info(Notice::AbortedSwap)
            )]
        );
    }
    let mut swap = revealed_bob();
    swap.ask(
        client(),
        Request::AbortSwap,
        WalletReply::SweepBitcoin { btc_keys: bitcoin_keys() },
    );
    assert_eq!(*swap.state(), SwapStateMachine::BobAbortAwaitingBitcoinSweep);
    assert_eq!(
        swap.sent[1],
        Dispatch::Send(ServiceBus::Ctl, client(), Request::Info(Notice::AbortingSwap))
    );
}

#[test]
fn locked_in_swaps_are_not_aborted() {
    for mut swap in [locked_bob(), signed_alice(), asked_alice(), locked_alice()] {
        assert_eq!(swap.react(client(), Request::AbortSwap), End::Stay);
        assert_eq!(
            swap.sent,
            vec![Dispatch::Send(
                ServiceBus::Ctl,
                client(),
                Request::Failure(Failure { code: 0, info: Notice::AbortImpossible })
            )]
        );
    }
    let mut swap = cancelled_alice();
    assert_eq!(swap.react(client(), Request::AbortSwap), End::Stay);
    assert!(swap.sent.is_empty());
}

#[test]
fn invalid_parameters_are_refused() {
    let mut swap = Swap::new(
        bob(),
        SwapStateMachine::BobInitMaker(BobInitMaker {
            local_commit: bob_commit(),
            local_params: bob_params(),
            funding_address: address(),
            remote_commit: alice_commit(),
            wallet: wallet(1),
            deferred: None,
        }),
    );
    let wrong = Request::Protocol(Msg::Reveal(bob_reveal()));
    assert_eq!(swap.react(peer(), wrong), End::Fail(Error::RemoteParamsInvalid));
    let mut swap = Swap::new(
        alice(),
        SwapStateMachine::AliceInitMaker(AliceInitMaker {
            local_params: alice_params(),
            remote_commit: bob_commit(),
            wallet: wallet(1),
        }),
    );
    let wrong = Request::Protocol(Msg::Reveal(alice_reveal()));
    assert_eq!(swap.react(peer(), wrong), End::Fail(Error::RemoteParamsInvalid));
}

#[test]
fn failures_of_the_wallet_are_passed_on() {
    let mut swap = Swap::new(bob(), SwapStateMachine::StartTaker(SwapRole::Bob));
    match swap.react(ServiceId::Farcasterd, Request::InitTakerSwap(init_taker())) {
        End::Ask(_, pending) => {
            let no_address = WalletReply::Opened {
                wallet: wallet(1),
                local_params: bob_params(),
                funding_address: None,
            };
            assert!(!reply_fits(&pending, &no_address));
            assert!(!reply_fits(&pending, &WalletReply::Funded { wallet: wallet(1) }));
            let plan = SwapStateMachine::resume(pending, Err(Error::External), &swap.rt);
            assert_eq!(plan, Plan { ops: vec![], end: End::Fail(Error::External) });
        }
        other => panic!("{:?}", other),
    }
    // parameters that cannot be committed to
    let mut swap = Swap::new(bob(), SwapStateMachine::StartTaker(SwapRole::Bob));
    match swap.react(ServiceId::Farcasterd, Request::InitTakerSwap(init_taker())) {
        End::Ask(_, pending) => {
            let reply = WalletReply::Opened {
                wallet: wallet(1),
                local_params: Params::Bob(Blob::new(vec![1])),
                funding_address: Some(address()),
            };
            let plan = SwapStateMachine::resume(pending, Ok(reply), &swap.rt);
            assert_eq!(plan.end, End::Fail(Error::MalformedParameters));
        }
        other => panic!("{:?}", other),
    }
}

#[test]
fn taker_of_another_swap_stays() {
    let mut swap = Swap::new(bob(), SwapStateMachine::StartTaker(SwapRole::Bob));
    let mut init = init_taker();
    init.swap_id = SwapId([8; 32]);
    assert_eq!(swap.react(ServiceId::Farcasterd, Request::InitTakerSwap(init)), End::Stay);
    assert!(swap.sent.is_empty());
}

#[test]
fn funding_amounts() {
    let mut rt = bob();
    assert_eq!(required_funding(&rt, 1_000), Some(100_122));
    assert_eq!(required_funding(&rt, 0), Some(100_000));
    assert_eq!(required_funding(&rt, 8), Some(100_001));
    rt.syncer_state.bitcoin_amount = u64::MAX;
    assert_eq!(required_funding(&rt, 0), Some(u64::MAX));
    assert_eq!(required_funding(&rt, 1), None);
    rt.syncer_state.btc_fee_estimate_sat_per_kvb = Some(1);
    let mut swap = Swap::new(
        rt,
        SwapStateMachine::BobInitMaker(BobInitMaker {
            local_commit: bob_commit(),
            local_params: bob_params(),
            funding_address: address(),
            remote_commit: alice_commit(),
            wallet: wallet(1),
            deferred: None,
        }),
    );
    let request = Request::Protocol(Msg::Reveal(alice_reveal()));
    assert_eq!(swap.react(peer(), request), End::Fail(Error::AmountOverflow));
}

#[test]
fn automaton_has_a_name() {
    assert_eq!(SwapStateMachine::BobCanceled.name(), "Swap State Machine");
}
