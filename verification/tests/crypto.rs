//! Commitments, shared keys, transactions and offers, against the crates they rest on.
use std::str::FromStr;

use farcaster_core::consensus;
use farcaster_core::crypto::{SharedKeyId, TaggedElement};
use farcaster_core::swap::btcxmr;
use farcaster_core::swap::btcxmr::message::{RevealAliceParameters, RevealBobParameters};

use farcaster_node::base::{Error, Network, SwapId, SwapRole};
use farcaster_node::blob::Blob;
use farcaster_node::chain::{BitcoinAddress, Psbt, Transaction};
use farcaster_node::crypto::{
    aggregate_xmr_spend_view, checksum, commit_to, find_view_key, is_well_tagged, lock_address, share_viewpair,
    validate_reveal, Commit, Params, Reveal, Sealed, SHARED_VIEW_KEY_ID,
};
use farcaster_node::offer::PublicOffer;

const ADDRESS: &str = "bc1qw508d6qejxtdg4y5r3zarvary0c5xw7kv8f3t4";

fn swap_id() -> SwapId {
    SwapId([7u8; 32])
}

fn pubkey(n: u8) -> bitcoin::secp256k1::PublicKey {
    let secp = bitcoin::secp256k1::Secp256k1::new();
    let sk = bitcoin::secp256k1::SecretKey::from_slice(&[n; 32]).unwrap();
    bitcoin::secp256k1::PublicKey::from_secret_key(&secp, &sk)
}

fn scalar(n: u8) -> monero::PrivateKey {
    let mut bytes = [0u8; 32];
    bytes[0] = n;
    monero::PrivateKey::from_slice(&bytes).unwrap()
}

fn point(n: u8) -> monero::PublicKey {
    monero::PublicKey::from_private_key(&scalar(n))
}

fn alice_reveal(spend: u8, view: Option<u8>) -> Vec<u8> {
    let reveal = RevealAliceParameters {
        swap_id: swap_id().0.into(),
        buy: pubkey(1),
        cancel: pubkey(2),
        refund: pubkey(3),
        punish: pubkey(4),
        adaptor: pubkey(5),
        extra_arbitrating_keys: vec![],
        arbitrating_shared_keys: vec![],
        spend: point(spend),
        extra_accordant_keys: vec![],
        accordant_shared_keys: match view {
            Some(v) => vec![
                TaggedElement::new(SharedKeyId::new(9), scalar(99)),
                TaggedElement::new(SharedKeyId::new(SHARED_VIEW_KEY_ID), scalar(v)),
            ],
            None => vec![],
        },
        address: bitcoin::Address::from_str(ADDRESS).unwrap(),
    };
    consensus::serialize(&reveal)
}

fn bob_reveal(spend: u8, view: u8) -> Vec<u8> {
    let reveal = RevealBobParameters {
        swap_id: swap_id().0.into(),
        buy: pubkey(6),
        cancel: pubkey(7),
        refund: pubkey(8),
        adaptor: pubkey(9),
        extra_arbitrating_keys: vec![],
        arbitrating_shared_keys: vec![],
        spend: point(spend),
        extra_accordant_keys: vec![],
        accordant_shared_keys: vec![TaggedElement::new(
            SharedKeyId::new(SHARED_VIEW_KEY_ID),
            scalar(view),
        )],
        address: bitcoin::Address::from_str(ADDRESS).unwrap(),
    };
    consensus::serialize(&reveal)
}

fn alice_params(spend: u8, view: Option<u8>) -> Params {
    Params::Alice(Blob::new(alice_reveal(spend, view)[32..].to_vec()))
}

fn bob_params(spend: u8, view: u8) -> Params {
    Params::Bob(Blob::new(bob_reveal(spend, view)[32..].to_vec()))
}

fn body(params: &Params) -> Blob {
    match params {
        Params::Alice(b) => b.clone(),
        Params::Bob(b) => b.clone(),
    }
}

#[test]
fn own_reveal_is_accepted() {
    for params in [alice_params(10, Some(11)), bob_params(12, 13)] {
        let commit = commit_to(swap_id(), &params).unwrap();
        assert_eq!(commit.swap_id(), swap_id());
        let reveal = Reveal::carry(swap_id(), &params);
        assert_eq!(reveal.swap_id(), swap_id());
        assert_eq!(validate_reveal(&reveal, &commit), Ok(params));
    }
}

/// Alice's parameters with two more arbitrating keys under these tags.
fn tagged_alice(first: u16, second: u16) -> Params {
    let mut reveal: RevealAliceParameters =
        consensus::deserialize(&alice_reveal(10, Some(11))).unwrap();
    reveal.extra_arbitrating_keys =
        vec![TaggedElement::new(first, pubkey(20)), TaggedElement::new(second, pubkey(21))];
    Params::Alice(Blob::new(consensus::serialize(&reveal)[32..].to_vec()))
}

/// Bob's parameters with two more accordant shared keys under these tags.
fn tagged_bob(first: u16, second: u16) -> Params {
    let mut reveal: RevealBobParameters = consensus::deserialize(&bob_reveal(12, 13)).unwrap();
    reveal.accordant_shared_keys = vec![
        TaggedElement::new(SharedKeyId::new(first), scalar(20)),
        TaggedElement::new(SharedKeyId::new(second), scalar(21)),
    ];
    Params::Bob(Blob::new(consensus::serialize(&reveal)[32..].to_vec()))
}

#[test]
fn repeated_tags_are_found() {
    for params in [tagged_alice(7, 8), tagged_bob(7, 8), alice_params(10, None)] {
        assert!(is_well_tagged(swap_id(), &params));
        let commit = commit_to(swap_id(), &params).unwrap();
        let reveal = Reveal::carry(swap_id(), &params);
        assert_eq!(validate_reveal(&reveal, &commit), Ok(params));
    }
    // farcaster_core takes such a reveal all the same: it looks for a commitment under
    // each tag and lets the outcome of the comparison go
    for params in [tagged_alice(7, 7), tagged_bob(7, 7)] {
        assert!(!is_well_tagged(swap_id(), &params));
        let commit = commit_to(swap_id(), &params).unwrap();
        assert_eq!(commit.swap_id(), swap_id());
        let reveal = Reveal::carry(swap_id(), &params);
        assert_eq!(validate_reveal(&reveal, &commit), Ok(params));
    }
    assert!(!is_well_tagged(swap_id(), &Params::Bob(Blob::new(vec![1, 2]))));
}

#[test]
fn commitment_is_that_of_the_core_library() {
    let params = alice_params(10, Some(11));
    let reveal: RevealAliceParameters =
        consensus::deserialize(&alice_reveal(10, Some(11))).unwrap();
    let own: btcxmr::Parameters = reveal.into_parameters();
    let expected = own.commit_alice(
        swap_id().0.into(),
        &farcaster_core::crypto::CommitmentEngine,
    );
    match commit_to(swap_id(), &params) {
        Some(Commit::AliceParameters(sealed)) => {
            assert_eq!(sealed.wire(), consensus::serialize(&expected));
        }
        _ => panic!("no commitment of Alice's"),
    }
}

#[test]
fn foreign_reveal_is_a_mismatch() {
    let commit = commit_to(swap_id(), &alice_params(10, Some(11))).unwrap();
    let other = Reveal::carry(swap_id(), &alice_params(14, Some(11)));
    assert_eq!(validate_reveal(&other, &commit), Err(Error::CommitmentMismatch));
    let commit = commit_to(swap_id(), &bob_params(10, 11)).unwrap();
    let other = Reveal::carry(swap_id(), &bob_params(12, 11));
    assert_eq!(validate_reveal(&other, &commit), Err(Error::CommitmentMismatch));
}

#[test]
fn reveal_against_the_wrong_party() {
    let alice = alice_params(10, Some(11));
    let bob = bob_params(12, 13);
    let alice_commit = commit_to(swap_id(), &alice).unwrap();
    let bob_commit = commit_to(swap_id(), &bob).unwrap();
    assert_eq!(
        validate_reveal(&Reveal::carry(swap_id(), &alice), &bob_commit),
        Err(Error::ExpectedAliceCommit)
    );
    assert_eq!(
        validate_reveal(&Reveal::carry(swap_id(), &bob), &alice_commit),
        Err(Error::ExpectedBobCommit)
    );
    let proof = Reveal::Proof(Sealed { swap_id: swap_id(), body: Blob::new(vec![1]) });
    assert_eq!(validate_reveal(&proof, &alice_commit), Err(Error::ProofIsNotParameters));
}

#[test]
fn garbage_is_not_committed_to() {
    assert!(commit_to(swap_id(), &Params::Alice(Blob::new(vec![1, 2, 3]))).is_none());
    assert!(commit_to(swap_id(), &Params::Bob(Blob::new(vec![]))).is_none());
    let alice = body(&alice_params(10, Some(11)));
    assert!(commit_to(swap_id(), &Params::Bob(alice)).is_none());
}

#[test]
fn shared_keys_are_sums() {
    let alice = body(&alice_params(10, Some(11)));
    let bob = body(&bob_params(20, 22));
    let (spend, view) = aggregate_xmr_spend_view(swap_id(), &alice, &bob).unwrap();
    assert_eq!(spend, (point(10) + point(20)).to_bytes());
    assert_eq!(spend, point(30).to_bytes());
    assert_eq!(view, scalar(33).to_bytes());
}

#[test]
fn shared_keys_need_both_view_keys() {
    let alice = body(&alice_params(10, None));
    let bob = body(&bob_params(20, 22));
    assert!(aggregate_xmr_spend_view(swap_id(), &alice, &bob).is_none());
    assert!(aggregate_xmr_spend_view(swap_id(), &bob, &bob).is_none());
    assert!(aggregate_xmr_spend_view(swap_id(), &alice, &alice).is_none());
}

#[test]
fn view_key_is_the_first_under_its_tag() {
    let keys = vec![(3u16, [1u8; 32]), (1, [2; 32]), (1, [3; 32])];
    assert_eq!(find_view_key(&keys), Some([2u8; 32]));
    assert_eq!(find_view_key(&keys[..1].to_vec()), None);
    let bad_point = share_viewpair(&([2u8; 32], keys.clone()), &(point(1).to_bytes(), keys));
    assert!(bad_point.is_none());
}

#[test]
fn lock_address_is_that_of_the_monero_library() {
    let spend = point(30).to_bytes();
    let view = scalar(33).to_bytes();
    let pair = monero::ViewPair { spend: point(30), view: scalar(33) };
    for (network, theirs) in [
        (Network::Mainnet, monero::Network::Mainnet),
        (Network::Testnet, monero::Network::Stagenet),
        (Network::Local, monero::Network::Mainnet),
    ] {
        let expected = monero::Address::from_viewpair(theirs, &pair).as_bytes();
        assert_eq!(lock_address(network, &spend, &view).unwrap().0.to_vec(), expected);
    }
    assert!(lock_address(Network::Mainnet, &spend, &[255u8; 32]).is_none());
}

#[test]
fn checksum_of_known_bytes() {
    // RIPEMD-160 of "abc"
    let expected: [u8; 20] = [
        0x8e, 0xb2, 0x08, 0xf7, 0xe0, 0x5d, 0x98, 0x7a, 0x9b, 0x04, 0x4a, 0x8e, 0x98, 0xc6, 0xb0,
        0x87, 0xf1, 0x5a, 0x0b, 0xfc,
    ];
    assert_eq!(checksum(&b"abc".to_vec()).0, expected);
}

fn legacy_tx(lock_time: u32) -> bitcoin::Transaction {
    bitcoin::Transaction {
        version: 2,
        lock_time,
        input: vec![bitcoin::TxIn::default()],
        output: vec![bitcoin::TxOut { value: 1000, script_pubkey: bitcoin::Script::new() }],
    }
}

#[test]
fn transaction_is_read_with_its_identifier() {
    let tx = legacy_tx(5);
    let raw = bitcoin::consensus::serialize(&tx);
    let read = Transaction::decode(&raw).unwrap();
    assert_eq!(read.raw().bytes(), &raw);
    assert_eq!(read.txid().0, bitcoin::hashes::Hash::into_inner(tx.txid()));
}

#[test]
fn transaction_with_bytes_behind_it() {
    let tx = legacy_tx(5);
    let mut raw = bitcoin::consensus::serialize(&tx);
    let end = raw.len();
    raw.push(1);
    assert!(Transaction::decode(&raw).is_none());
    assert!(Transaction::decode(&vec![1, 2, 3]).is_none());
    let mut framed = vec![9u8, 9];
    framed.extend(&raw);
    let (read, next) = Transaction::decode_at(&framed, 2).unwrap();
    assert_eq!(next, end + 2);
    assert_eq!(read.txid().0, bitcoin::hashes::Hash::into_inner(tx.txid()));
    assert!(Transaction::decode_at(&framed, framed.len()).is_none());
}

#[test]
fn psbt_names_the_transaction_in_it() {
    let tx = legacy_tx(6);
    let psbt = bitcoin::util::psbt::PartiallySignedTransaction::from_unsigned_tx(tx.clone());
    let raw = Blob::new(bitcoin::consensus::serialize(&psbt.unwrap()));
    let read = Psbt::decode(&raw).unwrap();
    assert_eq!(read.raw(), raw);
    assert_eq!(read.txid().0, bitcoin::hashes::Hash::into_inner(tx.txid()));
    assert!(Psbt::decode(&Blob::new(bitcoin::consensus::serialize(&tx))).is_none());
}

#[test]
fn address_is_read_with_its_script() {
    let read = BitcoinAddress::parse(&ADDRESS.to_string()).unwrap();
    assert_eq!(read.text(), ADDRESS);
    let script: Vec<u8> = vec![
        0x00, 0x14, 0x75, 0x1e, 0x76, 0xe8, 0x19, 0x91, 0x96, 0xd4, 0x54, 0x94, 0x1c, 0x45, 0xd1,
        0xb3, 0xa3, 0x23, 0xf1, 0x43, 0x3b, 0xd6,
    ];
    assert_eq!(read.script_pubkey().bytes(), &script);
    assert!(BitcoinAddress::parse(&"nowhere".to_string()).is_none());
}

const OFFER: &str = "Offer:Cke4ftrP5A7CRkYdGNd87TRU6sUP1kBKM1LQM2fvVdFMNR4gmBqNCsR11111uMM4pF11111112Lvo11111TBALTh113GTvtvqfD1111114A4TUWxWeBc1WxwGBKaUssrb6pnijjhnb6RAs1HBr1CaX7o1a1111111111111111111111111111111111111111115T1WG8uDoZeAW1q";

#[test]
fn public_offer_is_read_with_its_terms() {
    let offer = btcxmr::PublicOffer::from_str(OFFER).unwrap();
    let read = PublicOffer::decode(&consensus::serialize(&offer)).unwrap();
    assert_eq!(read.text, OFFER);
    assert_eq!(read.offer.network, Network::Testnet);
    assert_eq!(read.offer.arbitrating_amount, 1350);
    assert_eq!(read.offer.accordant_amount, 10000);
    assert_eq!(read.offer.cancel_timelock, 4);
    assert_eq!(read.offer.punish_timelock, 6);
    assert_eq!(read.offer.maker_role, SwapRole::Bob);
    assert!(PublicOffer::decode(&vec![0u8; 40]).is_none());
}
