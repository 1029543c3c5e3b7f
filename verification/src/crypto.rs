//! Commitments to swap parameters, their opening, and the keys that the two
//! parties share.
use farcaster_core::blockchain as core_chain;
use farcaster_core::consensus;
use farcaster_core::crypto::CommitmentEngine;
use farcaster_core::swap::btcxmr::message::{
    CommitAliceParameters, CommitBobParameters, RevealAliceParameters, RevealBobParameters,
};
use farcaster_core::swap::btcxmr::Parameters;
use std::convert::TryInto;
use vstd::prelude::*;

use bitcoin::hashes;

use crate::base::{Checksum, Error, Network, SwapId};
use crate::blob::{append, Blob};

verus! {

/// Tag of the shared private view key among a party's shared keys.
pub const SHARED_VIEW_KEY_ID: u16 = 1;

/// The swap a message belongs to, and the rest of its wire encoding.
#[derive(Debug, PartialEq, Eq)]
pub struct Sealed {
    pub swap_id: SwapId,
    pub body: Blob,
}

impl Clone for Sealed {
    fn clone(&self) -> (r: Self)
        ensures
            r == *self,
    {
        Sealed { swap_id: self.swap_id, body: self.body.clone() }
    }
}

/// The wire encoding of a message: the swap identifier, then the body.
pub open spec fn wire_form(swap_id: Seq<u8>, body: Seq<u8>) -> Seq<u8> {
    swap_id + body
}

impl Sealed {
    /// The wire encoding.
    pub open spec fn encoding(self) -> Seq<u8> {
        wire_form(self.swap_id.0@, self.body@)
    }

    pub fn wire(&self) -> (r: Vec<u8>)
        ensures
            r@ == self.encoding(),
    {
        wire(self.swap_id, &self.body)
    }
}

fn wire(swap_id: SwapId, body: &Blob) -> (r: Vec<u8>)
    ensures
        r@ == wire_form(swap_id.0@, body@),
{
    let mut out: Vec<u8> = Vec::new();
    let mut i: usize = 0;
    while i < 32
        invariant
            i <= 32,
            out@ == swap_id.0@.take(i as int),
        decreases 32 - i,
    {
        out.push(swap_id.0[i]);
        assert(swap_id.0@.take(i as int + 1) =~= swap_id.0@.take(i as int).push(
            swap_id.0@[i as int],
        ));
        i = i + 1;
    }
    assert(swap_id.0@.take(32) =~= swap_id.0@);
    append(&mut out, body.bytes());
    out
}

/// The commitment that farcaster_core makes to the parameters in Alice's reveal
/// message, without the swap identifier it starts with, or nothing where the bytes
/// are no such message.
pub uninterp spec fn alice_commitment(reveal: Seq<u8>) -> Option<Seq<u8>>;

/// Whether Alice's commitment in wire form is opened by her reveal in wire form.
pub uninterp spec fn alice_opens(commit: Seq<u8>, reveal: Seq<u8>) -> bool;

/// Whether no tag stands twice in any of four lists.
pub open spec fn tags_once(tags: Option<(Seq<u16>, Seq<u16>, Seq<u16>, Seq<u16>)>) -> bool {
    tags matches Some(t) && t.0.no_duplicates() && t.1.no_duplicates() && t.2.no_duplicates()
        && t.3.no_duplicates()
}

/// The tags in the four lists of keys that Alice's reveal message holds, in order: the
/// extra arbitrating keys, the arbitrating shared keys, the extra accordant keys and
/// the accordant shared keys; or nothing where the bytes are no such message.
pub uninterp spec fn alice_tags(reveal: Seq<u8>) -> Option<
    (Seq<u16>, Seq<u16>, Seq<u16>, Seq<u16>),
>;

/// Reads Alice's reveal message with farcaster_core's `consensus::deserialize` and takes
/// the tags of its four lists of keys. The contract claims that they are a function of
/// the bytes.
#[verifier::external_body]
fn read_alice_tags(reveal: &Vec<u8>) -> (r: Option<(Vec<u16>, Vec<u16>, Vec<u16>, Vec<u16>)>)
    ensures
        match r {
            Some(t) => alice_tags(reveal@) == Some((t.0@, t.1@, t.2@, t.3@)),
            None => alice_tags(reveal@) is None,
        },
{
    let r: RevealAliceParameters = consensus::deserialize(reveal).ok()?;
    let extra_arbitrating = r.extra_arbitrating_keys.iter().map(|k| *k.tag()).collect();
    let arbitrating_shared = r.arbitrating_shared_keys.iter().map(|k| k.tag().id()).collect();
    let extra_accordant = r.extra_accordant_keys.iter().map(|k| *k.tag()).collect();
    let accordant_shared = r.accordant_shared_keys.iter().map(|k| k.tag().id()).collect();
    Some((extra_arbitrating, arbitrating_shared, extra_accordant, accordant_shared))
}

/// Commits to the parameters in Alice's reveal message with
/// `Parameters::commit_alice`, after farcaster_core's `consensus::deserialize` has
/// read it, and drops the swap identifier at the front of the commitment. The
/// contract claims that the commitment is a function of the message, and that the
/// message opens it in its own swap, whose identifier takes the first 32 bytes, where
/// no list of keys repeats a tag: a key is held against the first commitment under its
/// tag. Of a message that repeats a tag it is not said whether it opens.
#[verifier::external_body]
fn commit_alice(reveal: &Vec<u8>) -> (r: Option<Vec<u8>>)
    ensures
        match r {
            Some(c) => {
                &&& alice_commitment(reveal@) == Some(c@)
                &&& tags_once(alice_tags(reveal@)) ==> alice_opens(reveal@.take(32) + c@, reveal@)
            },
            None => alice_commitment(reveal@) is None,
        },
{
    let reveal: RevealAliceParameters = consensus::deserialize(reveal).ok()?;
    let id = reveal.swap_id;
    let params: Parameters = reveal.into_parameters();
    let commit: CommitAliceParameters = params.commit_alice(id, &CommitmentEngine);
    Some(consensus::serialize(&commit).split_off(32))
}

/// Checks Alice's reveal with `CommitAliceParameters::verify_with_reveal`; bytes
/// that are no such messages do not pass. The contract claims that the answer is a
/// function of the two messages.
#[verifier::external_body]
fn verify_alice(commit: &Vec<u8>, reveal: &Vec<u8>) -> (r: bool)
    ensures
        r == alice_opens(commit@, reveal@),
{
    let commit: Option<CommitAliceParameters> = consensus::deserialize(commit).ok();
    let reveal: Option<RevealAliceParameters> = consensus::deserialize(reveal).ok();
    match (commit, reveal) {
        (Some(c), Some(r)) => c.verify_with_reveal(&CommitmentEngine, r).is_ok(),
        _ => false,
    }
}

/// The commitment that farcaster_core makes to the parameters in Bob's reveal
/// message, without the swap identifier it starts with, or nothing where the bytes
/// are no such message.
pub uninterp spec fn bob_commitment(reveal: Seq<u8>) -> Option<Seq<u8>>;

/// Whether Bob's commitment in wire form is opened by his reveal in wire form.
pub uninterp spec fn bob_opens(commit: Seq<u8>, reveal: Seq<u8>) -> bool;

/// The tags in the four lists of keys that Bob's reveal message holds, in order: the
/// extra arbitrating keys, the arbitrating shared keys, the extra accordant keys and
/// the accordant shared keys; or nothing where the bytes are no such message.
pub uninterp spec fn bob_tags(reveal: Seq<u8>) -> Option<
    (Seq<u16>, Seq<u16>, Seq<u16>, Seq<u16>),
>;

/// Reads Bob's reveal message with farcaster_core's `consensus::deserialize` and takes
/// the tags of its four lists of keys. The contract claims that they are a function of
/// the bytes.
#[verifier::external_body]
fn read_bob_tags(reveal: &Vec<u8>) -> (r: Option<(Vec<u16>, Vec<u16>, Vec<u16>, Vec<u16>)>)
    ensures
        match r {
            Some(t) => bob_tags(reveal@) == Some((t.0@, t.1@, t.2@, t.3@)),
            None => bob_tags(reveal@) is None,
        },
{
    let r: RevealBobParameters = consensus::deserialize(reveal).ok()?;
    let extra_arbitrating = r.extra_arbitrating_keys.iter().map(|k| *k.tag()).collect();
    let arbitrating_shared = r.arbitrating_shared_keys.iter().map(|k| k.tag().id()).collect();
    let extra_accordant = r.extra_accordant_keys.iter().map(|k| *k.tag()).collect();
    let accordant_shared = r.accordant_shared_keys.iter().map(|k| k.tag().id()).collect();
    Some((extra_arbitrating, arbitrating_shared, extra_accordant, accordant_shared))
}

/// Commits to the parameters in Bob's reveal message with
/// `Parameters::commit_bob`, after farcaster_core's `consensus::deserialize` has
/// read it, and drops the swap identifier at the front of the commitment. The
/// contract claims that the commitment is a function of the message, and that the
/// message opens it in its own swap, whose identifier takes the first 32 bytes, where
/// no list of keys repeats a tag: a key is held against the first commitment under its
/// tag. Of a message that repeats a tag it is not said whether it opens.
#[verifier::external_body]
fn commit_bob(reveal: &Vec<u8>) -> (r: Option<Vec<u8>>)
    ensures
        match r {
            Some(c) => {
                &&& bob_commitment(reveal@) == Some(c@)
                &&& tags_once(bob_tags(reveal@)) ==> bob_opens(reveal@.take(32) + c@, reveal@)
            },
            None => bob_commitment(reveal@) is None,
        },
{
    let reveal: RevealBobParameters = consensus::deserialize(reveal).ok()?;
    let id = reveal.swap_id;
    let params: Parameters = reveal.into_parameters();
    let commit: CommitBobParameters = params.commit_bob(id, &CommitmentEngine);
    Some(consensus::serialize(&commit).split_off(32))
}

/// Checks Bob's reveal with `CommitBobParameters::verify_with_reveal`; bytes that
/// are no such messages do not pass. The contract claims that the answer is a
/// function of the two messages.
#[verifier::external_body]
fn verify_bob(commit: &Vec<u8>, reveal: &Vec<u8>) -> (r: bool)
    ensures
        r == bob_opens(commit@, reveal@),
{
    let commit: Option<CommitBobParameters> = consensus::deserialize(commit).ok();
    let reveal: Option<RevealBobParameters> = consensus::deserialize(reveal).ok();
    match (commit, reveal) {
        (Some(c), Some(r)) => c.verify_with_reveal(&CommitmentEngine, r).is_ok(),
        _ => false,
    }
}

/// The public spend key and the tagged shared private keys on the accordant chain
/// that Alice's reveal message holds, or nothing where the bytes are none.
pub uninterp spec fn alice_accordant_keys(reveal: Seq<u8>) -> Option<
    (Seq<u8>, Seq<(u16, [u8; 32])>),
>;

/// Reads Alice's reveal message with farcaster_core's `consensus::deserialize` and
/// takes the spend key and the accordant shared keys out of it, each with its tag,
/// in order. The contract claims that they are a function of the bytes.
#[verifier::external_body]
fn read_alice_keys(reveal: &Vec<u8>) -> (r: Option<([u8; 32], Vec<(u16, [u8; 32])>)>)
    ensures
        match r {
            Some(k) => alice_accordant_keys(reveal@) == Some((k.0@, k.1@)),
            None => alice_accordant_keys(reveal@) is None,
        },
{
    let reveal: RevealAliceParameters = consensus::deserialize(reveal).ok()?;
    let shared = reveal.accordant_shared_keys.iter();
    Some((reveal.spend.to_bytes(), shared.map(|k| (k.tag().id(), k.elem().to_bytes())).collect()))
}

/// The public spend key and the tagged shared private keys on the accordant chain
/// that Bob's reveal message holds, or nothing where the bytes are none.
pub uninterp spec fn bob_accordant_keys(reveal: Seq<u8>) -> Option<
    (Seq<u8>, Seq<(u16, [u8; 32])>),
>;

/// Reads Bob's reveal message with farcaster_core's `consensus::deserialize` and
/// takes the spend key and the accordant shared keys out of it, each with its tag,
/// in order. The contract claims that they are a function of the bytes.
#[verifier::external_body]
fn read_bob_keys(reveal: &Vec<u8>) -> (r: Option<([u8; 32], Vec<(u16, [u8; 32])>)>)
    ensures
        match r {
            Some(k) => bob_accordant_keys(reveal@) == Some((k.0@, k.1@)),
            None => bob_accordant_keys(reveal@) is None,
        },
{
    let reveal: RevealBobParameters = consensus::deserialize(reveal).ok()?;
    let shared = reveal.accordant_shared_keys.iter();
    Some((reveal.spend.to_bytes(), shared.map(|k| (k.tag().id(), k.elem().to_bytes())).collect()))
}

/// The sum of two monero public keys, or nothing where one of them is no point of
/// the curve.
pub uninterp spec fn public_key_sum(a: Seq<u8>, b: Seq<u8>) -> Option<Seq<u8>>;

/// Adds two monero public keys with `monero::PublicKey`'s `+`, after
/// `monero::PublicKey::from_slice` has accepted both. The contract claims that the
/// sum is a function of the two keys.
#[verifier::external_body]
fn add_public_keys(a: &[u8; 32], b: &[u8; 32]) -> (r: Option<[u8; 32]>)
    ensures
        match r {
            Some(sum) => public_key_sum(a@, b@) == Some(sum@),
            None => public_key_sum(a@, b@) is None,
        },
{
    let a = monero::PublicKey::from_slice(a).ok()?;
    let b = monero::PublicKey::from_slice(b).ok()?;
    Some((a + b).to_bytes())
}

/// The sum of two monero private keys, or nothing where one of them is no
/// canonical scalar.
pub uninterp spec fn private_key_sum(a: Seq<u8>, b: Seq<u8>) -> Option<Seq<u8>>;

/// Adds two monero private keys with `monero::PrivateKey`'s `+`, after
/// `monero::PrivateKey::from_slice` has accepted both. The contract claims that the
/// sum is a function of the two keys.
#[verifier::external_body]
fn add_private_keys(a: &[u8; 32], b: &[u8; 32]) -> (r: Option<[u8; 32]>)
    ensures
        match r {
            Some(sum) => private_key_sum(a@, b@) == Some(sum@),
            None => private_key_sum(a@, b@) is None,
        },
{
    let a = monero::PrivateKey::from_slice(a).ok()?;
    let b = monero::PrivateKey::from_slice(b).ok()?;
    Some((a + b).to_bytes())
}

/// The bytes of the standard monero address of a public spend key and a private
/// view key on a network, or nothing where a key is malformed.
pub uninterp spec fn viewpair_address(network: Network, spend: Seq<u8>, view: Seq<u8>) -> Option<
    Seq<u8>,
>;

/// Makes an address with `monero::Address::from_viewpair` on the network that
/// farcaster_core maps the swap's network to. The contract claims that the bytes of
/// the address are a function of the network and the two keys.
#[verifier::external_body]
fn address_of_viewpair(network: Network, spend: &[u8; 32], view: &[u8; 32]) -> (r: Option<[u8; 69]>)
    ensures
        match r {
            Some(address) => viewpair_address(network, spend@, view@) == Some(address@),
            None => viewpair_address(network, spend@, view@) is None,
        },
{
    let network = match network {
        Network::Mainnet => core_chain::Network::Mainnet,
        Network::Testnet => core_chain::Network::Testnet,
        Network::Local => core_chain::Network::Local,
    };
    let spend = monero::PublicKey::from_slice(spend).ok()?;
    let view = monero::PrivateKey::from_slice(view).ok()?;
    let pair = monero::ViewPair { spend, view };
    monero::Address::from_viewpair(network.into(), &pair).as_bytes().try_into().ok()
}

/// The RIPEMD-160 digest of some bytes.
pub uninterp spec fn ripemd160_digest(bytes: Seq<u8>) -> Seq<u8>;

/// Hashes bytes with `bitcoin::hashes::ripemd160::Hash::hash`. The contract claims
/// that the digest is a function of the bytes.
#[verifier::external_body]
fn ripemd160(bytes: &Vec<u8>) -> (r: [u8; 20])
    ensures
        r@ == ripemd160_digest(bytes@),
{
    let digest: hashes::ripemd160::Hash = hashes::Hash::hash(bytes);
    hashes::Hash::into_inner(digest)
}

/// The checksum under which a serialized checkpoint travels.
pub fn checksum(bytes: &Vec<u8>) -> (r: Checksum)
    ensures
        r.0@ == ripemd160_digest(bytes@),
{
    Checksum(ripemd160(bytes))
}

/// The parameters of one party, in the wire form in which they are revealed,
/// without the swap identifier.
#[derive(Debug, PartialEq, Eq)]
pub enum Params {
    Alice(Blob),
    Bob(Blob),
}

impl Clone for Params {
    fn clone(&self) -> (r: Self)
        ensures
            r == *self,
    {
        match self {
            Params::Alice(b) => Params::Alice(b.clone()),
            Params::Bob(b) => Params::Bob(b.clone()),
        }
    }
}

/// A commitment to one party's parameters.
#[derive(Debug, PartialEq, Eq)]
pub enum Commit {
    AliceParameters(Sealed),
    BobParameters(Sealed),
}

impl Clone for Commit {
    fn clone(&self) -> (r: Self)
        ensures
            r == *self,
    {
        match self {
            Commit::AliceParameters(s) => Commit::AliceParameters(s.clone()),
            Commit::BobParameters(s) => Commit::BobParameters(s.clone()),
        }
    }
}

impl Commit {
    pub open spec fn spec_swap_id(&self) -> SwapId {
        match self {
            Commit::AliceParameters(s) => s.swap_id,
            Commit::BobParameters(s) => s.swap_id,
        }
    }

    /// The swap that the commitment belongs to.
    #[verifier::when_used_as_spec(spec_swap_id)]
    pub fn swap_id(&self) -> (r: SwapId)
        ensures
            r == self.spec_swap_id(),
    {
        match self {
            Commit::AliceParameters(s) => s.swap_id,
            Commit::BobParameters(s) => s.swap_id,
        }
    }
}

/// The opening of a commitment, or the proof that goes with it.
#[derive(Debug, PartialEq, Eq)]
pub enum Reveal {
    AliceParameters(Sealed),
    BobParameters(Sealed),
    Proof(Sealed),
}

impl Clone for Reveal {
    fn clone(&self) -> (r: Self)
        ensures
            r == *self,
    {
        match self {
            Reveal::AliceParameters(s) => Reveal::AliceParameters(s.clone()),
            Reveal::BobParameters(s) => Reveal::BobParameters(s.clone()),
            Reveal::Proof(s) => Reveal::Proof(s.clone()),
        }
    }
}

impl Reveal {
    pub open spec fn spec_swap_id(&self) -> SwapId {
        match self {
            Reveal::AliceParameters(s) => s.swap_id,
            Reveal::BobParameters(s) => s.swap_id,
            Reveal::Proof(s) => s.swap_id,
        }
    }

    /// The swap that the reveal belongs to.
    #[verifier::when_used_as_spec(spec_swap_id)]
    pub fn swap_id(&self) -> (r: SwapId)
        ensures
            r == self.spec_swap_id(),
    {
        match self {
            Reveal::AliceParameters(s) => s.swap_id,
            Reveal::BobParameters(s) => s.swap_id,
            Reveal::Proof(s) => s.swap_id,
        }
    }

    /// The reveal message that carries some parameters.
    pub open spec fn carrying(swap_id: SwapId, params: Params) -> Reveal {
        match params {
            Params::Alice(body) => Reveal::AliceParameters(Sealed { swap_id, body }),
            Params::Bob(body) => Reveal::BobParameters(Sealed { swap_id, body }),
        }
    }

    /// Wraps parameters up to be revealed in a swap.
    pub fn carry(swap_id: SwapId, params: &Params) -> (r: Reveal)
        ensures
            r == Reveal::carrying(swap_id, *params),
    {
        match params {
            Params::Alice(body) => Reveal::AliceParameters(Sealed { swap_id, body: body.clone() }),
            Params::Bob(body) => Reveal::BobParameters(Sealed { swap_id, body: body.clone() }),
        }
    }
}

/// Whether a commitment is the one to some parameters in a swap.
pub open spec fn commits_to(commit: Commit, swap_id: SwapId, params: Params) -> bool {
    match (commit, params) {
        (Commit::AliceParameters(s), Params::Alice(body)) => s.swap_id == swap_id
            && alice_commitment(wire_form(swap_id.0@, body@)) == Some(s.body@),
        (Commit::BobParameters(s), Params::Bob(body)) => s.swap_id == swap_id && bob_commitment(
            wire_form(swap_id.0@, body@),
        ) == Some(s.body@),
        _ => false,
    }
}

/// Whether parameters can be committed to in a swap.
pub open spec fn committable(swap_id: SwapId, params: Params) -> bool {
    match params {
        Params::Alice(body) => alice_commitment(wire_form(swap_id.0@, body@)) is Some,
        Params::Bob(body) => bob_commitment(wire_form(swap_id.0@, body@)) is Some,
    }
}

/// Whether a reveal opens a commitment.
pub open spec fn opens(commit: Commit, reveal: Reveal) -> bool {
    match (commit, reveal) {
        (Commit::AliceParameters(c), Reveal::AliceParameters(r)) => alice_opens(
            c.encoding(),
            r.encoding(),
        ),
        (Commit::BobParameters(c), Reveal::BobParameters(r)) => bob_opens(
            c.encoding(),
            r.encoding(),
        ),
        _ => false,
    }
}

/// Whether parameters name every key of a list by a tag of its own.
pub open spec fn well_tagged(swap_id: SwapId, params: Params) -> bool {
    match params {
        Params::Alice(body) => tags_once(alice_tags(wire_form(swap_id.0@, body@))),
        Params::Bob(body) => tags_once(bob_tags(wire_form(swap_id.0@, body@))),
    }
}

fn has_no_twin(tags: &Vec<u16>) -> (r: bool)
    ensures
        r == tags@.no_duplicates(),
{
    let mut i: usize = 0;
    while i < tags.len()
        invariant
            i <= tags.len(),
            forall|a: int, b: int| 0 <= a < b < i ==> tags@[a] != tags@[b],
        decreases tags.len() - i,
    {
        let mut j: usize = 0;
        while j < i
            invariant
                j <= i < tags.len(),
                forall|a: int| 0 <= a < j ==> tags@[a] != tags@[i as int],
            decreases i - j,
        {
            if tags[j] == tags[i] {
                assert(tags@[j as int] == tags@[i as int]);
                return false;
            }
            j = j + 1;
        }
        i = i + 1;
    }
    assert(tags@.no_duplicates());
    true
}

/// Checks that parameters name every key of a list by a tag of its own; bytes that are
/// no parameters do not.
pub fn is_well_tagged(swap_id: SwapId, params: &Params) -> (r: bool)
    ensures
        r == well_tagged(swap_id, *params),
{
    let tags = match params {
        Params::Alice(body) => read_alice_tags(&wire(swap_id, body)),
        Params::Bob(body) => read_bob_tags(&wire(swap_id, body)),
    };
    match tags {
        Some((a, b, c, d)) => has_no_twin(&a) && has_no_twin(&b) && has_no_twin(&c) && has_no_twin(
            &d,
        ),
        None => false,
    }
}

/// Commits to parameters; gives nothing where the bytes are no parameters. What is
/// committed to opens the commitment when it is revealed in the same swap, if it is
/// well tagged.
pub fn commit_to(swap_id: SwapId, params: &Params) -> (r: Option<Commit>)
    ensures
        match r {
            Some(c) => {
                &&& commits_to(c, swap_id, *params)
                &&& c.swap_id() == swap_id
                &&& well_tagged(swap_id, *params) ==> opens(c, Reveal::carrying(swap_id, *params))
            },
            None => !committable(swap_id, *params),
        },
{
    proof {
        let body = match params {
            Params::Alice(body) => body@,
            Params::Bob(body) => body@,
        };
        assert(wire_form(swap_id.0@, body).take(32) =~= swap_id.0@);
    }
    match params {
        Params::Alice(body) => match commit_alice(&wire(swap_id, body)) {
            Some(c) => Some(Commit::AliceParameters(Sealed { swap_id, body: Blob::new(c) })),
            None => None,
        },
        Params::Bob(body) => match commit_bob(&wire(swap_id, body)) {
            Some(c) => Some(Commit::BobParameters(Sealed { swap_id, body: Blob::new(c) })),
            None => None,
        },
    }
}

/// What becomes of a reveal held against the counterparty's commitment.
pub open spec fn spec_validate_reveal(reveal: Reveal, commit: Commit) -> Result<Params, Error> {
    match reveal {
        Reveal::AliceParameters(r) => match commit {
            Commit::AliceParameters(c) => if alice_opens(c.encoding(), r.encoding()) {
                Ok(Params::Alice(r.body))
            } else {
                Err(Error::CommitmentMismatch)
            },
            _ => Err(Error::ExpectedAliceCommit),
        },
        Reveal::BobParameters(r) => match commit {
            Commit::BobParameters(c) => if bob_opens(c.encoding(), r.encoding()) {
                Ok(Params::Bob(r.body))
            } else {
                Err(Error::CommitmentMismatch)
            },
            _ => Err(Error::ExpectedBobCommit),
        },
        Reveal::Proof(_) => Err(Error::ProofIsNotParameters),
    }
}

/// Takes the counterparty's parameters out of a reveal that opens the commitment
/// they made before.
pub fn validate_reveal(reveal: &Reveal, remote_commit: &Commit) -> (r: Result<Params, Error>)
    ensures
        r == spec_validate_reveal(*reveal, *remote_commit),
{
    match reveal {
        Reveal::AliceParameters(r) => match remote_commit {
            Commit::AliceParameters(c) => if verify_alice(&c.wire(), &r.wire()) {
                Ok(Params::Alice(r.body.clone()))
            } else {
                Err(Error::CommitmentMismatch)
            },
            _ => Err(Error::ExpectedAliceCommit),
        },
        Reveal::BobParameters(r) => match remote_commit {
            Commit::BobParameters(c) => if verify_bob(&c.wire(), &r.wire()) {
                Ok(Params::Bob(r.body.clone()))
            } else {
                Err(Error::CommitmentMismatch)
            },
            _ => Err(Error::ExpectedBobCommit),
        },
        Reveal::Proof(_) => Err(Error::ProofIsNotParameters),
    }
}

/// A party that reveals what it committed to is believed: the counterparty takes
/// exactly those parameters out of the reveal.
pub proof fn law_own_reveal_accepted(commit: Commit, swap_id: SwapId, params: Params)
    requires
        opens(commit, Reveal::carrying(swap_id, params)),
    ensures
        spec_validate_reveal(Reveal::carrying(swap_id, params), commit) == Ok::<Params, Error>(
            params,
        ),
{
}

/// A reveal is believed if and only if it opens a commitment of the same party, byte for
/// byte under the swaps that the two name; what is believed are the parameters that it
/// carries. A commitment of the other party, a mismatch and a proof each have an error
/// of their own.
pub proof fn law_reveal_believed(reveal: Reveal, commit: Commit)
    ensures
        reveal matches Reveal::AliceParameters(r) ==> (spec_validate_reveal(reveal, commit)
            == match commit {
            Commit::AliceParameters(c) => if alice_opens(
                c.swap_id.0@ + c.body@,
                r.swap_id.0@ + r.body@,
            ) {
                Ok::<Params, Error>(Params::Alice(r.body))
            } else {
                Err(Error::CommitmentMismatch)
            },
            Commit::BobParameters(_) => Err(Error::ExpectedAliceCommit),
        }),
        reveal matches Reveal::BobParameters(r) ==> (spec_validate_reveal(reveal, commit)
            == match commit {
            Commit::BobParameters(c) => if bob_opens(
                c.swap_id.0@ + c.body@,
                r.swap_id.0@ + r.body@,
            ) {
                Ok::<Params, Error>(Params::Bob(r.body))
            } else {
                Err(Error::CommitmentMismatch)
            },
            Commit::AliceParameters(_) => Err(Error::ExpectedBobCommit),
        }),
        reveal is Proof ==> spec_validate_reveal(reveal, commit) == Err::<Params, Error>(
            Error::ProofIsNotParameters,
        ),
        spec_validate_reveal(reveal, commit) is Ok <==> opens(commit, reveal),
{
}

/// A commitment to parameters is farcaster_core's commitment to the bytes of the swap
/// and of the parameters, and stands under the same swap and the same party; parameters
/// can be committed to exactly where there is one.
pub proof fn law_commitment_binds(commit: Commit, swap_id: SwapId, alice: Blob, bob: Blob)
    ensures
        commits_to(commit, swap_id, Params::Alice(alice)) <==> (commit matches Commit::AliceParameters(
            c,
        ) && c.swap_id == swap_id && alice_commitment(swap_id.0@ + alice@) == Some(c.body@)),
        commits_to(commit, swap_id, Params::Bob(bob)) <==> (commit matches Commit::BobParameters(c)
            && c.swap_id == swap_id && bob_commitment(swap_id.0@ + bob@) == Some(c.body@)),
        committable(swap_id, Params::Alice(alice)) <==> alice_commitment(swap_id.0@ + alice@) is Some,
        committable(swap_id, Params::Bob(bob)) <==> bob_commitment(swap_id.0@ + bob@) is Some,
{
}

/// The first shared key under the view key's tag.
pub open spec fn view_key_among(keys: Seq<(u16, [u8; 32])>) -> Option<[u8; 32]>
    decreases keys.len(),
{
    if keys.len() == 0 {
        None
    } else if keys[0].0 == SHARED_VIEW_KEY_ID {
        Some(keys[0].1)
    } else {
        view_key_among(keys.drop_first())
    }
}

/// Finds the shared private view key.
pub fn find_view_key(keys: &Vec<(u16, [u8; 32])>) -> (r: Option<[u8; 32]>)
    ensures
        r == view_key_among(keys@),
{
    let mut i: usize = 0;
    assert(keys@.skip(0) =~= keys@);
    while i < keys.len()
        invariant
            i <= keys.len(),
            view_key_among(keys@) == view_key_among(keys@.skip(i as int)),
        decreases keys.len() - i,
    {
        assert(keys@.skip(i as int)[0] == keys@[i as int]);
        if keys[i].0 == SHARED_VIEW_KEY_ID {
            return Some(keys[i].1);
        }
        assert(keys@.skip(i as int).drop_first() =~= keys@.skip(i as int + 1));
        i = i + 1;
    }
    assert(keys@.skip(keys@.len() as int).len() == 0);
    None
}

/// The public spend key and the private view key of the address that two sets of
/// accordant keys share: the sums of the parties' spend keys and view keys.
pub open spec fn shared_viewpair(
    alice: (Seq<u8>, Seq<(u16, [u8; 32])>),
    bob: (Seq<u8>, Seq<(u16, [u8; 32])>),
) -> Option<(Seq<u8>, Seq<u8>)> {
    match (view_key_among(alice.1), view_key_among(bob.1)) {
        (Some(a), Some(b)) => match (public_key_sum(alice.0, bob.0), private_key_sum(a@, b@)) {
            (Some(spend), Some(view)) => Some((spend, view)),
            _ => None,
        },
        _ => None,
    }
}

/// Adds up the two parties' accordant keys.
pub fn share_viewpair(
    alice: &([u8; 32], Vec<(u16, [u8; 32])>),
    bob: &([u8; 32], Vec<(u16, [u8; 32])>),
) -> (r: Option<([u8; 32], [u8; 32])>)
    ensures
        match r {
            Some(k) => shared_viewpair((alice.0@, alice.1@), (bob.0@, bob.1@)) == Some(
                (k.0@, k.1@),
            ),
            None => shared_viewpair((alice.0@, alice.1@), (bob.0@, bob.1@)) is None,
        },
{
    match (find_view_key(&alice.1), find_view_key(&bob.1)) {
        (Some(a), Some(b)) => match (
            add_public_keys(&alice.0, &bob.0),
            add_private_keys(&a, &b),
        ) {
            (Some(spend), Some(view)) => Some((spend, view)),
            _ => None,
        },
        _ => None,
    }
}

/// The keys of the monero address that two parties' parameters share.
pub open spec fn spec_aggregate(swap_id: SwapId, alice: Blob, bob: Blob) -> Option<
    (Seq<u8>, Seq<u8>),
> {
    match (
        alice_accordant_keys(wire_form(swap_id.0@, alice@)),
        bob_accordant_keys(wire_form(swap_id.0@, bob@)),
    ) {
        (Some(a), Some(b)) => shared_viewpair(a, b),
        _ => None,
    }
}

/// Whether two keys are those of the monero address that the parameters share.
pub open spec fn aggregates(
    keys: Option<([u8; 32], [u8; 32])>,
    swap_id: SwapId,
    alice: Blob,
    bob: Blob,
) -> bool {
    match keys {
        Some(k) => spec_aggregate(swap_id, alice, bob) == Some((k.0@, k.1@)),
        None => spec_aggregate(swap_id, alice, bob) is None,
    }
}

/// Works out the public spend key and the private view key of the monero address
/// that Alice's and Bob's parameters share; gives nothing where parameters are
/// malformed or one party shares no view key.
pub fn aggregate_xmr_spend_view(swap_id: SwapId, alice_params: &Blob, bob_params: &Blob) -> (r:
    Option<([u8; 32], [u8; 32])>)
    ensures
        aggregates(r, swap_id, *alice_params, *bob_params),
{
    match (
        read_alice_keys(&wire(swap_id, alice_params)),
        read_bob_keys(&wire(swap_id, bob_params)),
    ) {
        (Some(a), Some(b)) => share_viewpair(&a, &b),
        _ => None,
    }
}

/// Whether no two numbers of a list are the same.
pub open spec fn all_differ(tags: Seq<u16>) -> bool {
    forall|i: int, j: int| 0 <= i < j < tags.len() ==> tags[i] != tags[j]
}

/// Parameters are well tagged exactly where they can be read and in each of their four
/// lists of keys all tags differ.
pub proof fn law_well_tagged(swap_id: SwapId, alice: Blob, bob: Blob)
    ensures
        well_tagged(swap_id, Params::Alice(alice)) <==> (alice_tags(swap_id.0@ + alice@) matches Some(
            (a, b, c, d),
        ) && all_differ(a) && all_differ(b) && all_differ(c) && all_differ(d)),
        well_tagged(swap_id, Params::Bob(bob)) <==> (bob_tags(swap_id.0@ + bob@) matches Some(
            (a, b, c, d),
        ) && all_differ(a) && all_differ(b) && all_differ(c) && all_differ(d)),
{
    if let Some((a, b, c, d)) = alice_tags(swap_id.0@ + alice@) {
        lemma_all_differ(a);
        lemma_all_differ(b);
        lemma_all_differ(c);
        lemma_all_differ(d);
    }
    if let Some((a, b, c, d)) = bob_tags(swap_id.0@ + bob@) {
        lemma_all_differ(a);
        lemma_all_differ(b);
        lemma_all_differ(c);
        lemma_all_differ(d);
    }
}

proof fn lemma_all_differ(tags: Seq<u16>)
    ensures
        all_differ(tags) <==> tags.no_duplicates(),
{
}

/// Whether a key is the first under a tag in a list.
pub open spec fn first_under(keys: Seq<(u16, [u8; 32])>, tag: u16, i: int) -> bool {
    &&& 0 <= i < keys.len()
    &&& keys[i].0 == tag
    &&& forall|j: int| 0 <= j < i ==> (#[trigger] keys[j]).0 != tag
}

/// The shared view key is the first key under the tag 1, and there is none exactly where
/// no key has that tag.
pub proof fn law_view_key_is_first(keys: Seq<(u16, [u8; 32])>, i: int)
    ensures
        first_under(keys, 1, i) ==> view_key_among(keys) == Some(keys[i].1),
        view_key_among(keys) is None <==> (forall|j: int|
            0 <= j < keys.len() ==> (#[trigger] keys[j]).0 != 1),
    decreases keys.len(),
{
    if keys.len() > 0 {
        let rest = keys.drop_first();
        assert(forall|j: int| 0 <= j < rest.len() ==> (#[trigger] rest[j]) == keys[j + 1]);
        assert(forall|j: int| 1 <= j < keys.len() ==> (#[trigger] keys[j]) == rest[j - 1]);
        law_view_key_is_first(rest, i - 1);
        if first_under(keys, 1, i) && i > 0 {
            assert(keys[0].0 != 1);
            assert(first_under(rest, 1, i - 1));
        }
    }
}

/// The keys of the shared monero address are the sums of the two parties': of their
/// public spend keys, and of the first of each party's shared keys under the tag 1.
/// They exist exactly where both parties' parameters can be read, each shares such a
/// key, and both sums exist.
pub proof fn law_shared_keys_are_sums(
    swap_id: SwapId,
    alice: Blob,
    bob: Blob,
    a: (Seq<u8>, Seq<(u16, [u8; 32])>),
    b: (Seq<u8>, Seq<(u16, [u8; 32])>),
    i: int,
    j: int,
)
    requires
        alice_accordant_keys(swap_id.0@ + alice@) == Some(a),
        bob_accordant_keys(swap_id.0@ + bob@) == Some(b),
        first_under(a.1, 1, i),
        first_under(b.1, 1, j),
    ensures
        spec_aggregate(swap_id, alice, bob) == match (
            public_key_sum(a.0, b.0),
            private_key_sum(a.1[i].1@, b.1[j].1@),
        ) {
            (Some(spend), Some(view)) => Some((spend, view)),
            _ => None,
        },
{
    law_view_key_is_first(a.1, i);
    law_view_key_is_first(b.1, j);
}

/// There are no shared keys where a party's parameters cannot be read or share no key
/// under the tag 1.
pub proof fn law_no_shared_keys(swap_id: SwapId, alice: Blob, bob: Blob)
    requires
        alice_accordant_keys(swap_id.0@ + alice@) matches Some(a) ==> (forall|j: int|
            0 <= j < a.1.len() ==> (#[trigger] a.1[j]).0 != 1) || (bob_accordant_keys(
            swap_id.0@ + bob@,
        ) matches Some(b) ==> (forall|j: int| 0 <= j < b.1.len() ==> (#[trigger] b.1[j]).0 != 1)),
    ensures
        spec_aggregate(swap_id, alice, bob) is None,
{
    if let Some(a) = alice_accordant_keys(swap_id.0@ + alice@) {
        law_view_key_is_first(a.1, 0);
    }
    if let Some(b) = bob_accordant_keys(swap_id.0@ + bob@) {
        law_view_key_is_first(b.1, 0);
    }
}

/// Two keys are those of the shared address exactly where they are the sums.
pub proof fn law_aggregate_is_shared(
    keys: Option<([u8; 32], [u8; 32])>,
    swap_id: SwapId,
    alice: Blob,
    bob: Blob,
)
    ensures
        aggregates(keys, swap_id, alice, bob) <==> match (
            keys,
            spec_aggregate(swap_id, alice, bob),
        ) {
            (Some((spend, view)), Some((s, v))) => spend@ == s && view@ == v,
            (None, None) => true,
            _ => false,
        },
{
}

/// The two parties of a swap arrive at the same monero address, and so watch the same
/// coins: the parameters fix its keys.
pub proof fn law_shared_keys_agree(
    a: Option<([u8; 32], [u8; 32])>,
    b: Option<([u8; 32], [u8; 32])>,
    swap_id: SwapId,
    alice: Blob,
    bob: Blob,
)
    requires
        aggregates(a, swap_id, alice, bob),
        aggregates(b, swap_id, alice, bob),
    ensures
        a == b,
{
    if let (Some(k), Some(l)) = (a, b) {
        assert(k.0 =~= l.0);
        assert(k.1 =~= l.1);
    }
}

/// A monero address in its byte form.
#[derive(Clone, Copy, Debug, PartialEq, Eq)]
pub struct MoneroAddress(pub [u8; 69]);

/// The address at which the accordant coins of a swap are locked.
pub fn lock_address(network: Network, spend: &[u8; 32], view: &[u8; 32]) -> (r: Option<
    MoneroAddress,
>)
    ensures
        match r {
            Some(a) => viewpair_address(network, spend@, view@) == Some(a.0@),
            None => viewpair_address(network, spend@, view@) is None,
        },
{
    match address_of_viewpair(network, spend, view) {
        Some(a) => Some(MoneroAddress(a)),
        None => None,
    }
}

} // verus!
