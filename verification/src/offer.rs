//! Offers and the terms they set for a swap.
use farcaster_core::blockchain as core_chain;
use farcaster_core::consensus;
use farcaster_core::role as core_role;
use farcaster_core::swap::btcxmr;
use vstd::prelude::*;

use crate::base::{Network, SwapRole};

verus! {

/// The terms of an offer, as far as a swap depends on them. Amounts count satoshis
/// and piconeros; timelocks count blocks.
#[derive(Clone, Copy, Debug, PartialEq, Eq, Structural)]
pub struct Offer {
    pub network: Network,
    pub arbitrating_amount: u64,
    pub accordant_amount: u64,
    pub cancel_timelock: u32,
    pub punish_timelock: u32,
    pub maker_role: SwapRole,
}

/// An offer together with the text under which it is published.
#[derive(Debug, PartialEq, Eq)]
pub struct PublicOffer {
    pub text: String,
    pub offer: Offer,
}

impl Clone for PublicOffer {
    fn clone(&self) -> (r: Self)
        ensures
            r == *self,
    {
        PublicOffer { text: self.text.clone(), offer: self.offer }
    }
}

/// The public offer that farcaster_core reads from some bytes, or nothing where they
/// are none: its text, its network, the maker's role, the arbitrating and the
/// accordant amount, the cancel and the punish timelock.
pub uninterp spec fn published_offer(bytes: Seq<u8>) -> Option<
    (Seq<char>, Network, SwapRole, (u64, u64), (u32, u32)),
>;

/// Reads a public offer with farcaster_core's `consensus::deserialize`, takes the
/// terms out of its `Offer`, the amounts with `as_sat` and `as_pico`, the timelocks
/// with `as_u32`, and its text from `to_string`. The contract claims that all of it
/// is a function of the bytes.
#[verifier::external_body]
fn read_offer(bytes: &Vec<u8>) -> (r: Option<(String, Network, SwapRole, (u64, u64), (u32, u32))>)
    ensures
        match r {
            Some(o) => published_offer(bytes@) == Some((o.0@, o.1, o.2, o.3, o.4)),
            None => published_offer(bytes@) is None,
        },
{
    let public: btcxmr::PublicOffer = consensus::deserialize(bytes).ok()?;
    let terms = &public.offer;
    let network = match terms.network {
        core_chain::Network::Mainnet => Network::Mainnet,
        core_chain::Network::Testnet => Network::Testnet,
        core_chain::Network::Local => Network::Local,
    };
    let maker_role = match terms.maker_role {
        core_role::SwapRole::Alice => SwapRole::Alice,
        core_role::SwapRole::Bob => SwapRole::Bob,
    };
    let amounts = (terms.arbitrating_amount.as_sat(), terms.accordant_amount.as_pico());
    let timelocks = (terms.cancel_timelock.as_u32(), terms.punish_timelock.as_u32());
    Some((public.to_string(), network, maker_role, amounts, timelocks))
}

impl PublicOffer {
    /// Reads a public offer from its consensus encoding; gives nothing where the
    /// bytes are none.
    pub fn decode(bytes: &Vec<u8>) -> (r: Option<PublicOffer>)
        ensures
            match r {
                Some(o) => published_offer(bytes@) == Some(
                    (
                        o.text@,
                        o.offer.network,
                        o.offer.maker_role,
                        (o.offer.arbitrating_amount, o.offer.accordant_amount),
                        (o.offer.cancel_timelock, o.offer.punish_timelock),
                    ),
                ),
                None => published_offer(bytes@) is None,
            },
    {
        match read_offer(bytes) {
            Some((text, network, maker_role, amounts, timelocks)) => {
                let offer = Offer {
                    network,
                    arbitrating_amount: amounts.0,
                    accordant_amount: amounts.1,
                    cancel_timelock: timelocks.0,
                    punish_timelock: timelocks.1,
                    maker_role,
                };
                Some(PublicOffer { text, offer })
            },
            None => None,
        }
    }
}

} // verus!
