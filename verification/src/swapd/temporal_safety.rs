//! The block counts that keep the transactions of a swap out of each other's way.
use vstd::prelude::*;

use crate::base::{Blockchain, Error};

verus! {

/// Timelocks and thresholds of a swap, in blocks.
#[derive(Clone, Copy, Debug, PartialEq, Eq, Structural)]
pub struct TemporalSafety {
    /// Age of the lock transaction at which it can be cancelled.
    pub cancel_timelock: u32,
    /// Age of the cancel transaction at which Bob can be punished.
    pub punish_timelock: u32,
    /// Depth at which a bitcoin transaction is final.
    pub btc_finality_thr: u32,
    /// Blocks that a transaction needs to be safe from a race.
    pub race_thr: u32,
    /// Depth at which a monero transaction is final.
    pub xmr_finality_thr: u32,
    /// Depth at which monero can be spent.
    pub sweep_monero_thr: u32,
}

impl TemporalSafety {
    /// The thresholds leave room for every step: a final lock can be raced neither
    /// by the cancel nor, after it, by the punish transaction.
    pub open spec fn ordered(self) -> bool {
        &&& self.btc_finality_thr < self.cancel_timelock
        &&& self.cancel_timelock < self.punish_timelock
        &&& self.xmr_finality_thr < self.punish_timelock
        &&& self.btc_finality_thr < self.race_thr
        &&& self.race_thr < self.cancel_timelock
        &&& self.race_thr < self.punish_timelock
    }

    /// Refuses thresholds that leave no room for a safe swap.
    pub fn valid_params(&self) -> (r: Result<(), Error>)
        ensures
            r == (if self.ordered() {
                Ok::<(), Error>(())
            } else {
                Err(Error::UnsafeTimelocks)
            }),
    {
        if self.btc_finality_thr < self.cancel_timelock && self.cancel_timelock
            < self.punish_timelock && self.xmr_finality_thr < self.punish_timelock
            && self.btc_finality_thr < self.race_thr && self.race_thr < self.cancel_timelock
            && self.race_thr < self.punish_timelock {
            Ok(())
        } else {
            Err(Error::UnsafeTimelocks)
        }
    }

    /// Whether a transaction is too deep to be reorganised away.
    #[verifier::allow_in_spec]
    pub fn final_tx(&self, confirmations: u32, blockchain: Blockchain) -> bool
        returns
            match blockchain {
                Blockchain::Bitcoin => self.btc_finality_thr <= confirmations,
                Blockchain::Monero => self.xmr_finality_thr <= confirmations,
            },
    {
        match blockchain {
            Blockchain::Bitcoin => confirmations >= self.btc_finality_thr,
            Blockchain::Monero => confirmations >= self.xmr_finality_thr,
        }
    }

    /// The lock is final, and so old that cancelling is about to become possible.
    pub open spec fn spec_stop_funding_before_cancel(&self, lock_confirmations: u32) -> bool {
        self.final_tx(lock_confirmations, Blockchain::Bitcoin) && self.cancel_timelock
            - self.race_thr < lock_confirmations
    }

    #[verifier::when_used_as_spec(spec_stop_funding_before_cancel)]
    pub fn stop_funding_before_cancel(&self, lock_confirmations: u32) -> (r: bool)
        ensures
            r == self.spec_stop_funding_before_cancel(lock_confirmations),
    {
        self.final_tx(lock_confirmations, Blockchain::Bitcoin) && lock_confirmations as u64
            + self.race_thr as u64 > self.cancel_timelock as u64
    }

    /// The lock is final, and a buy published now cannot be raced by a cancel.
    pub open spec fn spec_safe_buy(&self, lock_confirmations: u32) -> bool {
        self.final_tx(lock_confirmations, Blockchain::Bitcoin) && lock_confirmations
            <= self.cancel_timelock - self.race_thr
    }

    #[verifier::when_used_as_spec(spec_safe_buy)]
    pub fn safe_buy(&self, lock_confirmations: u32) -> (r: bool)
        ensures
            r == self.spec_safe_buy(lock_confirmations),
    {
        self.final_tx(lock_confirmations, Blockchain::Bitcoin) && lock_confirmations as u64
            + self.race_thr as u64 <= self.cancel_timelock as u64
    }

    /// The lock is final and old enough to be cancelled.
    #[verifier::allow_in_spec]
    pub fn valid_cancel(&self, lock_confirmations: u32) -> bool
        returns
            self.final_tx(lock_confirmations, Blockchain::Bitcoin) && self.cancel_timelock
                <= lock_confirmations,
    {
        self.final_tx(lock_confirmations, Blockchain::Bitcoin) && lock_confirmations
            >= self.cancel_timelock
    }

    /// The cancel is final, and a refund published now cannot be raced by a punish.
    pub open spec fn spec_safe_refund(&self, cancel_confirmations: u32) -> bool {
        self.final_tx(cancel_confirmations, Blockchain::Bitcoin) && cancel_confirmations
            <= self.punish_timelock - self.race_thr
    }

    #[verifier::when_used_as_spec(spec_safe_refund)]
    pub fn safe_refund(&self, cancel_confirmations: u32) -> (r: bool)
        ensures
            r == self.spec_safe_refund(cancel_confirmations),
    {
        self.final_tx(cancel_confirmations, Blockchain::Bitcoin) && cancel_confirmations as u64
            + self.race_thr as u64 <= self.punish_timelock as u64
    }

    /// The cancel is final and old enough for Bob to be punished.
    #[verifier::allow_in_spec]
    pub fn valid_punish(&self, cancel_confirmations: u32) -> bool
        returns
            self.final_tx(cancel_confirmations, Blockchain::Bitcoin) && self.punish_timelock
                <= cancel_confirmations,
    {
        self.final_tx(cancel_confirmations, Blockchain::Bitcoin) && cancel_confirmations
            >= self.punish_timelock
    }
}

/// At no depth of the lock transaction are buying and cancelling both in order, and
/// at no depth of the cancel transaction are refunding and punishing.
pub proof fn law_no_race(safety: TemporalSafety, confirmations: u32)
    requires
        safety.ordered(),
    ensures
        !(safety.safe_buy(confirmations) && safety.valid_cancel(confirmations)),
        !(safety.safe_refund(confirmations) && safety.valid_punish(confirmations)),
        safety.valid_cancel(confirmations) ==> safety.stop_funding_before_cancel(confirmations),
        safety.final_tx(confirmations, Blockchain::Bitcoin) ==> (safety.safe_buy(confirmations)
            <==> !safety.stop_funding_before_cancel(confirmations)),
{
}

} // verus!
