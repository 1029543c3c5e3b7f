//! What a swap asks of its wallet and what the wallet answers.
use vstd::prelude::*;

use crate::base::SwapId;
use crate::blob::Blob;
use crate::chain::{BitcoinAddress, Transaction};
use crate::crypto::{Commit, Params, Reveal, Sealed};
use crate::message::{
    BuyProcedureSignature, CoreArbitratingSetup, SweepBitcoinAddress, SweepMoneroAddress, Tx,
};
use crate::offer::PublicOffer;

verus! {

/// A wallet for one swap, in a form that only the wallet itself reads.
#[derive(Debug, PartialEq, Eq)]
pub struct Wallet(pub Blob);

impl Clone for Wallet {
    fn clone(&self) -> (r: Self)
        ensures
            r == *self,
    {
        Wallet(self.0.clone())
    }
}

/// A question to the wallet.
#[derive(Debug, PartialEq, Eq)]
pub enum WalletCall {
    /// Open a wallet for a swap that is taken up.
    NewTaker {
        public_offer: PublicOffer,
        target_bitcoin_address: BitcoinAddress,
        target_monero_address: String,
        key_manager: Blob,
        swap_id: SwapId,
    },
    /// Open a wallet for a swap that answers a taker's commitment.
    NewMaker {
        public_offer: PublicOffer,
        target_bitcoin_address: BitcoinAddress,
        target_monero_address: String,
        key_manager: Blob,
        swap_id: SwapId,
        commit: Commit,
    },
    /// The maker has committed.
    MakerCommit { wallet: Wallet, remote_commit: Commit, swap_id: SwapId },
    /// Alice has revealed her parameters and the bitcoin are funded.
    AliceReveals { wallet: Wallet, reveal_msg: Reveal, swap_id: SwapId },
    /// Bob has revealed his parameters.
    BobReveals { wallet: Wallet, reveal_msg: Reveal, swap_id: SwapId },
    /// The funding transaction was seen.
    FundingTx { wallet: Wallet, funding: Tx, swap_id: SwapId },
    CoreArbitratingSetup { wallet: Wallet, setup: CoreArbitratingSetup, swap_id: SwapId },
    RefundProcedureSignatures { wallet: Wallet, signatures: Sealed, swap_id: SwapId },
    BuyProcedureSignature { wallet: Wallet, signature: BuyProcedureSignature, swap_id: SwapId },
    /// The buy transaction was retrieved.
    BuyTx { wallet: Wallet, tx: Transaction, swap_id: SwapId, from_height: Option<u64> },
    /// The refund transaction was retrieved.
    RefundTx { wallet: Wallet, tx: Transaction, swap_id: SwapId, from_height: Option<u64> },
    /// The bitcoin funding shall go back.
    SweepBitcoin { wallet: Wallet, funding_address: BitcoinAddress, swap_id: SwapId },
}

/// An answer of the wallet. Most bring the wallet back as it has become.
#[derive(Debug, PartialEq, Eq)]
pub enum WalletReply {
    /// A wallet was opened; Bob's has an address to be funded.
    Opened { wallet: Wallet, local_params: Params, funding_address: Option<BitcoinAddress> },
    /// The local parameters can be revealed.
    Revealed { wallet: Wallet, reveal_msg: Reveal },
    /// The counterparty's parameters were taken in; a maker can reveal now.
    Informed { wallet: Wallet, maker_reveal: Option<Reveal> },
    /// The funding transaction was taken in.
    Funded { wallet: Wallet },
    /// Bob's transactions are ready; a maker can reveal now.
    SetUp { wallet: Wallet, maker_reveal: Option<Reveal>, core_arb_setup: CoreArbitratingSetup },
    /// Alice's signatures and transactions are ready.
    CoreArbSigned {
        wallet: Wallet,
        refund_procedure_signatures: Sealed,
        cancel_tx: Transaction,
        punish_tx: Transaction,
    },
    /// Bob's signature and transactions are ready.
    RefundSigned {
        wallet: Wallet,
        buy_procedure_signature: BuyProcedureSignature,
        lock_tx: Transaction,
        cancel_tx: Transaction,
        refund_tx: Transaction,
    },
    /// Alice can buy or cancel.
    BuySigned { wallet: Wallet, cancel_tx: Transaction, buy_tx: Transaction },
    /// The monero can be swept, from a height on.
    SweepMonero { xmr_keys: SweepMoneroAddress, from_height: Option<u64> },
    /// The bitcoin can be swept.
    SweepBitcoin { btc_keys: SweepBitcoinAddress },
}

} // verus!
