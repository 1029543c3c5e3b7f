//! Bitcoin transactions, partially signed transactions and addresses, as far as
//! the swap logic reads them.
use std::str::FromStr;
use vstd::prelude::*;

use crate::base::Txid;
use crate::blob::Blob;

verus! {

/// What `bitcoin::consensus::deserialize_partial` finds at the front of some bytes
/// as a `bitcoin::Transaction`: its consensus encoding, its identifier and the
/// number of bytes read, or nothing.
pub uninterp spec fn leading_transaction(bytes: Seq<u8>) -> Option<(Seq<u8>, Seq<u8>, nat)>;

/// Reads a transaction off the front of the bytes with
/// `bitcoin::consensus::deserialize_partial`, writes it out again with
/// `bitcoin::consensus::serialize` and takes its `txid`. The contract claims that
/// the outcome is a function of the bytes, that no more is read than is there, and
/// that what was written out reads back as the same transaction, whatever follows
/// it.
#[verifier::external_body]
fn parse_transaction(bytes: &[u8]) -> (r: Option<(Vec<u8>, [u8; 32], usize)>)
    ensures
        match r {
            Some(t) => {
                &&& leading_transaction(bytes@) == Some((t.0@, t.1@, t.2 as nat))
                &&& t.2 <= bytes@.len()
                &&& readable(t.0@, t.1@)
            },
            None => leading_transaction(bytes@) is None,
        },
{
    let (tx, read): (bitcoin::Transaction, usize) =
        bitcoin::consensus::encode::deserialize_partial(bytes).ok()?;
    let id = bitcoin::hashes::Hash::into_inner(tx.txid());
    Some((bitcoin::consensus::serialize(&tx), id, read))
}

/// An encoding that is read back in full, with its identifier, whatever follows it.
pub open spec fn readable(encoding: Seq<u8>, id: Seq<u8>) -> bool {
    forall|rest: Seq<u8>|
        leading_transaction(#[trigger] (encoding + rest)) == Some((encoding, id, encoding.len()))
}

/// The transaction that some bytes are the encoding of, with nothing behind it: its
/// consensus encoding and its identifier.
pub open spec fn parsed_transaction(bytes: Seq<u8>) -> Option<(Seq<u8>, Seq<u8>)> {
    match leading_transaction(bytes) {
        Some(t) => if t.2 == bytes.len() {
            Some((t.0, t.1))
        } else {
            None
        },
        None => None,
    }
}

/// What `bitcoin::consensus::deserialize` makes of some bytes as a
/// `PartiallySignedTransaction`: the identifier of the transaction that
/// `extract_tx` takes from it, or nothing.
pub uninterp spec fn extracted_txid(bytes: Seq<u8>) -> Option<Seq<u8>>;

/// Reads a partially signed transaction with `bitcoin::consensus::deserialize` and
/// takes the `txid` of its `extract_tx`. The contract claims that the outcome is a
/// function of the bytes.
#[verifier::external_body]
fn extract_txid(bytes: &Vec<u8>) -> (r: Option<[u8; 32]>)
    ensures
        match r {
            Some(id) => extracted_txid(bytes@) == Some(id@),
            None => extracted_txid(bytes@) is None,
        },
{
    let psbt: bitcoin::util::psbt::PartiallySignedTransaction =
        bitcoin::consensus::deserialize(bytes).ok()?;
    Some(bitcoin::hashes::Hash::into_inner(psbt.extract_tx().txid()))
}

/// The script that `bitcoin::Address::from_str` and `script_pubkey` give for an
/// address in its text form, or nothing where the text is no address.
pub uninterp spec fn script_of(text: Seq<char>) -> Option<Seq<u8>>;

/// Reads an address with `bitcoin::Address::from_str` and takes its
/// `script_pubkey`. The contract claims that the outcome is a function of the text.
#[verifier::external_body]
fn address_script(text: &String) -> (r: Option<Vec<u8>>)
    ensures
        match r {
            Some(script) => script_of(text@) == Some(script@),
            None => script_of(text@) is None,
        },
{
    Some(bitcoin::Address::from_str(text).ok()?.script_pubkey().into_bytes())
}

/// A bitcoin transaction: its consensus encoding and its identifier.
#[derive(Debug, PartialEq, Eq)]
pub struct Transaction {
    raw: Blob,
    id: Txid,
}

impl Transaction {
    #[verifier::type_invariant]
    closed spec fn inv(&self) -> bool {
        readable(self.raw@, self.id.0@)
    }

    /// The consensus encoding.
    pub closed spec fn encoding(self) -> Blob {
        self.raw
    }

    /// The identifier.
    pub closed spec fn id(self) -> Txid {
        self.id
    }

    /// Reads a transaction; gives nothing where the bytes are none.
    pub fn decode(bytes: &Vec<u8>) -> (r: Option<Transaction>)
        ensures
            match r {
                Some(tx) => parsed_transaction(bytes@) == Some((tx.encoding()@, tx.id().0@)),
                None => parsed_transaction(bytes@) is None,
            },
    {
        match parse_transaction(bytes.as_slice()) {
            Some((raw, id, read)) => {
                if read == bytes.len() {
                    Some(Transaction { raw: Blob::new(raw), id: Txid(id) })
                } else {
                    None
                }
            },
            None => None,
        }
    }

    /// Reads a transaction that starts at a position and says where it ends; gives
    /// nothing where none starts there.
    pub fn decode_at(bytes: &Vec<u8>, pos: usize) -> (r: Option<(Transaction, usize)>)
        requires
            pos <= bytes.len(),
        ensures
            match r {
                Some(t) => {
                    &&& pos <= t.1 <= bytes.len()
                    &&& leading_transaction(bytes@.skip(pos as int)) == Some(
                        (t.0.encoding()@, t.0.id().0@, (t.1 - pos) as nat),
                    )
                },
                None => leading_transaction(bytes@.skip(pos as int)) is None,
            },
    {
        let tail: &[u8] = vstd::slice::slice_subrange(bytes.as_slice(), pos, bytes.len());
        assert(tail@ =~= bytes@.skip(pos as int));
        match parse_transaction(tail) {
            Some((raw, id, read)) => Some(
                (Transaction { raw: Blob::new(raw), id: Txid(id) }, pos + read),
            ),
            None => None,
        }
    }

    pub fn txid(&self) -> (r: Txid)
        ensures
            r == self.id(),
    {
        self.id
    }

    /// The consensus encoding, which reads back as this transaction.
    pub fn raw(&self) -> (r: Blob)
        ensures
            r == self.encoding(),
            readable(r@, self.id().0@),
    {
        proof {
            use_type_invariant(self);
        }
        self.raw.clone()
    }
}

impl Clone for Transaction {
    fn clone(&self) -> (r: Self)
        ensures
            r == *self,
    {
        proof {
            use_type_invariant(self);
        }
        Transaction { raw: self.raw.clone(), id: self.id }
    }
}

/// A partially signed transaction: its encoding and the identifier of the
/// transaction that can be extracted from it.
#[derive(Debug, PartialEq, Eq)]
pub struct Psbt {
    raw: Blob,
    id: Txid,
}

impl Psbt {
    #[verifier::type_invariant]
    closed spec fn inv(&self) -> bool {
        extracted_txid(self.raw@) == Some(self.id.0@)
    }

    /// The encoding.
    pub closed spec fn encoding(self) -> Blob {
        self.raw
    }

    /// The identifier of the extracted transaction.
    pub closed spec fn id(self) -> Txid {
        self.id
    }

    /// Reads a partially signed transaction; gives nothing where the bytes are none.
    pub fn decode(raw: &Blob) -> (r: Option<Psbt>)
        ensures
            match r {
                Some(p) => p.encoding() == *raw && extracted_txid(raw@) == Some(p.id().0@),
                None => extracted_txid(raw@) is None,
            },
    {
        match extract_txid(raw.bytes()) {
            Some(id) => Some(Psbt { raw: raw.clone(), id: Txid(id) }),
            None => None,
        }
    }

    pub fn txid(&self) -> (r: Txid)
        ensures
            r == self.id(),
            extracted_txid(self.encoding()@) == Some(r.0@),
    {
        proof {
            use_type_invariant(self);
        }
        self.id
    }

    pub fn raw(&self) -> (r: Blob)
        ensures
            r == self.encoding(),
    {
        self.raw.clone()
    }
}

impl Clone for Psbt {
    fn clone(&self) -> (r: Self)
        ensures
            r == *self,
    {
        proof {
            use_type_invariant(self);
        }
        Psbt { raw: self.raw.clone(), id: self.id }
    }
}

/// A bitcoin address: its text form and the script that pays to it.
#[derive(Debug, PartialEq, Eq)]
pub struct BitcoinAddress {
    text: String,
    script: Blob,
}

impl BitcoinAddress {
    #[verifier::type_invariant]
    closed spec fn inv(&self) -> bool {
        script_of(self.text@) == Some(self.script@)
    }

    /// The text form.
    pub closed spec fn shown(self) -> Seq<char> {
        self.text@
    }

    /// The script that pays to the address.
    pub closed spec fn script(self) -> Blob {
        self.script
    }

    /// Reads an address; gives nothing where the text is none.
    pub fn parse(text: &String) -> (r: Option<BitcoinAddress>)
        ensures
            match r {
                Some(a) => a.shown() == text@ && script_of(text@) == Some(a.script()@),
                None => script_of(text@) is None,
            },
    {
        match address_script(text) {
            Some(script) => Some(BitcoinAddress { text: text.clone(), script: Blob::new(script) }),
            None => None,
        }
    }

    pub fn text(&self) -> (r: &String)
        ensures
            r@ == self.shown(),
    {
        &self.text
    }

    pub fn script_pubkey(&self) -> (r: Blob)
        ensures
            r == self.script(),
            script_of(self.shown()) == Some(r@),
    {
        proof {
            use_type_invariant(self);
        }
        self.script.clone()
    }
}

impl Clone for BitcoinAddress {
    fn clone(&self) -> (r: Self)
        ensures
            r == *self,
    {
        proof {
            use_type_invariant(self);
        }
        BitcoinAddress { text: self.text.clone(), script: self.script.clone() }
    }
}

/// Bytes are a transaction exactly where one stands at their front and nothing behind it.
pub proof fn law_parsed_in_full(bytes: Seq<u8>, encoding: Seq<u8>, id: Seq<u8>)
    ensures
        parsed_transaction(bytes) == Some((encoding, id)) <==> leading_transaction(bytes) == Some(
            (encoding, id, bytes.len()),
        ),
{
}

} // verus!
