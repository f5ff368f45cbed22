//! Chain data as plain values: hashes, block headers, blocks, transactions.
//!
//! What only the chain library can compute (hashing a header, identifying a
//! transaction, writing a hash or a set of service flags as text) is asked of
//! it through the small trusted functions of this module. Each of them takes
//! plain values and gives plain values back.

use vstd::prelude::*;
use crate::bytes::{lex_lt, precedes, same};
use crate::text::hex_reversed;

verus! {

/// A block hash: the double SHA-256 of a block header.
#[derive(Clone, Copy, Debug, PartialEq, Eq, PartialOrd, Ord, Hash)]
pub struct BlockHash {
    pub bytes: [u8; 32],
}

/// A transaction ID: the double SHA-256 of a transaction.
#[derive(Clone, Copy, Debug, PartialEq, Eq, PartialOrd, Ord, Hash)]
pub struct Txid {
    pub bytes: [u8; 32],
}

/// The services that a node offers, one bit each.
#[derive(Clone, Copy, Debug, PartialEq, Eq, Hash, Structural)]
pub struct ServiceFlags {
    pub bits: u64,
}

/// A block header.
#[derive(Clone, Copy, Debug, PartialEq, Eq, Hash)]
pub struct BlockHeader {
    /// The protocol version.
    pub version: i32,
    /// The hash of the previous block in the chain.
    pub prev_blockhash: BlockHash,
    /// The root hash of the merkle tree of the block's transactions.
    pub merkle_root: [u8; 32],
    /// The timestamp of the block, as claimed by the miner.
    pub time: u32,
    /// The target below which the block hash must lie, in compact form.
    pub bits: u32,
    /// The nonce, selected to obtain a low enough block hash.
    pub nonce: u32,
}

/// A transaction, held in its consensus encoding together with its ID.
#[derive(Debug, PartialEq, Eq, PartialOrd, Ord, Hash)]
pub struct Transaction {
    raw: Vec<u8>,
    txid: Txid,
}

/// A block: a header and the transactions it commits to.
#[derive(Clone, Debug, PartialEq, Eq)]
pub struct Block {
    /// The block header.
    pub header: BlockHeader,
    /// The transactions of the block.
    pub txdata: Vec<Transaction>,
}

/// A bloom filter to load to a peer. Carried, never looked into.
#[verifier::external_type_specification]
#[verifier::external_body]
pub struct ExFilterLoad(bitcoincash::network::message_bloom::FilterLoad);

/// A block header with a partial merkle tree. Carried, never looked into.
#[verifier::external_type_specification]
#[verifier::external_body]
pub struct ExMerkleBlock(bitcoincash::util::merkleblock::MerkleBlock);

/// A compact block filter. Carried, never looked into.
#[verifier::external_type_specification]
#[verifier::external_body]
pub struct ExBlockFilter(bitcoincash::util::bip158::BlockFilter);

/// A peer address as gossiped on the network. Carried, never looked into.
#[verifier::external_type_specification]
#[verifier::external_body]
pub struct ExAddress(bitcoincash::network::address::Address);

/// A list that holds at least one item. Carried, never looked into.
#[verifier::external_type_specification]
#[verifier::external_body]
#[verifier::reject_recursive_types(T)]
pub struct ExNonEmpty<T>(nonempty::NonEmpty<T>);

/// Copying a bloom filter. Nothing is claimed of the copy, which is only
/// carried.
pub assume_specification[ <bitcoincash::network::message_bloom::FilterLoad as Clone>::clone ](
    filter: &bitcoincash::network::message_bloom::FilterLoad,
) -> bitcoincash::network::message_bloom::FilterLoad
;

/// Copying a merkle block. Nothing is claimed of the copy, which is only
/// carried.
pub assume_specification[ <bitcoincash::util::merkleblock::MerkleBlock as Clone>::clone ](
    block: &bitcoincash::util::merkleblock::MerkleBlock,
) -> bitcoincash::util::merkleblock::MerkleBlock
;

/// Copying a block filter. Nothing is claimed of the copy, which is only
/// carried.
pub assume_specification[ <bitcoincash::util::bip158::BlockFilter as Clone>::clone ](
    filter: &bitcoincash::util::bip158::BlockFilter,
) -> bitcoincash::util::bip158::BlockFilter
;

/// Copying a gossiped address. Nothing is claimed of the copy, which is only
/// carried.
pub assume_specification[ <bitcoincash::network::address::Address as Clone>::clone ](
    address: &bitcoincash::network::address::Address,
) -> bitcoincash::network::address::Address
;

/// Copying a non-empty list. Nothing is claimed of the copy, which is only
/// carried.
pub assume_specification<T: Clone>[ <nonempty::NonEmpty<T> as Clone>::clone ](
    list: &nonempty::NonEmpty<T>,
) -> nonempty::NonEmpty<T>
;

/// The hash of the block header with these fields, as the chain library
/// computes it.
pub uninterp spec fn header_hash(
    version: i32,
    prev_blockhash: Seq<u8>,
    merkle_root: Seq<u8>,
    time: u32,
    bits: u32,
    nonce: u32,
) -> Seq<u8>;

/// The ID of the transaction with this consensus encoding, as the chain
/// library computes it; `None` where the bytes are not the encoding of a
/// transaction.
pub uninterp spec fn transaction_id(raw: Seq<u8>) -> Option<Seq<u8>>;

/// The text that the chain library writes for a set of service flags.
pub uninterp spec fn service_flags_text(bits: u64) -> Seq<char>;

/// Computes the hash of a block header.
///
/// Trusted: builds a `bitcoincash::BlockHeader` from the six fields and
/// calls its `block_hash`, which hashes the consensus encoding of those
/// fields and of nothing else. The contract only names the result.
#[verifier::external_body]
fn hash_header(header: &BlockHeader) -> (hash: BlockHash)
    ensures
        hash.bytes@ == header_hash(
            header.version,
            header.prev_blockhash.bytes@,
            header.merkle_root@,
            header.time,
            header.bits,
            header.nonce,
        ),
{
    let outside = bitcoincash::BlockHeader {
        version: header.version,
        prev_blockhash: bitcoin_hashes::Hash::from_inner(header.prev_blockhash.bytes),
        merkle_root: bitcoin_hashes::Hash::from_inner(header.merkle_root),
        time: header.time,
        bits: header.bits,
        nonce: header.nonce,
    };
    BlockHash { bytes: bitcoin_hashes::Hash::into_inner(outside.block_hash()) }
}

/// Decodes a transaction and computes its ID.
///
/// Trusted: `bitcoincash::consensus::deserialize` into a
/// `bitcoincash::Transaction`, which fails unless the bytes are exactly one
/// encoded transaction, then `Transaction::txid`. Both depend on the bytes
/// alone. The contract only names the result.
#[verifier::external_body]
fn decode_txid(raw: &Vec<u8>) -> (id: Option<Txid>)
    ensures
        match id {
            Some(txid) => transaction_id(raw@) == Some(txid.bytes@),
            None => transaction_id(raw@).is_none(),
        },
{
    match bitcoincash::consensus::deserialize::<bitcoincash::Transaction>(raw) {
        Ok(transaction) => Some(Txid { bytes: bitcoin_hashes::Hash::into_inner(transaction.txid()) }),
        Err(_) => None,
    }
}

/// Writes a block hash as text.
///
/// Trusted: `Display` of `bitcoincash::BlockHash`, which writes the 32 bytes
/// in lower-case hexadecimal, two digits each, last byte first.
#[verifier::external_body]
fn block_hash_display(bytes: &[u8; 32]) -> (s: String)
    ensures
        s@ == hex_reversed(bytes@),
{
    let hash: bitcoincash::BlockHash = bitcoin_hashes::Hash::from_inner(*bytes);
    format!("{}", hash)
}

/// Writes a block hash as debugging text.
///
/// Trusted: `Debug` of `bitcoincash::BlockHash`, which writes what its
/// `Display` writes: the 32 bytes in lower-case hexadecimal, two digits
/// each, last byte first.
#[verifier::external_body]
fn block_hash_debug(bytes: &[u8; 32]) -> (s: String)
    ensures
        s@ == hex_reversed(bytes@),
{
    let hash: bitcoincash::BlockHash = bitcoin_hashes::Hash::from_inner(*bytes);
    format!("{:?}", hash)
}

/// Writes a transaction ID as text.
///
/// Trusted: `Display` of `bitcoincash::Txid`, which writes the 32 bytes in
/// lower-case hexadecimal, two digits each, last byte first.
#[verifier::external_body]
fn txid_display(bytes: &[u8; 32]) -> (s: String)
    ensures
        s@ == hex_reversed(bytes@),
{
    let txid: bitcoincash::Txid = bitcoin_hashes::Hash::from_inner(*bytes);
    format!("{}", txid)
}

/// Writes a set of service flags as text.
///
/// Trusted: `Display` of `bitcoincash::network::constants::ServiceFlags`
/// made from the given bits. The contract only names the result.
#[verifier::external_body]
fn service_flags_display(bits: u64) -> (s: String)
    ensures
        s@ == service_flags_text(bits),
{
    format!("{}", bitcoincash::network::constants::ServiceFlags::from(bits))
}

impl ServiceFlags {
    /// The text of these flags.
    pub open spec fn text(self) -> Seq<char> {
        service_flags_text(self.bits)
    }

    /// These flags as text.
    pub fn to_string(&self) -> (s: String)
        ensures
            s@ == self.text(),
    {
        service_flags_display(self.bits)
    }
}

impl BlockHash {
    /// The hash made of 32 zero bytes.
    pub fn all_zeros() -> (hash: BlockHash)
        ensures
            hash.bytes@ == Seq::new(32, |i: int| 0u8),
    {
        let hash = BlockHash { bytes: [0u8; 32] };
        assert(hash.bytes@ =~= Seq::new(32, |i: int| 0u8));
        hash
    }

    /// The text of this hash: its bytes in hexadecimal, last byte first.
    pub open spec fn text(self) -> Seq<char> {
        hex_reversed(self.bytes@)
    }

    /// This hash as text.
    pub fn to_string(&self) -> (s: String)
        ensures
            s@ == self.text(),
    {
        block_hash_display(&self.bytes)
    }

    /// This hash as debugging text, which is the same text.
    pub fn to_debug_string(&self) -> (s: String)
        ensures
            s@ == self.text(),
    {
        block_hash_debug(&self.bytes)
    }

    /// Whether this hash comes strictly before `other`, byte by byte.
    pub fn precedes(&self, other: &BlockHash) -> (r: bool)
        ensures
            r == lex_lt(self.bytes@, other.bytes@),
    {
        precedes(self.bytes.as_slice(), other.bytes.as_slice())
    }

    /// Whether this hash equals `other`.
    pub fn same(&self, other: &BlockHash) -> (r: bool)
        ensures
            r == (self.bytes@ == other.bytes@),
    {
        same(self.bytes.as_slice(), other.bytes.as_slice())
    }
}

impl Txid {
    /// The ID made of 32 zero bytes.
    pub fn all_zeros() -> (txid: Txid)
        ensures
            txid.bytes@ == Seq::new(32, |i: int| 0u8),
    {
        let txid = Txid { bytes: [0u8; 32] };
        assert(txid.bytes@ =~= Seq::new(32, |i: int| 0u8));
        txid
    }

    /// The text of this ID: its bytes in hexadecimal, last byte first.
    pub open spec fn text(self) -> Seq<char> {
        hex_reversed(self.bytes@)
    }

    /// This ID as text.
    pub fn to_string(&self) -> (s: String)
        ensures
            s@ == self.text(),
    {
        txid_display(&self.bytes)
    }

    /// Whether this ID comes strictly before `other`, byte by byte.
    pub fn precedes(&self, other: &Txid) -> (r: bool)
        ensures
            r == lex_lt(self.bytes@, other.bytes@),
    {
        precedes(self.bytes.as_slice(), other.bytes.as_slice())
    }

    /// Whether this ID equals `other`.
    pub fn same(&self, other: &Txid) -> (r: bool)
        ensures
            r == (self.bytes@ == other.bytes@),
    {
        same(self.bytes.as_slice(), other.bytes.as_slice())
    }
}

impl BlockHeader {
    /// The hash of this header, in the model.
    pub open spec fn hash(self) -> Seq<u8> {
        header_hash(
            self.version,
            self.prev_blockhash.bytes@,
            self.merkle_root@,
            self.time,
            self.bits,
            self.nonce,
        )
    }

    /// Returns the block hash.
    pub fn block_hash(&self) -> (hash: BlockHash)
        ensures
            hash.bytes@ == self.hash(),
    {
        hash_header(self)
    }
}

impl Block {
    /// Returns the block hash, which is the hash of the block's header.
    pub fn block_hash(&self) -> (hash: BlockHash)
        ensures
            hash.bytes@ == self.header.hash(),
    {
        self.header.block_hash()
    }
}

impl View for Transaction {
    type V = Seq<u8>;

    /// The consensus encoding of the transaction.
    closed spec fn view(&self) -> Seq<u8> {
        self.raw@
    }
}

impl Clone for Transaction {
    fn clone(&self) -> (copy: Self)
        ensures
            copy@ == self@,
            copy.id() == self.id(),
    {
        proof {
            use_type_invariant(self);
        }
        Transaction { raw: self.raw.clone(), txid: self.txid }
    }
}

impl Transaction {
    /// The ID held is the ID of the encoding held.
    #[verifier::type_invariant]
    spec fn identified(&self) -> bool {
        transaction_id(self.raw@) == Some(self.txid.bytes@)
    }

    /// The transaction's ID, in the model.
    pub closed spec fn id(&self) -> Txid {
        self.txid
    }

    /// The transaction with the given consensus encoding, or `None` where
    /// the bytes are not the encoding of a transaction.
    pub fn from_bytes(raw: Vec<u8>) -> (transaction: Option<Transaction>)
        ensures
            transaction.is_some() == transaction_id(raw@).is_some(),
            transaction matches Some(t) ==> t@ == raw@ && transaction_id(raw@) == Some(
                t.id().bytes@,
            ),
    {
        match decode_txid(&raw) {
            Some(txid) => Some(Transaction { raw, txid }),
            None => None,
        }
    }

    /// Computes the txid.
    pub fn txid(&self) -> (txid: Txid)
        ensures
            txid == self.id(),
            transaction_id(self@) == Some(txid.bytes@),
    {
        proof {
            use_type_invariant(self);
        }
        self.txid
    }

    /// The consensus encoding of the transaction.
    pub fn as_bytes(&self) -> (raw: &Vec<u8>)
        ensures
            raw@ == self@,
    {
        &self.raw
    }

    /// Whether this transaction comes strictly before `other`: their
    /// encodings are compared byte by byte.
    pub fn precedes(&self, other: &Transaction) -> (r: bool)
        ensures
            r == lex_lt(self@, other@),
    {
        precedes(self.raw.as_slice(), other.raw.as_slice())
    }

    /// Whether this transaction equals `other`.
    pub fn same(&self, other: &Transaction) -> (r: bool)
        ensures
            r == (self@ == other@),
    {
        same(self.raw.as_slice(), other.raw.as_slice())
    }
}

} // verus!
