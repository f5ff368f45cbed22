//! State machine events.

use core::cmp::Ordering;
use std::sync::Arc;
use vstd::prelude::*;
use vstd::std_specs::cmp::{PartialEqSpecImpl, PartialOrdSpecImpl};
use vstd::string::*;
use crate::bytes::{lemma_lex_total, lemma_lex_transitive, lex_lt};
use bitcoincash::network::address::Address;
use bitcoincash::network::message_bloom::FilterLoad;
use bitcoincash::util::bip158::BlockFilter;
use bitcoincash::util::merkleblock::MerkleBlock;
use nonempty::NonEmpty;
use crate::chain::{Block, BlockHash, BlockHeader, ServiceFlags, Transaction, Txid};
use crate::fsm::{Disconnect, FeeEstimate, Fault, Height, PeerId};
use crate::fsm::output::NetworkMessage;
use crate::net::{Link, SocketAddr, Source};
use crate::text::{boolean, decimal, hex_reversed, push_boolean, push_decimal};
use crate::time::LocalTime;

verus! {

/// Event emitted by the client, after the "loading" phase is over.
#[derive(Debug, Clone)]
#[allow(inconsistent_fields)]
pub enum Event {
    /// The node is initializing its state machine and about to start network
    /// activity.
    Initializing,
    /// Ready to process peer events and start receiving commands.
    /// Note that this isn't necessarily the first event emitted.
    Ready {
        /// The tip of the block header chain.
        tip: Height,
        /// The tip of the filter header chain.
        filter_tip: Height,
        /// Local time.
        time: LocalTime,
    },
    /// A bloom filter was loaded to a peer.
    PeerLoadedBloomFilter {
        /// The filter loaded to the peer.
        filter: FilterLoad,
        /// Peer address.
        peer: PeerId,
    },
    /// Peer connected. This is fired when the physical TCP/IP connection
    /// is established. Use [`Event::PeerNegotiated`] to know when the P2P
    /// handshake has completed.
    PeerConnected {
        /// Peer address.
        addr: PeerId,
        /// Local address.
        local_addr: SocketAddr,
        /// Connection link.
        link: Link,
    },
    /// Outbound peer connection initiated.
    PeerConnecting {
        /// Peer address.
        addr: PeerId,
        /// Address source.
        source: Source,
        /// Peer services.
        services: ServiceFlags,
    },
    /// Peer disconnected after successful connection.
    PeerDisconnected {
        /// Peer address.
        addr: PeerId,
        /// Reason for disconnection.
        reason: Disconnect,
    },
    /// Peer timed out when waiting for response.
    /// This usually leads to a disconnection.
    PeerTimedOut {
        /// Peer address.
        addr: PeerId,
    },
    /// Connection was never established and timed out or failed.
    PeerConnectionFailed {
        /// Peer address.
        addr: PeerId,
        /// Connection error.
        error: Arc<Fault>,
    },
    /// Peer handshake completed. The peer connection is fully functional
    /// from this point.
    PeerNegotiated {
        /// Peer address.
        addr: PeerId,
        /// Connection link.
        link: Link,
        /// Peer services.
        services: ServiceFlags,
        /// Whether this is a persistent peer.
        persistent: bool,
        /// Peer height.
        height: Height,
        /// Address of our node, as seen by remote.
        receiver: Address,
        /// Peer user agent.
        user_agent: String,
        /// Negotiated protocol version.
        version: u32,
        /// Transaction relay.
        relay: bool,
    },
    /// The best known height amongst connected peers has been updated.
    /// Note that there is no guarantee that this height really exists;
    /// peers don't have to follow the protocol and could send a bogus
    /// height.
    PeerHeightUpdated {
        /// Best block height known.
        height: Height,
    },
    /// A peer misbehaved.
    PeerMisbehaved {
        /// Peer address.
        addr: PeerId,
        /// Reason of misbehavior.
        reason: &'static str,
    },
    /// A block was added to the main chain.
    BlockConnected {
        /// Block header.
        header: BlockHeader,
        /// Height of the block.
        height: Height,
    },
    /// One of the blocks of the main chain was reverted, due to a re-org.
    /// These events will fire from the latest block starting from the tip,
    /// to the earliest. Mark all transactions belonging to this block as
    /// *unconfirmed*.
    BlockDisconnected {
        /// Header of the block.
        header: BlockHeader,
        /// Height of the block when it was part of the main chain.
        height: Height,
    },
    /// Block downloaded and processed by inventory manager.
    BlockProcessed {
        /// The full block.
        block: Block,
        /// The block height.
        height: Height,
        /// The fee estimate for this block.
        fees: Option<FeeEstimate>,
    },
    /// A block has matched one of the filters and is ready to be processed.
    /// This event usually precedes [`Event::TxStatusChanged`] events.
    BlockMatched {
        /// Block height.
        height: Height,
        /// Matching block.
        block: Block,
    },
    /// We received a merkle block from the network.
    ReceivedMerkleBlock {
        /// Block height.
        height: Height,
        /// Matching block.
        merkle_block: MerkleBlock,
        /// The peer who sent us the block.
        peer: PeerId,
    },
    /// Block header chain is in sync with network.
    BlockHeadersSynced {
        /// Block height.
        height: Height,
        /// Chain tip.
        hash: BlockHash,
    },
    /// Block headers imported. Emitted when headers are fetched from peers,
    /// or imported by the user.
    BlockHeadersImported {
        /// New tip hash.
        hash: BlockHash,
        /// New tip height.
        height: Height,
        /// Block headers connected to the active chain.
        connected: NonEmpty<(Height, BlockHeader)>,
        /// Block headers reverted from the active chain.
        reverted: Vec<(Height, BlockHeader)>,
        /// Set if this import triggered a chain reorganization.
        reorg: bool,
    },
    /// Block filters imported.
    BlockFilterImported {
        /// New tip hash.
        hash: BlockHash,
        /// New tip height.
        height: Height,
        /// Block headers connected to the active chain.
        connected: NonEmpty<(Height, BlockHeader)>,
        /// Block headers reverted from the active chain.
        reverted: Vec<(Height, BlockHeader)>,
        /// Set if this import triggered a chain reorganization.
        reorg: bool,
    },
    /// Transaction fee rate estimated for a block.
    FeeEstimated {
        /// Block hash of the estimate.
        block: BlockHash,
        /// Block height of the estimate.
        height: Height,
        /// Fee estimate.
        fees: FeeEstimate,
    },
    /// A filter was processed. If it matched any of the scripts in the
    /// watchlist, the corresponding block was scheduled for download, and a
    /// [`Event::BlockMatched`] event will eventually be fired.
    FilterProcessed {
        /// Corresponding block hash.
        block: BlockHash,
        /// Filter height (same as block).
        height: Height,
        /// Whether or not this filter matched any of the watched scripts.
        matched: bool,
        /// Whether or not this filter is valid.
        valid: bool,
        /// Filter was cached.
        cached: bool,
    },
    /// A filter was received.
    FilterReceived {
        /// Peer we received from.
        from: PeerId,
        /// The received filter.
        filter: BlockFilter,
        /// Filter height.
        height: Height,
        /// Hash of corresponding block.
        block: BlockHash,
    },
    /// A filter rescan has started.
    FilterRescanStarted {
        /// Start height.
        start: Height,
        /// End height.
        stop: Option<Height>,
    },
    /// A filter rescan has stopped.
    FilterRescanStopped {
        /// Stop height.
        height: Height,
    },
    /// A merkle block rescan has stopped.
    MerkleBlockRescanStopped {
        /// Stop height.
        height: Height,
        /// The peer that was scanned with.
        peer: PeerId,
    },
    /// A merkle block rescan has started.
    MerkleBlockScanStarted {
        /// Start height.
        start: Height,
        /// End height.
        stop: Option<Height>,
        /// The peer to scan with.
        peer: PeerId,
    },
    /// Filter headers synced up to block header height.
    FilterHeadersSynced {
        /// Block height.
        height: Height,
    },
    /// The status of a transaction has changed.
    TxStatusChanged {
        /// The Transaction ID.
        txid: Txid,
        /// The new transaction status.
        status: TxStatus,
    },
    /// A matched transaction was received.
    ReceivedMatchedTx {
        /// The Transaction.
        transaction: Transaction,
    },
    /// Scanned the chain up to a certain height.
    Scanned {
        /// Height up to which we've scanned and processed blocks.
        height: Height,
    },
    /// A gossip message was received from a peer.
    MessageReceived {
        /// Peer that sent the message.
        from: PeerId,
        /// Message payload.
        message: Arc<NetworkMessage>,
    },
    /// Address book exhausted.
    AddressBookExhausted,
    /// An error occurred.
    Error {
        /// Error source.
        error: Arc<Fault>,
    },
}

/// Transaction status of a given transaction.
#[derive(Debug, Clone, Ord)]
pub enum TxStatus {
    /// This is the initial state of a transaction after it has been
    /// announced by the client.
    Unconfirmed,
    /// Transaction was acknowledged by a peer.
    ///
    /// This is the case when a peer requests the transaction data from us
    /// after an inventory announcement. It does not mean the transaction is
    /// considered valid by the peer.
    Acknowledged {
        /// Peer acknowledging the transaction.
        peer: SocketAddr,
    },
    /// Transaction was included in a block. This event is fired after a
    /// block from the main chain is scanned.
    Confirmed {
        /// Height at which it was included.
        height: Height,
        /// Hash of the block in which it was included.
        block: BlockHash,
    },
    /// A transaction that was previously confirmed, and is now reverted due
    /// to a re-org. Note that this event can only fire if the originally
    /// confirmed tx is still in memory.
    Reverted {
        /// The reverted transaction.
        transaction: Transaction,
    },
    /// Transaction was replaced by another transaction, and will probably
    /// never be included in a block. This can happen if an RBF transaction
    /// is replaced by one with a higher fee, or if a transaction is reverted
    /// and a conflicting transaction replaces it. In this case it would be
    /// preceded by a [`TxStatus::Reverted`] status.
    Stale {
        /// Transaction replacing the given transaction and causing it to be
        /// stale.
        replaced_by: Txid,
        /// Block of the included transaction.
        block: BlockHash,
    },
}

impl Event {
    /// The one-line description of the event, which its fields alone decide.
    pub open spec fn text(self) -> Seq<char> {
        match self {
            Event::Initializing => "Initializing peer-to-peer system.."@,
            Event::PeerLoadedBloomFilter { peer, .. } => {
                "Bloom filter loaded to peer "@
                    + peer.text()
            },
            Event::MerkleBlockScanStarted { start, .. } => {
                "A merkle block rescan started at height "@
                    + decimal(start as nat)
            },
            Event::MerkleBlockRescanStopped { height, .. } => {
                "A merkle block resan stopped "@
                    + decimal(height as nat)
            },
            Event::Ready { .. } => "Ready to process events and commands"@,
            Event::BlockHeadersSynced { height, hash } => {
                "Chain in sync with network at height "@
                    + decimal(height as nat)
                    + " ("@
                    + hash.text()
                    + ")"@
            },
            Event::ReceivedMerkleBlock { height, peer, .. } => {
                "MerkleBlock received at height "@
                    + decimal(height as nat)
                    + " from "@
                    + peer.text()
            },
            Event::BlockFilterImported { hash, height, reorg, .. } => {
                "Block Filters imported to "@
                    + hash.text()
                    + " at height "@
                    + decimal(height as nat)
                    + " (reorg="@
                    + boolean(reorg)
                    + ")"@
            },
            Event::BlockHeadersImported { hash, height, reorg, .. } => {
                "Chain tip updated to "@
                    + hash.text()
                    + " at height "@
                    + decimal(height as nat)
                    + " (reorg="@
                    + boolean(reorg)
                    + ")"@
            },
            Event::BlockConnected { header, height } => {
                "Block "@
                    + hex_reversed(header.hash())
                    + " connected at height "@
                    + decimal(height as nat)
            },
            Event::BlockDisconnected { header, height } => {
                "Block "@
                    + hex_reversed(header.hash())
                    + " disconnected at height "@
                    + decimal(height as nat)
            },
            Event::BlockProcessed { block, height, .. } => {
                "Block "@
                    + hex_reversed(block.header.hash())
                    + " processed at height "@
                    + decimal(height as nat)
            },
            Event::BlockMatched { height, .. } => {
                "Block matched at height "@
                    + decimal(height as nat)
            },
            Event::FeeEstimated { fees, height, .. } => {
                "Transaction median fee rate for block #"@
                    + decimal(height as nat)
                    + " is "@
                    + decimal(fees.median as nat)
                    + " sat/vB"@
            },
            Event::FilterRescanStarted { start, stop: Some(stop) } => {
                "Rescan started from height "@
                    + decimal(start as nat)
                    + " to "@
                    + decimal(stop as nat)
            },
            Event::FilterRescanStarted { start, stop: None } => {
                "Rescan started from height "@
                    + decimal(start as nat)
            },
            Event::FilterRescanStopped { height } => {
                "Rescan completed at height "@
                    + decimal(height as nat)
            },
            Event::FilterHeadersSynced { height } => {
                "Filter headers synced up to height "@
                    + decimal(height as nat)
            },
            Event::FilterReceived { from, block, .. } => {
                "Filter for block "@
                    + block.text()
                    + " received from "@
                    + from.text()
            },
            Event::FilterProcessed { height, matched, .. } => {
                "Filter processed at height "@
                    + decimal(height as nat)
                    + " (match = "@
                    + boolean(matched)
                    + ")"@
            },
            Event::TxStatusChanged { txid, status } => {
                "Transaction "@
                    + txid.text()
                    + " status changed: "@
                    + status.text()
            },
            Event::Scanned { height } => "Chain scanned up to height "@ + decimal(height as nat),
            Event::PeerConnected { addr, link, .. } => {
                "Peer "@
                    + addr.text()
                    + " connected ("@
                    + link.text()
                    + ")"@
            },
            Event::PeerConnectionFailed { addr, error } => {
                "Peer connection attempt to "@
                    + addr.text()
                    + " failed with "@
                    + error.message@
            },
            Event::PeerHeightUpdated { height } => {
                "Peer height updated to "@
                    + decimal(height as nat)
            },
            Event::ReceivedMatchedTx { transaction } => {
                "Received transaction match "@
                    + transaction.id().text()
            },
            Event::PeerMisbehaved { addr, reason } => {
                "Peer "@
                    + addr.text()
                    + " misbehaved: "@
                    + reason@
            },
            Event::PeerDisconnected { addr, reason } => {
                "Disconnected from "@
                    + addr.text()
                    + " ("@
                    + reason.text()
                    + ")"@
            },
            Event::PeerTimedOut { addr } => "Peer "@ + addr.text() + " timed out"@,
            Event::PeerConnecting { addr, .. } => "Connecting to peer "@ + addr.text(),
            Event::PeerNegotiated { addr, height, services, .. } => {
                "Peer "@
                    + addr.text()
                    + " negotiated with services "@
                    + services.text()
                    + " and height "@
                    + decimal(height as nat)
                    + ".."@
            },
            Event::MessageReceived { from, message } => {
                "Message `"@
                    + message.command()
                    + "` received from "@
                    + from.text()
            },
            Event::AddressBookExhausted => {
                "Address book exhausted.. fetching new addresses from peers"@
            },
            Event::Error { error } => "Error: "@ + error.message@,
        }
    }

    /// Describes the event in one line of text. Nothing but the event is
    /// read, and nothing is changed.
    pub fn to_string(&self) -> (s: String)
        ensures
            s@ == self.text(),
    {
        match self {
            Event::Initializing => {
                let mut s = String::from_str("Initializing peer-to-peer system..");
                s
            },
            Event::PeerLoadedBloomFilter { peer, .. } => {
                let mut s = String::from_str("Bloom filter loaded to peer ");
                peer.push_to(&mut s);
                s
            },
            Event::MerkleBlockScanStarted { start, .. } => {
                let mut s = String::from_str("A merkle block rescan started at height ");
                push_decimal(&mut s, *start as u128);
                s
            },
            Event::MerkleBlockRescanStopped { height, .. } => {
                let mut s = String::from_str("A merkle block resan stopped ");
                push_decimal(&mut s, *height as u128);
                s
            },
            Event::Ready { .. } => {
                let mut s = String::from_str("Ready to process events and commands");
                s
            },
            Event::BlockHeadersSynced { height, hash } => {
                let mut s = String::from_str("Chain in sync with network at height ");
                push_decimal(&mut s, *height as u128);
                s.append(" (");
                s.append(hash.to_string().as_str());
                s.append(")");
                s
            },
            Event::ReceivedMerkleBlock { height, peer, .. } => {
                let mut s = String::from_str("MerkleBlock received at height ");
                push_decimal(&mut s, *height as u128);
                s.append(" from ");
                peer.push_to(&mut s);
                s
            },
            Event::BlockFilterImported { hash, height, reorg, .. } => {
                let mut s = String::from_str("Block Filters imported to ");
                s.append(hash.to_string().as_str());
                s.append(" at height ");
                push_decimal(&mut s, *height as u128);
                s.append(" (reorg=");
                push_boolean(&mut s, *reorg);
                s.append(")");
                s
            },
            Event::BlockHeadersImported { hash, height, reorg, .. } => {
                let mut s = String::from_str("Chain tip updated to ");
                s.append(hash.to_string().as_str());
                s.append(" at height ");
                push_decimal(&mut s, *height as u128);
                s.append(" (reorg=");
                push_boolean(&mut s, *reorg);
                s.append(")");
                s
            },
            Event::BlockConnected { header, height } => {
                let mut s = String::from_str("Block ");
                s.append(header.block_hash().to_string().as_str());
                s.append(" connected at height ");
                push_decimal(&mut s, *height as u128);
                s
            },
            Event::BlockDisconnected { header, height } => {
                let mut s = String::from_str("Block ");
                s.append(header.block_hash().to_string().as_str());
                s.append(" disconnected at height ");
                push_decimal(&mut s, *height as u128);
                s
            },
            Event::BlockProcessed { block, height, .. } => {
                let mut s = String::from_str("Block ");
                s.append(block.block_hash().to_debug_string().as_str());
                s.append(" processed at height ");
                push_decimal(&mut s, *height as u128);
                s
            },
            Event::BlockMatched { height, .. } => {
                let mut s = String::from_str("Block matched at height ");
                push_decimal(&mut s, *height as u128);
                s
            },
            Event::FeeEstimated { fees, height, .. } => {
                let mut s = String::from_str("Transaction median fee rate for block #");
                push_decimal(&mut s, *height as u128);
                s.append(" is ");
                push_decimal(&mut s, fees.median as u128);
                s.append(" sat/vB");
                s
            },
            Event::FilterRescanStarted { start, stop: Some(stop) } => {
                let mut s = String::from_str("Rescan started from height ");
                push_decimal(&mut s, *start as u128);
                s.append(" to ");
                push_decimal(&mut s, *stop as u128);
                s
            },
            Event::FilterRescanStarted { start, stop: None } => {
                let mut s = String::from_str("Rescan started from height ");
                push_decimal(&mut s, *start as u128);
                s
            },
            Event::FilterRescanStopped { height } => {
                let mut s = String::from_str("Rescan completed at height ");
                push_decimal(&mut s, *height as u128);
                s
            },
            Event::FilterHeadersSynced { height } => {
                let mut s = String::from_str("Filter headers synced up to height ");
                push_decimal(&mut s, *height as u128);
                s
            },
            Event::FilterReceived { from, block, .. } => {
                let mut s = String::from_str("Filter for block ");
                s.append(block.to_string().as_str());
                s.append(" received from ");
                from.push_to(&mut s);
                s
            },
            Event::FilterProcessed { height, matched, .. } => {
                let mut s = String::from_str("Filter processed at height ");
                push_decimal(&mut s, *height as u128);
                s.append(" (match = ");
                push_boolean(&mut s, *matched);
                s.append(")");
                s
            },
            Event::TxStatusChanged { txid, status } => {
                let mut s = String::from_str("Transaction ");
                s.append(txid.to_string().as_str());
                s.append(" status changed: ");
                s.append(status.to_string().as_str());
                s
            },
            Event::Scanned { height } => {
                let mut s = String::from_str("Chain scanned up to height ");
                push_decimal(&mut s, *height as u128);
                s
            },
            Event::PeerConnected { addr, link, .. } => {
                let mut s = String::from_str("Peer ");
                addr.push_to(&mut s);
                s.append(" connected (");
                s.append(link.as_str());
                s.append(")");
                s
            },
            Event::PeerConnectionFailed { addr, error } => {
                let mut s = String::from_str("Peer connection attempt to ");
                addr.push_to(&mut s);
                s.append(" failed with ");
                s.append(error.message.as_str());
                s
            },
            Event::PeerHeightUpdated { height } => {
                let mut s = String::from_str("Peer height updated to ");
                push_decimal(&mut s, *height as u128);
                s
            },
            Event::ReceivedMatchedTx { transaction } => {
                let mut s = String::from_str("Received transaction match ");
                s.append(transaction.txid().to_string().as_str());
                s
            },
            Event::PeerMisbehaved { addr, reason } => {
                let mut s = String::from_str("Peer ");
                addr.push_to(&mut s);
                s.append(" misbehaved: ");
                s.append(reason);
                s
            },
            Event::PeerDisconnected { addr, reason } => {
                let mut s = String::from_str("Disconnected from ");
                addr.push_to(&mut s);
                s.append(" (");
                reason.push_to(&mut s);
                s.append(")");
                s
            },
            Event::PeerTimedOut { addr } => {
                let mut s = String::from_str("Peer ");
                addr.push_to(&mut s);
                s.append(" timed out");
                s
            },
            Event::PeerConnecting { addr, .. } => {
                let mut s = String::from_str("Connecting to peer ");
                addr.push_to(&mut s);
                s
            },
            Event::PeerNegotiated { addr, height, services, .. } => {
                let mut s = String::from_str("Peer ");
                addr.push_to(&mut s);
                s.append(" negotiated with services ");
                s.append(services.to_string().as_str());
                s.append(" and height ");
                push_decimal(&mut s, *height as u128);
                s.append("..");
                s
            },
            Event::MessageReceived { from, message } => {
                let mut s = String::from_str("Message `");
                s.append(message.cmd());
                s.append("` received from ");
                from.push_to(&mut s);
                s
            },
            Event::AddressBookExhausted => {
                let mut s = String::from_str("Address book exhausted.. fetching new addresses from peers");
                s
            },
            Event::Error { error } => {
                let mut s = String::from_str("Error: ");
                s.append(error.message.as_str());
                s
            },
        }
    }
}

/// A transaction status as a mathematical value: hashes and the transaction
/// are the byte strings they hold.
pub enum TxStatusView {
    Unconfirmed,
    Acknowledged { peer: SocketAddr },
    Confirmed { height: Height, block: Seq<u8> },
    Reverted { transaction: Seq<u8> },
    Stale { replaced_by: Seq<u8>, block: Seq<u8> },
}

impl TxStatusView {
    /// How far along its lifecycle a status is: statuses are ordered by this
    /// first.
    pub open spec fn rank(self) -> int {
        match self {
            TxStatusView::Unconfirmed => 0,
            TxStatusView::Acknowledged { .. } => 1,
            TxStatusView::Confirmed { .. } => 2,
            TxStatusView::Reverted { .. } => 3,
            TxStatusView::Stale { .. } => 4,
        }
    }

    /// The strict order on statuses: an earlier kind of status comes before
    /// a later one; between two statuses of one kind the fields decide, in
    /// their declared order.
    pub open spec fn before(self, other: TxStatusView) -> bool {
        self.rank() < other.rank() || match (self, other) {
            (TxStatusView::Acknowledged { peer: a }, TxStatusView::Acknowledged { peer: b }) => {
                a.before(b)
            },
            (
                TxStatusView::Confirmed { height: h, block: x },
                TxStatusView::Confirmed { height: g, block: y },
            ) => h < g || (h == g && lex_lt(x, y)),
            (
                TxStatusView::Reverted { transaction: a },
                TxStatusView::Reverted { transaction: b },
            ) => lex_lt(a, b),
            (
                TxStatusView::Stale { replaced_by: r, block: x },
                TxStatusView::Stale { replaced_by: q, block: y },
            ) => lex_lt(r, q) || (r == q && lex_lt(x, y)),
            _ => false,
        }
    }
}

impl View for TxStatus {
    type V = TxStatusView;

    open spec fn view(&self) -> TxStatusView {
        match *self {
            TxStatus::Unconfirmed => TxStatusView::Unconfirmed,
            TxStatus::Acknowledged { peer } => TxStatusView::Acknowledged { peer },
            TxStatus::Confirmed { height, block } => TxStatusView::Confirmed {
                height,
                block: block.bytes@,
            },
            TxStatus::Reverted { transaction } => TxStatusView::Reverted {
                transaction: transaction@,
            },
            TxStatus::Stale { replaced_by, block } => TxStatusView::Stale {
                replaced_by: replaced_by.bytes@,
                block: block.bytes@,
            },
        }
    }
}

/// Of two statuses exactly one comes first, unless they are equal: the order
/// is total.
pub proof fn lemma_status_order_total(a: TxStatusView, b: TxStatusView)
    ensures
        a.before(b) || b.before(a) || a == b,
        !(a.before(b) && b.before(a)),
        !a.before(a),
{
    match (a, b) {
        (
            TxStatusView::Confirmed { height: h, block: x },
            TxStatusView::Confirmed { height: g, block: y },
        ) => {
            lemma_lex_total(x, y);
        },
        (TxStatusView::Reverted { transaction: x }, TxStatusView::Reverted { transaction: y }) => {
            lemma_lex_total(x, y);
        },
        (
            TxStatusView::Stale { replaced_by: r, block: x },
            TxStatusView::Stale { replaced_by: q, block: y },
        ) => {
            lemma_lex_total(r, q);
            lemma_lex_total(x, y);
        },
        _ => {},
    }
    match a {
        TxStatusView::Confirmed { block, .. } => {
            lemma_lex_total(block, block);
        },
        TxStatusView::Reverted { transaction } => {
            lemma_lex_total(transaction, transaction);
        },
        TxStatusView::Stale { replaced_by, block } => {
            lemma_lex_total(replaced_by, replaced_by);
            lemma_lex_total(block, block);
        },
        _ => {},
    }
}

/// The order on statuses is transitive.
pub proof fn lemma_status_order_transitive(a: TxStatusView, b: TxStatusView, c: TxStatusView)
    requires
        a.before(b),
        b.before(c),
    ensures
        a.before(c),
{
    match (a, b, c) {
        (
            TxStatusView::Confirmed { height: h1, block: x },
            TxStatusView::Confirmed { height: h2, block: y },
            TxStatusView::Confirmed { height: h3, block: z },
        ) => {
            if h1 == h2 && h2 == h3 {
                lemma_lex_transitive(x, y, z);
            }
        },
        (
            TxStatusView::Reverted { transaction: x },
            TxStatusView::Reverted { transaction: y },
            TxStatusView::Reverted { transaction: z },
        ) => {
            lemma_lex_transitive(x, y, z);
        },
        (
            TxStatusView::Stale { replaced_by: r1, block: x },
            TxStatusView::Stale { replaced_by: r2, block: y },
            TxStatusView::Stale { replaced_by: r3, block: z },
        ) => {
            if lex_lt(r1, r2) && lex_lt(r2, r3) {
                lemma_lex_transitive(r1, r2, r3);
            } else if r1 == r2 && r2 == r3 {
                lemma_lex_transitive(x, y, z);
            }
        },
        _ => {},
    }
}

/// The order follows the lifecycle, whatever the fields hold: unconfirmed,
/// then acknowledged, then confirmed, then reverted, then stale.
pub proof fn lemma_status_order_follows_lifecycle(
    peer: SocketAddr,
    height: Height,
    block: Seq<u8>,
    transaction: Seq<u8>,
    replaced_by: Seq<u8>,
    stale_block: Seq<u8>,
)
    ensures
        TxStatusView::Unconfirmed.before(TxStatusView::Acknowledged { peer }),
        (TxStatusView::Acknowledged { peer }).before(TxStatusView::Confirmed { height, block }),
        (TxStatusView::Confirmed { height, block }).before(TxStatusView::Reverted { transaction }),
        (TxStatusView::Reverted { transaction }).before(
            TxStatusView::Stale { replaced_by, block: stale_block },
        ),
{
}

/// Two confirmed statuses are ordered by height, then by block hash.
pub proof fn lemma_confirmed_order(h: Height, x: Seq<u8>, g: Height, y: Seq<u8>)
    ensures
        (TxStatusView::Confirmed { height: h, block: x }).before(
            TxStatusView::Confirmed { height: g, block: y },
        ) <==> (h < g || (h == g && lex_lt(x, y))),
{
}

impl TxStatus {
    /// Whether this status comes strictly before `other`.
    pub fn precedes(&self, other: &TxStatus) -> (r: bool)
        ensures
            r == self@.before(other@),
    {
        match (self, other) {
            (TxStatus::Unconfirmed, TxStatus::Unconfirmed) => false,
            (TxStatus::Unconfirmed, _) => true,
            (TxStatus::Acknowledged { .. }, TxStatus::Unconfirmed) => false,
            (TxStatus::Acknowledged { peer: a }, TxStatus::Acknowledged { peer: b }) => {
                a.precedes(b)
            },
            (TxStatus::Acknowledged { .. }, _) => true,
            (TxStatus::Confirmed { .. }, TxStatus::Unconfirmed) => false,
            (TxStatus::Confirmed { .. }, TxStatus::Acknowledged { .. }) => false,
            (
                TxStatus::Confirmed { height: h, block: x },
                TxStatus::Confirmed { height: g, block: y },
            ) => *h < *g || (*h == *g && x.precedes(y)),
            (TxStatus::Confirmed { .. }, _) => true,
            (TxStatus::Reverted { transaction: a }, TxStatus::Reverted { transaction: b }) => {
                a.precedes(b)
            },
            (TxStatus::Reverted { .. }, TxStatus::Stale { .. }) => true,
            (TxStatus::Reverted { .. }, _) => false,
            (
                TxStatus::Stale { replaced_by: r, block: x },
                TxStatus::Stale { replaced_by: q, block: y },
            ) => r.precedes(q) || (r.same(q) && x.precedes(y)),
            (TxStatus::Stale { .. }, _) => false,
        }
    }

    /// Whether this status equals `other`.
    pub fn same(&self, other: &TxStatus) -> (r: bool)
        ensures
            r == (self@ == other@),
    {
        match (self, other) {
            (TxStatus::Unconfirmed, TxStatus::Unconfirmed) => true,
            (TxStatus::Acknowledged { peer: a }, TxStatus::Acknowledged { peer: b }) => *a == *b,
            (
                TxStatus::Confirmed { height: h, block: x },
                TxStatus::Confirmed { height: g, block: y },
            ) => *h == *g && x.same(y),
            (TxStatus::Reverted { transaction: a }, TxStatus::Reverted { transaction: b }) => {
                a.same(b)
            },
            (
                TxStatus::Stale { replaced_by: r, block: x },
                TxStatus::Stale { replaced_by: q, block: y },
            ) => r.same(q) && x.same(y),
            _ => false,
        }
    }

    /// The status in words.
    pub open spec fn text(self) -> Seq<char> {
        match self {
            TxStatus::Unconfirmed => "transaction is unconfirmed"@,
            TxStatus::Acknowledged { peer } => "transaction was acknowledged by peer "@
                + peer.text(),
            TxStatus::Confirmed { height, block } => "transaction was included in block "@
                + block.text() + " at height "@ + decimal(height as nat),
            TxStatus::Reverted { transaction } => "transaction "@ + transaction.id().text()
                + " has been reverted"@,
            TxStatus::Stale { replaced_by, block } => "transaction was replaced by "@
                + replaced_by.text() + " in block "@ + block.text(),
        }
    }

    /// The status in words.
    pub fn to_string(&self) -> (s: String)
        ensures
            s@ == self.text(),
    {
        match self {
            TxStatus::Unconfirmed => String::from_str("transaction is unconfirmed"),
            TxStatus::Acknowledged { peer } => {
                let mut s = String::from_str("transaction was acknowledged by peer ");
                peer.push_to(&mut s);
                s
            },
            TxStatus::Confirmed { height, block } => {
                let mut s = String::from_str("transaction was included in block ");
                s.append(block.to_string().as_str());
                s.append(" at height ");
                push_decimal(&mut s, *height as u128);
                s
            },
            TxStatus::Reverted { transaction } => {
                let mut s = String::from_str("transaction ");
                s.append(transaction.txid().to_string().as_str());
                s.append(" has been reverted");
                s
            },
            TxStatus::Stale { replaced_by, block } => {
                let mut s = String::from_str("transaction was replaced by ");
                s.append(replaced_by.to_string().as_str());
                s.append(" in block ");
                s.append(block.to_string().as_str());
                s
            },
        }
    }
}

impl PartialEq for TxStatus {
    fn eq(&self, other: &TxStatus) -> (r: bool) {
        self.same(other)
    }
}

impl PartialEqSpecImpl for TxStatus {
    open spec fn obeys_eq_spec() -> bool {
        true
    }

    open spec fn eq_spec(&self, other: &TxStatus) -> bool {
        self@ == other@
    }
}

impl Eq for TxStatus {

}

impl PartialOrd for TxStatus {
    fn partial_cmp(&self, other: &TxStatus) -> (r: Option<Ordering>) {
        if self.same(other) {
            Some(Ordering::Equal)
        } else if self.precedes(other) {
            Some(Ordering::Less)
        } else {
            Some(Ordering::Greater)
        }
    }
}

impl PartialOrdSpecImpl for TxStatus {
    open spec fn obeys_partial_cmp_spec() -> bool {
        true
    }

    open spec fn partial_cmp_spec(&self, other: &TxStatus) -> Option<Ordering> {
        if self@ == other@ {
            Some(Ordering::Equal)
        } else if self@.before(other@) {
            Some(Ordering::Less)
        } else {
            Some(Ordering::Greater)
        }
    }
}

} // verus!
