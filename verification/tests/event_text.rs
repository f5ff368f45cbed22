use std::sync::Arc;

use nakamoto_p2p::chain::{Block, BlockHash, BlockHeader, ServiceFlags, Transaction, Txid};
use nakamoto_p2p::fsm::event::{Event, TxStatus};
use nakamoto_p2p::fsm::output::NetworkMessage;
use nakamoto_p2p::fsm::{Disconnect, DisconnectReason, Fault, FeeEstimate};
use nakamoto_p2p::net::{Link, SocketAddr, Source};
use nakamoto_p2p::time::LocalTime;

const GENESIS_HASH: &str = "000000000019d6689c085ae165831e934ff763ae46a2a6c172b3f1b60a8ce26f";
const GENESIS_MERKLE_ROOT: &str = "4a5e1e4baab89f3a32518a88c31bc87f618f76673e2cc77ab2127b7afdeda33b";
const GENESIS_COINBASE: &str = "01000000010000000000000000000000000000000000000000000000000000000000000000ffffffff4d04ffff001d0104455468652054696d65732030332f4a616e2f32303039204368616e63656c6c6f72206f6e206272696e6b206f66207365636f6e64206261696c6f757420666f722062616e6b73ffffffff0100f2052a01000000434104678afdb0fe5548271967f1a67130b7105cd6a828e03909a67962e0ea1f61deb649f6bc3f4cef38c4f35504e51ec112de5c384df7ba0b8d578a4c702b6bf11d5fac00000000";

fn unhex(text: &str) -> Vec<u8> {
    let digits: Vec<u8> = text
        .chars()
        .map(|c| c.to_digit(16).expect("a hexadecimal digit") as u8)
        .collect();
    digits.chunks(2).map(|pair| pair[0] * 16 + pair[1]).collect()
}

/// The 32 bytes that are displayed as `text`: hashes are displayed last byte
/// first.
fn displayed(text: &str) -> [u8; 32] {
    let mut bytes = unhex(text);
    bytes.reverse();
    let mut array = [0u8; 32];
    array.copy_from_slice(&bytes);
    array
}

fn genesis_header() -> BlockHeader {
    BlockHeader {
        version: 1,
        prev_blockhash: BlockHash::all_zeros(),
        merkle_root: displayed(GENESIS_MERKLE_ROOT),
        time: 1231006505,
        bits: 0x1d00ffff,
        nonce: 2083236893,
    }
}

fn genesis_coinbase() -> Transaction {
    Transaction::from_bytes(unhex(GENESIS_COINBASE)).expect("a valid transaction")
}

fn peer() -> SocketAddr {
    SocketAddr::V4 { ip: 0xc0a8_0105, port: 8333 }
}

fn fault(message: &str) -> Arc<Fault> {
    Arc::new(Fault { message: String::from(message) })
}

fn receiver() -> bitcoincash::network::address::Address {
    bitcoincash::network::address::Address {
        services: bitcoincash::network::constants::ServiceFlags::NONE,
        address: [0; 8],
        port: 0,
    }
}

fn connected() -> nonempty::NonEmpty<(u64, BlockHeader)> {
    nonempty::NonEmpty::new((0, genesis_header()))
}

#[test]
fn test_hash_text_is_hex_last_byte_first() {
    let mut bytes = [0u8; 32];
    for (i, byte) in bytes.iter_mut().enumerate() {
        *byte = i as u8;
    }
    let expected = "1f1e1d1c1b1a191817161514131211100f0e0d0c0b0a09080706050403020100";
    assert_eq!(BlockHash { bytes }.to_string(), expected);
    assert_eq!(BlockHash { bytes }.to_debug_string(), expected);
    assert_eq!(Txid { bytes }.to_string(), expected);
    assert_eq!(
        BlockHash::all_zeros().to_string(),
        "0000000000000000000000000000000000000000000000000000000000000000"
    );
    assert_eq!(Txid::all_zeros().bytes, [0u8; 32]);
}

#[test]
fn test_block_hash_of_genesis_header() {
    let header = genesis_header();
    assert_eq!(header.block_hash().bytes, displayed(GENESIS_HASH));
    assert_eq!(header.block_hash().to_string(), GENESIS_HASH);

    let block = Block { header, txdata: vec![genesis_coinbase()] };
    assert_eq!(block.block_hash(), header.block_hash());

    // Every field of the header goes into the hash.
    let changed = [
        BlockHeader { version: 2, ..header },
        BlockHeader { prev_blockhash: BlockHash { bytes: [1; 32] }, ..header },
        BlockHeader { merkle_root: [0; 32], ..header },
        BlockHeader { time: header.time + 1, ..header },
        BlockHeader { bits: header.bits + 1, ..header },
        BlockHeader { nonce: header.nonce + 1, ..header },
    ];
    for other in changed {
        assert_ne!(other.block_hash(), header.block_hash());
    }
}

#[test]
fn test_txid_of_genesis_coinbase() {
    let transaction = genesis_coinbase();
    assert_eq!(transaction.txid().bytes, displayed(GENESIS_MERKLE_ROOT));
    assert_eq!(transaction.txid().to_string(), GENESIS_MERKLE_ROOT);
    assert_eq!(transaction.as_bytes(), &unhex(GENESIS_COINBASE));
    assert_eq!(transaction.clone(), transaction);
    assert_eq!(transaction.clone().txid(), transaction.txid());
}

#[test]
fn test_bytes_that_are_no_transaction_are_refused() {
    assert!(Transaction::from_bytes(Vec::new()).is_none());
    assert!(Transaction::from_bytes(vec![1, 2, 3]).is_none());
    let mut raw = unhex(GENESIS_COINBASE);
    raw.push(0);
    assert!(Transaction::from_bytes(raw).is_none());
    let mut raw = unhex(GENESIS_COINBASE);
    raw.pop();
    assert!(Transaction::from_bytes(raw).is_none());
}

#[test]
fn test_service_flags_text() {
    assert_eq!(ServiceFlags { bits: 0 }.to_string(), "ServiceFlags(NONE)");
    assert_eq!(ServiceFlags { bits: 1 }.to_string(), "ServiceFlags(NETWORK)");
    assert_eq!(ServiceFlags { bits: 1 | 4 | 64 }.to_string(), "ServiceFlags(NETWORK|BLOOM|COMPACT_FILTERS)");
    assert_eq!(ServiceFlags { bits: 1 | 0x20 }.to_string(), "ServiceFlags(NETWORK|0x20)");
    assert_eq!(ServiceFlags { bits: 0x100 }.to_string(), "ServiceFlags(0x100)");
}

#[test]
fn test_event_text_of_the_lifecycle() {
    assert_eq!(Event::Initializing.to_string(), "Initializing peer-to-peer system..");
    assert_eq!(
        Event::Ready { tip: 1, filter_tip: 2, time: LocalTime::from_secs(3) }.to_string(),
        "Ready to process events and commands"
    );
    assert_eq!(
        Event::AddressBookExhausted.to_string(),
        "Address book exhausted.. fetching new addresses from peers"
    );
    assert_eq!(Event::Error { error: fault("disk is full") }.to_string(), "Error: disk is full");
}

#[test]
fn test_event_text_of_peers() {
    assert_eq!(
        Event::PeerConnecting { addr: peer(), source: Source::Dns, services: ServiceFlags { bits: 1 } }
            .to_string(),
        "Connecting to peer 192.168.1.5:8333"
    );
    assert_eq!(
        Event::PeerConnected { addr: peer(), local_addr: SocketAddr::V4 { ip: 0, port: 1 }, link: Link::Inbound }
            .to_string(),
        "Peer 192.168.1.5:8333 connected (Inbound)"
    );
    assert_eq!(
        Event::PeerConnected { addr: peer(), local_addr: SocketAddr::V4 { ip: 0, port: 1 }, link: Link::Outbound }
            .to_string(),
        "Peer 192.168.1.5:8333 connected (Outbound)"
    );
    assert_eq!(Event::PeerTimedOut { addr: peer() }.to_string(), "Peer 192.168.1.5:8333 timed out");
    assert_eq!(
        Event::PeerMisbehaved { addr: peer(), reason: "too many headers" }.to_string(),
        "Peer 192.168.1.5:8333 misbehaved: too many headers"
    );
    assert_eq!(
        Event::PeerConnectionFailed { addr: peer(), error: fault("connection refused") }.to_string(),
        "Peer connection attempt to 192.168.1.5:8333 failed with connection refused"
    );
    assert_eq!(Event::PeerHeightUpdated { height: 700_000 }.to_string(), "Peer height updated to 700000");
    assert_eq!(
        Event::PeerNegotiated {
            addr: SocketAddr::V6 { ip: 1, port: 18333, flowinfo: 0, scope_id: 0 },
            link: Link::Outbound,
            services: ServiceFlags { bits: 1 | 4 },
            persistent: true,
            height: 123,
            receiver: receiver(),
            user_agent: String::from("/agent/"),
            version: 70016,
            relay: false,
        }
        .to_string(),
        "Peer [::1]:18333 negotiated with services ServiceFlags(NETWORK|BLOOM) and height 123.."
    );
    assert_eq!(
        Event::PeerLoadedBloomFilter {
            filter: bitcoincash::network::message_bloom::FilterLoad {
                filter: vec![1, 2, 3],
                hash_funcs: 4,
                tweak: 5,
                flags: bitcoincash::network::message_bloom::BloomFlags::All,
            },
            peer: peer(),
        }
        .to_string(),
        "Bloom filter loaded to peer 192.168.1.5:8333"
    );
}

#[test]
fn test_event_text_of_disconnections() {
    let text = |reason: Disconnect| Event::PeerDisconnected { addr: peer(), reason }.to_string();
    assert_eq!(
        text(Disconnect::StateMachine(DisconnectReason::PeerTimeout("ping"))),
        "Disconnected from 192.168.1.5:8333 (peer timed out: \"ping\")"
    );
    assert_eq!(
        text(Disconnect::StateMachine(DisconnectReason::PeerMisbehaving("spam"))),
        "Disconnected from 192.168.1.5:8333 (peer misbehaving: spam)"
    );
    assert_eq!(
        text(Disconnect::StateMachine(DisconnectReason::PeerMagic(3652501241))),
        "Disconnected from 192.168.1.5:8333 (received message with invalid magic: 3652501241)"
    );
    assert_eq!(
        text(Disconnect::DialError(fault("timed out"))),
        "Disconnected from 192.168.1.5:8333 (timed out)"
    );
    assert_eq!(
        text(Disconnect::ConnectionError(fault("reset by peer"))),
        "Disconnected from 192.168.1.5:8333 (reset by peer)"
    );

    assert_eq!(DisconnectReason::PeerProtocolVersion(1).to_string(), "peer protocol version mismatch");
    assert_eq!(
        DisconnectReason::PeerServices(ServiceFlags { bits: 0 }).to_string(),
        "peer doesn't have the required services"
    );
    assert_eq!(DisconnectReason::PeerHeight(5).to_string(), "peer is too far behind");
    assert_eq!(DisconnectReason::SelfConnection.to_string(), "detected self-connection");
    assert_eq!(DisconnectReason::ConnectionLimit.to_string(), "inbound connection limit reached");
    assert_eq!(DisconnectReason::Command.to_string(), "received external command");
    assert_eq!(DisconnectReason::Other("because").to_string(), "because");
}

#[test]
fn test_event_text_of_blocks() {
    let header = genesis_header();
    let hash = header.block_hash();
    let block = Block { header, txdata: vec![genesis_coinbase()] };

    assert_eq!(
        Event::BlockHeadersSynced { height: 0, hash }.to_string(),
        format!("Chain in sync with network at height 0 ({})", GENESIS_HASH)
    );
    assert_eq!(
        Event::BlockConnected { header, height: 18446744073709551615 }.to_string(),
        format!("Block {} connected at height 18446744073709551615", GENESIS_HASH)
    );
    assert_eq!(
        Event::BlockDisconnected { header, height: 10 }.to_string(),
        format!("Block {} disconnected at height 10", GENESIS_HASH)
    );
    assert_eq!(
        Event::BlockProcessed { block: block.clone(), height: 7, fees: None }.to_string(),
        format!("Block {} processed at height 7", GENESIS_HASH)
    );
    assert_eq!(
        Event::BlockMatched { height: 99, block }.to_string(),
        "Block matched at height 99"
    );
    assert_eq!(
        Event::BlockHeadersImported {
            hash,
            height: 1,
            connected: connected(),
            reverted: Vec::new(),
            reorg: false,
        }
        .to_string(),
        format!("Chain tip updated to {} at height 1 (reorg=false)", GENESIS_HASH)
    );
    assert_eq!(
        Event::BlockFilterImported {
            hash,
            height: 2,
            connected: connected(),
            reverted: vec![(1, header)],
            reorg: true,
        }
        .to_string(),
        format!("Block Filters imported to {} at height 2 (reorg=true)", GENESIS_HASH)
    );
    assert_eq!(
        Event::FeeEstimated { block: hash, height: 5, fees: FeeEstimate { low: 1, median: 12, high: 300 } }
            .to_string(),
        "Transaction median fee rate for block #5 is 12 sat/vB"
    );
    let merkle_block = bitcoincash::util::merkleblock::MerkleBlock {
        header: bitcoincash::consensus::deserialize(&[0u8; 80]).expect("80 bytes make a header"),
        txn: bitcoincash::util::merkleblock::PartialMerkleTree::from_txids(
            &[bitcoin_hashes::Hash::from_inner([7u8; 32])],
            &[true],
        ),
    };
    assert_eq!(
        Event::ReceivedMerkleBlock { height: 4, merkle_block, peer: peer() }.to_string(),
        "MerkleBlock received at height 4 from 192.168.1.5:8333"
    );
}

#[test]
fn test_event_text_of_filters_and_scans() {
    let hash = genesis_header().block_hash();
    assert_eq!(
        Event::FilterRescanStarted { start: 5, stop: Some(10) }.to_string(),
        "Rescan started from height 5 to 10"
    );
    assert_eq!(
        Event::FilterRescanStarted { start: 5, stop: None }.to_string(),
        "Rescan started from height 5"
    );
    assert_eq!(Event::FilterRescanStopped { height: 11 }.to_string(), "Rescan completed at height 11");
    assert_eq!(
        Event::FilterHeadersSynced { height: 12 }.to_string(),
        "Filter headers synced up to height 12"
    );
    assert_eq!(
        Event::FilterReceived {
            from: peer(),
            filter: bitcoincash::util::bip158::BlockFilter { content: vec![1, 2] },
            height: 0,
            block: hash,
        }
        .to_string(),
        format!("Filter for block {} received from 192.168.1.5:8333", GENESIS_HASH)
    );
    assert_eq!(
        Event::FilterProcessed { block: hash, height: 13, matched: true, valid: true, cached: false }
            .to_string(),
        "Filter processed at height 13 (match = true)"
    );
    assert_eq!(
        Event::FilterProcessed { block: hash, height: 14, matched: false, valid: true, cached: true }
            .to_string(),
        "Filter processed at height 14 (match = false)"
    );
    assert_eq!(Event::Scanned { height: 15 }.to_string(), "Chain scanned up to height 15");
    assert_eq!(
        Event::MerkleBlockScanStarted { start: 16, stop: Some(20), peer: peer() }.to_string(),
        "A merkle block rescan started at height 16"
    );
    assert_eq!(
        Event::MerkleBlockRescanStopped { height: 17, peer: peer() }.to_string(),
        "A merkle block resan stopped 17"
    );
}

#[test]
fn test_event_text_of_transactions_and_messages() {
    let transaction = genesis_coinbase();
    let txid = transaction.txid();
    assert_eq!(
        Event::ReceivedMatchedTx { transaction: transaction.clone() }.to_string(),
        format!("Received transaction match {}", GENESIS_MERKLE_ROOT)
    );
    assert_eq!(
        Event::TxStatusChanged { txid, status: TxStatus::Unconfirmed }.to_string(),
        format!("Transaction {} status changed: transaction is unconfirmed", GENESIS_MERKLE_ROOT)
    );
    assert_eq!(
        Event::TxStatusChanged { txid, status: TxStatus::Reverted { transaction } }.to_string(),
        format!(
            "Transaction {} status changed: transaction {} has been reverted",
            GENESIS_MERKLE_ROOT, GENESIS_MERKLE_ROOT
        )
    );
    let message = |m: NetworkMessage| Event::MessageReceived { from: peer(), message: Arc::new(m) }.to_string();
    assert_eq!(message(NetworkMessage::Ping(1)), "Message `ping` received from 192.168.1.5:8333");
    assert_eq!(message(NetworkMessage::Pong(1)), "Message `pong` received from 192.168.1.5:8333");
    assert_eq!(
        message(NetworkMessage::Other { command: "getheaders" }),
        "Message `getheaders` received from 192.168.1.5:8333"
    );
    assert_eq!(NetworkMessage::Ping(5).cmd(), bitcoincash::network::message::NetworkMessage::Ping(5).cmd());
    assert_eq!(NetworkMessage::Pong(5).cmd(), bitcoincash::network::message::NetworkMessage::Pong(5).cmd());
}

#[test]
fn test_event_text_is_the_same_every_time() {
    let event = Event::BlockHeadersSynced { height: 21, hash: genesis_header().block_hash() };
    let first = event.to_string();
    assert_eq!(event.to_string(), first);
    assert_eq!(event.clone().to_string(), first);
}
