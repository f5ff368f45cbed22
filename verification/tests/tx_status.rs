use nakamoto_p2p::chain::{BlockHash, Transaction, Txid};
use nakamoto_p2p::fsm::event::TxStatus;
use nakamoto_p2p::net::SocketAddr;

/// A transaction with random contents, in its consensus encoding.
fn transaction(rng: &mut fastrand::Rng) -> Transaction {
    let mut script = Vec::new();
    for _ in 0..rng.usize(1..64) {
        script.push(rng.u8(..));
    }
    let mut txid = [0u8; 32];
    for byte in txid.iter_mut() {
        *byte = rng.u8(..);
    }
    let outside = bitcoincash::Transaction {
        version: 1,
        lock_time: bitcoincash::PackedLockTime(rng.u32(..)),
        input: vec![bitcoincash::TxIn {
            previous_output: bitcoincash::OutPoint {
                txid: bitcoin_hashes::Hash::from_inner(txid),
                vout: rng.u32(0..16),
            },
            script_sig: bitcoincash::Script::new(),
            sequence: bitcoincash::Sequence(0xffff_ffff),
            witness: bitcoincash::Witness::default(),
        }],
        output: vec![bitcoincash::TxOut {
            value: rng.u64(1..100_000_000),
            script_pubkey: bitcoincash::Script::from(script),
            token: None,
        }],
    };
    let raw = bitcoincash::consensus::serialize(&outside);
    let transaction = Transaction::from_bytes(raw).expect("the encoding is valid");
    assert_eq!(transaction.txid().bytes, bitcoin_hashes::Hash::into_inner(outside.txid()));
    transaction
}

fn zero_peer() -> SocketAddr {
    SocketAddr::V4 { ip: 0, port: 0 }
}

fn hash(first: u8, last: u8) -> BlockHash {
    let mut bytes = [0u8; 32];
    bytes[0] = first;
    bytes[31] = last;
    BlockHash { bytes }
}

#[test]
fn test_tx_status_ordering() {
    assert!(TxStatus::Unconfirmed < TxStatus::Acknowledged { peer: zero_peer() });
    assert!(
        TxStatus::Acknowledged { peer: zero_peer() }
            < TxStatus::Confirmed {
                height: 0,
                block: BlockHash::all_zeros(),
            }
    );
    assert!(
        TxStatus::Confirmed {
            height: 0,
            block: BlockHash::all_zeros(),
        } < TxStatus::Reverted {
            transaction: transaction(&mut fastrand::Rng::new())
        }
    );
    assert!(
        TxStatus::Reverted {
            transaction: transaction(&mut fastrand::Rng::new())
        } < TxStatus::Stale {
            replaced_by: Txid::all_zeros(),
            block: BlockHash::all_zeros()
        }
    );
}

#[test]
fn test_tx_status_order_ignores_fields_across_kinds() {
    let late_peer = SocketAddr::V6 { ip: u128::MAX, port: 65535, flowinfo: 7, scope_id: 9 };
    let high = TxStatus::Confirmed { height: u64::MAX, block: hash(0xff, 0xff) };
    let reverted = TxStatus::Reverted { transaction: transaction(&mut fastrand::Rng::with_seed(1)) };
    let stale = TxStatus::Stale { replaced_by: Txid::all_zeros(), block: BlockHash::all_zeros() };

    assert!(TxStatus::Unconfirmed < TxStatus::Acknowledged { peer: late_peer });
    assert!(TxStatus::Acknowledged { peer: late_peer } < TxStatus::Confirmed { height: 0, block: BlockHash::all_zeros() });
    assert!(high < reverted);
    assert!(reverted < stale);
    assert!(TxStatus::Unconfirmed < stale);
    assert!(stale > high);
    assert!(!(stale < TxStatus::Unconfirmed));
}

#[test]
fn test_tx_status_confirmed_orders_by_height_then_block() {
    let confirmed = |height: u64, block: BlockHash| TxStatus::Confirmed { height, block };

    assert!(confirmed(1, hash(9, 9)) < confirmed(2, hash(0, 0)));
    assert!(confirmed(2, hash(0, 1)) < confirmed(2, hash(1, 0)));
    assert!(confirmed(2, hash(1, 0)) < confirmed(2, hash(1, 1)));
    assert!(confirmed(2, hash(1, 1)) > confirmed(2, hash(1, 0)));
    assert!(confirmed(3, hash(0, 0)) > confirmed(2, hash(255, 255)));
    assert!(confirmed(2, hash(1, 1)) == confirmed(2, hash(1, 1)));
    assert!(confirmed(2, hash(1, 1)) != confirmed(2, hash(1, 2)));
    assert!(confirmed(2, hash(1, 1)) <= confirmed(2, hash(1, 1)));
}

#[test]
fn test_tx_status_acknowledged_orders_by_peer() {
    let ack = |peer: SocketAddr| TxStatus::Acknowledged { peer };
    let v4 = |ip: u32, port: u16| SocketAddr::V4 { ip, port };
    let v6 = |ip: u128, port: u16, flowinfo: u32, scope_id: u32| SocketAddr::V6 { ip, port, flowinfo, scope_id };

    assert!(ack(v4(1, 9)) < ack(v4(2, 0)));
    assert!(ack(v4(2, 0)) < ack(v4(2, 1)));
    assert!(ack(v4(u32::MAX, u16::MAX)) < ack(v6(0, 0, 0, 0)));
    assert!(ack(v6(1, 0, 0, 0)) < ack(v6(1, 1, 0, 0)));
    assert!(ack(v6(1, 1, 0, 5)) < ack(v6(1, 1, 1, 0)));
    assert!(ack(v6(1, 1, 1, 0)) < ack(v6(1, 1, 1, 1)));
    assert!(ack(v6(1, 1, 1, 1)) == ack(v6(1, 1, 1, 1)));
}

#[test]
fn test_tx_status_stale_and_reverted_order_by_fields() {
    let stale = |first: u8, block: BlockHash| {
        let mut bytes = [0u8; 32];
        bytes[0] = first;
        TxStatus::Stale { replaced_by: Txid { bytes }, block }
    };
    assert!(stale(1, hash(9, 9)) < stale(2, hash(0, 0)));
    assert!(stale(1, hash(0, 1)) < stale(1, hash(0, 2)));

    let a = transaction(&mut fastrand::Rng::with_seed(7));
    let b = transaction(&mut fastrand::Rng::with_seed(8));
    let (low, high) = if a.as_bytes() < b.as_bytes() { (a, b) } else { (b, a) };
    let same = low.clone();
    assert!(TxStatus::Reverted { transaction: low.clone() } < TxStatus::Reverted { transaction: high.clone() });
    assert!(TxStatus::Reverted { transaction: high } > TxStatus::Reverted { transaction: low.clone() });
    assert!(TxStatus::Reverted { transaction: low } == TxStatus::Reverted { transaction: same });
}

#[test]
fn test_tx_status_order_agrees_with_total_order() {
    let mut all = vec![
        TxStatus::Stale { replaced_by: Txid::all_zeros(), block: BlockHash::all_zeros() },
        TxStatus::Confirmed { height: 5, block: hash(1, 0) },
        TxStatus::Unconfirmed,
        TxStatus::Reverted { transaction: transaction(&mut fastrand::Rng::with_seed(3)) },
        TxStatus::Confirmed { height: 5, block: hash(0, 1) },
        TxStatus::Acknowledged { peer: zero_peer() },
        TxStatus::Confirmed { height: 4, block: hash(7, 7) },
    ];
    all.sort();
    for pair in all.windows(2) {
        assert!(pair[0] < pair[1]);
        assert!(pair[0].precedes(&pair[1]));
        assert!(!pair[1].precedes(&pair[0]));
        assert!(!pair[0].same(&pair[1]));
    }
    assert!(matches!(all[0], TxStatus::Unconfirmed));
    assert!(matches!(all[1], TxStatus::Acknowledged { .. }));
    assert!(matches!(all[2], TxStatus::Confirmed { height: 4, .. }));
    assert!(matches!(all[6], TxStatus::Stale { .. }));
}

#[test]
fn test_tx_status_text() {
    let block = hash(0x01, 0xab);
    assert_eq!(TxStatus::Unconfirmed.to_string(), "transaction is unconfirmed");
    assert_eq!(
        TxStatus::Acknowledged { peer: SocketAddr::V4 { ip: 0x7f00_0001, port: 8333 } }.to_string(),
        "transaction was acknowledged by peer 127.0.0.1:8333"
    );
    assert_eq!(
        TxStatus::Confirmed { height: 42, block }.to_string(),
        "transaction was included in block ab00000000000000000000000000000000000000000000000000000000000001 at height 42"
    );
    assert_eq!(
        TxStatus::Stale { replaced_by: Txid::all_zeros(), block }.to_string(),
        "transaction was replaced by 0000000000000000000000000000000000000000000000000000000000000000 in block ab00000000000000000000000000000000000000000000000000000000000001"
    );
    let tx = transaction(&mut fastrand::Rng::with_seed(11));
    let id = tx.txid().to_string();
    assert_eq!(id.len(), 64);
    assert_eq!(
        TxStatus::Reverted { transaction: tx }.to_string(),
        format!("transaction {} has been reverted", id)
    );
}
