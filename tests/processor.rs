use eth_proxy::error::ErrorKind;
use eth_proxy::processor::{
    begin_transaction, complete_transaction, finish_transaction, plan_call, CallQuery, TxAction,
};
use eth_proxy::state::{ProxyState, StateSnapshot};
use eth_proxy::transaction::{decode_transaction, decode_transaction_hex, DecodedTransaction};

const SIGNED_LEGACY: &str = "0xf86c098504a817c800825208943535353535353535353535353535353535353535880de0b6b3a76400008025a028ef61340bd939bc2195fe537567866003e1a15d3c71ff63e1590620aa636276a067cbe9d8997f761aecb703304b3800ccf555c9f3dc64214b297fb1966a3b6d83";

fn addr(b: u8) -> Vec<u8> {
    vec![b; 20]
}

fn hash(b: u8) -> Vec<u8> {
    vec![b; 32]
}

fn transfer_call(to: &[u8], amount: u64) -> Vec<u8> {
    let mut d = vec![0xa9, 0x05, 0x9c, 0xbb];
    d.extend_from_slice(&[0u8; 12]);
    d.extend_from_slice(to);
    d.extend_from_slice(&[0u8; 24]);
    d.extend_from_slice(&amount.to_be_bytes());
    d
}

fn tx(from: u8, nonce: u64, value: u64, input: Vec<u8>, h: u8) -> DecodedTransaction {
    DecodedTransaction {
        from: addr(from),
        to: Some(addr(0x35)),
        nonce,
        value,
        input,
        hash: hash(h),
    }
}

fn hex(b: &[u8]) -> String {
    let mut s = String::from("0x");
    for x in b {
        s.push_str(&format!("{:02x}", x));
    }
    s
}

#[test]
fn decodes_signed_legacy_transaction() {
    let t = decode_transaction_hex(SIGNED_LEGACY).unwrap();
    assert_eq!(hex(&t.from), "0x9d8a62f656a8d1615c1294fd71e9cfb3e4855a4f");
    assert_eq!(t.to, Some(vec![0x35; 20]));
    assert_eq!(t.nonce, 9);
    assert_eq!(t.value, 1_000_000_000_000_000_000);
    assert!(t.input.is_empty());
    assert_eq!(t.hash.len(), 32);
    assert_ne!(t.hash, vec![0u8; 32]);
}

fn raw_bytes(text: &str) -> Vec<u8> {
    (2..text.len()).step_by(2).map(|i| u8::from_str_radix(&text[i..i + 2], 16).unwrap()).collect()
}

#[test]
fn same_bytes_give_same_hash() {
    let a = decode_transaction_hex(SIGNED_LEGACY).unwrap();
    let b = decode_transaction(&raw_bytes(SIGNED_LEGACY)).unwrap();
    assert_eq!(a.hash, b.hash);
    assert_eq!(a.from, b.from);
    assert_eq!(decode_transaction_hex(&SIGNED_LEGACY[2..]).err(), Some(ErrorKind::Decode));
}

fn typed_transaction(chain_id: &[u8]) -> Vec<u8> {
    let mut body = vec![0x80 + chain_id.len() as u8];
    body.extend_from_slice(chain_id);
    body.extend_from_slice(&[0x80, 0x80, 0x80, 0x80, 0x94]);
    body.extend_from_slice(&[0x35; 20]);
    body.extend_from_slice(&[0x80, 0x80, 0xc0, 0x80, 0x01, 0x01]);
    let mut raw = vec![0x02, 0xc0 + body.len() as u8];
    raw.extend_from_slice(&body);
    raw
}

#[test]
fn oversized_chain_id_is_decode_error() {
    let big = typed_transaction(&[1, 2, 3, 4, 5, 6, 7, 8, 9]);
    assert_eq!(decode_transaction(&big).err(), Some(ErrorKind::Decode));
    let text = hex(&big);
    assert_eq!(decode_transaction_hex(&text).err(), Some(ErrorKind::Decode));
    let small = typed_transaction(&[1, 2, 3, 4, 5, 6, 7, 8]);
    assert!(!matches!(decode_transaction(&small), Err(ErrorKind::Decode)));
}

#[test]
fn malformed_transaction_is_decode_error() {
    assert_eq!(decode_transaction_hex("0xzz").err(), Some(ErrorKind::Decode));
    assert_eq!(decode_transaction_hex("0xabc").err(), Some(ErrorKind::Decode));
    assert_eq!(decode_transaction(&[0xf8, 0x6c, 0x09]).err(), Some(ErrorKind::Decode));
    assert_eq!(decode_transaction(&[]).err(), Some(ErrorKind::Decode));
}

#[test]
fn native_transfer_end_to_end() {
    let t = decode_transaction_hex(SIGNED_LEGACY).unwrap();
    let fresh = ProxyState::new();
    assert_eq!(begin_transaction(&fresh, &t).err(), Some(ErrorKind::NonceTooLow));
    let mut s = ProxyState::restore(StateSnapshot {
        block_number: 0,
        nonce_addresses: vec![t.from.clone()],
        nonce_counts: vec![9],
        receipts: vec![],
    })
    .unwrap();
    match begin_transaction(&s, &t).unwrap() {
        TxAction::NativeTransfer { from, to, amount } => {
            assert_eq!(from, t.from);
            assert_eq!(to, vec![0x35; 20]);
            assert_eq!(amount, 1_000_000_000_000_000_000);
        }
        _ => panic!("expected a native transfer"),
    }
    let result = finish_transaction(&mut s, &t, true).unwrap();
    assert_eq!(result, hex(&t.hash));
    assert_eq!(s.nonce_of(&t.from), Some(10));
    let rc = s.get_receipt(&t.hash).unwrap();
    assert_eq!(rc.block_number, 1);
    assert!(rc.status);
    assert!(rc.logs.is_empty());
    assert_eq!(rc.from, t.from);
    assert_eq!(s.block_number(), 1);
}

#[test]
fn token_transfer_end_to_end() {
    let mut s = ProxyState::new();
    let t = tx(1, 0, 0, transfer_call(&addr(7), 500), 0xaa);
    match begin_transaction(&s, &t).unwrap() {
        TxAction::TokenTransfer { token, to, amount_word: amount } => {
            assert_eq!(token, addr(0x35));
            assert_eq!(to, addr(7));
            assert_eq!(amount[31], 0xf4);
            assert_eq!(amount[30], 0x01);
        }
        _ => panic!("expected a token transfer"),
    }
    let h = complete_transaction(&mut s, &t).unwrap();
    assert_eq!(h, hash(0xaa));
    let rc = s.get_receipt(&h).unwrap();
    assert_eq!(rc.logs.len(), 1);
    let log = &rc.logs[0];
    assert_eq!(log.address, addr(0x35));
    assert_eq!(log.topics.len(), 3);
    assert_eq!(hex(&log.topics[0]), "0xddf252ad1be2c89b69c2b068fc378daa952ba7f163c4a11628f55a4df523b3ef");
    let mut from_topic = vec![0u8; 12];
    from_topic.extend_from_slice(&addr(1));
    let mut to_topic = vec![0u8; 12];
    to_topic.extend_from_slice(&addr(7));
    assert_eq!(log.topics[1], from_topic);
    assert_eq!(log.topics[2], to_topic);
    let mut amount = vec![0u8; 30];
    amount.extend_from_slice(&[0x01, 0xf4]);
    assert_eq!(log.data, amount);
    assert_eq!(s.nonce_of(&addr(1)), Some(1));
}

#[test]
fn unknown_receipt_is_not_found() {
    let s = ProxyState::new();
    let text = hex(&hash(0x42));
    assert_eq!(eth_proxy::rpc::lookup_receipt(&s, &text).err(), Some(ErrorKind::NotFound));
    assert_eq!(eth_proxy::rpc::lookup_receipt(&s, "0xnothex").err(), Some(ErrorKind::Decode));
}

#[test]
fn interleaved_same_nonce_accepts_one() {
    let mut s = ProxyState::new();
    let first = tx(3, 0, 10, vec![], 0x01);
    let second = tx(3, 0, 20, vec![], 0x02);
    assert!(begin_transaction(&s, &first).is_ok());
    assert!(begin_transaction(&s, &second).is_ok());
    assert!(finish_transaction(&mut s, &first, true).is_ok());
    assert_eq!(finish_transaction(&mut s, &second, true).err(), Some(ErrorKind::NonceTooLow));
    assert_eq!(s.nonce_of(&addr(3)), Some(1));
    assert_eq!(s.block_number(), 1);
    assert!(!s.has_receipt(&hash(0x02)));
}

#[test]
fn native_transfer_fresh_sender() {
    let mut s = ProxyState::new();
    let t = tx(5, 0, 77, vec![], 0x06);
    match begin_transaction(&s, &t).unwrap() {
        TxAction::NativeTransfer { from, to, amount } => {
            assert_eq!(from, addr(5));
            assert_eq!(to, addr(0x35));
            assert_eq!(amount, 77);
        }
        _ => panic!("expected a native transfer"),
    }
    assert_eq!(finish_transaction(&mut s, &t, true).unwrap(), hex(&hash(0x06)));
    assert_eq!(s.nonce_of(&addr(5)), Some(1));
    assert_eq!(s.get_receipt(&hash(0x06)).unwrap().block_number, 1);
}

#[test]
fn nonce_gap_is_refused() {
    let mut s = ProxyState::new();
    assert_eq!(begin_transaction(&s, &tx(4, 5, 10, vec![], 0x07)).err(), Some(ErrorKind::NonceTooLow));
    assert_eq!(complete_transaction(&mut s, &tx(4, 5, 10, vec![], 0x07)).err(), Some(ErrorKind::NonceTooLow));
    assert_eq!(s.nonce_of(&addr(4)), None);
    assert_eq!(s.block_number(), 0);
}

#[test]
fn replay_is_refused() {
    let mut s = ProxyState::new();
    let t = tx(4, 0, 10, vec![], 0x05);
    assert!(complete_transaction(&mut s, &t).is_ok());
    assert_eq!(begin_transaction(&s, &t).err(), Some(ErrorKind::NonceTooLow));
    assert_eq!(complete_transaction(&mut s, &t).err(), Some(ErrorKind::NonceTooLow));
    assert_eq!(s.nonce_of(&addr(4)), Some(1));
}

#[test]
fn counter_counts_accepted_transactions() {
    let mut s = ProxyState::new();
    assert!(complete_transaction(&mut s, &tx(6, 0, 1, vec![], 0x10)).is_ok());
    assert_eq!(s.transaction_count(&addr(6)), 1);
    assert!(complete_transaction(&mut s, &tx(6, 1, 1, vec![], 0x11)).is_ok());
    assert_eq!(s.transaction_count(&addr(6)), 2);
    assert_eq!(complete_transaction(&mut s, &tx(6, 1, 2, vec![], 0x14)).err(), Some(ErrorKind::NonceTooLow));
    assert_eq!(complete_transaction(&mut s, &tx(6, 3, 1, vec![], 0x13)).err(), Some(ErrorKind::NonceTooLow));
    assert!(complete_transaction(&mut s, &tx(6, 2, 1, vec![], 0x12)).is_ok());
    assert_eq!(s.transaction_count(&addr(6)), 3);
    assert_eq!(s.transaction_count(&addr(9)), 0);
}

#[test]
fn block_counter_one_per_receipt() {
    let mut s = ProxyState::new();
    assert_eq!(s.block_number(), 0);
    assert_eq!(s.block_number(), 0);
    assert!(complete_transaction(&mut s, &tx(1, 0, 1, vec![], 0x20)).is_ok());
    assert_eq!(s.block_number(), 1);
    assert!(complete_transaction(&mut s, &tx(2, 0, 1, vec![], 0x21)).is_ok());
    assert_eq!(s.block_number(), 2);
    assert_eq!(s.get_receipt(&hash(0x21)).unwrap().block_number, 2);
    assert_eq!(s.advance_block(), 3);
    assert_eq!(s.block_number(), 3);
}

#[test]
fn unknown_selector_is_ignored() {
    let s = ProxyState::new();
    let t = tx(1, 0, 0, vec![0xde, 0xad, 0xbe, 0xef, 0, 0], 0x30);
    assert!(matches!(begin_transaction(&s, &t), Ok(TxAction::Ignore)));
    let short = tx(1, 0, 0, vec![0xa9], 0x31);
    assert!(matches!(begin_transaction(&s, &short), Ok(TxAction::Ignore)));
    let balance_of = tx(1, 0, 0, vec![0x70, 0xa0, 0x82, 0x31], 0x32);
    assert!(matches!(begin_transaction(&s, &balance_of), Ok(TxAction::Ignore)));
    assert_eq!(plan_call("0xdeadbeef"), CallQuery::Unsupported);
    assert_eq!(plan_call("not hex"), CallQuery::Unsupported);
    assert_eq!(s.block_number(), 0);
}

#[test]
fn truncated_transfer_call_is_decode_error() {
    let s = ProxyState::new();
    let mut data = transfer_call(&addr(7), 1);
    data.truncate(40);
    assert_eq!(begin_transaction(&s, &tx(1, 0, 0, data, 0x40)).err(), Some(ErrorKind::Decode));
    let mut creation = tx(1, 0, 5, vec![], 0x41);
    creation.to = None;
    assert_eq!(begin_transaction(&s, &creation).err(), Some(ErrorKind::Decode));
}

#[test]
fn backend_failure_commits_nothing() {
    let mut s = ProxyState::new();
    let t = tx(8, 0, 10, vec![], 0x50);
    assert_eq!(finish_transaction(&mut s, &t, false).err(), Some(ErrorKind::BackendFailure));
    assert_eq!(s.block_number(), 0);
    assert_eq!(s.nonce_of(&addr(8)), None);
    assert!(!s.has_receipt(&hash(0x50)));
}

#[test]
fn call_queries() {
    assert_eq!(plan_call("0x70a08231000000000000000000000000"), CallQuery::Balance);
    assert_eq!(plan_call("0x95d89b41"), CallQuery::Symbol);
    assert_eq!(plan_call("0x313ce567"), CallQuery::Decimals);
    assert_eq!(plan_call("313ce567"), CallQuery::Unsupported);
    assert_eq!(plan_call(""), CallQuery::Unsupported);
    assert_eq!(plan_call("0xa9059cbb"), CallQuery::Unsupported);
    assert_eq!(eth_proxy::processor::get_decimals("aanaa-xaaaa-aaaah-aaeiq-cai"), "0xD");
    assert_eq!(eth_proxy::processor::balance_result(255), "0xFF");
}

#[test]
fn snapshot_round_trip() {
    let mut s = ProxyState::new();
    assert!(complete_transaction(&mut s, &tx(1, 0, 1, vec![], 0x60)).is_ok());
    assert!(complete_transaction(&mut s, &tx(2, 0, 0, transfer_call(&addr(3), 9), 0x61)).is_ok());
    s.advance_block();
    let r = ProxyState::restore(s.into_snapshot()).unwrap();
    assert_eq!(r.block_number(), 3);
    assert_eq!(r.nonce_of(&addr(1)), Some(1));
    assert_eq!(r.nonce_of(&addr(2)), Some(1));
    assert_eq!(r.get_receipt(&hash(0x61)).unwrap().logs.len(), 1);
    assert_eq!(r.get_receipt(&hash(0x60)).unwrap().block_number, 1);
}

#[test]
fn corrupt_snapshot_is_refused() {
    let dup = StateSnapshot {
        block_number: 0,
        nonce_addresses: vec![addr(1), addr(1)],
        nonce_counts: vec![1, 2],
        receipts: vec![],
    };
    assert_eq!(ProxyState::restore(dup).err(), Some(ErrorKind::StateCorrupt));
    let uneven = StateSnapshot {
        block_number: 0,
        nonce_addresses: vec![addr(1)],
        nonce_counts: vec![],
        receipts: vec![],
    };
    assert_eq!(ProxyState::restore(uneven).err(), Some(ErrorKind::StateCorrupt));
    let mut s = ProxyState::new();
    assert!(complete_transaction(&mut s, &tx(1, 0, 1, vec![], 0x70)).is_ok());
    let mut snap = s.into_snapshot();
    snap.block_number = 0;
    assert_eq!(ProxyState::restore(snap).err(), Some(ErrorKind::StateCorrupt));
    let empty = StateSnapshot { block_number: 7, nonce_addresses: vec![], nonce_counts: vec![], receipts: vec![] };
    assert_eq!(ProxyState::restore(empty).unwrap().block_number(), 7);
}
