use eth_proxy::abi::{decode_transfer_args, match_selector, Erc20Function};
use eth_proxy::codec::{decode_hex, hex_encode, hex_encode_prefixed, quantity, word_to_u64};
use eth_proxy::error::ErrorKind;
use eth_proxy::ledger::{address_to_subaccount, native_balance_result, wei_to_e8s};
use eth_proxy::rpc::{
    fixed_answer, needs_update, parse_method, synthetic_block, transaction_count_result, RpcMethod,
};
use eth_proxy::state::ProxyState;

#[test]
fn hex_text() {
    assert_eq!(hex_encode_prefixed(&[0x01, 0xab, 0xff]), "0x01abff");
    assert_eq!(hex_encode_prefixed(&[]), "0x");
    assert_eq!(hex_encode(b"12"), "3132");
    assert_eq!(decode_hex(b"0x01aBfF"), Some(vec![0x01, 0xab, 0xff]));
    assert_eq!(decode_hex(b"01ab"), Some(vec![0x01, 0xab]));
    assert_eq!(decode_hex(b"0x"), Some(vec![]));
    assert_eq!(decode_hex(b"0x1"), None);
    assert_eq!(decode_hex(b"0xg0"), None);
}

#[test]
fn quantities() {
    assert_eq!(quantity(0), "0x0");
    assert_eq!(quantity(13), "0xD");
    assert_eq!(quantity(210000), "0x33450");
    assert_eq!(quantity(u128::MAX), "0xFFFFFFFFFFFFFFFFFFFFFFFFFFFFFFFF");
}

#[test]
fn words() {
    let mut w = vec![0u8; 32];
    w[31] = 1;
    w[24] = 2;
    assert_eq!(word_to_u64(&w), Some(0x0200_0000_0000_0001));
    w[23] = 1;
    assert_eq!(word_to_u64(&w), None);
}

#[test]
fn selectors() {
    assert_eq!(match_selector(&[0xa9, 0x05, 0x9c, 0xbb]), Some(Erc20Function::Transfer));
    assert_eq!(match_selector(&[0x70, 0xa0, 0x82, 0x31, 9]), Some(Erc20Function::BalanceOf));
    assert_eq!(match_selector(&[0x95, 0xd8, 0x9b, 0x41]), Some(Erc20Function::Symbol));
    assert_eq!(match_selector(&[0x31, 0x3c, 0xe5, 0x67]), Some(Erc20Function::Decimals));
    assert_eq!(match_selector(&[0x31, 0x3c, 0xe5]), None);
    assert_eq!(match_selector(&[0, 0, 0, 0]), None);
}

#[test]
fn transfer_arguments() {
    let mut d = vec![0xa9, 0x05, 0x9c, 0xbb];
    d.extend_from_slice(&[0u8; 12]);
    d.extend_from_slice(&[7u8; 20]);
    d.extend_from_slice(&[0u8; 31]);
    d.push(9);
    let a = decode_transfer_args(&d).unwrap();
    assert_eq!(a.to, vec![7u8; 20]);
    assert_eq!(a.amount.len(), 32);
    assert_eq!(a.amount[31], 9);
    d.pop();
    assert!(decode_transfer_args(&d).is_none());
}

#[test]
fn methods() {
    assert_eq!(parse_method("eth_sendRawTransaction"), RpcMethod::SendRawTransaction);
    assert_eq!(parse_method("eth_getTransactionReceipt"), RpcMethod::GetTransactionReceipt);
    assert_eq!(parse_method("eth_chainId"), RpcMethod::ChainId);
    assert_eq!(parse_method("eth_foo"), RpcMethod::Unrecognized);
    assert!(needs_update(RpcMethod::SendRawTransaction));
    assert!(needs_update(RpcMethod::BlockNumber));
    assert!(!needs_update(RpcMethod::GetTransactionCount));
    assert_eq!(fixed_answer(RpcMethod::ChainId), Some(String::from("255")));
    assert_eq!(fixed_answer(RpcMethod::NetVersion), Some(String::from("255")));
    assert_eq!(fixed_answer(RpcMethod::EstimateGas), Some(String::from("33450")));
    assert_eq!(fixed_answer(RpcMethod::GasPrice), Some(String::from("0")));
    assert_eq!(fixed_answer(RpcMethod::Call), None);
}

#[test]
fn block_header() {
    let b = synthetic_block(1_700_000_000_123_456_789);
    assert_eq!(b.base_fee_per_gas, "0");
    assert_eq!(b.gas_limit, "0");
    assert_eq!(b.gas_used, "0");
    assert_eq!(b.timestamp, "0x6553F100");
    assert_eq!(synthetic_block(0).timestamp, "0x0");
}

#[test]
fn transaction_count_text() {
    let s = ProxyState::new();
    assert_eq!(transaction_count_result(&s, "0x0101010101010101010101010101010101010101"), Ok(String::from("0x0")));
    assert_eq!(transaction_count_result(&s, "0xq"), Err(ErrorKind::Decode));
    assert_eq!(transaction_count_result(&s, "0101"), Err(ErrorKind::Decode));
}

#[test]
fn ledger_amounts() {
    assert_eq!(wei_to_e8s(1_000_000_000_000_000_000), 100_000_000);
    assert_eq!(wei_to_e8s(9_999_999_999), 0);
    assert_eq!(native_balance_result(1), "0x2540BE400");
    assert_eq!(native_balance_result(0), "0x0");
}

#[test]
fn subaccounts() {
    let s = address_to_subaccount("0x9d8a62f656a8d1615c1294fd71e9cfb3e4855a4f").unwrap();
    assert_eq!(s.len(), 32);
    assert_eq!(s[0], 0x9d);
    assert_eq!(s[19], 0x4f);
    assert_eq!(&s[20..], &[0u8; 12]);
    assert_eq!(address_to_subaccount("0x1234").err(), Some(ErrorKind::Decode));
    assert_eq!(address_to_subaccount("0xzz").err(), Some(ErrorKind::Decode));
    assert_eq!(address_to_subaccount("9d8a62f656a8d1615c1294fd71e9cfb3e4855a4f").err(), Some(ErrorKind::Decode));
}

#[test]
fn error_messages() {
    assert_eq!(ErrorKind::NotFound.message(), "not found");
    assert_eq!(ErrorKind::NonceTooLow.message(), "nonce too low");
}
