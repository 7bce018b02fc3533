//! Routing of JSON-RPC methods and the answers that need no backend.
use vstd::prelude::*;

use crate::codec::{
    ascii_chars, bytes_eq, decode_prefixed_hex, decode_prefixed_hex_spec, quantity, quantity_text,
};
use crate::error::ErrorKind;
use crate::state::{ProxyState, Receipt};
use vstd::string::StringSliceAdditionalSpecFns;

verus! {

/// The JSON-RPC methods that the proxy knows.
#[derive(PartialEq, Eq, Structural, Clone, Copy, Debug)]
pub enum RpcMethod {
    Call,
    NetVersion,
    ChainId,
    BlockNumber,
    EstimateGas,
    GasPrice,
    GetBlockByNumber,
    GetBlockByHash,
    GetBalance,
    GetTransactionCount,
    GetTransactionReceipt,
    SendRawTransaction,
    /// Any other name; answered with an empty string.
    Unrecognized,
}

/// The method a request names.
pub open spec fn method_of(name: Seq<char>) -> RpcMethod {
    if name == "eth_call"@ {
        RpcMethod::Call
    } else if name == "net_version"@ {
        RpcMethod::NetVersion
    } else if name == "eth_chainId"@ {
        RpcMethod::ChainId
    } else if name == "eth_blockNumber"@ {
        RpcMethod::BlockNumber
    } else if name == "eth_estimateGas"@ {
        RpcMethod::EstimateGas
    } else if name == "eth_gasPrice"@ {
        RpcMethod::GasPrice
    } else if name == "eth_getBlockByNumber"@ {
        RpcMethod::GetBlockByNumber
    } else if name == "eth_getBlockByHash"@ {
        RpcMethod::GetBlockByHash
    } else if name == "eth_getBalance"@ {
        RpcMethod::GetBalance
    } else if name == "eth_getTransactionCount"@ {
        RpcMethod::GetTransactionCount
    } else if name == "eth_getTransactionReceipt"@ {
        RpcMethod::GetTransactionReceipt
    } else if name == "eth_sendRawTransaction"@ {
        RpcMethod::SendRawTransaction
    } else {
        RpcMethod::Unrecognized
    }
}

fn name_is(name: &str, lit: &str) -> (r: bool)
    ensures
        r == (name@ == lit@),
{
    let r = bytes_eq(name.as_bytes(), lit.as_bytes());
    proof {
        vstd::utf8::encode_utf8_decode_utf8(name@);
        vstd::utf8::encode_utf8_decode_utf8(lit@);
    }
    r
}

/// Resolves a method name, once, at the dispatcher's boundary.
pub fn parse_method(name: &str) -> (r: RpcMethod)
    ensures
        r == method_of(name@),
{
    if name_is(name, "eth_call") {
        RpcMethod::Call
    } else if name_is(name, "net_version") {
        RpcMethod::NetVersion
    } else if name_is(name, "eth_chainId") {
        RpcMethod::ChainId
    } else if name_is(name, "eth_blockNumber") {
        RpcMethod::BlockNumber
    } else if name_is(name, "eth_estimateGas") {
        RpcMethod::EstimateGas
    } else if name_is(name, "eth_gasPrice") {
        RpcMethod::GasPrice
    } else if name_is(name, "eth_getBlockByNumber") {
        RpcMethod::GetBlockByNumber
    } else if name_is(name, "eth_getBlockByHash") {
        RpcMethod::GetBlockByHash
    } else if name_is(name, "eth_getBalance") {
        RpcMethod::GetBalance
    } else if name_is(name, "eth_getTransactionCount") {
        RpcMethod::GetTransactionCount
    } else if name_is(name, "eth_getTransactionReceipt") {
        RpcMethod::GetTransactionReceipt
    } else if name_is(name, "eth_sendRawTransaction") {
        RpcMethod::SendRawTransaction
    } else {
        RpcMethod::Unrecognized
    }
}

/// The methods that may change state or wait on a backend, and so are
/// answered on the update path.
pub open spec fn needs_update_spec(m: RpcMethod) -> bool {
    m == RpcMethod::Call || m == RpcMethod::BlockNumber || m == RpcMethod::GetBalance || m
        == RpcMethod::SendRawTransaction
}

pub fn needs_update(m: RpcMethod) -> (r: bool)
    ensures
        r == needs_update_spec(m),
{
    match m {
        RpcMethod::Call | RpcMethod::BlockNumber | RpcMethod::GetBalance
        | RpcMethod::SendRawTransaction => true,
        _ => false,
    }
}

/// The chain id and network version that the proxy reports.
pub open spec fn chain_id_text() -> Seq<char> {
    "255"@
}

/// The gas estimate that the proxy reports: 210000 in uppercase hex.
pub open spec fn gas_estimate_text() -> Seq<char> {
    "33450"@
}

/// The gas price that the proxy reports.
pub open spec fn gas_price_text() -> Seq<char> {
    "0"@
}

/// The constant answer of a method with no backing data, if it is one.
pub open spec fn fixed_answer_spec(m: RpcMethod) -> Option<Seq<char>> {
    match m {
        RpcMethod::NetVersion | RpcMethod::ChainId => Some(chain_id_text()),
        RpcMethod::EstimateGas => Some(gas_estimate_text()),
        RpcMethod::GasPrice => Some(gas_price_text()),
        _ => None,
    }
}

pub fn fixed_answer(m: RpcMethod) -> (r: Option<String>)
    ensures
        r.is_some() == fixed_answer_spec(m).is_some(),
        r.is_some() ==> r.unwrap()@ == fixed_answer_spec(m).unwrap(),
{
    match m {
        RpcMethod::NetVersion | RpcMethod::ChainId => Some("255".to_owned()),
        RpcMethod::EstimateGas => Some("33450".to_owned()),
        RpcMethod::GasPrice => Some("0".to_owned()),
        _ => None,
    }
}

/// A synthetic block header: no fees and no gas, and the time in seconds.
pub struct BaseBlock {
    pub base_fee_per_gas: String,
    pub gas_limit: String,
    pub gas_used: String,
    /// The time in seconds since the epoch, as a quantity.
    pub timestamp: String,
}

/// The timestamp field of a block at `nanos` nanoseconds since the epoch.
pub open spec fn block_timestamp_text(nanos: u64) -> Seq<u8> {
    quantity_text((nanos / 1_000_000_000) as nat)
}

/// The synthetic block at host time `nanos` (nanoseconds since the epoch).
pub fn synthetic_block(nanos: u64) -> (r: BaseBlock)
    ensures
        r.base_fee_per_gas@ == "0"@,
        r.gas_limit@ == "0"@,
        r.gas_used@ == "0"@,
        r.timestamp@ == ascii_chars(block_timestamp_text(nanos)),
{
    let timestamp = quantity((nanos / 1_000_000_000) as u128);
    BaseBlock {
        base_fee_per_gas: "0".to_owned(),
        gas_limit: "0".to_owned(),
        gas_used: "0".to_owned(),
        timestamp,
    }
}

/// The answer to `eth_getTransactionCount`: the sender's count as a quantity,
/// `0x0` for a sender never seen; `Decode` when the address is not `0x`-prefixed hex.
pub fn transaction_count_result(state: &ProxyState, address: &str) -> (r: Result<String, ErrorKind>)
    requires
        state.wf(),
    ensures
        decode_prefixed_hex_spec(address.spec_bytes()).is_none() ==> r == Err::<String, ErrorKind>(ErrorKind::Decode),
        decode_prefixed_hex_spec(address.spec_bytes()) matches Some(a) ==> r.is_ok() && r.unwrap()@
            == ascii_chars(
            quantity_text(
                if state@.nonces.contains_key(a) {
                    state@.nonces[a] as nat
                } else {
                    0
                },
            ),
        ),
{
    match decode_prefixed_hex(address.as_bytes()) {
        None => Err(ErrorKind::Decode),
        Some(a) => Ok(quantity(state.transaction_count(a.as_slice()) as u128)),
    }
}

/// The answer to `eth_getTransactionReceipt`: the receipt stored under the
/// hash; `Decode` when the hash is not `0x`-prefixed hex, `NotFound` when nothing is stored.
pub fn lookup_receipt<'a>(state: &'a ProxyState, hash: &str) -> (r: Result<&'a Receipt, ErrorKind>)
    requires
        state.wf(),
    ensures
        decode_prefixed_hex_spec(hash.spec_bytes()).is_none() ==> r == Err::<&Receipt, ErrorKind>(ErrorKind::Decode),
        decode_prefixed_hex_spec(hash.spec_bytes()) matches Some(h) ==> (if state@.receipts.contains_key(h) {
            r == Ok::<&Receipt, ErrorKind>(&state@.receipts[h])
        } else {
            r == Err::<&Receipt, ErrorKind>(ErrorKind::NotFound)
        }),
{
    match decode_prefixed_hex(hash.as_bytes()) {
        None => Err(ErrorKind::Decode),
        Some(h) => match state.get_receipt(h.as_slice()) {
            Some(rc) => Ok(rc),
            None => Err(ErrorKind::NotFound),
        },
    }
}

} // verus!
