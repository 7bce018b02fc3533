//! The transaction processor and the call processor.
//!
//! A transaction is handled in two steps so that no state is held across a
//! call to the value-transfer backend: [`begin_transaction`] checks the nonce
//! and says which backend call to make; after the call has succeeded,
//! [`complete_transaction`] checks the nonce again and commits block number,
//! receipt and nonce in one step.
use vstd::prelude::*;

use crate::abi::{
    decode_transfer_args, match_selector, selected_function, transfer_args_spec, transfer_log,
    transfer_log_spec, Erc20Function, Log, LogView,
};
use crate::codec::{
    ascii_chars, decode_prefixed_hex, decode_prefixed_hex_spec, hex_encode_prefixed, hex_prefixed,
    quantity, quantity_text,
};
use crate::error::ErrorKind;
use crate::state::{ProxyState, ProxyStateView, Receipt};
use crate::transaction::{opt_bytes, DecodedTransaction};
use vstd::string::StringSliceAdditionalSpecFns;

verus! {

/// The number of accepted transactions of `from`: 0 for a sender never seen.
pub open spec fn count_of(s: ProxyStateView, from: Seq<u8>) -> u64 {
    if s.nonces.contains_key(from) {
        s.nonces[from]
    } else {
        0
    }
}

/// A transaction is refused unless its nonce is its sender's count of
/// accepted transactions; it is refused as a replay when a receipt is already
/// stored under its hash.
///
/// Compatibility change: this is stricter than accepting any nonce above the
/// recorded value (and any nonce from a sender without a record). A first
/// transaction must carry nonce 0 and each later one the next nonce; a nonce
/// ahead of the count is refused. With the count read as "last accepted
/// nonce" the looser rule would refuse the next nonce after the first, and
/// accept a second transaction with an already used nonce after a gap.
pub open spec fn nonce_rejected(s: ProxyStateView, from: Seq<u8>, nonce: u64, hash: Seq<u8>) -> bool {
    nonce != count_of(s, from) || s.receipts.contains_key(hash)
}

/// A token transfer: a zero-value transaction to a contract whose call data
/// is a well-formed `transfer(to, amount)`.
pub open spec fn is_token_transfer(tx: DecodedTransaction) -> bool {
    tx.value == 0 && selected_function(tx.input@) == Some(Erc20Function::Transfer)
}

/// What the backend is asked to do for a transaction.
pub enum TxAction {
    /// Move `amount` of the native asset from `from` to `to`.
    NativeTransfer { from: Vec<u8>, to: Vec<u8>, amount: u64 },
    /// Move `amount_word` (a 32-byte big-endian word) of the token at `token` to `to`.
    TokenTransfer { token: Vec<u8>, to: Vec<u8>, amount_word: Vec<u8> },
    /// Nothing: an unknown or unsupported call, answered with an empty result.
    Ignore,
}

/// The outcome of [`begin_transaction`] on state `s`.
pub open spec fn begin_spec(s: ProxyStateView, tx: DecodedTransaction, r: Result<TxAction, ErrorKind>) -> bool {
    if nonce_rejected(s, tx.from@, tx.nonce, tx.hash@) {
        r == Err::<TxAction, ErrorKind>(ErrorKind::NonceTooLow)
    } else if tx.value > 0 {
        match tx.to {
            None => r == Err::<TxAction, ErrorKind>(ErrorKind::Decode),
            Some(to) => match r {
                Ok(TxAction::NativeTransfer { from: f, to: t, amount: a }) => f@ == tx.from@ && t@
                    == to@ && a == tx.value,
                _ => false,
            },
        }
    } else if is_token_transfer(tx) {
        if tx.to.is_none() || transfer_args_spec(tx.input@).is_none() {
            r == Err::<TxAction, ErrorKind>(ErrorKind::Decode)
        } else {
            match r {
                Ok(TxAction::TokenTransfer { token: k, to: t, amount_word: a }) => k@ == tx.to.unwrap()@
                    && t@ == transfer_args_spec(tx.input@).unwrap().0 && a@ == transfer_args_spec(
                    tx.input@,
                ).unwrap().1,
                _ => false,
            }
        }
    } else {
        r matches Ok(TxAction::Ignore)
    }
}

fn copy_bytes(b: &[u8]) -> (r: Vec<u8>)
    ensures
        r@ == b@,
{
    vstd::slice::slice_to_vec(b)
}

fn copy_opt(o: &Option<Vec<u8>>) -> (r: Option<Vec<u8>>)
    ensures
        opt_bytes(r) == opt_bytes(*o),
{
    match o {
        Some(v) => Some(copy_bytes(v.as_slice())),
        None => None,
    }
}

/// Checks the nonce of a decoded transaction and classifies it: a positive
/// value is a native transfer; a zero value with a `transfer` call is a token
/// transfer; anything else is ignored. The state is only read.
pub fn begin_transaction(state: &ProxyState, tx: &DecodedTransaction) -> (r: Result<TxAction, ErrorKind>)
    requires
        state.wf(),
        tx.wf(),
    ensures
        begin_spec(state@, *tx, r),
{
    if rejected(state, tx) {
        return Err(ErrorKind::NonceTooLow);
    }
    if tx.value > 0 {
        return match &tx.to {
            None => Err(ErrorKind::Decode),
            Some(to) => Ok(
                TxAction::NativeTransfer {
                    from: copy_bytes(tx.from.as_slice()),
                    to: copy_bytes(to.as_slice()),
                    amount: tx.value,
                },
            ),
        };
    }
    match match_selector(tx.input.as_slice()) {
        Some(Erc20Function::Transfer) => {
            let args = decode_transfer_args(tx.input.as_slice());
            match (&tx.to, args) {
                (Some(token), Some(a)) => Ok(
                    TxAction::TokenTransfer { token: copy_bytes(token.as_slice()), to: a.to, amount_word: a.amount },
                ),
                _ => Err(ErrorKind::Decode),
            }
        },
        _ => Ok(TxAction::Ignore),
    }
}

fn rejected(state: &ProxyState, tx: &DecodedTransaction) -> (r: bool)
    requires
        state.wf(),
    ensures
        r == nonce_rejected(state@, tx.from@, tx.nonce, tx.hash@),
{
    tx.nonce != state.transaction_count(tx.from.as_slice()) || state.has_receipt(tx.hash.as_slice())
}

/// The logs of a transaction's receipt: one `Transfer` log for a token
/// transfer, none otherwise.
pub open spec fn receipt_logs_spec(tx: DecodedTransaction) -> Seq<LogView> {
    if is_token_transfer(tx) && tx.to.is_some() && transfer_args_spec(tx.input@).is_some() {
        seq![
            transfer_log_spec(
                tx.to.unwrap()@,
                tx.from@,
                transfer_args_spec(tx.input@).unwrap().0,
                transfer_args_spec(tx.input@).unwrap().1,
            ),
        ]
    } else {
        seq![]
    }
}

/// The receipt synthesized for `tx` in block `block`.
pub open spec fn receipt_matches(rc: Receipt, tx: DecodedTransaction, block: u64) -> bool {
    &&& rc.transaction_hash@ == tx.hash@
    &&& rc.from@ == tx.from@
    &&& opt_bytes(rc.to) == opt_bytes(tx.to)
    &&& rc.block_number == block
    &&& rc.status
    &&& rc.logs@.map_values(|l: Log| l@) == receipt_logs_spec(tx)
}

/// The sender's count after one more accepted transaction.
pub open spec fn next_count(s: ProxyStateView, from: Seq<u8>) -> u64 {
    (count_of(s, from) + 1) as u64
}

/// The state after committing `tx`, whose receipt is `rc`, on state `s`.
pub open spec fn committed_view(s: ProxyStateView, tx: DecodedTransaction, rc: Receipt) -> ProxyStateView {
    ProxyStateView {
        block_number: (s.block_number + 1) as u64,
        nonces: s.nonces.insert(tx.from@, next_count(s, tx.from@)),
        receipts: s.receipts.insert(tx.hash@, rc),
    }
}

fn receipt_logs(tx: &DecodedTransaction) -> (r: Vec<Log>)
    requires
        tx.wf(),
    ensures
        r@.map_values(|l: Log| l@) == receipt_logs_spec(*tx),
{
    let mut logs: Vec<Log> = Vec::new();
    if tx.value == 0 {
        if let Some(Erc20Function::Transfer) = match_selector(tx.input.as_slice()) {
            if let Some(token) = &tx.to {
                if let Some(a) = decode_transfer_args(tx.input.as_slice()) {
                    let log = transfer_log(copy_bytes(token.as_slice()), tx.from.as_slice(), a.to.as_slice(), a.amount);
                    logs.push(log);
                    assert(logs@.map_values(|l: Log| l@) =~= receipt_logs_spec(*tx));
                    return logs;
                }
            }
        }
    }
    assert(logs@.map_values(|l: Log| l@) =~= receipt_logs_spec(*tx));
    logs
}

/// Commits a transaction whose backend call has succeeded: checks the nonce
/// again (another request may have been accepted meanwhile), then advances
/// the block counter, stores the receipt under the transaction hash and
/// counts one more transaction of the sender. Returns the hash. On
/// `NonceTooLow` the state is unchanged.
pub fn complete_transaction(state: &mut ProxyState, tx: &DecodedTransaction) -> (r: Result<Vec<u8>, ErrorKind>)
    requires
        old(state).wf(),
        tx.wf(),
        old(state)@.block_number < u64::MAX,
        old(state)@.nonces.contains_key(tx.from@) ==> old(state)@.nonces[tx.from@] < u64::MAX,
    ensures
        final(state).wf(),
        nonce_rejected(old(state)@, tx.from@, tx.nonce, tx.hash@) ==> r == Err::<Vec<u8>, ErrorKind>(
            ErrorKind::NonceTooLow) && final(state)@ == old(state)@,
        !nonce_rejected(old(state)@, tx.from@, tx.nonce, tx.hash@) ==> {
            &&& r.is_ok()
            &&& r.unwrap()@ == tx.hash@
            &&& final(state)@ == committed_view(old(state)@, *tx, final(state)@.receipts[tx.hash@])
            &&& receipt_matches(
                final(state)@.receipts[tx.hash@],
                *tx,
                (old(state)@.block_number + 1) as u64,
            )
        },
{
    if rejected(state, tx) {
        return Err(ErrorKind::NonceTooLow);
    }
    let ghost s0 = state@;
    let block = state.advance_block();
    let receipt = Receipt {
        transaction_hash: copy_bytes(tx.hash.as_slice()),
        from: copy_bytes(tx.from.as_slice()),
        to: copy_opt(&tx.to),
        block_number: block,
        status: true,
        logs: receipt_logs(tx),
    };
    let ghost rc = receipt;
    state.insert_receipt(receipt);
    state.increment_nonce(tx.from.as_slice());
    assert(state@.receipts[tx.hash@] == rc);
    assert(state@ == committed_view(s0, *tx, rc));
    Ok(copy_bytes(tx.hash.as_slice()))
}

/// Completes a transaction after its backend call: a failed call is
/// `BackendFailure` and leaves the state unchanged; otherwise as
/// [`complete_transaction`], with the hash as `0x`-prefixed hex text.
pub fn finish_transaction(state: &mut ProxyState, tx: &DecodedTransaction, backend_ok: bool) -> (r:
    Result<String, ErrorKind>)
    requires
        old(state).wf(),
        tx.wf(),
        old(state)@.block_number < u64::MAX,
        old(state)@.nonces.contains_key(tx.from@) ==> old(state)@.nonces[tx.from@] < u64::MAX,
    ensures
        final(state).wf(),
        !backend_ok ==> r == Err::<String, ErrorKind>(ErrorKind::BackendFailure) && final(state)@
            == old(state)@,
        backend_ok && nonce_rejected(old(state)@, tx.from@, tx.nonce, tx.hash@) ==> r == Err::<
            String,
            ErrorKind,
        >(ErrorKind::NonceTooLow) && final(state)@ == old(state)@,
        backend_ok && !nonce_rejected(old(state)@, tx.from@, tx.nonce, tx.hash@) ==> {
            &&& r.is_ok()
            &&& r.unwrap()@ == ascii_chars(hex_prefixed(tx.hash@))
            &&& final(state)@ == committed_view(old(state)@, *tx, final(state)@.receipts[tx.hash@])
            &&& receipt_matches(
                final(state)@.receipts[tx.hash@],
                *tx,
                (old(state)@.block_number + 1) as u64,
            )
        },
{
    if !backend_ok {
        return Err(ErrorKind::BackendFailure);
    }
    match complete_transaction(state, tx) {
        Ok(hash) => Ok(hex_encode_prefixed(hash.as_slice())),
        Err(e) => Err(e),
    }
}

/// The read-only query that an `eth_call` asks for.
#[derive(PartialEq, Eq, Structural, Clone, Copy, Debug)]
pub enum CallQuery {
    Balance,
    Symbol,
    Decimals,
    /// Not `0x`-prefixed hex, no known selector, or a function without a query: the answer
    /// is an empty string.
    Unsupported,
}

/// The query that `0x`-prefixed hex call data asks for.
pub open spec fn call_query_spec(data: Seq<u8>) -> CallQuery {
    match decode_prefixed_hex_spec(data) {
        None => CallQuery::Unsupported,
        Some(bytes) => match selected_function(bytes) {
            Some(Erc20Function::BalanceOf) => CallQuery::Balance,
            Some(Erc20Function::Symbol) => CallQuery::Symbol,
            Some(Erc20Function::Decimals) => CallQuery::Decimals,
            _ => CallQuery::Unsupported,
        },
    }
}

/// Classifies the hex call data of an `eth_call`.
pub fn plan_call(data: &str) -> (r: CallQuery)
    ensures
        r == call_query_spec(data.spec_bytes()),
{
    match decode_prefixed_hex(data.as_bytes()) {
        None => CallQuery::Unsupported,
        Some(bytes) => match match_selector(bytes.as_slice()) {
            Some(Erc20Function::BalanceOf) => CallQuery::Balance,
            Some(Erc20Function::Symbol) => CallQuery::Symbol,
            Some(Erc20Function::Decimals) => CallQuery::Decimals,
            _ => CallQuery::Unsupported,
        },
    }
}

/// The number of decimals that token queries report.
pub const TOKEN_DECIMALS: u128 = 13;

/// The answer to a `decimals()` call on any token.
pub fn get_decimals(token: &str) -> (r: String)
    ensures
        r@ == ascii_chars(quantity_text(TOKEN_DECIMALS as nat)),
{
    quantity(TOKEN_DECIMALS)
}

/// The answer to a `balanceOf` call for a token balance.
pub fn balance_result(balance: u128) -> (r: String)
    ensures
        r@ == ascii_chars(quantity_text(balance as nat)),
{
    quantity(balance)
}

} // verus!
