//! Properties that relate several steps of the transaction processor.
use vstd::prelude::*;

use crate::abi::selected_function;
use crate::processor::{
    begin_spec, call_query_spec, committed_view, count_of, nonce_rejected, receipt_matches,
    CallQuery, TxAction,
};
use crate::codec::decode_prefixed_hex_spec;
use crate::state::{receipts_below, ProxyStateView, Receipt};
use crate::transaction::DecodedTransaction;

verus! {

/// Once a transaction is committed, any transaction with the same hash (the
/// same transaction again, however it was encoded on the wire) is refused as
/// `NonceTooLow`: one hash, one receipt.
pub proof fn lemma_same_hash_refused(
    s: ProxyStateView,
    tx: DecodedTransaction,
    rc: Receipt,
    again: DecodedTransaction,
)
    requires
        again.hash@ == tx.hash@,
    ensures
        nonce_rejected(committed_view(s, tx, rc), again.from@, again.nonce, again.hash@),
{
    assert(committed_view(s, tx, rc).receipts.contains_key(tx.hash@));
}

/// Each commit counts exactly one more transaction of its sender, whatever
/// nonce it carried, and leaves every other sender's count as it was.
pub proof fn lemma_count_advances_by_one(
    s: ProxyStateView,
    tx: DecodedTransaction,
    rc: Receipt,
    other: Seq<u8>,
)
    requires
        s.nonces.contains_key(tx.from@) ==> s.nonces[tx.from@] < u64::MAX,
    ensures
        committed_view(s, tx, rc).nonces[tx.from@] == (if s.nonces.contains_key(tx.from@) {
            s.nonces[tx.from@] + 1
        } else {
            1
        }),
        other != tx.from@ ==> committed_view(s, tx, rc).nonces.contains_key(other)
            == s.nonces.contains_key(other) && (s.nonces.contains_key(other)
            ==> committed_view(s, tx, rc).nonces[other] == s.nonces[other]),
{
}

/// After a commit, a new transaction from the same sender carrying the next
/// nonce is accepted: nonces n then n + 1 both succeed.
pub proof fn lemma_next_nonce_accepted(
    s: ProxyStateView,
    tx: DecodedTransaction,
    rc: Receipt,
    next: DecodedTransaction,
)
    requires
        !nonce_rejected(s, tx.from@, tx.nonce, tx.hash@),
        tx.nonce < u64::MAX,
        next.from@ == tx.from@,
        next.nonce == tx.nonce + 1,
        next.hash@ != tx.hash@,
        !s.receipts.contains_key(next.hash@),
    ensures
        !nonce_rejected(committed_view(s, tx, rc), next.from@, next.nonce, next.hash@),
        count_of(committed_view(s, tx, rc), tx.from@) == count_of(s, tx.from@) + 1,
{
    assert(committed_view(s, tx, rc).nonces.contains_key(tx.from@));
}

/// A transaction whose nonce is not its sender's count is refused, whatever
/// the gap: no nonce is accepted ahead of or behind the count.
pub proof fn lemma_only_count_accepted(s: ProxyStateView, tx: DecodedTransaction)
    requires
        tx.nonce != count_of(s, tx.from@),
    ensures
        nonce_rejected(s, tx.from@, tx.nonce, tx.hash@),
{
}

/// Two requests from one sender with the same nonce, the second checked again
/// after the first has been committed: the second is refused as `NonceTooLow`,
/// so exactly one of them is accepted.
pub proof fn lemma_interleaved_same_nonce(
    s: ProxyStateView,
    first: DecodedTransaction,
    rc: Receipt,
    second: DecodedTransaction,
)
    requires
        !nonce_rejected(s, first.from@, first.nonce, first.hash@),
        first.nonce < u64::MAX,
        second.from@ == first.from@,
        second.nonce == first.nonce,
    ensures
        nonce_rejected(committed_view(s, first, rc), second.from@, second.nonce, second.hash@),
{
    assert(committed_view(s, first, rc).nonces.contains_key(first.from@));
}

/// Each synthesized receipt advances the block counter by exactly one and
/// carries the new block number, which no stored receipt has: block numbers
/// are never reused, and stay at most the counter.
pub proof fn lemma_block_per_receipt(s: ProxyStateView, tx: DecodedTransaction, rc: Receipt)
    requires
        s.block_number < u64::MAX,
        receipts_below(s),
        receipt_matches(rc, tx, (s.block_number + 1) as u64),
    ensures
        committed_view(s, tx, rc).block_number == s.block_number + 1,
        committed_view(s, tx, rc).receipts[tx.hash@].block_number == committed_view(
            s,
            tx,
            rc,
        ).block_number,
        forall|h: Seq<u8>| #[trigger] s.receipts.contains_key(h) ==> s.receipts[h].block_number != rc.block_number,
        receipts_below(committed_view(s, tx, rc)),
{
}

/// A zero-value transaction whose call data has no known selector is ignored:
/// no backend call, no receipt, no nonce change.
pub proof fn lemma_unknown_selector_ignored(
    s: ProxyStateView,
    tx: DecodedTransaction,
    r: Result<TxAction, crate::error::ErrorKind>,
)
    requires
        tx.value == 0,
        selected_function(tx.input@).is_none(),
        !nonce_rejected(s, tx.from@, tx.nonce, tx.hash@),
        begin_spec(s, tx, r),
    ensures
        r matches Ok(TxAction::Ignore),
{
}

/// Call data without a known selector asks for no query.
pub proof fn lemma_unknown_call_unsupported(data: Seq<u8>)
    requires
        decode_prefixed_hex_spec(data) matches Some(b) ==> selected_function(b).is_none(),
    ensures
        call_query_spec(data) == CallQuery::Unsupported,
{
}

} // verus!
