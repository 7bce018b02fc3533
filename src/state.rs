//! The ledger-shadow state: block counter, per-sender nonce table and the
//! receipt store, with its snapshot and restore.
use vstd::prelude::*;

use crate::abi::Log;
use crate::codec::bytes_eq;
use crate::error::ErrorKind;
use crate::table::{
    find_key, lemma_table_absent, lemma_table_empty, lemma_table_index, lemma_table_push,
    lemma_table_update, table_view, unique_keys,
};

verus! {

/// A synthesized transaction receipt.
pub struct Receipt {
    /// The 32-byte transaction hash; the receipt's key.
    pub transaction_hash: Vec<u8>,
    pub from: Vec<u8>,
    pub to: Option<Vec<u8>>,
    /// Assigned once, when the receipt is synthesized.
    pub block_number: u64,
    /// Success of the transaction.
    pub status: bool,
    pub logs: Vec<Log>,
}

/// The logical content of a [`ProxyState`].
pub ghost struct ProxyStateView {
    pub block_number: u64,
    /// Sender address to the number of accepted transactions.
    pub nonces: Map<Seq<u8>, u64>,
    /// Transaction hash to receipt.
    pub receipts: Map<Seq<u8>, Receipt>,
}

pub open spec fn key_views(keys: Seq<Vec<u8>>) -> Seq<Seq<u8>> {
    keys.map_values(|k: Vec<u8>| k@)
}

pub open spec fn receipt_keys(receipts: Seq<Receipt>) -> Seq<Seq<u8>> {
    receipts.map_values(|r: Receipt| r.transaction_hash@)
}

/// The ledger-shadow state of one proxy.
///
/// Both tables are held as distinct keys beside their values: senders and
/// hashes are byte strings, and vstd's map specifications give provable
/// lookups only for keys whose equality it models, such as integers.
pub struct ProxyState {
    transactions: Vec<Receipt>,
    block_number: u64,
    tx_count_keys: Vec<Vec<u8>>,
    tx_count_values: Vec<u64>,
}

/// The persisted form of a [`ProxyState`], as plain values.
pub struct StateSnapshot {
    pub block_number: u64,
    pub nonce_addresses: Vec<Vec<u8>>,
    pub nonce_counts: Vec<u64>,
    pub receipts: Vec<Receipt>,
}

/// No receipt carries a block number above `block`.
pub open spec fn blocks_at_most(receipts: Seq<Receipt>, block: u64) -> bool {
    forall|i: int| 0 <= i < receipts.len() ==> #[trigger] receipts[i].block_number <= block
}

/// Every stored receipt's block number is at most the block counter.
pub open spec fn receipts_below(v: ProxyStateView) -> bool {
    forall|h: Seq<u8>| #[trigger] v.receipts.contains_key(h) ==> v.receipts[h].block_number <= v.block_number
}

/// The state that a snapshot describes: `None` when its nonce columns differ in
/// length, a sender or a transaction hash occurs twice, or a receipt's block
/// number is above the counter.
pub open spec fn restored_view(snap: StateSnapshot) -> Option<ProxyStateView> {
    if snap.nonce_addresses@.len() == snap.nonce_counts@.len() && unique_keys(
        key_views(snap.nonce_addresses@),
    ) && unique_keys(receipt_keys(snap.receipts@)) && blocks_at_most(
        snap.receipts@,
        snap.block_number,
    ) {
        Some(
            ProxyStateView {
                block_number: snap.block_number,
                nonces: table_view(key_views(snap.nonce_addresses@), snap.nonce_counts@),
                receipts: table_view(receipt_keys(snap.receipts@), snap.receipts@),
            },
        )
    } else {
        None
    }
}

impl View for ProxyState {
    type V = ProxyStateView;

    closed spec fn view(&self) -> ProxyStateView {
        ProxyStateView {
            block_number: self.block_number,
            nonces: table_view(key_views(self.tx_count_keys@), self.tx_count_values@),
            receipts: table_view(receipt_keys(self.transactions@), self.transactions@),
        }
    }
}

fn copy_bytes(b: &Vec<u8>) -> (r: Vec<u8>)
    ensures
        r@ == b@,
{
    vstd::slice::slice_to_vec(b.as_slice())
}

fn keys_unique(keys: &Vec<Vec<u8>>) -> (r: bool)
    ensures
        r == unique_keys(key_views(keys@)),
{
    let ghost ks = key_views(keys@);
    let mut i: usize = 0;
    while i < keys.len()
        invariant
            ks == key_views(keys@),
            i <= keys@.len(),
            forall|a: int, b: int| 0 <= a < i && 0 <= b < i && a != b ==> #[trigger] ks[a] != #[trigger] ks[b],
        decreases keys@.len() - i,
    {
        let mut j: usize = 0;
        while j < i
            invariant
                ks == key_views(keys@),
                j <= i < keys@.len(),
                forall|a: int, b: int| 0 <= a < i && 0 <= b < i && a != b ==> #[trigger] ks[a] != #[trigger] ks[b],
                forall|b: int| 0 <= b < j ==> ks[i as int] != #[trigger] ks[b],
            decreases i - j,
        {
            if bytes_eq(keys[i].as_slice(), keys[j].as_slice()) {
                assert(ks[i as int] == ks[j as int]);
                return false;
            }
            j += 1;
        }
        i += 1;
    }
    true
}

fn receipt_hashes(receipts: &Vec<Receipt>) -> (r: Vec<Vec<u8>>)
    ensures
        key_views(r@) == receipt_keys(receipts@),
{
    let mut out: Vec<Vec<u8>> = Vec::new();
    let mut i: usize = 0;
    while i < receipts.len()
        invariant
            i <= receipts@.len(),
            key_views(out@) == receipt_keys(receipts@.subrange(0, i as int)),
        decreases receipts@.len() - i,
    {
        let ghost prev = out@;
        let h = copy_bytes(&receipts[i].transaction_hash);
        out.push(h);
        proof {
            let pre = receipts@.subrange(0, i as int);
            let next = receipts@.subrange(0, i + 1);
            assert(next =~= pre.push(receipts@[i as int]));
            assert(key_views(out@) =~= key_views(prev).push(h@));
            assert(receipt_keys(next) =~= receipt_keys(pre).push(receipts@[i as int].transaction_hash@));
        }
        i += 1;
        assert(key_views(out@) =~= receipt_keys(receipts@.subrange(0, i as int)));
    }
    assert(receipts@.subrange(0, receipts@.len() as int) =~= receipts@);
    out
}

impl ProxyState {
    /// Distinct senders and hashes, one count per sender, and no receipt
    /// above the block counter.
    pub closed spec fn wf(&self) -> bool {
        &&& self.tx_count_keys@.len() == self.tx_count_values@.len()
        &&& unique_keys(key_views(self.tx_count_keys@))
        &&& unique_keys(receipt_keys(self.transactions@))
        &&& blocks_at_most(self.transactions@, self.block_number)
    }

    /// A well-formed state holds no receipt above its block counter.
    pub proof fn lemma_receipts_below(s: ProxyState)
        requires
            s.wf(),
        ensures
            receipts_below(s@),
    {
        let ks = receipt_keys(s.transactions@);
        assert forall|h: Seq<u8>| #[trigger] s@.receipts.contains_key(h) implies s@.receipts[h].block_number
            <= s@.block_number by {
            let i = choose|i: int| 0 <= i < ks.len() && #[trigger] ks[i] == h;
            lemma_table_index(ks, s.transactions@, i);
        }
    }

    /// The snapshot that [`ProxyState::into_snapshot`] produces.
    pub closed spec fn snapshot_of(self) -> StateSnapshot {
        StateSnapshot {
            block_number: self.block_number,
            nonce_addresses: self.tx_count_keys,
            nonce_counts: self.tx_count_values,
            receipts: self.transactions,
        }
    }

    /// The empty state of a first start: block 0, no nonces, no receipts.
    pub fn new() -> (r: ProxyState)
        ensures
            r.wf(),
            r@.block_number == 0,
            r@.nonces == Map::<Seq<u8>, u64>::empty(),
            r@.receipts == Map::<Seq<u8>, Receipt>::empty(),
    {
        let r = ProxyState {
            transactions: Vec::new(),
            block_number: 0,
            tx_count_keys: Vec::new(),
            tx_count_values: Vec::new(),
        };
        proof {
            lemma_table_empty(key_views(r.tx_count_keys@), r.tx_count_values@);
            lemma_table_empty(receipt_keys(r.transactions@), r.transactions@);
        }
        r
    }

    /// The current block number, unchanged by reading it.
    pub fn block_number(&self) -> (r: u64)
        ensures
            r == self@.block_number,
    {
        self.block_number
    }

    /// Advances the block counter by one and returns the new value.
    pub fn advance_block(&mut self) -> (r: u64)
        requires
            old(self).wf(),
            old(self)@.block_number < u64::MAX,
        ensures
            final(self).wf(),
            r == old(self)@.block_number + 1,
            final(self)@ == (ProxyStateView { block_number: r, ..old(self)@ }),
    {
        self.block_number = self.block_number + 1;
        self.block_number
    }

    /// The number of accepted transactions of `address`, if it has any.
    pub fn nonce_of(&self, address: &[u8]) -> (r: Option<u64>)
        requires
            self.wf(),
        ensures
            r == (if self@.nonces.contains_key(address@) {
                Some(self@.nonces[address@])
            } else {
                None
            }),
    {
        let ghost ks = key_views(self.tx_count_keys@);
        match find_key(&self.tx_count_keys, address) {
            Some(i) => {
                proof {
                    assert(ks[i as int] == address@);
                    lemma_table_index(ks, self.tx_count_values@, i as int);
                }
                Some(self.tx_count_values[i])
            },
            None => {
                proof {
                    assert forall|j: int| 0 <= j < ks.len() implies #[trigger] ks[j] != address@ by {
                        assert(self.tx_count_keys@[j]@ != address@);
                    }
                    lemma_table_absent(ks, self.tx_count_values@, address@);
                }
                None
            },
        }
    }

    /// The transaction count of `address`: 0 for a sender never seen.
    pub fn transaction_count(&self, address: &[u8]) -> (r: u64)
        requires
            self.wf(),
        ensures
            r == (if self@.nonces.contains_key(address@) {
                self@.nonces[address@]
            } else {
                0
            }),
    {
        match self.nonce_of(address) {
            Some(n) => n,
            None => 0,
        }
    }

    /// Counts one more accepted transaction of `address`.
    pub fn increment_nonce(&mut self, address: &[u8])
        requires
            old(self).wf(),
            old(self)@.nonces.contains_key(address@) ==> old(self)@.nonces[address@] < u64::MAX,
        ensures
            final(self).wf(),
            final(self)@ == (ProxyStateView {
                nonces: old(self)@.nonces.insert(
                    address@,
                    (if old(self)@.nonces.contains_key(address@) {
                        old(self)@.nonces[address@] + 1
                    } else {
                        1
                    }) as u64,
                ),
                ..old(self)@
            }),
    {
        let ghost ks = key_views(self.tx_count_keys@);
        let ghost vs = self.tx_count_values@;
        match find_key(&self.tx_count_keys, address) {
            Some(i) => {
                proof {
                    assert(ks[i as int] == address@);
                    lemma_table_index(ks, vs, i as int);
                    lemma_table_update(ks, vs, i as int, (vs[i as int] + 1) as u64);
                }
                let n = self.tx_count_values[i];
                self.tx_count_values.set(i, n + 1);
            },
            None => {
                proof {
                    assert forall|j: int| 0 <= j < ks.len() implies #[trigger] ks[j] != address@ by {
                        assert(self.tx_count_keys@[j]@ != address@);
                    }
                    lemma_table_absent(ks, vs, address@);
                    lemma_table_push(ks, vs, address@, 1u64);
                }
                self.tx_count_keys.push(vstd::slice::slice_to_vec(address));
                self.tx_count_values.push(1);
                assert(key_views(self.tx_count_keys@) =~= ks.push(address@));
            },
        }
    }

    fn find_receipt(&self, hash: &[u8]) -> (r: Option<usize>)
        requires
            self.wf(),
        ensures
            match r {
                Some(i) => i < self.transactions@.len() && self.transactions@[i as int].transaction_hash@
                    == hash@,
                None => forall|i: int|
                    0 <= i < self.transactions@.len() ==> #[trigger] receipt_keys(self.transactions@)[i]
                        != hash@,
            },
    {
        let mut i: usize = 0;
        while i < self.transactions.len()
            invariant
                i <= self.transactions@.len(),
                forall|j: int| 0 <= j < i ==> #[trigger] receipt_keys(self.transactions@)[j] != hash@,
            decreases self.transactions@.len() - i,
        {
            if bytes_eq(self.transactions[i].transaction_hash.as_slice(), hash) {
                return Some(i);
            }
            i += 1;
        }
        None
    }

    /// The receipt stored under `hash`, if any.
    pub fn get_receipt(&self, hash: &[u8]) -> (r: Option<&Receipt>)
        requires
            self.wf(),
        ensures
            r == (if self@.receipts.contains_key(hash@) {
                Some(&self@.receipts[hash@])
            } else {
                None
            }),
    {
        let ghost ks = receipt_keys(self.transactions@);
        match self.find_receipt(hash) {
            Some(i) => {
                proof {
                    assert(ks[i as int] == hash@);
                    lemma_table_index(ks, self.transactions@, i as int);
                }
                Some(&self.transactions[i])
            },
            None => {
                proof {
                    lemma_table_absent(ks, self.transactions@, hash@);
                }
                None
            },
        }
    }

    /// Whether a receipt is stored under `hash`.
    pub fn has_receipt(&self, hash: &[u8]) -> (r: bool)
        requires
            self.wf(),
        ensures
            r == self@.receipts.contains_key(hash@),
    {
        self.get_receipt(hash).is_some()
    }

    /// Stores a receipt under its transaction hash, which must be new, with a
    /// block number at most the counter.
    pub fn insert_receipt(&mut self, receipt: Receipt)
        requires
            old(self).wf(),
            !old(self)@.receipts.contains_key(receipt.transaction_hash@),
            receipt.block_number <= old(self)@.block_number,
        ensures
            final(self).wf(),
            final(self)@ == (ProxyStateView {
                receipts: old(self)@.receipts.insert(receipt.transaction_hash@, receipt),
                ..old(self)@
            }),
    {
        let ghost ks = receipt_keys(self.transactions@);
        let ghost vs = self.transactions@;
        proof {
            lemma_table_push(ks, vs, receipt.transaction_hash@, receipt);
        }
        self.transactions.push(receipt);
        assert(receipt_keys(self.transactions@) =~= ks.push(receipt.transaction_hash@));
        assert(blocks_at_most(self.transactions@, self.block_number));
    }

    /// Hands the whole state over for persisting.
    pub fn into_snapshot(self) -> (r: StateSnapshot)
        ensures
            r == self.snapshot_of(),
    {
        StateSnapshot {
            block_number: self.block_number,
            nonce_addresses: self.tx_count_keys,
            nonce_counts: self.tx_count_values,
            receipts: self.transactions,
        }
    }

    /// Rebuilds a state from a snapshot; `StateCorrupt` when the snapshot
    /// describes no valid state.
    pub fn restore(snap: StateSnapshot) -> (r: Result<ProxyState, ErrorKind>)
        ensures
            r.is_ok() == restored_view(snap).is_some(),
            r.is_ok() ==> r.unwrap().wf() && r.unwrap()@ == restored_view(snap).unwrap(),
            r.is_err() ==> r == Err::<ProxyState, ErrorKind>(ErrorKind::StateCorrupt),
    {
        if snap.nonce_addresses.len() != snap.nonce_counts.len() {
            return Err(ErrorKind::StateCorrupt);
        }
        if !keys_unique(&snap.nonce_addresses) {
            return Err(ErrorKind::StateCorrupt);
        }
        let hashes = receipt_hashes(&snap.receipts);
        if !keys_unique(&hashes) {
            return Err(ErrorKind::StateCorrupt);
        }
        let mut i: usize = 0;
        while i < snap.receipts.len()
            invariant
                i <= snap.receipts@.len(),
                forall|j: int| 0 <= j < i ==> #[trigger] snap.receipts@[j].block_number <= snap.block_number,
            decreases snap.receipts@.len() - i,
        {
            if snap.receipts[i].block_number > snap.block_number {
                return Err(ErrorKind::StateCorrupt);
            }
            i += 1;
        }
        Ok(
            ProxyState {
                transactions: snap.receipts,
                block_number: snap.block_number,
                tx_count_keys: snap.nonce_addresses,
                tx_count_values: snap.nonce_counts,
            },
        )
    }

    /// Restoring a snapshot gives back the state it was taken of.
    pub proof fn lemma_snapshot_round_trip(s: ProxyState)
        requires
            s.wf(),
        ensures
            restored_view(s.snapshot_of()) == Some(s@),
    {
    }
}

impl Default for ProxyState {
    fn default() -> (r: ProxyState)
        ensures
            r.wf(),
            r@.block_number == 0,
            r@.nonces == Map::<Seq<u8>, u64>::empty(),
            r@.receipts == Map::<Seq<u8>, Receipt>::empty(),
    {
        ProxyState::new()
    }
}

} // verus!
