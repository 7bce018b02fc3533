//! Decoding raw signed transactions.
use vstd::prelude::*;

use crate::codec::{decode_prefixed_hex, decode_prefixed_hex_spec, word_to_u64, word_fits_u64, be_u64_at};
use crate::error::ErrorKind;
use vstd::string::StringSliceAdditionalSpecFns;

verus! {

/// The fields that RLP decoding finds in raw transaction bytes, `None` when
/// they do not parse: recipient, nonce word, value word, call data and chain
/// id word (absent when the transaction names none).
pub uninterp spec fn rlp_fields_of(raw: Seq<u8>) -> Option<(Option<Seq<u8>>, Seq<u8>, Seq<u8>, Seq<u8>, Option<Seq<u8>>)>;

/// The address recovered from the signature of the transaction in `raw`.
pub uninterp spec fn signer_of(raw: Seq<u8>) -> Option<Seq<u8>>;

/// The Keccak-256 digest of the canonical signed encoding of the transaction
/// in `raw`.
pub uninterp spec fn tx_hash_of(raw: Seq<u8>) -> Seq<u8>;

/// The fields of a decoded transaction, as plain bytes.
pub struct RawFields {
    /// The 20-byte recipient; absent for a contract creation.
    pub to: Option<Vec<u8>>,
    /// The nonce as a 32-byte big-endian word.
    pub nonce: Vec<u8>,
    /// The value as a 32-byte big-endian word.
    pub value: Vec<u8>,
    /// The call data.
    pub input: Vec<u8>,
    /// The chain id as a 32-byte big-endian word, if the transaction names one.
    pub chain_id: Option<Vec<u8>>,
}

pub open spec fn opt_bytes(o: Option<Vec<u8>>) -> Option<Seq<u8>> {
    match o {
        Some(v) => Some(v@),
        None => None,
    }
}

pub open spec fn fields_view(f: RawFields) -> (Option<Seq<u8>>, Seq<u8>, Seq<u8>, Seq<u8>, Option<Seq<u8>>) {
    (opt_bytes(f.to), f.nonce@, f.value@, f.input@, opt_bytes(f.chain_id))
}

/// Whether raw bytes parse as a transaction whose chain id, if any, is below
/// 2^64: signer recovery and hashing read the chain id as a 64-bit integer.
pub open spec fn decodable(raw: Seq<u8>) -> bool {
    &&& rlp_fields_of(raw) is Some
    &&& rlp_fields_of(raw).unwrap().4 matches Some(c) ==> word_fits_u64(c)
}

/// Relies on `rlp::decode` with ethers_core's `Decodable` for `Transaction`
/// (legacy or typed; `None` on malformed bytes), and on the public fields with
/// `H160::as_bytes` (20 bytes) and `U256::to_big_endian` (32 bytes, most
/// significant first).
#[verifier::external_body]
fn rlp_decode_fields(raw: &[u8]) -> (r: Option<RawFields>)
    ensures
        r.is_some() == rlp_fields_of(raw@).is_some(),
        r matches Some(f) ==> {
            &&& fields_view(f) == rlp_fields_of(raw@).unwrap()
            &&& f.nonce@.len() == 32
            &&& f.value@.len() == 32
            &&& f.to matches Some(t) ==> t@.len() == 20
            &&& f.chain_id matches Some(c) ==> c@.len() == 32
        },
{
    let tx = ethers_core::utils::rlp::decode::<ethers_core::types::Transaction>(raw).ok()?;
    let word = |x: ethers_core::types::U256| {
        let mut w = [0u8; 32];
        x.to_big_endian(&mut w);
        w.to_vec()
    };
    Some(RawFields {
        to: tx.to.map(|a| a.as_bytes().to_vec()),
        nonce: word(tx.nonce),
        value: word(tx.value),
        input: tx.input.to_vec(),
        chain_id: tx.chain_id.map(word),
    })
}

/// Relies on ethers_core's `Transaction::recover_from`, on the transaction that
/// `rlp::decode` gives for `raw`: the 20-byte signer, `None` when recovery
/// fails. It reads the chain id with `U256::as_u64`, which panics at 2^64 and
/// above; `requires` leaves those out.
#[verifier::external_body]
fn recover_signer(raw: &[u8]) -> (r: Option<Vec<u8>>)
    requires
        decodable(raw@),
    ensures
        opt_bytes(r) == signer_of(raw@),
        r matches Some(s) ==> s@.len() == 20,
{
    match ethers_core::utils::rlp::decode::<ethers_core::types::Transaction>(raw) {
        Ok(tx) => tx.recover_from().ok().map(|a| a.as_bytes().to_vec()),
        Err(_) => None,
    }
}

/// Relies on ethers_core's `Transaction::hash`, on the transaction that
/// `rlp::decode` gives for `raw`: the 32-byte Keccak-256 digest of its
/// canonical signed encoding. It reads the chain id with `U256::as_u64`, which
/// panics at 2^64 and above; `requires` leaves those out.
#[verifier::external_body]
fn canonical_hash(raw: &[u8]) -> (r: Vec<u8>)
    requires
        decodable(raw@),
    ensures
        r@ == tx_hash_of(raw@),
        r@.len() == 32,
{
    match ethers_core::utils::rlp::decode::<ethers_core::types::Transaction>(raw) {
        Ok(tx) => tx.hash().as_bytes().to_vec(),
        Err(_) => Vec::new(),
    }
}

/// A decoded, signature-checked transaction.
pub struct DecodedTransaction {
    /// The recovered 20-byte signer.
    pub from: Vec<u8>,
    /// The 20-byte recipient; absent for a contract creation.
    pub to: Option<Vec<u8>>,
    pub nonce: u64,
    pub value: u64,
    pub input: Vec<u8>,
    /// The 32-byte digest of the canonical signed encoding.
    pub hash: Vec<u8>,
}

impl DecodedTransaction {
    /// Addresses of 20 bytes and a hash of 32.
    pub open spec fn wf(&self) -> bool {
        &&& self.from@.len() == 20
        &&& self.to.is_some() ==> self.to.unwrap()@.len() == 20
        &&& self.hash@.len() == 32
    }
}

/// The result of assembling a transaction from its decoded parts.
pub open spec fn assemble_spec(
    fields_nonce: Seq<u8>,
    fields_value: Seq<u8>,
    signer: Option<Seq<u8>>,
) -> Result<(u64, u64, Seq<u8>), ErrorKind> {
    if signer.is_none() {
        Err(ErrorKind::BadSignature)
    } else if !word_fits_u64(fields_nonce) || !word_fits_u64(fields_value) {
        Err(ErrorKind::Decode)
    } else {
        Ok((be_u64_at(fields_nonce, 24), be_u64_at(fields_value, 24), signer.unwrap()))
    }
}

/// Assembles a transaction from its decoded fields, its recovered signer and
/// its hash: a missing signer is `BadSignature`; a nonce or value of 2^64 or
/// more is `Decode`.
pub fn assemble_transaction(fields: RawFields, signer: Option<Vec<u8>>, hash: Vec<u8>) -> (r:
    Result<DecodedTransaction, ErrorKind>)
    requires
        fields.nonce@.len() == 32,
        fields.value@.len() == 32,
        fields.to.is_some() ==> fields.to.unwrap()@.len() == 20,
        signer.is_some() ==> signer.unwrap()@.len() == 20,
        hash@.len() == 32,
    ensures
        match assemble_spec(fields.nonce@, fields.value@, match signer {
            Some(s) => Some(s@),
            None => None,
        }) {
            Ok((n, v, f)) => r.is_ok() && r.unwrap().nonce == n && r.unwrap().value == v
                && r.unwrap().from@ == f && r.unwrap().to == fields.to && r.unwrap().input
                == fields.input && r.unwrap().hash == hash && r.unwrap().wf(),
            Err(e) => r == Err::<DecodedTransaction, ErrorKind>(e),
        },
{
    let from = match signer {
        Some(s) => s,
        None => return Err(ErrorKind::BadSignature),
    };
    let nonce = match word_to_u64(&fields.nonce) {
        Some(n) => n,
        None => return Err(ErrorKind::Decode),
    };
    let value = match word_to_u64(&fields.value) {
        Some(v) => v,
        None => return Err(ErrorKind::Decode),
    };
    Ok(DecodedTransaction { from, to: fields.to, nonce, value, input: fields.input, hash })
}

/// What decoding `raw` gives: `Decode` when the bytes do not parse or the
/// chain id is 2^64 or more, else the assembly of the decoded fields, the
/// recovered signer and the hash.
pub open spec fn decoded_as(raw: Seq<u8>, r: Result<DecodedTransaction, ErrorKind>) -> bool {
    if !decodable(raw) {
        r == Err::<DecodedTransaction, ErrorKind>(ErrorKind::Decode)
    } else {
        let (to, nonce, value, input, chain) = rlp_fields_of(raw).unwrap();
        match assemble_spec(nonce, value, signer_of(raw)) {
            Ok((n, v, f)) => r.is_ok() && r.unwrap().nonce == n && r.unwrap().value == v
                && r.unwrap().from@ == f && opt_bytes(r.unwrap().to) == to && r.unwrap().input@
                == input && r.unwrap().hash@ == tx_hash_of(raw) && r.unwrap().wf(),
            Err(e) => r == Err::<DecodedTransaction, ErrorKind>(e),
        }
    }
}

/// Decodes a raw signed transaction and recovers its sender. `Decode` when the
/// bytes do not parse, or the chain id, nonce or value is 2^64 or more;
/// `BadSignature` when no signer can be recovered.
pub fn decode_transaction(raw: &[u8]) -> (r: Result<DecodedTransaction, ErrorKind>)
    ensures
        decoded_as(raw@, r),
{
    let fields = match rlp_decode_fields(raw) {
        None => return Err(ErrorKind::Decode),
        Some(f) => f,
    };
    let chain_ok = match &fields.chain_id {
        None => true,
        Some(c) => word_to_u64(c.as_slice()).is_some(),
    };
    if !chain_ok {
        return Err(ErrorKind::Decode);
    }
    let signer = recover_signer(raw);
    let hash = canonical_hash(raw);
    assemble_transaction(fields, signer, hash)
}

/// Decodes a raw signed transaction given as `0x`-prefixed hex text. Text
/// that is not such hex is `Decode`.
pub fn decode_transaction_hex(text: &str) -> (r: Result<DecodedTransaction, ErrorKind>)
    ensures
        match decode_prefixed_hex_spec(text.spec_bytes()) {
            None => r == Err::<DecodedTransaction, ErrorKind>(ErrorKind::Decode),
            Some(raw) => decoded_as(raw, r),
        },
{
    match decode_prefixed_hex(text.as_bytes()) {
        Some(raw) => decode_transaction(&raw),
        None => Err(ErrorKind::Decode),
    }
}

} // verus!
