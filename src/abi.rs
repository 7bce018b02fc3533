//! The fixed ERC20 ABI: function selectors, `transfer` arguments and the
//! `Transfer` event log.
use vstd::prelude::*;

use crate::codec::{left_pad32, pad_word};

verus! {

/// The functions of the ERC20 interface.
#[derive(PartialEq, Eq, Structural, Clone, Copy, Debug)]
pub enum Erc20Function {
    Name,
    Approve,
    TotalSupply,
    TransferFrom,
    Decimals,
    BalanceOf,
    Symbol,
    Transfer,
    Allowance,
}

/// The first four bytes of call data, read big-endian.
pub open spec fn selector_word(d: Seq<u8>) -> u32 {
    ((d[0] as u32) << 24u32) | ((d[1] as u32) << 16u32) | ((d[2] as u32) << 8u32) | (d[3] as u32)
}

/// The selector table: the first four bytes of the Keccak-256 digest of each
/// signature, fixed by the ERC20 interface and kept as plain data.
pub open spec fn function_of_selector(w: u32) -> Option<Erc20Function> {
    if w == 0x06fdde03 {
        Some(Erc20Function::Name)
    } else if w == 0x095ea7b3 {
        Some(Erc20Function::Approve)
    } else if w == 0x18160ddd {
        Some(Erc20Function::TotalSupply)
    } else if w == 0x23b872dd {
        Some(Erc20Function::TransferFrom)
    } else if w == 0x313ce567 {
        Some(Erc20Function::Decimals)
    } else if w == 0x70a08231 {
        Some(Erc20Function::BalanceOf)
    } else if w == 0x95d89b41 {
        Some(Erc20Function::Symbol)
    } else if w == 0xa9059cbb {
        Some(Erc20Function::Transfer)
    } else if w == 0xdd62ed3e {
        Some(Erc20Function::Allowance)
    } else {
        None
    }
}

/// The function that call data invokes, if its selector is in the table.
pub open spec fn selected_function(data: Seq<u8>) -> Option<Erc20Function> {
    if data.len() < 4 {
        None
    } else {
        function_of_selector(selector_word(data))
    }
}

/// Matches the first four bytes of call data against the selector table.
pub fn match_selector(data: &[u8]) -> (r: Option<Erc20Function>)
    ensures
        r == selected_function(data@),
{
    if data.len() < 4 {
        return None;
    }
    let w: u32 = ((data[0] as u32) << 24u32) | ((data[1] as u32) << 16u32) | ((data[2] as u32)
        << 8u32) | (data[3] as u32);
    if w == 0x06fdde03 {
        Some(Erc20Function::Name)
    } else if w == 0x095ea7b3 {
        Some(Erc20Function::Approve)
    } else if w == 0x18160ddd {
        Some(Erc20Function::TotalSupply)
    } else if w == 0x23b872dd {
        Some(Erc20Function::TransferFrom)
    } else if w == 0x313ce567 {
        Some(Erc20Function::Decimals)
    } else if w == 0x70a08231 {
        Some(Erc20Function::BalanceOf)
    } else if w == 0x95d89b41 {
        Some(Erc20Function::Symbol)
    } else if w == 0xa9059cbb {
        Some(Erc20Function::Transfer)
    } else if w == 0xdd62ed3e {
        Some(Erc20Function::Allowance)
    } else {
        None
    }
}

/// The decoded arguments of `transfer(address to, uint256 amount)`.
pub struct TransferArgs {
    /// The 20-byte recipient address.
    pub to: Vec<u8>,
    /// The amount as a 32-byte big-endian word.
    pub amount: Vec<u8>,
}

/// The `(to, amount)` arguments of a `transfer` call: two 32-byte words after
/// the selector, the address in the low 20 bytes of the first.
pub open spec fn transfer_args_spec(data: Seq<u8>) -> Option<(Seq<u8>, Seq<u8>)> {
    if data.len() < 68 {
        None
    } else {
        Some((data.subrange(16, 36), data.subrange(36, 68)))
    }
}

fn copy_range(data: &[u8], from: usize, to: usize) -> (r: Vec<u8>)
    requires
        from <= to <= data@.len(),
    ensures
        r@ == data@.subrange(from as int, to as int),
{
    let mut out: Vec<u8> = Vec::new();
    let mut i: usize = from;
    while i < to
        invariant
            from <= i <= to,
            to <= data@.len(),
            out@ == data@.subrange(from as int, i as int),
        decreases to - i,
    {
        out.push(data[i]);
        i += 1;
        assert(out@ =~= data@.subrange(from as int, i as int));
    }
    out
}

/// ABI-decodes the arguments of a `transfer` call (selector included in `data`).
pub fn decode_transfer_args(data: &[u8]) -> (r: Option<TransferArgs>)
    ensures
        r.is_some() == transfer_args_spec(data@).is_some(),
        r.is_some() ==> r.unwrap().to@ == transfer_args_spec(data@).unwrap().0 && r.unwrap().amount@
            == transfer_args_spec(data@).unwrap().1,
{
    if data.len() < 68 {
        return None;
    }
    let to = copy_range(data, 16, 36);
    let amount = copy_range(data, 36, 68);
    Some(TransferArgs { to, amount })
}

/// Topic 0 of the `Transfer(address,address,uint256)` event: the Keccak-256
/// digest of that signature.
pub open spec fn transfer_topic() -> Seq<u8> {
    seq![
        0xddu8, 0xf2u8, 0x52u8, 0xadu8, 0x1bu8, 0xe2u8, 0xc8u8, 0x9bu8,
        0x69u8, 0xc2u8, 0xb0u8, 0x68u8, 0xfcu8, 0x37u8, 0x8du8, 0xaau8,
        0x95u8, 0x2bu8, 0xa7u8, 0xf1u8, 0x63u8, 0xc4u8, 0xa1u8, 0x16u8,
        0x28u8, 0xf5u8, 0x5au8, 0x4du8, 0xf5u8, 0x23u8, 0xb3u8, 0xefu8,
    ]
}

pub fn transfer_topic_bytes() -> (r: Vec<u8>)
    ensures
        r@ == transfer_topic(),
{
    let v: Vec<u8> = vec![
        0xdd, 0xf2, 0x52, 0xad, 0x1b, 0xe2, 0xc8, 0x9b,
        0x69, 0xc2, 0xb0, 0x68, 0xfc, 0x37, 0x8d, 0xaa,
        0x95, 0x2b, 0xa7, 0xf1, 0x63, 0xc4, 0xa1, 0x16,
        0x28, 0xf5, 0x5a, 0x4d, 0xf5, 0x23, 0xb3, 0xef,
    ];
    assert(v@ =~= transfer_topic());
    v
}

/// One event record of a receipt.
pub struct Log {
    /// The emitting contract.
    pub address: Vec<u8>,
    /// Topic 0 is the event signature; the rest are indexed arguments.
    pub topics: Vec<Vec<u8>>,
    /// The ABI-encoded non-indexed arguments.
    pub data: Vec<u8>,
}

pub ghost struct LogView {
    pub address: Seq<u8>,
    pub topics: Seq<Seq<u8>>,
    pub data: Seq<u8>,
}

impl View for Log {
    type V = LogView;

    open spec fn view(&self) -> LogView {
        LogView {
            address: self.address@,
            topics: self.topics@.map_values(|t: Vec<u8>| t@),
            data: self.data@,
        }
    }
}

/// The `Transfer` log of a token transfer: topics are the event signature and
/// the padded sender and recipient, data is the amount word.
pub open spec fn transfer_log_spec(
    contract: Seq<u8>,
    from: Seq<u8>,
    to: Seq<u8>,
    amount: Seq<u8>,
) -> LogView {
    LogView {
        address: contract,
        topics: seq![transfer_topic(), left_pad32(from), left_pad32(to)],
        data: amount,
    }
}

/// Builds the `Transfer` log of a token transfer.
pub fn transfer_log(contract: Vec<u8>, from: &[u8], to: &[u8], amount: Vec<u8>) -> (r: Log)
    requires
        from@.len() <= 32,
        to@.len() <= 32,
    ensures
        r@ == transfer_log_spec(contract@, from@, to@, amount@),
{
    let mut topics: Vec<Vec<u8>> = Vec::new();
    topics.push(transfer_topic_bytes());
    topics.push(pad_word(from));
    topics.push(pad_word(to));
    let r = Log { address: contract, topics, data: amount };
    assert(r@.topics =~= seq![transfer_topic(), left_pad32(from@), left_pad32(to@)]);
    r
}

} // verus!
