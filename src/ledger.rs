//! Amounts and accounts of the native value ledger.
use vstd::prelude::*;

use crate::codec::{ascii_chars, decode_prefixed_hex, decode_prefixed_hex_spec, quantity, quantity_text};
use crate::error::ErrorKind;
use vstd::string::StringSliceAdditionalSpecFns;

verus! {

/// Wei per smallest ledger unit: the ledger has 8 decimals, Ethereum 18.
pub const WEI_PER_E8S: u64 = 10_000_000_000;

/// The ledger amount for a transfer of `wei`, rounded down.
pub fn wei_to_e8s(wei: u64) -> (r: u64)
    ensures
        r == wei / WEI_PER_E8S,
{
    wei / WEI_PER_E8S
}

/// The answer to `eth_getBalance` for a ledger balance of `e8s`: the balance in
/// wei as a quantity.
pub fn native_balance_result(e8s: u64) -> (r: String)
    ensures
        r@ == ascii_chars(quantity_text(e8s as nat * WEI_PER_E8S as nat)),
{
    assert(e8s as u128 * WEI_PER_E8S as u128 <= u128::MAX) by (nonlinear_arith)
        requires e8s <= u64::MAX;
    quantity(e8s as u128 * WEI_PER_E8S as u128)
}

/// The ledger subaccount of an Ethereum address: its 20 bytes, then 12 zeros.
pub open spec fn subaccount_of(address: Seq<u8>) -> Seq<u8> {
    address + Seq::new(12, |i: int| 0u8)
}

/// The subaccount of an address given as `0x`-prefixed hex text; `Decode` when
/// the text is not the hex of 20 bytes.
pub fn address_to_subaccount(address: &str) -> (r: Result<Vec<u8>, ErrorKind>)
    ensures
        match decode_prefixed_hex_spec(address.spec_bytes()) {
            Some(a) => if a.len() == 20 {
                r.is_ok() && r.unwrap()@ == subaccount_of(a)
            } else {
                r == Err::<Vec<u8>, ErrorKind>(ErrorKind::Decode)
            },
            None => r == Err::<Vec<u8>, ErrorKind>(ErrorKind::Decode),
        },
{
    match decode_prefixed_hex(address.as_bytes()) {
        None => Err(ErrorKind::Decode),
        Some(mut a) => {
            if a.len() != 20 {
                return Err(ErrorKind::Decode);
            }
            let ghost a0 = a@;
            let mut i: usize = 0;
            while i < 12
                invariant
                    i <= 12,
                    a@ == a0 + Seq::new(i as nat, |j: int| 0u8),
                decreases 12 - i,
            {
                a.push(0u8);
                i += 1;
                assert(a@ =~= a0 + Seq::new(i as nat, |j: int| 0u8));
            }
            Ok(a)
        },
    }
}

} // verus!
