//! An Ethereum JSON-RPC front for a non-Ethereum value ledger: transaction
//! decoding, nonce checks, receipt synthesis and the ledger-shadow state.
pub mod abi;
pub mod codec;
pub mod error;
pub mod laws;
pub mod ledger;
pub mod processor;
pub mod rpc;
pub mod state;
pub mod table;
pub mod transaction;
