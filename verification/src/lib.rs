//! Settlement verification and withdrawal orchestration for a bridge between
//! Sepolia and the ckSepoliaETH / ckSepoliaUSDC ledgers.
//!
//! The crate holds the decisions of the bridge backend: which receipt counts
//! as a verified deposit, which calls a withdrawal consists of and in which
//! order they are issued, and the per-asset log of claimed transaction hashes.
//! Talking to the ledger, the minter and the EVM RPC canister is left to the
//! caller, which performs the calls this crate describes and hands back what
//! they returned.

pub mod amount;
pub mod bytes;
pub mod canister_id;
pub mod ck_sepolia_eth;
pub mod ck_sepolia_usdc;
pub mod ledger;
pub mod minter;
pub mod principal;
pub mod receipt;
pub mod strings;
pub mod transaction_hash;
pub mod withdraw;
