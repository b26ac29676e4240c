//! A verified counter program for an account-based ledger.
//!
//! One instruction is understood: it reads the 32-bit counter that the first
//! account of the call stores in little-endian order, adds one to it, wrapping
//! at `u32::MAX`, and writes it back into the same four bytes. Every exported
//! function carries a contract that fixes its result and its effect on the
//! accounts, and Verus proves the bodies against those contracts.
//!
//! The bytes are read and written by the borsh crate. What is taken on trust
//! of it stands in two private bindings in [`encoding`]; all else is proved.

pub mod account;
pub mod account_info;
pub mod encoding;
pub mod error;
pub mod processor;

pub use account::Account;
pub use account_info::{AccountInfo, AccountState, Pubkey};
pub use error::ErrorKind;
pub use processor::{process_instruction, process_instruction_with_policy, OwnerPolicy};
