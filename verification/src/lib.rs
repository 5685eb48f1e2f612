//! A merchant vault: customers pay merchants in SOL or tokens, a configured
//! platform fee goes to a treasury, the rest to the merchant's vault, and only
//! the merchant's own wallet withdraws from the vault.
//!
//! Accounts are plain values here; each instruction checks the addresses of its
//! accounts (`try_accounts`), then its handler decides: it refuses, or it updates
//! the accounts and names the transfers the system or token program is to make.

pub mod accounts;
pub mod address;
pub mod context;
pub mod errors;
pub mod instructions;
pub mod laws;
pub mod ledger;
pub mod ledger_laws;
pub mod merchant_vault;
pub mod pda;
pub mod record_laws;
pub mod seeds;
pub mod state;
