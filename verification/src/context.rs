//! The accounts an instruction works on, as plain values, and the transfers it
//! asks the system and token programs to make.
use crate::address::Address;
use vstd::prelude::*;

verus! {

/// An instruction's validated accounts, with the program's address and the bump
/// seeds found for the accounts it creates.
#[derive(Clone, Copy, Debug, PartialEq, Eq)]
pub struct Context<T, B> {
    pub program_id: Address,
    pub accounts: T,
    pub bumps: B,
}

/// An account of the program: its address, its balance in lamports, its data.
#[derive(Clone, Copy, Debug, PartialEq, Eq)]
pub struct Account<T> {
    pub key: Address,
    pub lamports: u64,
    pub data: T,
}

/// A wallet that signed the transaction.
#[derive(Clone, Copy, Debug, PartialEq, Eq)]
pub struct Signer {
    pub key: Address,
    pub lamports: u64,
}

/// The data of a token account.
#[derive(Clone, Copy, Debug, PartialEq, Eq)]
pub struct TokenAccount {
    /// The mint of the tokens it holds.
    pub mint: Address,
    /// The wallet or program account that may move them.
    pub owner: Address,
    /// How many it holds.
    pub amount: u64,
}

/// A transfer of lamports by the system program.
#[derive(Clone, Copy, Debug, PartialEq, Eq)]
pub struct SystemTransfer {
    pub from: Address,
    pub to: Address,
    pub amount: u64,
}

/// A transfer of tokens by the token program, signed by `authority`.
#[derive(Clone, Copy, Debug, PartialEq, Eq)]
pub struct TokenTransfer {
    pub from: Address,
    pub to: Address,
    pub authority: Address,
    pub amount: u64,
}

/// The two transfers of a payment: the merchant's part to the vault, the fee to
/// the treasury.
#[derive(Clone, Copy, Debug, PartialEq, Eq)]
pub struct PaymentTransfers<T> {
    pub to_vault: T,
    pub to_treasury: T,
}

/// A token transfer out of a vault, signed by the vault's address with the seeds
/// that derive it.
#[derive(Clone, Debug, PartialEq, Eq)]
pub struct VaultSignedTransfer {
    pub transfer: TokenTransfer,
    pub signer_seeds: Vec<Vec<u8>>,
}

} // verus!
