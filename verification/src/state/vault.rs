use crate::address::Address;
use vstd::prelude::*;

verus! {

/// A merchant's vault, which receives the merchant's part of each payment.
#[derive(Clone, Copy, Debug, PartialEq, Eq)]
pub struct Vault {
    /// The merchant account the vault belongs to.
    pub merchant: Address,
    /// The bump seed of the vault's address.
    pub bump: u8,
}

impl Vault {
    /// Bytes the account data takes after its discriminator.
    pub const INIT_SPACE: usize = 33;
}

} // verus!
