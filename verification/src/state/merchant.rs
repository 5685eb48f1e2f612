use crate::address::Address;
use vstd::prelude::*;

verus! {

/// A registered merchant.
#[derive(Clone, Copy, Debug, PartialEq, Eq)]
pub struct Merchant {
    /// The wallet that registered the merchant and alone may withdraw.
    pub authority: Address,
    /// The bump seed of the merchant account's address.
    pub bump: u8,
    /// How many SOL payments the merchant has received.
    pub payment_count: u64,
}

impl Merchant {
    /// Bytes the account data takes after its discriminator.
    pub const INIT_SPACE: usize = 41;
}

} // verus!
