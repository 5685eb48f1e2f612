use crate::address::Address;
use vstd::prelude::*;

verus! {

/// The record of one payment.
#[derive(Clone, Copy, Debug, PartialEq, Eq)]
pub struct Payment {
    /// The wallet that paid.
    pub payer: Address,
    /// The token mint paid in, the zero address for SOL.
    pub mint: Address,
    /// The amount paid, fee included.
    pub amount: u64,
    /// The part of the amount that went to the treasury.
    pub fee_amount: u64,
    /// When the payment was made (Unix seconds).
    pub timestamp: i64,
    /// The bump seed of the record's address.
    pub bump: u8,
}

impl Payment {
    /// Bytes the account data takes after its discriminator.
    pub const INIT_SPACE: usize = 89;
}

} // verus!
