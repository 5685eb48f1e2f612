use crate::address::Address;
use vstd::prelude::*;

verus! {

/// The record of one payment, in its compact layout.
#[derive(Clone, Copy, Debug, PartialEq, Eq)]
pub struct Payment {
    /// The wallet that paid.
    pub payer: Address,
    /// The token mint paid in.
    pub mint: Address,
    /// The amount paid.
    pub amount: u64,
    /// The fee rate in force, in basis points.
    pub fee_bps: u16,
    /// The bump seed of the record's address.
    pub bump: u8,
}

impl Payment {
    /// Size of the record: two addresses, a `u64`, a `u16` and a `u8`.
    pub const LEN: usize = 75;
}

} // verus!
