//! The platform fee taken from a payment.
use vstd::prelude::*;

verus! {

/// The basis points in a whole.
pub const BPS_DENOMINATOR: u64 = 10_000;

/// The fee on `amount` at `fee_bps` basis points, rounded down.
pub open spec fn fee_of(amount: u64, fee_bps: u16) -> int {
    (amount as int * fee_bps as int) / 10_000
}

/// The product `amount * fee_bps` fits in a `u64`.
pub open spec fn fee_product_fits(amount: u64, fee_bps: u16) -> bool {
    amount as int * fee_bps as int <= u64::MAX as int
}

} // verus!
