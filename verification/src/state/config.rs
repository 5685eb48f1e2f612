use vstd::prelude::*;

verus! {

/// The platform configuration: the fee taken from every payment.
#[derive(Clone, Copy, Debug, PartialEq, Eq)]
pub struct Config {
    /// The fee in basis points (hundredths of a percent).
    pub platform_fee_bps: u16,
    /// The bump seed of the configuration's address.
    pub bump: u8,
}

impl Config {
    /// Bytes the account data takes after its discriminator.
    pub const INIT_SPACE: usize = 3;
}

} // verus!
