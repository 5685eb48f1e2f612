use vstd::prelude::*;

verus! {

/// The platform configuration, in its compact layout.
#[derive(Clone, Copy, Debug, PartialEq, Eq)]
pub struct Config {
    /// The fee in basis points.
    pub platform_fee_bps: u16,
    /// The bump seed of the configuration's address.
    pub bump: u8,
}

impl Config {
    /// Size of the record: a `u16` and a `u8`.
    pub const LEN: usize = 3;
}

} // verus!
