use vstd::prelude::*;

verus! {

/// The platform treasury, which receives the fees.
#[derive(Clone, Copy, Debug, PartialEq, Eq)]
pub struct Treasury {
    /// The bump seed of the treasury's address.
    pub bump: u8,
}

impl Treasury {
    /// Bytes the account data takes after its discriminator.
    pub const INIT_SPACE: usize = 1;
}

} // verus!
