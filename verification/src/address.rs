use vstd::prelude::*;

verus! {

/// The 32 bytes of an account address, as the ledger names accounts.
#[derive(Clone, Copy, Debug, PartialEq, Eq)]
pub struct Address {
    pub bytes: [u8; 32],
}

impl View for Address {
    type V = Seq<u8>;

    open spec fn view(&self) -> Seq<u8> {
        self.bytes@
    }
}

/// The all-zero address, which stands for native SOL where a mint is recorded.
pub open spec fn zero_address() -> Address {
    Address { bytes: vstd::array::spec_array_fill_for_copy_type::<u8, 32>(0u8) }
}

impl Address {
    /// The all-zero address.
    pub fn zero() -> (a: Address)
        ensures
            a == zero_address(),
            a@ == Seq::new(32, |i: int| 0u8),
    {
        broadcast use vstd::array::group_array_axioms;

        let a = Address { bytes: [0u8; 32] };
        assert(a@ =~= Seq::new(32, |i: int| 0u8));
        a
    }

    /// Byte-wise equality of two addresses.
    pub fn same_as(&self, other: &Address) -> (r: bool)
        ensures
            r == (self@ == other@),
    {
        let mut i: usize = 0;
        while i < 32
            invariant
                i <= 32,
                self@.len() == 32,
                other@.len() == 32,
                forall|j: int| 0 <= j < i ==> self@[j] == other@[j],
            decreases 32 - i,
        {
            if self.bytes[i] != other.bytes[i] {
                return false;
            }
            i = i + 1;
        }
        assert(self@ =~= other@);
        true
    }
}

} // verus!
