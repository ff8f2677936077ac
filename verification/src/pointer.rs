use vstd::prelude::*;

verus! {

/// The address of a native function that a resolver has found.
///
/// A value of this type is never the null address: the only way to make one
/// is `from_address`, which refuses 0.
#[derive(Clone, Copy, Debug, PartialEq, Eq, Hash)]
pub struct FunctionPointer {
    address: usize,
}

impl View for FunctionPointer {
    type V = usize;

    closed spec fn view(&self) -> usize {
        self.address
    }
}

impl FunctionPointer {
    #[verifier::type_invariant]
    spec fn non_null(self) -> bool {
        self.address != 0
    }

    /// Accepts what a native resolver answered: `None` for the null address,
    /// which is how a resolver says that it does not know the name.
    pub fn from_address(address: usize) -> (pointer: Option<FunctionPointer>)
        ensures
            address == 0 <==> pointer is None,
            pointer matches Some(p) ==> p@ == address,
    {
        if address == 0 {
            None
        } else {
            Some(FunctionPointer { address })
        }
    }

    pub fn address(&self) -> (address: usize)
        ensures
            address == self@,
            address != 0,
    {
        proof {
            use_type_invariant(self);
        }
        self.address
    }
}

} // verus!
