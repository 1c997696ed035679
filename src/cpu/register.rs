use vstd::prelude::*;

verus! {

/// The index of one of the sixteen general registers `V0` to `VF`.
#[derive(Debug, Clone, Copy, PartialEq, Eq, Structural)]
pub struct Register {
    x: u8,
}

impl View for Register {
    type V = int;

    closed spec fn view(&self) -> int {
        self.x as int
    }
}

impl Register {
    #[verifier::type_invariant]
    spec fn inv(self) -> bool {
        self.x < 16
    }

    /// The register with index `x`, as a spec value (meaningful for `x < 16`).
    pub closed spec fn of(x: u8) -> Register {
        Register { x }
    }

    pub broadcast proof fn lemma_of_view(x: u8)
        ensures
            #[trigger] Register::of(x)@ == x as int,
    {
    }

    /// Builds a register index; `x` must fit in 4 bits.
    pub fn new(x: u8) -> (r: Self)
        requires
            x < 16,
        ensures
            r@ == x as int,
            r == Register::of(x),
    {
        Register { x }
    }

    pub fn get(&self) -> (r: u8)
        ensures
            r == self@,
            r < 16,
    {
        proof {
            use_type_invariant(self);
        }
        self.x
    }

    pub fn idx(&self) -> (r: usize)
        ensures
            r == self@,
            r < 16,
    {
        proof {
            use_type_invariant(self);
        }
        self.x as usize
    }
}

} // verus!
