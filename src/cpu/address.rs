use vstd::prelude::*;

verus! {

/// The number of distinct addresses: addresses are 12-bit values.
pub const ADDRESS_SPACE: u16 = 4096;

/// A validated 12-bit memory address.
#[derive(Debug, Clone, Copy, PartialEq, Eq, Structural, Hash)]
pub struct Address {
    x: u16,
}

impl View for Address {
    type V = int;

    closed spec fn view(&self) -> int {
        self.x as int
    }
}

impl Address {
    #[verifier::type_invariant]
    spec fn inv(self) -> bool {
        self.x < 4096
    }

    /// The address holding `x`, as a spec value (meaningful for `x < 4096`).
    pub closed spec fn of(x: u16) -> Address {
        Address { x }
    }

    pub broadcast proof fn lemma_of_view(x: u16)
        ensures
            #[trigger] Address::of(x)@ == x as int,
    {
    }

    pub broadcast proof fn lemma_view_nonneg(a: Address)
        ensures
            0 <= #[trigger] a@,
    {
    }

    /// Builds an address; `x` must fit in 12 bits.
    pub fn new(x: u16) -> (r: Self)
        requires
            x < 4096,
        ensures
            r@ == x as int,
            r == Address::of(x),
    {
        Address { x }
    }

    /// Builds an address, or `None` when `x` does not fit in 12 bits.
    pub fn try_new(x: u16) -> (r: Option<Self>)
        ensures
            x < 4096 <==> r is Some,
            r matches Some(a) ==> a@ == x as int,
    {
        if x < ADDRESS_SPACE {
            Some(Address { x })
        } else {
            None
        }
    }

    /// The address `y` bytes further on; the sum must stay below 4096.
    pub fn add(&self, y: u16) -> (r: Self)
        requires
            self@ + y < 4096,
        ensures
            r@ == self@ + y,
    {
        Address::new(self.x + y)
    }

    /// The address `y` bytes further on, or `None` past the last address.
    pub fn checked_add(&self, y: u16) -> (r: Option<Self>)
        ensures
            self@ + y < 4096 <==> r is Some,
            r matches Some(a) ==> a@ == self@ + y,
    {
        proof {
            use_type_invariant(self);
        }
        if y < ADDRESS_SPACE - self.x {
            Some(Address::new(self.x + y))
        } else {
            None
        }
    }

    /// The address `y` bytes back; `y` must not exceed the address.
    pub fn sub(&self, y: u16) -> (r: Self)
        requires
            y <= self@,
        ensures
            r@ == self@ - y,
    {
        proof {
            use_type_invariant(self);
        }
        Address::new(self.x - y)
    }

    pub fn get(&self) -> (r: usize)
        ensures
            r == self@,
            r < 4096,
    {
        proof {
            use_type_invariant(self);
        }
        self.x as usize
    }
}

} // verus!
