use vstd::prelude::*;
use crate::cpu::Address;

verus! {

/// The number of bytes of memory.
pub const MEMORY_SIZE: usize = 4096;

/// Flat byte-addressed memory of 4096 bytes.
#[derive(Debug)]
pub struct Memory {
    data: [u8; 4096],
}

impl View for Memory {
    type V = Seq<u8>;

    closed spec fn view(&self) -> Seq<u8> {
        self.data@
    }
}

impl Memory {
    pub broadcast proof fn lemma_len(m: &Memory)
        ensures
            #[trigger] m@.len() == 4096,
    {
    }

    /// Memory with every byte zero.
    pub fn new() -> (r: Self)
        ensures
            r@ == Seq::new(4096, |_i: int| 0u8),
    {
        let r = Memory { data: [0u8; 4096] };
        assert(r@ =~= Seq::new(4096, |_i: int| 0u8));
        r
    }

    /// Copies `data` into memory starting at `addr`; the bytes must end
    /// within memory.
    pub fn write(&mut self, addr: Address, data: &[u8])
        requires
            addr@ + data@.len() <= 4096,
        ensures
            final(self)@ == old(self)@.take(addr@ as int) + data@ + old(self)@.skip(
                (addr@ + data@.len()) as int,
            ),
    {
        let start = addr.get();
        let mut k: usize = 0;
        while k < data.len()
            invariant
                start == addr@,
                start + data@.len() <= 4096,
                k <= data@.len(),
                self@.len() == 4096,
                forall|j: int|
                    0 <= j < 4096 ==> #[trigger] self@[j] == if start <= j < start + k {
                        data@[j - start]
                    } else {
                        old(self)@[j]
                    },
            decreases data@.len() - k,
        {
            self.data[start + k] = data[k];
            k = k + 1;
        }
        assert(self@ =~= old(self)@.take(addr@ as int) + data@ + old(self)@.skip(
            (addr@ + data@.len()) as int,
        ));
    }

    pub fn write8(&mut self, addr: Address, value: u8)
        ensures
            final(self)@ == old(self)@.update(addr@ as int, value),
    {
        self.data[addr.get()] = value;
    }

    /// Stores `value` big-endian at `addr` and the byte after it.
    pub fn write16(&mut self, addr: Address, value: u16)
        requires
            addr@ + 1 < 4096,
        ensures
            final(self)@ == old(self)@.update(addr@ as int, (value >> 8) as u8).update(
                addr@ + 1int,
                value as u8,
            ),
    {
        self.write8(addr, (value >> 8) as u8);
        self.write8(addr.add(1), value as u8);
    }

    /// The `len` bytes starting at `addr`; they must end within memory.
    pub fn read(&self, addr: Address, len: u16) -> (r: &[u8])
        requires
            addr@ + len <= 4096,
        ensures
            r@ == self@.subrange(addr@ as int, addr@ + len as int),
    {
        let start = addr.get();
        vstd::slice::slice_subrange(self.data.as_slice(), start, start + len as usize)
    }

    pub fn read8(&self, addr: Address) -> (r: u8)
        ensures
            r == self@[addr@ as int],
    {
        self.data[addr.get()]
    }

    /// The big-endian word at `addr` and the byte after it.
    pub fn read16(&self, addr: Address) -> (r: u16)
        requires
            addr@ + 1 < 4096,
        ensures
            r == self@[addr@ as int] * 256 + self@[addr@ + 1int],
    {
        let hi = self.read8(addr);
        let lo = self.read8(addr.add(1));
        assert(((hi as u16) << 8) | (lo as u16) == hi * 256 + lo) by (bit_vector)
            requires
                hi < 256,
                lo < 256,
        ;
        ((hi as u16) << 8) | (lo as u16)
    }
}

} // verus!
