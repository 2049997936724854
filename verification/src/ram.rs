//! Fixed-capacity byte memory whose size is a power of two; every access
//! masks its offset by `size - 1`, so addresses wrap within the block.

use vstd::prelude::*;

use crate::bits::{is_pow2_u32, lemma_pow2_mask_bound, lemma_pow2_mask_even};

verus! {

#[derive(Clone, Copy, Debug, PartialEq, Eq, Structural)]
pub enum RamError {
    SizeNotPowerOfTwo,
}

pub struct Ram {
    pub data: Vec<u8>,
    pub size: u32,
}

impl Ram {
    pub open spec fn wf(&self) -> bool {
        is_pow2_u32(self.size) && self.data@.len() == self.size
    }

    /// The index a given offset reaches after wrap masking.
    pub open spec fn spec_mask(&self, addr: u32) -> int {
        (addr & ((self.size - 1) as u32)) as int
    }

    pub open spec fn spec_read_byte(&self, addr: u32) -> u8 {
        self.data@[self.spec_mask(addr)]
    }

    /// Little-endian halfword at the masked, bit-0-cleared offset.
    pub open spec fn spec_read_halfword(&self, addr: u32) -> u16 {
        let lo = self.spec_mask(addr & 0xfffffffe);
        (self.data@[lo] as u16) | ((self.data@[lo + 1] as u16) << 8)
    }

    /// A memory block of `size` zeroed bytes; fails unless `size` is a
    /// power of two.
    pub fn new(size: u32) -> (r: Result<Ram, RamError>)
        ensures
            match r {
                Ok(ram) => is_pow2_u32(size) && ram.wf() && ram.size == size && ram.data@
                    =~= Seq::new(size as nat, |i: int| 0u8),
                Err(e) => !is_pow2_u32(size) && e == RamError::SizeNotPowerOfTwo,
            },
    {
        if size == 0 || (size & (size - 1)) != 0 {
            return Err(RamError::SizeNotPowerOfTwo);
        }
        let data = vec![0u8; size as usize];
        let ram = Ram { data, size };
        proof {
            assert forall|i: int| 0 <= i < size implies ram.data@[i] == 0u8 by {
                assert(cloned(0u8, ram.data@[i]));
            }
        }
        Ok(ram)
    }

    fn mask_addr(&self, addr: u32) -> (r: usize)
        requires
            self.wf(),
        ensures
            r == self.spec_mask(addr),
            r < self.size,
    {
        proof {
            lemma_pow2_mask_bound(addr, self.size);
        }
        (addr & (self.size - 1)) as usize
    }

    pub fn read_byte(&self, addr: u32) -> (r: u8)
        requires
            self.wf(),
        ensures
            r == self.spec_read_byte(addr),
    {
        let masked = self.mask_addr(addr);
        self.data[masked]
    }

    pub fn read_halfword(&self, addr: u32) -> (r: u16)
        requires
            self.wf(),
            self.size >= 2,
        ensures
            r == self.spec_read_halfword(addr),
    {
        let cleared = addr & 0xfffffffe;
        let masked = self.mask_addr(cleared);
        proof {
            lemma_pow2_mask_even(addr, self.size);
        }
        (self.data[masked] as u16) | ((self.data[masked + 1] as u16) << 8)
    }

    pub fn write_byte(&mut self, addr: u32, val: u8)
        requires
            old(self).wf(),
        ensures
            final(self).wf(),
            final(self).size == old(self).size,
            final(self).data@ == old(self).data@.update(old(self).spec_mask(addr), val),
    {
        let masked = self.mask_addr(addr);
        self.data.set(masked, val);
    }

    /// Little-endian two-byte store at the masked, bit-0-cleared offset.
    pub fn write_halfword(&mut self, addr: u32, val: u16)
        requires
            old(self).wf(),
            old(self).size >= 2,
        ensures
            final(self).wf(),
            final(self).size == old(self).size,
            final(self).data@ == old(self).data@.update(
                old(self).spec_mask(addr & 0xfffffffe),
                val as u8,
            ).update(old(self).spec_mask(addr & 0xfffffffe) + 1, (val >> 8) as u8),
    {
        let cleared = addr & 0xfffffffe;
        let masked = self.mask_addr(cleared);
        proof {
            lemma_pow2_mask_even(addr, self.size);
        }
        self.data.set(masked, #[verifier::truncate] (val as u8));
        self.data.set(masked + 1, #[verifier::truncate] ((val >> 8) as u8));
    }

    /// Halfword accesses ignore bit 0 of the address.
    pub proof fn lemma_read_halfword_ignores_bit0(&self, addr: u32)
        ensures
            self.spec_read_halfword(addr) == self.spec_read_halfword(addr | 1),
    {
        assert((addr | 1) & 0xfffffffe == addr & 0xfffffffe) by (bit_vector);
    }
}

} // verus!
