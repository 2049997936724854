//! Virtual sound unit stub: accepts bus writes at its address window with no
//! effect yet.

use vstd::prelude::*;

verus! {

pub struct Vsu {}

impl Vsu {
    pub fn new() -> (r: Vsu) {
        Vsu {  }
    }

    pub fn write_byte(&mut self, _addr: u32, _val: u8)
        ensures
            *final(self) == *old(self),
    {
    }

    pub fn write_halfword(&mut self, _addr: u32, _val: u16)
        ensures
            *final(self) == *old(self),
    {
    }
}

} // verus!
