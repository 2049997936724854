//! Video image processor stub: accepts bus accesses at its address window
//! with no effect yet; reads yield zero.

use vstd::prelude::*;

verus! {

pub struct Vip {}

impl Vip {
    pub fn new() -> (r: Vip) {
        Vip {  }
    }

    pub fn read_byte(&self, _addr: u32) -> (r: u8)
        ensures
            r == 0,
    {
        0
    }

    pub fn read_halfword(&self, _addr: u32) -> (r: u16)
        ensures
            r == 0,
    {
        0
    }

    pub fn write_halfword(&mut self, _addr: u32, _val: u16)
        ensures
            *final(self) == *old(self),
    {
    }
}

} // verus!
