//! The system shell: owns the CPU and the interconnect, and runs one step at
//! a time, forwarding elapsed cycles to the peripherals. No peripheral
//! raises interrupts yet, so no interrupt is ever delivered.

use vstd::prelude::*;

use crate::errors::EmuError;
use crate::interconnect::Interconnect;
use crate::rom::Rom;
use crate::v810::{init_cpu, reset_spec, step_spec, V810};

verus! {

pub struct VirtualBoy {
    pub interconnect: Interconnect,
    pub cpu: V810,
}

impl VirtualBoy {
    pub open spec fn wf(&self) -> bool {
        self.cpu.wf() && self.interconnect.wf()
    }

    /// A machine holding the given ROM, with the CPU reset and the work RAM
    /// and hardware registers zeroed.
    pub fn new(rom: Rom) -> (r: VirtualBoy)
        requires
            rom.wf(),
        ensures
            r.wf(),
            r.cpu@ == reset_spec(init_cpu()),
            r.interconnect@.rom == rom.data@,
            r.interconnect@.wram == Seq::new(0x10000, |i: int| 0u8),
    {
        let mut cpu = V810::new();
        cpu.reset();
        VirtualBoy { interconnect: Interconnect::new(rom), cpu }
    }

    /// Run one CPU step against the bus and hand the elapsed cycles to the
    /// peripherals. The whole transition is the CPU's `step_spec`; since no
    /// peripheral raises interrupts yet, nothing more happens.
    pub fn step(&mut self) -> (r: Result<usize, EmuError>)
        requires
            old(self).wf(),
        ensures
            final(self).wf(),
            ({
                let (sc, sb, sres) = step_spec(old(self).cpu@, old(self).interconnect);
                final(self).cpu@ == sc && final(self).interconnect@ == sb && r == sres
            }),
    {
        let cycles = match self.cpu.step(&mut self.interconnect) {
            Ok(n) => n,
            Err(e) => {
                return Err(e);
            },
        };
        if let Some(interrupt_code) = self.interconnect.cycles(cycles) {
            match self.cpu.request_interrupt(interrupt_code) {
                Ok(_) => {},
                Err(e) => {
                    return Err(e);
                },
            }
        }
        Ok(cycles)
    }
}

} // verus!
