//! Address-decode fabric: masks every access into the 27-bit physical space
//! and routes it to the video stub, sound stub, hardware control registers,
//! system work RAM or cartridge ROM.

use vstd::prelude::*;

use crate::bits::wrap_add32;
use crate::errors::EmuError;
use crate::ram::{Ram, RamError};
use crate::rom::Rom;
use crate::vip::Vip;
use crate::vsu::Vsu;

verus! {

pub const VIP_START: u32 = 0x00000000;

pub const VSU_START: u32 = 0x01000000;

pub const HARDWARE_START: u32 = 0x02000000;

pub const HARDWARE_LINK_CTRL: u32 = 0x02000000;

pub const HARDWARE_AUX_LINK: u32 = 0x02000004;

pub const HARDWARE_LINK_SEND: u32 = 0x02000008;

pub const HARDWARE_LINK_RECV: u32 = 0x0200000C;

pub const HARDWARE_GAME_PAD_LOW: u32 = 0x02000010;

pub const HARDWARE_GAME_PAD_HIGH: u32 = 0x02000014;

pub const HARDWARE_TIMER_RELOAD_HIGH: u32 = 0x02000018;

pub const HARDWARE_TIMER_RELOAD_LOW: u32 = 0x0200001C;

pub const HARDWARE_TIMER_CTRL: u32 = 0x02000020;

pub const HARDWARE_WAIT_CTRL: u32 = 0x02000024;

pub const HARDWARE_GAME_PAD_CTRL: u32 = 0x02000028;

pub const UNUSED_START: u32 = 0x0200002C;

pub const CART_EXPANSION_START: u32 = 0x04000000;

pub const SWRAM_START: u32 = 0x05000000;

pub const CART_RAM_START: u32 = 0x06000000;

pub const ROM_START: u32 = 0x07000000;

/// System work RAM holds 64 KiB; addresses wrap within the region.
pub const SWRAM_SIZE: u32 = 0x10000;

/// The memory and hardware-register state the bus routes accesses to, as
/// plain sequences and bytes.
#[verifier::ext_equal]
pub ghost struct BusV {
    pub wram: Seq<u8>,
    pub rom: Seq<u8>,
    pub lcr: u8,
    pub alr: u8,
    pub ltd: u8,
    pub lrd: u8,
    pub gpil: u8,
    pub gpih: u8,
    pub tcrl: u8,
    pub tcrh: u8,
    pub tcr: u8,
    pub wcr: u8,
    pub gpicr: u8,
}

pub struct Interconnect {
    pub vip: Vip,
    pub vsu: Vsu,
    pub sys_wram: Ram,
    pub rom: Rom,
    pub reg_lcr: u8,
    pub reg_alr: u8,
    pub reg_ltd: u8,
    pub reg_lrd: u8,
    pub reg_gpil: u8,
    pub reg_gpih: u8,
    pub reg_tcrl: u8,
    pub reg_tcrh: u8,
    pub reg_tcr: u8,
    pub reg_wcr: u8,
    pub reg_gpicr: u8,
}

impl View for Interconnect {
    type V = BusV;

    open spec fn view(&self) -> BusV {
        BusV {
            wram: self.sys_wram.data@,
            rom: self.rom.data@,
            lcr: self.reg_lcr,
            alr: self.reg_alr,
            ltd: self.reg_ltd,
            lrd: self.reg_lrd,
            gpil: self.reg_gpil,
            gpih: self.reg_gpih,
            tcrl: self.reg_tcrl,
            tcrh: self.reg_tcrh,
            tcr: self.reg_tcr,
            wcr: self.reg_wcr,
            gpicr: self.reg_gpicr,
        }
    }
}

/// Where a masked halfword write lands, and the bus state that results;
/// fails on regions that take no writes yet and on the ROM.
pub open spec fn bus_write_halfword(b: BusV, addr: u32, val: u16) -> Result<BusV, EmuError> {
    let a = (addr & 0x07ffffff) & 0xfffffffe;
    if a < VSU_START {
        // the video stub accepts the write with no effect yet
        Ok(b)
    } else if a < HARDWARE_START {
        // the sound stub accepts the write with no effect yet
        Ok(b)
    } else if a < SWRAM_START {
        Err(EmuError::UnimplementedWrite { addr: a })
    } else if a < CART_RAM_START {
        let m = ((((a - SWRAM_START) as u32) & 0xfffffffe) & 0xffff) as int;
        Ok(BusV { wram: b.wram.update(m, val as u8).update(m + 1, (val >> 8) as u8), ..b })
    } else {
        Err(EmuError::UnimplementedWrite { addr: a })
    }
}

/// Where a masked byte write lands, and the bus state that results. Bytes
/// aimed at a hardware control register land in that register; writes to the
/// unused and cartridge-expansion ranges are swallowed.
pub open spec fn bus_write_byte(b: BusV, addr: u32, val: u8) -> Result<BusV, EmuError> {
    let a = addr & 0x07ffffff;
    if a < VSU_START {
        Err(EmuError::UnimplementedWrite { addr: a })
    } else if a < HARDWARE_START {
        // the sound stub accepts the write with no effect yet
        Ok(b)
    } else if a < CART_EXPANSION_START {
        // 0x02000000 ..= 0x03ffffff: hardware control registers, then unused
        if a == HARDWARE_LINK_CTRL {
            Ok(BusV { lcr: val, ..b })
        } else if a == HARDWARE_AUX_LINK {
            Ok(BusV { alr: val, ..b })
        } else if a == HARDWARE_LINK_SEND {
            Ok(BusV { ltd: val, ..b })
        } else if a == HARDWARE_LINK_RECV {
            Ok(BusV { lrd: val, ..b })
        } else if a == HARDWARE_GAME_PAD_LOW {
            Ok(BusV { gpil: val, ..b })
        } else if a == HARDWARE_GAME_PAD_HIGH {
            Ok(BusV { gpih: val, ..b })
        } else if a == HARDWARE_TIMER_RELOAD_HIGH {
            Ok(BusV { tcrh: val, ..b })
        } else if a == HARDWARE_TIMER_RELOAD_LOW {
            Ok(BusV { tcrl: val, ..b })
        } else if a == HARDWARE_TIMER_CTRL {
            Ok(BusV { tcr: val, ..b })
        } else if a == HARDWARE_WAIT_CTRL {
            Ok(BusV { wcr: val, ..b })
        } else if a == HARDWARE_GAME_PAD_CTRL {
            Ok(BusV { gpicr: val, ..b })
        } else if a >= UNUSED_START {
            // unused range: the write is diagnostic-only
            Ok(b)
        } else {
            Err(EmuError::UnimplementedWrite { addr: a })
        }
    } else if a < SWRAM_START {
        // cartridge expansion: the write is diagnostic-only
        Ok(b)
    } else if a < CART_RAM_START {
        Ok(BusV { wram: b.wram.update((((a - SWRAM_START) as u32) & 0xffff) as int, val), ..b })
    } else {
        Err(EmuError::UnimplementedWrite { addr: a })
    }
}

/// A word write is the low halfword at the address, then the high halfword
/// two bytes past it; the first failure stops it, keeping what was written.
pub open spec fn bus_write_word(b: BusV, addr: u32, val: u32) -> (BusV, Result<(), EmuError>) {
    match bus_write_halfword(b, addr, val as u16) {
        Err(e) => (b, Err(e)),
        Ok(b1) => match bus_write_halfword(b1, wrap_add32(addr, 2), (val >> 16) as u16) {
            Err(e) => (b1, Err(e)),
            Ok(b2) => (b2, Ok(())),
        },
    }
}

impl Interconnect {
    pub open spec fn wf(&self) -> bool {
        &&& self.sys_wram.wf()
        &&& self.sys_wram.size == SWRAM_SIZE
        &&& self.rom.wf()
    }

    /// What a masked byte read yields: zero from the video stub, memory from
    /// work RAM and ROM, and a failure from regions not modeled yet.
    pub open spec fn spec_read_byte(&self, addr: u32) -> Result<u8, EmuError> {
        let a = addr & 0x07ffffff;
        if a < VSU_START {
            Ok(0u8)
        } else if a < SWRAM_START {
            Err(EmuError::UnimplementedRead { addr: a })
        } else if a < CART_RAM_START {
            Ok(self.sys_wram.spec_read_byte((a - SWRAM_START) as u32))
        } else if a < ROM_START {
            Err(EmuError::UnimplementedRead { addr: a })
        } else {
            Ok(self.rom.spec_read_byte((a - ROM_START) as u32))
        }
    }

    /// What a masked, bit-0-cleared halfword read yields.
    pub open spec fn spec_read_halfword(&self, addr: u32) -> Result<u16, EmuError> {
        let a = (addr & 0x07ffffff) & 0xfffffffe;
        if a < VSU_START {
            Ok(0u16)
        } else if a < SWRAM_START {
            Err(EmuError::UnimplementedRead { addr: a })
        } else if a < CART_RAM_START {
            Ok(self.sys_wram.spec_read_halfword((a - SWRAM_START) as u32))
        } else if a < ROM_START {
            Err(EmuError::UnimplementedRead { addr: a })
        } else {
            Ok(self.rom.spec_read_halfword((a - ROM_START) as u32))
        }
    }

    /// A word read composes the halfwords at the address and two bytes past
    /// it, little-endian.
    pub open spec fn spec_read_word(&self, addr: u32) -> Result<u32, EmuError> {
        match self.spec_read_halfword(addr) {
            Err(e) => Err(e),
            Ok(lo) => match self.spec_read_halfword(wrap_add32(addr, 2)) {
                Err(e) => Err(e),
                Ok(hi) => Ok((lo as u32) | ((hi as u32) << 16)),
            },
        }
    }

    pub fn new(rom: Rom) -> (r: Interconnect)
        requires
            rom.wf(),
        ensures
            r.wf(),
            r@ == (BusV {
                wram: Seq::new(SWRAM_SIZE as nat, |i: int| 0u8),
                rom: rom.data@,
                lcr: 0u8,
                alr: 0u8,
                ltd: 0u8,
                lrd: 0u8,
                gpil: 0u8,
                gpih: 0u8,
                tcrl: 0u8,
                tcrh: 0u8,
                tcr: 0u8,
                wcr: 0u8,
                gpicr: 0u8,
            }),
    {
        proof {
            assert(0x10000u32 & 0xffffu32 == 0u32) by (bit_vector);
        }
        let sys_wram = match Ram::new(SWRAM_SIZE) {
            Ok(ram) => ram,
            Err(RamError::SizeNotPowerOfTwo) => {
                proof {
                    assert(false);
                }
                unreached()
            },
        };
        Interconnect {
            vip: Vip::new(),
            vsu: Vsu::new(),
            sys_wram,
            rom,
            reg_lcr: 0,
            reg_alr: 0,
            reg_ltd: 0,
            reg_lrd: 0,
            reg_gpil: 0,
            reg_gpih: 0,
            reg_tcrl: 0,
            reg_tcrh: 0,
            reg_tcr: 0,
            reg_wcr: 0,
            reg_gpicr: 0,
        }
    }

    /// Advance the peripherals by `n` elapsed cycles. No peripheral drives
    /// interrupts yet, so no interrupt code ever comes back.
    pub fn cycles(&mut self, _cycles: usize) -> (r: Option<u16>)
        ensures
            *final(self) == *old(self),
            r is None,
    {
        None
    }

    pub fn read_byte(&self, addr: u32) -> (r: Result<u8, EmuError>)
        requires
            self.wf(),
        ensures
            r == self.spec_read_byte(addr),
    {
        let a = addr & 0x07ffffff;
        if a < VSU_START {
            Ok(self.vip.read_byte(a - VIP_START))
        } else if a < SWRAM_START {
            Err(EmuError::UnimplementedRead { addr: a })
        } else if a < CART_RAM_START {
            Ok(self.sys_wram.read_byte(a - SWRAM_START))
        } else if a < ROM_START {
            Err(EmuError::UnimplementedRead { addr: a })
        } else {
            Ok(self.rom.read_byte(a - ROM_START))
        }
    }

    pub fn read_halfword(&self, addr: u32) -> (r: Result<u16, EmuError>)
        requires
            self.wf(),
        ensures
            r == self.spec_read_halfword(addr),
    {
        let a = (addr & 0x07ffffff) & 0xfffffffe;
        if a < VSU_START {
            Ok(self.vip.read_halfword(a - VIP_START))
        } else if a < SWRAM_START {
            Err(EmuError::UnimplementedRead { addr: a })
        } else if a < CART_RAM_START {
            Ok(self.sys_wram.read_halfword(a - SWRAM_START))
        } else if a < ROM_START {
            Err(EmuError::UnimplementedRead { addr: a })
        } else {
            Ok(self.rom.read_halfword(a - ROM_START))
        }
    }

    pub fn read_word(&self, addr: u32) -> (r: Result<u32, EmuError>)
        requires
            self.wf(),
        ensures
            r == self.spec_read_word(addr),
    {
        match self.read_halfword(addr) {
            Err(e) => Err(e),
            Ok(lo) => match self.read_halfword(addr.wrapping_add(2)) {
                Err(e) => Err(e),
                Ok(hi) => Ok((lo as u32) | ((hi as u32) << 16)),
            },
        }
    }

    pub fn write_byte(&mut self, addr: u32, val: u8) -> (r: Result<(), EmuError>)
        requires
            old(self).wf(),
        ensures
            final(self).wf(),
            match bus_write_byte(old(self)@, addr, val) {
                Ok(b) => r == Ok::<(), EmuError>(()) && final(self)@ == b,
                Err(e) => r == Err::<(), EmuError>(e) && final(self)@ == old(self)@,
            },
    {
        let a = addr & 0x07ffffff;
        if a < VSU_START {
            Err(EmuError::UnimplementedWrite { addr: a })
        } else if a < HARDWARE_START {
            self.vsu.write_byte(a - VSU_START, val);
            Ok(())
        } else if a < CART_EXPANSION_START {
            if a == HARDWARE_LINK_CTRL {
                self.reg_lcr = val;
                Ok(())
            } else if a == HARDWARE_AUX_LINK {
                self.reg_alr = val;
                Ok(())
            } else if a == HARDWARE_LINK_SEND {
                self.reg_ltd = val;
                Ok(())
            } else if a == HARDWARE_LINK_RECV {
                self.reg_lrd = val;
                Ok(())
            } else if a == HARDWARE_GAME_PAD_LOW {
                self.reg_gpil = val;
                Ok(())
            } else if a == HARDWARE_GAME_PAD_HIGH {
                self.reg_gpih = val;
                Ok(())
            } else if a == HARDWARE_TIMER_RELOAD_HIGH {
                self.reg_tcrh = val;
                Ok(())
            } else if a == HARDWARE_TIMER_RELOAD_LOW {
                self.reg_tcrl = val;
                Ok(())
            } else if a == HARDWARE_TIMER_CTRL {
                self.reg_tcr = val;
                Ok(())
            } else if a == HARDWARE_WAIT_CTRL {
                self.reg_wcr = val;
                Ok(())
            } else if a == HARDWARE_GAME_PAD_CTRL {
                self.reg_gpicr = val;
                Ok(())
            } else if a >= UNUSED_START {
                Ok(())
            } else {
                Err(EmuError::UnimplementedWrite { addr: a })
            }
        } else if a < SWRAM_START {
            Ok(())
        } else if a < CART_RAM_START {
            self.sys_wram.write_byte(a - SWRAM_START, val);
            Ok(())
        } else {
            Err(EmuError::UnimplementedWrite { addr: a })
        }
    }

    pub fn write_halfword(&mut self, addr: u32, val: u16) -> (r: Result<(), EmuError>)
        requires
            old(self).wf(),
        ensures
            final(self).wf(),
            match bus_write_halfword(old(self)@, addr, val) {
                Ok(b) => r == Ok::<(), EmuError>(()) && final(self)@ == b,
                Err(e) => r == Err::<(), EmuError>(e) && final(self)@ == old(self)@,
            },
    {
        let a = (addr & 0x07ffffff) & 0xfffffffe;
        if a < VSU_START {
            self.vip.write_halfword(a - VIP_START, val);
            Ok(())
        } else if a < HARDWARE_START {
            self.vsu.write_halfword(a - VSU_START, val);
            Ok(())
        } else if a < SWRAM_START {
            Err(EmuError::UnimplementedWrite { addr: a })
        } else if a < CART_RAM_START {
            self.sys_wram.write_halfword(a - SWRAM_START, val);
            Ok(())
        } else {
            Err(EmuError::UnimplementedWrite { addr: a })
        }
    }

    pub fn write_word(&mut self, addr: u32, val: u32) -> (r: Result<(), EmuError>)
        requires
            old(self).wf(),
        ensures
            final(self).wf(),
            ({
                let (b, res) = bus_write_word(old(self)@, addr, val);
                final(self)@ == b && r == res
            }),
    {
        match self.write_halfword(addr, #[verifier::truncate] (val as u16)) {
            Err(e) => Err(e),
            Ok(()) => self.write_halfword(
                addr.wrapping_add(2),
                #[verifier::truncate] ((val >> 16) as u16),
            ),
        }
    }

    /// Halfword reads ignore bit 0 of the address.
    pub proof fn lemma_read_halfword_ignores_bit0(&self, addr: u32)
        ensures
            self.spec_read_halfword(addr) == self.spec_read_halfword(addr | 1),
    {
        assert(((addr | 1) & 0x07ffffff) & 0xfffffffe == (addr & 0x07ffffff) & 0xfffffffe)
            by (bit_vector);
    }

    /// Word reads compose the two halfwords at the address and two bytes
    /// past it, little-endian; either failure is the word read's failure.
    pub proof fn lemma_read_word_composes(&self, addr: u32)
        ensures
            match (self.spec_read_halfword(addr), self.spec_read_halfword(wrap_add32(addr, 2))) {
                (Ok(lo), Ok(hi)) => self.spec_read_word(addr) == Ok::<u32, EmuError>(
                    (lo as u32) | ((hi as u32) << 16),
                ),
                (Err(e), _) => self.spec_read_word(addr) == Err::<u32, EmuError>(e),
                (Ok(_), Err(e)) => self.spec_read_word(addr) == Err::<u32, EmuError>(e),
            },
    {
    }
}

} // verus!
