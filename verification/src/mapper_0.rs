//! Mapper 0 (NROM): fixed PRG banking, pass-through CHR.

use vstd::prelude::*;
use crate::mapper::{CpuReadTarget, CpuWriteTarget, Mapper, Mirroring, PpuTarget, MAPPER_LOCAL};

verus! {

/// NROM: CPU reads at `$8000-$FFFF` map to PRG masked by one or two 16 KiB
/// banks; writes to that range are ignored; PPU accesses below `$2000` pass
/// through to CHR, writable only when CHR is RAM (zero CHR banks).
pub struct Mapper0 {
    pub n_prg_banks: u8,
    pub n_chr_banks: u8,
}

impl Mapper0 {
    pub fn new(prg_banks: u8, chr_banks: u8) -> (m: Mapper0)
        ensures
            m.n_prg_banks == prg_banks,
            m.n_chr_banks == chr_banks,
            m.wf(),
    {
        Mapper0 { n_prg_banks: prg_banks, n_chr_banks: chr_banks }
    }
}

impl Mapper for Mapper0 {
    open spec fn wf(&self) -> bool {
        true
    }

    open spec fn spec_cpu_read(&self, address: u16) -> CpuReadTarget {
        if address >= 0x8000 {
            if self.n_prg_banks > 1 {
                CpuReadTarget::Prg((address & 0x7FFF) as u32)
            } else {
                CpuReadTarget::Prg((address & 0x3FFF) as u32)
            }
        } else {
            CpuReadTarget::Open
        }
    }

    open spec fn spec_cpu_write(&self, address: u16, data: u8) -> CpuWriteTarget {
        if address >= 0x8000 {
            CpuWriteTarget::Consumed
        } else {
            CpuWriteTarget::Open
        }
    }

    open spec fn spec_cpu_write_rel(&self, post: &Mapper0, address: u16, data: u8) -> bool {
        *post == *self
    }

    open spec fn spec_ppu_read(&self, address: u16) -> PpuTarget {
        if address <= 0x1FFF {
            PpuTarget::Chr(address as u32)
        } else {
            PpuTarget::Open
        }
    }

    open spec fn spec_ppu_write(&self, address: u16) -> PpuTarget {
        if address <= 0x1FFF && self.n_chr_banks == 0 {
            PpuTarget::Chr(address as u32)
        } else {
            PpuTarget::Open
        }
    }

    open spec fn spec_mirror(&self) -> Mirroring {
        Mirroring::Hardware
    }

    open spec fn spec_reset(&self) -> Mapper0 {
        *self
    }

    fn cpu_mapper_read(&mut self, address: u16, mapped_address: &mut u32, data: &mut u8) -> (handled: bool) {
        if address >= 0x8000 {
            if self.n_prg_banks > 1 {
                *mapped_address = (address & 0x7FFF) as u32;
            } else {
                *mapped_address = (address & 0x3FFF) as u32;
            }
            return true;
        }
        return false;
    }

    fn cpu_mapper_write(&mut self, address: u16, mapped_address: &mut u32, data: &mut u8) -> (handled: bool) {
        if address >= 0x8000 {
            // PRG is ROM here: the write is accepted and dropped.
            *mapped_address = MAPPER_LOCAL;
            return true;
        }
        return false;
    }

    fn ppu_mapper_read(&mut self, address: u16, mapped_address: &mut u32) -> (handled: bool) {
        if address <= 0x1FFF {
            *mapped_address = address as u32;
            return true;
        }
        return false;
    }

    fn ppu_mapper_write(&mut self, address: u16, mapped_address: &mut u32) -> (handled: bool) {
        if address <= 0x1FFF {
            if self.n_chr_banks == 0 {
                *mapped_address = address as u32;
                return true;
            }
        }
        return false;
    }

    fn reset(&mut self) {
    }

    fn mirror(&mut self) -> (m: Mirroring) {
        return Mirroring::Hardware;
    }
}

} // verus!
