//! Mapper 2 (UxROM): a switchable low 16 KiB PRG bank, a high bank pinned
//! to the last bank, and pass-through CHR.

use vstd::prelude::*;
use crate::mapper::{CpuReadTarget, CpuWriteTarget, Mapper, Mirroring, PpuTarget};
use crate::mapper_1::spec_last_bank;

verus! {

pub struct Mapper2 {
    pub n_prg_banks: u8,
    pub n_chr_banks: u8,

    pub prg_bank_low: u8,
    pub prg_bank_high: u8,
}

impl Mapper2 {
    pub fn new(prg_banks: u8, chr_banks: u8) -> (m: Mapper2)
        ensures
            m == (Mapper2 {
                n_prg_banks: prg_banks,
                n_chr_banks: chr_banks,
                prg_bank_low: 0,
                prg_bank_high: 0,
            }),
            m.wf(),
    {
        Mapper2 {
            n_prg_banks: prg_banks,
            n_chr_banks: chr_banks,
            prg_bank_low: 0,
            prg_bank_high: 0,
        }
    }
}

impl Mapper for Mapper2 {
    open spec fn wf(&self) -> bool {
        true
    }

    open spec fn spec_cpu_read(&self, address: u16) -> CpuReadTarget {
        if 0x8000 <= address && address <= 0xBFFF {
            CpuReadTarget::Prg((self.prg_bank_low * 0x4000 + (address & 0x3FFF)) as u32)
        } else if address >= 0xC000 {
            CpuReadTarget::Prg((self.prg_bank_high * 0x4000 + (address & 0x3FFF)) as u32)
        } else {
            CpuReadTarget::Open
        }
    }

    open spec fn spec_cpu_write(&self, address: u16, data: u8) -> CpuWriteTarget {
        CpuWriteTarget::Open
    }

    open spec fn spec_cpu_write_rel(&self, post: &Mapper2, address: u16, data: u8) -> bool {
        if address >= 0x8000 {
            *post == (Mapper2 { prg_bank_low: data & 0x0F, ..*self })
        } else {
            *post == *self
        }
    }

    open spec fn spec_ppu_read(&self, address: u16) -> PpuTarget {
        if address < 0x2000 {
            PpuTarget::Chr(address as u32)
        } else {
            PpuTarget::Open
        }
    }

    open spec fn spec_ppu_write(&self, address: u16) -> PpuTarget {
        if address < 0x2000 && self.n_chr_banks == 0 {
            PpuTarget::Chr(address as u32)
        } else {
            PpuTarget::Open
        }
    }

    open spec fn spec_mirror(&self) -> Mirroring {
        Mirroring::Hardware
    }

    open spec fn spec_reset(&self) -> Mapper2 {
        Mapper2 {
            prg_bank_low: 0,
            prg_bank_high: spec_last_bank(self.n_prg_banks),
            ..*self
        }
    }

    fn cpu_mapper_read(&mut self, address: u16, mapped_address: &mut u32, data: &mut u8) -> (handled: bool) {
        if 0x8000 <= address && address <= 0xBFFF {
            *mapped_address = self.prg_bank_low as u32 * 0x4000 + (address & 0x3FFF) as u32;
            return true;
        }
        if address >= 0xC000 {
            *mapped_address = self.prg_bank_high as u32 * 0x4000 + (address & 0x3FFF) as u32;
            return true;
        }
        return false;
    }

    fn cpu_mapper_write(&mut self, address: u16, mapped_address: &mut u32, data: &mut u8) -> (handled: bool) {
        if address >= 0x8000 {
            self.prg_bank_low = *data & 0x0F;
        }
        return false;
    }

    fn ppu_mapper_read(&mut self, address: u16, mapped_address: &mut u32) -> (handled: bool) {
        if address < 0x2000 {
            *mapped_address = address as u32;
            return true;
        }
        return false;
    }

    fn ppu_mapper_write(&mut self, address: u16, mapped_address: &mut u32) -> (handled: bool) {
        if address < 0x2000 {
            if self.n_chr_banks == 0 {
                *mapped_address = address as u32;
                return true;
            }
        }
        return false;
    }

    fn reset(&mut self) {
        self.prg_bank_low = 0;
        if self.n_prg_banks > 0 {
            self.prg_bank_high = self.n_prg_banks - 1;
        } else {
            self.prg_bank_high = 0;
        }
    }

    fn mirror(&mut self) -> (m: Mirroring) {
        return Mirroring::Hardware;
    }
}

} // verus!
