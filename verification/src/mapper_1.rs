//! Mapper 1 (MMC1): a 5-bit serial load register commits bank and control
//! registers, 16/32 KiB PRG banking, 4/8 KiB CHR banking, on-cart RAM at
//! `$6000-$7FFF`, and software-selected mirroring.

use vstd::prelude::*;
use crate::mapper::{CpuReadTarget, CpuWriteTarget, Mapper, Mirroring, PpuTarget, MAPPER_LOCAL};

verus! {

pub struct Mapper1 {
    pub n_prg_banks: u8,
    pub n_chr_banks: u8,

    pub chr_bank_low_4: u8,
    pub chr_bank_high_4: u8,
    pub chr_bank_full_8: u8,

    pub prg_bank_low_16: u8,
    pub prg_bank_high_16: u8,
    pub prg_bank_full_32: u8,

    pub load_register: u8,
    pub control_register: u8,
    pub count: u8,

    pub mirror: Mirroring,
    pub ram: Vec<u8>,
}

/// The mirroring selected by the low two bits of the control register.
pub open spec fn spec_mmc1_mirror(control: u8) -> Mirroring {
    if control & 0x03 == 0 {
        Mirroring::OnescreenLow
    } else if control & 0x03 == 1 {
        Mirroring::OnescreenHigh
    } else if control & 0x03 == 2 {
        Mirroring::Vertical
    } else {
        Mirroring::Horizontal
    }
}

impl Mapper1 {
    pub fn new(prg_banks: u8, chr_banks: u8) -> (m: Mapper1)
        ensures
            m.wf(),
            m.n_prg_banks == prg_banks,
            m.n_chr_banks == chr_banks,
            m.control_register == 0,
            m.count == 0,
            m.load_register == 0,
            m.chr_bank_low_4 == 0,
            m.chr_bank_high_4 == 0,
            m.chr_bank_full_8 == 0,
            m.prg_bank_low_16 == 0,
            m.prg_bank_high_16 == 0,
            m.prg_bank_full_32 == 0,
            m.mirror == Mirroring::Horizontal,
            m.ram@ == Seq::<u8>::new(8192, |i: int| 0u8),
    {
        let ram: Vec<u8> = vec![0u8; 8192];
        proof {
            assert(ram@ =~= Seq::<u8>::new(8192, |i: int| 0u8));
        }
        Mapper1 {
            n_prg_banks: prg_banks,
            n_chr_banks: chr_banks,
            chr_bank_low_4: 0,
            chr_bank_high_4: 0,
            chr_bank_full_8: 0,
            prg_bank_low_16: 0,
            prg_bank_high_16: 0,
            prg_bank_full_32: 0,
            load_register: 0,
            control_register: 0,
            count: 0,
            mirror: Mirroring::Horizontal,
            ram,
        }
    }

    /// The mapper state after a CPU write at `$8000-$FFFF`: bit 7 of the
    /// value resets the serial load register; otherwise the LSB is shifted
    /// in from the right, and the fifth write commits the load register to
    /// the target selected by bits 13..14 of the address.
    pub open spec fn spec_serial_write(&self, address: u16, data: u8) -> Mapper1 {
        if data & 0x80 > 0 {
            Mapper1 {
                load_register: 0,
                count: 0,
                control_register: self.control_register | 0x0C,
                ..*self
            }
        } else {
            let load = (self.load_register >> 1) | ((data & 0x01) << 4);
            if self.count == 4 {
                let target = (address >> 13) & 0x03;
                let committed = if target == 0 {
                    Mapper1 {
                        control_register: load & 0x1F,
                        mirror: spec_mmc1_mirror(load & 0x1F),
                        ..*self
                    }
                } else if target == 1 {
                    if self.control_register & 0x10 > 0 {
                        Mapper1 { chr_bank_low_4: load & 0x1F, ..*self }
                    } else {
                        Mapper1 { chr_bank_full_8: load & 0x1E, ..*self }
                    }
                } else if target == 2 {
                    if self.control_register & 0x10 > 0 {
                        Mapper1 { chr_bank_high_4: load & 0x1F, ..*self }
                    } else {
                        *self
                    }
                } else {
                    let mode = (self.control_register >> 2) & 0x03;
                    if mode == 0 || mode == 1 {
                        Mapper1 { prg_bank_full_32: (load & 0x0E) >> 1, ..*self }
                    } else if mode == 2 {
                        Mapper1 { prg_bank_low_16: 0, prg_bank_high_16: load & 0x0F, ..*self }
                    } else {
                        Mapper1 {
                            prg_bank_low_16: load & 0x0F,
                            prg_bank_high_16: spec_last_bank(self.n_prg_banks),
                            ..*self
                        }
                    }
                };
                Mapper1 { load_register: 0, count: 0, ..committed }
            } else {
                Mapper1 { load_register: load, count: (self.count + 1) as u8, ..*self }
            }
        }
    }
}

impl Mapper for Mapper1 {
    open spec fn wf(&self) -> bool {
        &&& self.ram@.len() == 8192
        &&& self.count < 5
    }

    open spec fn spec_cpu_read(&self, address: u16) -> CpuReadTarget {
        if 0x6000 <= address && address <= 0x7FFF {
            CpuReadTarget::Direct(self.ram@[(address & 0x1FFF) as int])
        } else if address >= 0x8000 {
            if self.control_register & 0x08 > 0 {
                if address <= 0xBFFF {
                    CpuReadTarget::Prg((self.prg_bank_low_16 * 0x4000 + (address & 0x3FFF)) as u32)
                } else {
                    CpuReadTarget::Prg((self.prg_bank_high_16 * 0x4000 + (address & 0x3FFF)) as u32)
                }
            } else {
                CpuReadTarget::Prg((self.prg_bank_full_32 * 0x8000 + (address & 0x7FFF)) as u32)
            }
        } else {
            CpuReadTarget::Open
        }
    }

    open spec fn spec_cpu_write(&self, address: u16, data: u8) -> CpuWriteTarget {
        if 0x6000 <= address && address <= 0x7FFF {
            CpuWriteTarget::Consumed
        } else {
            CpuWriteTarget::Open
        }
    }

    open spec fn spec_cpu_write_rel(&self, post: &Mapper1, address: u16, data: u8) -> bool {
        if 0x6000 <= address && address <= 0x7FFF {
            &&& post.ram@ == self.ram@.update((address & 0x1FFF) as int, data)
            &&& *post == (Mapper1 { ram: post.ram, ..*self })
        } else if address >= 0x8000 {
            *post == self.spec_serial_write(address, data)
        } else {
            *post == *self
        }
    }

    open spec fn spec_ppu_read(&self, address: u16) -> PpuTarget {
        if address < 0x2000 {
            if self.n_chr_banks == 0 {
                PpuTarget::Chr(address as u32)
            } else {
                if self.control_register & 0x10 > 0 {
                    if address <= 0x0FFF {
                        PpuTarget::Chr((self.chr_bank_low_4 * 0x1000 + (address & 0x0FFF)) as u32)
                    } else {
                        PpuTarget::Chr((self.chr_bank_high_4 * 0x1000 + (address & 0x0FFF)) as u32)
                    }
                } else {
                    PpuTarget::Chr((self.chr_bank_full_8 * 0x2000 + (address & 0x1FFF)) as u32)
                }
            }
        } else {
            PpuTarget::Open
        }
    }


    open spec fn spec_ppu_write(&self, address: u16) -> PpuTarget {
        if address < 0x2000 {
            if self.n_chr_banks == 0 {
                PpuTarget::Chr(address as u32)
            } else {
                PpuTarget::Consumed
            }
        } else {
            PpuTarget::Open
        }
    }

    open spec fn spec_mirror(&self) -> Mirroring {
        self.mirror
    }

    open spec fn spec_reset(&self) -> Mapper1 {
        Mapper1 {
            chr_bank_low_4: 0,
            chr_bank_high_4: 0,
            chr_bank_full_8: 0,
            prg_bank_low_16: 0,
            prg_bank_high_16: spec_last_bank(self.n_prg_banks),
            prg_bank_full_32: 0,
            load_register: 0,
            control_register: 0x1C,
            count: 0,
            ..*self
        }
    }

    fn cpu_mapper_read(&mut self, address: u16, mapped_address: &mut u32, data: &mut u8) -> (handled: bool) {
        if 0x6000 <= address && address <= 0x7FFF {
            *mapped_address = MAPPER_LOCAL;
            proof {
                crate::bit_facts::lemma_u16_mask_bounds();
            }
            *data = self.ram[(address & 0x1FFF) as usize];
            return true;
        }
        if address >= 0x8000 {
            if self.control_register & 0x08 > 0 {
                if address <= 0xBFFF {
                    *mapped_address = self.prg_bank_low_16 as u32 * 0x4000 + (address & 0x3FFF) as u32;
                } else {
                    *mapped_address = self.prg_bank_high_16 as u32 * 0x4000 + (address & 0x3FFF) as u32;
                }
            } else {
                *mapped_address = self.prg_bank_full_32 as u32 * 0x8000 + (address & 0x7FFF) as u32;
            }
            return true;
        }
        return false;
    }

    fn cpu_mapper_write(&mut self, address: u16, mapped_address: &mut u32, data: &mut u8) -> (handled: bool) {
        if 0x6000 <= address && address <= 0x7FFF {
            *mapped_address = MAPPER_LOCAL;
            proof {
                crate::bit_facts::lemma_u16_mask_bounds();
            }
            self.ram.set((address & 0x1FFF) as usize, *data);
            return true;
        }
        if address >= 0x8000 {
            if *data & 0x80 > 0 {
                self.load_register = 0;
                self.count = 0;
                self.control_register = self.control_register | 0x0C;
            } else {
                self.load_register = (self.load_register >> 1) | ((*data & 0x01) << 4);
                self.count = self.count + 1;

                if self.count == 5 {
                    let target = (address >> 13) & 0x03;
                    if target == 0 {
                        self.control_register = self.load_register & 0x1F;
                        let pattern = self.control_register & 0x03;
                        if pattern == 0 {
                            self.mirror = Mirroring::OnescreenLow;
                        } else if pattern == 1 {
                            self.mirror = Mirroring::OnescreenHigh;
                        } else if pattern == 2 {
                            self.mirror = Mirroring::Vertical;
                        } else {
                            self.mirror = Mirroring::Horizontal;
                        }
                    } else if target == 1 {
                        if self.control_register & 0x10 > 0 {
                            self.chr_bank_low_4 = self.load_register & 0x1F;
                        } else {
                            self.chr_bank_full_8 = self.load_register & 0x1E;
                        }
                    } else if target == 2 {
                        if self.control_register & 0x10 > 0 {
                            self.chr_bank_high_4 = self.load_register & 0x1F;
                        }
                    } else {
                        let mode = (self.control_register >> 2) & 0x03;
                        if mode == 0 || mode == 1 {
                            self.prg_bank_full_32 = (self.load_register & 0x0E) >> 1;
                        } else if mode == 2 {
                            self.prg_bank_low_16 = 0;
                            self.prg_bank_high_16 = self.load_register & 0x0F;
                        } else {
                            self.prg_bank_low_16 = self.load_register & 0x0F;
                            self.prg_bank_high_16 = last_bank(self.n_prg_banks);
                        }
                    }
                    self.load_register = 0;
                    self.count = 0;
                }
            }
        }
        return false;
    }

    fn ppu_mapper_read(&mut self, address: u16, mapped_address: &mut u32) -> (handled: bool) {
        if address < 0x2000 {
            if self.n_chr_banks == 0 {
                *mapped_address = address as u32;
            } else {
                if self.control_register & 0x10 > 0 {
                    if address <= 0x0FFF {
                        *mapped_address = self.chr_bank_low_4 as u32 * 0x1000 + (address & 0x0FFF) as u32;
                    } else {
                        *mapped_address = self.chr_bank_high_4 as u32 * 0x1000 + (address & 0x0FFF) as u32;
                    }
                } else {
                    *mapped_address = self.chr_bank_full_8 as u32 * 0x2000 + (address & 0x1FFF) as u32;
                }
            }
            return true;
        }
        return false;
    }

    fn ppu_mapper_write(&mut self, address: u16, mapped_address: &mut u32) -> (handled: bool) {
        if address < 0x2000 {
            if self.n_chr_banks == 0 {
                *mapped_address = address as u32;
            } else {
                // CHR ROM: the write is accepted and dropped.
                *mapped_address = MAPPER_LOCAL;
            }
            return true;
        }
        return false;
    }

    fn reset(&mut self) {
        self.chr_bank_low_4 = 0;
        self.chr_bank_high_4 = 0;
        self.chr_bank_full_8 = 0;

        self.prg_bank_low_16 = 0;
        self.prg_bank_high_16 = last_bank(self.n_prg_banks);
        self.prg_bank_full_32 = 0;

        self.load_register = 0;
        self.control_register = 0x1C;
        self.count = 0;
    }

    fn mirror(&mut self) -> (m: Mirroring) {
        return self.mirror;
    }
}

/// Index of the last 16 KiB PRG bank; zero when there is no bank at all.
pub open spec fn spec_last_bank(n_prg_banks: u8) -> u8 {
    if n_prg_banks > 0 {
        (n_prg_banks - 1) as u8
    } else {
        0
    }
}

fn last_bank(n_prg_banks: u8) -> (b: u8)
    ensures
        b == spec_last_bank(n_prg_banks),
{
    if n_prg_banks > 0 {
        n_prg_banks - 1
    } else {
        0
    }
}

} // verus!
