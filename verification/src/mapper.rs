//! The mapper abstraction: a bank-mapping policy that translates logical CPU
//! and PPU addresses into physical offsets inside cartridge PRG/CHR memory,
//! and reports the nametable mirroring policy.

use vstd::prelude::*;

verus! {

/// A nametable mirroring policy. `Hardware` defers to the solder-pad
/// mirroring latched from the ROM header.
#[derive(Debug, Copy, Clone, PartialEq, Eq, Structural)]
pub enum Mirroring {
    Vertical,
    Horizontal,
    OnescreenLow,
    OnescreenHigh,
    Hardware,
}

/// Where a CPU read is served from: unclaimed, a byte supplied directly from
/// mapper-local RAM, or an offset into PRG memory.
#[derive(Copy, Clone, PartialEq, Eq, Structural)]
pub enum CpuReadTarget {
    Open,
    Direct(u8),
    Prg(u32),
}

/// Where a CPU write lands: unclaimed, consumed by the mapper itself
/// (a bank register or mapper-local RAM), or an offset into PRG memory.
#[derive(Copy, Clone, PartialEq, Eq, Structural)]
pub enum CpuWriteTarget {
    Open,
    Consumed,
    Prg(u32),
}

/// Where a PPU access lands: unclaimed, consumed by the mapper (a write
/// into CHR ROM, which is dropped), or an offset into CHR memory.
#[derive(Copy, Clone, PartialEq, Eq, Structural)]
pub enum PpuTarget {
    Open,
    Consumed,
    Chr(u32),
}

/// The sentinel offset a mapper reports when it consumed the access itself
/// instead of pointing into PRG/CHR memory.
pub const MAPPER_LOCAL: u32 = 0xFFFFFFFF;

/// A mapper translates addresses and holds mapper-local state. Each exec
/// method is pinned to the spec-level description the implementor supplies.
pub trait Mapper: Sized {
    /// Well-formedness of the mapper-local state.
    spec fn wf(&self) -> bool;

    /// What a CPU read of `address` resolves to.
    spec fn spec_cpu_read(&self, address: u16) -> CpuReadTarget;

    /// What a CPU write of `data` at `address` resolves to.
    spec fn spec_cpu_write(&self, address: u16, data: u8) -> CpuWriteTarget;

    /// How the mapper state after a CPU write of `data` at `address`
    /// relates to the state before it.
    spec fn spec_cpu_write_rel(&self, post: &Self, address: u16, data: u8) -> bool;

    /// What a PPU read of `address` resolves to.
    spec fn spec_ppu_read(&self, address: u16) -> PpuTarget;

    /// What a PPU write at `address` resolves to.
    spec fn spec_ppu_write(&self, address: u16) -> PpuTarget;

    /// The mirroring policy this mapper currently dictates.
    spec fn spec_mirror(&self) -> Mirroring;

    /// The mapper state after a reset.
    spec fn spec_reset(&self) -> Self;

    fn cpu_mapper_read(&mut self, address: u16, mapped_address: &mut u32, data: &mut u8) -> (handled: bool)
        requires
            old(self).wf(),
        ensures
            *final(self) == *old(self),
            final(self).wf(),
            handled == !(old(self).spec_cpu_read(address) is Open),
            (match old(self).spec_cpu_read(address) {
                CpuReadTarget::Open => *final(mapped_address) == *old(mapped_address)
                    && *final(data) == *old(data),
                CpuReadTarget::Direct(d) => *final(mapped_address) == MAPPER_LOCAL
                    && *final(data) == d,
                CpuReadTarget::Prg(m) => *final(mapped_address) == m
                    && *final(data) == *old(data),
            });

    fn cpu_mapper_write(&mut self, address: u16, mapped_address: &mut u32, data: &mut u8) -> (handled: bool)
        requires
            old(self).wf(),
        ensures
            old(self).spec_cpu_write_rel(final(self), address, *old(data)),
            final(self).wf(),
            *final(data) == *old(data),
            handled == !(old(self).spec_cpu_write(address, *old(data)) is Open),
            (match old(self).spec_cpu_write(address, *old(data)) {
                CpuWriteTarget::Open => *final(mapped_address) == *old(mapped_address),
                CpuWriteTarget::Consumed => *final(mapped_address) == MAPPER_LOCAL,
                CpuWriteTarget::Prg(m) => *final(mapped_address) == m,
            });

    fn ppu_mapper_read(&mut self, address: u16, mapped_address: &mut u32) -> (handled: bool)
        requires
            old(self).wf(),
        ensures
            *final(self) == *old(self),
            final(self).wf(),
            handled == !(old(self).spec_ppu_read(address) is Open),
            (match old(self).spec_ppu_read(address) {
                PpuTarget::Open => *final(mapped_address) == *old(mapped_address),
                PpuTarget::Consumed => *final(mapped_address) == MAPPER_LOCAL,
                PpuTarget::Chr(m) => *final(mapped_address) == m,
            });

    fn ppu_mapper_write(&mut self, address: u16, mapped_address: &mut u32) -> (handled: bool)
        requires
            old(self).wf(),
        ensures
            *final(self) == *old(self),
            final(self).wf(),
            handled == !(old(self).spec_ppu_write(address) is Open),
            (match old(self).spec_ppu_write(address) {
                PpuTarget::Open => *final(mapped_address) == *old(mapped_address),
                PpuTarget::Consumed => *final(mapped_address) == MAPPER_LOCAL,
                PpuTarget::Chr(m) => *final(mapped_address) == m,
            });

    fn mirror(&mut self) -> (m: Mirroring)
        requires
            old(self).wf(),
        ensures
            *final(self) == *old(self),
            m == old(self).spec_mirror(),
    ;

    fn reset(&mut self)
        requires
            old(self).wf(),
        ensures
            *final(self) == old(self).spec_reset(),
            final(self).wf(),
    ;
}

} // verus!
