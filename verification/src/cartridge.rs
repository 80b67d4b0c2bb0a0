//! The cartridge: PRG and CHR byte buffers, the iNES header parser, the
//! chosen mapper variant, and the hardware mirroring latched from the header.

use vstd::prelude::*;
use crate::mapper::{CpuReadTarget, CpuWriteTarget, Mapper, Mirroring, PpuTarget, MAPPER_LOCAL};
use crate::mapper_0::Mapper0;
use crate::mapper_1::Mapper1;
use crate::mapper_2::Mapper2;

verus! {

/// Why a ROM image was rejected.
#[derive(Debug, Copy, Clone, PartialEq, Eq, Structural)]
pub enum RomError {
    /// The image does not begin with the bytes `4E 45 53 1A`.
    InvalidMagic,
    /// The image is shorter than its header promises.
    Truncated,
    /// The mapper id the header names is not implemented.
    UnsupportedMapper,
}

/// The statically known set of mapper variants.
pub enum MapperKind {
    Nrom(Mapper0),
    Mmc1(Mapper1),
    Uxrom(Mapper2),
}

impl Mapper for MapperKind {
    open spec fn wf(&self) -> bool {
        match self {
            MapperKind::Nrom(m) => m.wf(),
            MapperKind::Mmc1(m) => m.wf(),
            MapperKind::Uxrom(m) => m.wf(),
        }
    }

    open spec fn spec_cpu_read(&self, address: u16) -> CpuReadTarget {
        match self {
            MapperKind::Nrom(m) => m.spec_cpu_read(address),
            MapperKind::Mmc1(m) => m.spec_cpu_read(address),
            MapperKind::Uxrom(m) => m.spec_cpu_read(address),
        }
    }

    open spec fn spec_cpu_write(&self, address: u16, data: u8) -> CpuWriteTarget {
        match self {
            MapperKind::Nrom(m) => m.spec_cpu_write(address, data),
            MapperKind::Mmc1(m) => m.spec_cpu_write(address, data),
            MapperKind::Uxrom(m) => m.spec_cpu_write(address, data),
        }
    }

    open spec fn spec_cpu_write_rel(&self, post: &MapperKind, address: u16, data: u8) -> bool {
        match (self, post) {
            (MapperKind::Nrom(a), MapperKind::Nrom(b)) => a.spec_cpu_write_rel(b, address, data),
            (MapperKind::Mmc1(a), MapperKind::Mmc1(b)) => a.spec_cpu_write_rel(b, address, data),
            (MapperKind::Uxrom(a), MapperKind::Uxrom(b)) => a.spec_cpu_write_rel(b, address, data),
            _ => false,
        }
    }

    open spec fn spec_ppu_read(&self, address: u16) -> PpuTarget {
        match self {
            MapperKind::Nrom(m) => m.spec_ppu_read(address),
            MapperKind::Mmc1(m) => m.spec_ppu_read(address),
            MapperKind::Uxrom(m) => m.spec_ppu_read(address),
        }
    }

    open spec fn spec_ppu_write(&self, address: u16) -> PpuTarget {
        match self {
            MapperKind::Nrom(m) => m.spec_ppu_write(address),
            MapperKind::Mmc1(m) => m.spec_ppu_write(address),
            MapperKind::Uxrom(m) => m.spec_ppu_write(address),
        }
    }

    open spec fn spec_mirror(&self) -> Mirroring {
        match self {
            MapperKind::Nrom(m) => m.spec_mirror(),
            MapperKind::Mmc1(m) => m.spec_mirror(),
            MapperKind::Uxrom(m) => m.spec_mirror(),
        }
    }

    open spec fn spec_reset(&self) -> MapperKind {
        match self {
            MapperKind::Nrom(m) => MapperKind::Nrom(m.spec_reset()),
            MapperKind::Mmc1(m) => MapperKind::Mmc1(m.spec_reset()),
            MapperKind::Uxrom(m) => MapperKind::Uxrom(m.spec_reset()),
        }
    }

    fn cpu_mapper_read(&mut self, address: u16, mapped_address: &mut u32, data: &mut u8) -> (handled: bool) {
        match self {
            MapperKind::Nrom(m) => m.cpu_mapper_read(address, mapped_address, data),
            MapperKind::Mmc1(m) => m.cpu_mapper_read(address, mapped_address, data),
            MapperKind::Uxrom(m) => m.cpu_mapper_read(address, mapped_address, data),
        }
    }

    fn cpu_mapper_write(&mut self, address: u16, mapped_address: &mut u32, data: &mut u8) -> (handled: bool) {
        match self {
            MapperKind::Nrom(m) => m.cpu_mapper_write(address, mapped_address, data),
            MapperKind::Mmc1(m) => m.cpu_mapper_write(address, mapped_address, data),
            MapperKind::Uxrom(m) => m.cpu_mapper_write(address, mapped_address, data),
        }
    }

    fn ppu_mapper_read(&mut self, address: u16, mapped_address: &mut u32) -> (handled: bool) {
        match self {
            MapperKind::Nrom(m) => m.ppu_mapper_read(address, mapped_address),
            MapperKind::Mmc1(m) => m.ppu_mapper_read(address, mapped_address),
            MapperKind::Uxrom(m) => m.ppu_mapper_read(address, mapped_address),
        }
    }

    fn ppu_mapper_write(&mut self, address: u16, mapped_address: &mut u32) -> (handled: bool) {
        match self {
            MapperKind::Nrom(m) => m.ppu_mapper_write(address, mapped_address),
            MapperKind::Mmc1(m) => m.ppu_mapper_write(address, mapped_address),
            MapperKind::Uxrom(m) => m.ppu_mapper_write(address, mapped_address),
        }
    }

    fn reset(&mut self) {
        match self {
            MapperKind::Nrom(m) => m.reset(),
            MapperKind::Mmc1(m) => m.reset(),
            MapperKind::Uxrom(m) => m.reset(),
        }
    }

    fn mirror(&mut self) -> (m: Mirroring) {
        match self {
            MapperKind::Nrom(m) => m.mirror(),
            MapperKind::Mmc1(m) => m.mirror(),
            MapperKind::Uxrom(m) => m.mirror(),
        }
    }
}

/// The 16-byte iNES header, decoded.
pub struct CartridgeHeader {
    pub name: [char; 4],
    pub prg_rom_pages: u8,
    pub chr_rom_pages: u8,
    pub mapper_1: u8,
    pub mapper_2: u8,
    pub prg_ram_size: u8,
}

/// The image begins with the bytes `4E 45 53 1A`.
pub open spec fn spec_magic_ok(d: Seq<u8>) -> bool {
    d.len() >= 16 && d[0] == 0x4e && d[1] == 0x45 && d[2] == 0x53 && d[3] == 0x1a
}

impl CartridgeHeader {
    /// Decode the 16-byte header at the front of `data`. An image that is
    /// shorter than a header, or whose magic bytes are wrong, is rejected.
    pub fn new(data: &Vec<u8>) -> (r: Result<CartridgeHeader, RomError>)
        ensures
            data@.len() < 16 ==> r == Err::<CartridgeHeader, RomError>(RomError::Truncated),
            data@.len() >= 16 && !spec_magic_ok(data@)
                ==> r == Err::<CartridgeHeader, RomError>(RomError::InvalidMagic),
            spec_magic_ok(data@) ==> (r matches Ok(h)
                && h.name@ == seq!['N', 'E', 'S', '\x1a']
                && h.prg_rom_pages == data@[4]
                && h.chr_rom_pages == data@[5]
                && h.mapper_1 == data@[6]
                && h.mapper_2 == data@[7]
                && h.prg_ram_size == data@[8]),
    {
        if data.len() < 16 {
            return Err(RomError::Truncated);
        }
        if !(data[0] == 0x4e && data[1] == 0x45 && data[2] == 0x53 && data[3] == 0x1a) {
            return Err(RomError::InvalidMagic);
        }
        let name: [char; 4] = ['N', 'E', 'S', '\x1a'];
        proof {
            assert(name@ =~= seq!['N', 'E', 'S', '\x1a']);
        }
        Ok(CartridgeHeader {
            name,
            prg_rom_pages: data[4],
            chr_rom_pages: data[5],
            mapper_1: data[6],
            mapper_2: data[7],
            prg_ram_size: data[8],
        })
    }
}

/// The mapper id named by the header: high nibble of flag 7 over the high
/// nibble of flag 6.
pub open spec fn spec_mapper_id(d: Seq<u8>) -> u8 {
    (((d[7] >> 4) << 4) | (d[6] >> 4)) as u8
}

/// Bytes the trainer occupies between the header and PRG, if flag 6 bit 2
/// is set.
pub open spec fn spec_trainer_len(d: Seq<u8>) -> int {
    if d[6] & 0x04 > 0 {
        512
    } else {
        0
    }
}

/// The whole image parses: magic, full PRG, full CHR, and a known mapper.
pub open spec fn spec_parse_ok(d: Seq<u8>) -> bool {
    &&& spec_magic_ok(d)
    &&& d.len() >= 16 + spec_trainer_len(d) + d[4] * 16384 + d[5] * 8192
    &&& (spec_mapper_id(d) == 0 || spec_mapper_id(d) == 1 || spec_mapper_id(d) == 2)
}

pub struct Cartridge {
    pub vec_prg_memory: Vec<u8>,
    pub vec_chr_memory: Vec<u8>,
    pub c_mapper_id: u8,
    pub c_prg_banks: u8,
    pub c_chr_banks: u8,
    pub mapper: MapperKind,
    pub header: CartridgeHeader,
    pub hardware_mirror: Mirroring,
}

impl Cartridge {
    /// Sizes and mapper state are consistent with the bank counts.
    pub open spec fn wf(&self) -> bool {
        &&& self.mapper.wf()
        &&& self.vec_prg_memory@.len() == self.c_prg_banks * 16384
        &&& self.vec_chr_memory@.len() == (if self.c_chr_banks == 0 {
            8192int
        } else {
            self.c_chr_banks * 8192
        })
    }

    /// Build a cartridge from a whole ROM image: decode the header, skip a
    /// trainer if one is present, take `prg_banks` 16 KiB pages of PRG and
    /// `chr_banks` 8 KiB pages of CHR (or allocate 8 KiB of CHR RAM when
    /// the header declares zero CHR banks), and instantiate the mapper.
    pub fn new(data: &Vec<u8>) -> (r: Result<Cartridge, RomError>)
        ensures
            r is Ok <==> spec_parse_ok(data@),
            data@.len() < 16 ==> r == Err::<Cartridge, RomError>(RomError::Truncated),
            data@.len() >= 16 && !spec_magic_ok(data@)
                ==> r == Err::<Cartridge, RomError>(RomError::InvalidMagic),
            spec_magic_ok(data@)
                && data@.len() < 16 + spec_trainer_len(data@) + data@[4] * 16384 + data@[5] * 8192
                ==> r == Err::<Cartridge, RomError>(RomError::Truncated),
            spec_magic_ok(data@)
                && data@.len() >= 16 + spec_trainer_len(data@) + data@[4] * 16384 + data@[5] * 8192
                && !(spec_mapper_id(data@) == 0 || spec_mapper_id(data@) == 1
                    || spec_mapper_id(data@) == 2)
                ==> r == Err::<Cartridge, RomError>(RomError::UnsupportedMapper),
            (match r {
                Ok(c) => {
                    let off = 16 + spec_trainer_len(data@);
                    &&& c.wf()
                    &&& c.c_prg_banks == data@[4]
                    &&& c.c_chr_banks == data@[5]
                    &&& c.c_mapper_id == spec_mapper_id(data@)
                    &&& c.vec_prg_memory@ == data@.subrange(off, off + data@[4] * 16384)
                    &&& (data@[5] > 0 ==> c.vec_chr_memory@ == data@.subrange(
                        off + data@[4] * 16384,
                        off + data@[4] * 16384 + data@[5] * 8192,
                    ))
                    &&& (data@[5] == 0 ==> c.vec_chr_memory@ == Seq::<u8>::new(8192, |i: int| 0u8))
                    &&& c.hardware_mirror == (if data@[6] & 0x01 == 0 {
                        Mirroring::Horizontal
                    } else {
                        Mirroring::Vertical
                    })
                    &&& (spec_mapper_id(data@) == 0 ==> c.mapper == MapperKind::Nrom(
                        Mapper0 { n_prg_banks: data@[4], n_chr_banks: data@[5] },
                    ))
                    &&& c.header.name@ == seq!['N', 'E', 'S', '\x1a']
                    &&& c.header.prg_rom_pages == data@[4]
                    &&& c.header.chr_rom_pages == data@[5]
                    &&& c.header.mapper_1 == data@[6]
                    &&& c.header.mapper_2 == data@[7]
                    &&& c.header.prg_ram_size == data@[8]
                },
                Err(_) => true,
            }),
    {
        let header = match CartridgeHeader::new(data) {
            Ok(h) => h,
            Err(e) => {
                return Err(e);
            },
        };

        let trainer: usize = if header.mapper_1 & 0x04 > 0 {
            512
        } else {
            0
        };
        let offset: usize = 16 + trainer;

        let prg_size: usize = header.prg_rom_pages as usize * 16384;
        let chr_size: usize = header.chr_rom_pages as usize * 8192;
        if data.len() < offset + prg_size + chr_size {
            return Err(RomError::Truncated);
        }

        let mapper_id: u8 = ((header.mapper_2 >> 4) << 4) | (header.mapper_1 >> 4);
        let mapper: MapperKind = if mapper_id == 0 {
            MapperKind::Nrom(Mapper0::new(header.prg_rom_pages, header.chr_rom_pages))
        } else if mapper_id == 1 {
            MapperKind::Mmc1(Mapper1::new(header.prg_rom_pages, header.chr_rom_pages))
        } else if mapper_id == 2 {
            MapperKind::Uxrom(Mapper2::new(header.prg_rom_pages, header.chr_rom_pages))
        } else {
            return Err(RomError::UnsupportedMapper);
        };

        let mut vec_prg_memory: Vec<u8> = Vec::new();
        let mut i: usize = 0;
        while i < prg_size
            invariant
                i <= prg_size,
                offset <= 528,
                prg_size <= 4177920,
                offset + prg_size <= data@.len(),
                vec_prg_memory@ == data@.subrange(offset as int, offset + i),
            decreases prg_size - i,
        {
            vec_prg_memory.push(data[offset + i]);
            i = i + 1;
            proof {
                assert(vec_prg_memory@ =~= data@.subrange(offset as int, offset + i));
            }
        }

        let mut vec_chr_memory: Vec<u8> = Vec::new();
        if header.chr_rom_pages == 0 {
            vec_chr_memory = vec![0u8; 8192];
            proof {
                assert(vec_chr_memory@ =~= Seq::<u8>::new(8192, |i: int| 0u8));
            }
        } else {
            let chr_off: usize = offset + prg_size;
            let mut j: usize = 0;
            while j < chr_size
                invariant
                    j <= chr_size,
                    chr_off <= 4178448,
                    chr_size <= 2088960,
                    chr_off == offset + prg_size,
                    chr_off + chr_size <= data@.len(),
                    vec_chr_memory@ == data@.subrange(chr_off as int, chr_off + j),
                decreases chr_size - j,
            {
                vec_chr_memory.push(data[chr_off + j]);
                j = j + 1;
                proof {
                    assert(vec_chr_memory@ =~= data@.subrange(chr_off as int, chr_off + j));
                }
            }
        }

        let hardware_mirror = if header.mapper_1 & 0x01 == 0 {
            Mirroring::Horizontal
        } else {
            Mirroring::Vertical
        };

        Ok(Cartridge {
            vec_prg_memory,
            vec_chr_memory,
            c_mapper_id: mapper_id,
            c_prg_banks: header.prg_rom_pages,
            c_chr_banks: header.chr_rom_pages,
            mapper,
            header,
            hardware_mirror,
        })
    }

    /// What a CPU read of `addr` returns from the cartridge, if the mapper
    /// claims the address. A mapped PRG offset wraps modulo the PRG size.
    pub open spec fn spec_cpu_read(&self, addr: u16) -> Option<u8> {
        match self.mapper.spec_cpu_read(addr) {
            CpuReadTarget::Open => None,
            CpuReadTarget::Direct(d) => Some(d),
            CpuReadTarget::Prg(m) => if self.vec_prg_memory@.len() > 0 {
                Some(self.vec_prg_memory@[m as int % self.vec_prg_memory@.len() as int])
            } else {
                None
            },
        }
    }

    pub fn cpu_read(&mut self, addr: u16, data: &mut u8) -> (handled: bool)
        requires
            old(self).wf(),
        ensures
            *final(self) == *old(self),
            handled == (old(self).spec_cpu_read(addr) is Some),
            (match old(self).spec_cpu_read(addr) {
                Some(d) => *final(data) == d,
                None => *final(data) == *old(data),
            }),
    {
        let mut mapped: u32 = 0;
        let mut direct: u8 = *data;
        if self.mapper.cpu_mapper_read(addr, &mut mapped, &mut direct) {
            if mapped == MAPPER_LOCAL {
                *data = direct;
                return true;
            }
            if self.vec_prg_memory.len() > 0 {
                *data = self.vec_prg_memory[mapped as usize % self.vec_prg_memory.len()];
                return true;
            }
            return false;
        }
        return false;
    }

    /// How the cartridge after a CPU write relates to the one before it:
    /// the mapper takes the write first; a mapped PRG offset (wrapped
    /// modulo the PRG size) is stored; everything else is unchanged.
    pub open spec fn spec_cpu_write_rel(&self, post: &Cartridge, addr: u16, data: u8) -> bool {
        &&& self.mapper.spec_cpu_write_rel(&post.mapper, addr, data)
        &&& post.vec_chr_memory == self.vec_chr_memory
        &&& post.c_mapper_id == self.c_mapper_id
        &&& post.c_prg_banks == self.c_prg_banks
        &&& post.c_chr_banks == self.c_chr_banks
        &&& post.header == self.header
        &&& post.hardware_mirror == self.hardware_mirror
        &&& (match self.mapper.spec_cpu_write(addr, data) {
            CpuWriteTarget::Prg(m) => if self.vec_prg_memory@.len() > 0 {
                post.vec_prg_memory@ == self.vec_prg_memory@.update(
                    m as int % self.vec_prg_memory@.len() as int,
                    data,
                )
            } else {
                post.vec_prg_memory == self.vec_prg_memory
            },
            _ => post.vec_prg_memory == self.vec_prg_memory,
        })
    }

    /// Whether the CPU write is consumed by the cartridge.
    pub open spec fn spec_cpu_write_handled(&self, addr: u16, data: u8) -> bool {
        match self.mapper.spec_cpu_write(addr, data) {
            CpuWriteTarget::Open => false,
            CpuWriteTarget::Consumed => true,
            CpuWriteTarget::Prg(m) => self.vec_prg_memory@.len() > 0,
        }
    }

    pub fn cpu_write(&mut self, addr: u16, data: u8) -> (handled: bool)
        requires
            old(self).wf(),
        ensures
            final(self).wf(),
            old(self).spec_cpu_write_rel(final(self), addr, data),
            handled == old(self).spec_cpu_write_handled(addr, data),
    {
        let mut mapped: u32 = 0;
        let mut d: u8 = data;
        if self.mapper.cpu_mapper_write(addr, &mut mapped, &mut d) {
            if mapped == MAPPER_LOCAL {
                return true;
            }
            if self.vec_prg_memory.len() > 0 {
                let idx = mapped as usize % self.vec_prg_memory.len();
                self.vec_prg_memory.set(idx, data);
                return true;
            }
            return false;
        }
        return false;
    }

    /// What a PPU read of `addr` returns from CHR memory, if the mapper
    /// claims the address. A mapped CHR offset wraps modulo the CHR size.
    pub open spec fn spec_ppu_read(&self, addr: u16) -> Option<u8> {
        match self.mapper.spec_ppu_read(addr) {
            PpuTarget::Chr(m) => if self.vec_chr_memory@.len() > 0 {
                Some(self.vec_chr_memory@[m as int % self.vec_chr_memory@.len() as int])
            } else {
                None
            },
            _ => None,
        }
    }

    pub fn ppu_read(&mut self, addr: u16, data: &mut u8) -> (handled: bool)
        requires
            old(self).wf(),
        ensures
            *final(self) == *old(self),
            handled == (old(self).spec_ppu_read(addr) is Some),
            (match old(self).spec_ppu_read(addr) {
                Some(d) => *final(data) == d,
                None => *final(data) == *old(data),
            }),
    {
        let mut mapped: u32 = 0;
        if self.mapper.ppu_mapper_read(addr, &mut mapped) {
            if mapped == MAPPER_LOCAL {
                return false;
            }
            if self.vec_chr_memory.len() > 0 {
                *data = self.vec_chr_memory[mapped as usize % self.vec_chr_memory.len()];
                return true;
            }
            return false;
        }
        return false;
    }

    /// How the cartridge after a PPU write relates to the one before it:
    /// only a mapped CHR offset (CHR RAM) is stored; a write the mapper
    /// consumed (CHR ROM) is dropped.
    pub open spec fn spec_ppu_write_rel(&self, post: &Cartridge, addr: u16, data: u8) -> bool {
        &&& *post == (Cartridge { vec_chr_memory: post.vec_chr_memory, ..*self })
        &&& (match self.mapper.spec_ppu_write(addr) {
            PpuTarget::Chr(m) => if self.vec_chr_memory@.len() > 0 {
                post.vec_chr_memory@ == self.vec_chr_memory@.update(
                    m as int % self.vec_chr_memory@.len() as int,
                    data,
                )
            } else {
                post.vec_chr_memory == self.vec_chr_memory
            },
            _ => post.vec_chr_memory == self.vec_chr_memory,
        })
    }

    /// Whether the PPU write lands in CHR memory.
    pub open spec fn spec_ppu_write_handled(&self, addr: u16) -> bool {
        match self.mapper.spec_ppu_write(addr) {
            PpuTarget::Open => false,
            PpuTarget::Consumed => true,
            PpuTarget::Chr(m) => self.vec_chr_memory@.len() > 0,
        }
    }

    pub fn ppu_write(&mut self, addr: u16, data: u8) -> (handled: bool)
        requires
            old(self).wf(),
        ensures
            final(self).wf(),
            old(self).spec_ppu_write_rel(final(self), addr, data),
            handled == old(self).spec_ppu_write_handled(addr),
    {
        let mut mapped: u32 = 0;
        if self.mapper.ppu_mapper_write(addr, &mut mapped) {
            if mapped == MAPPER_LOCAL {
                return true;
            }
            if self.vec_chr_memory.len() > 0 {
                let idx = mapped as usize % self.vec_chr_memory.len();
                self.vec_chr_memory.set(idx, data);
                return true;
            }
            return false;
        }
        return false;
    }

    /// The effective mirroring: what the mapper dictates, or the hardware
    /// mirroring from the header when the mapper defers.
    pub open spec fn spec_mirror(&self) -> Mirroring {
        if self.mapper.spec_mirror() == Mirroring::Hardware {
            self.hardware_mirror
        } else {
            self.mapper.spec_mirror()
        }
    }

    pub fn mirror(&mut self) -> (m: Mirroring)
        requires
            old(self).wf(),
        ensures
            *final(self) == *old(self),
            m == old(self).spec_mirror(),
    {
        let mirror = self.mapper.mirror();
        if mirror == Mirroring::Hardware {
            return self.hardware_mirror;
        }
        return mirror;
    }

    pub fn reset(&mut self)
        requires
            old(self).wf(),
        ensures
            final(self).wf(),
            *final(self) == (Cartridge { mapper: final(self).mapper, ..*old(self) }),
            final(self).mapper == old(self).mapper.spec_reset(),
    {
        self.mapper.reset();
    }
}

/// No mapper of this set claims a CPU address below `$6000`: reads there
/// fall through to the bus and writes leave the cartridge unchanged.
pub proof fn lemma_cart_low()
    ensures
        forall|c: Cartridge, a: u16| a < 0x6000 ==> #[trigger] c.spec_cpu_read(a) is None,
        forall|c: Cartridge, a: u16, d: u8|
            a < 0x6000 ==> !#[trigger] c.spec_cpu_write_handled(a, d),
{
    assert forall|c: Cartridge, a: u16| a < 0x6000 implies #[trigger] c.spec_cpu_read(a)
        is None by {
        match c.mapper {
            MapperKind::Nrom(m) => {},
            MapperKind::Mmc1(m) => {},
            MapperKind::Uxrom(m) => {},
        }
    }
    assert forall|c: Cartridge, a: u16, d: u8| a < 0x6000 implies !#[trigger] c.spec_cpu_write_handled(
        a,
        d,
    ) by {
        match c.mapper {
            MapperKind::Nrom(m) => {},
            MapperKind::Mmc1(m) => {},
            MapperKind::Uxrom(m) => {},
        }
    }
}

} // verus!
