//! The picture processing unit: register interface, VRAM with nametable
//! mirroring and palette aliasing, the loopy scroll registers, and the
//! dot-stepped scanline rendering pipeline.

use vstd::prelude::*;
use crate::bit_facts::{bit_get, bit_put};
use crate::cartridge::Cartridge;
use crate::mapper::Mirroring;

verus! {

pub const RENDER_WIDTH: usize = 256;
pub const RENDER_HEIGHT: usize = 240;
pub const RENDER_SIZE: usize = 61440;
pub const RENDER_FULL: usize = 184320;

/// PPUSTATUS: sprite overflow, sprite-0 hit, and vblank bits.
#[derive(Copy, Clone, PartialEq, Eq, Structural)]
pub struct Status(pub u8);

impl Status {
    pub fn sprite_overflow(&self) -> (r: bool)
        ensures
            r == bit_get(self.0, 0x20),
    {
        self.0 & 0x20 != 0
    }

    pub fn set_sprite_overflow(&mut self, v: bool)
        ensures
            final(self).0 == bit_put(old(self).0, 0x20, v),
    {
        self.0 = if v {
            self.0 | 0x20
        } else {
            self.0 & !0x20u8
        };
    }

    pub fn sprite_0(&self) -> (r: bool)
        ensures
            r == bit_get(self.0, 0x40),
    {
        self.0 & 0x40 != 0
    }

    pub fn set_sprite_0(&mut self, v: bool)
        ensures
            final(self).0 == bit_put(old(self).0, 0x40, v),
    {
        self.0 = if v {
            self.0 | 0x40
        } else {
            self.0 & !0x40u8
        };
    }

    pub fn vertical_blank(&self) -> (r: bool)
        ensures
            r == bit_get(self.0, 0x80),
    {
        self.0 & 0x80 != 0
    }

    pub fn set_vblank(&mut self, v: bool)
        ensures
            final(self).0 == bit_put(old(self).0, 0x80, v),
    {
        self.0 = if v {
            self.0 | 0x80
        } else {
            self.0 & !0x80u8
        };
    }

    pub fn get(&self) -> (r: u8)
        ensures
            r == self.0,
    {
        self.0
    }
}

/// PPUMASK: greyscale, left-column enables, rendering enables, emphasis.
#[derive(Copy, Clone, PartialEq, Eq, Structural)]
pub struct Mask(pub u8);

impl Mask {
    pub fn greyscale(&self) -> (r: bool)
        ensures
            r == bit_get(self.0, 0x01),
    {
        self.0 & 0x01 != 0
    }

    pub fn show_background_left(&self) -> (r: bool)
        ensures
            r == bit_get(self.0, 0x02),
    {
        self.0 & 0x02 != 0
    }

    pub fn show_sprites_left(&self) -> (r: bool)
        ensures
            r == bit_get(self.0, 0x04),
    {
        self.0 & 0x04 != 0
    }

    pub fn show_background(&self) -> (r: bool)
        ensures
            r == bit_get(self.0, 0x08),
    {
        self.0 & 0x08 != 0
    }

    pub fn show_sprites(&self) -> (r: bool)
        ensures
            r == bit_get(self.0, 0x10),
    {
        self.0 & 0x10 != 0
    }

    pub fn emphasize_red(&self) -> (r: bool)
        ensures
            r == bit_get(self.0, 0x20),
    {
        self.0 & 0x20 != 0
    }

    pub fn emphasize_green(&self) -> (r: bool)
        ensures
            r == bit_get(self.0, 0x40),
    {
        self.0 & 0x40 != 0
    }

    pub fn emphasize_blue(&self) -> (r: bool)
        ensures
            r == bit_get(self.0, 0x80),
    {
        self.0 & 0x80 != 0
    }

    pub fn get(&self) -> (r: u8)
        ensures
            r == self.0,
    {
        self.0
    }
}

/// PPUCTRL: nametable select, increment mode, pattern bases, sprite size,
/// and NMI generation.
#[derive(Copy, Clone, PartialEq, Eq, Structural)]
pub struct Controller(pub u8);

impl Controller {
    pub fn nametable_x(&self) -> (r: bool)
        ensures
            r == bit_get(self.0, 0x01),
    {
        self.0 & 0x01 != 0
    }

    pub fn nametable_y(&self) -> (r: bool)
        ensures
            r == bit_get(self.0, 0x02),
    {
        self.0 & 0x02 != 0
    }

    pub fn increment(&self) -> (r: bool)
        ensures
            r == bit_get(self.0, 0x04),
    {
        self.0 & 0x04 != 0
    }

    pub fn sprite_table(&self) -> (r: bool)
        ensures
            r == bit_get(self.0, 0x08),
    {
        self.0 & 0x08 != 0
    }

    pub fn background_table(&self) -> (r: bool)
        ensures
            r == bit_get(self.0, 0x10),
    {
        self.0 & 0x10 != 0
    }

    pub fn sprite_size(&self) -> (r: bool)
        ensures
            r == bit_get(self.0, 0x20),
    {
        self.0 & 0x20 != 0
    }

    pub fn master_slave(&self) -> (r: bool)
        ensures
            r == bit_get(self.0, 0x40),
    {
        self.0 & 0x40 != 0
    }

    pub fn generate_nmi(&self) -> (r: bool)
        ensures
            r == bit_get(self.0, 0x80),
    {
        self.0 & 0x80 != 0
    }

    pub fn get(&self) -> (r: u8)
        ensures
            r == self.0,
    {
        self.0
    }
}

/// Coarse X: bits 0..4 of a loopy register.
pub open spec fn spec_coarse_x(v: u16) -> u8 {
    (v & 0x1F) as u8
}

/// Coarse Y: bits 5..9 of a loopy register.
pub open spec fn spec_coarse_y(v: u16) -> u8 {
    ((v >> 5) & 0x1F) as u8
}

/// Nametable X: bit 10 of a loopy register.
pub open spec fn spec_nt_x(v: u16) -> u8 {
    ((v >> 10) & 0x01) as u8
}

/// Nametable Y: bit 11 of a loopy register.
pub open spec fn spec_nt_y(v: u16) -> u8 {
    ((v >> 11) & 0x01) as u8
}

/// Fine Y: bits 12..14 of a loopy register.
pub open spec fn spec_fine_y(v: u16) -> u8 {
    ((v >> 12) & 0x07) as u8
}

pub open spec fn spec_set_coarse_x(v: u16, x: u8) -> u16 {
    (v & 0xFFE0) | (x & 0x1F) as u16
}

pub open spec fn spec_set_coarse_y(v: u16, x: u8) -> u16 {
    (v & 0xFC1F) | (((x & 0x1F) as u16) << 5)
}

pub open spec fn spec_set_nt_x(v: u16, x: u8) -> u16 {
    (v & 0xFBFF) | (((x & 0x01) as u16) << 10)
}

pub open spec fn spec_set_nt_y(v: u16, x: u8) -> u16 {
    (v & 0xF7FF) | (((x & 0x01) as u16) << 11)
}

pub open spec fn spec_set_fine_y(v: u16, x: u8) -> u16 {
    (v & 0x8FFF) | (((x & 0x07) as u16) << 12)
}

/// Each loopy field selects disjoint bits: setting one field changes that
/// field alone, toggling bit 10 or 11 flips one nametable bit alone, and
/// every field is bounded by its width.
pub proof fn lemma_loopy_fields()
    by (bit_vector)
    ensures
        forall|v: u16| #[trigger] spec_coarse_x(v) < 32,
        forall|v: u16| #[trigger] spec_coarse_y(v) < 32,
        forall|v: u16| #[trigger] spec_nt_x(v) < 2,
        forall|v: u16| #[trigger] spec_nt_y(v) < 2,
        forall|v: u16| #[trigger] spec_fine_y(v) < 8,
        forall|v: u16, x: u8|
            spec_coarse_x(#[trigger] spec_set_coarse_x(v, x)) == x % 32
                && spec_coarse_y(spec_set_coarse_x(v, x)) == spec_coarse_y(v)
                && spec_nt_x(spec_set_coarse_x(v, x)) == spec_nt_x(v)
                && spec_nt_y(spec_set_coarse_x(v, x)) == spec_nt_y(v)
                && spec_fine_y(spec_set_coarse_x(v, x)) == spec_fine_y(v),
        forall|v: u16, x: u8|
            spec_coarse_y(#[trigger] spec_set_coarse_y(v, x)) == x % 32
                && spec_coarse_x(spec_set_coarse_y(v, x)) == spec_coarse_x(v)
                && spec_nt_x(spec_set_coarse_y(v, x)) == spec_nt_x(v)
                && spec_nt_y(spec_set_coarse_y(v, x)) == spec_nt_y(v)
                && spec_fine_y(spec_set_coarse_y(v, x)) == spec_fine_y(v),
        forall|v: u16, x: u8|
            spec_nt_x(#[trigger] spec_set_nt_x(v, x)) == x % 2
                && spec_coarse_x(spec_set_nt_x(v, x)) == spec_coarse_x(v)
                && spec_coarse_y(spec_set_nt_x(v, x)) == spec_coarse_y(v)
                && spec_nt_y(spec_set_nt_x(v, x)) == spec_nt_y(v)
                && spec_fine_y(spec_set_nt_x(v, x)) == spec_fine_y(v),
        forall|v: u16, x: u8|
            spec_nt_y(#[trigger] spec_set_nt_y(v, x)) == x % 2
                && spec_coarse_x(spec_set_nt_y(v, x)) == spec_coarse_x(v)
                && spec_coarse_y(spec_set_nt_y(v, x)) == spec_coarse_y(v)
                && spec_nt_x(spec_set_nt_y(v, x)) == spec_nt_x(v)
                && spec_fine_y(spec_set_nt_y(v, x)) == spec_fine_y(v),
        forall|v: u16, x: u8|
            spec_fine_y(#[trigger] spec_set_fine_y(v, x)) == x % 8
                && spec_coarse_x(spec_set_fine_y(v, x)) == spec_coarse_x(v)
                && spec_coarse_y(spec_set_fine_y(v, x)) == spec_coarse_y(v)
                && spec_nt_x(spec_set_fine_y(v, x)) == spec_nt_x(v)
                && spec_nt_y(spec_set_fine_y(v, x)) == spec_nt_y(v),
        forall|v: u16|
            spec_nt_x(#[trigger] (v ^ 0x0400)) == 1 - spec_nt_x(v)
                && spec_coarse_x(v ^ 0x0400) == spec_coarse_x(v)
                && spec_coarse_y(v ^ 0x0400) == spec_coarse_y(v)
                && spec_nt_y(v ^ 0x0400) == spec_nt_y(v)
                && spec_fine_y(v ^ 0x0400) == spec_fine_y(v),
        forall|v: u16|
            spec_nt_y(#[trigger] (v ^ 0x0800)) == 1 - spec_nt_y(v)
                && spec_coarse_x(v ^ 0x0800) == spec_coarse_x(v)
                && spec_coarse_y(v ^ 0x0800) == spec_coarse_y(v)
                && spec_nt_x(v ^ 0x0800) == spec_nt_x(v)
                && spec_fine_y(v ^ 0x0800) == spec_fine_y(v),
{
}

/// A loopy scroll register: 15 bits holding coarse X/Y, nametable X/Y and
/// fine Y.
#[derive(Copy, Clone, PartialEq, Eq, Structural)]
pub struct Address(pub u16);

impl Address {
    pub fn coarse_x(&self) -> (r: u8)
        ensures
            r == spec_coarse_x(self.0),
    {
        (self.0 & 0x1F) as u8
    }

    pub fn set_coarse_x(&mut self, x: u8)
        ensures
            final(self).0 == spec_set_coarse_x(old(self).0, x),
    {
        self.0 = (self.0 & 0xFFE0) | (x & 0x1F) as u16;
    }

    pub fn coarse_y(&self) -> (r: u8)
        ensures
            r == spec_coarse_y(self.0),
    {
        ((self.0 >> 5) & 0x1F) as u8
    }

    pub fn set_coarse_y(&mut self, x: u8)
        ensures
            final(self).0 == spec_set_coarse_y(old(self).0, x),
    {
        self.0 = (self.0 & 0xFC1F) | (((x & 0x1F) as u16) << 5);
    }

    pub fn nametable_x(&self) -> (r: u8)
        ensures
            r == spec_nt_x(self.0),
    {
        ((self.0 >> 10) & 0x01) as u8
    }

    pub fn set_nametable_x(&mut self, x: u8)
        ensures
            final(self).0 == spec_set_nt_x(old(self).0, x),
    {
        self.0 = (self.0 & 0xFBFF) | (((x & 0x01) as u16) << 10);
    }

    pub fn nametable_y(&self) -> (r: u8)
        ensures
            r == spec_nt_y(self.0),
    {
        ((self.0 >> 11) & 0x01) as u8
    }

    pub fn set_nametable_y(&mut self, x: u8)
        ensures
            final(self).0 == spec_set_nt_y(old(self).0, x),
    {
        self.0 = (self.0 & 0xF7FF) | (((x & 0x01) as u16) << 11);
    }

    pub fn fine_y(&self) -> (r: u8)
        ensures
            r == spec_fine_y(self.0),
    {
        ((self.0 >> 12) & 0x07) as u8
    }

    pub fn set_fine_y(&mut self, x: u8)
        ensures
            final(self).0 == spec_set_fine_y(old(self).0, x),
    {
        self.0 = (self.0 & 0x8FFF) | (((x & 0x07) as u16) << 12);
    }

    pub fn get(&self) -> (r: u16)
        ensures
            r == self.0,
    {
        self.0
    }
}

/// One evaluated sprite: OAM order is Y, tile id, attribute, X.
#[derive(Copy, Clone, PartialEq, Eq, Structural)]
pub struct Sprite {
    pub x: u8,
    pub y: u8,
    pub id: u8,
    pub attribute: u8,
}

pub struct PPU {
    pub cartridge: Option<Cartridge>,
    pub name_table: Vec<Vec<u8>>,
    pub palette_table: Vec<u8>,
    pub pattern_table: Vec<Vec<u8>>,
    pub frame_complete: bool,

    pub sprite_screen: Vec<u8>,
    pub sprite_pattern_table: Vec<Vec<u8>>,

    pub scanline: i32,
    pub cycle: i32,

    pub controller: Controller,
    pub mask: Mask,
    pub status: Status,
    pub v_address_register: Address,
    pub t_address_register: Address,
    pub fine_x: u8,
    pub address_latch: u8,
    pub data_buffer: u8,
    pub nmi_enabled: bool,
    pub bg_tile_id: u8,
    pub bg_tile_attr: u8,
    pub bg_tile_lsb: u8,
    pub bg_tile_msb: u8,

    pub bg_shifter_lsb: u16,
    pub bg_shifter_msb: u16,
    pub bg_shifter_attr_low: u16,
    pub bg_shifter_attr_high: u16,

    pub oam_ram: Vec<u8>,
    pub oam_sprites: Vec<Sprite>,
    pub oam_address_port: u8,
    pub sprite_shifter_low: Vec<u8>,
    pub sprite_shifter_high: Vec<u8>,

    pub sprite_zero_hit: bool,
    pub sprite_zero_rendered: bool,

    /// Total dots this PPU has stepped since power-on, modulo 2^64.
    pub dot_count: u64,
}

/// Which physical nametable bank serves the (already `& 0x0FFF` masked)
/// nametable address under a mirroring policy.
pub open spec fn spec_nt_slot(m: Mirroring, a: u16) -> int {
    match m {
        Mirroring::Vertical => if a & 0x0400 != 0 {
            1int
        } else {
            0int
        },
        Mirroring::Horizontal => if a & 0x0800 != 0 {
            1int
        } else {
            0int
        },
        Mirroring::OnescreenLow => 0int,
        Mirroring::OnescreenHigh => 1int,
        Mirroring::Hardware => if a & 0x0800 != 0 {
            1int
        } else {
            0int
        },
    }
}

/// The palette table index for a palette-space address: the low five bits,
/// with `$10/$14/$18/$1C` aliased down to `$00/$04/$08/$0C`.
pub open spec fn spec_palette_index(a: u16) -> int {
    let b = a & 0x001F;
    if b == 0x0010 {
        0int
    } else if b == 0x0014 {
        4int
    } else if b == 0x0018 {
        8int
    } else if b == 0x001C {
        12int
    } else {
        b as int
    }
}

impl PPU {
    /// All backing stores have their fixed sizes, counters stay on the
    /// frame grid, and an attached cartridge is itself well-formed.
    pub open spec fn wf(&self) -> bool {
        &&& self.name_table@.len() == 2
        &&& self.name_table@[0]@.len() == 1024
        &&& self.name_table@[1]@.len() == 1024
        &&& self.palette_table@.len() == 32
        &&& self.pattern_table@.len() == 2
        &&& self.pattern_table@[0]@.len() == 4096
        &&& self.pattern_table@[1]@.len() == 4096
        &&& self.sprite_screen@.len() == 61440
        &&& self.sprite_pattern_table@.len() == 2
        &&& self.sprite_pattern_table@[0]@.len() == 16384
        &&& self.sprite_pattern_table@[1]@.len() == 16384
        &&& self.oam_ram@.len() == 256
        &&& self.oam_sprites@.len() <= 8
        &&& self.sprite_shifter_low@.len() == 8
        &&& self.sprite_shifter_high@.len() == 8
        &&& -1 <= self.scanline <= 260
        &&& 0 <= self.cycle <= 340
        &&& self.fine_x < 8
        &&& (match self.cartridge {
            Some(c) => c.wf(),
            None => true,
        })
    }

    /// The dot position inside the frame, counted from the pre-render line.
    pub open spec fn spec_pos(&self) -> int {
        (self.scanline + 1) * 341 + self.cycle
    }

    pub fn new() -> (p: PPU)
        ensures
            p.wf(),
            p.frame_complete == false,
            p.scanline == 0,
            p.cycle == 0,
            p.controller.0 == 0,
            p.mask.0 == 0,
            p.status.0 == 0,
            p.v_address_register.0 == 0,
            p.t_address_register.0 == 0,
            p.fine_x == 0,
            p.address_latch == 0,
            p.data_buffer == 0,
            p.nmi_enabled == false,
            p.cartridge is None,
            p.oam_ram@ == Seq::<u8>::new(256, |i: int| 0u8),
            p.oam_address_port == 0,
            p.dot_count == 0,
            p.sprite_zero_hit == false,
            p.sprite_zero_rendered == false,
    {
        let mut name_table: Vec<Vec<u8>> = Vec::new();
        name_table.push(vec![0u8; 1024]);
        name_table.push(vec![0u8; 1024]);
        let mut pattern_table: Vec<Vec<u8>> = Vec::new();
        pattern_table.push(vec![0u8; 4096]);
        pattern_table.push(vec![0u8; 4096]);
        let mut sprite_pattern_table: Vec<Vec<u8>> = Vec::new();
        sprite_pattern_table.push(vec![0u8; 16384]);
        sprite_pattern_table.push(vec![0u8; 16384]);
        let oam_ram: Vec<u8> = vec![0u8; 256];
        proof {
            assert(oam_ram@ =~= Seq::<u8>::new(256, |i: int| 0u8));
        }
        PPU {
            cartridge: None,
            name_table,
            palette_table: vec![0u8; 32],
            pattern_table,
            frame_complete: false,
            sprite_screen: vec![2u8; 61440],
            sprite_pattern_table,
            scanline: 0,
            cycle: 0,
            controller: Controller(0),
            mask: Mask(0),
            status: Status(0),
            v_address_register: Address(0),
            t_address_register: Address(0),
            fine_x: 0,
            address_latch: 0,
            data_buffer: 0,
            nmi_enabled: false,
            bg_tile_id: 0,
            bg_tile_attr: 0,
            bg_tile_lsb: 0,
            bg_tile_msb: 0,
            bg_shifter_lsb: 0,
            bg_shifter_msb: 0,
            bg_shifter_attr_low: 0,
            bg_shifter_attr_high: 0,
            oam_ram,
            oam_sprites: Vec::new(),
            oam_address_port: 0,
            sprite_shifter_low: vec![0u8; 8],
            sprite_shifter_high: vec![0u8; 8],
            sprite_zero_hit: false,
            sprite_zero_rendered: false,
            dot_count: 0,
        }
    }

    pub fn connect_cartridge(&mut self, cartridge: Cartridge)
        requires
            cartridge.wf(),
        ensures
            *final(self) == (PPU { cartridge: Some(cartridge), ..*old(self) }),
    {
        self.cartridge = Some(cartridge);
    }

    /// What a PPU-space read of `address` returns, as a pure function of
    /// the current state: CHR through the cartridge, else pattern RAM,
    /// mirrored nametables, or the aliased palette (greyscale-masked).
    /// With no cartridge attached every read returns zero.
    pub open spec fn spec_ppu_read(&self, address: u16) -> u8 {
        let a = address & 0x3FFF;
        match self.cartridge {
            None => 0,
            Some(c) => match c.spec_ppu_read(a) {
                Some(d) => d,
                None => if a <= 0x1FFF {
                    self.pattern_table@[((a & 0x1000) >> 12) as int]@[(a & 0x0FFF) as int]
                } else if a <= 0x3EFF {
                    let n = a & 0x0FFF;
                    self.name_table@[spec_nt_slot(c.spec_mirror(), n)]@[(n & 0x03FF) as int]
                } else {
                    let p = self.palette_table@[spec_palette_index(a)];
                    if bit_get(self.mask.0, 0x01) {
                        (p & 0x30) as u8
                    } else {
                        (p & 0x3F) as u8
                    }
                },
            },
        }
    }

    pub fn ppu_read(&mut self, address: u16, read_only: bool) -> (data: u8)
        requires
            old(self).wf(),
        ensures
            *final(self) == *old(self),
            data == old(self).spec_ppu_read(address),
    {
        let a = address & 0x3FFF;
        proof {
            crate::bit_facts::lemma_u16_mask_bounds();
        }
        match &mut self.cartridge {
            None => 0,
            Some(c) => {
                let mut d: u8 = 0;
                if c.ppu_read(a, &mut d) {
                    d
                } else if a <= 0x1FFF {
                    let first = ((a & 0x1000) >> 12) as usize;
                    let second = (a & 0x0FFF) as usize;
                    self.pattern_table[first][second]
                } else if a <= 0x3EFF {
                    let n = a & 0x0FFF;
                    let mirror = c.mirror();
                    let slot: usize = match mirror {
                        Mirroring::Vertical => if n & 0x0400 != 0 {
                            1
                        } else {
                            0
                        },
                        Mirroring::Horizontal => if n & 0x0800 != 0 {
                            1
                        } else {
                            0
                        },
                        Mirroring::OnescreenLow => 0,
                        Mirroring::OnescreenHigh => 1,
                        Mirroring::Hardware => if n & 0x0800 != 0 {
                            1
                        } else {
                            0
                        },
                    };
                    self.name_table[slot][(n & 0x03FF) as usize]
                } else {
                    let idx = palette_index(a);
                    let p = self.palette_table[idx];
                    if self.mask.greyscale() {
                        p & 0x30
                    } else {
                        p & 0x3F
                    }
                }
            },
        }
    }

    /// How a PPU-space write of `data` at `address` changes the state:
    /// CHR RAM through the cartridge, else pattern RAM, a mirrored
    /// nametable, or the aliased palette. With no cartridge it is dropped.
    pub open spec fn spec_ppu_write_rel(&self, post: &PPU, address: u16, data: u8) -> bool {
        let a = address & 0x3FFF;
        match self.cartridge {
            None => *post == *self,
            Some(c) => if c.spec_ppu_write_handled(a) {
                &&& (post.cartridge matches Some(c2) && c.spec_ppu_write_rel(&c2, a, data))
                &&& *post == (PPU { cartridge: post.cartridge, ..*self })
            } else if a <= 0x1FFF {
                let first = ((a & 0x1000) >> 12) as int;
                &&& post.pattern_table@.len() == 2
                &&& post.pattern_table@[first]@ == self.pattern_table@[first]@.update(
                    (a & 0x0FFF) as int,
                    data,
                )
                &&& post.pattern_table@[1 - first] == self.pattern_table@[1 - first]
                &&& *post == (PPU { pattern_table: post.pattern_table, ..*self })
            } else if a <= 0x3EFF {
                let n = a & 0x0FFF;
                let slot = spec_nt_slot(c.spec_mirror(), n);
                &&& post.name_table@.len() == 2
                &&& post.name_table@[slot]@ == self.name_table@[slot]@.update(
                    (n & 0x03FF) as int,
                    data,
                )
                &&& post.name_table@[1 - slot] == self.name_table@[1 - slot]
                &&& *post == (PPU { name_table: post.name_table, ..*self })
            } else {
                &&& post.palette_table@ == self.palette_table@.update(spec_palette_index(a), data)
                &&& *post == (PPU { palette_table: post.palette_table, ..*self })
            },
        }
    }

    pub fn ppu_write(&mut self, address: u16, data: u8)
        requires
            old(self).wf(),
        ensures
            final(self).wf(),
            old(self).spec_ppu_write_rel(final(self), address, data),
    {
        let a = address & 0x3FFF;
        proof {
            crate::bit_facts::lemma_u16_mask_bounds();
        }
        match &mut self.cartridge {
            None => {},
            Some(c) => {
                if c.ppu_write(a, data) {
                } else if a <= 0x1FFF {
                    let first = ((a & 0x1000) >> 12) as usize;
                    let second = (a & 0x0FFF) as usize;
                    let inner = &mut self.pattern_table[first];
                    inner.set(second, data);
                } else if a <= 0x3EFF {
                    let n = a & 0x0FFF;
                    let mirror = c.mirror();
                    let slot: usize = match mirror {
                        Mirroring::Vertical => if n & 0x0400 != 0 {
                            1
                        } else {
                            0
                        },
                        Mirroring::Horizontal => if n & 0x0800 != 0 {
                            1
                        } else {
                            0
                        },
                        Mirroring::OnescreenLow => 0,
                        Mirroring::OnescreenHigh => 1,
                        Mirroring::Hardware => if n & 0x0800 != 0 {
                            1
                        } else {
                            0
                        },
                    };
                    let inner = &mut self.name_table[slot];
                    inner.set((n & 0x03FF) as usize, data);
                } else {
                    let idx = palette_index(a);
                    self.palette_table.set(idx, data);
                }
            },
        }
    }
}

/// The palette table index for a palette-space address.
pub fn palette_index(a: u16) -> (idx: usize)
    ensures
        idx == spec_palette_index(a),
        idx < 32,
{
    proof {
        crate::bit_facts::lemma_u16_mask_bounds();
    }
    let b = a & 0x001F;
    if b == 0x0010 {
        0
    } else if b == 0x0014 {
        4
    } else if b == 0x0018 {
        8
    } else if b == 0x001C {
        12
    } else {
        b as usize
    }
}

impl PPU {
    /// A register-interface read at `$2000-$2007` (already masked to the
    /// low three bits). Reading PPUSTATUS clears vblank and the address
    /// latch; reading PPUDATA returns the delayed buffer (immediate for
    /// palette space) and increments `v` by 1 or 32.
    pub fn cpu_read(&mut self, address: u16, read_only: bool) -> (data: u8)
        requires
            old(self).wf(),
        ensures
            final(self).wf(),
            spec_reg_read_rel(old(self), final(self), address, data),
    {
        let mut data: u8 = 0x00;
        if address == 0x0002 {
            data = (self.status.get() & 0xE0) | (self.data_buffer & 0x1F);
            self.status.set_vblank(false);
            self.address_latch = 0;
        } else if address == 0x0004 {
            data = self.oam_ram[self.oam_address_port as usize];
        } else if address == 0x0007 {
            data = self.data_buffer;
            let v = self.v_address_register.get();
            self.data_buffer = self.ppu_read(v, read_only);
            if v >= 0x3F00 {
                data = self.data_buffer;
            }
            if self.controller.increment() {
                self.v_address_register = Address(v.wrapping_add(32) & 0x7FFF);
            } else {
                self.v_address_register = Address(v.wrapping_add(1) & 0x7FFF);
            }
        }
        return data;
    }

    /// A register-interface write at `$2000-$2007` (already masked).
    /// PPUCTRL copies its nametable bits into `t`; PPUSCROLL and PPUADDR
    /// alternate on the address latch; PPUDATA stores through `v` and
    /// increments it.
    pub fn cpu_write(&mut self, address: u16, data: u8)
        requires
            old(self).wf(),
        ensures
            final(self).wf(),
            spec_reg_write_rel(old(self), final(self), address, data),
    {
        proof {
            crate::bit_facts::lemma_u8_mask_bounds();
        }
        if address == 0x0000 {
            self.controller = Controller(data);
            let nx: u8 = if self.controller.nametable_x() {
                1
            } else {
                0
            };
            let ny: u8 = if self.controller.nametable_y() {
                1
            } else {
                0
            };
            self.t_address_register.set_nametable_x(nx);
            self.t_address_register.set_nametable_y(ny);
        } else if address == 0x0001 {
            self.mask = Mask(data);
        } else if address == 0x0003 {
            self.oam_address_port = data;
        } else if address == 0x0004 {
            self.oam_ram.set(self.oam_address_port as usize, data);
        } else if address == 0x0005 {
            if self.address_latch == 0 {
                self.fine_x = data & 0x07;
                self.t_address_register.set_coarse_x(data >> 3);
                self.address_latch = 1;
            } else {
                self.t_address_register.set_fine_y(data & 0x07);
                self.t_address_register.set_coarse_y(data >> 3);
                self.address_latch = 0;
            }
        } else if address == 0x0006 {
            if self.address_latch == 0 {
                let t_address = (((data & 0x3F) as u16) << 8) | (self.t_address_register.get()
                    & 0x00FF);
                self.t_address_register = Address(t_address);
                self.address_latch = 1;
            } else {
                let t_address = (self.t_address_register.get() & 0xFF00) | data as u16;
                self.t_address_register = Address(t_address);
                self.v_address_register = self.t_address_register;
                self.address_latch = 0;
            }
        } else if address == 0x0007 {
            let v = self.v_address_register.get();
            self.ppu_write(v, data);
            if self.controller.increment() {
                self.v_address_register = Address(v.wrapping_add(32) & 0x7FFF);
            } else {
                self.v_address_register = Address(v.wrapping_add(1) & 0x7FFF);
            }
        }
    }

    /// Coarse X increments, wrapping from 31 to 0 into the other horizontal
    /// nametable, while rendering is enabled.
    fn scroll_x(&mut self)
        requires
            old(self).wf(),
        ensures
            final(self).wf(),
            *final(self) == (PPU {
                v_address_register: final(self).v_address_register,
                ..*old(self)
            }),
            ({
                let v = old(self).v_address_register.0;
                final(self).v_address_register.0 == (
                    if bit_get(old(self).mask.0, 0x08) || bit_get(old(self).mask.0, 0x10) {
                        if spec_coarse_x(v) == 31 {
                            (spec_set_coarse_x(v, 0) ^ 0x0400) as u16
                        } else {
                            spec_set_coarse_x(v, (spec_coarse_x(v) + 1) as u8)
                        }
                    } else {
                        v
                    }
                )
            }),
    {
        if self.mask.show_background() || self.mask.show_sprites() {
            if self.v_address_register.coarse_x() == 31 {
                self.v_address_register.set_coarse_x(0);
                self.v_address_register.0 = self.v_address_register.0 ^ 0x0400;
            } else {
                proof {
                    lemma_loopy_fields();
                }
                let nx = self.v_address_register.coarse_x();
                self.v_address_register.set_coarse_x(nx + 1);
            }
        }
    }

    /// Fine Y increments, carrying into coarse Y, which wraps from 29 to 0
    /// into the other vertical nametable (or from 31 to 0 without the
    /// toggle), while rendering is enabled.
    fn scroll_y(&mut self)
        requires
            old(self).wf(),
        ensures
            final(self).wf(),
            *final(self) == (PPU {
                v_address_register: final(self).v_address_register,
                ..*old(self)
            }),
            ({
                let v = old(self).v_address_register.0;
                final(self).v_address_register.0 == (
                    if bit_get(old(self).mask.0, 0x08) || bit_get(old(self).mask.0, 0x10) {
                        if spec_fine_y(v) < 7 {
                            spec_set_fine_y(v, (spec_fine_y(v) + 1) as u8)
                        } else {
                            let v0 = spec_set_fine_y(v, 0);
                            if spec_coarse_y(v0) == 29 {
                                (spec_set_coarse_y(v0, 0) ^ 0x0800) as u16
                            } else if spec_coarse_y(v0) == 31 {
                                spec_set_coarse_y(v0, 0)
                            } else {
                                spec_set_coarse_y(v0, (spec_coarse_y(v0) + 1) as u8)
                            }
                        }
                    } else {
                        v
                    }
                )
            }),
    {
        if self.mask.show_background() || self.mask.show_sprites() {
            proof {
                lemma_loopy_fields();
            }
            if self.v_address_register.fine_y() < 7 {
                let fy = self.v_address_register.fine_y();
                self.v_address_register.set_fine_y(fy + 1);
            } else {
                self.v_address_register.set_fine_y(0);
                if self.v_address_register.coarse_y() == 29 {
                    self.v_address_register.set_coarse_y(0);
                    self.v_address_register.0 = self.v_address_register.0 ^ 0x0800;
                } else if self.v_address_register.coarse_y() == 31 {
                    self.v_address_register.set_coarse_y(0);
                } else {
                    let cy = self.v_address_register.coarse_y();
                    self.v_address_register.set_coarse_y(cy + 1);
                }
            }
        }
    }

    /// The horizontal bits of `t` (coarse X and nametable X) are copied
    /// into `v`, while rendering is enabled.
    fn reset_x(&mut self)
        requires
            old(self).wf(),
        ensures
            final(self).wf(),
            *final(self) == (PPU {
                v_address_register: final(self).v_address_register,
                ..*old(self)
            }),
            ({
                let v = old(self).v_address_register.0;
                let t = old(self).t_address_register.0;
                final(self).v_address_register.0 == (
                    if bit_get(old(self).mask.0, 0x08) || bit_get(old(self).mask.0, 0x10) {
                        spec_set_coarse_x(spec_set_nt_x(v, spec_nt_x(t)), spec_coarse_x(t))
                    } else {
                        v
                    }
                )
            }),
    {
        if self.mask.show_background() || self.mask.show_sprites() {
            let ntx = self.t_address_register.nametable_x();
            self.v_address_register.set_nametable_x(ntx);
            let cx = self.t_address_register.coarse_x();
            self.v_address_register.set_coarse_x(cx);
        }
    }

    /// The vertical bits of `t` (fine Y, coarse Y and nametable Y) are
    /// copied into `v`, while rendering is enabled.
    fn reset_y(&mut self)
        requires
            old(self).wf(),
        ensures
            final(self).wf(),
            *final(self) == (PPU {
                v_address_register: final(self).v_address_register,
                ..*old(self)
            }),
            ({
                let v = old(self).v_address_register.0;
                let t = old(self).t_address_register.0;
                final(self).v_address_register.0 == (
                    if bit_get(old(self).mask.0, 0x08) || bit_get(old(self).mask.0, 0x10) {
                        spec_set_coarse_y(
                            spec_set_nt_y(spec_set_fine_y(v, spec_fine_y(t)), spec_nt_y(t)),
                            spec_coarse_y(t),
                        )
                    } else {
                        v
                    }
                )
            }),
    {
        if self.mask.show_background() || self.mask.show_sprites() {
            let fy = self.t_address_register.fine_y();
            self.v_address_register.set_fine_y(fy);
            let nty = self.t_address_register.nametable_y();
            self.v_address_register.set_nametable_y(nty);
            let cy = self.t_address_register.coarse_y();
            self.v_address_register.set_coarse_y(cy);
        }
    }

    /// Registers and latches return to their power-on values; memories and
    /// OAM are kept.
    pub fn reset(&mut self)
        requires
            old(self).wf(),
        ensures
            final(self).wf(),
            *final(self) == (PPU {
                fine_x: 0,
                address_latch: 0,
                data_buffer: 0,
                scanline: 0,
                cycle: 0,
                bg_tile_id: 0,
                bg_tile_attr: 0,
                bg_tile_lsb: 0,
                bg_tile_msb: 0,
                bg_shifter_attr_high: 0,
                bg_shifter_attr_low: 0,
                bg_shifter_lsb: 0,
                bg_shifter_msb: 0,
                status: Status(0),
                mask: Mask(0),
                controller: Controller(0),
                v_address_register: Address(0),
                t_address_register: Address(0),
                ..*old(self)
            }),
    {
        self.fine_x = 0x00;
        self.address_latch = 0x00;
        self.data_buffer = 0x00;
        self.scanline = 0;
        self.cycle = 0;
        self.bg_tile_id = 0;
        self.bg_tile_attr = 0;
        self.bg_tile_lsb = 0;
        self.bg_tile_msb = 0;
        self.bg_shifter_attr_high = 0;
        self.bg_shifter_attr_low = 0;
        self.bg_shifter_lsb = 0;
        self.bg_shifter_msb = 0;
        self.status = Status(0);
        self.mask = Mask(0);
        self.controller = Controller(0);
        self.v_address_register = Address(0);
        self.t_address_register = Address(0);
    }

    /// The pattern latches are loaded into the low bytes of the background
    /// shifters, and the 2-bit attribute is spread across the two
    /// attribute planes.
    fn load_bg_shifters(&mut self)
        requires
            old(self).wf(),
        ensures
            final(self).wf(),
            *final(self) == (PPU {
                bg_shifter_lsb: ((old(self).bg_shifter_lsb & 0xFF00)
                    | old(self).bg_tile_lsb as u16) as u16,
                bg_shifter_msb: ((old(self).bg_shifter_msb & 0xFF00)
                    | old(self).bg_tile_msb as u16) as u16,
                bg_shifter_attr_low: ((old(self).bg_shifter_attr_low & 0xFF00) | (
                    if old(self).bg_tile_attr & 0x01 > 0 {
                        0xFF
                    } else {
                        0x00
                    }
                )) as u16,
                bg_shifter_attr_high: ((old(self).bg_shifter_attr_high & 0xFF00) | (
                    if old(self).bg_tile_attr & 0x02 > 0 {
                        0xFF
                    } else {
                        0x00
                    }
                )) as u16,
                ..*old(self)
            }),
    {
        self.bg_shifter_lsb = (self.bg_shifter_lsb & 0xFF00) | (self.bg_tile_lsb as u16);
        self.bg_shifter_msb = (self.bg_shifter_msb & 0xFF00) | (self.bg_tile_msb as u16);

        if (self.bg_tile_attr & 0x01) > 0 {
            self.bg_shifter_attr_low = (self.bg_shifter_attr_low & 0xFF00) | 0xFF;
        } else {
            self.bg_shifter_attr_low = (self.bg_shifter_attr_low & 0xFF00) | 0x00;
        }

        if (self.bg_tile_attr & 0x02) > 0 {
            self.bg_shifter_attr_high = (self.bg_shifter_attr_high & 0xFF00) | 0xFF;
        } else {
            self.bg_shifter_attr_high = (self.bg_shifter_attr_high & 0xFF00) | 0x00;
        }
    }

    /// The background shifters step left while backgrounds are shown; in
    /// the visible window each sprite's X counts down, and a sprite whose
    /// X has reached zero shifts its pattern bytes.
    fn update_shifters(&mut self)
        requires
            old(self).wf(),
        ensures
            final(self).wf(),
            *final(self) == (PPU {
                bg_shifter_lsb: final(self).bg_shifter_lsb,
                bg_shifter_msb: final(self).bg_shifter_msb,
                bg_shifter_attr_low: final(self).bg_shifter_attr_low,
                bg_shifter_attr_high: final(self).bg_shifter_attr_high,
                oam_sprites: final(self).oam_sprites,
                sprite_shifter_low: final(self).sprite_shifter_low,
                sprite_shifter_high: final(self).sprite_shifter_high,
                ..*old(self)
            }),
            final(self).oam_sprites@.len() == old(self).oam_sprites@.len(),
    {
        if self.mask.show_background() {
            self.bg_shifter_attr_high = self.bg_shifter_attr_high << 1;
            self.bg_shifter_attr_low = self.bg_shifter_attr_low << 1;
            self.bg_shifter_lsb = self.bg_shifter_lsb << 1;
            self.bg_shifter_msb = self.bg_shifter_msb << 1;
        }
        if self.mask.show_sprites() && self.cycle >= 1 && self.cycle < 258 {
            let n = self.oam_sprites.len();
            let mut i: usize = 0;
            while i < n
                invariant
                    n == self.oam_sprites@.len(),
                    n <= 8,
                    i <= n,
                    self.sprite_shifter_low@.len() == 8,
                    self.sprite_shifter_high@.len() == 8,
                    *self == (PPU {
                        bg_shifter_lsb: self.bg_shifter_lsb,
                        bg_shifter_msb: self.bg_shifter_msb,
                        bg_shifter_attr_low: self.bg_shifter_attr_low,
                        bg_shifter_attr_high: self.bg_shifter_attr_high,
                        oam_sprites: self.oam_sprites,
                        sprite_shifter_low: self.sprite_shifter_low,
                        sprite_shifter_high: self.sprite_shifter_high,
                        ..*old(self)
                    }),
                decreases n - i,
            {
                if self.oam_sprites[i].x > 0 {
                    let mut s = self.oam_sprites[i];
                    s.x = s.x - 1;
                    self.oam_sprites.set(i, s);
                } else {
                    let lo = self.sprite_shifter_low[i];
                    self.sprite_shifter_low.set(i, lo << 1);
                    let hi = self.sprite_shifter_high[i];
                    self.sprite_shifter_high.set(i, hi << 1);
                }
                i = i + 1;
            }
        }
    }
}

/// The sprite at OAM slot `i` (Y, tile id, attribute, X).
pub open spec fn spec_sprite_at(oam: Seq<u8>, i: int) -> Sprite {
    Sprite { y: oam[4 * i], id: oam[4 * i + 1], attribute: oam[4 * i + 2], x: oam[4 * i + 3] }
}

/// OAM slot `i` covers `scanline` for sprite height `h`.
pub open spec fn spec_sprite_in_range(oam: Seq<u8>, i: int, scanline: int, h: int) -> bool {
    oam[4 * i] <= scanline < oam[4 * i] + h
}

/// The sprites from OAM slots `i..64` that cover `scanline`, in OAM order.
pub open spec fn spec_eval(oam: Seq<u8>, scanline: int, h: int, i: int) -> Seq<Sprite>
    decreases 64 - i,
{
    if i < 0 || i >= 64 {
        Seq::empty()
    } else {
        let rest = spec_eval(oam, scanline, h, i + 1);
        if spec_sprite_in_range(oam, i, scanline, h) {
            seq![spec_sprite_at(oam, i)] + rest
        } else {
            rest
        }
    }
}

impl PPU {
    /// Scan OAM linearly, selecting up to eight sprites that cover the
    /// current scanline; a ninth match sets sprite overflow (while
    /// rendering is enabled); record whether OAM slot 0 entered the list.
    fn evaluate_sprites(&mut self)
        requires
            old(self).wf(),
            old(self).scanline >= 0,
        ensures
            final(self).wf(),
            *final(self) == (PPU {
                oam_sprites: final(self).oam_sprites,
                sprite_zero_hit: final(self).sprite_zero_hit,
                status: final(self).status,
                ..*old(self)
            }),
            ({
                let h: int = if bit_get(old(self).controller.0, 0x20) {
                    16
                } else {
                    8
                };
                let full = spec_eval(old(self).oam_ram@, old(self).scanline as int, h, 0);
                &&& final(self).oam_sprites@ == (if full.len() <= 8 {
                    full
                } else {
                    full.take(8)
                })
                &&& final(self).sprite_zero_hit == spec_sprite_in_range(
                    old(self).oam_ram@,
                    0,
                    old(self).scanline as int,
                    h,
                )
                &&& final(self).status.0 == (if full.len() > 8 && (bit_get(old(self).mask.0, 0x08)
                    || bit_get(old(self).mask.0, 0x10)) {
                    bit_put(old(self).status.0, 0x20, true)
                } else {
                    old(self).status.0
                })
            }),
    {
        let ghost h: int = if bit_get(self.controller.0, 0x20) {
            16int
        } else {
            8int
        };
        let ghost full = spec_eval(self.oam_ram@, self.scanline as int, h, 0);
        self.oam_sprites = Vec::new();
        self.sprite_zero_hit = false;
        let mut i: usize = 0;
        let mut overflowed: bool = false;
        while i < 64
            invariant
                old(self).wf(),
                old(self).scanline >= 0,
                i <= 64,
                h == (if bit_get(old(self).controller.0, 0x20) {
                    16int
                } else {
                    8int
                }),
                full == spec_eval(old(self).oam_ram@, old(self).scanline as int, h, 0),
                *self == (PPU {
                    oam_sprites: self.oam_sprites,
                    sprite_zero_hit: self.sprite_zero_hit,
                    status: self.status,
                    ..*old(self)
                }),
                !overflowed ==> self.status == old(self).status,
                !overflowed ==> self.oam_sprites@ + spec_eval(
                    old(self).oam_ram@,
                    old(self).scanline as int,
                    h,
                    i as int,
                ) == full,
                !overflowed ==> self.oam_sprites@.len() <= 8,
                overflowed ==> i == 64,
                overflowed ==> self.oam_sprites@ == full.take(8) && full.len() > 8,
                overflowed ==> self.status.0 == (if bit_get(old(self).mask.0, 0x08) || bit_get(
                    old(self).mask.0,
                    0x10,
                ) {
                    bit_put(old(self).status.0, 0x20, true)
                } else {
                    old(self).status.0
                }),
                self.sprite_zero_hit == (i > 0 && spec_sprite_in_range(
                    old(self).oam_ram@,
                    0,
                    old(self).scanline as int,
                    h,
                )),
            decreases 64 - i,
        {
            let address = i * 4;
            let sprite = Sprite {
                y: self.oam_ram[address],
                id: self.oam_ram[address + 1],
                attribute: self.oam_ram[address + 2],
                x: self.oam_ram[address + 3],
            };
            assert(sprite == spec_sprite_at(old(self).oam_ram@, i as int));

            let left = self.scanline as usize >= sprite.y as usize;
            let right = if self.controller.sprite_size() {
                (self.scanline as usize) < sprite.y as usize + 16
            } else {
                (self.scanline as usize) < sprite.y as usize + 8
            };
            assert((left && right) == spec_sprite_in_range(
                old(self).oam_ram@,
                i as int,
                old(self).scanline as int,
                h,
            ));

            if left && right {
                if self.oam_sprites.len() == 8 {
                    if self.mask.show_background() || self.mask.show_sprites() {
                        self.status.set_sprite_overflow(true);
                    }
                    overflowed = true;
                    proof {
                        assert(spec_eval(
                            old(self).oam_ram@,
                            old(self).scanline as int,
                            h,
                            i as int,
                        ).len() >= 1);
                        assert(full.len() > 8);
                        assert(full.take(8) =~= self.oam_sprites@);
                    }
                    i = 64;
                } else {
                    if i == 0 {
                        self.sprite_zero_hit = true;
                    }
                    let ghost pre = self.oam_sprites@;
                    self.oam_sprites.push(sprite);
                    proof {
                        assert(self.oam_sprites@ + spec_eval(
                            old(self).oam_ram@,
                            old(self).scanline as int,
                            h,
                            i + 1,
                        ) =~= pre + spec_eval(
                            old(self).oam_ram@,
                            old(self).scanline as int,
                            h,
                            i as int,
                        ));
                    }
                    i = i + 1;
                }
            } else {
                i = i + 1;
            }
        }
        proof {
            if !overflowed {
                assert(self.oam_sprites@ + spec_eval(
                    old(self).oam_ram@,
                    old(self).scanline as int,
                    h,
                    64,
                ) =~= self.oam_sprites@);
            }
        }
    }
}

/// The bits of `a`, reversed.
pub open spec fn spec_rev8(a: u8) -> u8 {
    (((a & 0x01) << 7) | ((a & 0x02) << 5) | ((a & 0x04) << 3) | ((a & 0x08) << 1) | ((a & 0x10)
        >> 1) | ((a & 0x20) >> 3) | ((a & 0x40) >> 5) | ((a & 0x80) >> 7)) as u8
}

/// Reverse the bit order of a byte (used for horizontally flipped sprites).
pub fn reverse_bits(a: u8) -> (out: u8)
    ensures
        out == spec_rev8(a),
{
    ((a & 0x01) << 7) | ((a & 0x02) << 5) | ((a & 0x04) << 3) | ((a & 0x08) << 1) | ((a & 0x10)
        >> 1) | ((a & 0x20) >> 3) | ((a & 0x40) >> 5) | ((a & 0x80) >> 7)
}

/// The canonical 2010-era NES palette: RGB for each of the 64 colours.
pub open spec fn spec_system_palette(c: u8) -> (u8, u8, u8) {
    match c & 0x3F {
        0 => (84, 84, 84),
        1 => (0, 30, 116),
        2 => (8, 16, 144),
        3 => (48, 0, 136),
        4 => (68, 0, 100),
        5 => (92, 0, 48),
        6 => (84, 4, 0),
        7 => (60, 24, 0),
        8 => (32, 42, 0),
        9 => (8, 58, 0),
        10 => (0, 64, 0),
        11 => (0, 60, 0),
        12 => (0, 50, 60),
        13 => (0, 0, 0),
        14 => (0, 0, 0),
        15 => (0, 0, 0),
        16 => (152, 150, 152),
        17 => (8, 76, 196),
        18 => (48, 50, 236),
        19 => (92, 30, 228),
        20 => (136, 20, 76),
        21 => (160, 20, 100),
        22 => (152, 34, 32),
        23 => (120, 60, 0),
        24 => (84, 90, 0),
        25 => (40, 114, 0),
        26 => (8, 124, 0),
        27 => (0, 118, 40),
        28 => (0, 102, 120),
        29 => (0, 0, 0),
        30 => (0, 0, 0),
        31 => (0, 0, 0),
        32 => (236, 238, 236),
        33 => (76, 154, 236),
        34 => (120, 124, 236),
        35 => (176, 98, 236),
        36 => (228, 84, 236),
        37 => (236, 88, 180),
        38 => (236, 106, 100),
        39 => (212, 136, 32),
        40 => (160, 170, 0),
        41 => (116, 196, 0),
        42 => (76, 208, 32),
        43 => (56, 204, 108),
        44 => (56, 180, 204),
        45 => (60, 60, 60),
        46 => (0, 0, 0),
        47 => (0, 0, 0),
        48 => (236, 238, 236),
        49 => (168, 204, 236),
        50 => (188, 188, 236),
        51 => (212, 178, 236),
        52 => (236, 174, 236),
        53 => (236, 174, 212),
        54 => (236, 180, 176),
        55 => (228, 196, 144),
        56 => (204, 210, 120),
        57 => (180, 222, 120),
        58 => (168, 226, 144),
        59 => (152, 226, 180),
        60 => (160, 214, 228),
        61 => (160, 162, 160),
        62 => (0, 0, 0),
        63 => (0, 0, 0),
        _ => (0, 0, 0),
    }
}

/// The canonical 2010-era NES palette, by palette index (masked to 64).
pub fn system_palette(c: u8) -> (r: (u8, u8, u8))
    ensures
        r == spec_system_palette(c),
{
    match c & 0x3F {
        0 => (84, 84, 84),
        1 => (0, 30, 116),
        2 => (8, 16, 144),
        3 => (48, 0, 136),
        4 => (68, 0, 100),
        5 => (92, 0, 48),
        6 => (84, 4, 0),
        7 => (60, 24, 0),
        8 => (32, 42, 0),
        9 => (8, 58, 0),
        10 => (0, 64, 0),
        11 => (0, 60, 0),
        12 => (0, 50, 60),
        13 => (0, 0, 0),
        14 => (0, 0, 0),
        15 => (0, 0, 0),
        16 => (152, 150, 152),
        17 => (8, 76, 196),
        18 => (48, 50, 236),
        19 => (92, 30, 228),
        20 => (136, 20, 76),
        21 => (160, 20, 100),
        22 => (152, 34, 32),
        23 => (120, 60, 0),
        24 => (84, 90, 0),
        25 => (40, 114, 0),
        26 => (8, 124, 0),
        27 => (0, 118, 40),
        28 => (0, 102, 120),
        29 => (0, 0, 0),
        30 => (0, 0, 0),
        31 => (0, 0, 0),
        32 => (236, 238, 236),
        33 => (76, 154, 236),
        34 => (120, 124, 236),
        35 => (176, 98, 236),
        36 => (228, 84, 236),
        37 => (236, 88, 180),
        38 => (236, 106, 100),
        39 => (212, 136, 32),
        40 => (160, 170, 0),
        41 => (116, 196, 0),
        42 => (76, 208, 32),
        43 => (56, 204, 108),
        44 => (56, 180, 204),
        45 => (60, 60, 60),
        46 => (0, 0, 0),
        47 => (0, 0, 0),
        48 => (236, 238, 236),
        49 => (168, 204, 236),
        50 => (188, 188, 236),
        51 => (212, 178, 236),
        52 => (236, 174, 236),
        53 => (236, 174, 212),
        54 => (236, 180, 176),
        55 => (228, 196, 144),
        56 => (204, 210, 120),
        57 => (180, 222, 120),
        58 => (168, 226, 144),
        59 => (152, 226, 180),
        60 => (160, 214, 228),
        61 => (160, 162, 160),
        62 => (0, 0, 0),
        63 => (0, 0, 0),
        _ => (0, 0, 0),
    }
}

/// One output channel, doubled (modulo 256) when its emphasis bit is on.
pub open spec fn spec_emph(v: u8, on: bool) -> u8 {
    if on {
        ((v * 2) % 256) as u8
    } else {
        v
    }
}

impl PPU {
    /// Write one pixel of the visible frame; coordinates outside 256x240
    /// are dropped.
    fn draw_pixel(&mut self, x: i32, y: i32, c: u8)
        requires
            old(self).wf(),
        ensures
            final(self).wf(),
            *final(self) == (PPU { sprite_screen: final(self).sprite_screen, ..*old(self) }),
            0 <= x < 256 && 0 <= y < 240 ==> final(self).sprite_screen@
                == old(self).sprite_screen@.update(x + 256 * y, c),
            !(0 <= x < 256 && 0 <= y < 240) ==> *final(self) == *old(self),
    {
        if x >= 0 && y >= 0 && x < 256 && y < 240 {
            let i = (x + 256 * y) as usize;
            self.sprite_screen.set(i, c);
        }
    }

    /// Write one pixel of a debug pattern-table texture.
    fn write_pattern_pixel(&mut self, x: u16, y: u16, c: u8, index: usize)
        requires
            old(self).wf(),
            x < 128,
            y < 128,
            index < 2,
        ensures
            final(self).wf(),
            *final(self) == (PPU {
                sprite_pattern_table: final(self).sprite_pattern_table,
                ..*old(self)
            }),
            final(self).sprite_pattern_table@.len() == 2,
            final(self).sprite_pattern_table@[index as int]@
                == old(self).sprite_pattern_table@[index as int]@.update(x + 128 * y, c),
            final(self).sprite_pattern_table@[1 - index]
                == old(self).sprite_pattern_table@[1 - index],
    {
        let i = (x + 128 * y) as usize;
        let inner = &mut self.sprite_pattern_table[index];
        inner.set(i, c);
    }

    /// Look up the final colour for a (palette, pixel) pair through the
    /// palette table at `$3F00`.
    pub fn get_colour(&mut self, palette: u8, pixel: u8) -> (c: u8)
        requires
            old(self).wf(),
        ensures
            *final(self) == *old(self),
            c == old(self).spec_ppu_read(
                (0x3F00 + (((palette << 2) as u16) + pixel as u16)) as u16,
            ) & 0x3F,
            c < 64,
    {
        proof {
            crate::bit_facts::lemma_u8_mask_bounds();
        }
        let address: u16 = 0x3F00 + (((palette << 2) as u16) + pixel as u16);
        let i = self.ppu_read(address, false);
        return i & 0x3F;
    }

    /// Produce the 256x240 RGB24 frame from the palette-index screen, with
    /// the emphasis bits doubling their channels.
    #[verifier::rlimit(100)]
    pub fn render(&mut self) -> (frame: Vec<u8>)
        requires
            old(self).wf(),
        ensures
            *final(self) == *old(self),
            frame@.len() == 184320,
            forall|i: int| 0 <= i < 61440 ==> #[trigger] frame@[3 * i] == spec_emph(
                spec_system_palette(old(self).sprite_screen@[i]).0,
                bit_get(old(self).mask.0, 0x20),
            ) && frame@[3 * i + 1] == spec_emph(
                spec_system_palette(old(self).sprite_screen@[i]).1,
                bit_get(old(self).mask.0, 0x40),
            ) && frame@[3 * i + 2] == spec_emph(
                spec_system_palette(old(self).sprite_screen@[i]).2,
                bit_get(old(self).mask.0, 0x80),
            ),
    {
        let mut frame: Vec<u8> = Vec::new();
        let mut i: usize = 0;
        while i < 61440
            invariant
                old(self).wf(),
                *self == *old(self),
                i <= 61440,
                frame@.len() == 3 * i,
                forall|j: int| 0 <= j < i ==> #[trigger] frame@[3 * j] == spec_emph(
                    spec_system_palette(old(self).sprite_screen@[j]).0,
                    bit_get(old(self).mask.0, 0x20),
                ) && frame@[3 * j + 1] == spec_emph(
                    spec_system_palette(old(self).sprite_screen@[j]).1,
                    bit_get(old(self).mask.0, 0x40),
                ) && frame@[3 * j + 2] == spec_emph(
                    spec_system_palette(old(self).sprite_screen@[j]).2,
                    bit_get(old(self).mask.0, 0x80),
                ),
            decreases 61440 - i,
        {
            let c = self.sprite_screen[i];
            let ghost pre = frame@;
            let (pr, pg, pb) = system_palette(c);
            let r: u8 = if self.mask.emphasize_red() {
                pr.wrapping_mul(2)
            } else {
                pr
            };
            let g: u8 = if self.mask.emphasize_green() {
                pg.wrapping_mul(2)
            } else {
                pg
            };
            let b: u8 = if self.mask.emphasize_blue() {
                pb.wrapping_mul(2)
            } else {
                pb
            };
            frame.push(r);
            frame.push(g);
            frame.push(b);
            proof {
                assert forall|j: int| 0 <= j < 3 * i implies frame@[j] == pre[j] by {}
                assert(frame@[3 * (i as int)] == r);
                assert(frame@[3 * (i as int) + 1] == g);
                assert(frame@[3 * (i as int) + 2] == b);
            }
            i = i + 1;
        }
        return frame;
    }

    /// Produce the RGB24 view of one debug pattern-table texture.
    #[verifier::rlimit(100)]
    #[verifier::spinoff_prover]
    pub fn render_palette(&self, index: u8) -> (frame: Vec<u8>)
        requires
            self.wf(),
            index < 2,
        ensures
            frame@.len() == 49152,
            forall|i: int| 0 <= i < 16384 ==> #[trigger] frame@[3 * i] == spec_system_palette(
                self.sprite_pattern_table@[index as int]@[i],
            ).0 && frame@[3 * i + 1] == spec_system_palette(
                self.sprite_pattern_table@[index as int]@[i],
            ).1 && frame@[3 * i + 2] == spec_system_palette(
                self.sprite_pattern_table@[index as int]@[i],
            ).2,
    {
        let mut frame: Vec<u8> = Vec::new();
        let mut i: usize = 0;
        while i < 16384
            invariant
                self.wf(),
                index < 2,
                i <= 16384,
                frame@.len() == 3 * i,
                forall|j: int| 0 <= j < i ==> #[trigger] frame@[3 * j] == spec_system_palette(
                    self.sprite_pattern_table@[index as int]@[j],
                ).0 && frame@[3 * j + 1] == spec_system_palette(
                    self.sprite_pattern_table@[index as int]@[j],
                ).1 && frame@[3 * j + 2] == spec_system_palette(
                    self.sprite_pattern_table@[index as int]@[j],
                ).2,
            decreases 16384 - i,
        {
            let c = self.sprite_pattern_table[index as usize][i];
            let (r, g, b) = system_palette(c);
            let ghost pre = frame@;
            frame.push(r);
            frame.push(g);
            frame.push(b);
            proof {
                assert forall|j: int| 0 <= j < 3 * i implies frame@[j] == pre[j] by {}
                assert(frame@[3 * (i as int)] == r);
                assert(frame@[3 * (i as int) + 1] == g);
                assert(frame@[3 * (i as int) + 2] == b);
                assert(c == self.sprite_pattern_table@[index as int]@[i as int]);
                assert(frame@[3 * (i as int)] == spec_system_palette(
                    self.sprite_pattern_table@[index as int]@[i as int],
                ).0);
                assert(frame@[3 * (i as int) + 1] == spec_system_palette(
                    self.sprite_pattern_table@[index as int]@[i as int],
                ).1);
                assert(frame@[3 * (i as int) + 2] == spec_system_palette(
                    self.sprite_pattern_table@[index as int]@[i as int],
                ).2);
                assert forall|j: int| 0 <= j < i + 1 implies #[trigger] frame@[3 * j]
                    == spec_system_palette(self.sprite_pattern_table@[index as int]@[j]).0
                    && frame@[3 * j + 1] == spec_system_palette(
                    self.sprite_pattern_table@[index as int]@[j],
                ).1 && frame@[3 * j + 2] == spec_system_palette(
                    self.sprite_pattern_table@[index as int]@[j],
                ).2 by {
                    if j < i {
                        assert(frame@[3 * j] == pre[3 * j]);
                        assert(frame@[3 * j + 1] == pre[3 * j + 1]);
                        assert(frame@[3 * j + 2] == pre[3 * j + 2]);
                    }
                }
            }
            i = i + 1;
        }
        return frame;
    }

}

/// The 2-bit pattern pixel of tile (`tx`, `ty`), row `r`, at bit
/// position `c` of the row's two pattern planes.
pub open spec fn spec_pattern_pixel(
    p: &PPU,
    index: int,
    ty: int,
    tx: int,
    r: int,
    c: int,
) -> u8 {
    let base = (index * 0x1000 + ty * 256 + tx * 16 + r) as u16;
    let ls = p.spec_ppu_read(base);
    let ms = p.spec_ppu_read((base + 8) as u16);
    (((ls >> (c as u8)) & 0x01) + ((ms >> (c as u8)) & 0x01)) as u8
}

/// The palette colour the debug texture holds for that pixel.
pub open spec fn spec_pattern_colour(
    p: &PPU,
    index: int,
    palette: u8,
    ty: int,
    tx: int,
    r: int,
    c: int,
) -> u8 {
    (p.spec_ppu_read(
        (0x3F00 + (((palette << 2) as u16) + spec_pattern_pixel(p, index, ty, tx, r, c) as u16))
            as u16,
    ) & 0x3F) as u8
}

/// The texture cell of tile (`tx`, `ty`), row `r`, bit `c` holds its
/// decoded colour.
pub open spec fn spec_cell_ok(
    p0: &PPU,
    p: &PPU,
    index: int,
    palette: u8,
    ty: int,
    tx: int,
    r: int,
    c: int,
) -> bool {
    p.sprite_pattern_table@[index]@[(tx * 8 + 7 - c) + 128 * (ty * 8 + r)] == spec_pattern_colour(
        p0,
        index,
        palette,
        ty,
        tx,
        r,
        c,
    )
}

impl PPU {
    /// Decode one 4 KiB pattern table into its debug texture and return
    /// the texture's RGB24 view.
    pub fn get_pattern_table(&mut self, index: u8, palette: u8) -> (frame: Vec<u8>)
        requires
            old(self).wf(),
            index < 2,
        ensures
            final(self).wf(),
            *final(self) == (PPU {
                sprite_pattern_table: final(self).sprite_pattern_table,
                ..*old(self)
            }),
            final(self).sprite_pattern_table@[1 - index as int]
                == old(self).sprite_pattern_table@[1 - index as int],
            // every texture cell holds the decoded, palette-mapped colour
            // of its pattern-table pixel
            forall|ty: int, tx: int, r: int, c: int|
                0 <= ty < 16 && 0 <= tx < 16 && 0 <= r < 8 && 0 <= c < 8
                    ==> #[trigger] spec_cell_ok(
                    old(self),
                    final(self),
                    index as int,
                    palette,
                    ty,
                    tx,
                    r,
                    c,
                ),
            frame@.len() == 49152,
            forall|i: int| 0 <= i < 16384 ==> #[trigger] frame@[3 * i] == spec_system_palette(
                final(self).sprite_pattern_table@[index as int]@[i],
            ).0 && frame@[3 * i + 1] == spec_system_palette(
                final(self).sprite_pattern_table@[index as int]@[i],
            ).1 && frame@[3 * i + 2] == spec_system_palette(
                final(self).sprite_pattern_table@[index as int]@[i],
            ).2,
    {
        proof {
            crate::bit_facts::lemma_shr_step();
        }
        let mut tile_y: u16 = 0;
        while tile_y < 16
            invariant
                old(self).wf(),
                index < 2,
                tile_y <= 16,
                self.wf(),
                *self == (PPU {
                    sprite_pattern_table: self.sprite_pattern_table,
                    ..*old(self)
                }),
                self.sprite_pattern_table@[1 - index as int]
                    == old(self).sprite_pattern_table@[1 - index as int],
                forall|ty: int, tx: int, r: int, c: int|
                    0 <= ty < tile_y && 0 <= tx < 16 && 0 <= r < 8 && 0 <= c < 8
                        ==> #[trigger] spec_cell_ok(
                        old(self),
                        self,
                        index as int,
                        palette,
                        ty,
                        tx,
                        r,
                        c,
                    ),
            decreases 16 - tile_y,
        {
            let mut tile_x: u16 = 0;
            while tile_x < 16
                invariant
                    old(self).wf(),
                    index < 2,
                    tile_y < 16,
                    tile_x <= 16,
                    self.wf(),
                    *self == (PPU {
                        sprite_pattern_table: self.sprite_pattern_table,
                        ..*old(self)
                    }),
                    self.sprite_pattern_table@[1 - index as int]
                        == old(self).sprite_pattern_table@[1 - index as int],
                    forall|ty: int, tx: int, r: int, c: int|
                        0 <= ty < tile_y && 0 <= tx < 16 && 0 <= r < 8 && 0 <= c < 8
                            ==> #[trigger] spec_cell_ok(
                            old(self),
                            self,
                            index as int,
                            palette,
                            ty,
                            tx,
                            r,
                            c,
                        ),
                    forall|tx2: int, r: int, c: int|
                        0 <= tx2 < tile_x && 0 <= r < 8 && 0 <= c < 8
                            ==> #[trigger] spec_cell_ok(
                            old(self),
                            self,
                            index as int,
                            palette,
                            tile_y as int,
                            tx2,
                            r,
                            c,
                        ),
                decreases 16 - tile_x,
            {
                let offset: u16 = tile_y * 256 + tile_x * 16;
                let mut row: u16 = 0;
                while row < 8
                    invariant
                        old(self).wf(),
                        index < 2,
                        tile_y < 16,
                        tile_x < 16,
                        row <= 8,
                        offset == tile_y * 256 + tile_x * 16,
                        self.wf(),
                        *self == (PPU {
                            sprite_pattern_table: self.sprite_pattern_table,
                            ..*old(self)
                        }),
                        self.sprite_pattern_table@[1 - index as int]
                            == old(self).sprite_pattern_table@[1 - index as int],
                        forall|ty: int, tx: int, r: int, c: int|
                            0 <= ty < tile_y && 0 <= tx < 16 && 0 <= r < 8 && 0 <= c < 8
                                ==> #[trigger] spec_cell_ok(
                                old(self),
                                self,
                                index as int,
                                palette,
                                ty,
                                tx,
                                r,
                                c,
                            ),
                        forall|tx2: int, r: int, c: int|
                            0 <= tx2 < tile_x && 0 <= r < 8 && 0 <= c < 8
                                ==> #[trigger] spec_cell_ok(
                                old(self),
                                self,
                                index as int,
                                palette,
                                tile_y as int,
                                tx2,
                                r,
                                c,
                            ),
                        forall|r2: int, c: int|
                            0 <= r2 < row && 0 <= c < 8 ==> #[trigger] spec_cell_ok(
                                old(self),
                                self,
                                index as int,
                                palette,
                                tile_y as int,
                                tile_x as int,
                                r2,
                                c,
                            ),
                    decreases 8 - row,
                {
                    let address: u16 = index as u16 * 0x1000 + offset + row;
                    let mut tile_ls = self.ppu_read(address, false);
                    let mut tile_ms = self.ppu_read(address.wrapping_add(8), false);
                    let ghost ls0 = tile_ls;
                    let ghost ms0 = tile_ms;
                    proof {
                        crate::bit_facts::lemma_shr_step();
                    }
                    let mut column: u16 = 0;
                    while column < 8
                        invariant
                            old(self).wf(),
                            index < 2,
                            tile_y < 16,
                            tile_x < 16,
                            row < 8,
                            column <= 8,
                            address == index as u16 * 0x1000 + tile_y * 256 + tile_x * 16 + row,
                            ls0 == old(self).spec_ppu_read(address),
                            ms0 == old(self).spec_ppu_read((address + 8) as u16),
                            tile_ls == ls0 >> (column as u8),
                            tile_ms == ms0 >> (column as u8),
                            self.wf(),
                            *self == (PPU {
                                sprite_pattern_table: self.sprite_pattern_table,
                                ..*old(self)
                            }),
                            self.sprite_pattern_table@[1 - index as int]
                                == old(self).sprite_pattern_table@[1 - index as int],
                            forall|ty: int, tx: int, r: int, c: int|
                                0 <= ty < tile_y && 0 <= tx < 16 && 0 <= r < 8 && 0 <= c < 8
                                    ==> #[trigger] spec_cell_ok(
                                    old(self),
                                    self,
                                    index as int,
                                    palette,
                                    ty,
                                    tx,
                                    r,
                                    c,
                                ),
                            forall|tx2: int, r: int, c: int|
                                0 <= tx2 < tile_x && 0 <= r < 8 && 0 <= c < 8
                                    ==> #[trigger] spec_cell_ok(
                                    old(self),
                                    self,
                                    index as int,
                                    palette,
                                    tile_y as int,
                                    tx2,
                                    r,
                                    c,
                                ),
                            forall|r2: int, c: int|
                                0 <= r2 < row && 0 <= c < 8 ==> #[trigger] spec_cell_ok(
                                    old(self),
                                    self,
                                    index as int,
                                    palette,
                                    tile_y as int,
                                    tile_x as int,
                                    r2,
                                    c,
                                ),
                            forall|c: int|
                                0 <= c < column ==> #[trigger] spec_cell_ok(
                                    old(self),
                                    self,
                                    index as int,
                                    palette,
                                    tile_y as int,
                                    tile_x as int,
                                    row as int,
                                    c,
                                ),
                        decreases 8 - column,
                    {
                        proof {
                            crate::bit_facts::lemma_u8_mask_bounds();
                            crate::bit_facts::lemma_shr_step();
                        }
                        let pixel = (tile_ls & 0x01) + (tile_ms & 0x01);
                        tile_ls = tile_ls >> 1;
                        tile_ms = tile_ms >> 1;

                        let x: u16 = tile_x * 8 + (7 - column);
                        let y: u16 = tile_y * 8 + row;
                        let colour = self.get_colour(palette, pixel);
                        proof {
                            assert(pixel == spec_pattern_pixel(
                                old(self),
                                index as int,
                                tile_y as int,
                                tile_x as int,
                                row as int,
                                column as int,
                            ));
                            assert(colour == spec_pattern_colour(
                                old(self),
                                index as int,
                                palette,
                                tile_y as int,
                                tile_x as int,
                                row as int,
                                column as int,
                            ));
                        }
                        let ghost prev = *self;
                        self.write_pattern_pixel(x, y, colour, index as usize);
                        proof {
                            assert(spec_cell_ok(
                                old(self),
                                self,
                                index as int,
                                palette,
                                tile_y as int,
                                tile_x as int,
                                row as int,
                                column as int,
                            ));
                            assert forall|ty: int, tx: int, r: int, c: int|
                                0 <= ty < tile_y && 0 <= tx < 16 && 0 <= r < 8 && 0 <= c
                                    < 8 implies #[trigger] spec_cell_ok(
                                old(self),
                                self,
                                index as int,
                                palette,
                                ty,
                                tx,
                                r,
                                c,
                            ) by {
                                assert(spec_cell_ok(
                                    old(self),
                                    &prev,
                                    index as int,
                                    palette,
                                    ty,
                                    tx,
                                    r,
                                    c,
                                ));
                            }
                            assert forall|tx2: int, r: int, c: int|
                                0 <= tx2 < tile_x && 0 <= r < 8 && 0 <= c
                                    < 8 implies #[trigger] spec_cell_ok(
                                old(self),
                                self,
                                index as int,
                                palette,
                                tile_y as int,
                                tx2,
                                r,
                                c,
                            ) by {
                                assert(spec_cell_ok(
                                    old(self),
                                    &prev,
                                    index as int,
                                    palette,
                                    tile_y as int,
                                    tx2,
                                    r,
                                    c,
                                ));
                            }
                            assert forall|r2: int, c: int|
                                0 <= r2 < row && 0 <= c < 8 implies #[trigger] spec_cell_ok(
                                old(self),
                                self,
                                index as int,
                                palette,
                                tile_y as int,
                                tile_x as int,
                                r2,
                                c,
                            ) by {
                                assert(spec_cell_ok(
                                    old(self),
                                    &prev,
                                    index as int,
                                    palette,
                                    tile_y as int,
                                    tile_x as int,
                                    r2,
                                    c,
                                ));
                            }
                            assert forall|c: int|
                                0 <= c < column ==> #[trigger] spec_cell_ok(
                                old(self),
                                self,
                                index as int,
                                palette,
                                tile_y as int,
                                tile_x as int,
                                row as int,
                                c,
                            ) by {
                                if 0 <= c < column {
                                    assert(spec_cell_ok(
                                        old(self),
                                        &prev,
                                        index as int,
                                        palette,
                                        tile_y as int,
                                        tile_x as int,
                                        row as int,
                                        c,
                                    ));
                                }
                            }
                        }
                        column = column + 1;
                    }
                    row = row + 1;
                }
                tile_x = tile_x + 1;
            }
            tile_y = tile_y + 1;
        }
        return self.render_palette(index);
    }

    /// One background-fetch pipeline step: the shifters advance and the
    /// dot's phase fetches the nametable byte, attribute, or pattern
    /// plane, or increments coarse X.
    fn fetch_phase(&mut self)
        requires
            old(self).wf(),
        ensures
            final(self).wf(),
            spec_same_counters(old(self), final(self)),
            final(self).status == old(self).status,
    {
        proof {
            crate::bit_facts::lemma_u16_mask_bounds();
            crate::bit_facts::lemma_u8_mask_bounds();
            crate::bit_facts::lemma_shl_bounds();
            lemma_loopy_fields();
        }
        self.update_shifters();

        let phase = (self.cycle - 1) % 8;
        if phase == 0 {
            self.load_bg_shifters();
            let address = 0x2000u16 | (self.v_address_register.get() & 0x0FFF);
            self.bg_tile_id = self.ppu_read(address, false);
        } else if phase == 2 {
            let nty = self.v_address_register.nametable_y();
            let ntx = self.v_address_register.nametable_x();
            let cy = self.v_address_register.coarse_y();
            let cx = self.v_address_register.coarse_x();
            let address = 0x23C0u16 | ((nty as u16) << 11) | ((ntx as u16) << 10) | (((cy >> 2)
                as u16) << 3) | ((cx >> 2) as u16);
            self.bg_tile_attr = self.ppu_read(address, false);

            if (cy & 0x02) > 0 {
                self.bg_tile_attr = self.bg_tile_attr >> 4;
            }
            if (cx & 0x02) > 0 {
                self.bg_tile_attr = self.bg_tile_attr >> 2;
            }
            self.bg_tile_attr = self.bg_tile_attr & 0x03;
        } else if phase == 4 {
            let base: u16 = if self.controller.background_table() {
                0x1000
            } else {
                0x0000
            };
            let fy = self.v_address_register.fine_y() as u16;
            let address = base + ((self.bg_tile_id as u16) << 4) + fy;
            self.bg_tile_lsb = self.ppu_read(address, false);
        } else if phase == 6 {
            let base: u16 = if self.controller.background_table() {
                0x1000
            } else {
                0x0000
            };
            let fy = self.v_address_register.fine_y() as u16;
            let address = base + ((self.bg_tile_id as u16) << 4) + fy + 8;
            self.bg_tile_msb = self.ppu_read(address, false);
        } else if phase == 7 {
            self.scroll_x();
        }
    }

    /// Fetch the pattern bytes for every evaluated sprite of this
    /// scanline into the sprite shifters, honouring 8x8/8x16 addressing
    /// and vertical/horizontal flips.
    fn sprite_fetch_row(&mut self)
        requires
            old(self).wf(),
            old(self).scanline >= 0,
        ensures
            final(self).wf(),
            spec_same_counters(old(self), final(self)),
            final(self).status == old(self).status,
    {
        let ghost snap = *self;
        let n = self.oam_sprites.len();
        let mut i: usize = 0;
        while i < n
            invariant
                i <= n,
                snap.wf(),
                n == self.oam_sprites@.len(),
                self.sprite_shifter_low@.len() == 8,
                self.sprite_shifter_high@.len() == 8,
                *self == (PPU {
                    sprite_shifter_low: self.sprite_shifter_low,
                    sprite_shifter_high: self.sprite_shifter_high,
                    ..snap
                }),
            decreases n - i,
        {
            let spr = self.oam_sprites[i];
            let sl16: u16 = (self.scanline as u16).wrapping_sub(spr.y as u16);

            let mut sprite_address_low: u16;
            if !self.controller.sprite_size() {
                // 8x8 sprites
                let low: u16 = if self.controller.sprite_table() {
                    0x1000
                } else {
                    0x0000
                };
                let high: u16 = (spr.id as u16) << 4;
                if spr.attribute & 0x80 == 0 {
                    sprite_address_low = low | high | sl16;
                } else {
                    // vertically flipped
                    sprite_address_low = low | high | 7u16.wrapping_sub(sl16);
                }
            } else {
                // 8x16 sprites: the pattern table comes from bit 0 of the id
                let low: u16 = ((spr.id & 0x01) as u16) << 12;
                let sl7: u16 = sl16 & 0x07;
                let top: bool = sl16 < 8;
                let half: u16 = if top {
                    (spr.id & 0xFE) as u16
                } else {
                    (spr.id & 0xFE) as u16 + 1
                };
                let high: u16 = half << 4;
                if spr.attribute & 0x80 == 0 {
                    sprite_address_low = low | high | sl7;
                } else {
                    sprite_address_low = low | high | 7u16.wrapping_sub(sl7);
                }
            }

            let sprite_address_high: u16 = sprite_address_low.wrapping_add(8);
            let mut sprite_bits_low = self.ppu_read(sprite_address_low, false);
            let mut sprite_bits_high = self.ppu_read(sprite_address_high, false);

            if (spr.attribute & 0x40) > 0 {
                // horizontally flipped
                sprite_bits_low = reverse_bits(sprite_bits_low);
                sprite_bits_high = reverse_bits(sprite_bits_high);
            }

            self.sprite_shifter_low.set(i, sprite_bits_low);
            self.sprite_shifter_high.set(i, sprite_bits_high);
            i = i + 1;
        }
    }

}

/// The two-bit background pixel selected by fine X from the pattern
/// shifters; zero while backgrounds are hidden.
pub open spec fn spec_bg_pixel(p: &PPU) -> u8 {
    if bit_get(p.mask.0, 0x08) {
        (((if p.bg_shifter_msb & (0x8000u16 >> (p.fine_x as u16)) > 0 {
            1u8
        } else {
            0u8
        }) << 1) | (if p.bg_shifter_lsb & (0x8000u16 >> (p.fine_x as u16)) > 0 {
            1u8
        } else {
            0u8
        })) as u8
    } else {
        0
    }
}

/// The two-bit pixel at the head of sprite slot `i`'s pattern shifters.
pub open spec fn spec_spr_pixel(p: &PPU, i: int) -> u8 {
    (((if p.sprite_shifter_high@[i] & 0x80 > 0 {
        1u8
    } else {
        0u8
    }) << 1) | (if p.sprite_shifter_low@[i] & 0x80 > 0 {
        1u8
    } else {
        0u8
    })) as u8
}

/// Sprite-zero hit fires at this dot: backgrounds and sprites are both
/// shown, OAM slot 0 entered this scanline's evaluation, the slot-0
/// sprite is active at this X with an opaque pixel over an opaque
/// background pixel, and the dot lies in the eligible window (from dot 1,
/// or dot 9 when both left-edge mask bits are clear, through dot 257).
pub open spec fn spec_sprite0_hits(p: &PPU) -> bool {
    &&& bit_get(p.mask.0, 0x08) && bit_get(p.mask.0, 0x10)
    &&& p.sprite_zero_hit
    &&& p.oam_sprites@.len() > 0
    &&& p.oam_sprites@[0].x == 0
    &&& spec_spr_pixel(p, 0) != 0
    &&& spec_bg_pixel(p) != 0
    &&& (if !(bit_get(p.mask.0, 0x02) || bit_get(p.mask.0, 0x04)) {
        9 <= p.cycle < 258
    } else {
        1 <= p.cycle < 258
    })
}

impl PPU {
    /// Compose one pixel: pick the background pixel under fine X, the
    /// first opaque sprite pixel, multiplex them by priority, detect
    /// sprite-0 hit, and draw the winner.
    fn compose_pixel(&mut self)
        requires
            old(self).wf(),
        ensures
            final(self).wf(),
            spec_same_counters(old(self), final(self)),
            bit_get(final(self).status.0, 0x80) == bit_get(old(self).status.0, 0x80),
            bit_get(final(self).status.0, 0x20) == bit_get(old(self).status.0, 0x20),
            // sprite-zero hit: the bit rises at this dot exactly under the
            // opaque-overlap condition, and never falls here
            bit_get(final(self).status.0, 0x40) && !bit_get(old(self).status.0, 0x40)
                ==> spec_sprite0_hits(old(self)),
            bit_get(old(self).status.0, 0x40) || spec_sprite0_hits(old(self))
                ==> bit_get(final(self).status.0, 0x40),
            !bit_get(old(self).status.0, 0x40) && !spec_sprite0_hits(old(self))
                ==> !bit_get(final(self).status.0, 0x40),
    {
        proof {
            crate::bit_facts::lemma_u8_mask_bounds();
            crate::bit_facts::lemma_bit_put();
        }
        let mut background_pixel: u8 = 0x00;
        let mut background_palette: u8 = 0x00;

        if self.mask.show_background() {
            let bit_mask: u16 = 0x8000u16 >> (self.fine_x as u16);
            let plane_0: u8 = if (self.bg_shifter_lsb & bit_mask) > 0 {
                1
            } else {
                0
            };
            let plane_1: u8 = if (self.bg_shifter_msb & bit_mask) > 0 {
                1
            } else {
                0
            };
            background_pixel = (plane_1 << 1) | plane_0;

            let palette_0: u8 = if (self.bg_shifter_attr_low & bit_mask) > 0 {
                1
            } else {
                0
            };
            let palette_1: u8 = if (self.bg_shifter_attr_high & bit_mask) > 0 {
                1
            } else {
                0
            };
            background_palette = (palette_1 << 1) | palette_0;
        }

        let mut sprite_pixel: u8 = 0x00;
        let mut sprite_pal: u8 = 0x00;
        let mut sprite_z_buffer: u8 = 0x00;

        if self.mask.show_sprites() {
            self.sprite_zero_rendered = false;
            let n = self.oam_sprites.len();
            let mut i: usize = 0;
            let mut found: bool = false;
            while i < n && !found
                invariant
                    old(self).wf(),
                    i <= n,
                    n == self.oam_sprites@.len(),
                    *self == (PPU {
                        sprite_zero_rendered: self.sprite_zero_rendered,
                        ..*old(self)
                    }),
                    i == 0 ==> !self.sprite_zero_rendered,
                    i > 0 ==> self.sprite_zero_rendered == (old(self).oam_sprites@[0].x == 0
                        && spec_spr_pixel(old(self), 0) != 0),
                    self.sprite_zero_rendered ==> found,
                    found ==> sprite_pixel != 0,
                    found ==> i > 0,
                decreases n - i,
            {
                proof {
                    crate::bit_facts::lemma_u8_mask_bounds();
                }
                if self.oam_sprites[i].x == 0 {
                    let sp_pixel_low: u8 = if (self.sprite_shifter_low[i] & 0x80) > 0 {
                        1
                    } else {
                        0
                    };
                    let sp_pixel_high: u8 = if (self.sprite_shifter_high[i] & 0x80) > 0 {
                        1
                    } else {
                        0
                    };
                    sprite_pixel = (sp_pixel_high << 1) | sp_pixel_low;
                    sprite_pal = (self.oam_sprites[i].attribute & 0x03) + 0x04;
                    sprite_z_buffer = if (self.oam_sprites[i].attribute & 0x20) == 0 {
                        1
                    } else {
                        0
                    };

                    if sprite_pixel != 0 {
                        if i == 0 {
                            self.sprite_zero_rendered = true;
                        }
                        found = true;
                    }
                }
                i = i + 1;
            }
            proof {
                if old(self).oam_sprites@.len() > 0 {
                    assert(n > 0);
                    assert(i > 0);
                    assert(self.sprite_zero_rendered == (old(self).oam_sprites@[0].x == 0
                        && spec_spr_pixel(old(self), 0) != 0));
                } else {
                    assert(!self.sprite_zero_rendered);
                }
                assert(self.sprite_zero_rendered == (old(self).oam_sprites@.len() > 0
                    && old(self).oam_sprites@[0].x == 0 && spec_spr_pixel(old(self), 0) != 0));
                assert(self.sprite_zero_rendered ==> sprite_pixel != 0);
            }
        }

        let mut final_pixel: u8 = 0x00;
        let mut final_palette: u8 = 0x00;

        if background_pixel == 0 && sprite_pixel == 0 {
            final_pixel = 0x00;
            final_palette = 0x00;
        } else if background_pixel == 0 && sprite_pixel > 0 {
            final_pixel = sprite_pixel;
            final_palette = sprite_pal;
        } else if background_pixel > 0 && sprite_pixel == 0 {
            final_pixel = background_pixel;
            final_palette = background_palette;
        } else {
            if sprite_z_buffer > 0 {
                final_pixel = sprite_pixel;
                final_palette = sprite_pal;
            } else {
                final_pixel = background_pixel;
                final_palette = background_palette;
            }

            if self.sprite_zero_hit && self.sprite_zero_rendered {
                if self.mask.show_background() && self.mask.show_sprites() {
                    if !(self.mask.show_background_left() || self.mask.show_sprites_left()) {
                        if self.cycle >= 9 && self.cycle < 258 {
                            self.status.set_sprite_0(true);
                        }
                    } else {
                        if self.cycle >= 1 && self.cycle < 258 {
                            self.status.set_sprite_0(true);
                        }
                    }
                }
            }
        }

        proof {
            // under the hit condition the slot-0 search found its opaque
            // pixel, so the multiplex set the bit
            if !bit_get(old(self).status.0, 0x40) && spec_sprite0_hits(old(self)) {
                assert(self.sprite_zero_rendered);
                assert(bit_get(self.status.0, 0x40));
            }
        }
        let colour = self.get_colour(final_palette, final_pixel);
        let px = self.cycle - 1;
        let py = self.scanline;
        self.draw_pixel(px, py, colour);
    }

    /// Advance the PPU by one dot: run the background fetch pipeline and
    /// sprite evaluation on the visible and pre-render lines, raise vblank
    /// (and NMI, if enabled) at dot 1 of line 241, clear the status bits at
    /// dot 1 of the pre-render line, compose one pixel, and step the
    /// dot/scanline counters, signalling `frame_complete` at the wrap.
    #[verifier::rlimit(100)]
    pub fn clock(&mut self)
        requires
            old(self).wf(),
        ensures
            final(self).wf(),
            final(self).dot_count == old(self).dot_count.wrapping_add(1),
            old(self).frame_complete ==> final(self).frame_complete,
            !final(self).frame_complete ==> final(self).spec_pos() > old(self).spec_pos(),
            final(self).oam_ram == old(self).oam_ram,
            final(self).controller == old(self).controller,
            final(self).mask == old(self).mask,
            final(self).oam_address_port == old(self).oam_address_port,
            final(self).data_buffer == old(self).data_buffer,
            final(self).address_latch == old(self).address_latch,
            ({
                let c1: int = if old(self).scanline == 0 && old(self).cycle == 0 {
                    1int
                } else {
                    old(self).cycle as int
                };
                &&& (c1 < 340 ==> final(self).cycle == c1 + 1
                    && final(self).scanline == old(self).scanline
                    && final(self).frame_complete == old(self).frame_complete)
                &&& (c1 == 340 ==> final(self).cycle == 0 && ((old(self).scanline < 260
                    && final(self).scanline == old(self).scanline + 1
                    && final(self).frame_complete == old(self).frame_complete)
                    || (old(self).scanline == 260 && final(self).scanline == -1
                    && final(self).frame_complete)))
            }),
            old(self).scanline == 241 && old(self).cycle == 1 ==> bit_get(
                final(self).status.0,
                0x80,
            ) && final(self).nmi_enabled == (old(self).nmi_enabled || bit_get(
                old(self).controller.0,
                0x80,
            )),
            !(old(self).scanline == 241 && old(self).cycle == 1) ==> final(self).nmi_enabled
                == old(self).nmi_enabled,
            old(self).scanline == -1 && old(self).cycle == 1 ==> !bit_get(
                final(self).status.0,
                0x80,
            ) && !bit_get(final(self).status.0, 0x40) && !bit_get(final(self).status.0, 0x20),
            // the vblank flag changes only at its two stated dots
            !(old(self).scanline == 241 && old(self).cycle == 1) && !(old(self).scanline == -1
                && old(self).cycle == 1) ==> bit_get(final(self).status.0, 0x80) == bit_get(
                old(self).status.0,
                0x80,
            ),
            // sprite-zero hit rises only inside the eligible dot window with
            // backgrounds and sprites both shown, and falls only at the
            // pre-render clear
            bit_get(final(self).status.0, 0x40) && !bit_get(old(self).status.0, 0x40) ==> ({
                let c1: int = if old(self).scanline == 0 && old(self).cycle == 0 {
                    1int
                } else {
                    old(self).cycle as int
                };
                &&& bit_get(old(self).mask.0, 0x08) && bit_get(old(self).mask.0, 0x10)
                &&& 1 <= c1 < 258
                &&& (!(bit_get(old(self).mask.0, 0x02) || bit_get(old(self).mask.0, 0x04))
                    ==> c1 >= 9)
            }),
            !bit_get(final(self).status.0, 0x40) && bit_get(old(self).status.0, 0x40)
                ==> old(self).scanline == -1 && old(self).cycle == 1,
            // sprite overflow rises only at the evaluation dot of a visible
            // line, and falls only at the pre-render clear
            bit_get(final(self).status.0, 0x20) && !bit_get(old(self).status.0, 0x20)
                ==> old(self).cycle == 257 && old(self).scanline >= 0,
            !bit_get(final(self).status.0, 0x20) && bit_get(old(self).status.0, 0x20)
                ==> old(self).scanline == -1 && old(self).cycle == 1,
    {
        proof {
            crate::bit_facts::lemma_bit_put();
            crate::bit_facts::lemma_zero_and();
        }
        if self.scanline >= -1 && self.scanline < 240 {
            if self.scanline == 0 && self.cycle == 0 {
                self.cycle = 1;
            }

            if self.scanline == -1 && self.cycle == 1 {
                self.status.set_vblank(false);
                self.status.set_sprite_0(false);
                self.status.set_sprite_overflow(false);

                let ghost snap = *self;
                let mut i: usize = 0;
                while i < 8
                    invariant
                        i <= 8,
                        self.sprite_shifter_low@.len() == 8,
                        self.sprite_shifter_high@.len() == 8,
                        forall|j: int| 0 <= j < i ==> self.sprite_shifter_low@[j] == 0,
                        forall|j: int| 0 <= j < i ==> self.sprite_shifter_high@[j] == 0,
                        *self == (PPU {
                            sprite_shifter_low: self.sprite_shifter_low,
                            sprite_shifter_high: self.sprite_shifter_high,
                            ..snap
                        }),
                    decreases 8 - i,
                {
                    self.sprite_shifter_low.set(i, 0);
                    self.sprite_shifter_high.set(i, 0);
                    i = i + 1;
                }
            }

            if (self.cycle >= 2 && self.cycle < 258) || (self.cycle >= 321 && self.cycle < 338) {
                self.fetch_phase();
            }
            if self.cycle == 256 {
                self.scroll_y();
            }
            if self.cycle == 257 {
                self.load_bg_shifters();
                self.reset_x();
            }
            if self.cycle == 338 || self.cycle == 340 {
                proof {
                    crate::bit_facts::lemma_u16_mask_bounds();
                }
                let address = 0x2000u16 | (self.v_address_register.get() & 0x0FFF);
                self.bg_tile_id = self.ppu_read(address, false);
            }
            if self.scanline == -1 && self.cycle >= 280 && self.cycle < 305 {
                self.reset_y();
            }

            if self.cycle == 257 && self.scanline >= 0 {
                let ghost snap = *self;
                let mut i: usize = 0;
                while i < 8
                    invariant
                        i <= 8,
                        self.sprite_shifter_low@.len() == 8,
                        self.sprite_shifter_high@.len() == 8,
                        *self == (PPU {
                            sprite_shifter_low: self.sprite_shifter_low,
                            sprite_shifter_high: self.sprite_shifter_high,
                            ..snap
                        }),
                    decreases 8 - i,
                {
                    self.sprite_shifter_low.set(i, 0);
                    self.sprite_shifter_high.set(i, 0);
                    i = i + 1;
                }
                self.evaluate_sprites();
            }
            if self.cycle == 340 && self.scanline >= 0 {
                self.sprite_fetch_row();
            }
        }

        if self.scanline == 241 && self.cycle == 1 {
            self.status.set_vblank(true);
            if self.controller.generate_nmi() {
                self.nmi_enabled = true;
            }
        }

        proof {
            if old(self).scanline == -1 && old(self).cycle == 1 {
                // the zeroed slot-0 shifters rule out a sprite-zero hit on
                // the pre-render clearing dot
                assert(self.sprite_shifter_low@[0] == 0);
                assert(!spec_sprite0_hits(&*self));
            }
        }
        self.compose_pixel();

        self.dot_count = self.dot_count.wrapping_add(1);
        self.cycle = self.cycle + 1;
        if self.cycle >= 341 {
            self.cycle = 0;
            self.scanline = self.scanline + 1;

            if self.scanline >= 261 {
                self.scanline = -1;
                self.frame_complete = true;
            }
        }
    }
}

/// The parts of the PPU that one pipeline step never touches: the frame
/// and dot counters, OAM, and the CPU-facing registers and latches.
pub open spec fn spec_same_counters(a: &PPU, b: &PPU) -> bool {
    &&& b.scanline == a.scanline
    &&& b.cycle == a.cycle
    &&& b.frame_complete == a.frame_complete
    &&& b.dot_count == a.dot_count
    &&& b.oam_ram == a.oam_ram
    &&& b.controller == a.controller
    &&& b.mask == a.mask
    &&& b.oam_address_port == a.oam_address_port
    &&& b.data_buffer == a.data_buffer
    &&& b.address_latch == a.address_latch
    &&& b.nmi_enabled == a.nmi_enabled
}

/// How a register-interface read changes the PPU and what it returns.
pub open spec fn spec_reg_read_rel(pre: &PPU, post: &PPU, address: u16, data: u8) -> bool {
    &&& (

            address == 0x0002 ==> data == (pre.status.0 & 0xE0) | (pre.data_buffer
                & 0x1F) && *post == (PPU {
                status: Status(bit_put(pre.status.0, 0x80, false)),
                address_latch: 0,
                ..*pre
            })
    )
    &&& (
            address == 0x0004 ==> data == pre.oam_ram@[pre.oam_address_port as int]
                && *post == *pre
    )
    &&& (
            address == 0x0007 ==> ({
                let v = pre.v_address_register.0;
                let fetched = pre.spec_ppu_read(v);
                &&& data == (if v >= 0x3F00 {
                    fetched
                } else {
                    pre.data_buffer
                })
                &&& *post == (PPU {
                    data_buffer: fetched,
                    v_address_register: Address(
                        (v.wrapping_add(
                            if bit_get(pre.controller.0, 0x04) {
                                32
                            } else {
                                1
                            },
                        ) & 0x7FFF) as u16,
                    ),
                    ..*pre
                })
            })
    )
    &&& (
            !(address == 0x0002 || address == 0x0004 || address == 0x0007) ==> data == 0
                && *post == *pre
    )
}

/// How a register-interface write changes the PPU.
pub open spec fn spec_reg_write_rel(pre: &PPU, post: &PPU, address: u16, data: u8) -> bool {
    &&& (

            address == 0x0000 ==> *post == (PPU {
                controller: Controller(data),
                t_address_register: Address(
                    spec_set_nt_y(
                        spec_set_nt_x(
                            pre.t_address_register.0,
                            if bit_get(data, 0x01) {
                                1
                            } else {
                                0
                            },
                        ),
                        if bit_get(data, 0x02) {
                            1
                        } else {
                            0
                        },
                    ),
                ),
                ..*pre
            })
    )
    &&& (
            address == 0x0001 ==> *post == (PPU { mask: Mask(data), ..*pre })
    )
    &&& (
            address == 0x0003 ==> *post == (PPU { oam_address_port: data, ..*pre })
    )
    &&& (
            address == 0x0004 ==> post.oam_ram@ == pre.oam_ram@.update(
                pre.oam_address_port as int,
                data,
            ) && *post == (PPU { oam_ram: post.oam_ram, ..*pre })
    )
    &&& (
            address == 0x0005 && pre.address_latch == 0 ==> *post == (PPU {
                fine_x: (data & 0x07) as u8,
                t_address_register: Address(
                    spec_set_coarse_x(pre.t_address_register.0, (data >> 3) as u8),
                ),
                address_latch: 1,
                ..*pre
            })
    )
    &&& (
            address == 0x0005 && pre.address_latch != 0 ==> *post == (PPU {
                t_address_register: Address(
                    spec_set_coarse_y(
                        spec_set_fine_y(pre.t_address_register.0, (data & 0x07) as u8),
                        (data >> 3) as u8,
                    ),
                ),
                address_latch: 0,
                ..*pre
            })
    )
    &&& (
            address == 0x0006 && pre.address_latch == 0 ==> *post == (PPU {
                t_address_register: Address(
                    ((((data & 0x3F) as u16) << 8) | (pre.t_address_register.0
                        & 0x00FF)) as u16,
                ),
                address_latch: 1,
                ..*pre
            })
    )
    &&& (
            address == 0x0006 && pre.address_latch != 0 ==> ({
                let t = ((pre.t_address_register.0 & 0xFF00) | data as u16) as u16;
                *post == (PPU {
                    t_address_register: Address(t),
                    v_address_register: Address(t),
                    address_latch: 0,
                    ..*pre
                })
            })
    )
    &&& (
            address == 0x0007 ==> ({
                let v = pre.v_address_register.0;
                let mid = PPU {
                    v_address_register: pre.v_address_register,
                    ..*post
                };
                &&& pre.spec_ppu_write_rel(&mid, v, data)
                &&& post.v_address_register.0 == (v.wrapping_add(
                    if bit_get(pre.controller.0, 0x04) {
                        32
                    } else {
                        1
                    },
                ) & 0x7FFF)
            })
    )
    &&& (
            !(address == 0x0000 || address == 0x0001 || address == 0x0003 || address == 0x0004
                || address == 0x0005 || address == 0x0006 || address == 0x0007) ==> *post
                == *pre
    )
}

/// Palette mirroring: for every aliased entry, a PPU-space read of
/// `$3F00 | a` with `a` in `{$10, $14, $18, $1C}` returns the same byte
/// as a read of `$3F00 | (a & !$10)`.
pub proof fn lemma_palette_mirror(p: &PPU, a: u16)
    requires
        a == 0x10 || a == 0x14 || a == 0x18 || a == 0x1C,
    ensures
        p.spec_ppu_read((0x3F00 | a) as u16) == p.spec_ppu_read((0x3F00 | (a & 0xFFEF)) as u16),
{
    assert((0x3F00u16 | 0x10) == 0x3F10 && (0x10u16 & 0xFFEF) == 0x0000 && (0x3F00u16 | 0x0000)
        == 0x3F00 && (0x3F10u16 & 0x3FFF) == 0x3F10 && (0x3F00u16 & 0x3FFF) == 0x3F00 && (
    0x3F10u16 & 0x001F) == 0x0010 && (0x3F00u16 & 0x001F) == 0x0000 && (0x3F00u16 | 0x14)
        == 0x3F14 && (0x14u16 & 0xFFEF) == 0x0004 && (0x3F00u16 | 0x0004) == 0x3F04 && (
    0x3F14u16 & 0x3FFF) == 0x3F14 && (0x3F04u16 & 0x3FFF) == 0x3F04 && (0x3F14u16 & 0x001F)
        == 0x0014 && (0x3F04u16 & 0x001F) == 0x0004 && (0x3F00u16 | 0x18) == 0x3F18 && (0x18u16
        & 0xFFEF) == 0x0008 && (0x3F00u16 | 0x0008) == 0x3F08 && (0x3F18u16 & 0x3FFF) == 0x3F18
        && (0x3F08u16 & 0x3FFF) == 0x3F08 && (0x3F18u16 & 0x001F) == 0x0018 && (0x3F08u16
        & 0x001F) == 0x0008 && (0x3F00u16 | 0x1C) == 0x3F1C && (0x1Cu16 & 0xFFEF) == 0x000C && (
    0x3F00u16 | 0x000C) == 0x3F0C && (0x3F1Cu16 & 0x3FFF) == 0x3F1C && (0x3F0Cu16 & 0x3FFF)
        == 0x3F0C && (0x3F1Cu16 & 0x001F) == 0x001C && (0x3F0Cu16 & 0x001F) == 0x000C) by (bit_vector);
    match p.cartridge {
        Some(c) => {
            match c.mapper {
                crate::cartridge::MapperKind::Nrom(m) => {},
                crate::cartridge::MapperKind::Mmc1(m) => {},
                crate::cartridge::MapperKind::Uxrom(m) => {},
            }
        },
        None => {},
    }
}

} // verus!
