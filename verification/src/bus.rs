//! The memory bus: address-decodes CPU accesses to RAM, PPU registers,
//! APU registers, controller latches, OAM DMA and the cartridge, drives
//! the per-system clock, and latches the NMI/IRQ lines.

use vstd::prelude::*;
use crate::apu::{spec_apu_write_rel, APU};
use crate::cartridge::Cartridge;
use crate::mapper::Mapper;
use crate::ppu::{spec_reg_read_rel, spec_reg_write_rel, PPU};

verus! {

pub struct Bus {
    /// With a cartridge attached only the first 2 KiB (mirrored through
    /// `$1FFF`) are decoded; with none attached the whole 64 KiB vector
    /// backs every otherwise-unmapped address, so the CPU can run small
    /// programs without a cartridge.
    pub ram: Vec<u8>,
    pub ppu: PPU,
    pub apu: APU,
    pub system_clock: u32,

    pub controller: Vec<u8>,
    pub controller_state: Vec<u8>,
    pub nmi_required: bool,
    pub irq_required: bool,
    pub dma_page: u8,
    pub dma_address: u8,
    pub dma_data: u8,
    pub dma_transfer: bool,
    pub dma_buffer: bool,
}

impl Bus {
    pub open spec fn wf(&self) -> bool {
        &&& self.ram@.len() == 65536
        &&& self.ppu.wf()
        &&& self.apu.wf()
        &&& self.controller@.len() == 2
        &&& self.controller_state@.len() == 2
        &&& (!self.dma_transfer ==> self.dma_buffer)
    }

    pub fn new() -> (b: Bus)
        ensures
            b.wf(),
            b.ram@ == Seq::<u8>::new(65536, |i: int| 0u8),
            b.ppu.cartridge is None,
            b.system_clock == 0,
            b.controller@ == seq![0u8, 0u8],
            b.controller_state@ == seq![0u8, 0u8],
            b.nmi_required == false,
            b.irq_required == false,
            b.dma_page == 0,
            b.dma_address == 0,
            b.dma_data == 0,
            b.dma_transfer == false,
            b.dma_buffer == true,
            b.apu.cycles == 0,
            b.ppu.dot_count == 0,
            b.apu.global_time == 0,
    {
        let ppu = PPU::new();
        let apu = APU::new();
        let ram: Vec<u8> = vec![0u8; 65536];
        let controller: Vec<u8> = vec![0u8; 2];
        let controller_state: Vec<u8> = vec![0u8; 2];
        proof {
            assert(ram@ =~= Seq::<u8>::new(65536, |i: int| 0u8));
            assert(controller@ =~= seq![0u8, 0u8]);
            assert(controller_state@ =~= seq![0u8, 0u8]);
        }
        Bus {
            ram,
            ppu,
            apu,
            system_clock: 0,
            controller,
            controller_state,
            nmi_required: false,
            irq_required: false,
            dma_page: 0x00,
            dma_address: 0x00,
            dma_data: 0x00,
            dma_transfer: false,
            dma_buffer: true,
        }
    }

    pub fn connect_cartridge(&mut self, cartridge: Cartridge)
        requires
            old(self).wf(),
            cartridge.wf(),
        ensures
            final(self).wf(),
            final(self).ppu.cartridge == Some(cartridge),
            *final(self) == (Bus { ppu: final(self).ppu, ..*old(self) }),
            final(self).ppu == (PPU { cartridge: Some(cartridge), ..old(self).ppu }),
    {
        self.ppu.connect_cartridge(cartridge);
    }

    /// How a CPU read decodes when the cartridge does not claim it:
    /// mirrored RAM below `$2000`, the PPU registers through `$3FFF`, the
    /// controller shift latches at `$4016/$4017` (popping the MSB and
    /// shifting a 1 in from the right), zero for the rest of the I/O
    /// range, and — only with no cartridge attached — plain RAM above.
    pub open spec fn spec_read_open(
        pre: &Bus,
        post: &Bus,
        address: u16,
        data: u8,
        has_cart: bool,
    ) -> bool {
        if address <= 0x1FFF {
            data == pre.ram@[(address & 0x07FF) as int] && *post == *pre
        } else if address <= 0x3FFF {
            &&& spec_reg_read_rel(&pre.ppu, &post.ppu, (address & 0x0007) as u16, data)
            &&& *post == (Bus { ppu: post.ppu, ..*pre })
        } else if address == 0x4016 || address == 0x4017 {
            let idx = (address & 1) as int;
            &&& data == (if pre.controller_state@[idx] & 0x80 != 0 {
                1u8
            } else {
                0u8
            })
            &&& post.controller_state@ == pre.controller_state@.update(
                idx,
                ((pre.controller_state@[idx] << 1) | 1) as u8,
            )
            &&& *post == (Bus { controller_state: post.controller_state, ..*pre })
        } else if address <= 0x401F {
            data == 0 && *post == *pre
        } else {
            if has_cart {
                data == 0 && *post == *pre
            } else {
                data == pre.ram@[address as int] && *post == *pre
            }
        }
    }

    /// How a CPU read decodes: the cartridge is consulted first.
    pub open spec fn spec_read_rel(pre: &Bus, post: &Bus, address: u16, data: u8) -> bool {
        match pre.ppu.cartridge {
            Some(c) => match c.spec_cpu_read(address) {
                Some(d) => data == d && *post == *pre,
                None => Bus::spec_read_open(pre, post, address, data, true),
            },
            None => Bus::spec_read_open(pre, post, address, data, false),
        }
    }

    #[verifier::rlimit(100)]
    pub fn cpu_read(&mut self, address: u16, read_only: bool) -> (data: u8)
        requires
            old(self).wf(),
        ensures
            final(self).wf(),
            Bus::spec_read_rel(old(self), final(self), address, data),
    {
        proof {
            crate::bit_facts::lemma_u16_mask_bounds();
        }
        let mut cart_data: u8 = 0;
        let handled = match &mut self.ppu.cartridge {
            Some(c) => c.cpu_read(address, &mut cart_data),
            None => false,
        };
        if handled {
            return cart_data;
        }
        let has_cart = match &self.ppu.cartridge {
            Some(_) => true,
            None => false,
        };
        if address <= 0x1FFF {
            return self.ram[(address & 0x07FF) as usize];
        } else if address <= 0x3FFF {
            return self.ppu.cpu_read(address & 0x0007, read_only);
        } else if address == 0x4016 || address == 0x4017 {
            let idx = (address & 1) as usize;
            let state = self.controller_state[idx];
            let data: u8 = if state & 0x80 != 0 {
                1
            } else {
                0
            };
            self.controller_state.set(idx, (state << 1) | 1);
            return data;
        } else if address <= 0x401F {
            return 0;
        } else {
            if has_cart {
                return 0;
            }
            return self.ram[address as usize];
        }
    }

    /// How a CPU write decodes with no cartridge attached: mirrored RAM
    /// below `$2000`, the PPU registers through `$3FFF`, the APU
    /// registers (`$4000-$4013`, `$4015`, `$4017`), the OAM DMA trigger
    /// at `$4014`, the controller strobe at `$4016` (copying both live
    /// controller bytes into the shift latches), and plain RAM above the
    /// I/O range.
    pub open spec fn spec_write_open(pre: &Bus, post: &Bus, address: u16, data: u8) -> bool {
        if address <= 0x1FFF {
            &&& post.ram@ == pre.ram@.update((address & 0x07FF) as int, data)
            &&& *post == (Bus { ram: post.ram, ..*pre })
        } else if address <= 0x3FFF {
            &&& spec_reg_write_rel(&pre.ppu, &post.ppu, (address & 0x0007) as u16, data)
            &&& *post == (Bus { ppu: post.ppu, ..*pre })
        } else if address <= 0x4013 || address == 0x4015 || address == 0x4017 {
            &&& spec_apu_write_rel(&pre.apu, &post.apu, address, data)
            &&& *post == (Bus { apu: post.apu, ..*pre })
        } else if address == 0x4014 {
            *post == (Bus { dma_page: data, dma_address: 0, dma_transfer: true, ..*pre })
        } else if address == 0x4016 {
            &&& post.controller_state@ == seq![pre.controller@[0], pre.controller@[1]]
            &&& *post == (Bus { controller_state: post.controller_state, ..*pre })
        } else if address <= 0x401F {
            *post == *pre
        } else {
            &&& post.ram@ == pre.ram@.update(address as int, data)
            &&& *post == (Bus { ram: post.ram, ..*pre })
        }
    }

    /// How a CPU write decodes with a cartridge attached: the mapper sees
    /// the write first and may consume it; otherwise the open decode
    /// applies (with writes above the I/O range dropped), on top of
    /// whatever the mapper's own state became.
    pub open spec fn spec_write_rel(pre: &Bus, post: &Bus, address: u16, data: u8) -> bool {
        match pre.ppu.cartridge {
            Some(c) => if c.spec_cpu_write_handled(address, data) {
                &&& (post.ppu.cartridge matches Some(c2) && c.spec_cpu_write_rel(
                    &c2,
                    address,
                    data,
                ))
                &&& post.ppu == (PPU { cartridge: post.ppu.cartridge, ..pre.ppu })
                &&& *post == (Bus { ppu: post.ppu, ..*pre })
            } else if address <= 0x1FFF {
                &&& (post.ppu.cartridge matches Some(c2) && c.spec_cpu_write_rel(
                    &c2,
                    address,
                    data,
                ))
                &&& post.ppu == (PPU { cartridge: post.ppu.cartridge, ..pre.ppu })
                &&& post.ram@ == pre.ram@.update((address & 0x07FF) as int, data)
                &&& *post == (Bus { ram: post.ram, ppu: post.ppu, ..*pre })
            } else if address <= 0x3FFF {
                &&& (exists|mid: Cartridge|
                    c.spec_cpu_write_rel(&mid, address, data) && #[trigger] spec_reg_write_rel(
                        &(PPU { cartridge: Some(mid), ..pre.ppu }),
                        &post.ppu,
                        (address & 0x0007) as u16,
                        data,
                    ))
                &&& *post == (Bus { ppu: post.ppu, ..*pre })
            } else if address <= 0x4013 || address == 0x4015 || address == 0x4017 {
                &&& (post.ppu.cartridge matches Some(c2) && c.spec_cpu_write_rel(
                    &c2,
                    address,
                    data,
                ))
                &&& post.ppu == (PPU { cartridge: post.ppu.cartridge, ..pre.ppu })
                &&& spec_apu_write_rel(&pre.apu, &post.apu, address, data)
                &&& *post == (Bus { ppu: post.ppu, apu: post.apu, ..*pre })
            } else if address == 0x4014 {
                &&& (post.ppu.cartridge matches Some(c2) && c.spec_cpu_write_rel(
                    &c2,
                    address,
                    data,
                ))
                &&& post.ppu == (PPU { cartridge: post.ppu.cartridge, ..pre.ppu })
                &&& *post == (Bus {
                    ppu: post.ppu,
                    dma_page: data,
                    dma_address: 0,
                    dma_transfer: true,
                    ..*pre
                })
            } else if address == 0x4016 {
                &&& (post.ppu.cartridge matches Some(c2) && c.spec_cpu_write_rel(
                    &c2,
                    address,
                    data,
                ))
                &&& post.ppu == (PPU { cartridge: post.ppu.cartridge, ..pre.ppu })
                &&& post.controller_state@ == seq![pre.controller@[0], pre.controller@[1]]
                &&& *post == (Bus {
                    ppu: post.ppu,
                    controller_state: post.controller_state,
                    ..*pre
                })
            } else {
                &&& (post.ppu.cartridge matches Some(c2) && c.spec_cpu_write_rel(
                    &c2,
                    address,
                    data,
                ))
                &&& post.ppu == (PPU { cartridge: post.ppu.cartridge, ..pre.ppu })
                &&& *post == (Bus { ppu: post.ppu, ..*pre })
            },
            None => Bus::spec_write_open(pre, post, address, data),
        }
    }

    #[verifier::rlimit(100)]
    pub fn cpu_write(&mut self, address: u16, data: &mut u8)
        requires
            old(self).wf(),
        ensures
            final(self).wf(),
            *final(data) == *old(data),
            Bus::spec_write_rel(old(self), final(self), address, *old(data)),
    {
        proof {
            crate::bit_facts::lemma_u16_mask_bounds();
        }
        let d: u8 = *data;
        let handled = match &mut self.ppu.cartridge {
            Some(c) => c.cpu_write(address, d),
            None => false,
        };
        let ghost mid = *self;
        if handled {
            return ;
        }
        let has_cart = match &self.ppu.cartridge {
            Some(_) => true,
            None => false,
        };
        if address <= 0x1FFF {
            self.ram.set((address & 0x07FF) as usize, d);
        } else if address <= 0x3FFF {
            self.ppu.cpu_write(address & 0x0007, d);
            proof {
                if old(self).ppu.cartridge is Some {
                    let midcart = mid.ppu.cartridge->Some_0;
                    assert(mid.ppu == (PPU { cartridge: Some(midcart), ..old(self).ppu }));
                }
            }
        } else if address <= 0x4013 || address == 0x4015 {
            self.apu.cpu_write(address, d);
        } else if address == 0x4014 {
            self.dma_page = d;
            self.dma_address = 0;
            self.dma_transfer = true;
        } else if address == 0x4016 {
            let c0 = self.controller[0];
            let c1 = self.controller[1];
            self.controller_state.set(0, c0);
            self.controller_state.set(1, c1);
            proof {
                assert(self.controller_state@ =~= seq![
                    old(self).controller@[0],
                    old(self).controller@[1],
                ]);
            }
        } else if address == 0x4017 {
            self.apu.cpu_write(address, d);
        } else if address <= 0x401F {
        } else {
            if !has_cart {
                self.ram.set(address as usize, d);
            }
        }
    }

    /// One master tick: the PPU advances exactly three dots and the APU
    /// exactly one cycle; a raised PPU NMI line or APU IRQ line is
    /// latched for the CPU.
    pub fn clock(&mut self)
        requires
            old(self).wf(),
        ensures
            final(self).wf(),
            *final(self) == (Bus {
                ppu: final(self).ppu,
                apu: final(self).apu,
                nmi_required: final(self).nmi_required,
                irq_required: final(self).irq_required,
                ..*old(self)
            }),
            final(self).ppu.dot_count == old(self).ppu.dot_count.wrapping_add(3),
            final(self).apu.global_time == old(self).apu.global_time.wrapping_add(1),
            final(self).apu.cycles == old(self).apu.cycles.wrapping_add(1),
            final(self).ppu.oam_ram == old(self).ppu.oam_ram,
            final(self).ppu.oam_address_port == old(self).ppu.oam_address_port,
            old(self).ppu.frame_complete ==> final(self).ppu.frame_complete,
            !final(self).ppu.frame_complete ==> final(self).ppu.spec_pos() > old(
                self,
            ).ppu.spec_pos(),
            // a frame completes at the wrap to the pre-render line
            !old(self).ppu.frame_complete && final(self).ppu.frame_complete
                ==> final(self).ppu.scanline == -1 && 0 <= final(self).ppu.cycle <= 2,
            !final(self).ppu.nmi_enabled,
            old(self).nmi_required ==> final(self).nmi_required,
            final(self).irq_required == (old(self).irq_required || final(self).apu.public_irq),
    {
        self.ppu.clock();
        self.ppu.clock();
        self.ppu.clock();

        self.apu.clock();

        if self.ppu.nmi_enabled {
            self.ppu.nmi_enabled = false;
            self.nmi_required = true;
        }
        if self.apu.public_irq {
            self.irq_required = true;
        }
    }

    /// How a reset relates the bus before and after it: the system clock
    /// restarts, the PPU's registers and latches return to power-on
    /// values, the mapper resets, and memories are kept.
    pub open spec fn spec_reset_rel(pre: &Bus, post: &Bus) -> bool {
        &&& (match pre.ppu.cartridge {
            Some(c) => post.ppu.cartridge == Some(
                Cartridge { mapper: c.mapper.spec_reset(), ..c },
            ),
            None => post.ppu.cartridge is None,
        })
        &&& post.ppu == (PPU {
            fine_x: 0,
            address_latch: 0,
            data_buffer: 0,
            scanline: 0,
            cycle: 0,
            bg_tile_id: 0,
            bg_tile_attr: 0,
            bg_tile_lsb: 0,
            bg_tile_msb: 0,
            bg_shifter_attr_high: 0,
            bg_shifter_attr_low: 0,
            bg_shifter_lsb: 0,
            bg_shifter_msb: 0,
            status: crate::ppu::Status(0),
            mask: crate::ppu::Mask(0),
            controller: crate::ppu::Controller(0),
            v_address_register: crate::ppu::Address(0),
            t_address_register: crate::ppu::Address(0),
            cartridge: post.ppu.cartridge,
            ..pre.ppu
        })
        &&& *post == (Bus { system_clock: 0, ppu: post.ppu, ..*pre })
    }

    pub fn reset(&mut self)
        requires
            old(self).wf(),
        ensures
            final(self).wf(),
            Bus::spec_reset_rel(old(self), final(self)),
    {
        self.system_clock = 0;
        self.ppu.reset();

        match &mut self.ppu.cartridge {
            Some(c) => {
                c.reset();
            },
            None => {},
        }
    }
}

/// Neither a CPU bus read nor a CPU bus write moves the clocks: the
/// system clock, the PPU's dot and frame counters and the APU's cycle
/// counters are untouched by address-decoded accesses.
#[verifier::rlimit(100)]
pub proof fn lemma_rel_preserves_clocks()
    ensures
        forall|b0: Bus, b1: Bus, a: u16, d: u8|
            #[trigger] Bus::spec_read_rel(&b0, &b1, a, d) ==> b1.system_clock == b0.system_clock
                && b1.ppu.dot_count == b0.ppu.dot_count && b1.ppu.frame_complete
                == b0.ppu.frame_complete && b1.ppu.scanline == b0.ppu.scanline && b1.ppu.cycle
                == b0.ppu.cycle && b1.apu.global_time == b0.apu.global_time
                && b1.ppu.oam_ram == b0.ppu.oam_ram && b1.dma_address == b0.dma_address
                && b1.dma_transfer == b0.dma_transfer && b1.dma_buffer == b0.dma_buffer
                && b1.dma_page == b0.dma_page && b1.ram == b0.ram
                && b1.ppu.oam_address_port == b0.ppu.oam_address_port
                && b1.controller == b0.controller && b1.dma_data == b0.dma_data,
        forall|b0: Bus, b1: Bus, a: u16, d: u8|
            #[trigger] Bus::spec_write_rel(&b0, &b1, a, d) ==> b1.system_clock
                == b0.system_clock && b1.ppu.dot_count == b0.ppu.dot_count
                && b1.ppu.frame_complete == b0.ppu.frame_complete && b1.ppu.scanline
                == b0.ppu.scanline && b1.ppu.cycle == b0.ppu.cycle && b1.apu.global_time
                == b0.apu.global_time,
{
    assert forall|b0: Bus, b1: Bus, a: u16, d: u8|
        #[trigger] Bus::spec_read_rel(&b0, &b1, a, d) implies b1.system_clock
        == b0.system_clock && b1.ppu.dot_count == b0.ppu.dot_count && b1.ppu.frame_complete
        == b0.ppu.frame_complete && b1.ppu.scanline == b0.ppu.scanline && b1.ppu.cycle
        == b0.ppu.cycle && b1.apu.global_time == b0.apu.global_time
        && b1.ppu.oam_ram == b0.ppu.oam_ram && b1.dma_address == b0.dma_address
        && b1.dma_transfer == b0.dma_transfer && b1.dma_buffer == b0.dma_buffer
        && b1.dma_page == b0.dma_page && b1.ram == b0.ram
        && b1.ppu.oam_address_port == b0.ppu.oam_address_port
        && b1.controller == b0.controller && b1.dma_data == b0.dma_data by {
        match b0.ppu.cartridge {
            Some(c) => {},
            None => {},
        }
    }
    assert forall|b0: Bus, b1: Bus, a: u16, d: u8|
        #[trigger] Bus::spec_write_rel(&b0, &b1, a, d) implies b1.system_clock
        == b0.system_clock && b1.ppu.dot_count == b0.ppu.dot_count && b1.ppu.frame_complete
        == b0.ppu.frame_complete && b1.ppu.scanline == b0.ppu.scanline && b1.ppu.cycle
        == b0.ppu.cycle && b1.apu.global_time == b0.apu.global_time by {
        match b0.ppu.cartridge {
            Some(c) => {},
            None => {},
        }
    }
}

/// The controller shift latch after one read: shifted left, a 1 coming
/// in from the right.
pub open spec fn spec_latch_next(s: u8) -> u8 {
    ((s << 1) | 1) as u8
}

/// Controller strobe: once a strobe has copied the button byte into the
/// shift latch, the first eight reads of the port pop the buttons MSB
/// first, and the ninth and every later read returns 1, because each
/// read shifts a 1 in from the right until the latch saturates.
pub proof fn lemma_controller_strobe(b: u8)
    by (bit_vector)
    ensures
        (spec_latch_next(b) & 0x80 != 0) == (b & 0x40 != 0),
        (spec_latch_next(spec_latch_next(b)) & 0x80 != 0) == (b & 0x20 != 0),
        (spec_latch_next(spec_latch_next(spec_latch_next(b))) & 0x80 != 0) == (b & 0x10 != 0),
        (spec_latch_next(spec_latch_next(spec_latch_next(spec_latch_next(b)))) & 0x80 != 0) == (
        b & 0x08 != 0),
        (spec_latch_next(
            spec_latch_next(spec_latch_next(spec_latch_next(spec_latch_next(b)))),
        ) & 0x80 != 0) == (b & 0x04 != 0),
        (spec_latch_next(
            spec_latch_next(spec_latch_next(spec_latch_next(spec_latch_next(spec_latch_next(b))))),
        ) & 0x80 != 0) == (b & 0x02 != 0),
        (spec_latch_next(
            spec_latch_next(
                spec_latch_next(
                    spec_latch_next(spec_latch_next(spec_latch_next(spec_latch_next(b)))),
                ),
            ),
        ) & 0x80 != 0) == (b & 0x01 != 0),
        spec_latch_next(
            spec_latch_next(
                spec_latch_next(
                    spec_latch_next(
                        spec_latch_next(
                            spec_latch_next(spec_latch_next(spec_latch_next(b))),
                        ),
                    ),
                ),
            ),
        ) == 0xFF,
        spec_latch_next(0xFF) == 0xFF,
{
}

} // verus!
