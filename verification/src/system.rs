//! The master clock: each tick advances the PPU three dots and the APU
//! one cycle; an active OAM DMA transfer consumes the CPU's slot,
//! otherwise the CPU executes one cycle. A frame is a run of ticks up to
//! the PPU's `frame_complete` edge.

use vstd::prelude::*;
use crate::bus::Bus;
use crate::cpu_6502::CPU6502;
use crate::ppu::PPU;

verus! {

/// The parts of the machine an OAM DMA transfer never touches: every CPU
/// register, system RAM, the DMA page, the OAM write origin and the live
/// controller bytes.
pub open spec fn spec_dma_frame(pre: &CPU6502, post: &CPU6502) -> bool {
    &&& post.a == pre.a
    &&& post.x == pre.x
    &&& post.y == pre.y
    &&& post.sptr == pre.sptr
    &&& post.pc == pre.pc
    &&& post.sr == pre.sr
    &&& post.fetched == pre.fetched
    &&& post.addr_absolute == pre.addr_absolute
    &&& post.addr_relative == pre.addr_relative
    &&& post.opcode == pre.opcode
    &&& post.cycles == pre.cycles
    &&& post.bus.ram == pre.bus.ram
    &&& post.bus.dma_page == pre.bus.dma_page
    &&& post.bus.ppu.oam_address_port == pre.bus.ppu.oam_address_port
    &&& post.bus.controller == pre.bus.controller
}

/// One master tick: the system clock steps, the PPU advances three dots
/// and the APU one cycle; then an active DMA transfer runs its state
/// machine (align on an odd tick, read on even ticks, write to OAM on
/// odd ticks) while the CPU stalls; otherwise the CPU runs one cycle.
#[verifier::rlimit(100)]
pub fn master_tick(nes: &mut CPU6502)
    requires
        old(nes).wf(),
    ensures
        final(nes).wf(),
        final(nes).bus.system_clock == old(nes).bus.system_clock.wrapping_add(1),
        final(nes).bus.system_clock % 2 == (old(nes).bus.system_clock + 1) % 2,
        final(nes).bus.ppu.dot_count == old(nes).bus.ppu.dot_count.wrapping_add(3),
        final(nes).bus.apu.global_time == old(nes).bus.apu.global_time.wrapping_add(1),
        old(nes).bus.ppu.frame_complete ==> final(nes).bus.ppu.frame_complete,
        !final(nes).bus.ppu.frame_complete ==> final(nes).bus.ppu.spec_pos() > old(nes).bus.ppu.spec_pos(),
        !old(nes).bus.ppu.frame_complete && final(nes).bus.ppu.frame_complete
            ==> final(nes).bus.ppu.scanline == -1 && 0 <= final(nes).bus.ppu.cycle <= 2,
        old(nes).bus.dma_transfer ==> spec_dma_frame(old(nes), final(nes)),
        // alignment: an odd tick arms the transfer proper
        old(nes).bus.dma_transfer && old(nes).bus.dma_buffer ==> ({
            &&& final(nes).bus.ppu.oam_ram == old(nes).bus.ppu.oam_ram
            &&& final(nes).bus.dma_transfer
            &&& final(nes).bus.dma_address == old(nes).bus.dma_address
            &&& final(nes).bus.dma_data == old(nes).bus.dma_data
            &&& final(nes).bus.dma_buffer == (final(nes).bus.system_clock % 2 != 1)
        }),
        // read phase: even ticks latch one byte from CPU space
        old(nes).bus.dma_transfer && !old(nes).bus.dma_buffer && final(nes).bus.system_clock % 2
            == 0 ==> ({
            &&& final(nes).bus.ppu.oam_ram == old(nes).bus.ppu.oam_ram
            &&& final(nes).bus.dma_transfer
            &&& !final(nes).bus.dma_buffer
            &&& final(nes).bus.dma_address == old(nes).bus.dma_address
            &&& (old(nes).bus.dma_page < 0x20 ==> final(nes).bus.dma_data == old(nes).bus.ram@[((old(nes).bus.dma_page * 256 + old(nes).bus.dma_address) % 2048) as int])
            // in general the byte comes by the bus-read relation from the
            // source address, out of the ticked bus state, whose RAM,
            // controller latches and DMA registers are the pre-tick ones
            &&& (exists|mid: Bus, b: Bus, a: u16|
                {
                    &&& #[trigger] Bus::spec_read_rel(&mid, &b, a, final(nes).bus.dma_data)
                    &&& a == ((old(nes).bus.dma_page as u16) << 8) | old(nes).bus.dma_address as u16
                    &&& mid == (Bus {
                        ppu: mid.ppu,
                        apu: mid.apu,
                        nmi_required: mid.nmi_required,
                        irq_required: mid.irq_required,
                        system_clock: old(nes).bus.system_clock.wrapping_add(1),
                        ..old(nes).bus
                    })
                    &&& final(nes).bus == (Bus { dma_data: final(nes).bus.dma_data, ..b })
                })
        }),
        // write phase: odd ticks store the latched byte into OAM
        old(nes).bus.dma_transfer && !old(nes).bus.dma_buffer && final(nes).bus.system_clock % 2
            == 1 ==> ({
            &&& final(nes).bus.ppu.oam_ram@ == old(nes).bus.ppu.oam_ram@.update(
                ((old(nes).bus.ppu.oam_address_port + old(nes).bus.dma_address) % 256) as int,
                old(nes).bus.dma_data,
            )
            &&& (old(nes).bus.dma_address != 255 ==> final(nes).bus.dma_transfer && !final(nes).bus.dma_buffer && final(nes).bus.dma_address == old(nes).bus.dma_address + 1)
            &&& (old(nes).bus.dma_address == 255 ==> !final(nes).bus.dma_transfer && final(nes).bus.dma_buffer && final(nes).bus.dma_address == 0)
        }),
{
    proof {
        crate::bit_facts::lemma_u16_mask_bounds();
        crate::bit_facts::lemma_dma_addr();
        crate::bus::lemma_rel_preserves_clocks();
        crate::cartridge::lemma_cart_low();
    }
    nes.bus.system_clock = nes.bus.system_clock.wrapping_add(1);
    nes.bus.clock();
    let ghost mid = nes.bus;
    if nes.bus.dma_transfer {
        if nes.bus.dma_buffer {
            if nes.bus.system_clock % 2 == 1 {
                nes.bus.dma_buffer = false;
            }
        } else {
            if nes.bus.system_clock % 2 == 0 {
                let page = (nes.bus.dma_page as u16) << 8;
                let addr = nes.bus.dma_address as u16;
                let byte = nes.bus.cpu_read(page | addr, false);
                let ghost b = nes.bus;
                nes.bus.dma_data = byte;
                proof {
                    assert(Bus::spec_read_rel(&mid, &b, page | addr, byte));
                    assert(nes.bus == (Bus { dma_data: byte, ..b }));
                }
            } else {
                let idx = nes.bus.ppu.oam_address_port.wrapping_add(nes.bus.dma_address);
                proof {
                    assert(idx as int == (old(nes).bus.ppu.oam_address_port + old(
                        nes,
                    ).bus.dma_address) % 256);
                }
                nes.bus.ppu.oam_ram.set(idx as usize, nes.bus.dma_data);
                if nes.bus.dma_address != 255 {
                    nes.bus.dma_address = nes.bus.dma_address + 1;
                } else {
                    nes.bus.dma_address = 0;
                    nes.bus.dma_transfer = false;
                    nes.bus.dma_buffer = true;
                }
            }
        }
    } else {
        nes.clock();
    }
}

/// Run an OAM DMA transfer to completion, counting master ticks.
///
/// A transfer triggered by a write to `$4014` stalls the CPU for exactly
/// 513 master ticks when the trigger fell on an even CPU cycle and 514
/// when it fell on an odd one: one or two alignment ticks, then 256
/// read/write pairs. When the source page lies in system RAM, the 256
/// bytes starting at `page << 8` land in OAM in order, starting at the
/// pre-trigger OAMADDR; the CPU's registers and RAM are untouched.
#[verifier::rlimit(100)]
pub fn run_dma(nes: &mut CPU6502) -> (ticks: u32)
    requires
        old(nes).wf(),
        old(nes).bus.dma_transfer,
        old(nes).bus.dma_buffer,
        old(nes).bus.dma_address == 0,
    ensures
        final(nes).wf(),
        !final(nes).bus.dma_transfer,
        ticks == (if old(nes).bus.system_clock % 2 == 0 {
            513int
        } else {
            514int
        }),
        spec_dma_frame(old(nes), final(nes)),
        old(nes).bus.dma_page < 0x20 ==> (forall|i: int|
            0 <= i < 256 ==> final(nes).bus.ppu.oam_ram@[#[trigger] (((old(nes).bus.ppu.oam_address_port + i) % 256) as int)] == old(nes).bus.ram@[((old(nes).bus.dma_page * 256 + i) % 2048) as int]),
{
    let ghost align: int = if old(nes).bus.system_clock % 2 == 0 {
        1int
    } else {
        2int
    };
    let mut ticks: u32 = 0;
    while nes.bus.dma_transfer
        invariant
            nes.wf(),
            spec_dma_frame(old(nes), nes),
            nes.bus.system_clock % 2 == (old(nes).bus.system_clock + ticks) % 2,
            align == (if old(nes).bus.system_clock % 2 == 0 {
                1int
            } else {
                2int
            }),
            ticks <= align + 512,
            nes.bus.dma_transfer ==> ({
                &&& (nes.bus.dma_buffer ==> ticks < align && nes.bus.dma_address == 0
                    && nes.bus.ppu.oam_ram == old(nes).bus.ppu.oam_ram)
                &&& (!nes.bus.dma_buffer ==> ({
                    &&& (nes.bus.system_clock % 2 == 1 ==> ticks == align
                        + 2 * nes.bus.dma_address)
                    &&& (nes.bus.system_clock % 2 == 0 ==> ticks == align + 2
                        * nes.bus.dma_address + 1 && (old(nes).bus.dma_page < 0x20
                        ==> nes.bus.dma_data == old(nes).bus.ram@[((old(nes).bus.dma_page * 256
                        + nes.bus.dma_address) % 2048) as int]))
                    &&& nes.bus.ppu.oam_ram@.len() == 256
                    &&& (forall|j: int|
                        0 <= j < nes.bus.dma_address ==> (old(nes).bus.dma_page < 0x20
                            ==> nes.bus.ppu.oam_ram@[#[trigger] (((old(nes).bus.ppu.oam_address_port + j)
                            % 256) as int)] == old(nes).bus.ram@[((old(nes).bus.dma_page * 256
                            + j) % 2048) as int]))
                    &&& (forall|k: int|
                        0 <= k < 256 && (forall|j: int|
                            0 <= j < nes.bus.dma_address ==> k != #[trigger] ((old(nes).bus.ppu.oam_address_port + j) % 256)) ==> #[trigger] nes.bus.ppu.oam_ram@[k]
                            == old(nes).bus.ppu.oam_ram@[k])
                }))
            }),
            !nes.bus.dma_transfer ==> ({
                &&& ticks == align + 512
                &&& (forall|i: int|
                    0 <= i < 256 ==> (old(nes).bus.dma_page < 0x20
                        ==> nes.bus.ppu.oam_ram@[#[trigger] (((old(nes).bus.ppu.oam_address_port + i)
                        % 256) as int)] == old(nes).bus.ram@[((old(nes).bus.dma_page * 256 + i)
                        % 2048) as int]))
            }),
        decreases (if nes.bus.dma_transfer {
            1int
        } else {
            0int
        }) + align + 513 - ticks,
    {
        let ghost pre = *nes;
        master_tick(nes);
        ticks = ticks + 1;
        proof {
            if !pre.bus.dma_buffer && nes.bus.system_clock % 2 == 1 {
                // a write landed: extend the ordered prefix by one byte
                assert forall|j: int| 0 <= j < nes.bus.dma_address && old(nes).bus.dma_page
                    < 0x20 implies nes.bus.ppu.oam_ram@[#[trigger] (((old(nes).bus.ppu.oam_address_port + j)
                    % 256) as int)] == old(nes).bus.ram@[((old(nes).bus.dma_page * 256 + j)
                    % 2048) as int] by {
                    crate::bit_facts::lemma_mod_diff();
                }
            }
        }
    }
    return ticks;
}

/// A 32-bit counter held as a wrapped sum stays one after a wrapping
/// step.
proof fn lemma_wrap_accum(base: int, p: u32, k: int, s: u32)
    requires
        0 <= k,
        0 <= base,
        p as int == (base + k) % 4294967296,
    ensures
        p.wrapping_add(s) as int == (base + k + s as int) % 4294967296,
{
    vstd::arithmetic::div_mod::lemma_add_mod_noop(base + k, s as int, 4294967296);
    vstd::arithmetic::div_mod::lemma_small_mod(s as nat, 4294967296);
    if p + s <= u32::MAX {
        vstd::arithmetic::div_mod::lemma_small_mod((p + s) as nat, 4294967296);
    } else {
        let r = p + s - 4294967296;
        vstd::arithmetic::div_mod::lemma_small_mod(r as nat, 4294967296);
        vstd::arithmetic::div_mod::lemma_mod_self_0(4294967296);
        vstd::arithmetic::div_mod::lemma_add_mod_noop(r, 4294967296, 4294967296);
    }
}

/// The 64-bit twin of the counter-accumulation step.
proof fn lemma_wrap_accum64(base: int, p: u64, k: int, s: u64)
    requires
        0 <= k,
        0 <= base,
        p as int == (base + k) % 18446744073709551616,
    ensures
        p.wrapping_add(s) as int == (base + k + s as int) % 18446744073709551616,
{
    vstd::arithmetic::div_mod::lemma_add_mod_noop(base + k, s as int, 18446744073709551616);
    vstd::arithmetic::div_mod::lemma_small_mod(s as nat, 18446744073709551616);
    if p + s <= u64::MAX {
        vstd::arithmetic::div_mod::lemma_small_mod((p + s) as nat, 18446744073709551616);
    } else {
        let r = p + s - 18446744073709551616;
        vstd::arithmetic::div_mod::lemma_small_mod(r as nat, 18446744073709551616);
        vstd::arithmetic::div_mod::lemma_mod_self_0(18446744073709551616);
        vstd::arithmetic::div_mod::lemma_add_mod_noop(
            r,
            18446744073709551616,
            18446744073709551616,
        );
    }
}

/// Run master ticks until the PPU signals the end of the frame, then
/// lower the flag, returning how many ticks the frame took. A frame
/// always completes in a bounded number of ticks, since every tick
/// either advances the PPU's dot position or completes the frame; it
/// ends at the wrap to the pre-render line, and each tick has advanced
/// the PPU three dots and the APU one cycle.
pub fn clock_nes(nes: &mut CPU6502) -> (ticks: u32)
    requires
        old(nes).wf(),
    ensures
        final(nes).wf(),
        !final(nes).bus.ppu.frame_complete,
        ticks <= 89342,
        final(nes).bus.ppu.dot_count == ((old(nes).bus.ppu.dot_count + 3 * ticks)
            % 18446744073709551616) as u64,
        final(nes).bus.apu.global_time == ((old(nes).bus.apu.global_time + ticks)
            % 4294967296) as u32,
        final(nes).bus.system_clock == ((old(nes).bus.system_clock + ticks)
            % 4294967296) as u32,
        old(nes).bus.ppu.frame_complete ==> ticks == 0 && *final(nes) == (CPU6502 {
            bus: (Bus {
                ppu: (PPU { frame_complete: false, ..old(nes).bus.ppu }),
                ..old(nes).bus
            }),
            ..*old(nes)
        }),
        !old(nes).bus.ppu.frame_complete ==> ticks > 0 && final(nes).bus.ppu.scanline == -1
            && 0 <= final(nes).bus.ppu.cycle <= 2,
{
    let mut ticks: u32 = 0;
    proof {
        vstd::arithmetic::div_mod::lemma_small_mod(
            old(nes).bus.ppu.dot_count as nat,
            18446744073709551616,
        );
        vstd::arithmetic::div_mod::lemma_small_mod(
            old(nes).bus.apu.global_time as nat,
            4294967296,
        );
        vstd::arithmetic::div_mod::lemma_small_mod(old(nes).bus.system_clock as nat, 4294967296);
    }
    while !nes.bus.ppu.frame_complete
        invariant
            nes.wf(),
            !nes.bus.ppu.frame_complete ==> ticks <= nes.bus.ppu.spec_pos(),
            nes.bus.ppu.frame_complete ==> ticks <= 89342,
            nes.bus.ppu.dot_count == ((old(nes).bus.ppu.dot_count + 3 * ticks)
                % 18446744073709551616) as u64,
            nes.bus.apu.global_time == ((old(nes).bus.apu.global_time + ticks)
                % 4294967296) as u32,
            nes.bus.system_clock == ((old(nes).bus.system_clock + ticks)
                % 4294967296) as u32,
            nes.bus.ppu.frame_complete && !old(nes).bus.ppu.frame_complete ==> ticks > 0
                && nes.bus.ppu.scanline == -1 && 0 <= nes.bus.ppu.cycle <= 2,
            old(nes).bus.ppu.frame_complete ==> ticks == 0 && *nes == *old(nes),
        decreases (if nes.bus.ppu.frame_complete {
            0int
        } else {
            89342 - nes.bus.ppu.spec_pos()
        }),
    {
        let ghost pd = nes.bus.ppu.dot_count;
        let ghost pg = nes.bus.apu.global_time;
        let ghost pc = nes.bus.system_clock;
        master_tick(nes);
        ticks = ticks + 1;
        proof {
            lemma_wrap_accum64(old(nes).bus.ppu.dot_count as int, pd, 3 * (ticks - 1), 3);
            lemma_wrap_accum(old(nes).bus.apu.global_time as int, pg, ticks - 1, 1);
            lemma_wrap_accum(old(nes).bus.system_clock as int, pc, ticks - 1, 1);
        }
    }
    nes.bus.ppu.frame_complete = false;
    return ticks;
}

/// Advance one whole frame: the host-facing entry point.
pub fn step_frame(nes: &mut CPU6502) -> (ticks: u32)
    requires
        old(nes).wf(),
    ensures
        final(nes).wf(),
        !final(nes).bus.ppu.frame_complete,
        ticks <= 89342,
        final(nes).bus.ppu.dot_count == ((old(nes).bus.ppu.dot_count + 3 * ticks)
            % 18446744073709551616) as u64,
        final(nes).bus.apu.global_time == ((old(nes).bus.apu.global_time + ticks)
            % 4294967296) as u32,
        final(nes).bus.system_clock == ((old(nes).bus.system_clock + ticks)
            % 4294967296) as u32,
        old(nes).bus.ppu.frame_complete ==> ticks == 0 && *final(nes) == (CPU6502 {
            bus: (Bus {
                ppu: (PPU { frame_complete: false, ..old(nes).bus.ppu }),
                ..old(nes).bus
            }),
            ..*old(nes)
        }),
        !old(nes).bus.ppu.frame_complete ==> ticks > 0 && final(nes).bus.ppu.scanline == -1
            && 0 <= final(nes).bus.ppu.cycle <= 2,
{
    clock_nes(nes)
}

} // verus!
