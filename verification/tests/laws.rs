//! Tests of the quantified properties on concrete values: clock ratios,
//! DMA cost and content, stack wrap, palette mirroring, the controller
//! strobe, the noise LFSR period, and branch cycle penalties.

use nes_core::apu::NOISE;
use nes_core::cartridge::Cartridge;
use nes_core::cpu_6502::{Flags, CPU6502};
use nes_core::mapper::Mirroring;
use nes_core::cartridge::RomError;
use nes_core::system::{clock_nes, master_tick, run_dma};

fn minimal_rom(prg_pages: u8, chr_pages: u8, flag6: u8) -> Vec<u8> {
    let mut rom: Vec<u8> = vec![0x4e, 0x45, 0x53, 0x1a, prg_pages, chr_pages, flag6, 0, 0, 0, 0, 0, 0, 0, 0, 0];
    rom.extend(std::iter::repeat(0u8).take(prg_pages as usize * 16384));
    rom.extend(std::iter::repeat(0u8).take(chr_pages as usize * 8192));
    rom
}

#[test]
fn clock_ratio_over_many_ticks() {
    let mut nes = CPU6502::new();
    let dots0 = nes.bus.ppu.dot_count;
    let apu0 = nes.bus.apu.global_time;
    for _ in 0..1000 {
        master_tick(&mut nes);
    }
    assert_eq!(nes.bus.ppu.dot_count, dots0 + 3 * 1000);
    assert_eq!(nes.bus.apu.global_time, apu0 + 1000);
}

#[test]
fn dma_copies_a_page_into_oam() {
    let mut nes = CPU6502::new();
    for i in 0..256usize {
        nes.bus.ram[0x0200 + i] = i as u8;
    }
    nes.write(0x4014, &mut 0x02);
    assert!(nes.bus.dma_transfer);
    let parity_even = nes.bus.system_clock % 2 == 0;
    let ticks = run_dma(&mut nes);
    assert_eq!(ticks, if parity_even { 513 } else { 514 });
    for i in 0..256usize {
        assert_eq!(nes.bus.ppu.oam_ram[i], i as u8);
    }
}

#[test]
fn stack_wrap_three_hundred() {
    let mut nes = CPU6502::new();
    nes.reset();
    let start = nes.sptr;
    for _ in 0..300 {
        nes.PHA();
    }
    for _ in 0..300 {
        nes.PLA();
    }
    assert_eq!(nes.sptr, start);
}

#[test]
fn palette_mirror_reads() {
    let mut nes = CPU6502::new();
    let rom = minimal_rom(1, 1, 0);
    nes.bus.connect_cartridge(Cartridge::new(&rom).unwrap());
    for (alias, base) in [(0x10u16, 0x00u16), (0x14, 0x04), (0x18, 0x08), (0x1C, 0x0C)] {
        nes.bus.ppu.ppu_write(0x3F00 | base, 0x21);
        let aliased = nes.bus.ppu.ppu_read(0x3F00 | alias, false);
        let direct = nes.bus.ppu.ppu_read(0x3F00 | base, false);
        assert_eq!(aliased, direct);
        nes.bus.ppu.ppu_write(0x3F00 | alias, 0x13);
        assert_eq!(nes.bus.ppu.ppu_read(0x3F00 | base, false), 0x13);
    }
}

#[test]
fn controller_strobe_pops_buttons_then_ones() {
    let mut nes = CPU6502::new();
    nes.set_controller(0, 0b1011_0010);
    nes.write(0x4016, &mut 1);
    nes.write(0x4016, &mut 0);
    let mut bits: Vec<u8> = Vec::new();
    for _ in 0..8 {
        bits.push(nes.read(0x4016));
    }
    assert_eq!(bits, vec![1, 0, 1, 1, 0, 0, 1, 0]);
    for _ in 0..4 {
        assert_eq!(nes.read(0x4016), 1);
    }
}

#[test]
fn lfsr_nonzero_and_periodic() {
    let mut noise = NOISE::new();
    let start = noise.shift;
    let mut seen_start_again = 0u32;
    for step in 1..=32767u32 {
        noise.clock();
        assert!(noise.shift != 0);
        assert!(noise.shift < 0x8000);
        if noise.shift == start && seen_start_again == 0 {
            seen_start_again = step;
        }
    }
    // mode 0 walks the full 2^15 - 1 cycle before returning to the seed
    assert_eq!(seen_start_again, 32767);
}

#[test]
fn branch_cycle_penalties() {
    // taken, no page cross: one extra cycle
    let mut nes = CPU6502::new();
    nes.pc = 0x0010;
    nes.addr_relative = 0x0003;
    nes.cycles = 2;
    nes.set_flag(Flags::C, false);
    nes.BCC();
    assert_eq!(nes.cycles, 3);
    assert_eq!(nes.pc, 0x0013);

    // taken, crossing a page: two extra cycles
    let mut nes = CPU6502::new();
    nes.pc = 0x00F0;
    nes.addr_relative = 0x0020;
    nes.cycles = 2;
    nes.set_flag(Flags::C, false);
    nes.BCC();
    assert_eq!(nes.cycles, 4);
    assert_eq!(nes.pc, 0x0110);

    // not taken: no extra cycle
    let mut nes = CPU6502::new();
    nes.pc = 0x0010;
    nes.addr_relative = 0x0003;
    nes.cycles = 2;
    nes.set_flag(Flags::C, true);
    nes.BCC();
    assert_eq!(nes.cycles, 2);
    assert_eq!(nes.pc, 0x0010);
}

#[test]
fn ppustatus_read_clears_the_address_latch() {
    let mut nes = CPU6502::new();
    nes.bus.ppu.cpu_write(0x0006, 0x55);
    assert_eq!(nes.bus.ppu.t_address_register.0 >> 8, 0x15);
    nes.bus.ppu.cpu_read(0x0002, false);
    nes.bus.ppu.cpu_write(0x0006, 0x77);
    assert_eq!(nes.bus.ppu.t_address_register.0 >> 8, 0x37);
}

#[test]
fn mmc1_serial_commit_selects_prg_mode() {
    let rom = minimal_rom(2, 1, 0b0001_0000);
    let mut cart = Cartridge::new(&rom).unwrap();
    assert_eq!(cart.c_mapper_id, 1);
    cart.reset();
    // five serial writes, LSB first, to the PRG bank target at $E000
    for value in [0x1Eu8, 0x00, 0x00, 0x00, 0x00] {
        cart.cpu_write(0xE000, value);
    }
    // low five bits committed: bank 0 in 16 KiB fixed-high mode
    match cart.mapper {
        nes_core::cartridge::MapperKind::Mmc1(ref m) => {
            assert_eq!(m.prg_bank_low_16, 0);
            assert_eq!(m.prg_bank_high_16, 1);
        },
        _ => panic!("wrong mapper variant"),
    }
    assert_eq!(cart.mirror(), Mirroring::Horizontal);
}

#[test]
fn frame_completes_and_lowers_flag() {
    let mut nes = CPU6502::new();
    nes.reset();
    clock_nes(&mut nes);
    assert!(!nes.bus.ppu.frame_complete);
    assert!(nes.bus.ppu.dot_count > 0);
}

#[test]
fn apu_mixer_is_silent_when_channels_are_silent() {
    let mut nes = CPU6502::new();
    assert_eq!(nes.bus.apu.sample(), 0);
}

#[test]
fn rom_header_errors() {
    let short: Vec<u8> = vec![0x4e, 0x45];
    assert!(matches!(Cartridge::new(&short), Err(RomError::Truncated)));
    let mut bad = minimal_rom(1, 1, 0);
    bad[0] = 0x4f;
    assert!(matches!(Cartridge::new(&bad), Err(RomError::InvalidMagic)));
    let mut truncated = minimal_rom(1, 1, 0);
    truncated.truncate(1000);
    assert!(matches!(Cartridge::new(&truncated), Err(RomError::Truncated)));
    let unsupported = minimal_rom(1, 1, 0x70);
    assert!(matches!(Cartridge::new(&unsupported), Err(RomError::UnsupportedMapper)));
}

#[test]
fn apu_pushes_one_sample_every_forty_cycles() {
    let mut apu = nes_core::apu::APU::new();
    apu.clock();
    assert_eq!(apu.samples.len(), 1);
    for _ in 0..40 {
        apu.clock();
    }
    assert_eq!(apu.samples.len(), 2);
    for _ in 0..40 {
        apu.clock();
    }
    assert_eq!(apu.samples.len(), 3);
}

#[test]
fn five_step_select_fires_an_immediate_half_clock() {
    let mut apu = nes_core::apu::APU::new();
    apu.pulse_0.length_counter.enabled = true;
    apu.pulse_0.length_counter.counter = 5;
    apu.cpu_write(0x4017, 0x80);
    assert_eq!(apu.pulse_0.length_counter.counter, 4);

    let mut apu2 = nes_core::apu::APU::new();
    apu2.pulse_0.length_counter.enabled = true;
    apu2.pulse_0.length_counter.counter = 5;
    apu2.cpu_write(0x4017, 0x00);
    assert_eq!(apu2.pulse_0.length_counter.counter, 5);
}

#[test]
fn a_frame_takes_a_frame_of_ticks() {
    let mut nes = CPU6502::new();
    let ticks = clock_nes(&mut nes);
    assert!(ticks > 0);
    assert_eq!(nes.bus.ppu.dot_count, 3 * ticks as u64);
    assert_eq!(nes.bus.apu.global_time, ticks);
    assert_eq!(nes.bus.ppu.scanline, -1);
    assert!(nes.bus.ppu.cycle <= 2);
}
