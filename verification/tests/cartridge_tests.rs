//! Cartridge construction from a ROM image.

use nes_core::cartridge::Cartridge;

fn minimal_rom(prg_pages: u8, chr_pages: u8, flag6: u8) -> Vec<u8> {
    let mut rom: Vec<u8> = vec![0x4e, 0x45, 0x53, 0x1a, prg_pages, chr_pages, flag6, 0, 0, 0, 0, 0, 0, 0, 0, 0];
    rom.extend(std::iter::repeat(0u8).take(prg_pages as usize * 16384));
    rom.extend(std::iter::repeat(0u8).take(chr_pages as usize * 8192));
    rom
}

#[test]
fn test_new() {
    let rom = minimal_rom(1, 1, 0);
    let car = Cartridge::new(&rom).unwrap();

    assert_eq!(car.header.mapper_1, 0);
    assert_eq!(car.header.name, ['N', 'E', 'S', '\x1a']);
    assert_eq!(car.header.prg_rom_pages, 1);
    assert_eq!(car.header.chr_rom_pages, 1);
    assert_eq!(car.header.prg_ram_size, 0);

    assert_eq!(car.vec_prg_memory.len(), 16384);
    assert_eq!(car.vec_chr_memory.len(), 8192);
    assert_eq!(car.c_mapper_id, 0);
    assert_eq!(car.c_chr_banks, 1);
    assert_eq!(car.c_prg_banks, 1);
}
