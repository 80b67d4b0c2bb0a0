//! Whole-machine tests: small programs preloaded into RAM and run
//! through the per-cycle engine, plus the register-level helpers.

use nes_core::cpu_6502::{Flags, CPU6502};
use rand::Rng;

fn load_program(nes: &mut CPU6502, program: &str) {
    let mut offset = 0x8000;
    for c in program.split(' ') {
        if c != " " && !c.is_empty() {
            let z = u8::from_str_radix(c, 16).unwrap();
            nes.bus.ram[offset] = z;
            offset += 1;
        }
    }
    nes.bus.ram[0xFFFC] = 0x00;
    nes.bus.ram[0xFFFD] = 0x80;
    nes.reset();
}

fn run_instructions(nes: &mut CPU6502, count: usize) {
    for _ in 0..count {
        loop {
            nes.clock();
            if nes.complete() {
                break;
            }
        }
    }
}

#[test]
fn test_multiply() {
    let mut nes = CPU6502::new();
    load_program(
        &mut nes,
        "A2 0A 8E 00 00 A2 03 8E 01 00 AC 00 00 A9 00 18 6D 01 00 88 D0 FA 8D 02 00 EA EA EA",
    );

    run_instructions(&mut nes, 40);

    assert_eq!(nes.a, 30);
    assert_eq!(nes.bus.ram[2], 30);
}

#[test]
fn test_add() {
    let mut nes = CPU6502::new();
    load_program(&mut nes, "A2 64 8E 00 00 A2 20 8E 01 00 A9 00 18 6D 00 00 6D 01 00 8D 02 00 EA EA EA");

    run_instructions(&mut nes, 40);

    assert_eq!(nes.a, 132);
    assert_eq!(nes.bus.ram[2], 132);
}

#[test]
fn test_subtract() {
    let mut nes = CPU6502::new();
    load_program(&mut nes, "A9 64 A2 20 8E 01 00 18 ED 01 00 8D 02 00 EA EA EA");

    run_instructions(&mut nes, 40);

    assert_eq!(nes.a, 67);
    assert_eq!(nes.bus.ram[2], 67);
}

#[test]
#[allow(non_snake_case)]
fn test_getFlag_setFlag() {
    let mut nes = CPU6502::new();

    let mut a = nes.get_flag(Flags::C);
    assert_eq!(a, 0);

    nes.set_flag(Flags::C, true);
    a = nes.get_flag(Flags::C);
    assert_eq!(a, 1);

    nes.set_flag(Flags::C, false);
    a = nes.get_flag(Flags::C);
    assert_eq!(a, 0);
}

#[test]
fn test_test_read_write() {
    let mut rng = rand::thread_rng();

    let mut n1: u8 = rng.gen();
    let mut n2: u8 = rng.gen();
    let mut n3: u8 = rng.gen();

    let a1: u16 = rng.gen_range(0..2048);
    let a2: u16 = rng.gen_range(0..2048);
    let a3: u16 = rng.gen_range(0..2048);

    let mut nes = CPU6502::new();

    nes.write(a1, &mut n1);
    nes.write(a2, &mut n2);
    nes.write(a3, &mut n3);

    let c = nes.read(a3);
    let b = nes.read(a2);
    let a = nes.read(a1);

    assert_eq!(a, n1);
    assert_eq!(b, n2);
    assert_eq!(c, n3);
}

#[test]
fn test_test_reset() {
    let mut nes = CPU6502::new();
    nes.reset();

    assert_eq!(nes.a, 0);
    assert_eq!(nes.x, 0);
    assert_eq!(nes.y, 0);
    assert_eq!(nes.sptr, 0xFD);

    let low = nes.read(nes.addr_absolute) as u16;
    let high = nes.read(nes.addr_absolute + 1) as u16;
    let a = (high << 8) | low;

    assert_eq!(nes.pc, a);

    assert_eq!(nes.addr_absolute, 0x0000);
    assert_eq!(nes.addr_relative, 0x0000);
    assert_eq!(nes.fetched, 0x00);
    assert_eq!(nes.cycles, 8);
}

#[test]
fn test_fetch() {}

#[test]
fn test_shiftleft() {}

#[test]
fn test_shiftright() {}

#[test]
#[allow(non_snake_case)]
fn test_compareA() {}

#[test]
#[allow(non_snake_case)]
fn test_compareX() {}

#[test]
#[allow(non_snake_case)]
fn test_compareY() {}

#[test]
#[allow(non_snake_case)]
fn test_DEY() {}

#[test]
#[allow(non_snake_case)]
fn test_DEC() {}

#[test]
#[allow(non_snake_case)]
fn test_DEX() {}

#[test]
#[allow(non_snake_case)]
fn test_INC() {}

#[test]
#[allow(non_snake_case)]
fn test_INX() {}

#[test]
#[allow(non_snake_case)]
fn test_INY() {}
