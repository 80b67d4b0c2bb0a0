//! The CPU operation tests: each operation is driven directly with
//! registers and RAM set up by hand.

use nes_core::cpu_6502::{Flags, CPU6502};

#[test]
fn test_basic_program() {}

#[test]
fn test_get_flag_set_flag() {
    let mut nes = CPU6502::new();

    let mut a = nes.get_flag(Flags::C);
    assert_eq!(a, 0);

    nes.set_flag(Flags::C, true);
    a = nes.get_flag(Flags::C);
    assert_eq!(a, 1);

    nes.set_flag(Flags::C, false);
    a = nes.get_flag(Flags::C);
    assert_eq!(a, 0);
}

use rand::Rng;

#[test]
fn cpu_6502_test_read_write() {
    let mut rng = rand::thread_rng();

    let mut n1: u8 = rng.gen_range(0..255);
    let mut n2: u8 = rng.gen_range(0..255);
    let mut n3: u8 = rng.gen_range(0..255);

    let a1: u16 = rng.gen_range(0..2047);
    let a2: u16 = rng.gen_range(0..2047);
    let a3: u16 = rng.gen_range(0..2047);
    let mut nes = CPU6502::new();

    nes.write(a1, &mut n1);
    nes.write(a2, &mut n2);
    nes.write(a3, &mut n3);

    let a = nes.read(a1);
    let b = nes.read(a2);
    let c = nes.read(a3);

    assert_eq!(a, n1);
    assert_eq!(b, n2);
    assert_eq!(c, n3);
}

#[test]
fn cpu_6502_test_reset() {
    let mut nes = CPU6502::new();
    let low = nes.read(nes.addr_absolute) as u16;
    let high = nes.read(nes.addr_absolute + 1) as u16;
    let pc = (high << 8) | low;
    nes.reset();

    assert_eq!(nes.a, 0);
    assert_eq!(nes.x, 0);
    assert_eq!(nes.y, 0);
    assert_eq!(nes.sptr, 0xFD);

    assert_eq!(nes.pc, pc);

    assert_eq!(nes.addr_absolute, 0);
    assert_eq!(nes.addr_relative, 0);
    assert_eq!(nes.fetched, 0);
    assert_eq!(nes.cycles, 8);
}

#[test]
fn test_add_stack() {
    let mut nes = CPU6502::new();

    nes.sptr = 30; //Tests basic addition
    nes.add_stack();
    assert_eq!(nes.sptr, 31);

    nes.sptr = 255; //Tests overflow
    nes.add_stack();
    assert_eq!(nes.sptr, 0);
}

#[test]
fn test_subtract_stack() {
    let mut nes = CPU6502::new();
    nes.sptr = 30; //Tests basic subtraction
    nes.subtract_stack();
    assert_eq!(nes.sptr, 29);

    nes.sptr = 255;
    nes.subtract_stack();
    assert_eq!(nes.sptr, 254);

    nes.sptr = 0; //Tests underflow
    nes.subtract_stack();
    assert_eq!(nes.sptr, 255);
}

#[test]
fn test_add_pc() {
    let mut nes = CPU6502::new();
    nes.pc = 0;
    nes.add_pc();
    assert_eq!(nes.pc, 1);

    nes.pc = 65535; //Tests overflow
    nes.add_pc();
    assert_eq!(nes.pc, 0);
}

#[test]
fn test_adc() {
    let mut nes = CPU6502::new();
    nes.addr_absolute = 0x000;
    nes.bus.ram[0x000] = 10;
    nes.ADC();
    assert_eq!(nes.a, 10);
    nes.ADC();
    assert_eq!(nes.a, 20);

    nes.bus.ram[0x000] = 245;
    nes.ADC();
    println!("{}", nes.a);
    assert_eq!(nes.a, 9);
    assert_eq!(nes.get_flag(Flags::C), 1);
}

#[test]
fn test_sbc() {
    let mut nes = CPU6502::new();
    nes.addr_absolute = 0x000;
    nes.bus.ram[0x000] = 10;
    nes.a = 15;
    nes.set_flag(Flags::C, true); //Subtraction is inverted addition, so carry must be set
    nes.SBC();
    assert_eq!(nes.a, 5);

    nes.set_flag(Flags::C, true);
    nes.SBC();
    println!("{}", nes.a);
    assert_eq!(nes.a, 251);

    nes.set_flag(Flags::C, true);
    nes.bus.ram[0x000] = 251;
    nes.SBC();
    assert_eq!(nes.a, 0);
    assert_eq!(nes.get_flag(Flags::Z), 1);
}

#[test]
fn test_and() {
    let mut nes = CPU6502::new();
    nes.addr_absolute = 0x000;
    nes.bus.ram[0x000] = 10;
    nes.a = 15;
    nes.AND();
    assert_eq!(nes.a, 10);

    nes.bus.ram[0x000] = 25;
    nes.a = 85;
    nes.AND();
    assert_eq!(nes.a, 17);

    nes.bus.ram[0x000] = 0;
    nes.a = 0;
    nes.AND();
    assert_eq!(nes.a, 0);
    assert_eq!(nes.get_flag(Flags::Z), 1);
}

#[test]
fn test_asl() {
    let mut nes = CPU6502::new();
    nes.addr_absolute = 0x000;
    nes.bus.ram[0x000] = 15;
    nes.ASL();
    assert_eq!(nes.bus.ram[nes.addr_absolute as usize], 30);

    nes.bus.ram[0x000] = 40;
    nes.ASL();
    assert_eq!(nes.bus.ram[nes.addr_absolute as usize], 80);

    nes.bus.ram[0x000] = 200;
    nes.ASL();
    assert_eq!(nes.bus.ram[nes.addr_absolute as usize], 144);
    assert_eq!(nes.get_flag(Flags::C), 1);
    assert_eq!(nes.get_flag(Flags::N), 1);
}

#[test]
fn test_bcc() {
    let mut nes = CPU6502::new();
    //Test if carry clear
    nes.reset();
    nes.addr_absolute = 0xFF;
    nes.addr_relative = 0x03;
    nes.pc = 0x10;
    let pre_pc = nes.pc;
    let pre_addr = nes.addr_absolute;
    let pre_cycle = nes.cycles;
    nes.set_flag(Flags::C, false);
    nes.BCC();
    assert_ne!(pre_pc, nes.pc);
    assert_ne!(pre_addr, nes.addr_absolute);
    assert_ne!(pre_cycle, nes.cycles);

    //Test if carry set
    nes.reset();
    nes.addr_absolute = 0xFF;
    nes.addr_relative = 0x03;
    nes.pc = 0x10;
    let pre_pc = nes.pc;
    let pre_addr = nes.addr_absolute;
    let pre_cycle = nes.cycles;
    nes.set_flag(Flags::C, true);
    nes.BCC();
    assert_eq!(pre_pc, nes.pc);
    assert_eq!(pre_addr, nes.addr_absolute);
    assert_eq!(pre_cycle, nes.cycles);
}

#[test]
fn test_bcs() {
    let mut nes = CPU6502::new();

    //Test if carry set
    nes.reset();
    nes.addr_absolute = 0xFF;
    nes.addr_relative = 0x03;
    nes.pc = 0x10;
    let pre_pc = nes.pc;
    let pre_addr = nes.addr_absolute;
    let pre_cycle = nes.cycles;
    nes.set_flag(Flags::C, true);
    nes.BCS();
    assert_ne!(pre_pc, nes.pc);
    assert_ne!(pre_addr, nes.addr_absolute);
    assert_ne!(pre_cycle, nes.cycles);

    //Test if carry clear
    nes.reset();
    nes.addr_absolute = 0xFF;
    nes.addr_relative = 0x03;
    nes.pc = 0x10;
    let pre_pc = nes.pc;
    let pre_addr = nes.addr_absolute;
    let pre_cycle = nes.cycles;
    nes.set_flag(Flags::C, false);
    nes.BCS();
    assert_eq!(pre_pc, nes.pc);
    assert_eq!(pre_addr, nes.addr_absolute);
    assert_eq!(pre_cycle, nes.cycles);
}

#[test]
fn test_beq() {
    let mut nes = CPU6502::new();

    //Test if zero set
    nes.reset();
    nes.addr_absolute = 0xFF;
    nes.addr_relative = 0x03;
    nes.pc = 0x10;
    let pre_pc = nes.pc;
    let pre_addr = nes.addr_absolute;
    let pre_cycle = nes.cycles;
    nes.set_flag(Flags::Z, true);
    nes.BEQ();
    assert_ne!(pre_pc, nes.pc);
    assert_ne!(pre_addr, nes.addr_absolute);
    assert_ne!(pre_cycle, nes.cycles);

    //Test if zero clear
    nes.reset();
    nes.addr_absolute = 0xFF;
    nes.addr_relative = 0x03;
    nes.pc = 0x10;
    let pre_pc = nes.pc;
    let pre_addr = nes.addr_absolute;
    let pre_cycle = nes.cycles;
    nes.set_flag(Flags::Z, false);
    nes.BEQ();
    assert_eq!(pre_pc, nes.pc);
    assert_eq!(pre_addr, nes.addr_absolute);
    assert_eq!(pre_cycle, nes.cycles);
}

#[test]
fn test_bit() {
    //Test for Zero flag set
    let mut nes = CPU6502::new();
    nes.addr_absolute = 0x000;
    nes.bus.ram[0x000] = 128;
    nes.a = 8;
    nes.BIT();
    assert_eq!(nes.get_flag(Flags::Z), 1);

    //Test for Negative flag
    nes.addr_absolute = 0x000;
    nes.bus.ram[0x000] = 255;
    nes.a = 8;
    nes.BIT();
    assert_eq!(nes.get_flag(Flags::N), 1);
    assert_eq!(nes.get_flag(Flags::Z), 0);

    //Test for overflow flag
    nes.addr_absolute = 0x000;
    nes.bus.ram[0x000] = 255;
    nes.a = 8;
    nes.BIT();
    assert_eq!(nes.get_flag(Flags::V), 1);
    assert_eq!(nes.get_flag(Flags::Z), 0);
}

#[test]
fn test_bmi() {
    let mut nes = CPU6502::new();

    //Test if negative set
    nes.reset();
    nes.addr_absolute = 0xFF;
    nes.addr_relative = 0x03;
    nes.pc = 0x10;
    let pre_pc = nes.pc;
    let pre_addr = nes.addr_absolute;
    let pre_cycle = nes.cycles;
    nes.set_flag(Flags::N, true);
    nes.BMI();
    assert_ne!(pre_pc, nes.pc);
    assert_ne!(pre_addr, nes.addr_absolute);
    assert_ne!(pre_cycle, nes.cycles);

    //Test if negative clear
    nes.reset();
    nes.addr_absolute = 0xFF;
    nes.addr_relative = 0x03;
    nes.pc = 0x10;
    let pre_pc = nes.pc;
    let pre_addr = nes.addr_absolute;
    let pre_cycle = nes.cycles;
    nes.set_flag(Flags::C, false);
    nes.BMI();
    assert_eq!(pre_pc, nes.pc);
    assert_eq!(pre_addr, nes.addr_absolute);
    assert_eq!(pre_cycle, nes.cycles);
}

#[test]
fn test_bne() {
    let mut nes = CPU6502::new();

    //Test if Zero set
    nes.reset();
    nes.addr_absolute = 0xFF;
    nes.addr_relative = 0x03;
    nes.pc = 0x10;
    let pre_pc = nes.pc;
    let pre_addr = nes.addr_absolute;
    let pre_cycle = nes.cycles;
    nes.set_flag(Flags::Z, true);
    nes.BNE();
    assert_eq!(pre_pc, nes.pc);
    assert_eq!(pre_addr, nes.addr_absolute);
    assert_eq!(pre_cycle, nes.cycles);

    //Test if Zero clear
    nes.reset();
    nes.addr_absolute = 0xFF;
    nes.addr_relative = 0x03;
    nes.pc = 0x10;
    let pre_pc = nes.pc;
    let pre_addr = nes.addr_absolute;
    let pre_cycle = nes.cycles;
    nes.set_flag(Flags::Z, false);
    nes.BNE();
    assert_ne!(pre_pc, nes.pc);
    assert_ne!(pre_addr, nes.addr_absolute);
    assert_ne!(pre_cycle, nes.cycles);
}

#[test]
fn test_bpl() {
    let mut nes = CPU6502::new();

    //Test if Negative set
    nes.reset();
    nes.addr_absolute = 0xFF;
    nes.addr_relative = 0x03;
    nes.pc = 0x10;
    let pre_pc = nes.pc;
    let pre_addr = nes.addr_absolute;
    let pre_cycle = nes.cycles;
    nes.set_flag(Flags::N, true);
    nes.BPL();
    assert_eq!(pre_pc, nes.pc);
    assert_eq!(pre_addr, nes.addr_absolute);
    assert_eq!(pre_cycle, nes.cycles);

    //Test if Negative clear
    nes.reset();
    nes.addr_absolute = 0xFF;
    nes.addr_relative = 0x03;
    nes.pc = 0x10;
    let pre_pc = nes.pc;
    let pre_addr = nes.addr_absolute;
    let pre_cycle = nes.cycles;
    nes.set_flag(Flags::N, false);
    nes.BPL();
    assert_ne!(pre_pc, nes.pc);
    assert_ne!(pre_addr, nes.addr_absolute);
    assert_ne!(pre_cycle, nes.cycles);
}

#[test]
fn test_brk_rti() 
{
    let mut nes = CPU6502::new();

    nes.reset();
    nes.addr_absolute = 0xFF;
    nes.addr_relative = 0x03;
    nes.pc = 0x16;
    let pre_pc = nes.pc;
    let pre_sptr = nes.sptr;
    nes.write(0xFFFE, &mut 40);
    nes.write(0xFFFF, &mut 5);

    nes.BRK();
    println!("{}", nes.pc);
    assert_ne!(pre_pc, nes.pc);
    assert_ne!(pre_sptr, nes.sptr);
    nes.RTI();
    assert_eq!(pre_pc, nes.pc - 1);
    assert_eq!(pre_sptr, nes.sptr);

}

#[test]
fn test_bvc() 
{
    let mut nes = CPU6502::new();

    //Test if Overflow set
    nes.reset();
    nes.addr_absolute = 0xFF;
    nes.addr_relative = 0x03;
    nes.pc = 0x10;
    let pre_pc = nes.pc;
    let pre_addr = nes.addr_absolute;
    let pre_cycle = nes.cycles;
    nes.set_flag(Flags::V, true);
    nes.BVC();
    assert_eq!(pre_pc, nes.pc);
    assert_eq!(pre_addr, nes.addr_absolute);
    assert_eq!(pre_cycle, nes.cycles);

    //Test if Overflow clear
    nes.reset();
    nes.addr_absolute = 0xFF;
    nes.addr_relative = 0x03;
    nes.pc = 0x10;
    let pre_pc = nes.pc;
    let pre_addr = nes.addr_absolute;
    let pre_cycle = nes.cycles;
    nes.set_flag(Flags::V, false);
    nes.BVC();
    assert_ne!(pre_pc, nes.pc);
    assert_ne!(pre_addr, nes.addr_absolute);
    assert_ne!(pre_cycle, nes.cycles);
}

#[test]
fn test_bvs() 
{
    let mut nes = CPU6502::new();

    //Test if Overflow set
    nes.reset();
    nes.addr_absolute = 0xFF;
    nes.addr_relative = 0x03;
    nes.pc = 0x10;
    let pre_pc = nes.pc;
    let pre_addr = nes.addr_absolute;
    let pre_cycle = nes.cycles;
    nes.set_flag(Flags::V, true);
    nes.BVS();
    assert_ne!(pre_pc, nes.pc);
    assert_ne!(pre_addr, nes.addr_absolute);
    assert_ne!(pre_cycle, nes.cycles);

    //Test if Overflow clear
    nes.reset();
    nes.addr_absolute = 0xFF;
    nes.addr_relative = 0x03;
    nes.pc = 0x10;
    let pre_pc = nes.pc;
    let pre_addr = nes.addr_absolute;
    let pre_cycle = nes.cycles;
    nes.set_flag(Flags::V, false);
    nes.BVS();
    assert_eq!(pre_pc, nes.pc);
    assert_eq!(pre_addr, nes.addr_absolute);
    assert_eq!(pre_cycle, nes.cycles);
}

#[test]
fn test_clc() 
{
    let mut nes = CPU6502::new();
    nes.reset();
    nes.set_flag(Flags::C, true);
    nes.CLC();
    assert_eq!(nes.get_flag(Flags::C), 0);
}

#[test]
fn test_cld() 
{
    let mut nes = CPU6502::new();
    nes.reset();
    nes.set_flag(Flags::D, true);
    nes.CLD();
    assert_eq!(nes.get_flag(Flags::D), 0);
}

#[test]
fn test_cli() 
{
    let mut nes = CPU6502::new();
    nes.reset();
    nes.set_flag(Flags::I, true);
    nes.CLI();
    assert_eq!(nes.get_flag(Flags::I), 0);
}

#[test]
fn test_clv() 
{
    let mut nes = CPU6502::new();
    nes.reset();
    nes.set_flag(Flags::V, true);
    nes.CLV();
    assert_eq!(nes.get_flag(Flags::V), 0);
}

#[test]
fn test_cmp() 
{
    //Test Zero flag set
    let mut nes = CPU6502::new();
    nes.a = 10;
    nes.addr_absolute = 0x0001;
    nes.bus.ram[0x0001] = 10;
    nes.CMP();
    assert_eq!(nes.get_flag(Flags::Z), 1);
    assert_eq!(nes.get_flag(Flags::C), 1);
    assert_eq!(nes.get_flag(Flags::N), 0);


    //Test Carry flag set
    nes.a = 15;
    nes.addr_absolute = 0x0001;
    nes.bus.ram[0x0001] = 10;
    nes.CMP();
    assert_eq!(nes.get_flag(Flags::Z), 0);
    assert_eq!(nes.get_flag(Flags::C), 1);
    assert_eq!(nes.get_flag(Flags::N), 0);

    //Test Negative flag set
    nes.a = 240;
    nes.addr_absolute = 0x0001;
    nes.bus.ram[0x0001] = 10;
    nes.CMP();
    assert_eq!(nes.get_flag(Flags::Z), 0);
    assert_eq!(nes.get_flag(Flags::C), 1);
    assert_eq!(nes.get_flag(Flags::N), 1);

}

#[test]
fn test_cpx() 
{
    //Test Zero flag set
    let mut nes = CPU6502::new();
    nes.x = 10;
    nes.addr_absolute = 0x0001;
    nes.bus.ram[0x0001] = 10;
    nes.CPX();
    assert_eq!(nes.get_flag(Flags::Z), 1);
    assert_eq!(nes.get_flag(Flags::C), 1);
    assert_eq!(nes.get_flag(Flags::N), 0);


    //Test Carry flag set
    nes.x = 15;
    nes.addr_absolute = 0x0001;
    nes.bus.ram[0x0001] = 10;
    nes.CPX();
    assert_eq!(nes.get_flag(Flags::Z), 0);
    assert_eq!(nes.get_flag(Flags::C), 1);
    assert_eq!(nes.get_flag(Flags::N), 0);

    //Test Negative flag set
    nes.x = 240;
    nes.addr_absolute = 0x0001;
    nes.bus.ram[0x0001] = 10;
    nes.CPX();
    assert_eq!(nes.get_flag(Flags::Z), 0);
    assert_eq!(nes.get_flag(Flags::C), 1);
    assert_eq!(nes.get_flag(Flags::N), 1);    
}

#[test]
fn test_cpy() 
{
    //Test Zero flag set
    let mut nes = CPU6502::new();
    nes.y = 10;
    nes.addr_absolute = 0x0001;
    nes.bus.ram[0x0001] = 10;
    nes.CPY();
    assert_eq!(nes.get_flag(Flags::Z), 1);
    assert_eq!(nes.get_flag(Flags::C), 1);
    assert_eq!(nes.get_flag(Flags::N), 0);


    //Test Carry flag set
    nes.y = 15;
    nes.addr_absolute = 0x0001;
    nes.bus.ram[0x0001] = 10;
    nes.CPY();
    assert_eq!(nes.get_flag(Flags::Z), 0);
    assert_eq!(nes.get_flag(Flags::C), 1);
    assert_eq!(nes.get_flag(Flags::N), 0);

    //Test Negative flag set
    nes.y = 240;
    nes.addr_absolute = 0x0001;
    nes.bus.ram[0x0001] = 10;
    nes.CPY();
    assert_eq!(nes.get_flag(Flags::Z), 0);
    assert_eq!(nes.get_flag(Flags::C), 1);
    assert_eq!(nes.get_flag(Flags::N), 1);     
}

#[test]
fn test_dec() 
{
    //Test decrement
    let mut nes = CPU6502::new();
    nes.addr_absolute = 0x0001;
    nes.bus.ram[0x0001] = 10;
    nes.DEC();
    assert_eq!(nes.bus.ram[0x0001], 9);
    
    //Test overflow
    let mut nes = CPU6502::new();
    nes.addr_absolute = 0x0001;
    nes.bus.ram[0x0001] = 0;
    nes.DEC();
    assert_eq!(nes.bus.ram[0x0001], 255);

    //Test Negative flag
    let mut nes = CPU6502::new();
    nes.addr_absolute = 0x0001;
    nes.bus.ram[0x0001] = 230;
    nes.DEC();
    assert_eq!(nes.get_flag(Flags::N), 1);     


}

#[test]
fn test_dex() 
{
    //Test decrement
    let mut nes = CPU6502::new();
    nes.x = 10;
    nes.DEX();
    assert_eq!(nes.x, 9);
    
    //Test overflow
    let mut nes = CPU6502::new();
    nes.x = 0;
    nes.DEX();
    assert_eq!(nes.x, 255);

    //Test Negative flag
    let mut nes = CPU6502::new();
    nes.x = 230;
    nes.DEX();
    assert_eq!(nes.get_flag(Flags::N), 1);      
}

#[test]
fn test_dey() 
{
    //Test decrement
    let mut nes = CPU6502::new();
    nes.y = 10;
    nes.DEY();
    assert_eq!(nes.y, 9);
    
    //Test underflow
    let mut nes = CPU6502::new();
    nes.y = 0;
    nes.DEY();
    assert_eq!(nes.y, 255);

    //Test Negative flag
    let mut nes = CPU6502::new();
    nes.y = 230;
    nes.DEY();
    assert_eq!(nes.get_flag(Flags::N), 1);   
}

#[test]
fn test_eor()
{
    let mut nes = CPU6502::new();
    nes.addr_absolute = 0x001;
    nes.bus.ram[0x001] = 10;
    nes.a = 28;
    nes.EOR();
    assert_eq!(nes.a, 22);

    //Test Zero Flag
    let mut nes = CPU6502::new();
    nes.addr_absolute = 0x001;
    nes.bus.ram[0x001] = 28;
    nes.a = 28;
    nes.EOR();
    assert_eq!(nes.a, 0);
    assert_eq!(nes.get_flag(Flags::Z), 1);   

     //Test Negative Flag
     let mut nes = CPU6502::new();
     nes.addr_absolute = 0x001;
     nes.bus.ram[0x001] = 240;
     nes.a = 28;
     nes.EOR();
     assert_eq!(nes.a, 236);
     assert_eq!(nes.get_flag(Flags::N), 1);      
}

#[test]
fn test_inc(){
    //Test increment
    let mut nes = CPU6502::new();
    nes.addr_absolute = 0x0001;
    nes.bus.ram[0x0001] = 10;
    nes.INC();
    assert_eq!(nes.bus.ram[0x0001], 11);
    
    //Test overflow
    let mut nes = CPU6502::new();
    nes.addr_absolute = 0x0001;
    nes.bus.ram[0x0001] = 255;
    nes.INC();
    assert_eq!(nes.bus.ram[0x0001], 0);

    //Test Negative flag
    let mut nes = CPU6502::new();
    nes.addr_absolute = 0x0001;
    nes.bus.ram[0x0001] = 230;
    nes.INC();
    assert_eq!(nes.bus.ram[0x0001], 231);
    assert_eq!(nes.get_flag(Flags::N), 1);   
}

#[test]
fn test_inx(){
    //Test decrement
    let mut nes = CPU6502::new();
    nes.x = 10;
    nes.INX();
    assert_eq!(nes.x, 11);
    
    //Test underflow
    let mut nes = CPU6502::new();
    nes.x = 255;
    nes.INX();
    assert_eq!(nes.x, 0);

    //Test Negative flag
    let mut nes = CPU6502::new();
    nes.x = 230;
    nes.INX();
    assert_eq!(nes.get_flag(Flags::N), 1); 
}

#[test]
fn test_iny(){
    //Test decrement
    let mut nes = CPU6502::new();
    nes.y = 10;
    nes.INY();
    assert_eq!(nes.y, 11);
    
    //Test underflow
    let mut nes = CPU6502::new();
    nes.y = 255;
    nes.INY();
    assert_eq!(nes.y, 0);

    //Test Negative flag
    let mut nes = CPU6502::new();
    nes.y = 230;
    nes.INY();
    assert_eq!(nes.get_flag(Flags::N), 1);     
}

#[test]
fn test_jmp(){
    let mut nes = CPU6502::new();
    nes.pc = 1000;
    nes.addr_absolute = 12000;
    nes.JMP();
    assert_eq!(nes.pc, nes.addr_absolute);
    assert_ne!(nes.pc, 1000);
}

#[test]
fn test_jsr_rts()
{
    let mut nes = CPU6502::new();
    //JSR
    nes.reset();
    nes.addr_absolute = 100;
    nes.pc = 12;

    nes.JSR();
    assert_eq!(nes.pc, 100);
    assert_eq!(nes.sptr, 0xFD - 2);
    assert_eq!(nes.bus.ram[nes.sptr as usize + 0x0101], 11);
    //RTS
    nes.RTS();
    assert_eq!(nes.pc, 12);
    assert_eq!(nes.sptr, 0xFD);

}

#[test]
fn test_lda()
{
    //Test Load
    let mut nes = CPU6502::new();
    nes.addr_absolute = 0x0001;
    nes.bus.ram[0x0001] = 20;
    nes.LDA();
    assert_eq!(nes.a, 20);
    assert_eq!(nes.get_flag(Flags::Z), 0);     
    assert_eq!(nes.get_flag(Flags::N), 0);  
    
    //Test Zero
    nes.addr_absolute = 0x0001;
    nes.bus.ram[0x0001] = 0;
    nes.LDA();
    assert_eq!(nes.a, 0);
    assert_eq!(nes.get_flag(Flags::Z), 1);     
    assert_eq!(nes.get_flag(Flags::N), 0);  
    
    //Test Negative
    nes.addr_absolute = 0x0001;
    nes.bus.ram[0x0001] = 230;
    nes.LDA();
    assert_eq!(nes.a, 230);
    assert_eq!(nes.get_flag(Flags::Z), 0);     
    assert_eq!(nes.get_flag(Flags::N), 1);       

}

#[test]
fn test_ldx(){
    //Test Load
    let mut nes = CPU6502::new();
    nes.addr_absolute = 0x0001;
    nes.bus.ram[0x0001] = 20;
    nes.LDX();
    assert_eq!(nes.x, 20);
    assert_eq!(nes.get_flag(Flags::Z), 0);     
    assert_eq!(nes.get_flag(Flags::N), 0);  
    
    //Test Zero
    nes.addr_absolute = 0x0001;
    nes.bus.ram[0x0001] = 0;
    nes.LDX();
    assert_eq!(nes.x, 0);
    assert_eq!(nes.get_flag(Flags::Z), 1);     
    assert_eq!(nes.get_flag(Flags::N), 0);  
    
    //Test Negative
    nes.addr_absolute = 0x0001;
    nes.bus.ram[0x0001] = 230;
    nes.LDX();
    assert_eq!(nes.x, 230);
    assert_eq!(nes.get_flag(Flags::Z), 0);     
    assert_eq!(nes.get_flag(Flags::N), 1);   
}

#[test]
fn test_ldy(){
    //Test Load
    let mut nes = CPU6502::new();
    nes.addr_absolute = 0x0001;
    nes.bus.ram[0x0001] = 20;
    nes.LDY();
    assert_eq!(nes.y, 20);
    assert_eq!(nes.get_flag(Flags::Z), 0);     
    assert_eq!(nes.get_flag(Flags::N), 0);  
    
    //Test Zero
    nes.addr_absolute = 0x0001;
    nes.bus.ram[0x0001] = 0;
    nes.LDY();
    assert_eq!(nes.y, 0);
    assert_eq!(nes.get_flag(Flags::Z), 1);     
    assert_eq!(nes.get_flag(Flags::N), 0);  
    
    //Test Negative
    nes.addr_absolute = 0x0001;
    nes.bus.ram[0x0001] = 230;
    nes.LDY();
    assert_eq!(nes.y, 230);
    assert_eq!(nes.get_flag(Flags::Z), 0);     
    assert_eq!(nes.get_flag(Flags::N), 1);   
}

#[test]
fn test_lsr(){
    let mut nes = CPU6502::new();
    nes.addr_absolute = 0x000;
    nes.bus.ram[0x000] = 17;
    nes.LSR();
    assert_eq!(nes.bus.ram[nes.addr_absolute as usize], 8);

    nes.bus.ram[0x000] = 30;
    nes.LSR();
    assert_eq!(nes.bus.ram[nes.addr_absolute as usize], 15);

    nes.bus.ram[0x000] = 255;
    nes.LSR();
    assert_eq!(nes.bus.ram[nes.addr_absolute as usize], 127);
    assert_eq!(nes.get_flag(Flags::C), 1);
    assert_eq!(nes.get_flag(Flags::N), 0);
}

#[test]
fn test_ora(){
    let mut nes = CPU6502::new();
    nes.addr_absolute = 0x000;
    nes.bus.ram[0x000] = 130;
    nes.a = 40;
    nes.ORA();
    assert_eq!(nes.a, 170);

    nes.bus.ram[0x000] = 250;
    nes.a = 250;
    nes.ORA();
    assert_eq!(nes.a, 250);

    nes.bus.ram[0x000] = 0;
    nes.a = 0;
    nes.ORA();
    assert_eq!(nes.a, 0);
    assert_eq!(nes.get_flag(Flags::Z), 1);
}

#[test]
fn test_pha()
{
    let mut nes = CPU6502::new();
    nes.reset();
    nes.a = 10;
    nes.PHA();
    let stack = nes.read(0x0100 + nes.sptr as u16 + 1 );
    assert_eq!(stack, 10);
}

#[test]
fn test_php()
{
    //Test with all flags off
    let mut nes = CPU6502::new();
    nes.reset();
    nes.PHP();
    let stack = nes.read(0x0100 + nes.sptr as u16 + 1);
    assert_eq!(stack, 48);  //As final result is OR'd with 16 and 32

    //Test with all flags on 
    nes.reset();
    nes.set_flag(Flags::C, true);
    nes.set_flag(Flags::Z, true);
    nes.set_flag(Flags::I, true);
    nes.set_flag(Flags::D, true);
    nes.set_flag(Flags::B, true);
    nes.set_flag(Flags::U, true);
    nes.set_flag(Flags::V, true);
    nes.set_flag(Flags::N, true);

    nes.PHP();
    let stack = nes.read(0x0100 + nes.sptr as u16 + 1);
    assert_eq!(stack, 255);  

    //Test with just Negative and Clear
    nes.reset();
    nes.set_flag(Flags::C, true);
    nes.set_flag(Flags::Z, false);
    nes.set_flag(Flags::I, false);
    nes.set_flag(Flags::D, false);
    nes.set_flag(Flags::B, false);
    nes.set_flag(Flags::U, false);
    nes.set_flag(Flags::V, false);
    nes.set_flag(Flags::N, true);

    nes.PHP();
    let stack = nes.read(0x0100 + nes.sptr as u16 + 1);
    assert_eq!(stack, 177);  

}

#[test]
fn test_pla()
{
    let mut nes = CPU6502::new();
    nes.reset();
    nes.write(0x0100 + nes.sptr as u16, &mut 30);
    nes.PLA();
    let stack = nes.read(0x0100 + nes.sptr as u16 - 1 );
    assert_eq!(stack, 30);
}

#[test]
fn test_plp()
{
    let mut nes = CPU6502::new();
    nes.reset();
    nes.write(0x0100 + (nes.sptr as u16 + 1), &mut 176);
    nes.PLP();
    assert_eq!(nes.sr, 176);
}

#[test]
fn test_rol(){
    let mut nes = CPU6502::new();
    nes.reset();
    nes.bus.ram[0x001] = 10;
    nes.addr_absolute = 0x001;
    nes.ROL();
    assert_eq!(nes.bus.ram[0x001], 20);

    //Test Zero flag is set
    nes.reset();
    nes.bus.ram[0x001] = 0;
    nes.addr_absolute = 0x001;
    nes.ROL();
    assert_eq!(nes.bus.ram[0x001], 0);
    assert_eq!(nes.get_flag(Flags::Z), 1);  
    
    //Test Negative flag is set
    nes.reset();
    nes.bus.ram[0x001] = 120;
    nes.addr_absolute = 0x001;
    nes.ROL();
    assert_eq!(nes.bus.ram[0x001], 240);
    assert_eq!(nes.get_flag(Flags::N), 1);  
}

#[test]
fn test_ror(){
    let mut nes = CPU6502::new();
    nes.reset();
    nes.bus.ram[0x001] = 10;
    nes.addr_absolute = 0x001;
    nes.ROR();
    assert_eq!(nes.bus.ram[0x001], 5);

    //Test Zero flag is set
    nes.reset();
    nes.bus.ram[0x001] = 1;
    nes.addr_absolute = 0x001;
    nes.ROR();
    assert_eq!(nes.bus.ram[0x001], 0);
    assert_eq!(nes.get_flag(Flags::Z), 1);  
    
    //Test Negative flag is never set
    nes.reset();
    nes.bus.ram[0x001] = 255;
    nes.addr_absolute = 0x001;
    nes.ROR();
    assert_eq!(nes.bus.ram[0x001], 127);
    assert_eq!(nes.get_flag(Flags::N), 0);  

}

#[test]
fn test_sec()
{
    let mut nes = CPU6502::new();
    nes.reset();
    assert_eq!(nes.get_flag(Flags::C), 0);  
    nes.SEC();
    assert_eq!(nes.get_flag(Flags::C), 1);  
}

#[test]
fn test_sed(){
    let mut nes = CPU6502::new();
    nes.reset();
    assert_eq!(nes.get_flag(Flags::D), 0);  
    nes.SED();
    assert_eq!(nes.get_flag(Flags::D), 1);  
}

#[test]
fn test_sei(){
    let mut nes = CPU6502::new();
    nes.reset();
    assert_eq!(nes.get_flag(Flags::I), 0);  
    nes.SEI();
    assert_eq!(nes.get_flag(Flags::I), 1);  
}

#[test]
fn test_sta()
{
    let mut nes = CPU6502::new();
    nes.reset();
    nes.a = 10;
    nes.addr_absolute = 0x010;
    nes.STA();
    assert_eq!(nes.a, nes.bus.ram[0x010]);
}

#[test]
fn test_stx(){
    let mut nes = CPU6502::new();
    nes.reset();
    nes.x = 10;
    nes.addr_absolute = 0x010;
    nes.STX();
    assert_eq!(nes.x, nes.bus.ram[0x010]);
}

#[test]
fn test_sty(){
    let mut nes = CPU6502::new();
    nes.reset();
    nes.y = 10;
    nes.addr_absolute = 0x010;
    nes.STY();
    assert_eq!(nes.y, nes.bus.ram[0x010]);
}

#[test]
fn test_tax()
{
    let mut nes = CPU6502::new();
    nes.reset();
    nes.a = 10;
    assert_ne!(nes.a, nes.x);
    nes.TAX();
    assert_eq!(nes.a, nes.x);
}

#[test]
fn test_tay()
{
    let mut nes = CPU6502::new();
    nes.reset();
    nes.a = 10;
    assert_ne!(nes.a, nes.y);
    nes.TAY();
    assert_eq!(nes.a, nes.y);
}

#[test]
fn test_tsx()
{
    let mut nes = CPU6502::new();
    nes.reset();
    assert_ne!(nes.sptr, nes.x);
    nes.TSX();
    assert_eq!(nes.sptr, nes.x);
}

#[test]
fn test_txa()
{
    let mut nes = CPU6502::new();
    nes.reset();
    nes.x = 10;
    assert_ne!(nes.a, nes.x);
    nes.TXA();
    assert_eq!(nes.a, nes.x);
    assert_eq!(nes.a, 10);
}

#[test]
fn test_txs()
{
    let mut nes = CPU6502::new();
    nes.reset();
    nes.x = 10;
    assert_ne!(nes.sptr, nes.x);
    nes.TXS();
    assert_eq!(nes.sptr, nes.x);
}

#[test]
fn test_tya()
{
    let mut nes = CPU6502::new();
    nes.reset();
    nes.y = 10;
    assert_ne!(nes.a, nes.y);
    nes.TYA();
    assert_eq!(nes.a, nes.y);
    assert_eq!(nes.a, 10);
}
