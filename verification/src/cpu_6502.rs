//! The 6502 CPU: registers, status flags, the 256-entry instruction
//! table crossing 13 addressing modes and 56 operations, interrupt
//! handling, and the per-cycle execution engine.

use vstd::prelude::*;
use crate::bit_facts::bit_put;
use crate::bus::Bus;

verus! {

/// One status-register flag of the 6502.
#[derive(Copy, Clone, PartialEq, Eq, Structural)]
pub enum Flags {
    /// Carry.
    C,
    /// Zero.
    Z,
    /// Interrupt disable.
    I,
    /// Decimal mode (unused on the NES).
    D,
    /// Break.
    B,
    /// Unused; ordinarily held set.
    U,
    /// Overflow.
    V,
    /// Negative.
    N,
}

/// The bit each flag occupies inside the status register.
pub open spec fn spec_flag_bit(flag: Flags) -> u8 {
    match flag {
        Flags::C => 0x01,
        Flags::Z => 0x02,
        Flags::I => 0x04,
        Flags::D => 0x08,
        Flags::B => 0x10,
        Flags::U => 0x20,
        Flags::V => 0x40,
        Flags::N => 0x80,
    }
}

/// The flag is set in the status byte.
pub open spec fn spec_flag(sr: u8, flag: Flags) -> bool {
    sr & spec_flag_bit(flag) != 0
}

/// The status byte with one flag set or cleared.
pub open spec fn spec_put_flag(sr: u8, flag: Flags, v: bool) -> u8 {
    bit_put(sr, spec_flag_bit(flag), v)
}

impl Flags {
    /// The mask of this flag inside the 8-bit status register.
    pub fn bit(self) -> (b: u8)
        ensures
            b == spec_flag_bit(self),
    {
        match self {
            Flags::C => 0x01,
            Flags::Z => 0x02,
            Flags::I => 0x04,
            Flags::D => 0x08,
            Flags::B => 0x10,
            Flags::U => 0x20,
            Flags::V => 0x40,
            Flags::N => 0x80,
        }
    }
}

/// An addressing mode tag.
#[derive(Copy, Clone, PartialEq, Eq, Structural)]
pub enum AddrMode {
    IMP,
    IMM,
    ZP0,
    ZPX,
    ZPY,
    ABS,
    ABX,
    ABY,
    IND,
    IZX,
    IZY,
    REL,
}

/// An operation tag: the 56 documented operations, the unofficial NOPs
/// and the ILL catch-all for the remaining undocumented opcodes.
#[derive(Copy, Clone, PartialEq, Eq, Structural)]
pub enum Op {
    ADC,
    AND,
    ASL,
    BCC,
    BCS,
    BEQ,
    BIT,
    BMI,
    BNE,
    BPL,
    BRK,
    BVC,
    BVS,
    CLC,
    CLD,
    CLI,
    CLV,
    CMP,
    CPX,
    CPY,
    DEC,
    DEX,
    DEY,
    EOR,
    ILL,
    INC,
    INX,
    INY,
    JMP,
    JSR,
    LDA,
    LDX,
    LDY,
    LSR,
    NOP,
    ORA,
    PHA,
    PHP,
    PLA,
    PLP,
    ROL,
    ROR,
    RTI,
    RTS,
    SBC,
    SEC,
    SED,
    SEI,
    STA,
    STX,
    STY,
    TAX,
    TAY,
    TSX,
    TXA,
    TXS,
    TYA,
}

/// One instruction table entry.
#[derive(Copy, Clone, PartialEq, Eq, Structural)]
pub struct Instr {
    pub op: Op,
    pub mode: AddrMode,
    pub cycles: u8,
}

pub struct CPU6502 {
    pub bus: Bus,
    pub a: u8,
    pub x: u8,
    pub y: u8,
    pub sptr: u8,
    pub pc: u16,
    pub sr: u8,

    pub fetched: u8,
    pub addr_absolute: u16,
    pub addr_relative: u16,
    pub opcode: u8,
    pub cycles: u8,
}

impl CPU6502 {
    pub open spec fn wf(&self) -> bool {
        self.bus.wf()
    }

    pub fn new() -> (c: CPU6502)
        ensures
            c.wf(),
            c.a == 0 && c.x == 0 && c.y == 0 && c.sptr == 0 && c.pc == 0 && c.sr == 0,
            c.fetched == 0 && c.addr_absolute == 0 && c.addr_relative == 0 && c.opcode == 0
                && c.cycles == 0,
            c.bus.ram@ == Seq::<u8>::new(65536, |i: int| 0u8),
            c.bus.ppu.cartridge is None,
            c.bus.nmi_required == false,
            c.bus.irq_required == false,
            c.bus.dma_transfer == false,
            c.bus.controller_state@ == seq![0u8, 0u8],
    {
        let bus = Bus::new();
        CPU6502 {
            bus,
            a: 0x00,
            x: 0x00,
            y: 0x00,
            sptr: 0x00,
            pc: 0x0000,
            sr: 0x00,
            fetched: 0x00,
            addr_absolute: 0x0000,
            addr_relative: 0x0000,
            opcode: 0x00,
            cycles: 0,
        }
    }

    /// The stack pointer steps down, wrapping from 0 to 255.
    pub fn subtract_stack(&mut self)
        ensures
            *final(self) == (CPU6502 {
                sptr: ((old(self).sptr + 255) % 256) as u8,
                ..*old(self)
            }),
    {
        if self.sptr != 0 {
            self.sptr = self.sptr - 1;
        } else {
            self.sptr = 255;
        }
    }

    /// The program counter steps up, wrapping from 65535 to 0.
    pub fn add_pc(&mut self)
        ensures
            *final(self) == (CPU6502 {
                pc: ((old(self).pc + 1) % 65536) as u16,
                ..*old(self)
            }),
    {
        if self.pc != 65535 {
            self.pc = self.pc + 1;
        } else {
            self.pc = 0;
        }
    }

    /// The stack pointer steps up, wrapping from 255 to 0.
    pub fn add_stack(&mut self)
        ensures
            *final(self) == (CPU6502 {
                sptr: ((old(self).sptr + 1) % 256) as u8,
                ..*old(self)
            }),
    {
        if self.sptr != 255 {
            self.sptr = self.sptr + 1;
        } else {
            self.sptr = 0;
        }
    }

    /// Read one status flag as 0 or 1.
    pub fn get_flag(&mut self, flag: Flags) -> (v: u8)
        ensures
            *final(self) == *old(self),
            v == (if spec_flag(old(self).sr, flag) {
                1u8
            } else {
                0u8
            }),
    {
        if self.sr & flag.bit() > 0 {
            return 1;
        } else {
            return 0;
        }
    }

    /// Set or clear one status flag.
    pub fn set_flag(&mut self, flag: Flags, v: bool)
        ensures
            *final(self) == (CPU6502 { sr: spec_put_flag(old(self).sr, flag, v), ..*old(self) }),
    {
        if v == true {
            self.sr = self.sr | flag.bit();
        } else {
            self.sr = self.sr & !flag.bit();
        }
    }

    /// Read one byte through the bus.
    pub fn read(&mut self, addr: u16) -> (data: u8)
        requires
            old(self).wf(),
        ensures
            final(self).wf(),
            Bus::spec_read_rel(&old(self).bus, &final(self).bus, addr, data),
            *final(self) == (CPU6502 { bus: final(self).bus, ..*old(self) }),
            final(self).bus.system_clock == old(self).bus.system_clock,
            final(self).bus.ppu.dot_count == old(self).bus.ppu.dot_count,
            final(self).bus.ppu.frame_complete == old(self).bus.ppu.frame_complete,
            final(self).bus.ppu.scanline == old(self).bus.ppu.scanline,
            final(self).bus.ppu.cycle == old(self).bus.ppu.cycle,
            final(self).bus.apu.global_time == old(self).bus.apu.global_time,
    {
        proof {
            crate::bus::lemma_rel_preserves_clocks();
        }
        return self.bus.cpu_read(addr, false);
    }

    /// Write one byte through the bus.
    pub fn write(&mut self, addr: u16, data: &mut u8)
        requires
            old(self).wf(),
        ensures
            final(self).wf(),
            *final(data) == *old(data),
            Bus::spec_write_rel(&old(self).bus, &final(self).bus, addr, *old(data)),
            *final(self) == (CPU6502 { bus: final(self).bus, ..*old(self) }),
            final(self).bus.system_clock == old(self).bus.system_clock,
            final(self).bus.ppu.dot_count == old(self).bus.ppu.dot_count,
            final(self).bus.ppu.frame_complete == old(self).bus.ppu.frame_complete,
            final(self).bus.ppu.scanline == old(self).bus.ppu.scanline,
            final(self).bus.ppu.cycle == old(self).bus.ppu.cycle,
            final(self).bus.apu.global_time == old(self).bus.apu.global_time,
    {
        proof {
            crate::bus::lemma_rel_preserves_clocks();
        }
        self.bus.cpu_write(addr, data);
    }

    /// The instruction has used up its cycle budget.
    pub fn complete(&mut self) -> (done: bool)
        ensures
            *final(self) == *old(self),
            done == (old(self).cycles == 0),
    {
        return self.cycles == 0;
    }

    /// Load the operand: the accumulator-implied modes already hold it in
    /// `fetched`; every other mode reads through the effective address.
    pub fn fetch(&mut self) -> (d: u8)
        requires
            old(self).wf(),
        ensures
            final(self).wf(),
            d == final(self).fetched,
            spec_fetch_rel(old(self), final(self)),
            *final(self) == (CPU6502 {
                bus: final(self).bus,
                fetched: final(self).fetched,
                ..*old(self)
            }),
            final(self).bus.system_clock == old(self).bus.system_clock,
            final(self).bus.ppu.dot_count == old(self).bus.ppu.dot_count,
            final(self).bus.ppu.frame_complete == old(self).bus.ppu.frame_complete,
            final(self).bus.ppu.scanline == old(self).bus.ppu.scanline,
            final(self).bus.ppu.cycle == old(self).bus.ppu.cycle,
            final(self).bus.apu.global_time == old(self).bus.apu.global_time,
    {
        let ins = instruction(self.opcode);
        if !(matches!(ins.mode, AddrMode::IMP)) {
            self.fetched = self.read(self.addr_absolute);
        }
        return self.fetched;
    }
}

/// How a `fetch` relates the machine before and after it: under an
/// accumulator-implied opcode nothing happens; otherwise one bus read at
/// the effective address supplies `fetched`.
pub open spec fn spec_fetch_rel(pre: &CPU6502, post: &CPU6502) -> bool {
    if spec_instruction(pre.opcode).mode is IMP {
        post.fetched == pre.fetched && post.bus == pre.bus
    } else {
        Bus::spec_read_rel(&pre.bus, &post.bus, pre.addr_absolute, post.fetched)
    }
}

/// The 256-entry instruction table: operation, addressing mode and base
/// cycle count for each opcode.
#[verifier::opaque]
pub open spec fn spec_instruction(opcode: u8) -> Instr {
    match opcode {
        0 => (Instr { op: Op::BRK, mode: AddrMode::IMM, cycles: 7 }),
        1 => (Instr { op: Op::ORA, mode: AddrMode::IZX, cycles: 6 }),
        2 => (Instr { op: Op::ILL, mode: AddrMode::IMP, cycles: 2 }),
        3 => (Instr { op: Op::ILL, mode: AddrMode::IMP, cycles: 8 }),
        4 => (Instr { op: Op::NOP, mode: AddrMode::IMP, cycles: 3 }),
        5 => (Instr { op: Op::ORA, mode: AddrMode::ZP0, cycles: 3 }),
        6 => (Instr { op: Op::ASL, mode: AddrMode::ZP0, cycles: 5 }),
        7 => (Instr { op: Op::ILL, mode: AddrMode::IMP, cycles: 5 }),
        8 => (Instr { op: Op::PHP, mode: AddrMode::IMP, cycles: 3 }),
        9 => (Instr { op: Op::ORA, mode: AddrMode::IMM, cycles: 2 }),
        10 => (Instr { op: Op::ASL, mode: AddrMode::IMP, cycles: 2 }),
        11 => (Instr { op: Op::ILL, mode: AddrMode::IMP, cycles: 2 }),
        12 => (Instr { op: Op::NOP, mode: AddrMode::IMP, cycles: 4 }),
        13 => (Instr { op: Op::ORA, mode: AddrMode::ABS, cycles: 4 }),
        14 => (Instr { op: Op::ASL, mode: AddrMode::ABS, cycles: 6 }),
        15 => (Instr { op: Op::ILL, mode: AddrMode::IMP, cycles: 6 }),
        16 => (Instr { op: Op::BPL, mode: AddrMode::REL, cycles: 2 }),
        17 => (Instr { op: Op::ORA, mode: AddrMode::IZY, cycles: 5 }),
        18 => (Instr { op: Op::ILL, mode: AddrMode::IMP, cycles: 2 }),
        19 => (Instr { op: Op::ILL, mode: AddrMode::IMP, cycles: 8 }),
        20 => (Instr { op: Op::NOP, mode: AddrMode::IMP, cycles: 4 }),
        21 => (Instr { op: Op::ORA, mode: AddrMode::ZPX, cycles: 4 }),
        22 => (Instr { op: Op::ASL, mode: AddrMode::ZPX, cycles: 6 }),
        23 => (Instr { op: Op::ILL, mode: AddrMode::IMP, cycles: 6 }),
        24 => (Instr { op: Op::CLC, mode: AddrMode::IMP, cycles: 2 }),
        25 => (Instr { op: Op::ORA, mode: AddrMode::ABY, cycles: 4 }),
        26 => (Instr { op: Op::NOP, mode: AddrMode::IMP, cycles: 2 }),
        27 => (Instr { op: Op::ILL, mode: AddrMode::IMP, cycles: 7 }),
        28 => (Instr { op: Op::NOP, mode: AddrMode::IMP, cycles: 4 }),
        29 => (Instr { op: Op::ORA, mode: AddrMode::ABX, cycles: 4 }),
        30 => (Instr { op: Op::ASL, mode: AddrMode::ABX, cycles: 7 }),
        31 => (Instr { op: Op::ILL, mode: AddrMode::IMP, cycles: 7 }),
        32 => (Instr { op: Op::JSR, mode: AddrMode::ABS, cycles: 6 }),
        33 => (Instr { op: Op::AND, mode: AddrMode::IZX, cycles: 6 }),
        34 => (Instr { op: Op::ILL, mode: AddrMode::IMP, cycles: 2 }),
        35 => (Instr { op: Op::ILL, mode: AddrMode::IMP, cycles: 8 }),
        36 => (Instr { op: Op::BIT, mode: AddrMode::ZP0, cycles: 3 }),
        37 => (Instr { op: Op::AND, mode: AddrMode::ZP0, cycles: 3 }),
        38 => (Instr { op: Op::ROL, mode: AddrMode::ZP0, cycles: 5 }),
        39 => (Instr { op: Op::ILL, mode: AddrMode::IMP, cycles: 5 }),
        40 => (Instr { op: Op::PLP, mode: AddrMode::IMP, cycles: 4 }),
        41 => (Instr { op: Op::AND, mode: AddrMode::IMM, cycles: 2 }),
        42 => (Instr { op: Op::ROL, mode: AddrMode::IMP, cycles: 2 }),
        43 => (Instr { op: Op::ILL, mode: AddrMode::IMP, cycles: 2 }),
        44 => (Instr { op: Op::BIT, mode: AddrMode::ABS, cycles: 4 }),
        45 => (Instr { op: Op::AND, mode: AddrMode::ABS, cycles: 4 }),
        46 => (Instr { op: Op::ROL, mode: AddrMode::ABS, cycles: 6 }),
        47 => (Instr { op: Op::ILL, mode: AddrMode::IMP, cycles: 6 }),
        48 => (Instr { op: Op::BMI, mode: AddrMode::REL, cycles: 2 }),
        49 => (Instr { op: Op::AND, mode: AddrMode::IZY, cycles: 5 }),
        50 => (Instr { op: Op::ILL, mode: AddrMode::IMP, cycles: 2 }),
        51 => (Instr { op: Op::ILL, mode: AddrMode::IMP, cycles: 8 }),
        52 => (Instr { op: Op::NOP, mode: AddrMode::IMP, cycles: 4 }),
        53 => (Instr { op: Op::AND, mode: AddrMode::ZPX, cycles: 4 }),
        54 => (Instr { op: Op::ROL, mode: AddrMode::ZPX, cycles: 6 }),
        55 => (Instr { op: Op::ILL, mode: AddrMode::IMP, cycles: 6 }),
        56 => (Instr { op: Op::SEC, mode: AddrMode::IMP, cycles: 2 }),
        57 => (Instr { op: Op::AND, mode: AddrMode::ABY, cycles: 4 }),
        58 => (Instr { op: Op::NOP, mode: AddrMode::IMP, cycles: 2 }),
        59 => (Instr { op: Op::ILL, mode: AddrMode::IMP, cycles: 7 }),
        60 => (Instr { op: Op::NOP, mode: AddrMode::IMP, cycles: 4 }),
        61 => (Instr { op: Op::AND, mode: AddrMode::ABX, cycles: 4 }),
        62 => (Instr { op: Op::ROL, mode: AddrMode::ABX, cycles: 7 }),
        63 => (Instr { op: Op::ILL, mode: AddrMode::IMP, cycles: 7 }),
        64 => (Instr { op: Op::RTI, mode: AddrMode::IMP, cycles: 6 }),
        65 => (Instr { op: Op::EOR, mode: AddrMode::IZX, cycles: 6 }),
        66 => (Instr { op: Op::ILL, mode: AddrMode::IMP, cycles: 2 }),
        67 => (Instr { op: Op::ILL, mode: AddrMode::IMP, cycles: 8 }),
        68 => (Instr { op: Op::NOP, mode: AddrMode::IMP, cycles: 3 }),
        69 => (Instr { op: Op::EOR, mode: AddrMode::ZP0, cycles: 3 }),
        70 => (Instr { op: Op::LSR, mode: AddrMode::ZP0, cycles: 5 }),
        71 => (Instr { op: Op::ILL, mode: AddrMode::IMP, cycles: 5 }),
        72 => (Instr { op: Op::PHA, mode: AddrMode::IMP, cycles: 3 }),
        73 => (Instr { op: Op::EOR, mode: AddrMode::IMM, cycles: 2 }),
        74 => (Instr { op: Op::LSR, mode: AddrMode::IMP, cycles: 2 }),
        75 => (Instr { op: Op::ILL, mode: AddrMode::IMP, cycles: 2 }),
        76 => (Instr { op: Op::JMP, mode: AddrMode::ABS, cycles: 3 }),
        77 => (Instr { op: Op::EOR, mode: AddrMode::ABS, cycles: 4 }),
        78 => (Instr { op: Op::LSR, mode: AddrMode::ABS, cycles: 6 }),
        79 => (Instr { op: Op::ILL, mode: AddrMode::IMP, cycles: 6 }),
        80 => (Instr { op: Op::BVC, mode: AddrMode::REL, cycles: 2 }),
        81 => (Instr { op: Op::EOR, mode: AddrMode::IZY, cycles: 5 }),
        82 => (Instr { op: Op::ILL, mode: AddrMode::IMP, cycles: 2 }),
        83 => (Instr { op: Op::ILL, mode: AddrMode::IMP, cycles: 8 }),
        84 => (Instr { op: Op::NOP, mode: AddrMode::IMP, cycles: 4 }),
        85 => (Instr { op: Op::EOR, mode: AddrMode::ZPX, cycles: 4 }),
        86 => (Instr { op: Op::LSR, mode: AddrMode::ZPX, cycles: 6 }),
        87 => (Instr { op: Op::ILL, mode: AddrMode::IMP, cycles: 6 }),
        88 => (Instr { op: Op::CLI, mode: AddrMode::IMP, cycles: 2 }),
        89 => (Instr { op: Op::EOR, mode: AddrMode::ABY, cycles: 4 }),
        90 => (Instr { op: Op::NOP, mode: AddrMode::IMP, cycles: 2 }),
        91 => (Instr { op: Op::ILL, mode: AddrMode::IMP, cycles: 7 }),
        92 => (Instr { op: Op::NOP, mode: AddrMode::IMP, cycles: 4 }),
        93 => (Instr { op: Op::EOR, mode: AddrMode::ABX, cycles: 4 }),
        94 => (Instr { op: Op::LSR, mode: AddrMode::ABX, cycles: 7 }),
        95 => (Instr { op: Op::ILL, mode: AddrMode::IMP, cycles: 7 }),
        96 => (Instr { op: Op::RTS, mode: AddrMode::IMP, cycles: 6 }),
        97 => (Instr { op: Op::ADC, mode: AddrMode::IZX, cycles: 6 }),
        98 => (Instr { op: Op::ILL, mode: AddrMode::IMP, cycles: 2 }),
        99 => (Instr { op: Op::ILL, mode: AddrMode::IMP, cycles: 8 }),
        100 => (Instr { op: Op::NOP, mode: AddrMode::IMP, cycles: 3 }),
        101 => (Instr { op: Op::ADC, mode: AddrMode::ZP0, cycles: 3 }),
        102 => (Instr { op: Op::ROR, mode: AddrMode::ZP0, cycles: 5 }),
        103 => (Instr { op: Op::ILL, mode: AddrMode::IMP, cycles: 5 }),
        104 => (Instr { op: Op::PLA, mode: AddrMode::IMP, cycles: 4 }),
        105 => (Instr { op: Op::ADC, mode: AddrMode::IMM, cycles: 2 }),
        106 => (Instr { op: Op::ROR, mode: AddrMode::IMP, cycles: 2 }),
        107 => (Instr { op: Op::ILL, mode: AddrMode::IMP, cycles: 2 }),
        108 => (Instr { op: Op::JMP, mode: AddrMode::IND, cycles: 5 }),
        109 => (Instr { op: Op::ADC, mode: AddrMode::ABS, cycles: 4 }),
        110 => (Instr { op: Op::ROR, mode: AddrMode::ABS, cycles: 6 }),
        111 => (Instr { op: Op::ILL, mode: AddrMode::IMP, cycles: 6 }),
        112 => (Instr { op: Op::BVS, mode: AddrMode::REL, cycles: 2 }),
        113 => (Instr { op: Op::ADC, mode: AddrMode::IZY, cycles: 5 }),
        114 => (Instr { op: Op::ILL, mode: AddrMode::IMP, cycles: 2 }),
        115 => (Instr { op: Op::ILL, mode: AddrMode::IMP, cycles: 8 }),
        116 => (Instr { op: Op::NOP, mode: AddrMode::IMP, cycles: 4 }),
        117 => (Instr { op: Op::ADC, mode: AddrMode::ZPX, cycles: 4 }),
        118 => (Instr { op: Op::ROR, mode: AddrMode::ZPX, cycles: 6 }),
        119 => (Instr { op: Op::ILL, mode: AddrMode::IMP, cycles: 6 }),
        120 => (Instr { op: Op::SEI, mode: AddrMode::IMP, cycles: 2 }),
        121 => (Instr { op: Op::ADC, mode: AddrMode::ABY, cycles: 4 }),
        122 => (Instr { op: Op::NOP, mode: AddrMode::IMP, cycles: 2 }),
        123 => (Instr { op: Op::ILL, mode: AddrMode::IMP, cycles: 7 }),
        124 => (Instr { op: Op::NOP, mode: AddrMode::IMP, cycles: 4 }),
        125 => (Instr { op: Op::ADC, mode: AddrMode::ABX, cycles: 4 }),
        126 => (Instr { op: Op::ROR, mode: AddrMode::ABX, cycles: 7 }),
        127 => (Instr { op: Op::ILL, mode: AddrMode::IMP, cycles: 7 }),
        128 => (Instr { op: Op::NOP, mode: AddrMode::IMP, cycles: 2 }),
        129 => (Instr { op: Op::STA, mode: AddrMode::IZX, cycles: 6 }),
        130 => (Instr { op: Op::NOP, mode: AddrMode::IMP, cycles: 2 }),
        131 => (Instr { op: Op::ILL, mode: AddrMode::IMP, cycles: 6 }),
        132 => (Instr { op: Op::STY, mode: AddrMode::ZP0, cycles: 3 }),
        133 => (Instr { op: Op::STA, mode: AddrMode::ZP0, cycles: 3 }),
        134 => (Instr { op: Op::STX, mode: AddrMode::ZP0, cycles: 3 }),
        135 => (Instr { op: Op::ILL, mode: AddrMode::IMP, cycles: 3 }),
        136 => (Instr { op: Op::DEY, mode: AddrMode::IMP, cycles: 2 }),
        137 => (Instr { op: Op::NOP, mode: AddrMode::IMP, cycles: 2 }),
        138 => (Instr { op: Op::TXA, mode: AddrMode::IMP, cycles: 2 }),
        139 => (Instr { op: Op::ILL, mode: AddrMode::IMP, cycles: 2 }),
        140 => (Instr { op: Op::STY, mode: AddrMode::ABS, cycles: 4 }),
        141 => (Instr { op: Op::STA, mode: AddrMode::ABS, cycles: 4 }),
        142 => (Instr { op: Op::STX, mode: AddrMode::ABS, cycles: 4 }),
        143 => (Instr { op: Op::ILL, mode: AddrMode::IMP, cycles: 4 }),
        144 => (Instr { op: Op::BCC, mode: AddrMode::REL, cycles: 2 }),
        145 => (Instr { op: Op::STA, mode: AddrMode::IZY, cycles: 6 }),
        146 => (Instr { op: Op::ILL, mode: AddrMode::IMP, cycles: 2 }),
        147 => (Instr { op: Op::ILL, mode: AddrMode::IMP, cycles: 6 }),
        148 => (Instr { op: Op::STY, mode: AddrMode::ZPX, cycles: 4 }),
        149 => (Instr { op: Op::STA, mode: AddrMode::ZPX, cycles: 4 }),
        150 => (Instr { op: Op::STX, mode: AddrMode::ZPY, cycles: 4 }),
        151 => (Instr { op: Op::ILL, mode: AddrMode::IMP, cycles: 4 }),
        152 => (Instr { op: Op::TYA, mode: AddrMode::IMP, cycles: 2 }),
        153 => (Instr { op: Op::STA, mode: AddrMode::ABY, cycles: 5 }),
        154 => (Instr { op: Op::TXS, mode: AddrMode::IMP, cycles: 2 }),
        155 => (Instr { op: Op::ILL, mode: AddrMode::IMP, cycles: 5 }),
        156 => (Instr { op: Op::NOP, mode: AddrMode::IMP, cycles: 5 }),
        157 => (Instr { op: Op::STA, mode: AddrMode::ABX, cycles: 5 }),
        158 => (Instr { op: Op::ILL, mode: AddrMode::IMP, cycles: 5 }),
        159 => (Instr { op: Op::ILL, mode: AddrMode::IMP, cycles: 5 }),
        160 => (Instr { op: Op::LDY, mode: AddrMode::IMM, cycles: 2 }),
        161 => (Instr { op: Op::LDA, mode: AddrMode::IZX, cycles: 6 }),
        162 => (Instr { op: Op::LDX, mode: AddrMode::IMM, cycles: 2 }),
        163 => (Instr { op: Op::ILL, mode: AddrMode::IMP, cycles: 6 }),
        164 => (Instr { op: Op::LDY, mode: AddrMode::ZP0, cycles: 3 }),
        165 => (Instr { op: Op::LDA, mode: AddrMode::ZP0, cycles: 3 }),
        166 => (Instr { op: Op::LDX, mode: AddrMode::ZP0, cycles: 3 }),
        167 => (Instr { op: Op::ILL, mode: AddrMode::IMP, cycles: 3 }),
        168 => (Instr { op: Op::TAY, mode: AddrMode::IMP, cycles: 2 }),
        169 => (Instr { op: Op::LDA, mode: AddrMode::IMM, cycles: 2 }),
        170 => (Instr { op: Op::TAX, mode: AddrMode::IMP, cycles: 2 }),
        171 => (Instr { op: Op::ILL, mode: AddrMode::IMP, cycles: 2 }),
        172 => (Instr { op: Op::LDY, mode: AddrMode::ABS, cycles: 4 }),
        173 => (Instr { op: Op::LDA, mode: AddrMode::ABS, cycles: 4 }),
        174 => (Instr { op: Op::LDX, mode: AddrMode::ABS, cycles: 4 }),
        175 => (Instr { op: Op::ILL, mode: AddrMode::IMP, cycles: 4 }),
        176 => (Instr { op: Op::BCS, mode: AddrMode::REL, cycles: 2 }),
        177 => (Instr { op: Op::LDA, mode: AddrMode::IZY, cycles: 5 }),
        178 => (Instr { op: Op::ILL, mode: AddrMode::IMP, cycles: 2 }),
        179 => (Instr { op: Op::ILL, mode: AddrMode::IMP, cycles: 5 }),
        180 => (Instr { op: Op::LDY, mode: AddrMode::ZPX, cycles: 4 }),
        181 => (Instr { op: Op::LDA, mode: AddrMode::ZPX, cycles: 4 }),
        182 => (Instr { op: Op::LDX, mode: AddrMode::ZPY, cycles: 4 }),
        183 => (Instr { op: Op::ILL, mode: AddrMode::IMP, cycles: 4 }),
        184 => (Instr { op: Op::CLV, mode: AddrMode::IMP, cycles: 2 }),
        185 => (Instr { op: Op::LDA, mode: AddrMode::ABY, cycles: 4 }),
        186 => (Instr { op: Op::TSX, mode: AddrMode::IMP, cycles: 2 }),
        187 => (Instr { op: Op::ILL, mode: AddrMode::IMP, cycles: 4 }),
        188 => (Instr { op: Op::LDY, mode: AddrMode::ABX, cycles: 4 }),
        189 => (Instr { op: Op::LDA, mode: AddrMode::ABX, cycles: 4 }),
        190 => (Instr { op: Op::LDX, mode: AddrMode::ABY, cycles: 4 }),
        191 => (Instr { op: Op::ILL, mode: AddrMode::IMP, cycles: 4 }),
        192 => (Instr { op: Op::CPY, mode: AddrMode::IMM, cycles: 2 }),
        193 => (Instr { op: Op::CMP, mode: AddrMode::IZX, cycles: 6 }),
        194 => (Instr { op: Op::NOP, mode: AddrMode::IMP, cycles: 2 }),
        195 => (Instr { op: Op::ILL, mode: AddrMode::IMP, cycles: 8 }),
        196 => (Instr { op: Op::CPY, mode: AddrMode::ZP0, cycles: 3 }),
        197 => (Instr { op: Op::CMP, mode: AddrMode::ZP0, cycles: 3 }),
        198 => (Instr { op: Op::DEC, mode: AddrMode::ZP0, cycles: 5 }),
        199 => (Instr { op: Op::ILL, mode: AddrMode::IMP, cycles: 5 }),
        200 => (Instr { op: Op::INY, mode: AddrMode::IMP, cycles: 2 }),
        201 => (Instr { op: Op::CMP, mode: AddrMode::IMM, cycles: 2 }),
        202 => (Instr { op: Op::DEX, mode: AddrMode::IMP, cycles: 2 }),
        203 => (Instr { op: Op::ILL, mode: AddrMode::IMP, cycles: 2 }),
        204 => (Instr { op: Op::CPY, mode: AddrMode::ABS, cycles: 4 }),
        205 => (Instr { op: Op::CMP, mode: AddrMode::ABS, cycles: 4 }),
        206 => (Instr { op: Op::DEC, mode: AddrMode::ABS, cycles: 6 }),
        207 => (Instr { op: Op::ILL, mode: AddrMode::IMP, cycles: 6 }),
        208 => (Instr { op: Op::BNE, mode: AddrMode::REL, cycles: 2 }),
        209 => (Instr { op: Op::CMP, mode: AddrMode::IZY, cycles: 5 }),
        210 => (Instr { op: Op::ILL, mode: AddrMode::IMP, cycles: 2 }),
        211 => (Instr { op: Op::ILL, mode: AddrMode::IMP, cycles: 8 }),
        212 => (Instr { op: Op::NOP, mode: AddrMode::IMP, cycles: 4 }),
        213 => (Instr { op: Op::CMP, mode: AddrMode::ZPX, cycles: 4 }),
        214 => (Instr { op: Op::DEC, mode: AddrMode::ZPX, cycles: 6 }),
        215 => (Instr { op: Op::ILL, mode: AddrMode::IMP, cycles: 6 }),
        216 => (Instr { op: Op::CLD, mode: AddrMode::IMP, cycles: 2 }),
        217 => (Instr { op: Op::CMP, mode: AddrMode::ABY, cycles: 4 }),
        218 => (Instr { op: Op::NOP, mode: AddrMode::IMP, cycles: 2 }),
        219 => (Instr { op: Op::ILL, mode: AddrMode::IMP, cycles: 7 }),
        220 => (Instr { op: Op::NOP, mode: AddrMode::IMP, cycles: 4 }),
        221 => (Instr { op: Op::CMP, mode: AddrMode::ABX, cycles: 4 }),
        222 => (Instr { op: Op::DEC, mode: AddrMode::ABX, cycles: 7 }),
        223 => (Instr { op: Op::ILL, mode: AddrMode::IMP, cycles: 7 }),
        224 => (Instr { op: Op::CPX, mode: AddrMode::IMM, cycles: 2 }),
        225 => (Instr { op: Op::SBC, mode: AddrMode::IZX, cycles: 6 }),
        226 => (Instr { op: Op::NOP, mode: AddrMode::IMP, cycles: 2 }),
        227 => (Instr { op: Op::ILL, mode: AddrMode::IMP, cycles: 8 }),
        228 => (Instr { op: Op::CPX, mode: AddrMode::ZP0, cycles: 3 }),
        229 => (Instr { op: Op::SBC, mode: AddrMode::ZP0, cycles: 3 }),
        230 => (Instr { op: Op::INC, mode: AddrMode::ZP0, cycles: 5 }),
        231 => (Instr { op: Op::ILL, mode: AddrMode::IMP, cycles: 5 }),
        232 => (Instr { op: Op::INX, mode: AddrMode::IMP, cycles: 2 }),
        233 => (Instr { op: Op::SBC, mode: AddrMode::IMM, cycles: 2 }),
        234 => (Instr { op: Op::NOP, mode: AddrMode::IMP, cycles: 2 }),
        235 => (Instr { op: Op::SBC, mode: AddrMode::IMP, cycles: 2 }),
        236 => (Instr { op: Op::CPX, mode: AddrMode::ABS, cycles: 4 }),
        237 => (Instr { op: Op::SBC, mode: AddrMode::ABS, cycles: 4 }),
        238 => (Instr { op: Op::INC, mode: AddrMode::ABS, cycles: 6 }),
        239 => (Instr { op: Op::ILL, mode: AddrMode::IMP, cycles: 6 }),
        240 => (Instr { op: Op::BEQ, mode: AddrMode::REL, cycles: 2 }),
        241 => (Instr { op: Op::SBC, mode: AddrMode::IZY, cycles: 5 }),
        242 => (Instr { op: Op::ILL, mode: AddrMode::IMP, cycles: 2 }),
        243 => (Instr { op: Op::ILL, mode: AddrMode::IMP, cycles: 8 }),
        244 => (Instr { op: Op::NOP, mode: AddrMode::IMP, cycles: 4 }),
        245 => (Instr { op: Op::SBC, mode: AddrMode::ZPX, cycles: 4 }),
        246 => (Instr { op: Op::INC, mode: AddrMode::ZPX, cycles: 6 }),
        247 => (Instr { op: Op::ILL, mode: AddrMode::IMP, cycles: 6 }),
        248 => (Instr { op: Op::SED, mode: AddrMode::IMP, cycles: 2 }),
        249 => (Instr { op: Op::SBC, mode: AddrMode::ABY, cycles: 4 }),
        250 => (Instr { op: Op::NOP, mode: AddrMode::IMP, cycles: 2 }),
        251 => (Instr { op: Op::ILL, mode: AddrMode::IMP, cycles: 7 }),
        252 => (Instr { op: Op::NOP, mode: AddrMode::IMP, cycles: 4 }),
        253 => (Instr { op: Op::SBC, mode: AddrMode::ABX, cycles: 4 }),
        254 => (Instr { op: Op::INC, mode: AddrMode::ABX, cycles: 7 }),
        _ => (Instr { op: Op::ILL, mode: AddrMode::IMP, cycles: 7 }),
    }
}

/// Look up an opcode's operation, addressing mode and base cycle count.
pub fn instruction(opcode: u8) -> (ins: Instr)
    ensures
        ins == spec_instruction(opcode),
{
    proof {
        reveal(spec_instruction);
    }
    match opcode {
        0 => (Instr { op: Op::BRK, mode: AddrMode::IMM, cycles: 7 }),
        1 => (Instr { op: Op::ORA, mode: AddrMode::IZX, cycles: 6 }),
        2 => (Instr { op: Op::ILL, mode: AddrMode::IMP, cycles: 2 }),
        3 => (Instr { op: Op::ILL, mode: AddrMode::IMP, cycles: 8 }),
        4 => (Instr { op: Op::NOP, mode: AddrMode::IMP, cycles: 3 }),
        5 => (Instr { op: Op::ORA, mode: AddrMode::ZP0, cycles: 3 }),
        6 => (Instr { op: Op::ASL, mode: AddrMode::ZP0, cycles: 5 }),
        7 => (Instr { op: Op::ILL, mode: AddrMode::IMP, cycles: 5 }),
        8 => (Instr { op: Op::PHP, mode: AddrMode::IMP, cycles: 3 }),
        9 => (Instr { op: Op::ORA, mode: AddrMode::IMM, cycles: 2 }),
        10 => (Instr { op: Op::ASL, mode: AddrMode::IMP, cycles: 2 }),
        11 => (Instr { op: Op::ILL, mode: AddrMode::IMP, cycles: 2 }),
        12 => (Instr { op: Op::NOP, mode: AddrMode::IMP, cycles: 4 }),
        13 => (Instr { op: Op::ORA, mode: AddrMode::ABS, cycles: 4 }),
        14 => (Instr { op: Op::ASL, mode: AddrMode::ABS, cycles: 6 }),
        15 => (Instr { op: Op::ILL, mode: AddrMode::IMP, cycles: 6 }),
        16 => (Instr { op: Op::BPL, mode: AddrMode::REL, cycles: 2 }),
        17 => (Instr { op: Op::ORA, mode: AddrMode::IZY, cycles: 5 }),
        18 => (Instr { op: Op::ILL, mode: AddrMode::IMP, cycles: 2 }),
        19 => (Instr { op: Op::ILL, mode: AddrMode::IMP, cycles: 8 }),
        20 => (Instr { op: Op::NOP, mode: AddrMode::IMP, cycles: 4 }),
        21 => (Instr { op: Op::ORA, mode: AddrMode::ZPX, cycles: 4 }),
        22 => (Instr { op: Op::ASL, mode: AddrMode::ZPX, cycles: 6 }),
        23 => (Instr { op: Op::ILL, mode: AddrMode::IMP, cycles: 6 }),
        24 => (Instr { op: Op::CLC, mode: AddrMode::IMP, cycles: 2 }),
        25 => (Instr { op: Op::ORA, mode: AddrMode::ABY, cycles: 4 }),
        26 => (Instr { op: Op::NOP, mode: AddrMode::IMP, cycles: 2 }),
        27 => (Instr { op: Op::ILL, mode: AddrMode::IMP, cycles: 7 }),
        28 => (Instr { op: Op::NOP, mode: AddrMode::IMP, cycles: 4 }),
        29 => (Instr { op: Op::ORA, mode: AddrMode::ABX, cycles: 4 }),
        30 => (Instr { op: Op::ASL, mode: AddrMode::ABX, cycles: 7 }),
        31 => (Instr { op: Op::ILL, mode: AddrMode::IMP, cycles: 7 }),
        32 => (Instr { op: Op::JSR, mode: AddrMode::ABS, cycles: 6 }),
        33 => (Instr { op: Op::AND, mode: AddrMode::IZX, cycles: 6 }),
        34 => (Instr { op: Op::ILL, mode: AddrMode::IMP, cycles: 2 }),
        35 => (Instr { op: Op::ILL, mode: AddrMode::IMP, cycles: 8 }),
        36 => (Instr { op: Op::BIT, mode: AddrMode::ZP0, cycles: 3 }),
        37 => (Instr { op: Op::AND, mode: AddrMode::ZP0, cycles: 3 }),
        38 => (Instr { op: Op::ROL, mode: AddrMode::ZP0, cycles: 5 }),
        39 => (Instr { op: Op::ILL, mode: AddrMode::IMP, cycles: 5 }),
        40 => (Instr { op: Op::PLP, mode: AddrMode::IMP, cycles: 4 }),
        41 => (Instr { op: Op::AND, mode: AddrMode::IMM, cycles: 2 }),
        42 => (Instr { op: Op::ROL, mode: AddrMode::IMP, cycles: 2 }),
        43 => (Instr { op: Op::ILL, mode: AddrMode::IMP, cycles: 2 }),
        44 => (Instr { op: Op::BIT, mode: AddrMode::ABS, cycles: 4 }),
        45 => (Instr { op: Op::AND, mode: AddrMode::ABS, cycles: 4 }),
        46 => (Instr { op: Op::ROL, mode: AddrMode::ABS, cycles: 6 }),
        47 => (Instr { op: Op::ILL, mode: AddrMode::IMP, cycles: 6 }),
        48 => (Instr { op: Op::BMI, mode: AddrMode::REL, cycles: 2 }),
        49 => (Instr { op: Op::AND, mode: AddrMode::IZY, cycles: 5 }),
        50 => (Instr { op: Op::ILL, mode: AddrMode::IMP, cycles: 2 }),
        51 => (Instr { op: Op::ILL, mode: AddrMode::IMP, cycles: 8 }),
        52 => (Instr { op: Op::NOP, mode: AddrMode::IMP, cycles: 4 }),
        53 => (Instr { op: Op::AND, mode: AddrMode::ZPX, cycles: 4 }),
        54 => (Instr { op: Op::ROL, mode: AddrMode::ZPX, cycles: 6 }),
        55 => (Instr { op: Op::ILL, mode: AddrMode::IMP, cycles: 6 }),
        56 => (Instr { op: Op::SEC, mode: AddrMode::IMP, cycles: 2 }),
        57 => (Instr { op: Op::AND, mode: AddrMode::ABY, cycles: 4 }),
        58 => (Instr { op: Op::NOP, mode: AddrMode::IMP, cycles: 2 }),
        59 => (Instr { op: Op::ILL, mode: AddrMode::IMP, cycles: 7 }),
        60 => (Instr { op: Op::NOP, mode: AddrMode::IMP, cycles: 4 }),
        61 => (Instr { op: Op::AND, mode: AddrMode::ABX, cycles: 4 }),
        62 => (Instr { op: Op::ROL, mode: AddrMode::ABX, cycles: 7 }),
        63 => (Instr { op: Op::ILL, mode: AddrMode::IMP, cycles: 7 }),
        64 => (Instr { op: Op::RTI, mode: AddrMode::IMP, cycles: 6 }),
        65 => (Instr { op: Op::EOR, mode: AddrMode::IZX, cycles: 6 }),
        66 => (Instr { op: Op::ILL, mode: AddrMode::IMP, cycles: 2 }),
        67 => (Instr { op: Op::ILL, mode: AddrMode::IMP, cycles: 8 }),
        68 => (Instr { op: Op::NOP, mode: AddrMode::IMP, cycles: 3 }),
        69 => (Instr { op: Op::EOR, mode: AddrMode::ZP0, cycles: 3 }),
        70 => (Instr { op: Op::LSR, mode: AddrMode::ZP0, cycles: 5 }),
        71 => (Instr { op: Op::ILL, mode: AddrMode::IMP, cycles: 5 }),
        72 => (Instr { op: Op::PHA, mode: AddrMode::IMP, cycles: 3 }),
        73 => (Instr { op: Op::EOR, mode: AddrMode::IMM, cycles: 2 }),
        74 => (Instr { op: Op::LSR, mode: AddrMode::IMP, cycles: 2 }),
        75 => (Instr { op: Op::ILL, mode: AddrMode::IMP, cycles: 2 }),
        76 => (Instr { op: Op::JMP, mode: AddrMode::ABS, cycles: 3 }),
        77 => (Instr { op: Op::EOR, mode: AddrMode::ABS, cycles: 4 }),
        78 => (Instr { op: Op::LSR, mode: AddrMode::ABS, cycles: 6 }),
        79 => (Instr { op: Op::ILL, mode: AddrMode::IMP, cycles: 6 }),
        80 => (Instr { op: Op::BVC, mode: AddrMode::REL, cycles: 2 }),
        81 => (Instr { op: Op::EOR, mode: AddrMode::IZY, cycles: 5 }),
        82 => (Instr { op: Op::ILL, mode: AddrMode::IMP, cycles: 2 }),
        83 => (Instr { op: Op::ILL, mode: AddrMode::IMP, cycles: 8 }),
        84 => (Instr { op: Op::NOP, mode: AddrMode::IMP, cycles: 4 }),
        85 => (Instr { op: Op::EOR, mode: AddrMode::ZPX, cycles: 4 }),
        86 => (Instr { op: Op::LSR, mode: AddrMode::ZPX, cycles: 6 }),
        87 => (Instr { op: Op::ILL, mode: AddrMode::IMP, cycles: 6 }),
        88 => (Instr { op: Op::CLI, mode: AddrMode::IMP, cycles: 2 }),
        89 => (Instr { op: Op::EOR, mode: AddrMode::ABY, cycles: 4 }),
        90 => (Instr { op: Op::NOP, mode: AddrMode::IMP, cycles: 2 }),
        91 => (Instr { op: Op::ILL, mode: AddrMode::IMP, cycles: 7 }),
        92 => (Instr { op: Op::NOP, mode: AddrMode::IMP, cycles: 4 }),
        93 => (Instr { op: Op::EOR, mode: AddrMode::ABX, cycles: 4 }),
        94 => (Instr { op: Op::LSR, mode: AddrMode::ABX, cycles: 7 }),
        95 => (Instr { op: Op::ILL, mode: AddrMode::IMP, cycles: 7 }),
        96 => (Instr { op: Op::RTS, mode: AddrMode::IMP, cycles: 6 }),
        97 => (Instr { op: Op::ADC, mode: AddrMode::IZX, cycles: 6 }),
        98 => (Instr { op: Op::ILL, mode: AddrMode::IMP, cycles: 2 }),
        99 => (Instr { op: Op::ILL, mode: AddrMode::IMP, cycles: 8 }),
        100 => (Instr { op: Op::NOP, mode: AddrMode::IMP, cycles: 3 }),
        101 => (Instr { op: Op::ADC, mode: AddrMode::ZP0, cycles: 3 }),
        102 => (Instr { op: Op::ROR, mode: AddrMode::ZP0, cycles: 5 }),
        103 => (Instr { op: Op::ILL, mode: AddrMode::IMP, cycles: 5 }),
        104 => (Instr { op: Op::PLA, mode: AddrMode::IMP, cycles: 4 }),
        105 => (Instr { op: Op::ADC, mode: AddrMode::IMM, cycles: 2 }),
        106 => (Instr { op: Op::ROR, mode: AddrMode::IMP, cycles: 2 }),
        107 => (Instr { op: Op::ILL, mode: AddrMode::IMP, cycles: 2 }),
        108 => (Instr { op: Op::JMP, mode: AddrMode::IND, cycles: 5 }),
        109 => (Instr { op: Op::ADC, mode: AddrMode::ABS, cycles: 4 }),
        110 => (Instr { op: Op::ROR, mode: AddrMode::ABS, cycles: 6 }),
        111 => (Instr { op: Op::ILL, mode: AddrMode::IMP, cycles: 6 }),
        112 => (Instr { op: Op::BVS, mode: AddrMode::REL, cycles: 2 }),
        113 => (Instr { op: Op::ADC, mode: AddrMode::IZY, cycles: 5 }),
        114 => (Instr { op: Op::ILL, mode: AddrMode::IMP, cycles: 2 }),
        115 => (Instr { op: Op::ILL, mode: AddrMode::IMP, cycles: 8 }),
        116 => (Instr { op: Op::NOP, mode: AddrMode::IMP, cycles: 4 }),
        117 => (Instr { op: Op::ADC, mode: AddrMode::ZPX, cycles: 4 }),
        118 => (Instr { op: Op::ROR, mode: AddrMode::ZPX, cycles: 6 }),
        119 => (Instr { op: Op::ILL, mode: AddrMode::IMP, cycles: 6 }),
        120 => (Instr { op: Op::SEI, mode: AddrMode::IMP, cycles: 2 }),
        121 => (Instr { op: Op::ADC, mode: AddrMode::ABY, cycles: 4 }),
        122 => (Instr { op: Op::NOP, mode: AddrMode::IMP, cycles: 2 }),
        123 => (Instr { op: Op::ILL, mode: AddrMode::IMP, cycles: 7 }),
        124 => (Instr { op: Op::NOP, mode: AddrMode::IMP, cycles: 4 }),
        125 => (Instr { op: Op::ADC, mode: AddrMode::ABX, cycles: 4 }),
        126 => (Instr { op: Op::ROR, mode: AddrMode::ABX, cycles: 7 }),
        127 => (Instr { op: Op::ILL, mode: AddrMode::IMP, cycles: 7 }),
        128 => (Instr { op: Op::NOP, mode: AddrMode::IMP, cycles: 2 }),
        129 => (Instr { op: Op::STA, mode: AddrMode::IZX, cycles: 6 }),
        130 => (Instr { op: Op::NOP, mode: AddrMode::IMP, cycles: 2 }),
        131 => (Instr { op: Op::ILL, mode: AddrMode::IMP, cycles: 6 }),
        132 => (Instr { op: Op::STY, mode: AddrMode::ZP0, cycles: 3 }),
        133 => (Instr { op: Op::STA, mode: AddrMode::ZP0, cycles: 3 }),
        134 => (Instr { op: Op::STX, mode: AddrMode::ZP0, cycles: 3 }),
        135 => (Instr { op: Op::ILL, mode: AddrMode::IMP, cycles: 3 }),
        136 => (Instr { op: Op::DEY, mode: AddrMode::IMP, cycles: 2 }),
        137 => (Instr { op: Op::NOP, mode: AddrMode::IMP, cycles: 2 }),
        138 => (Instr { op: Op::TXA, mode: AddrMode::IMP, cycles: 2 }),
        139 => (Instr { op: Op::ILL, mode: AddrMode::IMP, cycles: 2 }),
        140 => (Instr { op: Op::STY, mode: AddrMode::ABS, cycles: 4 }),
        141 => (Instr { op: Op::STA, mode: AddrMode::ABS, cycles: 4 }),
        142 => (Instr { op: Op::STX, mode: AddrMode::ABS, cycles: 4 }),
        143 => (Instr { op: Op::ILL, mode: AddrMode::IMP, cycles: 4 }),
        144 => (Instr { op: Op::BCC, mode: AddrMode::REL, cycles: 2 }),
        145 => (Instr { op: Op::STA, mode: AddrMode::IZY, cycles: 6 }),
        146 => (Instr { op: Op::ILL, mode: AddrMode::IMP, cycles: 2 }),
        147 => (Instr { op: Op::ILL, mode: AddrMode::IMP, cycles: 6 }),
        148 => (Instr { op: Op::STY, mode: AddrMode::ZPX, cycles: 4 }),
        149 => (Instr { op: Op::STA, mode: AddrMode::ZPX, cycles: 4 }),
        150 => (Instr { op: Op::STX, mode: AddrMode::ZPY, cycles: 4 }),
        151 => (Instr { op: Op::ILL, mode: AddrMode::IMP, cycles: 4 }),
        152 => (Instr { op: Op::TYA, mode: AddrMode::IMP, cycles: 2 }),
        153 => (Instr { op: Op::STA, mode: AddrMode::ABY, cycles: 5 }),
        154 => (Instr { op: Op::TXS, mode: AddrMode::IMP, cycles: 2 }),
        155 => (Instr { op: Op::ILL, mode: AddrMode::IMP, cycles: 5 }),
        156 => (Instr { op: Op::NOP, mode: AddrMode::IMP, cycles: 5 }),
        157 => (Instr { op: Op::STA, mode: AddrMode::ABX, cycles: 5 }),
        158 => (Instr { op: Op::ILL, mode: AddrMode::IMP, cycles: 5 }),
        159 => (Instr { op: Op::ILL, mode: AddrMode::IMP, cycles: 5 }),
        160 => (Instr { op: Op::LDY, mode: AddrMode::IMM, cycles: 2 }),
        161 => (Instr { op: Op::LDA, mode: AddrMode::IZX, cycles: 6 }),
        162 => (Instr { op: Op::LDX, mode: AddrMode::IMM, cycles: 2 }),
        163 => (Instr { op: Op::ILL, mode: AddrMode::IMP, cycles: 6 }),
        164 => (Instr { op: Op::LDY, mode: AddrMode::ZP0, cycles: 3 }),
        165 => (Instr { op: Op::LDA, mode: AddrMode::ZP0, cycles: 3 }),
        166 => (Instr { op: Op::LDX, mode: AddrMode::ZP0, cycles: 3 }),
        167 => (Instr { op: Op::ILL, mode: AddrMode::IMP, cycles: 3 }),
        168 => (Instr { op: Op::TAY, mode: AddrMode::IMP, cycles: 2 }),
        169 => (Instr { op: Op::LDA, mode: AddrMode::IMM, cycles: 2 }),
        170 => (Instr { op: Op::TAX, mode: AddrMode::IMP, cycles: 2 }),
        171 => (Instr { op: Op::ILL, mode: AddrMode::IMP, cycles: 2 }),
        172 => (Instr { op: Op::LDY, mode: AddrMode::ABS, cycles: 4 }),
        173 => (Instr { op: Op::LDA, mode: AddrMode::ABS, cycles: 4 }),
        174 => (Instr { op: Op::LDX, mode: AddrMode::ABS, cycles: 4 }),
        175 => (Instr { op: Op::ILL, mode: AddrMode::IMP, cycles: 4 }),
        176 => (Instr { op: Op::BCS, mode: AddrMode::REL, cycles: 2 }),
        177 => (Instr { op: Op::LDA, mode: AddrMode::IZY, cycles: 5 }),
        178 => (Instr { op: Op::ILL, mode: AddrMode::IMP, cycles: 2 }),
        179 => (Instr { op: Op::ILL, mode: AddrMode::IMP, cycles: 5 }),
        180 => (Instr { op: Op::LDY, mode: AddrMode::ZPX, cycles: 4 }),
        181 => (Instr { op: Op::LDA, mode: AddrMode::ZPX, cycles: 4 }),
        182 => (Instr { op: Op::LDX, mode: AddrMode::ZPY, cycles: 4 }),
        183 => (Instr { op: Op::ILL, mode: AddrMode::IMP, cycles: 4 }),
        184 => (Instr { op: Op::CLV, mode: AddrMode::IMP, cycles: 2 }),
        185 => (Instr { op: Op::LDA, mode: AddrMode::ABY, cycles: 4 }),
        186 => (Instr { op: Op::TSX, mode: AddrMode::IMP, cycles: 2 }),
        187 => (Instr { op: Op::ILL, mode: AddrMode::IMP, cycles: 4 }),
        188 => (Instr { op: Op::LDY, mode: AddrMode::ABX, cycles: 4 }),
        189 => (Instr { op: Op::LDA, mode: AddrMode::ABX, cycles: 4 }),
        190 => (Instr { op: Op::LDX, mode: AddrMode::ABY, cycles: 4 }),
        191 => (Instr { op: Op::ILL, mode: AddrMode::IMP, cycles: 4 }),
        192 => (Instr { op: Op::CPY, mode: AddrMode::IMM, cycles: 2 }),
        193 => (Instr { op: Op::CMP, mode: AddrMode::IZX, cycles: 6 }),
        194 => (Instr { op: Op::NOP, mode: AddrMode::IMP, cycles: 2 }),
        195 => (Instr { op: Op::ILL, mode: AddrMode::IMP, cycles: 8 }),
        196 => (Instr { op: Op::CPY, mode: AddrMode::ZP0, cycles: 3 }),
        197 => (Instr { op: Op::CMP, mode: AddrMode::ZP0, cycles: 3 }),
        198 => (Instr { op: Op::DEC, mode: AddrMode::ZP0, cycles: 5 }),
        199 => (Instr { op: Op::ILL, mode: AddrMode::IMP, cycles: 5 }),
        200 => (Instr { op: Op::INY, mode: AddrMode::IMP, cycles: 2 }),
        201 => (Instr { op: Op::CMP, mode: AddrMode::IMM, cycles: 2 }),
        202 => (Instr { op: Op::DEX, mode: AddrMode::IMP, cycles: 2 }),
        203 => (Instr { op: Op::ILL, mode: AddrMode::IMP, cycles: 2 }),
        204 => (Instr { op: Op::CPY, mode: AddrMode::ABS, cycles: 4 }),
        205 => (Instr { op: Op::CMP, mode: AddrMode::ABS, cycles: 4 }),
        206 => (Instr { op: Op::DEC, mode: AddrMode::ABS, cycles: 6 }),
        207 => (Instr { op: Op::ILL, mode: AddrMode::IMP, cycles: 6 }),
        208 => (Instr { op: Op::BNE, mode: AddrMode::REL, cycles: 2 }),
        209 => (Instr { op: Op::CMP, mode: AddrMode::IZY, cycles: 5 }),
        210 => (Instr { op: Op::ILL, mode: AddrMode::IMP, cycles: 2 }),
        211 => (Instr { op: Op::ILL, mode: AddrMode::IMP, cycles: 8 }),
        212 => (Instr { op: Op::NOP, mode: AddrMode::IMP, cycles: 4 }),
        213 => (Instr { op: Op::CMP, mode: AddrMode::ZPX, cycles: 4 }),
        214 => (Instr { op: Op::DEC, mode: AddrMode::ZPX, cycles: 6 }),
        215 => (Instr { op: Op::ILL, mode: AddrMode::IMP, cycles: 6 }),
        216 => (Instr { op: Op::CLD, mode: AddrMode::IMP, cycles: 2 }),
        217 => (Instr { op: Op::CMP, mode: AddrMode::ABY, cycles: 4 }),
        218 => (Instr { op: Op::NOP, mode: AddrMode::IMP, cycles: 2 }),
        219 => (Instr { op: Op::ILL, mode: AddrMode::IMP, cycles: 7 }),
        220 => (Instr { op: Op::NOP, mode: AddrMode::IMP, cycles: 4 }),
        221 => (Instr { op: Op::CMP, mode: AddrMode::ABX, cycles: 4 }),
        222 => (Instr { op: Op::DEC, mode: AddrMode::ABX, cycles: 7 }),
        223 => (Instr { op: Op::ILL, mode: AddrMode::IMP, cycles: 7 }),
        224 => (Instr { op: Op::CPX, mode: AddrMode::IMM, cycles: 2 }),
        225 => (Instr { op: Op::SBC, mode: AddrMode::IZX, cycles: 6 }),
        226 => (Instr { op: Op::NOP, mode: AddrMode::IMP, cycles: 2 }),
        227 => (Instr { op: Op::ILL, mode: AddrMode::IMP, cycles: 8 }),
        228 => (Instr { op: Op::CPX, mode: AddrMode::ZP0, cycles: 3 }),
        229 => (Instr { op: Op::SBC, mode: AddrMode::ZP0, cycles: 3 }),
        230 => (Instr { op: Op::INC, mode: AddrMode::ZP0, cycles: 5 }),
        231 => (Instr { op: Op::ILL, mode: AddrMode::IMP, cycles: 5 }),
        232 => (Instr { op: Op::INX, mode: AddrMode::IMP, cycles: 2 }),
        233 => (Instr { op: Op::SBC, mode: AddrMode::IMM, cycles: 2 }),
        234 => (Instr { op: Op::NOP, mode: AddrMode::IMP, cycles: 2 }),
        235 => (Instr { op: Op::SBC, mode: AddrMode::IMP, cycles: 2 }),
        236 => (Instr { op: Op::CPX, mode: AddrMode::ABS, cycles: 4 }),
        237 => (Instr { op: Op::SBC, mode: AddrMode::ABS, cycles: 4 }),
        238 => (Instr { op: Op::INC, mode: AddrMode::ABS, cycles: 6 }),
        239 => (Instr { op: Op::ILL, mode: AddrMode::IMP, cycles: 6 }),
        240 => (Instr { op: Op::BEQ, mode: AddrMode::REL, cycles: 2 }),
        241 => (Instr { op: Op::SBC, mode: AddrMode::IZY, cycles: 5 }),
        242 => (Instr { op: Op::ILL, mode: AddrMode::IMP, cycles: 2 }),
        243 => (Instr { op: Op::ILL, mode: AddrMode::IMP, cycles: 8 }),
        244 => (Instr { op: Op::NOP, mode: AddrMode::IMP, cycles: 4 }),
        245 => (Instr { op: Op::SBC, mode: AddrMode::ZPX, cycles: 4 }),
        246 => (Instr { op: Op::INC, mode: AddrMode::ZPX, cycles: 6 }),
        247 => (Instr { op: Op::ILL, mode: AddrMode::IMP, cycles: 6 }),
        248 => (Instr { op: Op::SED, mode: AddrMode::IMP, cycles: 2 }),
        249 => (Instr { op: Op::SBC, mode: AddrMode::ABY, cycles: 4 }),
        250 => (Instr { op: Op::NOP, mode: AddrMode::IMP, cycles: 2 }),
        251 => (Instr { op: Op::ILL, mode: AddrMode::IMP, cycles: 7 }),
        252 => (Instr { op: Op::NOP, mode: AddrMode::IMP, cycles: 4 }),
        253 => (Instr { op: Op::SBC, mode: AddrMode::ABX, cycles: 4 }),
        254 => (Instr { op: Op::INC, mode: AddrMode::ABX, cycles: 7 }),
        _ => (Instr { op: Op::ILL, mode: AddrMode::IMP, cycles: 7 }),
    }
}

impl CPU6502 {
    /// Implied / accumulator addressing: the operand is the accumulator.
    #[allow(non_snake_case)]
    pub fn IMP(&mut self) -> (extra: u8)
        ensures
            *final(self) == (CPU6502 { fetched: old(self).a, ..*old(self) }),
            extra == 0,
            final(self).bus.system_clock == old(self).bus.system_clock,
            final(self).bus.ppu.dot_count == old(self).bus.ppu.dot_count,
            final(self).bus.ppu.frame_complete == old(self).bus.ppu.frame_complete,
            final(self).bus.ppu.scanline == old(self).bus.ppu.scanline,
            final(self).bus.ppu.cycle == old(self).bus.ppu.cycle,
            final(self).bus.apu.global_time == old(self).bus.apu.global_time,
    {
        self.fetched = self.a;
        return 0;
    }

    /// Immediate addressing: the operand byte follows the opcode.
    #[allow(non_snake_case)]
    pub fn IMM(&mut self) -> (extra: u8)
        ensures
            *final(self) == (CPU6502 {
                addr_absolute: old(self).pc,
                pc: ((old(self).pc + 1) % 65536) as u16,
                ..*old(self)
            }),
            extra == 0,
            final(self).bus.system_clock == old(self).bus.system_clock,
            final(self).bus.ppu.dot_count == old(self).bus.ppu.dot_count,
            final(self).bus.ppu.frame_complete == old(self).bus.ppu.frame_complete,
            final(self).bus.ppu.scanline == old(self).bus.ppu.scanline,
            final(self).bus.ppu.cycle == old(self).bus.ppu.cycle,
            final(self).bus.apu.global_time == old(self).bus.apu.global_time,
    {
        self.addr_absolute = self.pc;
        self.add_pc();
        return 0;
    }

    /// Zero-page addressing: one byte names an address in page zero.
    #[allow(non_snake_case)]
    pub fn ZP0(&mut self) -> (extra: u8)
        requires
            old(self).wf(),
        ensures
            final(self).wf(),
            extra == 0,
            final(self).addr_absolute < 256,
            Bus::spec_read_rel(
                &old(self).bus,
                &final(self).bus,
                old(self).pc,
                final(self).addr_absolute as u8,
            ),
            *final(self) == (CPU6502 {
                bus: final(self).bus,
                addr_absolute: final(self).addr_absolute,
                pc: ((old(self).pc + 1) % 65536) as u16,
                ..*old(self)
            }),
            final(self).bus.system_clock == old(self).bus.system_clock,
            final(self).bus.ppu.dot_count == old(self).bus.ppu.dot_count,
            final(self).bus.ppu.frame_complete == old(self).bus.ppu.frame_complete,
            final(self).bus.ppu.scanline == old(self).bus.ppu.scanline,
            final(self).bus.ppu.cycle == old(self).bus.ppu.cycle,
            final(self).bus.apu.global_time == old(self).bus.apu.global_time,
    {
        proof {
            crate::bit_facts::lemma_u16_mask_bounds();
        }
        self.addr_absolute = self.read(self.pc) as u16;
        self.add_pc();
        self.addr_absolute = self.addr_absolute & 0x00FF;
        return 0;
    }

    /// Zero-page X-indexed addressing, wrapping inside page zero.
    #[allow(non_snake_case)]
    pub fn ZPX(&mut self) -> (extra: u8)
        requires
            old(self).wf(),
        ensures
            final(self).wf(),
            extra == 0,
            (exists|d: u8|
                #[trigger] Bus::spec_read_rel(&old(self).bus, &final(self).bus, old(self).pc, d)
                    && final(self).addr_absolute == ((d + old(self).x) as u16 & 0x00FF)),
            *final(self) == (CPU6502 {
                bus: final(self).bus,
                addr_absolute: final(self).addr_absolute,
                pc: ((old(self).pc + 1) % 65536) as u16,
                ..*old(self)
            }),
            final(self).bus.system_clock == old(self).bus.system_clock,
            final(self).bus.ppu.dot_count == old(self).bus.ppu.dot_count,
            final(self).bus.ppu.frame_complete == old(self).bus.ppu.frame_complete,
            final(self).bus.ppu.scanline == old(self).bus.ppu.scanline,
            final(self).bus.ppu.cycle == old(self).bus.ppu.cycle,
            final(self).bus.apu.global_time == old(self).bus.apu.global_time,
    {
        let d = self.read(self.pc);
        self.addr_absolute = (d as u16 + self.x as u16) & 0x00FF;
        self.add_pc();
        proof {
            assert(Bus::spec_read_rel(&old(self).bus, &final(self).bus, old(self).pc, d)
                && final(self).addr_absolute == ((d + old(self).x) as u16 & 0x00FF));
        }
        return 0;
    }

    /// Zero-page Y-indexed addressing, wrapping inside page zero.
    #[allow(non_snake_case)]
    pub fn ZPY(&mut self) -> (extra: u8)
        requires
            old(self).wf(),
        ensures
            final(self).wf(),
            extra == 0,
            (exists|d: u8|
                #[trigger] Bus::spec_read_rel(&old(self).bus, &final(self).bus, old(self).pc, d)
                    && final(self).addr_absolute == ((d + old(self).y) as u16 & 0x00FF)),
            *final(self) == (CPU6502 {
                bus: final(self).bus,
                addr_absolute: final(self).addr_absolute,
                pc: ((old(self).pc + 1) % 65536) as u16,
                ..*old(self)
            }),
            final(self).bus.system_clock == old(self).bus.system_clock,
            final(self).bus.ppu.dot_count == old(self).bus.ppu.dot_count,
            final(self).bus.ppu.frame_complete == old(self).bus.ppu.frame_complete,
            final(self).bus.ppu.scanline == old(self).bus.ppu.scanline,
            final(self).bus.ppu.cycle == old(self).bus.ppu.cycle,
            final(self).bus.apu.global_time == old(self).bus.apu.global_time,
    {
        let d = self.read(self.pc);
        self.addr_absolute = (d as u16 + self.y as u16) & 0x00FF;
        self.add_pc();
        proof {
            assert(Bus::spec_read_rel(&old(self).bus, &final(self).bus, old(self).pc, d)
                && final(self).addr_absolute == ((d + old(self).y) as u16 & 0x00FF));
        }
        return 0;
    }

    /// Absolute addressing: a 16-bit little-endian address.
    #[allow(non_snake_case)]
    pub fn ABS(&mut self) -> (extra: u8)
        requires
            old(self).wf(),
        ensures
            final(self).wf(),
            extra == 0,
            (exists|mid: Bus, lo: u8, hi: u8|
                {
                    &&& #[trigger] Bus::spec_read_rel(&old(self).bus, &mid, old(self).pc, lo)
                    &&& #[trigger] Bus::spec_read_rel(
                        &mid,
                        &final(self).bus,
                        ((old(self).pc + 1) % 65536) as u16,
                        hi,
                    )
                    &&& final(self).addr_absolute == (((hi as u16) << 8) | lo as u16)
                }),
            *final(self) == (CPU6502 {
                bus: final(self).bus,
                addr_absolute: final(self).addr_absolute,
                pc: ((old(self).pc + 2) % 65536) as u16,
                ..*old(self)
            }),
            final(self).bus.system_clock == old(self).bus.system_clock,
            final(self).bus.ppu.dot_count == old(self).bus.ppu.dot_count,
            final(self).bus.ppu.frame_complete == old(self).bus.ppu.frame_complete,
            final(self).bus.ppu.scanline == old(self).bus.ppu.scanline,
            final(self).bus.ppu.cycle == old(self).bus.ppu.cycle,
            final(self).bus.apu.global_time == old(self).bus.apu.global_time,
    {
        let lo = self.read(self.pc) as u16;
        self.add_pc();
        let ghost mid = self.bus;
        let hi = self.read(self.pc) as u16;
        self.add_pc();
        self.addr_absolute = (hi << 8) | lo;
        proof {
            assert(Bus::spec_read_rel(&old(self).bus, &mid, old(self).pc, lo as u8)
                && Bus::spec_read_rel(
                &mid,
                &final(self).bus,
                ((old(self).pc + 1) % 65536) as u16,
                hi as u8,
            ) && final(self).addr_absolute == ((((hi as u8) as u16) << 8) | (lo as u8) as u16));
        }
        return 0;
    }

    /// Absolute X-indexed addressing; one extra cycle is requested
    /// when indexing crosses a page.
    #[allow(non_snake_case)]
    pub fn ABX(&mut self) -> (extra: u8)
        requires
            old(self).wf(),
        ensures
            final(self).wf(),
            (exists|mid: Bus, lo: u8, hi: u8|
                {
                    &&& #[trigger] Bus::spec_read_rel(&old(self).bus, &mid, old(self).pc, lo)
                    &&& #[trigger] Bus::spec_read_rel(
                        &mid,
                        &final(self).bus,
                        ((old(self).pc + 1) % 65536) as u16,
                        hi,
                    )
                    &&& final(self).addr_absolute == ((((hi as u16) << 8)
                        | lo as u16) as u16).wrapping_add(old(self).x as u16)
                    &&& extra == (if (final(self).addr_absolute & 0xFF00) != ((hi as u16)
                        << 8) {
                        1u8
                    } else {
                        0u8
                    })
                }),
            *final(self) == (CPU6502 {
                bus: final(self).bus,
                addr_absolute: final(self).addr_absolute,
                pc: ((old(self).pc + 2) % 65536) as u16,
                ..*old(self)
            }),
            final(self).bus.system_clock == old(self).bus.system_clock,
            final(self).bus.ppu.dot_count == old(self).bus.ppu.dot_count,
            final(self).bus.ppu.frame_complete == old(self).bus.ppu.frame_complete,
            final(self).bus.ppu.scanline == old(self).bus.ppu.scanline,
            final(self).bus.ppu.cycle == old(self).bus.ppu.cycle,
            final(self).bus.apu.global_time == old(self).bus.apu.global_time,
    {
        let lo = self.read(self.pc) as u16;
        self.add_pc();
        let ghost mid = self.bus;
        let hi = self.read(self.pc) as u16;
        self.add_pc();
        let base = (hi << 8) | lo;
        self.addr_absolute = base.wrapping_add(self.x as u16);
        let extra: u8 = if (self.addr_absolute & 0xFF00) != (hi << 8) {
            1
        } else {
            0
        };
        proof {
            assert(Bus::spec_read_rel(&old(self).bus, &mid, old(self).pc, lo as u8)
                && Bus::spec_read_rel(
                &mid,
                &final(self).bus,
                ((old(self).pc + 1) % 65536) as u16,
                hi as u8,
            ) && final(self).addr_absolute == (((((hi as u8) as u16) << 8) | (
            lo as u8) as u16) as u16).wrapping_add(old(self).x as u16) && extra == (
            if (final(self).addr_absolute & 0xFF00) != (((hi as u8) as u16) << 8) {
                1u8
            } else {
                0u8
            }));
        }
        return extra;
    }

    /// Absolute Y-indexed addressing; one extra cycle is requested
    /// when indexing crosses a page.
    #[allow(non_snake_case)]
    pub fn ABY(&mut self) -> (extra: u8)
        requires
            old(self).wf(),
        ensures
            final(self).wf(),
            (exists|mid: Bus, lo: u8, hi: u8|
                {
                    &&& #[trigger] Bus::spec_read_rel(&old(self).bus, &mid, old(self).pc, lo)
                    &&& #[trigger] Bus::spec_read_rel(
                        &mid,
                        &final(self).bus,
                        ((old(self).pc + 1) % 65536) as u16,
                        hi,
                    )
                    &&& final(self).addr_absolute == ((((hi as u16) << 8)
                        | lo as u16) as u16).wrapping_add(old(self).y as u16)
                    &&& extra == (if (final(self).addr_absolute & 0xFF00) != ((hi as u16)
                        << 8) {
                        1u8
                    } else {
                        0u8
                    })
                }),
            *final(self) == (CPU6502 {
                bus: final(self).bus,
                addr_absolute: final(self).addr_absolute,
                pc: ((old(self).pc + 2) % 65536) as u16,
                ..*old(self)
            }),
            final(self).bus.system_clock == old(self).bus.system_clock,
            final(self).bus.ppu.dot_count == old(self).bus.ppu.dot_count,
            final(self).bus.ppu.frame_complete == old(self).bus.ppu.frame_complete,
            final(self).bus.ppu.scanline == old(self).bus.ppu.scanline,
            final(self).bus.ppu.cycle == old(self).bus.ppu.cycle,
            final(self).bus.apu.global_time == old(self).bus.apu.global_time,
    {
        let lo = self.read(self.pc) as u16;
        self.add_pc();
        let ghost mid = self.bus;
        let hi = self.read(self.pc) as u16;
        self.add_pc();
        let base = (hi << 8) | lo;
        self.addr_absolute = base.wrapping_add(self.y as u16);
        let extra: u8 = if (self.addr_absolute & 0xFF00) != (hi << 8) {
            1
        } else {
            0
        };
        proof {
            assert(Bus::spec_read_rel(&old(self).bus, &mid, old(self).pc, lo as u8)
                && Bus::spec_read_rel(
                &mid,
                &final(self).bus,
                ((old(self).pc + 1) % 65536) as u16,
                hi as u8,
            ) && final(self).addr_absolute == (((((hi as u8) as u16) << 8) | (
            lo as u8) as u16) as u16).wrapping_add(old(self).y as u16) && extra == (
            if (final(self).addr_absolute & 0xFF00) != (((hi as u8) as u16) << 8) {
                1u8
            } else {
                0u8
            }));
        }
        return extra;
    }

    /// Indirect addressing, with the hardware page-wrap quirk: when the
    /// pointer's low byte is `$FF` the high byte of the target is
    /// fetched from the start of the same page.
    #[allow(non_snake_case)]
    #[verifier::rlimit(100)]
    pub fn IND(&mut self) -> (extra: u8)
        requires
            old(self).wf(),
        ensures
            final(self).wf(),
            extra == 0,
            *final(self) == (CPU6502 {
                bus: final(self).bus,
                addr_absolute: final(self).addr_absolute,
                pc: ((old(self).pc + 2) % 65536) as u16,
                ..*old(self)
            }),
            (exists|m1: Bus, m2: Bus, m3: Bus, pl: u8, ph: u8, hsrc: u16, b1: u8, b2: u8|
                {
                    &&& #[trigger] Bus::spec_read_rel(&old(self).bus, &m1, old(self).pc, pl)
                    &&& #[trigger] Bus::spec_read_rel(
                        &m1,
                        &m2,
                        ((old(self).pc + 1) % 65536) as u16,
                        ph,
                    )
                    &&& hsrc == (if pl == 0xFF {
                        (((ph as u16) << 8)) as u16
                    } else {
                        ((((ph as u16) << 8) | pl as u16) as u16 + 1) as u16
                    })
                    &&& #[trigger] Bus::spec_read_rel(&m2, &m3, hsrc, b1)
                    &&& #[trigger] Bus::spec_read_rel(
                        &m3,
                        &final(self).bus,
                        (((ph as u16) << 8) | pl as u16) as u16,
                        b2,
                    )
                    &&& final(self).addr_absolute == (((b1 as u16) << 8) | b2 as u16)
                }),
            final(self).bus.system_clock == old(self).bus.system_clock,
            final(self).bus.ppu.dot_count == old(self).bus.ppu.dot_count,
            final(self).bus.ppu.frame_complete == old(self).bus.ppu.frame_complete,
            final(self).bus.ppu.scanline == old(self).bus.ppu.scanline,
            final(self).bus.ppu.cycle == old(self).bus.ppu.cycle,
            final(self).bus.apu.global_time == old(self).bus.apu.global_time,
    {
        let ptr_low = self.read(self.pc) as u16;
        self.add_pc();
        let ghost m1 = self.bus;

        let ptr_high = self.read(self.pc) as u16;
        self.add_pc();
        let ghost m2 = self.bus;

        let ptr = (ptr_high << 8) | ptr_low;
        proof {
            crate::bit_facts::lemma_ind_ptr();
        }

        if ptr_low == 0x00FF {
            let addr = ptr & 0xFF00;
            let b1 = self.read(addr);
            let ghost m3 = self.bus;
            let b2 = self.read(ptr);
            self.addr_absolute = ((b1 as u16) << 8) | b2 as u16;
            proof {
                crate::bit_facts::lemma_ind_ptr();
                assert(Bus::spec_read_rel(&old(self).bus, &m1, old(self).pc, ptr_low as u8)
                    && Bus::spec_read_rel(
                    &m1,
                    &m2,
                    ((old(self).pc + 1) % 65536) as u16,
                    ptr_high as u8,
                ) && Bus::spec_read_rel(&m2, &m3, (ptr & 0xFF00) as u16, b1)
                    && Bus::spec_read_rel(&m3, &final(self).bus, ptr, b2)
                    && final(self).addr_absolute == (((b1 as u16) << 8) | b2 as u16));
            }
        } else {
            let b1 = self.read(ptr + 1);
            let ghost m3 = self.bus;
            let b2 = self.read(ptr);
            self.addr_absolute = ((b1 as u16) << 8) | b2 as u16;
            proof {
                assert(Bus::spec_read_rel(&old(self).bus, &m1, old(self).pc, ptr_low as u8)
                    && Bus::spec_read_rel(
                    &m1,
                    &m2,
                    ((old(self).pc + 1) % 65536) as u16,
                    ptr_high as u8,
                ) && Bus::spec_read_rel(&m2, &m3, (ptr + 1) as u16, b1)
                    && Bus::spec_read_rel(&m3, &final(self).bus, ptr, b2)
                    && final(self).addr_absolute == (((b1 as u16) << 8) | b2 as u16));
            }
        }
        return 0;
    }

    /// Pre-indexed zero-page indirect addressing (page-wrapped).
    #[allow(non_snake_case)]
    pub fn IZX(&mut self) -> (extra: u8)
        requires
            old(self).wf(),
        ensures
            final(self).wf(),
            extra == 0,
            *final(self) == (CPU6502 {
                bus: final(self).bus,
                addr_absolute: final(self).addr_absolute,
                pc: ((old(self).pc + 1) % 65536) as u16,
                ..*old(self)
            }),
            (exists|m1: Bus, m2: Bus, t: u8, lo: u8, hi: u8|
                {
                    &&& #[trigger] Bus::spec_read_rel(&old(self).bus, &m1, old(self).pc, t)
                    &&& #[trigger] Bus::spec_read_rel(
                        &m1,
                        &m2,
                        ((t as u16 + old(self).x as u16) as u16 & 0x00FF) as u16,
                        lo,
                    )
                    &&& #[trigger] Bus::spec_read_rel(
                        &m2,
                        &final(self).bus,
                        ((t as u16 + old(self).x as u16 + 1) as u16 & 0x00FF) as u16,
                        hi,
                    )
                    &&& final(self).addr_absolute == (((hi as u16) << 8) | lo as u16)
                }),
            final(self).bus.system_clock == old(self).bus.system_clock,
            final(self).bus.ppu.dot_count == old(self).bus.ppu.dot_count,
            final(self).bus.ppu.frame_complete == old(self).bus.ppu.frame_complete,
            final(self).bus.ppu.scanline == old(self).bus.ppu.scanline,
            final(self).bus.ppu.cycle == old(self).bus.ppu.cycle,
            final(self).bus.apu.global_time == old(self).bus.apu.global_time,
    {
        let t = self.read(self.pc) as u16;
        self.add_pc();
        let ghost m1 = self.bus;
        let lo = self.read((t + self.x as u16) & 0x00FF) as u16;
        let ghost m2 = self.bus;
        let hi = self.read((t + self.x as u16 + 1) & 0x00FF) as u16;
        self.addr_absolute = (hi << 8) | lo;
        proof {
            assert(Bus::spec_read_rel(&old(self).bus, &m1, old(self).pc, t as u8)
                && Bus::spec_read_rel(
                &m1,
                &m2,
                (((t as u8) as u16 + old(self).x as u16) as u16 & 0x00FF) as u16,
                lo as u8,
            ) && Bus::spec_read_rel(
                &m2,
                &final(self).bus,
                (((t as u8) as u16 + old(self).x as u16 + 1) as u16 & 0x00FF) as u16,
                hi as u8,
            ) && final(self).addr_absolute == ((((hi as u8) as u16) << 8) | (lo as u8) as u16));
        }
        return 0;
    }

    /// Post-indexed zero-page indirect addressing; one extra cycle is
    /// requested when adding Y crosses a page.
    #[allow(non_snake_case)]
    pub fn IZY(&mut self) -> (extra: u8)
        requires
            old(self).wf(),
        ensures
            final(self).wf(),
            *final(self) == (CPU6502 {
                bus: final(self).bus,
                addr_absolute: final(self).addr_absolute,
                pc: ((old(self).pc + 1) % 65536) as u16,
                ..*old(self)
            }),
            (exists|m1: Bus, m2: Bus, t: u8, lo: u8, hi: u8|
                {
                    &&& #[trigger] Bus::spec_read_rel(&old(self).bus, &m1, old(self).pc, t)
                    &&& #[trigger] Bus::spec_read_rel(&m1, &m2, (t as u16 & 0x00FF) as u16, lo)
                    &&& #[trigger] Bus::spec_read_rel(
                        &m2,
                        &final(self).bus,
                        ((t as u16 + 1) as u16 & 0x00FF) as u16,
                        hi,
                    )
                    &&& final(self).addr_absolute == ((((hi as u16) << 8)
                        | lo as u16) as u16).wrapping_add(old(self).y as u16)
                    &&& extra == (if (final(self).addr_absolute & 0xFF00) != ((hi as u16)
                        << 8) {
                        1u8
                    } else {
                        0u8
                    })
                }),
            final(self).bus.system_clock == old(self).bus.system_clock,
            final(self).bus.ppu.dot_count == old(self).bus.ppu.dot_count,
            final(self).bus.ppu.frame_complete == old(self).bus.ppu.frame_complete,
            final(self).bus.ppu.scanline == old(self).bus.ppu.scanline,
            final(self).bus.ppu.cycle == old(self).bus.ppu.cycle,
            final(self).bus.apu.global_time == old(self).bus.apu.global_time,
    {
        let t = self.read(self.pc) as u16;
        self.add_pc();
        let ghost m1 = self.bus;
        let lo = self.read(t & 0x00FF) as u16;
        let ghost m2 = self.bus;
        let hi = self.read((t + 1) & 0x00FF) as u16;
        let base = (hi << 8) | lo;
        self.addr_absolute = base.wrapping_add(self.y as u16);
        let extra: u8 = if (self.addr_absolute & 0xFF00) != (hi << 8) {
            1
        } else {
            0
        };
        proof {
            assert(Bus::spec_read_rel(&old(self).bus, &m1, old(self).pc, t as u8)
                && Bus::spec_read_rel(&m1, &m2, ((t as u8) as u16 & 0x00FF) as u16, lo as u8)
                && Bus::spec_read_rel(
                &m2,
                &final(self).bus,
                (((t as u8) as u16 + 1) as u16 & 0x00FF) as u16,
                hi as u8,
            ) && final(self).addr_absolute == ((((hi as u8) as u16) << 8) | (
            lo as u8) as u16).wrapping_add(old(self).y as u16) && extra == (
            if (final(self).addr_absolute & 0xFF00) != (((hi as u8) as u16) << 8) {
                1u8
            } else {
                0u8
            }));
        }
        return extra;
    }

    /// Relative addressing: a signed 8-bit branch offset, sign-extended
    /// to 16 bits.
    #[allow(non_snake_case)]
    pub fn REL(&mut self) -> (extra: u8)
        requires
            old(self).wf(),
        ensures
            final(self).wf(),
            extra == 0,
            (exists|d: u8|
                #[trigger] Bus::spec_read_rel(&old(self).bus, &final(self).bus, old(self).pc, d)
                    && final(self).addr_relative == (if d & 0x80 != 0 {
                    (d as u16 | 0xFF00) as u16
                } else {
                    d as u16
                })),
            *final(self) == (CPU6502 {
                bus: final(self).bus,
                addr_relative: final(self).addr_relative,
                pc: ((old(self).pc + 1) % 65536) as u16,
                ..*old(self)
            }),
            final(self).bus.system_clock == old(self).bus.system_clock,
            final(self).bus.ppu.dot_count == old(self).bus.ppu.dot_count,
            final(self).bus.ppu.frame_complete == old(self).bus.ppu.frame_complete,
            final(self).bus.ppu.scanline == old(self).bus.ppu.scanline,
            final(self).bus.ppu.cycle == old(self).bus.ppu.cycle,
            final(self).bus.apu.global_time == old(self).bus.apu.global_time,
    {
        let d = self.read(self.pc);
        self.addr_relative = d as u16;
        self.add_pc();
        if (self.addr_relative & 0x80) > 0 {
            self.addr_relative = self.addr_relative | 0xFF00;
        }
        proof {
            assert(Bus::spec_read_rel(&old(self).bus, &final(self).bus, old(self).pc, d)
                && final(self).addr_relative == (if d & 0x80 != 0 {
                (d as u16 | 0xFF00) as u16
            } else {
                d as u16
            }));
        }
        return 0;
    }
}

impl CPU6502 {
    /// Clear the carry flag.
    #[allow(non_snake_case)]
    pub fn CLC(&mut self) -> (extra: u8)
        ensures
            *final(self) == (CPU6502 {
                sr: spec_put_flag(old(self).sr, Flags::C, false),
                ..*old(self)
            }),
            extra == 0,
            final(self).bus.system_clock == old(self).bus.system_clock,
            final(self).bus.ppu.dot_count == old(self).bus.ppu.dot_count,
            final(self).bus.ppu.frame_complete == old(self).bus.ppu.frame_complete,
            final(self).bus.ppu.scanline == old(self).bus.ppu.scanline,
            final(self).bus.ppu.cycle == old(self).bus.ppu.cycle,
            final(self).bus.apu.global_time == old(self).bus.apu.global_time,
    {
        self.set_flag(Flags::C, false);
        return 0;
    }

    /// Clear the decimal flag.
    #[allow(non_snake_case)]
    pub fn CLD(&mut self) -> (extra: u8)
        ensures
            *final(self) == (CPU6502 {
                sr: spec_put_flag(old(self).sr, Flags::D, false),
                ..*old(self)
            }),
            extra == 0,
            final(self).bus.system_clock == old(self).bus.system_clock,
            final(self).bus.ppu.dot_count == old(self).bus.ppu.dot_count,
            final(self).bus.ppu.frame_complete == old(self).bus.ppu.frame_complete,
            final(self).bus.ppu.scanline == old(self).bus.ppu.scanline,
            final(self).bus.ppu.cycle == old(self).bus.ppu.cycle,
            final(self).bus.apu.global_time == old(self).bus.apu.global_time,
    {
        self.set_flag(Flags::D, false);
        return 0;
    }

    /// Clear the interrupt-disable flag.
    #[allow(non_snake_case)]
    pub fn CLI(&mut self) -> (extra: u8)
        ensures
            *final(self) == (CPU6502 {
                sr: spec_put_flag(old(self).sr, Flags::I, false),
                ..*old(self)
            }),
            extra == 0,
            final(self).bus.system_clock == old(self).bus.system_clock,
            final(self).bus.ppu.dot_count == old(self).bus.ppu.dot_count,
            final(self).bus.ppu.frame_complete == old(self).bus.ppu.frame_complete,
            final(self).bus.ppu.scanline == old(self).bus.ppu.scanline,
            final(self).bus.ppu.cycle == old(self).bus.ppu.cycle,
            final(self).bus.apu.global_time == old(self).bus.apu.global_time,
    {
        self.set_flag(Flags::I, false);
        return 0;
    }

    /// Clear the overflow flag.
    #[allow(non_snake_case)]
    pub fn CLV(&mut self) -> (extra: u8)
        ensures
            *final(self) == (CPU6502 {
                sr: spec_put_flag(old(self).sr, Flags::V, false),
                ..*old(self)
            }),
            extra == 0,
            final(self).bus.system_clock == old(self).bus.system_clock,
            final(self).bus.ppu.dot_count == old(self).bus.ppu.dot_count,
            final(self).bus.ppu.frame_complete == old(self).bus.ppu.frame_complete,
            final(self).bus.ppu.scanline == old(self).bus.ppu.scanline,
            final(self).bus.ppu.cycle == old(self).bus.ppu.cycle,
            final(self).bus.apu.global_time == old(self).bus.apu.global_time,
    {
        self.set_flag(Flags::V, false);
        return 0;
    }

    /// Set the carry flag.
    #[allow(non_snake_case)]
    pub fn SEC(&mut self) -> (extra: u8)
        ensures
            *final(self) == (CPU6502 {
                sr: spec_put_flag(old(self).sr, Flags::C, true),
                ..*old(self)
            }),
            extra == 0,
            final(self).bus.system_clock == old(self).bus.system_clock,
            final(self).bus.ppu.dot_count == old(self).bus.ppu.dot_count,
            final(self).bus.ppu.frame_complete == old(self).bus.ppu.frame_complete,
            final(self).bus.ppu.scanline == old(self).bus.ppu.scanline,
            final(self).bus.ppu.cycle == old(self).bus.ppu.cycle,
            final(self).bus.apu.global_time == old(self).bus.apu.global_time,
    {
        self.set_flag(Flags::C, true);
        return 0;
    }

    /// Set the decimal flag.
    #[allow(non_snake_case)]
    pub fn SED(&mut self) -> (extra: u8)
        ensures
            *final(self) == (CPU6502 {
                sr: spec_put_flag(old(self).sr, Flags::D, true),
                ..*old(self)
            }),
            extra == 0,
            final(self).bus.system_clock == old(self).bus.system_clock,
            final(self).bus.ppu.dot_count == old(self).bus.ppu.dot_count,
            final(self).bus.ppu.frame_complete == old(self).bus.ppu.frame_complete,
            final(self).bus.ppu.scanline == old(self).bus.ppu.scanline,
            final(self).bus.ppu.cycle == old(self).bus.ppu.cycle,
            final(self).bus.apu.global_time == old(self).bus.apu.global_time,
    {
        self.set_flag(Flags::D, true);
        return 0;
    }

    /// Set the interrupt-disable flag.
    #[allow(non_snake_case)]
    pub fn SEI(&mut self) -> (extra: u8)
        ensures
            *final(self) == (CPU6502 {
                sr: spec_put_flag(old(self).sr, Flags::I, true),
                ..*old(self)
            }),
            extra == 0,
            final(self).bus.system_clock == old(self).bus.system_clock,
            final(self).bus.ppu.dot_count == old(self).bus.ppu.dot_count,
            final(self).bus.ppu.frame_complete == old(self).bus.ppu.frame_complete,
            final(self).bus.ppu.scanline == old(self).bus.ppu.scanline,
            final(self).bus.ppu.cycle == old(self).bus.ppu.cycle,
            final(self).bus.apu.global_time == old(self).bus.apu.global_time,
    {
        self.set_flag(Flags::I, true);
        return 0;
    }

    /// Transfer the accumulator to X.
    #[allow(non_snake_case)]
    pub fn TAX(&mut self) -> (extra: u8)
        ensures
            *final(self) == (CPU6502 {
                x: old(self).a,
                sr: spec_put_flag(spec_put_flag(old(self).sr, Flags::Z, old(self).a == 0), Flags::N, old(self).a & 0x80 > 0),
                ..*old(self)
            }),
            extra == 0,
            final(self).bus.system_clock == old(self).bus.system_clock,
            final(self).bus.ppu.dot_count == old(self).bus.ppu.dot_count,
            final(self).bus.ppu.frame_complete == old(self).bus.ppu.frame_complete,
            final(self).bus.ppu.scanline == old(self).bus.ppu.scanline,
            final(self).bus.ppu.cycle == old(self).bus.ppu.cycle,
            final(self).bus.apu.global_time == old(self).bus.apu.global_time,
    {
        self.x = self.a;
        self.set_flag(Flags::Z, self.x == 0x00);
        self.set_flag(Flags::N, (self.x & 0x80) > 0);
        return 0;
    }

    /// Transfer the accumulator to Y.
    #[allow(non_snake_case)]
    pub fn TAY(&mut self) -> (extra: u8)
        ensures
            *final(self) == (CPU6502 {
                y: old(self).a,
                sr: spec_put_flag(spec_put_flag(old(self).sr, Flags::Z, old(self).a == 0), Flags::N, old(self).a & 0x80 > 0),
                ..*old(self)
            }),
            extra == 0,
            final(self).bus.system_clock == old(self).bus.system_clock,
            final(self).bus.ppu.dot_count == old(self).bus.ppu.dot_count,
            final(self).bus.ppu.frame_complete == old(self).bus.ppu.frame_complete,
            final(self).bus.ppu.scanline == old(self).bus.ppu.scanline,
            final(self).bus.ppu.cycle == old(self).bus.ppu.cycle,
            final(self).bus.apu.global_time == old(self).bus.apu.global_time,
    {
        self.y = self.a;
        self.set_flag(Flags::Z, self.y == 0x00);
        self.set_flag(Flags::N, (self.y & 0x80) > 0);
        return 0;
    }

    /// Transfer the stack pointer to X.
    #[allow(non_snake_case)]
    pub fn TSX(&mut self) -> (extra: u8)
        ensures
            *final(self) == (CPU6502 {
                x: old(self).sptr,
                sr: spec_put_flag(spec_put_flag(old(self).sr, Flags::Z, old(self).sptr == 0), Flags::N, old(self).sptr & 0x80 > 0),
                ..*old(self)
            }),
            extra == 0,
            final(self).bus.system_clock == old(self).bus.system_clock,
            final(self).bus.ppu.dot_count == old(self).bus.ppu.dot_count,
            final(self).bus.ppu.frame_complete == old(self).bus.ppu.frame_complete,
            final(self).bus.ppu.scanline == old(self).bus.ppu.scanline,
            final(self).bus.ppu.cycle == old(self).bus.ppu.cycle,
            final(self).bus.apu.global_time == old(self).bus.apu.global_time,
    {
        self.x = self.sptr;
        self.set_flag(Flags::Z, self.x == 0x00);
        self.set_flag(Flags::N, (self.x & 0x80) > 0);
        return 0;
    }

    /// Transfer X to the accumulator.
    #[allow(non_snake_case)]
    pub fn TXA(&mut self) -> (extra: u8)
        ensures
            *final(self) == (CPU6502 {
                a: old(self).x,
                sr: spec_put_flag(spec_put_flag(old(self).sr, Flags::Z, old(self).x == 0), Flags::N, old(self).x & 0x80 > 0),
                ..*old(self)
            }),
            extra == 0,
            final(self).bus.system_clock == old(self).bus.system_clock,
            final(self).bus.ppu.dot_count == old(self).bus.ppu.dot_count,
            final(self).bus.ppu.frame_complete == old(self).bus.ppu.frame_complete,
            final(self).bus.ppu.scanline == old(self).bus.ppu.scanline,
            final(self).bus.ppu.cycle == old(self).bus.ppu.cycle,
            final(self).bus.apu.global_time == old(self).bus.apu.global_time,
    {
        self.a = self.x;
        self.set_flag(Flags::Z, self.a == 0x00);
        self.set_flag(Flags::N, (self.a & 0x80) > 0);
        return 0;
    }

    /// Transfer Y to the accumulator.
    #[allow(non_snake_case)]
    pub fn TYA(&mut self) -> (extra: u8)
        ensures
            *final(self) == (CPU6502 {
                a: old(self).y,
                sr: spec_put_flag(spec_put_flag(old(self).sr, Flags::Z, old(self).y == 0), Flags::N, old(self).y & 0x80 > 0),
                ..*old(self)
            }),
            extra == 0,
            final(self).bus.system_clock == old(self).bus.system_clock,
            final(self).bus.ppu.dot_count == old(self).bus.ppu.dot_count,
            final(self).bus.ppu.frame_complete == old(self).bus.ppu.frame_complete,
            final(self).bus.ppu.scanline == old(self).bus.ppu.scanline,
            final(self).bus.ppu.cycle == old(self).bus.ppu.cycle,
            final(self).bus.apu.global_time == old(self).bus.apu.global_time,
    {
        self.a = self.y;
        self.set_flag(Flags::Z, self.a == 0x00);
        self.set_flag(Flags::N, (self.a & 0x80) > 0);
        return 0;
    }

    /// Transfer X to the stack pointer.
    #[allow(non_snake_case)]
    pub fn TXS(&mut self) -> (extra: u8)
        ensures
            *final(self) == (CPU6502 { sptr: old(self).x, ..*old(self) }),
            extra == 0,
            final(self).bus.system_clock == old(self).bus.system_clock,
            final(self).bus.ppu.dot_count == old(self).bus.ppu.dot_count,
            final(self).bus.ppu.frame_complete == old(self).bus.ppu.frame_complete,
            final(self).bus.ppu.scanline == old(self).bus.ppu.scanline,
            final(self).bus.ppu.cycle == old(self).bus.ppu.cycle,
            final(self).bus.apu.global_time == old(self).bus.apu.global_time,
    {
        self.sptr = self.x;
        return 0;
    }

    /// Decrement X, wrapping at zero.
    #[allow(non_snake_case)]
    pub fn DEX(&mut self) -> (extra: u8)
        ensures
            ({
                let nv = ((old(self).x + 255) % 256) as u8;
                *final(self) == (CPU6502 {
                    x: nv,
                    sr: spec_put_flag(spec_put_flag(old(self).sr, Flags::Z, nv == 0), Flags::N, nv & 0x80 > 0),
                    ..*old(self)
                })
            }),
            extra == 0,
            final(self).bus.system_clock == old(self).bus.system_clock,
            final(self).bus.ppu.dot_count == old(self).bus.ppu.dot_count,
            final(self).bus.ppu.frame_complete == old(self).bus.ppu.frame_complete,
            final(self).bus.ppu.scanline == old(self).bus.ppu.scanline,
            final(self).bus.ppu.cycle == old(self).bus.ppu.cycle,
            final(self).bus.apu.global_time == old(self).bus.apu.global_time,
    {
        if self.x == 0 {
            self.x = 255;
        } else {
            self.x = self.x - 1;
        }
        self.set_flag(Flags::Z, self.x == 0x00);
        self.set_flag(Flags::N, (self.x & 0x80) > 0);
        return 0;
    }

    /// Decrement Y, wrapping at zero.
    #[allow(non_snake_case)]
    pub fn DEY(&mut self) -> (extra: u8)
        ensures
            ({
                let nv = ((old(self).y + 255) % 256) as u8;
                *final(self) == (CPU6502 {
                    y: nv,
                    sr: spec_put_flag(spec_put_flag(old(self).sr, Flags::Z, nv == 0), Flags::N, nv & 0x80 > 0),
                    ..*old(self)
                })
            }),
            extra == 0,
            final(self).bus.system_clock == old(self).bus.system_clock,
            final(self).bus.ppu.dot_count == old(self).bus.ppu.dot_count,
            final(self).bus.ppu.frame_complete == old(self).bus.ppu.frame_complete,
            final(self).bus.ppu.scanline == old(self).bus.ppu.scanline,
            final(self).bus.ppu.cycle == old(self).bus.ppu.cycle,
            final(self).bus.apu.global_time == old(self).bus.apu.global_time,
    {
        if self.y == 0 {
            self.y = 255;
        } else {
            self.y = self.y - 1;
        }
        self.set_flag(Flags::Z, self.y == 0x00);
        self.set_flag(Flags::N, (self.y & 0x80) > 0);
        return 0;
    }

    /// Increment X, wrapping at 255.
    #[allow(non_snake_case)]
    pub fn INX(&mut self) -> (extra: u8)
        ensures
            ({
                let nv = ((old(self).x + 1) % 256) as u8;
                *final(self) == (CPU6502 {
                    x: nv,
                    sr: spec_put_flag(spec_put_flag(old(self).sr, Flags::Z, nv == 0), Flags::N, nv & 0x80 > 0),
                    ..*old(self)
                })
            }),
            extra == 0,
            final(self).bus.system_clock == old(self).bus.system_clock,
            final(self).bus.ppu.dot_count == old(self).bus.ppu.dot_count,
            final(self).bus.ppu.frame_complete == old(self).bus.ppu.frame_complete,
            final(self).bus.ppu.scanline == old(self).bus.ppu.scanline,
            final(self).bus.ppu.cycle == old(self).bus.ppu.cycle,
            final(self).bus.apu.global_time == old(self).bus.apu.global_time,
    {
        if self.x == 255 {
            self.x = 0;
        } else {
            self.x = self.x + 1;
        }
        self.set_flag(Flags::Z, self.x == 0x00);
        self.set_flag(Flags::N, (self.x & 0x80) > 0);
        return 0;
    }

    /// Increment Y, wrapping at 255.
    #[allow(non_snake_case)]
    pub fn INY(&mut self) -> (extra: u8)
        ensures
            ({
                let nv = ((old(self).y + 1) % 256) as u8;
                *final(self) == (CPU6502 {
                    y: nv,
                    sr: spec_put_flag(spec_put_flag(old(self).sr, Flags::Z, nv == 0), Flags::N, nv & 0x80 > 0),
                    ..*old(self)
                })
            }),
            extra == 0,
            final(self).bus.system_clock == old(self).bus.system_clock,
            final(self).bus.ppu.dot_count == old(self).bus.ppu.dot_count,
            final(self).bus.ppu.frame_complete == old(self).bus.ppu.frame_complete,
            final(self).bus.ppu.scanline == old(self).bus.ppu.scanline,
            final(self).bus.ppu.cycle == old(self).bus.ppu.cycle,
            final(self).bus.apu.global_time == old(self).bus.apu.global_time,
    {
        if self.y == 255 {
            self.y = 0;
        } else {
            self.y = self.y + 1;
        }
        self.set_flag(Flags::Z, self.y == 0x00);
        self.set_flag(Flags::N, (self.y & 0x80) > 0);
        return 0;
    }

    /// Branch when the carry flag is clear. A taken branch costs one extra cycle, and one more
    /// when it crosses a page boundary.
    #[allow(non_snake_case)]
    pub fn BCC(&mut self) -> (extra: u8)
        ensures
            extra == 0,
            !(!spec_flag(old(self).sr, Flags::C)) ==> *final(self) == *old(self),
            (!spec_flag(old(self).sr, Flags::C)) ==> ({
                let dest = old(self).pc.wrapping_add(old(self).addr_relative);
                let cross = (dest & 0xFF00) != (old(self).pc & 0xFF00);
                *final(self) == (CPU6502 {
                    pc: dest,
                    addr_absolute: dest,
                    cycles: old(self).cycles.wrapping_add(
                        if cross {
                            2
                        } else {
                            1
                        },
                    ),
                    ..*old(self)
                })
            }),
            final(self).bus.system_clock == old(self).bus.system_clock,
            final(self).bus.ppu.dot_count == old(self).bus.ppu.dot_count,
            final(self).bus.ppu.frame_complete == old(self).bus.ppu.frame_complete,
            final(self).bus.ppu.scanline == old(self).bus.ppu.scanline,
            final(self).bus.ppu.cycle == old(self).bus.ppu.cycle,
            final(self).bus.apu.global_time == old(self).bus.apu.global_time,
    {
        if self.get_flag(Flags::C) == 0 {
            self.cycles = self.cycles.wrapping_add(1);
            self.addr_absolute = self.pc.wrapping_add(self.addr_relative);

            if (self.addr_absolute & 0xFF00) != (self.pc & 0xFF00) {
                self.cycles = self.cycles.wrapping_add(1);
            }
            self.pc = self.addr_absolute;
        }
        return 0;
    }

    /// Branch when the carry flag is set. A taken branch costs one extra cycle, and one more
    /// when it crosses a page boundary.
    #[allow(non_snake_case)]
    pub fn BCS(&mut self) -> (extra: u8)
        ensures
            extra == 0,
            !(spec_flag(old(self).sr, Flags::C)) ==> *final(self) == *old(self),
            (spec_flag(old(self).sr, Flags::C)) ==> ({
                let dest = old(self).pc.wrapping_add(old(self).addr_relative);
                let cross = (dest & 0xFF00) != (old(self).pc & 0xFF00);
                *final(self) == (CPU6502 {
                    pc: dest,
                    addr_absolute: dest,
                    cycles: old(self).cycles.wrapping_add(
                        if cross {
                            2
                        } else {
                            1
                        },
                    ),
                    ..*old(self)
                })
            }),
            final(self).bus.system_clock == old(self).bus.system_clock,
            final(self).bus.ppu.dot_count == old(self).bus.ppu.dot_count,
            final(self).bus.ppu.frame_complete == old(self).bus.ppu.frame_complete,
            final(self).bus.ppu.scanline == old(self).bus.ppu.scanline,
            final(self).bus.ppu.cycle == old(self).bus.ppu.cycle,
            final(self).bus.apu.global_time == old(self).bus.apu.global_time,
    {
        if self.get_flag(Flags::C) == 1 {
            self.cycles = self.cycles.wrapping_add(1);
            self.addr_absolute = self.pc.wrapping_add(self.addr_relative);

            if (self.addr_absolute & 0xFF00) != (self.pc & 0xFF00) {
                self.cycles = self.cycles.wrapping_add(1);
            }
            self.pc = self.addr_absolute;
        }
        return 0;
    }

    /// Branch when the zero flag is set. A taken branch costs one extra cycle, and one more
    /// when it crosses a page boundary.
    #[allow(non_snake_case)]
    pub fn BEQ(&mut self) -> (extra: u8)
        ensures
            extra == 0,
            !(spec_flag(old(self).sr, Flags::Z)) ==> *final(self) == *old(self),
            (spec_flag(old(self).sr, Flags::Z)) ==> ({
                let dest = old(self).pc.wrapping_add(old(self).addr_relative);
                let cross = (dest & 0xFF00) != (old(self).pc & 0xFF00);
                *final(self) == (CPU6502 {
                    pc: dest,
                    addr_absolute: dest,
                    cycles: old(self).cycles.wrapping_add(
                        if cross {
                            2
                        } else {
                            1
                        },
                    ),
                    ..*old(self)
                })
            }),
            final(self).bus.system_clock == old(self).bus.system_clock,
            final(self).bus.ppu.dot_count == old(self).bus.ppu.dot_count,
            final(self).bus.ppu.frame_complete == old(self).bus.ppu.frame_complete,
            final(self).bus.ppu.scanline == old(self).bus.ppu.scanline,
            final(self).bus.ppu.cycle == old(self).bus.ppu.cycle,
            final(self).bus.apu.global_time == old(self).bus.apu.global_time,
    {
        if self.get_flag(Flags::Z) == 1 {
            self.cycles = self.cycles.wrapping_add(1);
            self.addr_absolute = self.pc.wrapping_add(self.addr_relative);

            if (self.addr_absolute & 0xFF00) != (self.pc & 0xFF00) {
                self.cycles = self.cycles.wrapping_add(1);
            }
            self.pc = self.addr_absolute;
        }
        return 0;
    }

    /// Branch when the negative flag is set. A taken branch costs one extra cycle, and one more
    /// when it crosses a page boundary.
    #[allow(non_snake_case)]
    pub fn BMI(&mut self) -> (extra: u8)
        ensures
            extra == 0,
            !(spec_flag(old(self).sr, Flags::N)) ==> *final(self) == *old(self),
            (spec_flag(old(self).sr, Flags::N)) ==> ({
                let dest = old(self).pc.wrapping_add(old(self).addr_relative);
                let cross = (dest & 0xFF00) != (old(self).pc & 0xFF00);
                *final(self) == (CPU6502 {
                    pc: dest,
                    addr_absolute: dest,
                    cycles: old(self).cycles.wrapping_add(
                        if cross {
                            2
                        } else {
                            1
                        },
                    ),
                    ..*old(self)
                })
            }),
            final(self).bus.system_clock == old(self).bus.system_clock,
            final(self).bus.ppu.dot_count == old(self).bus.ppu.dot_count,
            final(self).bus.ppu.frame_complete == old(self).bus.ppu.frame_complete,
            final(self).bus.ppu.scanline == old(self).bus.ppu.scanline,
            final(self).bus.ppu.cycle == old(self).bus.ppu.cycle,
            final(self).bus.apu.global_time == old(self).bus.apu.global_time,
    {
        if self.get_flag(Flags::N) == 1 {
            self.cycles = self.cycles.wrapping_add(1);
            self.addr_absolute = self.pc.wrapping_add(self.addr_relative);

            if (self.addr_absolute & 0xFF00) != (self.pc & 0xFF00) {
                self.cycles = self.cycles.wrapping_add(1);
            }
            self.pc = self.addr_absolute;
        }
        return 0;
    }

    /// Branch when the zero flag is clear. A taken branch costs one extra cycle, and one more
    /// when it crosses a page boundary.
    #[allow(non_snake_case)]
    pub fn BNE(&mut self) -> (extra: u8)
        ensures
            extra == 0,
            !(!spec_flag(old(self).sr, Flags::Z)) ==> *final(self) == *old(self),
            (!spec_flag(old(self).sr, Flags::Z)) ==> ({
                let dest = old(self).pc.wrapping_add(old(self).addr_relative);
                let cross = (dest & 0xFF00) != (old(self).pc & 0xFF00);
                *final(self) == (CPU6502 {
                    pc: dest,
                    addr_absolute: dest,
                    cycles: old(self).cycles.wrapping_add(
                        if cross {
                            2
                        } else {
                            1
                        },
                    ),
                    ..*old(self)
                })
            }),
            final(self).bus.system_clock == old(self).bus.system_clock,
            final(self).bus.ppu.dot_count == old(self).bus.ppu.dot_count,
            final(self).bus.ppu.frame_complete == old(self).bus.ppu.frame_complete,
            final(self).bus.ppu.scanline == old(self).bus.ppu.scanline,
            final(self).bus.ppu.cycle == old(self).bus.ppu.cycle,
            final(self).bus.apu.global_time == old(self).bus.apu.global_time,
    {
        if self.get_flag(Flags::Z) == 0 {
            self.cycles = self.cycles.wrapping_add(1);
            self.addr_absolute = self.pc.wrapping_add(self.addr_relative);

            if (self.addr_absolute & 0xFF00) != (self.pc & 0xFF00) {
                self.cycles = self.cycles.wrapping_add(1);
            }
            self.pc = self.addr_absolute;
        }
        return 0;
    }

    /// Branch when the negative flag is clear. A taken branch costs one extra cycle, and one more
    /// when it crosses a page boundary.
    #[allow(non_snake_case)]
    pub fn BPL(&mut self) -> (extra: u8)
        ensures
            extra == 0,
            !(!spec_flag(old(self).sr, Flags::N)) ==> *final(self) == *old(self),
            (!spec_flag(old(self).sr, Flags::N)) ==> ({
                let dest = old(self).pc.wrapping_add(old(self).addr_relative);
                let cross = (dest & 0xFF00) != (old(self).pc & 0xFF00);
                *final(self) == (CPU6502 {
                    pc: dest,
                    addr_absolute: dest,
                    cycles: old(self).cycles.wrapping_add(
                        if cross {
                            2
                        } else {
                            1
                        },
                    ),
                    ..*old(self)
                })
            }),
            final(self).bus.system_clock == old(self).bus.system_clock,
            final(self).bus.ppu.dot_count == old(self).bus.ppu.dot_count,
            final(self).bus.ppu.frame_complete == old(self).bus.ppu.frame_complete,
            final(self).bus.ppu.scanline == old(self).bus.ppu.scanline,
            final(self).bus.ppu.cycle == old(self).bus.ppu.cycle,
            final(self).bus.apu.global_time == old(self).bus.apu.global_time,
    {
        if self.get_flag(Flags::N) == 0 {
            self.cycles = self.cycles.wrapping_add(1);
            self.addr_absolute = self.pc.wrapping_add(self.addr_relative);

            if (self.addr_absolute & 0xFF00) != (self.pc & 0xFF00) {
                self.cycles = self.cycles.wrapping_add(1);
            }
            self.pc = self.addr_absolute;
        }
        return 0;
    }

    /// Branch when the overflow flag is clear. A taken branch costs one extra cycle, and one more
    /// when it crosses a page boundary.
    #[allow(non_snake_case)]
    pub fn BVC(&mut self) -> (extra: u8)
        ensures
            extra == 0,
            !(!spec_flag(old(self).sr, Flags::V)) ==> *final(self) == *old(self),
            (!spec_flag(old(self).sr, Flags::V)) ==> ({
                let dest = old(self).pc.wrapping_add(old(self).addr_relative);
                let cross = (dest & 0xFF00) != (old(self).pc & 0xFF00);
                *final(self) == (CPU6502 {
                    pc: dest,
                    addr_absolute: dest,
                    cycles: old(self).cycles.wrapping_add(
                        if cross {
                            2
                        } else {
                            1
                        },
                    ),
                    ..*old(self)
                })
            }),
            final(self).bus.system_clock == old(self).bus.system_clock,
            final(self).bus.ppu.dot_count == old(self).bus.ppu.dot_count,
            final(self).bus.ppu.frame_complete == old(self).bus.ppu.frame_complete,
            final(self).bus.ppu.scanline == old(self).bus.ppu.scanline,
            final(self).bus.ppu.cycle == old(self).bus.ppu.cycle,
            final(self).bus.apu.global_time == old(self).bus.apu.global_time,
    {
        if self.get_flag(Flags::V) == 0 {
            self.cycles = self.cycles.wrapping_add(1);
            self.addr_absolute = self.pc.wrapping_add(self.addr_relative);

            if (self.addr_absolute & 0xFF00) != (self.pc & 0xFF00) {
                self.cycles = self.cycles.wrapping_add(1);
            }
            self.pc = self.addr_absolute;
        }
        return 0;
    }

    /// Branch when the overflow flag is set. A taken branch costs one extra cycle, and one more
    /// when it crosses a page boundary.
    #[allow(non_snake_case)]
    pub fn BVS(&mut self) -> (extra: u8)
        ensures
            extra == 0,
            !(spec_flag(old(self).sr, Flags::V)) ==> *final(self) == *old(self),
            (spec_flag(old(self).sr, Flags::V)) ==> ({
                let dest = old(self).pc.wrapping_add(old(self).addr_relative);
                let cross = (dest & 0xFF00) != (old(self).pc & 0xFF00);
                *final(self) == (CPU6502 {
                    pc: dest,
                    addr_absolute: dest,
                    cycles: old(self).cycles.wrapping_add(
                        if cross {
                            2
                        } else {
                            1
                        },
                    ),
                    ..*old(self)
                })
            }),
            final(self).bus.system_clock == old(self).bus.system_clock,
            final(self).bus.ppu.dot_count == old(self).bus.ppu.dot_count,
            final(self).bus.ppu.frame_complete == old(self).bus.ppu.frame_complete,
            final(self).bus.ppu.scanline == old(self).bus.ppu.scanline,
            final(self).bus.ppu.cycle == old(self).bus.ppu.cycle,
            final(self).bus.apu.global_time == old(self).bus.apu.global_time,
    {
        if self.get_flag(Flags::V) == 1 {
            self.cycles = self.cycles.wrapping_add(1);
            self.addr_absolute = self.pc.wrapping_add(self.addr_relative);

            if (self.addr_absolute & 0xFF00) != (self.pc & 0xFF00) {
                self.cycles = self.cycles.wrapping_add(1);
            }
            self.pc = self.addr_absolute;
        }
        return 0;
    }

    /// Bitwise AND of the accumulator with the operand.
    #[allow(non_snake_case)]
    pub fn AND(&mut self) -> (extra: u8)
        requires
            old(self).wf(),
        ensures
            final(self).wf(),
            extra == 1,
            spec_fetch_rel(old(self), final(self)),
            ({
                let f = final(self).fetched;
                let nv = (old(self).a & f) as u8;
                *final(self) == (CPU6502 {
                    bus: final(self).bus,
                    fetched: final(self).fetched,
                    a: nv,
                    sr: spec_put_flag(spec_put_flag(old(self).sr, Flags::Z, nv == 0), Flags::N, nv & 0x80 > 0),
                    ..*old(self)
                })
            }),
            final(self).bus.system_clock == old(self).bus.system_clock,
            final(self).bus.ppu.dot_count == old(self).bus.ppu.dot_count,
            final(self).bus.ppu.frame_complete == old(self).bus.ppu.frame_complete,
            final(self).bus.ppu.scanline == old(self).bus.ppu.scanline,
            final(self).bus.ppu.cycle == old(self).bus.ppu.cycle,
            final(self).bus.apu.global_time == old(self).bus.apu.global_time,
    {
        self.fetch();
        self.a = self.a & self.fetched;
        self.set_flag(Flags::Z, self.a == 0x00);
        self.set_flag(Flags::N, (self.a & 0x80) > 0);
        return 1;
    }

    /// Bitwise exclusive OR of the accumulator with the operand.
    #[allow(non_snake_case)]
    pub fn EOR(&mut self) -> (extra: u8)
        requires
            old(self).wf(),
        ensures
            final(self).wf(),
            extra == 1,
            spec_fetch_rel(old(self), final(self)),
            ({
                let f = final(self).fetched;
                let nv = (old(self).a ^ f) as u8;
                *final(self) == (CPU6502 {
                    bus: final(self).bus,
                    fetched: final(self).fetched,
                    a: nv,
                    sr: spec_put_flag(spec_put_flag(old(self).sr, Flags::Z, nv == 0), Flags::N, nv & 0x80 > 0),
                    ..*old(self)
                })
            }),
            final(self).bus.system_clock == old(self).bus.system_clock,
            final(self).bus.ppu.dot_count == old(self).bus.ppu.dot_count,
            final(self).bus.ppu.frame_complete == old(self).bus.ppu.frame_complete,
            final(self).bus.ppu.scanline == old(self).bus.ppu.scanline,
            final(self).bus.ppu.cycle == old(self).bus.ppu.cycle,
            final(self).bus.apu.global_time == old(self).bus.apu.global_time,
    {
        self.fetch();
        self.a = self.a ^ self.fetched;
        self.set_flag(Flags::Z, self.a == 0x00);
        self.set_flag(Flags::N, (self.a & 0x80) > 0);
        return 1;
    }

    /// Bitwise OR of the accumulator with the operand.
    #[allow(non_snake_case)]
    pub fn ORA(&mut self) -> (extra: u8)
        requires
            old(self).wf(),
        ensures
            final(self).wf(),
            extra == 1,
            spec_fetch_rel(old(self), final(self)),
            ({
                let f = final(self).fetched;
                let nv = (old(self).a | f) as u8;
                *final(self) == (CPU6502 {
                    bus: final(self).bus,
                    fetched: final(self).fetched,
                    a: nv,
                    sr: spec_put_flag(spec_put_flag(old(self).sr, Flags::Z, nv == 0), Flags::N, nv & 0x80 > 0),
                    ..*old(self)
                })
            }),
            final(self).bus.system_clock == old(self).bus.system_clock,
            final(self).bus.ppu.dot_count == old(self).bus.ppu.dot_count,
            final(self).bus.ppu.frame_complete == old(self).bus.ppu.frame_complete,
            final(self).bus.ppu.scanline == old(self).bus.ppu.scanline,
            final(self).bus.ppu.cycle == old(self).bus.ppu.cycle,
            final(self).bus.apu.global_time == old(self).bus.apu.global_time,
    {
        self.fetch();
        self.a = self.a | self.fetched;
        self.set_flag(Flags::Z, self.a == 0x00);
        self.set_flag(Flags::N, (self.a & 0x80) > 0);
        return 1;
    }

    /// Load the accumulator from the operand.
    #[allow(non_snake_case)]
    pub fn LDA(&mut self) -> (extra: u8)
        requires
            old(self).wf(),
        ensures
            final(self).wf(),
            extra == 1,
            spec_fetch_rel(old(self), final(self)),
            ({
                let f = final(self).fetched;
                let nv = f;
                *final(self) == (CPU6502 {
                    bus: final(self).bus,
                    fetched: final(self).fetched,
                    a: nv,
                    sr: spec_put_flag(spec_put_flag(old(self).sr, Flags::Z, nv == 0), Flags::N, nv & 0x80 > 0),
                    ..*old(self)
                })
            }),
            final(self).bus.system_clock == old(self).bus.system_clock,
            final(self).bus.ppu.dot_count == old(self).bus.ppu.dot_count,
            final(self).bus.ppu.frame_complete == old(self).bus.ppu.frame_complete,
            final(self).bus.ppu.scanline == old(self).bus.ppu.scanline,
            final(self).bus.ppu.cycle == old(self).bus.ppu.cycle,
            final(self).bus.apu.global_time == old(self).bus.apu.global_time,
    {
        self.fetch();
        self.a = self.fetched;
        self.set_flag(Flags::Z, self.a == 0x00);
        self.set_flag(Flags::N, (self.a & 0x80) > 0);
        return 1;
    }

    /// Load X from the operand.
    #[allow(non_snake_case)]
    pub fn LDX(&mut self) -> (extra: u8)
        requires
            old(self).wf(),
        ensures
            final(self).wf(),
            extra == 1,
            spec_fetch_rel(old(self), final(self)),
            ({
                let f = final(self).fetched;
                let nv = f;
                *final(self) == (CPU6502 {
                    bus: final(self).bus,
                    fetched: final(self).fetched,
                    x: nv,
                    sr: spec_put_flag(spec_put_flag(old(self).sr, Flags::Z, nv == 0), Flags::N, nv & 0x80 > 0),
                    ..*old(self)
                })
            }),
            final(self).bus.system_clock == old(self).bus.system_clock,
            final(self).bus.ppu.dot_count == old(self).bus.ppu.dot_count,
            final(self).bus.ppu.frame_complete == old(self).bus.ppu.frame_complete,
            final(self).bus.ppu.scanline == old(self).bus.ppu.scanline,
            final(self).bus.ppu.cycle == old(self).bus.ppu.cycle,
            final(self).bus.apu.global_time == old(self).bus.apu.global_time,
    {
        self.fetch();
        self.x = self.fetched;
        self.set_flag(Flags::Z, self.x == 0x00);
        self.set_flag(Flags::N, (self.x & 0x80) > 0);
        return 1;
    }

    /// Load Y from the operand.
    #[allow(non_snake_case)]
    pub fn LDY(&mut self) -> (extra: u8)
        requires
            old(self).wf(),
        ensures
            final(self).wf(),
            extra == 1,
            spec_fetch_rel(old(self), final(self)),
            ({
                let f = final(self).fetched;
                let nv = f;
                *final(self) == (CPU6502 {
                    bus: final(self).bus,
                    fetched: final(self).fetched,
                    y: nv,
                    sr: spec_put_flag(spec_put_flag(old(self).sr, Flags::Z, nv == 0), Flags::N, nv & 0x80 > 0),
                    ..*old(self)
                })
            }),
            final(self).bus.system_clock == old(self).bus.system_clock,
            final(self).bus.ppu.dot_count == old(self).bus.ppu.dot_count,
            final(self).bus.ppu.frame_complete == old(self).bus.ppu.frame_complete,
            final(self).bus.ppu.scanline == old(self).bus.ppu.scanline,
            final(self).bus.ppu.cycle == old(self).bus.ppu.cycle,
            final(self).bus.apu.global_time == old(self).bus.apu.global_time,
    {
        self.fetch();
        self.y = self.fetched;
        self.set_flag(Flags::Z, self.y == 0x00);
        self.set_flag(Flags::N, (self.y & 0x80) > 0);
        return 1;
    }

    /// Compare the accumulator with the operand. The carry is set when the register is at least the
    /// operand; zero and negative follow the wrapped difference.
    #[allow(non_snake_case)]
    pub fn CMP(&mut self) -> (extra: u8)
        requires
            old(self).wf(),
        ensures
            final(self).wf(),
            extra == 0,
            spec_fetch_rel(old(self), final(self)),
            ({
                let f = final(self).fetched;
                let diff = old(self).a.wrapping_sub(f);
                *final(self) == (CPU6502 {
                    bus: final(self).bus,
                    fetched: final(self).fetched,
                    sr: spec_put_flag(spec_put_flag(spec_put_flag(old(self).sr, Flags::C, old(self).a >= f), Flags::Z, diff == 0), Flags::N, diff & 0x80 > 0),
                    ..*old(self)
                })
            }),
            final(self).bus.system_clock == old(self).bus.system_clock,
            final(self).bus.ppu.dot_count == old(self).bus.ppu.dot_count,
            final(self).bus.ppu.frame_complete == old(self).bus.ppu.frame_complete,
            final(self).bus.ppu.scanline == old(self).bus.ppu.scanline,
            final(self).bus.ppu.cycle == old(self).bus.ppu.cycle,
            final(self).bus.apu.global_time == old(self).bus.apu.global_time,
    {
        self.fetch();
        let diff = self.a.wrapping_sub(self.fetched);
        self.set_flag(Flags::C, self.a >= self.fetched);
        self.set_flag(Flags::Z, diff == 0x00);
        self.set_flag(Flags::N, (diff & 0x80) > 0);
        return 0;
    }

    /// Compare X with the operand. The carry is set when the register is at least the
    /// operand; zero and negative follow the wrapped difference.
    #[allow(non_snake_case)]
    pub fn CPX(&mut self) -> (extra: u8)
        requires
            old(self).wf(),
        ensures
            final(self).wf(),
            extra == 0,
            spec_fetch_rel(old(self), final(self)),
            ({
                let f = final(self).fetched;
                let diff = old(self).x.wrapping_sub(f);
                *final(self) == (CPU6502 {
                    bus: final(self).bus,
                    fetched: final(self).fetched,
                    sr: spec_put_flag(spec_put_flag(spec_put_flag(old(self).sr, Flags::C, old(self).x >= f), Flags::Z, diff == 0), Flags::N, diff & 0x80 > 0),
                    ..*old(self)
                })
            }),
            final(self).bus.system_clock == old(self).bus.system_clock,
            final(self).bus.ppu.dot_count == old(self).bus.ppu.dot_count,
            final(self).bus.ppu.frame_complete == old(self).bus.ppu.frame_complete,
            final(self).bus.ppu.scanline == old(self).bus.ppu.scanline,
            final(self).bus.ppu.cycle == old(self).bus.ppu.cycle,
            final(self).bus.apu.global_time == old(self).bus.apu.global_time,
    {
        self.fetch();
        let diff = self.x.wrapping_sub(self.fetched);
        self.set_flag(Flags::C, self.x >= self.fetched);
        self.set_flag(Flags::Z, diff == 0x00);
        self.set_flag(Flags::N, (diff & 0x80) > 0);
        return 0;
    }

    /// Compare Y with the operand. The carry is set when the register is at least the
    /// operand; zero and negative follow the wrapped difference.
    #[allow(non_snake_case)]
    pub fn CPY(&mut self) -> (extra: u8)
        requires
            old(self).wf(),
        ensures
            final(self).wf(),
            extra == 0,
            spec_fetch_rel(old(self), final(self)),
            ({
                let f = final(self).fetched;
                let diff = old(self).y.wrapping_sub(f);
                *final(self) == (CPU6502 {
                    bus: final(self).bus,
                    fetched: final(self).fetched,
                    sr: spec_put_flag(spec_put_flag(spec_put_flag(old(self).sr, Flags::C, old(self).y >= f), Flags::Z, diff == 0), Flags::N, diff & 0x80 > 0),
                    ..*old(self)
                })
            }),
            final(self).bus.system_clock == old(self).bus.system_clock,
            final(self).bus.ppu.dot_count == old(self).bus.ppu.dot_count,
            final(self).bus.ppu.frame_complete == old(self).bus.ppu.frame_complete,
            final(self).bus.ppu.scanline == old(self).bus.ppu.scanline,
            final(self).bus.ppu.cycle == old(self).bus.ppu.cycle,
            final(self).bus.apu.global_time == old(self).bus.apu.global_time,
    {
        self.fetch();
        let diff = self.y.wrapping_sub(self.fetched);
        self.set_flag(Flags::C, self.y >= self.fetched);
        self.set_flag(Flags::Z, diff == 0x00);
        self.set_flag(Flags::N, (diff & 0x80) > 0);
        return 0;
    }

    /// Bit test: zero from the masked accumulator, negative and
    /// overflow copied from bits 7 and 6 of the operand.
    #[allow(non_snake_case)]
    pub fn BIT(&mut self) -> (extra: u8)
        requires
            old(self).wf(),
        ensures
            final(self).wf(),
            extra == 0,
            spec_fetch_rel(old(self), final(self)),
            ({
                let f = final(self).fetched;
                *final(self) == (CPU6502 {
                    bus: final(self).bus,
                    fetched: final(self).fetched,
                    sr: spec_put_flag(spec_put_flag(spec_put_flag(old(self).sr, Flags::Z, (old(self).a & f) == 0), Flags::N, f & 0x80 > 0), Flags::V, f & 0x40 > 0),
                    ..*old(self)
                })
            }),
            final(self).bus.system_clock == old(self).bus.system_clock,
            final(self).bus.ppu.dot_count == old(self).bus.ppu.dot_count,
            final(self).bus.ppu.frame_complete == old(self).bus.ppu.frame_complete,
            final(self).bus.ppu.scanline == old(self).bus.ppu.scanline,
            final(self).bus.ppu.cycle == old(self).bus.ppu.cycle,
            final(self).bus.apu.global_time == old(self).bus.apu.global_time,
    {
        self.fetch();
        let tmp = self.a & self.fetched;
        self.set_flag(Flags::Z, tmp == 0x00);
        self.set_flag(Flags::N, (self.fetched & 0x80) > 0);
        self.set_flag(Flags::V, (self.fetched & 0x40) > 0);
        return 0;
    }

    /// Add the operand and carry to the accumulator: carry on unsigned
    /// overflow, signed overflow from the sign-comparison formula.
    #[allow(non_snake_case)]
    pub fn ADC(&mut self) -> (extra: u8)
        requires
            old(self).wf(),
        ensures
            final(self).wf(),
            extra == 1,
            spec_fetch_rel(old(self), final(self)),
            ({
                let f = final(self).fetched;
                let c: int = if spec_flag(old(self).sr, Flags::C) {
                    1
                } else {
                    0
                };
                let sum = old(self).a + f + c;
                let r = (sum % 256) as u8;
                *final(self) == (CPU6502 {
                    bus: final(self).bus,
                    fetched: final(self).fetched,
                    a: r,
                    sr: spec_put_flag(
                        spec_put_flag(
                            spec_put_flag(
                                spec_put_flag(old(self).sr, Flags::C, sum > 255),
                                Flags::Z,
                                r == 0,
                            ),
                            Flags::V,
                            ((!(old(self).a ^ f)) & (old(self).a ^ r)) & 0x80 > 0,
                        ),
                        Flags::N,
                        r & 0x80 > 0,
                    ),
                    ..*old(self)
                })
            }),
            final(self).bus.system_clock == old(self).bus.system_clock,
            final(self).bus.ppu.dot_count == old(self).bus.ppu.dot_count,
            final(self).bus.ppu.frame_complete == old(self).bus.ppu.frame_complete,
            final(self).bus.ppu.scanline == old(self).bus.ppu.scanline,
            final(self).bus.ppu.cycle == old(self).bus.ppu.cycle,
            final(self).bus.apu.global_time == old(self).bus.apu.global_time,
    {
        self.fetch();
        let tmp: u16 = (self.a as u16) + (self.fetched as u16) + (self.get_flag(Flags::C)
            as u16);
        let r: u8 = (tmp % 256) as u8;

        self.set_flag(Flags::C, tmp > 255);
        self.set_flag(Flags::Z, r == 0);
        self.set_flag(Flags::V, ((!(self.a ^ self.fetched)) & (self.a ^ r)) & 0x80 > 0);
        self.set_flag(Flags::N, (r & 0x80) > 0);
        self.a = r;
        return 1;
    }

    /// Subtract the operand from the accumulator with borrow: the same
    /// addition as ADC with the operand's bits inverted.
    #[allow(non_snake_case)]
    pub fn SBC(&mut self) -> (extra: u8)
        requires
            old(self).wf(),
        ensures
            final(self).wf(),
            extra == 1,
            spec_fetch_rel(old(self), final(self)),
            ({
                let f = final(self).fetched;
                let inv = (f ^ 0xFF) as u8;
                let c: int = if spec_flag(old(self).sr, Flags::C) {
                    1
                } else {
                    0
                };
                let sum = old(self).a + inv + c;
                let r = (sum % 256) as u8;
                *final(self) == (CPU6502 {
                    bus: final(self).bus,
                    fetched: final(self).fetched,
                    a: r,
                    sr: spec_put_flag(
                        spec_put_flag(
                            spec_put_flag(
                                spec_put_flag(old(self).sr, Flags::C, sum > 255),
                                Flags::Z,
                                r == 0,
                            ),
                            Flags::V,
                            ((r ^ old(self).a) & (r ^ inv)) & 0x80 > 0,
                        ),
                        Flags::N,
                        r & 0x80 > 0,
                    ),
                    ..*old(self)
                })
            }),
            final(self).bus.system_clock == old(self).bus.system_clock,
            final(self).bus.ppu.dot_count == old(self).bus.ppu.dot_count,
            final(self).bus.ppu.frame_complete == old(self).bus.ppu.frame_complete,
            final(self).bus.ppu.scanline == old(self).bus.ppu.scanline,
            final(self).bus.ppu.cycle == old(self).bus.ppu.cycle,
            final(self).bus.apu.global_time == old(self).bus.apu.global_time,
    {
        self.fetch();
        let inversion: u8 = self.fetched ^ 0xFF;
        let tmp: u16 = (self.a as u16) + (inversion as u16) + (self.get_flag(Flags::C) as u16);
        let r: u8 = (tmp % 256) as u8;

        self.set_flag(Flags::C, tmp > 255);
        self.set_flag(Flags::Z, r == 0);
        self.set_flag(Flags::V, ((r ^ self.a) & (r ^ inversion)) & 0x80 > 0);
        self.set_flag(Flags::N, (r & 0x80) > 0);

        self.a = r;
        return 1;
    }

}

impl CPU6502 {
    /// Arithmetic shift left; bit 7 falls into the carry.
    #[allow(non_snake_case)]
    pub fn ASL(&mut self) -> (extra: u8)
        requires
            old(self).wf(),
        ensures
            final(self).wf(),
            extra == 0,
            ({
                let f = final(self).fetched;
                let r = ((f * 2) % 256) as u8;
                let srn = spec_put_flag(
                    spec_put_flag(
                        spec_put_flag(old(self).sr, Flags::C, f * 2 > 255),
                        Flags::Z,
                        r == 0,
                    ),
                    Flags::N,
                    r & 0x80 > 0,
                );
                if spec_instruction(old(self).opcode).mode is IMP {
                    *final(self) == (CPU6502 { a: r, sr: srn, ..*old(self) })
                } else {
                    &&& (exists|mid: Bus|
                        #[trigger] Bus::spec_read_rel(
                            &old(self).bus,
                            &mid,
                            old(self).addr_absolute,
                            final(self).fetched,
                        ) && Bus::spec_write_rel(
                            &mid,
                            &final(self).bus,
                            old(self).addr_absolute,
                            r,
                        ))
                    &&& *final(self) == (CPU6502 {
                        bus: final(self).bus,
                        fetched: final(self).fetched,
                        sr: srn,
                        ..*old(self)
                    })
                }
            }),
            final(self).bus.system_clock == old(self).bus.system_clock,
            final(self).bus.ppu.dot_count == old(self).bus.ppu.dot_count,
            final(self).bus.ppu.frame_complete == old(self).bus.ppu.frame_complete,
            final(self).bus.ppu.scanline == old(self).bus.ppu.scanline,
            final(self).bus.ppu.cycle == old(self).bus.ppu.cycle,
            final(self).bus.apu.global_time == old(self).bus.apu.global_time,
    {
        self.fetch();
        let ghost mid = self.bus;
        let r: u8 = ((self.fetched as u16 * 2) % 256) as u8;
        self.set_flag(Flags::C, (self.fetched as u16 * 2) > 255);
        self.set_flag(Flags::Z, r == 0x00);
        self.set_flag(Flags::N, (r & 0x80) > 0);

        let ins = instruction(self.opcode);
        if matches!(ins.mode, AddrMode::IMP) {
            self.a = r;
        } else {
            let mut v = r;
            self.write(self.addr_absolute, &mut v);
        }
        return 0;
    }

    /// Logical shift right; bit 0 falls into the carry.
    #[allow(non_snake_case)]
    pub fn LSR(&mut self) -> (extra: u8)
        requires
            old(self).wf(),
        ensures
            final(self).wf(),
            extra == 0,
            ({
                let f = final(self).fetched;
                let r = (f >> 1) as u8;
                let srn = spec_put_flag(
                    spec_put_flag(
                        spec_put_flag(old(self).sr, Flags::C, f & 0x01 > 0),
                        Flags::Z,
                        r == 0,
                    ),
                    Flags::N,
                    r & 0x80 > 0,
                );
                if spec_instruction(old(self).opcode).mode is IMP {
                    *final(self) == (CPU6502 { a: r, sr: srn, ..*old(self) })
                } else {
                    &&& (exists|mid: Bus|
                        #[trigger] Bus::spec_read_rel(
                            &old(self).bus,
                            &mid,
                            old(self).addr_absolute,
                            final(self).fetched,
                        ) && Bus::spec_write_rel(
                            &mid,
                            &final(self).bus,
                            old(self).addr_absolute,
                            r,
                        ))
                    &&& *final(self) == (CPU6502 {
                        bus: final(self).bus,
                        fetched: final(self).fetched,
                        sr: srn,
                        ..*old(self)
                    })
                }
            }),
            final(self).bus.system_clock == old(self).bus.system_clock,
            final(self).bus.ppu.dot_count == old(self).bus.ppu.dot_count,
            final(self).bus.ppu.frame_complete == old(self).bus.ppu.frame_complete,
            final(self).bus.ppu.scanline == old(self).bus.ppu.scanline,
            final(self).bus.ppu.cycle == old(self).bus.ppu.cycle,
            final(self).bus.apu.global_time == old(self).bus.apu.global_time,
    {
        self.fetch();
        let ghost mid = self.bus;
        let r: u8 = self.fetched >> 1;
        self.set_flag(Flags::C, (self.fetched & 0x01) > 0);
        self.set_flag(Flags::Z, r == 0x00);
        self.set_flag(Flags::N, (r & 0x80) > 0);

        let ins = instruction(self.opcode);
        if matches!(ins.mode, AddrMode::IMP) {
            self.a = r;
        } else {
            let mut v = r;
            self.write(self.addr_absolute, &mut v);
        }
        return 0;
    }

    /// Rotate left through the carry.
    #[allow(non_snake_case)]
    pub fn ROL(&mut self) -> (extra: u8)
        requires
            old(self).wf(),
        ensures
            final(self).wf(),
            extra == 0,
            ({
                let f = final(self).fetched;
                let c: int = if spec_flag(old(self).sr, Flags::C) {
                    1
                } else {
                    0
                };
                let r = ((f * 2 + c) % 256) as u8;
                let srn = spec_put_flag(
                    spec_put_flag(
                        spec_put_flag(old(self).sr, Flags::C, f * 2 + c > 255),
                        Flags::Z,
                        r == 0,
                    ),
                    Flags::N,
                    r & 0x80 > 0,
                );
                if spec_instruction(old(self).opcode).mode is IMP {
                    *final(self) == (CPU6502 { a: r, sr: srn, ..*old(self) })
                } else {
                    &&& (exists|mid: Bus|
                        #[trigger] Bus::spec_read_rel(
                            &old(self).bus,
                            &mid,
                            old(self).addr_absolute,
                            final(self).fetched,
                        ) && Bus::spec_write_rel(
                            &mid,
                            &final(self).bus,
                            old(self).addr_absolute,
                            r,
                        ))
                    &&& *final(self) == (CPU6502 {
                        bus: final(self).bus,
                        fetched: final(self).fetched,
                        sr: srn,
                        ..*old(self)
                    })
                }
            }),
            final(self).bus.system_clock == old(self).bus.system_clock,
            final(self).bus.ppu.dot_count == old(self).bus.ppu.dot_count,
            final(self).bus.ppu.frame_complete == old(self).bus.ppu.frame_complete,
            final(self).bus.ppu.scanline == old(self).bus.ppu.scanline,
            final(self).bus.ppu.cycle == old(self).bus.ppu.cycle,
            final(self).bus.apu.global_time == old(self).bus.apu.global_time,
    {
        self.fetch();
        let ghost mid = self.bus;
        let carry: u8 = self.get_flag(Flags::C);
        let r: u8 = ((self.fetched as u16 * 2 + carry as u16) % 256) as u8;
        self.set_flag(Flags::C, (self.fetched as u16 * 2 + carry as u16) > 255);
        self.set_flag(Flags::Z, r == 0x00);
        self.set_flag(Flags::N, (r & 0x80) > 0);

        let ins = instruction(self.opcode);
        if matches!(ins.mode, AddrMode::IMP) {
            self.a = r;
        } else {
            let mut v = r;
            self.write(self.addr_absolute, &mut v);
        }
        return 0;
    }

    /// Rotate right through the carry.
    #[allow(non_snake_case)]
    pub fn ROR(&mut self) -> (extra: u8)
        requires
            old(self).wf(),
        ensures
            final(self).wf(),
            extra == 0,
            ({
                let f = final(self).fetched;
                let c: int = if spec_flag(old(self).sr, Flags::C) {
                    1
                } else {
                    0
                };
                let r = (c * 128 + f / 2) as u8;
                let srn = spec_put_flag(
                    spec_put_flag(
                        spec_put_flag(old(self).sr, Flags::C, f & 0x01 > 0),
                        Flags::Z,
                        r == 0,
                    ),
                    Flags::N,
                    r & 0x80 > 0,
                );
                if spec_instruction(old(self).opcode).mode is IMP {
                    *final(self) == (CPU6502 { a: r, sr: srn, ..*old(self) })
                } else {
                    &&& (exists|mid: Bus|
                        #[trigger] Bus::spec_read_rel(
                            &old(self).bus,
                            &mid,
                            old(self).addr_absolute,
                            final(self).fetched,
                        ) && Bus::spec_write_rel(
                            &mid,
                            &final(self).bus,
                            old(self).addr_absolute,
                            r,
                        ))
                    &&& *final(self) == (CPU6502 {
                        bus: final(self).bus,
                        fetched: final(self).fetched,
                        sr: srn,
                        ..*old(self)
                    })
                }
            }),
            final(self).bus.system_clock == old(self).bus.system_clock,
            final(self).bus.ppu.dot_count == old(self).bus.ppu.dot_count,
            final(self).bus.ppu.frame_complete == old(self).bus.ppu.frame_complete,
            final(self).bus.ppu.scanline == old(self).bus.ppu.scanline,
            final(self).bus.ppu.cycle == old(self).bus.ppu.cycle,
            final(self).bus.apu.global_time == old(self).bus.apu.global_time,
    {
        self.fetch();
        let ghost mid = self.bus;
        let carry: u8 = self.get_flag(Flags::C);
        let r: u8 = carry * 128 + (self.fetched / 2);
        self.set_flag(Flags::C, (self.fetched & 0x01) > 0);
        self.set_flag(Flags::Z, r == 0x00);
        self.set_flag(Flags::N, (r & 0x80) > 0);

        let ins = instruction(self.opcode);
        if matches!(ins.mode, AddrMode::IMP) {
            self.a = r;
        } else {
            let mut v = r;
            self.write(self.addr_absolute, &mut v);
        }
        return 0;
    }

    /// Decrement the addressed byte, wrapping at zero.
    #[allow(non_snake_case)]
    pub fn DEC(&mut self) -> (extra: u8)
        requires
            old(self).wf(),
        ensures
            final(self).wf(),
            extra == 0,
            ({
                let f = final(self).fetched;
                let r = (if f == 0 { 255int } else { f - 1 }) as u8;
                let srn = spec_put_flag(
                    spec_put_flag(old(self).sr, Flags::Z, r == 0),
                    Flags::N,
                    r & 0x80 > 0,
                );
                &&& (if spec_instruction(old(self).opcode).mode is IMP {
                    final(self).fetched == old(self).fetched && Bus::spec_write_rel(
                        &old(self).bus,
                        &final(self).bus,
                        old(self).addr_absolute,
                        r,
                    )
                } else {
                    exists|mid: Bus|
                        #[trigger] Bus::spec_read_rel(
                            &old(self).bus,
                            &mid,
                            old(self).addr_absolute,
                            final(self).fetched,
                        ) && Bus::spec_write_rel(
                            &mid,
                            &final(self).bus,
                            old(self).addr_absolute,
                            r,
                        )
                })
                &&& *final(self) == (CPU6502 {
                    bus: final(self).bus,
                    fetched: final(self).fetched,
                    sr: srn,
                    ..*old(self)
                })
            }),
            final(self).bus.system_clock == old(self).bus.system_clock,
            final(self).bus.ppu.dot_count == old(self).bus.ppu.dot_count,
            final(self).bus.ppu.frame_complete == old(self).bus.ppu.frame_complete,
            final(self).bus.ppu.scanline == old(self).bus.ppu.scanline,
            final(self).bus.ppu.cycle == old(self).bus.ppu.cycle,
            final(self).bus.apu.global_time == old(self).bus.apu.global_time,
    {
        self.fetch();
        let ghost mid = self.bus;
        let r: u8 = if self.fetched == 0 { 255 } else { self.fetched - 1 };
        let mut v = r;
        self.write(self.addr_absolute, &mut v);
        self.set_flag(Flags::Z, r == 0x00);
        self.set_flag(Flags::N, (r & 0x80) > 0);
        return 0;
    }

    /// Increment the addressed byte, wrapping at 255.
    #[allow(non_snake_case)]
    pub fn INC(&mut self) -> (extra: u8)
        requires
            old(self).wf(),
        ensures
            final(self).wf(),
            extra == 0,
            ({
                let f = final(self).fetched;
                let r = (if f == 255 { 0int } else { f + 1 }) as u8;
                let srn = spec_put_flag(
                    spec_put_flag(old(self).sr, Flags::Z, r == 0),
                    Flags::N,
                    r & 0x80 > 0,
                );
                &&& (if spec_instruction(old(self).opcode).mode is IMP {
                    final(self).fetched == old(self).fetched && Bus::spec_write_rel(
                        &old(self).bus,
                        &final(self).bus,
                        old(self).addr_absolute,
                        r,
                    )
                } else {
                    exists|mid: Bus|
                        #[trigger] Bus::spec_read_rel(
                            &old(self).bus,
                            &mid,
                            old(self).addr_absolute,
                            final(self).fetched,
                        ) && Bus::spec_write_rel(
                            &mid,
                            &final(self).bus,
                            old(self).addr_absolute,
                            r,
                        )
                })
                &&& *final(self) == (CPU6502 {
                    bus: final(self).bus,
                    fetched: final(self).fetched,
                    sr: srn,
                    ..*old(self)
                })
            }),
            final(self).bus.system_clock == old(self).bus.system_clock,
            final(self).bus.ppu.dot_count == old(self).bus.ppu.dot_count,
            final(self).bus.ppu.frame_complete == old(self).bus.ppu.frame_complete,
            final(self).bus.ppu.scanline == old(self).bus.ppu.scanline,
            final(self).bus.ppu.cycle == old(self).bus.ppu.cycle,
            final(self).bus.apu.global_time == old(self).bus.apu.global_time,
    {
        self.fetch();
        let ghost mid = self.bus;
        let r: u8 = if self.fetched == 255 { 0 } else { self.fetched + 1 };
        let mut v = r;
        self.write(self.addr_absolute, &mut v);
        self.set_flag(Flags::Z, r == 0x00);
        self.set_flag(Flags::N, (r & 0x80) > 0);
        return 0;
    }

    /// Store the accumulator at the effective address.
    #[allow(non_snake_case)]
    pub fn STA(&mut self) -> (extra: u8)
        requires
            old(self).wf(),
        ensures
            final(self).wf(),
            extra == 0,
            Bus::spec_write_rel(
                &old(self).bus,
                &final(self).bus,
                old(self).addr_absolute,
                old(self).a,
            ),
            *final(self) == (CPU6502 { bus: final(self).bus, ..*old(self) }),
            final(self).bus.system_clock == old(self).bus.system_clock,
            final(self).bus.ppu.dot_count == old(self).bus.ppu.dot_count,
            final(self).bus.ppu.frame_complete == old(self).bus.ppu.frame_complete,
            final(self).bus.ppu.scanline == old(self).bus.ppu.scanline,
            final(self).bus.ppu.cycle == old(self).bus.ppu.cycle,
            final(self).bus.apu.global_time == old(self).bus.apu.global_time,
    {
        let mut v = self.a;
        self.write(self.addr_absolute, &mut v);
        return 0;
    }

    /// Store X at the effective address.
    #[allow(non_snake_case)]
    pub fn STX(&mut self) -> (extra: u8)
        requires
            old(self).wf(),
        ensures
            final(self).wf(),
            extra == 0,
            Bus::spec_write_rel(
                &old(self).bus,
                &final(self).bus,
                old(self).addr_absolute,
                old(self).x,
            ),
            *final(self) == (CPU6502 { bus: final(self).bus, ..*old(self) }),
            final(self).bus.system_clock == old(self).bus.system_clock,
            final(self).bus.ppu.dot_count == old(self).bus.ppu.dot_count,
            final(self).bus.ppu.frame_complete == old(self).bus.ppu.frame_complete,
            final(self).bus.ppu.scanline == old(self).bus.ppu.scanline,
            final(self).bus.ppu.cycle == old(self).bus.ppu.cycle,
            final(self).bus.apu.global_time == old(self).bus.apu.global_time,
    {
        let mut v = self.x;
        self.write(self.addr_absolute, &mut v);
        return 0;
    }

    /// Store Y at the effective address.
    #[allow(non_snake_case)]
    pub fn STY(&mut self) -> (extra: u8)
        requires
            old(self).wf(),
        ensures
            final(self).wf(),
            extra == 0,
            Bus::spec_write_rel(
                &old(self).bus,
                &final(self).bus,
                old(self).addr_absolute,
                old(self).y,
            ),
            *final(self) == (CPU6502 { bus: final(self).bus, ..*old(self) }),
            final(self).bus.system_clock == old(self).bus.system_clock,
            final(self).bus.ppu.dot_count == old(self).bus.ppu.dot_count,
            final(self).bus.ppu.frame_complete == old(self).bus.ppu.frame_complete,
            final(self).bus.ppu.scanline == old(self).bus.ppu.scanline,
            final(self).bus.ppu.cycle == old(self).bus.ppu.cycle,
            final(self).bus.apu.global_time == old(self).bus.apu.global_time,
    {
        let mut v = self.y;
        self.write(self.addr_absolute, &mut v);
        return 0;
    }

    /// Push the accumulator.
    #[allow(non_snake_case)]
    pub fn PHA(&mut self) -> (extra: u8)
        requires
            old(self).wf(),
        ensures
            final(self).wf(),
            extra == 0,
            Bus::spec_write_rel(
                &old(self).bus,
                &final(self).bus,
                (0x0100 + old(self).sptr as u16) as u16,
                old(self).a,
            ),
            *final(self) == (CPU6502 {
                bus: final(self).bus,
                sptr: ((old(self).sptr + 255) % 256) as u8,
                ..*old(self)
            }),
            final(self).bus.system_clock == old(self).bus.system_clock,
            final(self).bus.ppu.dot_count == old(self).bus.ppu.dot_count,
            final(self).bus.ppu.frame_complete == old(self).bus.ppu.frame_complete,
            final(self).bus.ppu.scanline == old(self).bus.ppu.scanline,
            final(self).bus.ppu.cycle == old(self).bus.ppu.cycle,
            final(self).bus.apu.global_time == old(self).bus.apu.global_time,
    {
        let mut v = self.a;
        self.write(0x0100 + (self.sptr as u16), &mut v);
        self.subtract_stack();
        return 0;
    }

    /// Push the status register with the break and unused bits forced
    /// set, then clear both in the live register.
    #[allow(non_snake_case)]
    pub fn PHP(&mut self) -> (extra: u8)
        requires
            old(self).wf(),
        ensures
            final(self).wf(),
            extra == 0,
            Bus::spec_write_rel(
                &old(self).bus,
                &final(self).bus,
                (0x0100 + old(self).sptr as u16) as u16,
                (old(self).sr | 0x30) as u8,
            ),
            *final(self) == (CPU6502 {
                bus: final(self).bus,
                sptr: ((old(self).sptr + 255) % 256) as u8,
                sr: spec_put_flag(
                    spec_put_flag(old(self).sr, Flags::B, false),
                    Flags::U,
                    false,
                ),
                ..*old(self)
            }),
            final(self).bus.system_clock == old(self).bus.system_clock,
            final(self).bus.ppu.dot_count == old(self).bus.ppu.dot_count,
            final(self).bus.ppu.frame_complete == old(self).bus.ppu.frame_complete,
            final(self).bus.ppu.scanline == old(self).bus.ppu.scanline,
            final(self).bus.ppu.cycle == old(self).bus.ppu.cycle,
            final(self).bus.apu.global_time == old(self).bus.apu.global_time,
    {
        let mut v = self.sr | 0x30;
        self.write(0x0100 + self.sptr as u16, &mut v);
        self.set_flag(Flags::B, false);
        self.set_flag(Flags::U, false);
        self.subtract_stack();
        return 0;
    }

    /// Pop the accumulator and set zero/negative from it.
    #[allow(non_snake_case)]
    pub fn PLA(&mut self) -> (extra: u8)
        requires
            old(self).wf(),
        ensures
            final(self).wf(),
            extra == 0,
            Bus::spec_read_rel(
                &old(self).bus,
                &final(self).bus,
                (0x0100 + ((old(self).sptr + 1) % 256)) as u16,
                final(self).a,
            ),
            *final(self) == (CPU6502 {
                bus: final(self).bus,
                a: final(self).a,
                sptr: ((old(self).sptr + 1) % 256) as u8,
                sr: spec_put_flag(
                    spec_put_flag(old(self).sr, Flags::Z, final(self).a == 0),
                    Flags::N,
                    final(self).a & 0x80 > 0,
                ),
                ..*old(self)
            }),
            final(self).bus.system_clock == old(self).bus.system_clock,
            final(self).bus.ppu.dot_count == old(self).bus.ppu.dot_count,
            final(self).bus.ppu.frame_complete == old(self).bus.ppu.frame_complete,
            final(self).bus.ppu.scanline == old(self).bus.ppu.scanline,
            final(self).bus.ppu.cycle == old(self).bus.ppu.cycle,
            final(self).bus.apu.global_time == old(self).bus.apu.global_time,
    {
        self.add_stack();
        let addr = 0x0100 + self.sptr as u16;
        self.a = self.read(addr);

        self.set_flag(Flags::Z, self.a == 0x00);
        self.set_flag(Flags::N, (self.a & 0x80) > 0);
        return 0;
    }

    /// Pop the status register; the unused bit is forced set.
    #[allow(non_snake_case)]
    pub fn PLP(&mut self) -> (extra: u8)
        requires
            old(self).wf(),
        ensures
            final(self).wf(),
            extra == 0,
            (exists|v: u8|
                #[trigger] Bus::spec_read_rel(
                    &old(self).bus,
                    &final(self).bus,
                    (0x0100 + ((old(self).sptr + 1) % 256)) as u16,
                    v,
                ) && final(self).sr == spec_put_flag(v, Flags::U, true)),
            *final(self) == (CPU6502 {
                bus: final(self).bus,
                sr: final(self).sr,
                sptr: ((old(self).sptr + 1) % 256) as u8,
                ..*old(self)
            }),
            final(self).bus.system_clock == old(self).bus.system_clock,
            final(self).bus.ppu.dot_count == old(self).bus.ppu.dot_count,
            final(self).bus.ppu.frame_complete == old(self).bus.ppu.frame_complete,
            final(self).bus.ppu.scanline == old(self).bus.ppu.scanline,
            final(self).bus.ppu.cycle == old(self).bus.ppu.cycle,
            final(self).bus.apu.global_time == old(self).bus.apu.global_time,
    {
        self.add_stack();
        let v = self.read(0x0100 + self.sptr as u16);
        self.sr = v;
        self.set_flag(Flags::U, true);
        proof {
            assert(Bus::spec_read_rel(
                &old(self).bus,
                &final(self).bus,
                (0x0100 + ((old(self).sptr + 1) % 256)) as u16,
                v,
            ) && final(self).sr == spec_put_flag(v, Flags::U, true));
        }
        return 0;
    }

    /// Jump to the effective address.
    #[allow(non_snake_case)]
    pub fn JMP(&mut self) -> (extra: u8)
        ensures
            *final(self) == (CPU6502 { pc: old(self).addr_absolute, ..*old(self) }),
            extra == 0,
            final(self).bus.system_clock == old(self).bus.system_clock,
            final(self).bus.ppu.dot_count == old(self).bus.ppu.dot_count,
            final(self).bus.ppu.frame_complete == old(self).bus.ppu.frame_complete,
            final(self).bus.ppu.scanline == old(self).bus.ppu.scanline,
            final(self).bus.ppu.cycle == old(self).bus.ppu.cycle,
            final(self).bus.apu.global_time == old(self).bus.apu.global_time,
    {
        self.pc = self.addr_absolute;
        return 0;
    }

    /// Jump to subroutine: push the decremented return address, then
    /// jump to the effective address.
    #[allow(non_snake_case)]
    pub fn JSR(&mut self) -> (extra: u8)
        requires
            old(self).wf(),
        ensures
            final(self).wf(),
            extra == 0,
            ({
                let ret = old(self).pc.wrapping_sub(1);
                exists|mid: Bus|
                    #[trigger] Bus::spec_write_rel(
                        &old(self).bus,
                        &mid,
                        (0x0100 + old(self).sptr as u16) as u16,
                        (ret >> 8) as u8,
                    ) && Bus::spec_write_rel(
                        &mid,
                        &final(self).bus,
                        (0x0100 + ((old(self).sptr + 255) % 256)) as u16,
                        (ret & 0x00FF) as u8,
                    )
            }),
            *final(self) == (CPU6502 {
                bus: final(self).bus,
                pc: old(self).addr_absolute,
                sptr: ((old(self).sptr + 254) % 256) as u8,
                ..*old(self)
            }),
            final(self).bus.system_clock == old(self).bus.system_clock,
            final(self).bus.ppu.dot_count == old(self).bus.ppu.dot_count,
            final(self).bus.ppu.frame_complete == old(self).bus.ppu.frame_complete,
            final(self).bus.ppu.scanline == old(self).bus.ppu.scanline,
            final(self).bus.ppu.cycle == old(self).bus.ppu.cycle,
            final(self).bus.apu.global_time == old(self).bus.apu.global_time,
    {
        proof {
            crate::bit_facts::lemma_u16_mask_bounds();
        }
        self.pc = self.pc.wrapping_sub(1);
        let mut hi = (self.pc >> 8) as u8;
        self.write(0x0100 + (self.sptr as u16), &mut hi);
        self.subtract_stack();
        let ghost mid = self.bus;
        let mut lo = (self.pc & 0x00FF) as u8;
        self.write(0x0100 + (self.sptr as u16), &mut lo);
        self.subtract_stack();
        self.pc = self.addr_absolute;
        proof {
            let ret = old(self).pc.wrapping_sub(1);
            assert(Bus::spec_write_rel(
                &old(self).bus,
                &mid,
                (0x0100 + old(self).sptr as u16) as u16,
                (ret >> 8) as u8,
            ) && Bus::spec_write_rel(
                &mid,
                &final(self).bus,
                (0x0100 + ((old(self).sptr + 255) % 256)) as u16,
                (ret & 0x00FF) as u8,
            ));
        }
        return 0;
    }

    /// Software interrupt: push the incremented program counter and the
    /// status with the break bit set, set interrupt-disable, and load
    /// the IRQ vector at `$FFFE/$FFFF`.
    #[allow(non_snake_case)]
    pub fn BRK(&mut self) -> (extra: u8)
        requires
            old(self).wf(),
        ensures
            final(self).wf(),
            extra == 0,
            ({
                let ret = ((old(self).pc + 1) % 65536) as u16;
                let sri = spec_put_flag(old(self).sr, Flags::I, true);
                let srb = spec_put_flag(sri, Flags::B, true);
                &&& (exists|m1: Bus, m2: Bus, m3: Bus, m4: Bus, lo: u8, hi: u8|
                    {
                        &&& #[trigger] Bus::spec_write_rel(
                            &old(self).bus,
                            &m1,
                            (0x0100 + old(self).sptr as u16) as u16,
                            (ret >> 8) as u8,
                        )
                        &&& #[trigger] Bus::spec_write_rel(
                            &m1,
                            &m2,
                            (0x0100 + ((old(self).sptr + 255) % 256)) as u16,
                            (ret & 0x00FF) as u8,
                        )
                        &&& #[trigger] Bus::spec_write_rel(
                            &m2,
                            &m3,
                            (0x0100 + ((old(self).sptr + 254) % 256)) as u16,
                            srb,
                        )
                        &&& #[trigger] Bus::spec_read_rel(&m3, &m4, 0xFFFE, lo)
                        &&& #[trigger] Bus::spec_read_rel(&m4, &final(self).bus, 0xFFFF, hi)
                        &&& final(self).pc == ((lo as u16) | ((hi as u16) << 8))
                    })
                &&& *final(self) == (CPU6502 {
                    bus: final(self).bus,
                    pc: final(self).pc,
                    sptr: ((old(self).sptr + 253) % 256) as u8,
                    sr: spec_put_flag(srb, Flags::B, false),
                    ..*old(self)
                })
            }),
            final(self).bus.system_clock == old(self).bus.system_clock,
            final(self).bus.ppu.dot_count == old(self).bus.ppu.dot_count,
            final(self).bus.ppu.frame_complete == old(self).bus.ppu.frame_complete,
            final(self).bus.ppu.scanline == old(self).bus.ppu.scanline,
            final(self).bus.ppu.cycle == old(self).bus.ppu.cycle,
            final(self).bus.apu.global_time == old(self).bus.apu.global_time,
    {
        proof {
            crate::bit_facts::lemma_u16_mask_bounds();
            crate::bit_facts::lemma_u8_mask_bounds();
        }
        self.add_pc();
        self.set_flag(Flags::I, true);
        let mut hi = ((self.pc >> 8) as u8) & 0xFF;
        self.write(0x0100 + self.sptr as u16, &mut hi);
        self.subtract_stack();
        let ghost m1 = self.bus;
        let mut lo = (self.pc & 0x00FF) as u8;
        self.write(0x0100 + self.sptr as u16, &mut lo);
        self.subtract_stack();
        let ghost m2 = self.bus;
        self.set_flag(Flags::B, true);
        let mut sr = self.sr;
        self.write(0x0100 + self.sptr as u16, &mut sr);
        self.subtract_stack();
        let ghost m3 = self.bus;
        self.set_flag(Flags::B, false);
        let lo2 = self.read(0xFFFE);
        let ghost m4 = self.bus;
        let hi2 = self.read(0xFFFF);
        self.pc = (lo2 as u16) | ((hi2 as u16) << 8);
        proof {
            let ret = ((old(self).pc + 1) % 65536) as u16;
            let sri = spec_put_flag(old(self).sr, Flags::I, true);
            let srb = spec_put_flag(sri, Flags::B, true);
            assert(Bus::spec_write_rel(
                &old(self).bus,
                &m1,
                (0x0100 + old(self).sptr as u16) as u16,
                (ret >> 8) as u8,
            ) && Bus::spec_write_rel(
                &m1,
                &m2,
                (0x0100 + ((old(self).sptr + 255) % 256)) as u16,
                (ret & 0x00FF) as u8,
            ) && Bus::spec_write_rel(
                &m2,
                &m3,
                (0x0100 + ((old(self).sptr + 254) % 256)) as u16,
                srb,
            ) && Bus::spec_read_rel(&m3, &m4, 0xFFFE, lo2) && Bus::spec_read_rel(
                &m4,
                &final(self).bus,
                0xFFFF,
                hi2,
            ) && final(self).pc == ((lo2 as u16) | ((hi2 as u16) << 8)));
        }
        return 0;
    }

    /// Return from interrupt: pop the status (clearing break and unused)
    /// and then the program counter.
    #[allow(non_snake_case)]
    pub fn RTI(&mut self) -> (extra: u8)
        requires
            old(self).wf(),
        ensures
            final(self).wf(),
            extra == 0,
            (exists|m1: Bus, m2: Bus, v: u8, pcl: u8, pch: u8|
                {
                    &&& #[trigger] Bus::spec_read_rel(
                        &old(self).bus,
                        &m1,
                        (0x0100 + ((old(self).sptr + 1) % 256)) as u16,
                        v,
                    )
                    &&& #[trigger] Bus::spec_read_rel(
                        &m1,
                        &m2,
                        (0x0100 + ((old(self).sptr + 2) % 256)) as u16,
                        pcl,
                    )
                    &&& #[trigger] Bus::spec_read_rel(
                        &m2,
                        &final(self).bus,
                        (0x0100 + ((old(self).sptr + 3) % 256)) as u16,
                        pch,
                    )
                    &&& final(self).sr == ((v & !0x10u8) & !0x20u8)
                    &&& final(self).pc == ((pcl as u16) | ((pch as u16) << 8))
                }),
            *final(self) == (CPU6502 {
                bus: final(self).bus,
                sr: final(self).sr,
                pc: final(self).pc,
                sptr: ((old(self).sptr + 3) % 256) as u8,
                ..*old(self)
            }),
            final(self).bus.system_clock == old(self).bus.system_clock,
            final(self).bus.ppu.dot_count == old(self).bus.ppu.dot_count,
            final(self).bus.ppu.frame_complete == old(self).bus.ppu.frame_complete,
            final(self).bus.ppu.scanline == old(self).bus.ppu.scanline,
            final(self).bus.ppu.cycle == old(self).bus.ppu.cycle,
            final(self).bus.apu.global_time == old(self).bus.apu.global_time,
    {
        self.add_stack();
        let v = self.read(0x0100 + self.sptr as u16);
        let ghost m1 = self.bus;
        self.sr = (v & !0x10u8) & !0x20u8;

        self.add_stack();
        let pcl = self.read(0x0100 + self.sptr as u16);
        let ghost m2 = self.bus;

        self.add_stack();
        let pch = self.read(0x0100 + self.sptr as u16);
        self.pc = (pcl as u16) | ((pch as u16) << 8);
        proof {
            assert(Bus::spec_read_rel(
                &old(self).bus,
                &m1,
                (0x0100 + ((old(self).sptr + 1) % 256)) as u16,
                v,
            ) && Bus::spec_read_rel(
                &m1,
                &m2,
                (0x0100 + ((old(self).sptr + 2) % 256)) as u16,
                pcl,
            ) && Bus::spec_read_rel(
                &m2,
                &final(self).bus,
                (0x0100 + ((old(self).sptr + 3) % 256)) as u16,
                pch,
            ) && final(self).sr == ((v & !0x10u8) & !0x20u8) && final(self).pc == ((pcl as u16)
                | ((pch as u16) << 8)));
        }
        return 0;
    }

    /// Return from subroutine: pop the return address and step past it.
    #[allow(non_snake_case)]
    pub fn RTS(&mut self) -> (extra: u8)
        requires
            old(self).wf(),
        ensures
            final(self).wf(),
            extra == 0,
            (exists|m1: Bus, pcl: u8, pch: u8|
                {
                    &&& #[trigger] Bus::spec_read_rel(
                        &old(self).bus,
                        &m1,
                        (0x0100 + ((old(self).sptr + 1) % 256)) as u16,
                        pcl,
                    )
                    &&& #[trigger] Bus::spec_read_rel(
                        &m1,
                        &final(self).bus,
                        (0x0100 + ((old(self).sptr + 2) % 256)) as u16,
                        pch,
                    )
                    &&& final(self).pc == ((((pcl as u16) | ((pch as u16) << 8)) as u16 + 1)
                        % 65536)
                }),
            *final(self) == (CPU6502 {
                bus: final(self).bus,
                pc: final(self).pc,
                sptr: ((old(self).sptr + 2) % 256) as u8,
                ..*old(self)
            }),
            final(self).bus.system_clock == old(self).bus.system_clock,
            final(self).bus.ppu.dot_count == old(self).bus.ppu.dot_count,
            final(self).bus.ppu.frame_complete == old(self).bus.ppu.frame_complete,
            final(self).bus.ppu.scanline == old(self).bus.ppu.scanline,
            final(self).bus.ppu.cycle == old(self).bus.ppu.cycle,
            final(self).bus.apu.global_time == old(self).bus.apu.global_time,
    {
        self.add_stack();
        let pcl = self.read(0x0100 + self.sptr as u16);
        let ghost m1 = self.bus;
        self.add_stack();
        let pch = self.read(0x0100 + self.sptr as u16);
        self.pc = (pcl as u16) | ((pch as u16) << 8);
        self.add_pc();
        proof {
            assert(Bus::spec_read_rel(
                &old(self).bus,
                &m1,
                (0x0100 + ((old(self).sptr + 1) % 256)) as u16,
                pcl,
            ) && Bus::spec_read_rel(
                &m1,
                &final(self).bus,
                (0x0100 + ((old(self).sptr + 2) % 256)) as u16,
                pch,
            ) && final(self).pc == ((((pcl as u16) | ((pch as u16) << 8)) as u16 + 1) % 65536));
        }
        return 0;
    }

    /// No operation; a handful of unofficial NOP opcodes may request an
    /// extra cycle.
    #[allow(non_snake_case)]
    pub fn NOP(&mut self) -> (extra: u8)
        ensures
            *final(self) == *old(self),
            extra == (if old(self).opcode == 0x1C || old(self).opcode == 0x3C || old(
                self,
            ).opcode == 0x5C || old(self).opcode == 0x7C || old(self).opcode == 0xDC || old(
                self,
            ).opcode == 0xFC {
                1u8
            } else {
                0u8
            }),
            final(self).bus.system_clock == old(self).bus.system_clock,
            final(self).bus.ppu.dot_count == old(self).bus.ppu.dot_count,
            final(self).bus.ppu.frame_complete == old(self).bus.ppu.frame_complete,
            final(self).bus.ppu.scanline == old(self).bus.ppu.scanline,
            final(self).bus.ppu.cycle == old(self).bus.ppu.cycle,
            final(self).bus.apu.global_time == old(self).bus.apu.global_time,
    {
        if self.opcode == 0x1C || self.opcode == 0x3C || self.opcode == 0x5C || self.opcode
            == 0x7C || self.opcode == 0xDC || self.opcode == 0xFC {
            return 1;
        }
        return 0;
    }

    /// An undocumented trap opcode: treated as a no-operation that
    /// consumes its base cycle count.
    #[allow(non_snake_case)]
    pub fn ILL(&mut self) -> (extra: u8)
        ensures
            *final(self) == *old(self),
            extra == 0,
            final(self).bus.system_clock == old(self).bus.system_clock,
            final(self).bus.ppu.dot_count == old(self).bus.ppu.dot_count,
            final(self).bus.ppu.frame_complete == old(self).bus.ppu.frame_complete,
            final(self).bus.ppu.scanline == old(self).bus.ppu.scanline,
            final(self).bus.ppu.cycle == old(self).bus.ppu.cycle,
            final(self).bus.apu.global_time == old(self).bus.apu.global_time,
    {
        return 0;
    }
}

/// The machine with a pending NMI acknowledged.
pub open spec fn spec_take_nmi(c: &CPU6502) -> CPU6502 {
    CPU6502 { bus: (Bus { nmi_required: false, ..c.bus }), ..*c }
}

/// The machine with a pending IRQ acknowledged.
pub open spec fn spec_take_irq(c: &CPU6502) -> CPU6502 {
    CPU6502 { bus: (Bus { irq_required: false, ..c.bus }), ..*c }
}

/// How servicing an interrupt relates the machine before and after it:
/// the program counter and the status (break clear, unused and
/// interrupt-disable set) are pushed, and the handler address is loaded
/// from `vector`.
pub open spec fn spec_interrupt_rel(pre: &CPU6502, post: &CPU6502, vector: u16) -> bool {
    let srn = spec_put_flag(
        spec_put_flag(spec_put_flag(pre.sr, Flags::B, false), Flags::U, true),
        Flags::I,
        true,
    );
    &&& (exists|m1: Bus, m2: Bus, m3: Bus, m4: Bus, lo: u8, hi: u8|
        {
            &&& #[trigger] Bus::spec_write_rel(
                &pre.bus,
                &m1,
                (0x0100 + pre.sptr as u16) as u16,
                (pre.pc >> 8) as u8,
            )
            &&& #[trigger] Bus::spec_write_rel(
                &m1,
                &m2,
                (0x0100 + ((pre.sptr + 255) % 256)) as u16,
                (pre.pc & 0x00FF) as u8,
            )
            &&& #[trigger] Bus::spec_write_rel(
                &m2,
                &m3,
                (0x0100 + ((pre.sptr + 254) % 256)) as u16,
                srn,
            )
            &&& #[trigger] Bus::spec_read_rel(&m3, &m4, vector, lo)
            &&& #[trigger] Bus::spec_read_rel(&m4, &post.bus, (vector + 1) as u16, hi)
            &&& post.pc == (((hi as u16) << 8) | lo as u16)
        })
    &&& *post == (CPU6502 {
        bus: post.bus,
        pc: post.pc,
        sptr: ((pre.sptr + 253) % 256) as u8,
        sr: srn,
        cycles: 7,
        addr_absolute: vector,
        ..*pre
    })
}

impl CPU6502 {
    /// Reset: the bus and cartridge reset, the registers are zeroed with
    /// the stack pointer at `$FD`, and the program counter is loaded from
    /// the reset vector at `$FFFC/$FFFD`. Costs eight cycles.
    pub fn reset(&mut self)
        requires
            old(self).wf(),
        ensures
            final(self).wf(),
            final(self).a == 0 && final(self).x == 0 && final(self).y == 0,
            final(self).sptr == 0xFD,
            final(self).sr == 0,
            final(self).addr_absolute == 0,
            final(self).addr_relative == 0,
            final(self).fetched == 0,
            final(self).cycles == 8,
            final(self).opcode == old(self).opcode,
            (exists|b1: Bus, m: Bus, lo: u8, hi: u8|
                {
                    &&& #[trigger] Bus::spec_reset_rel(&old(self).bus, &b1)
                    &&& #[trigger] Bus::spec_read_rel(&b1, &m, 0xFFFC, lo)
                    &&& #[trigger] Bus::spec_read_rel(&m, &final(self).bus, 0xFFFD, hi)
                    &&& final(self).pc == (((hi as u16) << 8) | lo as u16)
                }),
    {
        self.bus.reset();
        let ghost b1 = self.bus;
        self.addr_absolute = 0xFFFC;
        let lo = self.read(self.addr_absolute) as u16;
        let ghost m = self.bus;
        let hi = self.read(self.addr_absolute + 1) as u16;

        self.pc = (hi << 8) | lo;
        self.a = 0;
        self.x = 0;
        self.y = 0;
        self.sptr = 0xFD;
        self.sr = 0x00;

        self.addr_absolute = 0x0000;
        self.addr_relative = 0x0000;
        self.fetched = 0x00;

        self.cycles = 8;
        proof {
            assert(Bus::spec_reset_rel(&old(self).bus, &b1) && Bus::spec_read_rel(
                &b1,
                &m,
                0xFFFC,
                lo as u8,
            ) && Bus::spec_read_rel(&m, &final(self).bus, 0xFFFD, hi as u8) && final(self).pc
                == ((((hi as u8) as u16) << 8) | (lo as u8) as u16));
        }
    }

    /// Maskable interrupt request: serviced from `$FFFE/$FFFF` only while
    /// the interrupt-disable flag is clear.
    pub fn irq(&mut self)
        requires
            old(self).wf(),
        ensures
            final(self).wf(),
            spec_flag(old(self).sr, Flags::I) ==> *final(self) == *old(self),
            !spec_flag(old(self).sr, Flags::I) ==> spec_interrupt_rel(
                old(self),
                final(self),
                0xFFFE,
            ),
            final(self).bus.system_clock == old(self).bus.system_clock,
            final(self).bus.ppu.dot_count == old(self).bus.ppu.dot_count,
            final(self).bus.ppu.frame_complete == old(self).bus.ppu.frame_complete,
            final(self).bus.ppu.scanline == old(self).bus.ppu.scanline,
            final(self).bus.ppu.cycle == old(self).bus.ppu.cycle,
            final(self).bus.apu.global_time == old(self).bus.apu.global_time,
    {
        proof {
            crate::bus::lemma_rel_preserves_clocks();
        }
        if self.get_flag(Flags::I) == 0 {
            self.interrupt(0xFFFE);
        }
    }

    /// Non-maskable interrupt: always serviced, from `$FFFA/$FFFB`.
    pub fn nmi(&mut self)
        requires
            old(self).wf(),
        ensures
            final(self).wf(),
            spec_interrupt_rel(old(self), final(self), 0xFFFA),
            final(self).bus.system_clock == old(self).bus.system_clock,
            final(self).bus.ppu.dot_count == old(self).bus.ppu.dot_count,
            final(self).bus.ppu.frame_complete == old(self).bus.ppu.frame_complete,
            final(self).bus.ppu.scanline == old(self).bus.ppu.scanline,
            final(self).bus.ppu.cycle == old(self).bus.ppu.cycle,
            final(self).bus.apu.global_time == old(self).bus.apu.global_time,
    {
        proof {
            crate::bus::lemma_rel_preserves_clocks();
        }
        self.interrupt(0xFFFA);
    }

    /// The shared interrupt-service sequence.
    #[verifier::rlimit(100)]
    fn interrupt(&mut self, vector: u16)
        requires
            old(self).wf(),
            vector == 0xFFFA || vector == 0xFFFE,
        ensures
            final(self).wf(),
            spec_interrupt_rel(old(self), final(self), vector),
    {
        proof {
            crate::bit_facts::lemma_u16_mask_bounds();
        }
        let mut hi = (self.pc >> 8) as u8;
        self.write(0x0100 + self.sptr as u16, &mut hi);
        self.subtract_stack();
        let ghost m1 = self.bus;

        let mut lo = (self.pc & 0x00FF) as u8;
        self.write(0x0100 + self.sptr as u16, &mut lo);
        self.subtract_stack();
        let ghost m2 = self.bus;

        self.set_flag(Flags::B, false);
        self.set_flag(Flags::U, true);
        self.set_flag(Flags::I, true);

        let mut sr = self.sr;
        self.write(0x0100 + self.sptr as u16, &mut sr);
        self.subtract_stack();
        let ghost m3 = self.bus;

        self.addr_absolute = vector;
        let lo2 = self.read(self.addr_absolute);
        let ghost m4 = self.bus;
        let hi2 = self.read(self.addr_absolute + 1);

        self.pc = ((hi2 as u16) << 8) | lo2 as u16;

        self.cycles = 7;
        proof {
            let srn = spec_put_flag(
                spec_put_flag(spec_put_flag(old(self).sr, Flags::B, false), Flags::U, true),
                Flags::I,
                true,
            );
            assert(Bus::spec_write_rel(
                &old(self).bus,
                &m1,
                (0x0100 + old(self).sptr as u16) as u16,
                (old(self).pc >> 8) as u8,
            ) && Bus::spec_write_rel(
                &m1,
                &m2,
                (0x0100 + ((old(self).sptr + 255) % 256)) as u16,
                (old(self).pc & 0x00FF) as u8,
            ) && Bus::spec_write_rel(
                &m2,
                &m3,
                (0x0100 + ((old(self).sptr + 254) % 256)) as u16,
                srn,
            ) && Bus::spec_read_rel(&m3, &m4, vector, lo2) && Bus::spec_read_rel(
                &m4,
                &final(self).bus,
                (vector + 1) as u16,
                hi2,
            ) && final(self).pc == (((hi2 as u16) << 8) | lo2 as u16));
        }
    }

    /// One CPU cycle: a pending NMI (or IRQ, while interrupts are
    /// enabled) is serviced first; otherwise, when the current
    /// instruction has used up its budget, the next opcode is fetched
    /// and dispatched through the instruction table, paying the
    /// page-cross penalty only when both the mode and the operation
    /// request it. Every call consumes one cycle.
    #[verifier::rlimit(100)]
    pub fn clock(&mut self)
        requires
            old(self).wf(),
        ensures
            final(self).wf(),
            // mid-instruction, nothing pending: one cycle of the budget elapses
            !old(self).bus.nmi_required && !old(self).bus.irq_required && old(self).cycles > 0
                ==> *final(self) == (CPU6502 {
                cycles: (old(self).cycles - 1) as u8,
                ..*old(self)
            }),
            // budget spent, nothing pending: the next instruction executes,
            // and this call consumes the first of its cycles
            !old(self).bus.nmi_required && !old(self).bus.irq_required && old(self).cycles == 0
                ==> (exists|m: CPU6502|
                #[trigger] spec_step_rel(old(self), &m) && *final(self) == (CPU6502 {
                    cycles: ((m.cycles + 255) % 256) as u8,
                    ..m
                })),
            // a pending NMI is serviced first, leaving six cycles of its seven
            old(self).bus.nmi_required && !old(self).bus.irq_required ==> (exists|m: CPU6502|
                #[trigger] spec_interrupt_rel(&spec_take_nmi(old(self)), &m, 0xFFFA)
                    && *final(self) == (CPU6502 { cycles: 6, ..m })),
            // with both pending, the NMI wins, and the interrupt-disable
            // flag it sets blocks the IRQ, which stays acknowledged
            old(self).bus.nmi_required && old(self).bus.irq_required ==> (exists|m: CPU6502|
                #[trigger] spec_interrupt_rel(&spec_take_nmi(old(self)), &m, 0xFFFA)
                    && *final(self) == (CPU6502 {
                    bus: (Bus { irq_required: false, ..m.bus }),
                    cycles: 6,
                    ..m
                })),
            // a pending IRQ is serviced only while the interrupt-disable flag
            // is clear, leaving six cycles of its seven
            !old(self).bus.nmi_required && old(self).bus.irq_required && !spec_flag(
                old(self).sr,
                Flags::I,
            ) ==> (exists|m: CPU6502|
                #[trigger] spec_interrupt_rel(&spec_take_irq(old(self)), &m, 0xFFFE)
                    && *final(self) == (CPU6502 { cycles: 6, ..m })),
            // a pending IRQ is ignored while the interrupt-disable flag is set
            !old(self).bus.nmi_required && old(self).bus.irq_required && spec_flag(
                old(self).sr,
                Flags::I,
            ) && old(self).cycles > 0 ==> *final(self) == (CPU6502 {
                cycles: (old(self).cycles - 1) as u8,
                ..spec_take_irq(old(self))
            }),
            !old(self).bus.nmi_required && old(self).bus.irq_required && spec_flag(
                old(self).sr,
                Flags::I,
            ) && old(self).cycles == 0 ==> (exists|m: CPU6502|
                #[trigger] spec_step_rel(&spec_take_irq(old(self)), &m)
                    && *final(self) == (CPU6502 { cycles: ((m.cycles + 255) % 256) as u8, ..m })),
            final(self).bus.system_clock == old(self).bus.system_clock,
            final(self).bus.ppu.dot_count == old(self).bus.ppu.dot_count,
            final(self).bus.ppu.frame_complete == old(self).bus.ppu.frame_complete,
            final(self).bus.ppu.scanline == old(self).bus.ppu.scanline,
            final(self).bus.ppu.cycle == old(self).bus.ppu.cycle,
            final(self).bus.apu.global_time == old(self).bus.apu.global_time,
    {
        proof {
            crate::bus::lemma_rel_preserves_clocks();
            crate::bit_facts::lemma_flag_set();
        }
        if self.bus.nmi_required {
            self.bus.nmi_required = false;
            self.nmi();
        }
        let ghost after_nmi = *self;
        if self.bus.irq_required {
            self.bus.irq_required = false;
            self.irq();
        }
        let ghost mid = *self;
        if self.cycles == 0 {
            self.step_instruction();
        }
        self.cycles = self.cycles.wrapping_sub(1);
        proof {
            if !old(self).bus.nmi_required && !old(self).bus.irq_required {
                if old(self).cycles == 0 {
                    assert(mid == *old(self));
                    assert(spec_step_rel(old(self), final(self)) ==> spec_step_rel(
                        old(self),
                        &*final(self),
                    ));
                }
            } else if old(self).bus.nmi_required && !old(self).bus.irq_required {
                assert(spec_interrupt_rel(&spec_take_nmi(old(self)), &mid, 0xFFFA));
                assert(mid.cycles == 7);
                assert(*final(self) == (CPU6502 { cycles: 6, ..mid }));
            } else if old(self).bus.nmi_required && old(self).bus.irq_required {
                assert(spec_interrupt_rel(&spec_take_nmi(old(self)), &after_nmi, 0xFFFA));
                assert(after_nmi.cycles == 7);
                assert(*final(self) == (CPU6502 {
                    bus: (Bus { irq_required: false, ..after_nmi.bus }),
                    cycles: 6,
                    ..after_nmi
                }));
            } else if !old(self).bus.nmi_required && old(self).bus.irq_required {
                if !spec_flag(old(self).sr, Flags::I) {
                    assert(spec_interrupt_rel(&spec_take_irq(old(self)), &mid, 0xFFFE));
                    assert(mid.cycles == 7);
                    assert(*final(self) == (CPU6502 { cycles: 6, ..mid }));
                } else {
                    assert(mid == spec_take_irq(old(self)));
                }
            }
        }
    }

    /// Dispatch one addressing-mode tag.
    #[verifier::rlimit(100)]
    fn dispatch_mode(&mut self, mode: AddrMode) -> (extra: u8)
        requires
            old(self).wf(),
        ensures
            final(self).wf(),
            spec_mode_rel(mode, old(self), final(self), extra),
            final(self).bus.system_clock == old(self).bus.system_clock,
            final(self).bus.ppu.dot_count == old(self).bus.ppu.dot_count,
            final(self).bus.ppu.frame_complete == old(self).bus.ppu.frame_complete,
            final(self).bus.ppu.scanline == old(self).bus.ppu.scanline,
            final(self).bus.ppu.cycle == old(self).bus.ppu.cycle,
            final(self).bus.apu.global_time == old(self).bus.apu.global_time,
    {
        proof {
            reveal(spec_mode_rel);
        }
        match mode {
            AddrMode::IMP => self.IMP(),
            AddrMode::IMM => self.IMM(),
            AddrMode::ZP0 => self.ZP0(),
            AddrMode::ZPX => self.ZPX(),
            AddrMode::ZPY => self.ZPY(),
            AddrMode::ABS => self.ABS(),
            AddrMode::ABX => self.ABX(),
            AddrMode::ABY => self.ABY(),
            AddrMode::IND => self.IND(),
            AddrMode::IZX => self.IZX(),
            AddrMode::IZY => self.IZY(),
            AddrMode::REL => self.REL(),
        }
    }

    /// Dispatch one operation tag.
    #[verifier::rlimit(100)]
    fn dispatch_op(&mut self, op: Op) -> (extra: u8)
        requires
            old(self).wf(),
        ensures
            final(self).wf(),
            spec_op_rel(op, old(self), final(self), extra),
            final(self).bus.system_clock == old(self).bus.system_clock,
            final(self).bus.ppu.dot_count == old(self).bus.ppu.dot_count,
            final(self).bus.ppu.frame_complete == old(self).bus.ppu.frame_complete,
            final(self).bus.ppu.scanline == old(self).bus.ppu.scanline,
            final(self).bus.ppu.cycle == old(self).bus.ppu.cycle,
            final(self).bus.apu.global_time == old(self).bus.apu.global_time,
    {
        proof {
            reveal(spec_op_rel);
        }
        match op {
            Op::ADC => self.ADC(),
            Op::AND => self.AND(),
            Op::ASL => self.ASL(),
            Op::BCC => self.BCC(),
            Op::BCS => self.BCS(),
            Op::BEQ => self.BEQ(),
            Op::BIT => self.BIT(),
            Op::BMI => self.BMI(),
            Op::BNE => self.BNE(),
            Op::BPL => self.BPL(),
            Op::BRK => self.BRK(),
            Op::BVC => self.BVC(),
            Op::BVS => self.BVS(),
            Op::CLC => self.CLC(),
            Op::CLD => self.CLD(),
            Op::CLI => self.CLI(),
            Op::CLV => self.CLV(),
            Op::CMP => self.CMP(),
            Op::CPX => self.CPX(),
            Op::CPY => self.CPY(),
            Op::DEC => self.DEC(),
            Op::DEX => self.DEX(),
            Op::DEY => self.DEY(),
            Op::EOR => self.EOR(),
            Op::ILL => self.ILL(),
            Op::INC => self.INC(),
            Op::INX => self.INX(),
            Op::INY => self.INY(),
            Op::JMP => self.JMP(),
            Op::JSR => self.JSR(),
            Op::LDA => self.LDA(),
            Op::LDX => self.LDX(),
            Op::LDY => self.LDY(),
            Op::LSR => self.LSR(),
            Op::NOP => self.NOP(),
            Op::ORA => self.ORA(),
            Op::PHA => self.PHA(),
            Op::PHP => self.PHP(),
            Op::PLA => self.PLA(),
            Op::PLP => self.PLP(),
            Op::ROL => self.ROL(),
            Op::ROR => self.ROR(),
            Op::RTI => self.RTI(),
            Op::RTS => self.RTS(),
            Op::SBC => self.SBC(),
            Op::SEC => self.SEC(),
            Op::SED => self.SED(),
            Op::SEI => self.SEI(),
            Op::STA => self.STA(),
            Op::STX => self.STX(),
            Op::STY => self.STY(),
            Op::TAX => self.TAX(),
            Op::TAY => self.TAY(),
            Op::TSX => self.TSX(),
            Op::TXA => self.TXA(),
            Op::TXS => self.TXS(),
            Op::TYA => self.TYA(),
        }
    }

    /// Fetch the next opcode and execute its addressing mode and
    /// operation, charging the base cycles plus the page-cross penalty
    /// when both the mode and the operation request it.
    #[verifier::rlimit(100)]
    fn step_instruction(&mut self)
        requires
            old(self).wf(),
        ensures
            final(self).wf(),
            spec_step_rel(old(self), final(self)),
            final(self).bus.system_clock == old(self).bus.system_clock,
            final(self).bus.ppu.dot_count == old(self).bus.ppu.dot_count,
            final(self).bus.ppu.frame_complete == old(self).bus.ppu.frame_complete,
            final(self).bus.ppu.scanline == old(self).bus.ppu.scanline,
            final(self).bus.ppu.cycle == old(self).bus.ppu.cycle,
            final(self).bus.apu.global_time == old(self).bus.apu.global_time,
    {
        {
            self.set_flag(Flags::U, true);

            self.opcode = self.read(self.pc);
            self.add_pc();

            let ins = instruction(self.opcode);
            self.cycles = ins.cycles;
            let ghost m1 = *self;

            let add_cycle1 = self.dispatch_mode(ins.mode);
            let ghost m2 = *self;
            let add_cycle2 = self.dispatch_op(ins.op);
            let ghost m3 = *self;

            self.cycles = self.cycles.wrapping_add(add_cycle1 & add_cycle2);
            self.set_flag(Flags::U, true);
            proof {
                assert(Bus::spec_read_rel(&old(self).bus, &m1.bus, old(self).pc, m1.opcode));
                assert(m1 == (CPU6502 {
                    bus: m1.bus,
                    opcode: m1.opcode,
                    sr: spec_put_flag(old(self).sr, Flags::U, true),
                    pc: ((old(self).pc + 1) % 65536) as u16,
                    cycles: spec_instruction(m1.opcode).cycles,
                    ..*old(self)
                }));
                assert(spec_mode_rel(spec_instruction(m1.opcode).mode, &m1, &m2, add_cycle1));
                assert(spec_op_rel(spec_instruction(m1.opcode).op, &m2, &m3, add_cycle2));
                assert(*final(self) == (CPU6502 {
                    sr: spec_put_flag(m3.sr, Flags::U, true),
                    cycles: ((m3.cycles + (add_cycle1 & add_cycle2)) % 256) as u8,
                    ..m3
                }));
                lemma_step_witness(
                    *old(self),
                    m1,
                    m2,
                    m3,
                    *final(self),
                    add_cycle1,
                    add_cycle2,
                );
            }
        }
    }

    /// Set one controller port's live button byte
    /// (`A B Select Start Up Down Left Right`, MSB first).
    pub fn set_controller(&mut self, port: usize, buttons: u8)
        requires
            old(self).wf(),
            port < 2,
        ensures
            final(self).wf(),
            final(self).bus.controller@ == old(self).bus.controller@.update(
                port as int,
                buttons,
            ),
            *final(self) == (CPU6502 { bus: final(self).bus, ..*old(self) }),
            final(self).bus == (Bus { controller: final(self).bus.controller, ..old(self).bus }),
    {
        self.bus.controller.set(port, buttons);
    }
}

/// The stack pointer after `n` wrapping pushes (the discipline of
/// `subtract_stack`).
pub open spec fn spec_stack_dec(s: u8, n: nat) -> u8
    decreases n,
{
    if n == 0 {
        s
    } else {
        ((spec_stack_dec(s, (n - 1) as nat) + 255) % 256) as u8
    }
}

/// The stack pointer after `n` wrapping pops (the discipline of
/// `add_stack`).
pub open spec fn spec_stack_inc(s: u8, n: nat) -> u8
    decreases n,
{
    if n == 0 {
        s
    } else {
        spec_stack_inc(((s + 1) % 256) as u8, (n - 1) as nat)
    }
}

/// Stack wrap: pushing any number of bytes and then popping the same
/// number restores the stack pointer to its starting value, even when
/// the 8-bit pointer wraps along the way.
pub proof fn lemma_stack_wrap(s: u8, n: nat)
    ensures
        spec_stack_inc(spec_stack_dec(s, n), n) == s,
    decreases n,
{
    if n > 0 {
        let d1 = spec_stack_dec(s, (n - 1) as nat);
        assert(spec_stack_dec(s, n) == ((d1 + 255) % 256) as u8);
        if d1 == 0 {
            assert(((((d1 + 255) % 256) + 1) % 256) as u8 == d1);
        } else {
            assert(((((d1 + 255) % 256) + 1) % 256) as u8 == d1);
        }
        assert(spec_stack_inc(spec_stack_dec(s, n), n) == spec_stack_inc(d1, (n - 1) as nat));
        lemma_stack_wrap(s, (n - 1) as nat);
        assert(spec_stack_inc(d1, (n - 1) as nat) == spec_stack_inc(
            spec_stack_dec(s, (n - 1) as nat),
            (n - 1) as nat,
        ));
    }
}

/// How one addressing-mode step relates the machine before and after it:
/// exactly the contract of the mode's own method, with its page-cross
/// request in `extra`.
#[verifier::opaque]
pub open spec fn spec_mode_rel(mode: AddrMode, pre: &CPU6502, post: &CPU6502, extra: u8) -> bool {
    match mode {
        AddrMode::IMP => {
            &&& (*post == (CPU6502 { fetched: pre.a, ..*pre }))
            &&& (extra == 0)
            &&& (post.bus.system_clock == pre.bus.system_clock)
            &&& (post.bus.ppu.dot_count == pre.bus.ppu.dot_count)
            &&& (post.bus.ppu.frame_complete == pre.bus.ppu.frame_complete)
            &&& (post.bus.ppu.scanline == pre.bus.ppu.scanline)
            &&& (post.bus.ppu.cycle == pre.bus.ppu.cycle)
            &&& (post.bus.apu.global_time == pre.bus.apu.global_time)
        },
        AddrMode::IMM => {
            &&& (*post == (CPU6502 { addr_absolute: pre.pc, pc: ((pre.pc + 1) % 65536) as u16, ..*pre }))
            &&& (extra == 0)
            &&& (post.bus.system_clock == pre.bus.system_clock)
            &&& (post.bus.ppu.dot_count == pre.bus.ppu.dot_count)
            &&& (post.bus.ppu.frame_complete == pre.bus.ppu.frame_complete)
            &&& (post.bus.ppu.scanline == pre.bus.ppu.scanline)
            &&& (post.bus.ppu.cycle == pre.bus.ppu.cycle)
            &&& (post.bus.apu.global_time == pre.bus.apu.global_time)
        },
        AddrMode::ZP0 => {
            &&& (post.wf())
            &&& (extra == 0)
            &&& (post.addr_absolute < 256)
            &&& (Bus::spec_read_rel( &pre.bus, &post.bus, pre.pc, post.addr_absolute as u8, ))
            &&& (*post == (CPU6502 { bus: post.bus, addr_absolute: post.addr_absolute, pc: ((pre.pc + 1) % 65536) as u16, ..*pre }))
            &&& (post.bus.system_clock == pre.bus.system_clock)
            &&& (post.bus.ppu.dot_count == pre.bus.ppu.dot_count)
            &&& (post.bus.ppu.frame_complete == pre.bus.ppu.frame_complete)
            &&& (post.bus.ppu.scanline == pre.bus.ppu.scanline)
            &&& (post.bus.ppu.cycle == pre.bus.ppu.cycle)
            &&& (post.bus.apu.global_time == pre.bus.apu.global_time)
        },
        AddrMode::ZPX => {
            &&& (post.wf())
            &&& (extra == 0)
            &&& ((exists|d: u8| #[trigger] Bus::spec_read_rel(&pre.bus, &post.bus, pre.pc, d) && post.addr_absolute == ((d + pre.x) as u16 & 0x00FF)))
            &&& (*post == (CPU6502 { bus: post.bus, addr_absolute: post.addr_absolute, pc: ((pre.pc + 1) % 65536) as u16, ..*pre }))
            &&& (post.bus.system_clock == pre.bus.system_clock)
            &&& (post.bus.ppu.dot_count == pre.bus.ppu.dot_count)
            &&& (post.bus.ppu.frame_complete == pre.bus.ppu.frame_complete)
            &&& (post.bus.ppu.scanline == pre.bus.ppu.scanline)
            &&& (post.bus.ppu.cycle == pre.bus.ppu.cycle)
            &&& (post.bus.apu.global_time == pre.bus.apu.global_time)
        },
        AddrMode::ZPY => {
            &&& (post.wf())
            &&& (extra == 0)
            &&& ((exists|d: u8| #[trigger] Bus::spec_read_rel(&pre.bus, &post.bus, pre.pc, d) && post.addr_absolute == ((d + pre.y) as u16 & 0x00FF)))
            &&& (*post == (CPU6502 { bus: post.bus, addr_absolute: post.addr_absolute, pc: ((pre.pc + 1) % 65536) as u16, ..*pre }))
            &&& (post.bus.system_clock == pre.bus.system_clock)
            &&& (post.bus.ppu.dot_count == pre.bus.ppu.dot_count)
            &&& (post.bus.ppu.frame_complete == pre.bus.ppu.frame_complete)
            &&& (post.bus.ppu.scanline == pre.bus.ppu.scanline)
            &&& (post.bus.ppu.cycle == pre.bus.ppu.cycle)
            &&& (post.bus.apu.global_time == pre.bus.apu.global_time)
        },
        AddrMode::ABS => {
            &&& (post.wf())
            &&& (extra == 0)
            &&& ((exists|mid: Bus, lo: u8, hi: u8| { &&& #[trigger] Bus::spec_read_rel(&pre.bus, &mid, pre.pc, lo) &&& #[trigger] Bus::spec_read_rel( &mid, &post.bus, ((pre.pc + 1) % 65536) as u16, hi, ) &&& post.addr_absolute == (((hi as u16) << 8) | lo as u16) }))
            &&& (*post == (CPU6502 { bus: post.bus, addr_absolute: post.addr_absolute, pc: ((pre.pc + 2) % 65536) as u16, ..*pre }))
            &&& (post.bus.system_clock == pre.bus.system_clock)
            &&& (post.bus.ppu.dot_count == pre.bus.ppu.dot_count)
            &&& (post.bus.ppu.frame_complete == pre.bus.ppu.frame_complete)
            &&& (post.bus.ppu.scanline == pre.bus.ppu.scanline)
            &&& (post.bus.ppu.cycle == pre.bus.ppu.cycle)
            &&& (post.bus.apu.global_time == pre.bus.apu.global_time)
        },
        AddrMode::ABX => {
            &&& (post.wf())
            &&& ((exists|mid: Bus, lo: u8, hi: u8| { &&& #[trigger] Bus::spec_read_rel(&pre.bus, &mid, pre.pc, lo) &&& #[trigger] Bus::spec_read_rel( &mid, &post.bus, ((pre.pc + 1) % 65536) as u16, hi, ) &&& post.addr_absolute == ((((hi as u16) << 8) | lo as u16) as u16).wrapping_add(pre.x as u16) &&& extra == (if (post.addr_absolute & 0xFF00) != ((hi as u16) << 8) { 1u8 } else { 0u8 }) }))
            &&& (*post == (CPU6502 { bus: post.bus, addr_absolute: post.addr_absolute, pc: ((pre.pc + 2) % 65536) as u16, ..*pre }))
            &&& (post.bus.system_clock == pre.bus.system_clock)
            &&& (post.bus.ppu.dot_count == pre.bus.ppu.dot_count)
            &&& (post.bus.ppu.frame_complete == pre.bus.ppu.frame_complete)
            &&& (post.bus.ppu.scanline == pre.bus.ppu.scanline)
            &&& (post.bus.ppu.cycle == pre.bus.ppu.cycle)
            &&& (post.bus.apu.global_time == pre.bus.apu.global_time)
        },
        AddrMode::ABY => {
            &&& (post.wf())
            &&& ((exists|mid: Bus, lo: u8, hi: u8| { &&& #[trigger] Bus::spec_read_rel(&pre.bus, &mid, pre.pc, lo) &&& #[trigger] Bus::spec_read_rel( &mid, &post.bus, ((pre.pc + 1) % 65536) as u16, hi, ) &&& post.addr_absolute == ((((hi as u16) << 8) | lo as u16) as u16).wrapping_add(pre.y as u16) &&& extra == (if (post.addr_absolute & 0xFF00) != ((hi as u16) << 8) { 1u8 } else { 0u8 }) }))
            &&& (*post == (CPU6502 { bus: post.bus, addr_absolute: post.addr_absolute, pc: ((pre.pc + 2) % 65536) as u16, ..*pre }))
            &&& (post.bus.system_clock == pre.bus.system_clock)
            &&& (post.bus.ppu.dot_count == pre.bus.ppu.dot_count)
            &&& (post.bus.ppu.frame_complete == pre.bus.ppu.frame_complete)
            &&& (post.bus.ppu.scanline == pre.bus.ppu.scanline)
            &&& (post.bus.ppu.cycle == pre.bus.ppu.cycle)
            &&& (post.bus.apu.global_time == pre.bus.apu.global_time)
        },
        AddrMode::IND => {
            &&& (post.wf())
            &&& (extra == 0)
            &&& (*post == (CPU6502 { bus: post.bus, addr_absolute: post.addr_absolute, pc: ((pre.pc + 2) % 65536) as u16, ..*pre }))
            &&& ((exists|m1: Bus, m2: Bus, m3: Bus, pl: u8, ph: u8, hsrc: u16, b1: u8, b2: u8| { &&& #[trigger] Bus::spec_read_rel(&pre.bus, &m1, pre.pc, pl) &&& #[trigger] Bus::spec_read_rel( &m1, &m2, ((pre.pc + 1) % 65536) as u16, ph, ) &&& hsrc == (if pl == 0xFF { (((ph as u16) << 8)) as u16 } else { ((((ph as u16) << 8) | pl as u16) as u16 + 1) as u16 }) &&& #[trigger] Bus::spec_read_rel(&m2, &m3, hsrc, b1) &&& #[trigger] Bus::spec_read_rel( &m3, &post.bus, (((ph as u16) << 8) | pl as u16) as u16, b2, ) &&& post.addr_absolute == (((b1 as u16) << 8) | b2 as u16) }))
            &&& (post.bus.system_clock == pre.bus.system_clock)
            &&& (post.bus.ppu.dot_count == pre.bus.ppu.dot_count)
            &&& (post.bus.ppu.frame_complete == pre.bus.ppu.frame_complete)
            &&& (post.bus.ppu.scanline == pre.bus.ppu.scanline)
            &&& (post.bus.ppu.cycle == pre.bus.ppu.cycle)
            &&& (post.bus.apu.global_time == pre.bus.apu.global_time)
        },
        AddrMode::IZX => {
            &&& (post.wf())
            &&& (extra == 0)
            &&& (*post == (CPU6502 { bus: post.bus, addr_absolute: post.addr_absolute, pc: ((pre.pc + 1) % 65536) as u16, ..*pre }))
            &&& ((exists|m1: Bus, m2: Bus, t: u8, lo: u8, hi: u8| { &&& #[trigger] Bus::spec_read_rel(&pre.bus, &m1, pre.pc, t) &&& #[trigger] Bus::spec_read_rel( &m1, &m2, ((t as u16 + pre.x as u16) as u16 & 0x00FF) as u16, lo, ) &&& #[trigger] Bus::spec_read_rel( &m2, &post.bus, ((t as u16 + pre.x as u16 + 1) as u16 & 0x00FF) as u16, hi, ) &&& post.addr_absolute == (((hi as u16) << 8) | lo as u16) }))
            &&& (post.bus.system_clock == pre.bus.system_clock)
            &&& (post.bus.ppu.dot_count == pre.bus.ppu.dot_count)
            &&& (post.bus.ppu.frame_complete == pre.bus.ppu.frame_complete)
            &&& (post.bus.ppu.scanline == pre.bus.ppu.scanline)
            &&& (post.bus.ppu.cycle == pre.bus.ppu.cycle)
            &&& (post.bus.apu.global_time == pre.bus.apu.global_time)
        },
        AddrMode::IZY => {
            &&& (post.wf())
            &&& (*post == (CPU6502 { bus: post.bus, addr_absolute: post.addr_absolute, pc: ((pre.pc + 1) % 65536) as u16, ..*pre }))
            &&& ((exists|m1: Bus, m2: Bus, t: u8, lo: u8, hi: u8| { &&& #[trigger] Bus::spec_read_rel(&pre.bus, &m1, pre.pc, t) &&& #[trigger] Bus::spec_read_rel(&m1, &m2, (t as u16 & 0x00FF) as u16, lo) &&& #[trigger] Bus::spec_read_rel( &m2, &post.bus, ((t as u16 + 1) as u16 & 0x00FF) as u16, hi, ) &&& post.addr_absolute == ((((hi as u16) << 8) | lo as u16) as u16).wrapping_add(pre.y as u16) &&& extra == (if (post.addr_absolute & 0xFF00) != ((hi as u16) << 8) { 1u8 } else { 0u8 }) }))
            &&& (post.bus.system_clock == pre.bus.system_clock)
            &&& (post.bus.ppu.dot_count == pre.bus.ppu.dot_count)
            &&& (post.bus.ppu.frame_complete == pre.bus.ppu.frame_complete)
            &&& (post.bus.ppu.scanline == pre.bus.ppu.scanline)
            &&& (post.bus.ppu.cycle == pre.bus.ppu.cycle)
            &&& (post.bus.apu.global_time == pre.bus.apu.global_time)
        },
        AddrMode::REL => {
            &&& (post.wf())
            &&& (extra == 0)
            &&& ((exists|d: u8| #[trigger] Bus::spec_read_rel(&pre.bus, &post.bus, pre.pc, d) && post.addr_relative == (if d & 0x80 != 0 { (d as u16 | 0xFF00) as u16 } else { d as u16 })))
            &&& (*post == (CPU6502 { bus: post.bus, addr_relative: post.addr_relative, pc: ((pre.pc + 1) % 65536) as u16, ..*pre }))
            &&& (post.bus.system_clock == pre.bus.system_clock)
            &&& (post.bus.ppu.dot_count == pre.bus.ppu.dot_count)
            &&& (post.bus.ppu.frame_complete == pre.bus.ppu.frame_complete)
            &&& (post.bus.ppu.scanline == pre.bus.ppu.scanline)
            &&& (post.bus.ppu.cycle == pre.bus.ppu.cycle)
            &&& (post.bus.apu.global_time == pre.bus.apu.global_time)
        },
    }
}

/// How one operation step relates the machine before and after it:
/// exactly the contract of the operation's own method, with its
/// page-cross request in `extra`.
#[verifier::opaque]
pub open spec fn spec_op_rel(op: Op, pre: &CPU6502, post: &CPU6502, extra: u8) -> bool {
    match op {
        Op::ADC => {
            &&& (post.wf())
            &&& (extra == 1)
            &&& (spec_fetch_rel(pre, post))
            &&& (({ let f = post.fetched; let c: int = if spec_flag(pre.sr, Flags::C) { 1 } else { 0 }; let sum = pre.a + f + c; let r = (sum % 256) as u8; *post == (CPU6502 { bus: post.bus, fetched: post.fetched, a: r, sr: spec_put_flag( spec_put_flag( spec_put_flag( spec_put_flag(pre.sr, Flags::C, sum > 255), Flags::Z, r == 0, ), Flags::V, ((!(pre.a ^ f)) & (pre.a ^ r)) & 0x80 > 0, ), Flags::N, r & 0x80 > 0, ), ..*pre }) }))
            &&& (post.bus.system_clock == pre.bus.system_clock)
            &&& (post.bus.ppu.dot_count == pre.bus.ppu.dot_count)
            &&& (post.bus.ppu.frame_complete == pre.bus.ppu.frame_complete)
            &&& (post.bus.ppu.scanline == pre.bus.ppu.scanline)
            &&& (post.bus.ppu.cycle == pre.bus.ppu.cycle)
            &&& (post.bus.apu.global_time == pre.bus.apu.global_time)
        },
        Op::AND => {
            &&& (post.wf())
            &&& (extra == 1)
            &&& (spec_fetch_rel(pre, post))
            &&& (({ let f = post.fetched; let nv = (pre.a & f) as u8; *post == (CPU6502 { bus: post.bus, fetched: post.fetched, a: nv, sr: spec_put_flag(spec_put_flag(pre.sr, Flags::Z, nv == 0), Flags::N, nv & 0x80 > 0), ..*pre }) }))
            &&& (post.bus.system_clock == pre.bus.system_clock)
            &&& (post.bus.ppu.dot_count == pre.bus.ppu.dot_count)
            &&& (post.bus.ppu.frame_complete == pre.bus.ppu.frame_complete)
            &&& (post.bus.ppu.scanline == pre.bus.ppu.scanline)
            &&& (post.bus.ppu.cycle == pre.bus.ppu.cycle)
            &&& (post.bus.apu.global_time == pre.bus.apu.global_time)
        },
        Op::ASL => {
            &&& (post.wf())
            &&& (extra == 0)
            &&& (({ let f = post.fetched; let r = ((f * 2) % 256) as u8; let srn = spec_put_flag( spec_put_flag( spec_put_flag(pre.sr, Flags::C, f * 2 > 255), Flags::Z, r == 0, ), Flags::N, r & 0x80 > 0, ); if spec_instruction(pre.opcode).mode is IMP { *post == (CPU6502 { a: r, sr: srn, ..*pre }) } else { &&& (exists|mid: Bus| #[trigger] Bus::spec_read_rel( &pre.bus, &mid, pre.addr_absolute, post.fetched, ) && Bus::spec_write_rel( &mid, &post.bus, pre.addr_absolute, r, )) &&& *post == (CPU6502 { bus: post.bus, fetched: post.fetched, sr: srn, ..*pre }) } }))
            &&& (post.bus.system_clock == pre.bus.system_clock)
            &&& (post.bus.ppu.dot_count == pre.bus.ppu.dot_count)
            &&& (post.bus.ppu.frame_complete == pre.bus.ppu.frame_complete)
            &&& (post.bus.ppu.scanline == pre.bus.ppu.scanline)
            &&& (post.bus.ppu.cycle == pre.bus.ppu.cycle)
            &&& (post.bus.apu.global_time == pre.bus.apu.global_time)
        },
        Op::BCC => {
            &&& (extra == 0)
            &&& (!(!spec_flag(pre.sr, Flags::C)) ==> *post == *pre)
            &&& ((!spec_flag(pre.sr, Flags::C)) ==> ({ let dest = pre.pc.wrapping_add(pre.addr_relative); let cross = (dest & 0xFF00) != (pre.pc & 0xFF00); *post == (CPU6502 { pc: dest, addr_absolute: dest, cycles: pre.cycles.wrapping_add( if cross { 2 } else { 1 }, ), ..*pre }) }))
            &&& (post.bus.system_clock == pre.bus.system_clock)
            &&& (post.bus.ppu.dot_count == pre.bus.ppu.dot_count)
            &&& (post.bus.ppu.frame_complete == pre.bus.ppu.frame_complete)
            &&& (post.bus.ppu.scanline == pre.bus.ppu.scanline)
            &&& (post.bus.ppu.cycle == pre.bus.ppu.cycle)
            &&& (post.bus.apu.global_time == pre.bus.apu.global_time)
        },
        Op::BCS => {
            &&& (extra == 0)
            &&& (!(spec_flag(pre.sr, Flags::C)) ==> *post == *pre)
            &&& ((spec_flag(pre.sr, Flags::C)) ==> ({ let dest = pre.pc.wrapping_add(pre.addr_relative); let cross = (dest & 0xFF00) != (pre.pc & 0xFF00); *post == (CPU6502 { pc: dest, addr_absolute: dest, cycles: pre.cycles.wrapping_add( if cross { 2 } else { 1 }, ), ..*pre }) }))
            &&& (post.bus.system_clock == pre.bus.system_clock)
            &&& (post.bus.ppu.dot_count == pre.bus.ppu.dot_count)
            &&& (post.bus.ppu.frame_complete == pre.bus.ppu.frame_complete)
            &&& (post.bus.ppu.scanline == pre.bus.ppu.scanline)
            &&& (post.bus.ppu.cycle == pre.bus.ppu.cycle)
            &&& (post.bus.apu.global_time == pre.bus.apu.global_time)
        },
        Op::BEQ => {
            &&& (extra == 0)
            &&& (!(spec_flag(pre.sr, Flags::Z)) ==> *post == *pre)
            &&& ((spec_flag(pre.sr, Flags::Z)) ==> ({ let dest = pre.pc.wrapping_add(pre.addr_relative); let cross = (dest & 0xFF00) != (pre.pc & 0xFF00); *post == (CPU6502 { pc: dest, addr_absolute: dest, cycles: pre.cycles.wrapping_add( if cross { 2 } else { 1 }, ), ..*pre }) }))
            &&& (post.bus.system_clock == pre.bus.system_clock)
            &&& (post.bus.ppu.dot_count == pre.bus.ppu.dot_count)
            &&& (post.bus.ppu.frame_complete == pre.bus.ppu.frame_complete)
            &&& (post.bus.ppu.scanline == pre.bus.ppu.scanline)
            &&& (post.bus.ppu.cycle == pre.bus.ppu.cycle)
            &&& (post.bus.apu.global_time == pre.bus.apu.global_time)
        },
        Op::BIT => {
            &&& (post.wf())
            &&& (extra == 0)
            &&& (spec_fetch_rel(pre, post))
            &&& (({ let f = post.fetched; *post == (CPU6502 { bus: post.bus, fetched: post.fetched, sr: spec_put_flag(spec_put_flag(spec_put_flag(pre.sr, Flags::Z, (pre.a & f) == 0), Flags::N, f & 0x80 > 0), Flags::V, f & 0x40 > 0), ..*pre }) }))
            &&& (post.bus.system_clock == pre.bus.system_clock)
            &&& (post.bus.ppu.dot_count == pre.bus.ppu.dot_count)
            &&& (post.bus.ppu.frame_complete == pre.bus.ppu.frame_complete)
            &&& (post.bus.ppu.scanline == pre.bus.ppu.scanline)
            &&& (post.bus.ppu.cycle == pre.bus.ppu.cycle)
            &&& (post.bus.apu.global_time == pre.bus.apu.global_time)
        },
        Op::BMI => {
            &&& (extra == 0)
            &&& (!(spec_flag(pre.sr, Flags::N)) ==> *post == *pre)
            &&& ((spec_flag(pre.sr, Flags::N)) ==> ({ let dest = pre.pc.wrapping_add(pre.addr_relative); let cross = (dest & 0xFF00) != (pre.pc & 0xFF00); *post == (CPU6502 { pc: dest, addr_absolute: dest, cycles: pre.cycles.wrapping_add( if cross { 2 } else { 1 }, ), ..*pre }) }))
            &&& (post.bus.system_clock == pre.bus.system_clock)
            &&& (post.bus.ppu.dot_count == pre.bus.ppu.dot_count)
            &&& (post.bus.ppu.frame_complete == pre.bus.ppu.frame_complete)
            &&& (post.bus.ppu.scanline == pre.bus.ppu.scanline)
            &&& (post.bus.ppu.cycle == pre.bus.ppu.cycle)
            &&& (post.bus.apu.global_time == pre.bus.apu.global_time)
        },
        Op::BNE => {
            &&& (extra == 0)
            &&& (!(!spec_flag(pre.sr, Flags::Z)) ==> *post == *pre)
            &&& ((!spec_flag(pre.sr, Flags::Z)) ==> ({ let dest = pre.pc.wrapping_add(pre.addr_relative); let cross = (dest & 0xFF00) != (pre.pc & 0xFF00); *post == (CPU6502 { pc: dest, addr_absolute: dest, cycles: pre.cycles.wrapping_add( if cross { 2 } else { 1 }, ), ..*pre }) }))
            &&& (post.bus.system_clock == pre.bus.system_clock)
            &&& (post.bus.ppu.dot_count == pre.bus.ppu.dot_count)
            &&& (post.bus.ppu.frame_complete == pre.bus.ppu.frame_complete)
            &&& (post.bus.ppu.scanline == pre.bus.ppu.scanline)
            &&& (post.bus.ppu.cycle == pre.bus.ppu.cycle)
            &&& (post.bus.apu.global_time == pre.bus.apu.global_time)
        },
        Op::BPL => {
            &&& (extra == 0)
            &&& (!(!spec_flag(pre.sr, Flags::N)) ==> *post == *pre)
            &&& ((!spec_flag(pre.sr, Flags::N)) ==> ({ let dest = pre.pc.wrapping_add(pre.addr_relative); let cross = (dest & 0xFF00) != (pre.pc & 0xFF00); *post == (CPU6502 { pc: dest, addr_absolute: dest, cycles: pre.cycles.wrapping_add( if cross { 2 } else { 1 }, ), ..*pre }) }))
            &&& (post.bus.system_clock == pre.bus.system_clock)
            &&& (post.bus.ppu.dot_count == pre.bus.ppu.dot_count)
            &&& (post.bus.ppu.frame_complete == pre.bus.ppu.frame_complete)
            &&& (post.bus.ppu.scanline == pre.bus.ppu.scanline)
            &&& (post.bus.ppu.cycle == pre.bus.ppu.cycle)
            &&& (post.bus.apu.global_time == pre.bus.apu.global_time)
        },
        Op::BRK => {
            &&& (post.wf())
            &&& (extra == 0)
            &&& (({ let ret = ((pre.pc + 1) % 65536) as u16; let sri = spec_put_flag(pre.sr, Flags::I, true); let srb = spec_put_flag(sri, Flags::B, true); &&& (exists|m1: Bus, m2: Bus, m3: Bus, m4: Bus, lo: u8, hi: u8| { &&& #[trigger] Bus::spec_write_rel( &pre.bus, &m1, (0x0100 + pre.sptr as u16) as u16, (ret >> 8) as u8, ) &&& #[trigger] Bus::spec_write_rel( &m1, &m2, (0x0100 + ((pre.sptr + 255) % 256)) as u16, (ret & 0x00FF) as u8, ) &&& #[trigger] Bus::spec_write_rel( &m2, &m3, (0x0100 + ((pre.sptr + 254) % 256)) as u16, srb, ) &&& #[trigger] Bus::spec_read_rel(&m3, &m4, 0xFFFE, lo) &&& #[trigger] Bus::spec_read_rel(&m4, &post.bus, 0xFFFF, hi) &&& post.pc == ((lo as u16) | ((hi as u16) << 8)) }) &&& *post == (CPU6502 { bus: post.bus, pc: post.pc, sptr: ((pre.sptr + 253) % 256) as u8, sr: spec_put_flag(srb, Flags::B, false), ..*pre }) }))
            &&& (post.bus.system_clock == pre.bus.system_clock)
            &&& (post.bus.ppu.dot_count == pre.bus.ppu.dot_count)
            &&& (post.bus.ppu.frame_complete == pre.bus.ppu.frame_complete)
            &&& (post.bus.ppu.scanline == pre.bus.ppu.scanline)
            &&& (post.bus.ppu.cycle == pre.bus.ppu.cycle)
            &&& (post.bus.apu.global_time == pre.bus.apu.global_time)
        },
        Op::BVC => {
            &&& (extra == 0)
            &&& (!(!spec_flag(pre.sr, Flags::V)) ==> *post == *pre)
            &&& ((!spec_flag(pre.sr, Flags::V)) ==> ({ let dest = pre.pc.wrapping_add(pre.addr_relative); let cross = (dest & 0xFF00) != (pre.pc & 0xFF00); *post == (CPU6502 { pc: dest, addr_absolute: dest, cycles: pre.cycles.wrapping_add( if cross { 2 } else { 1 }, ), ..*pre }) }))
            &&& (post.bus.system_clock == pre.bus.system_clock)
            &&& (post.bus.ppu.dot_count == pre.bus.ppu.dot_count)
            &&& (post.bus.ppu.frame_complete == pre.bus.ppu.frame_complete)
            &&& (post.bus.ppu.scanline == pre.bus.ppu.scanline)
            &&& (post.bus.ppu.cycle == pre.bus.ppu.cycle)
            &&& (post.bus.apu.global_time == pre.bus.apu.global_time)
        },
        Op::BVS => {
            &&& (extra == 0)
            &&& (!(spec_flag(pre.sr, Flags::V)) ==> *post == *pre)
            &&& ((spec_flag(pre.sr, Flags::V)) ==> ({ let dest = pre.pc.wrapping_add(pre.addr_relative); let cross = (dest & 0xFF00) != (pre.pc & 0xFF00); *post == (CPU6502 { pc: dest, addr_absolute: dest, cycles: pre.cycles.wrapping_add( if cross { 2 } else { 1 }, ), ..*pre }) }))
            &&& (post.bus.system_clock == pre.bus.system_clock)
            &&& (post.bus.ppu.dot_count == pre.bus.ppu.dot_count)
            &&& (post.bus.ppu.frame_complete == pre.bus.ppu.frame_complete)
            &&& (post.bus.ppu.scanline == pre.bus.ppu.scanline)
            &&& (post.bus.ppu.cycle == pre.bus.ppu.cycle)
            &&& (post.bus.apu.global_time == pre.bus.apu.global_time)
        },
        Op::CLC => {
            &&& (*post == (CPU6502 { sr: spec_put_flag(pre.sr, Flags::C, false), ..*pre }))
            &&& (extra == 0)
            &&& (post.bus.system_clock == pre.bus.system_clock)
            &&& (post.bus.ppu.dot_count == pre.bus.ppu.dot_count)
            &&& (post.bus.ppu.frame_complete == pre.bus.ppu.frame_complete)
            &&& (post.bus.ppu.scanline == pre.bus.ppu.scanline)
            &&& (post.bus.ppu.cycle == pre.bus.ppu.cycle)
            &&& (post.bus.apu.global_time == pre.bus.apu.global_time)
        },
        Op::CLD => {
            &&& (*post == (CPU6502 { sr: spec_put_flag(pre.sr, Flags::D, false), ..*pre }))
            &&& (extra == 0)
            &&& (post.bus.system_clock == pre.bus.system_clock)
            &&& (post.bus.ppu.dot_count == pre.bus.ppu.dot_count)
            &&& (post.bus.ppu.frame_complete == pre.bus.ppu.frame_complete)
            &&& (post.bus.ppu.scanline == pre.bus.ppu.scanline)
            &&& (post.bus.ppu.cycle == pre.bus.ppu.cycle)
            &&& (post.bus.apu.global_time == pre.bus.apu.global_time)
        },
        Op::CLI => {
            &&& (*post == (CPU6502 { sr: spec_put_flag(pre.sr, Flags::I, false), ..*pre }))
            &&& (extra == 0)
            &&& (post.bus.system_clock == pre.bus.system_clock)
            &&& (post.bus.ppu.dot_count == pre.bus.ppu.dot_count)
            &&& (post.bus.ppu.frame_complete == pre.bus.ppu.frame_complete)
            &&& (post.bus.ppu.scanline == pre.bus.ppu.scanline)
            &&& (post.bus.ppu.cycle == pre.bus.ppu.cycle)
            &&& (post.bus.apu.global_time == pre.bus.apu.global_time)
        },
        Op::CLV => {
            &&& (*post == (CPU6502 { sr: spec_put_flag(pre.sr, Flags::V, false), ..*pre }))
            &&& (extra == 0)
            &&& (post.bus.system_clock == pre.bus.system_clock)
            &&& (post.bus.ppu.dot_count == pre.bus.ppu.dot_count)
            &&& (post.bus.ppu.frame_complete == pre.bus.ppu.frame_complete)
            &&& (post.bus.ppu.scanline == pre.bus.ppu.scanline)
            &&& (post.bus.ppu.cycle == pre.bus.ppu.cycle)
            &&& (post.bus.apu.global_time == pre.bus.apu.global_time)
        },
        Op::CMP => {
            &&& (post.wf())
            &&& (extra == 0)
            &&& (spec_fetch_rel(pre, post))
            &&& (({ let f = post.fetched; let diff = pre.a.wrapping_sub(f); *post == (CPU6502 { bus: post.bus, fetched: post.fetched, sr: spec_put_flag(spec_put_flag(spec_put_flag(pre.sr, Flags::C, pre.a >= f), Flags::Z, diff == 0), Flags::N, diff & 0x80 > 0), ..*pre }) }))
            &&& (post.bus.system_clock == pre.bus.system_clock)
            &&& (post.bus.ppu.dot_count == pre.bus.ppu.dot_count)
            &&& (post.bus.ppu.frame_complete == pre.bus.ppu.frame_complete)
            &&& (post.bus.ppu.scanline == pre.bus.ppu.scanline)
            &&& (post.bus.ppu.cycle == pre.bus.ppu.cycle)
            &&& (post.bus.apu.global_time == pre.bus.apu.global_time)
        },
        Op::CPX => {
            &&& (post.wf())
            &&& (extra == 0)
            &&& (spec_fetch_rel(pre, post))
            &&& (({ let f = post.fetched; let diff = pre.x.wrapping_sub(f); *post == (CPU6502 { bus: post.bus, fetched: post.fetched, sr: spec_put_flag(spec_put_flag(spec_put_flag(pre.sr, Flags::C, pre.x >= f), Flags::Z, diff == 0), Flags::N, diff & 0x80 > 0), ..*pre }) }))
            &&& (post.bus.system_clock == pre.bus.system_clock)
            &&& (post.bus.ppu.dot_count == pre.bus.ppu.dot_count)
            &&& (post.bus.ppu.frame_complete == pre.bus.ppu.frame_complete)
            &&& (post.bus.ppu.scanline == pre.bus.ppu.scanline)
            &&& (post.bus.ppu.cycle == pre.bus.ppu.cycle)
            &&& (post.bus.apu.global_time == pre.bus.apu.global_time)
        },
        Op::CPY => {
            &&& (post.wf())
            &&& (extra == 0)
            &&& (spec_fetch_rel(pre, post))
            &&& (({ let f = post.fetched; let diff = pre.y.wrapping_sub(f); *post == (CPU6502 { bus: post.bus, fetched: post.fetched, sr: spec_put_flag(spec_put_flag(spec_put_flag(pre.sr, Flags::C, pre.y >= f), Flags::Z, diff == 0), Flags::N, diff & 0x80 > 0), ..*pre }) }))
            &&& (post.bus.system_clock == pre.bus.system_clock)
            &&& (post.bus.ppu.dot_count == pre.bus.ppu.dot_count)
            &&& (post.bus.ppu.frame_complete == pre.bus.ppu.frame_complete)
            &&& (post.bus.ppu.scanline == pre.bus.ppu.scanline)
            &&& (post.bus.ppu.cycle == pre.bus.ppu.cycle)
            &&& (post.bus.apu.global_time == pre.bus.apu.global_time)
        },
        Op::DEC => {
            &&& (post.wf())
            &&& (extra == 0)
            &&& (({ let f = post.fetched; let r = (if f == 0 { 255int } else { f - 1 }) as u8; let srn = spec_put_flag( spec_put_flag(pre.sr, Flags::Z, r == 0), Flags::N, r & 0x80 > 0, ); &&& (if spec_instruction(pre.opcode).mode is IMP { post.fetched == pre.fetched && Bus::spec_write_rel( &pre.bus, &post.bus, pre.addr_absolute, r, ) } else { exists|mid: Bus| #[trigger] Bus::spec_read_rel( &pre.bus, &mid, pre.addr_absolute, post.fetched, ) && Bus::spec_write_rel( &mid, &post.bus, pre.addr_absolute, r, ) }) &&& *post == (CPU6502 { bus: post.bus, fetched: post.fetched, sr: srn, ..*pre }) }))
            &&& (post.bus.system_clock == pre.bus.system_clock)
            &&& (post.bus.ppu.dot_count == pre.bus.ppu.dot_count)
            &&& (post.bus.ppu.frame_complete == pre.bus.ppu.frame_complete)
            &&& (post.bus.ppu.scanline == pre.bus.ppu.scanline)
            &&& (post.bus.ppu.cycle == pre.bus.ppu.cycle)
            &&& (post.bus.apu.global_time == pre.bus.apu.global_time)
        },
        Op::DEX => {
            &&& (({ let nv = ((pre.x + 255) % 256) as u8; *post == (CPU6502 { x: nv, sr: spec_put_flag(spec_put_flag(pre.sr, Flags::Z, nv == 0), Flags::N, nv & 0x80 > 0), ..*pre }) }))
            &&& (extra == 0)
            &&& (post.bus.system_clock == pre.bus.system_clock)
            &&& (post.bus.ppu.dot_count == pre.bus.ppu.dot_count)
            &&& (post.bus.ppu.frame_complete == pre.bus.ppu.frame_complete)
            &&& (post.bus.ppu.scanline == pre.bus.ppu.scanline)
            &&& (post.bus.ppu.cycle == pre.bus.ppu.cycle)
            &&& (post.bus.apu.global_time == pre.bus.apu.global_time)
        },
        Op::DEY => {
            &&& (({ let nv = ((pre.y + 255) % 256) as u8; *post == (CPU6502 { y: nv, sr: spec_put_flag(spec_put_flag(pre.sr, Flags::Z, nv == 0), Flags::N, nv & 0x80 > 0), ..*pre }) }))
            &&& (extra == 0)
            &&& (post.bus.system_clock == pre.bus.system_clock)
            &&& (post.bus.ppu.dot_count == pre.bus.ppu.dot_count)
            &&& (post.bus.ppu.frame_complete == pre.bus.ppu.frame_complete)
            &&& (post.bus.ppu.scanline == pre.bus.ppu.scanline)
            &&& (post.bus.ppu.cycle == pre.bus.ppu.cycle)
            &&& (post.bus.apu.global_time == pre.bus.apu.global_time)
        },
        Op::EOR => {
            &&& (post.wf())
            &&& (extra == 1)
            &&& (spec_fetch_rel(pre, post))
            &&& (({ let f = post.fetched; let nv = (pre.a ^ f) as u8; *post == (CPU6502 { bus: post.bus, fetched: post.fetched, a: nv, sr: spec_put_flag(spec_put_flag(pre.sr, Flags::Z, nv == 0), Flags::N, nv & 0x80 > 0), ..*pre }) }))
            &&& (post.bus.system_clock == pre.bus.system_clock)
            &&& (post.bus.ppu.dot_count == pre.bus.ppu.dot_count)
            &&& (post.bus.ppu.frame_complete == pre.bus.ppu.frame_complete)
            &&& (post.bus.ppu.scanline == pre.bus.ppu.scanline)
            &&& (post.bus.ppu.cycle == pre.bus.ppu.cycle)
            &&& (post.bus.apu.global_time == pre.bus.apu.global_time)
        },
        Op::ILL => {
            &&& (*post == *pre)
            &&& (extra == 0)
            &&& (post.bus.system_clock == pre.bus.system_clock)
            &&& (post.bus.ppu.dot_count == pre.bus.ppu.dot_count)
            &&& (post.bus.ppu.frame_complete == pre.bus.ppu.frame_complete)
            &&& (post.bus.ppu.scanline == pre.bus.ppu.scanline)
            &&& (post.bus.ppu.cycle == pre.bus.ppu.cycle)
            &&& (post.bus.apu.global_time == pre.bus.apu.global_time)
        },
        Op::INC => {
            &&& (post.wf())
            &&& (extra == 0)
            &&& (({ let f = post.fetched; let r = (if f == 255 { 0int } else { f + 1 }) as u8; let srn = spec_put_flag( spec_put_flag(pre.sr, Flags::Z, r == 0), Flags::N, r & 0x80 > 0, ); &&& (if spec_instruction(pre.opcode).mode is IMP { post.fetched == pre.fetched && Bus::spec_write_rel( &pre.bus, &post.bus, pre.addr_absolute, r, ) } else { exists|mid: Bus| #[trigger] Bus::spec_read_rel( &pre.bus, &mid, pre.addr_absolute, post.fetched, ) && Bus::spec_write_rel( &mid, &post.bus, pre.addr_absolute, r, ) }) &&& *post == (CPU6502 { bus: post.bus, fetched: post.fetched, sr: srn, ..*pre }) }))
            &&& (post.bus.system_clock == pre.bus.system_clock)
            &&& (post.bus.ppu.dot_count == pre.bus.ppu.dot_count)
            &&& (post.bus.ppu.frame_complete == pre.bus.ppu.frame_complete)
            &&& (post.bus.ppu.scanline == pre.bus.ppu.scanline)
            &&& (post.bus.ppu.cycle == pre.bus.ppu.cycle)
            &&& (post.bus.apu.global_time == pre.bus.apu.global_time)
        },
        Op::INX => {
            &&& (({ let nv = ((pre.x + 1) % 256) as u8; *post == (CPU6502 { x: nv, sr: spec_put_flag(spec_put_flag(pre.sr, Flags::Z, nv == 0), Flags::N, nv & 0x80 > 0), ..*pre }) }))
            &&& (extra == 0)
            &&& (post.bus.system_clock == pre.bus.system_clock)
            &&& (post.bus.ppu.dot_count == pre.bus.ppu.dot_count)
            &&& (post.bus.ppu.frame_complete == pre.bus.ppu.frame_complete)
            &&& (post.bus.ppu.scanline == pre.bus.ppu.scanline)
            &&& (post.bus.ppu.cycle == pre.bus.ppu.cycle)
            &&& (post.bus.apu.global_time == pre.bus.apu.global_time)
        },
        Op::INY => {
            &&& (({ let nv = ((pre.y + 1) % 256) as u8; *post == (CPU6502 { y: nv, sr: spec_put_flag(spec_put_flag(pre.sr, Flags::Z, nv == 0), Flags::N, nv & 0x80 > 0), ..*pre }) }))
            &&& (extra == 0)
            &&& (post.bus.system_clock == pre.bus.system_clock)
            &&& (post.bus.ppu.dot_count == pre.bus.ppu.dot_count)
            &&& (post.bus.ppu.frame_complete == pre.bus.ppu.frame_complete)
            &&& (post.bus.ppu.scanline == pre.bus.ppu.scanline)
            &&& (post.bus.ppu.cycle == pre.bus.ppu.cycle)
            &&& (post.bus.apu.global_time == pre.bus.apu.global_time)
        },
        Op::JMP => {
            &&& (*post == (CPU6502 { pc: pre.addr_absolute, ..*pre }))
            &&& (extra == 0)
            &&& (post.bus.system_clock == pre.bus.system_clock)
            &&& (post.bus.ppu.dot_count == pre.bus.ppu.dot_count)
            &&& (post.bus.ppu.frame_complete == pre.bus.ppu.frame_complete)
            &&& (post.bus.ppu.scanline == pre.bus.ppu.scanline)
            &&& (post.bus.ppu.cycle == pre.bus.ppu.cycle)
            &&& (post.bus.apu.global_time == pre.bus.apu.global_time)
        },
        Op::JSR => {
            &&& (post.wf())
            &&& (extra == 0)
            &&& (({ let ret = pre.pc.wrapping_sub(1); exists|mid: Bus| #[trigger] Bus::spec_write_rel( &pre.bus, &mid, (0x0100 + pre.sptr as u16) as u16, (ret >> 8) as u8, ) && Bus::spec_write_rel( &mid, &post.bus, (0x0100 + ((pre.sptr + 255) % 256)) as u16, (ret & 0x00FF) as u8, ) }))
            &&& (*post == (CPU6502 { bus: post.bus, pc: pre.addr_absolute, sptr: ((pre.sptr + 254) % 256) as u8, ..*pre }))
            &&& (post.bus.system_clock == pre.bus.system_clock)
            &&& (post.bus.ppu.dot_count == pre.bus.ppu.dot_count)
            &&& (post.bus.ppu.frame_complete == pre.bus.ppu.frame_complete)
            &&& (post.bus.ppu.scanline == pre.bus.ppu.scanline)
            &&& (post.bus.ppu.cycle == pre.bus.ppu.cycle)
            &&& (post.bus.apu.global_time == pre.bus.apu.global_time)
        },
        Op::LDA => {
            &&& (post.wf())
            &&& (extra == 1)
            &&& (spec_fetch_rel(pre, post))
            &&& (({ let f = post.fetched; let nv = f; *post == (CPU6502 { bus: post.bus, fetched: post.fetched, a: nv, sr: spec_put_flag(spec_put_flag(pre.sr, Flags::Z, nv == 0), Flags::N, nv & 0x80 > 0), ..*pre }) }))
            &&& (post.bus.system_clock == pre.bus.system_clock)
            &&& (post.bus.ppu.dot_count == pre.bus.ppu.dot_count)
            &&& (post.bus.ppu.frame_complete == pre.bus.ppu.frame_complete)
            &&& (post.bus.ppu.scanline == pre.bus.ppu.scanline)
            &&& (post.bus.ppu.cycle == pre.bus.ppu.cycle)
            &&& (post.bus.apu.global_time == pre.bus.apu.global_time)
        },
        Op::LDX => {
            &&& (post.wf())
            &&& (extra == 1)
            &&& (spec_fetch_rel(pre, post))
            &&& (({ let f = post.fetched; let nv = f; *post == (CPU6502 { bus: post.bus, fetched: post.fetched, x: nv, sr: spec_put_flag(spec_put_flag(pre.sr, Flags::Z, nv == 0), Flags::N, nv & 0x80 > 0), ..*pre }) }))
            &&& (post.bus.system_clock == pre.bus.system_clock)
            &&& (post.bus.ppu.dot_count == pre.bus.ppu.dot_count)
            &&& (post.bus.ppu.frame_complete == pre.bus.ppu.frame_complete)
            &&& (post.bus.ppu.scanline == pre.bus.ppu.scanline)
            &&& (post.bus.ppu.cycle == pre.bus.ppu.cycle)
            &&& (post.bus.apu.global_time == pre.bus.apu.global_time)
        },
        Op::LDY => {
            &&& (post.wf())
            &&& (extra == 1)
            &&& (spec_fetch_rel(pre, post))
            &&& (({ let f = post.fetched; let nv = f; *post == (CPU6502 { bus: post.bus, fetched: post.fetched, y: nv, sr: spec_put_flag(spec_put_flag(pre.sr, Flags::Z, nv == 0), Flags::N, nv & 0x80 > 0), ..*pre }) }))
            &&& (post.bus.system_clock == pre.bus.system_clock)
            &&& (post.bus.ppu.dot_count == pre.bus.ppu.dot_count)
            &&& (post.bus.ppu.frame_complete == pre.bus.ppu.frame_complete)
            &&& (post.bus.ppu.scanline == pre.bus.ppu.scanline)
            &&& (post.bus.ppu.cycle == pre.bus.ppu.cycle)
            &&& (post.bus.apu.global_time == pre.bus.apu.global_time)
        },
        Op::LSR => {
            &&& (post.wf())
            &&& (extra == 0)
            &&& (({ let f = post.fetched; let r = (f >> 1) as u8; let srn = spec_put_flag( spec_put_flag( spec_put_flag(pre.sr, Flags::C, f & 0x01 > 0), Flags::Z, r == 0, ), Flags::N, r & 0x80 > 0, ); if spec_instruction(pre.opcode).mode is IMP { *post == (CPU6502 { a: r, sr: srn, ..*pre }) } else { &&& (exists|mid: Bus| #[trigger] Bus::spec_read_rel( &pre.bus, &mid, pre.addr_absolute, post.fetched, ) && Bus::spec_write_rel( &mid, &post.bus, pre.addr_absolute, r, )) &&& *post == (CPU6502 { bus: post.bus, fetched: post.fetched, sr: srn, ..*pre }) } }))
            &&& (post.bus.system_clock == pre.bus.system_clock)
            &&& (post.bus.ppu.dot_count == pre.bus.ppu.dot_count)
            &&& (post.bus.ppu.frame_complete == pre.bus.ppu.frame_complete)
            &&& (post.bus.ppu.scanline == pre.bus.ppu.scanline)
            &&& (post.bus.ppu.cycle == pre.bus.ppu.cycle)
            &&& (post.bus.apu.global_time == pre.bus.apu.global_time)
        },
        Op::NOP => {
            &&& (*post == *pre)
            &&& (extra == (if pre.opcode == 0x1C || pre.opcode == 0x3C || pre.opcode == 0x5C || pre.opcode == 0x7C || pre.opcode == 0xDC || pre.opcode == 0xFC { 1u8 } else { 0u8 }))
            &&& (post.bus.system_clock == pre.bus.system_clock)
            &&& (post.bus.ppu.dot_count == pre.bus.ppu.dot_count)
            &&& (post.bus.ppu.frame_complete == pre.bus.ppu.frame_complete)
            &&& (post.bus.ppu.scanline == pre.bus.ppu.scanline)
            &&& (post.bus.ppu.cycle == pre.bus.ppu.cycle)
            &&& (post.bus.apu.global_time == pre.bus.apu.global_time)
        },
        Op::ORA => {
            &&& (post.wf())
            &&& (extra == 1)
            &&& (spec_fetch_rel(pre, post))
            &&& (({ let f = post.fetched; let nv = (pre.a | f) as u8; *post == (CPU6502 { bus: post.bus, fetched: post.fetched, a: nv, sr: spec_put_flag(spec_put_flag(pre.sr, Flags::Z, nv == 0), Flags::N, nv & 0x80 > 0), ..*pre }) }))
            &&& (post.bus.system_clock == pre.bus.system_clock)
            &&& (post.bus.ppu.dot_count == pre.bus.ppu.dot_count)
            &&& (post.bus.ppu.frame_complete == pre.bus.ppu.frame_complete)
            &&& (post.bus.ppu.scanline == pre.bus.ppu.scanline)
            &&& (post.bus.ppu.cycle == pre.bus.ppu.cycle)
            &&& (post.bus.apu.global_time == pre.bus.apu.global_time)
        },
        Op::PHA => {
            &&& (post.wf())
            &&& (extra == 0)
            &&& (Bus::spec_write_rel( &pre.bus, &post.bus, (0x0100 + pre.sptr as u16) as u16, pre.a, ))
            &&& (*post == (CPU6502 { bus: post.bus, sptr: ((pre.sptr + 255) % 256) as u8, ..*pre }))
            &&& (post.bus.system_clock == pre.bus.system_clock)
            &&& (post.bus.ppu.dot_count == pre.bus.ppu.dot_count)
            &&& (post.bus.ppu.frame_complete == pre.bus.ppu.frame_complete)
            &&& (post.bus.ppu.scanline == pre.bus.ppu.scanline)
            &&& (post.bus.ppu.cycle == pre.bus.ppu.cycle)
            &&& (post.bus.apu.global_time == pre.bus.apu.global_time)
        },
        Op::PHP => {
            &&& (post.wf())
            &&& (extra == 0)
            &&& (Bus::spec_write_rel( &pre.bus, &post.bus, (0x0100 + pre.sptr as u16) as u16, (pre.sr | 0x30) as u8, ))
            &&& (*post == (CPU6502 { bus: post.bus, sptr: ((pre.sptr + 255) % 256) as u8, sr: spec_put_flag( spec_put_flag(pre.sr, Flags::B, false), Flags::U, false, ), ..*pre }))
            &&& (post.bus.system_clock == pre.bus.system_clock)
            &&& (post.bus.ppu.dot_count == pre.bus.ppu.dot_count)
            &&& (post.bus.ppu.frame_complete == pre.bus.ppu.frame_complete)
            &&& (post.bus.ppu.scanline == pre.bus.ppu.scanline)
            &&& (post.bus.ppu.cycle == pre.bus.ppu.cycle)
            &&& (post.bus.apu.global_time == pre.bus.apu.global_time)
        },
        Op::PLA => {
            &&& (post.wf())
            &&& (extra == 0)
            &&& (Bus::spec_read_rel( &pre.bus, &post.bus, (0x0100 + ((pre.sptr + 1) % 256)) as u16, post.a, ))
            &&& (*post == (CPU6502 { bus: post.bus, a: post.a, sptr: ((pre.sptr + 1) % 256) as u8, sr: spec_put_flag( spec_put_flag(pre.sr, Flags::Z, post.a == 0), Flags::N, post.a & 0x80 > 0, ), ..*pre }))
            &&& (post.bus.system_clock == pre.bus.system_clock)
            &&& (post.bus.ppu.dot_count == pre.bus.ppu.dot_count)
            &&& (post.bus.ppu.frame_complete == pre.bus.ppu.frame_complete)
            &&& (post.bus.ppu.scanline == pre.bus.ppu.scanline)
            &&& (post.bus.ppu.cycle == pre.bus.ppu.cycle)
            &&& (post.bus.apu.global_time == pre.bus.apu.global_time)
        },
        Op::PLP => {
            &&& (post.wf())
            &&& (extra == 0)
            &&& ((exists|v: u8| #[trigger] Bus::spec_read_rel( &pre.bus, &post.bus, (0x0100 + ((pre.sptr + 1) % 256)) as u16, v, ) && post.sr == spec_put_flag(v, Flags::U, true)))
            &&& (*post == (CPU6502 { bus: post.bus, sr: post.sr, sptr: ((pre.sptr + 1) % 256) as u8, ..*pre }))
            &&& (post.bus.system_clock == pre.bus.system_clock)
            &&& (post.bus.ppu.dot_count == pre.bus.ppu.dot_count)
            &&& (post.bus.ppu.frame_complete == pre.bus.ppu.frame_complete)
            &&& (post.bus.ppu.scanline == pre.bus.ppu.scanline)
            &&& (post.bus.ppu.cycle == pre.bus.ppu.cycle)
            &&& (post.bus.apu.global_time == pre.bus.apu.global_time)
        },
        Op::ROL => {
            &&& (post.wf())
            &&& (extra == 0)
            &&& (({ let f = post.fetched; let c: int = if spec_flag(pre.sr, Flags::C) { 1 } else { 0 }; let r = ((f * 2 + c) % 256) as u8; let srn = spec_put_flag( spec_put_flag( spec_put_flag(pre.sr, Flags::C, f * 2 + c > 255), Flags::Z, r == 0, ), Flags::N, r & 0x80 > 0, ); if spec_instruction(pre.opcode).mode is IMP { *post == (CPU6502 { a: r, sr: srn, ..*pre }) } else { &&& (exists|mid: Bus| #[trigger] Bus::spec_read_rel( &pre.bus, &mid, pre.addr_absolute, post.fetched, ) && Bus::spec_write_rel( &mid, &post.bus, pre.addr_absolute, r, )) &&& *post == (CPU6502 { bus: post.bus, fetched: post.fetched, sr: srn, ..*pre }) } }))
            &&& (post.bus.system_clock == pre.bus.system_clock)
            &&& (post.bus.ppu.dot_count == pre.bus.ppu.dot_count)
            &&& (post.bus.ppu.frame_complete == pre.bus.ppu.frame_complete)
            &&& (post.bus.ppu.scanline == pre.bus.ppu.scanline)
            &&& (post.bus.ppu.cycle == pre.bus.ppu.cycle)
            &&& (post.bus.apu.global_time == pre.bus.apu.global_time)
        },
        Op::ROR => {
            &&& (post.wf())
            &&& (extra == 0)
            &&& (({ let f = post.fetched; let c: int = if spec_flag(pre.sr, Flags::C) { 1 } else { 0 }; let r = (c * 128 + f / 2) as u8; let srn = spec_put_flag( spec_put_flag( spec_put_flag(pre.sr, Flags::C, f & 0x01 > 0), Flags::Z, r == 0, ), Flags::N, r & 0x80 > 0, ); if spec_instruction(pre.opcode).mode is IMP { *post == (CPU6502 { a: r, sr: srn, ..*pre }) } else { &&& (exists|mid: Bus| #[trigger] Bus::spec_read_rel( &pre.bus, &mid, pre.addr_absolute, post.fetched, ) && Bus::spec_write_rel( &mid, &post.bus, pre.addr_absolute, r, )) &&& *post == (CPU6502 { bus: post.bus, fetched: post.fetched, sr: srn, ..*pre }) } }))
            &&& (post.bus.system_clock == pre.bus.system_clock)
            &&& (post.bus.ppu.dot_count == pre.bus.ppu.dot_count)
            &&& (post.bus.ppu.frame_complete == pre.bus.ppu.frame_complete)
            &&& (post.bus.ppu.scanline == pre.bus.ppu.scanline)
            &&& (post.bus.ppu.cycle == pre.bus.ppu.cycle)
            &&& (post.bus.apu.global_time == pre.bus.apu.global_time)
        },
        Op::RTI => {
            &&& (post.wf())
            &&& (extra == 0)
            &&& ((exists|m1: Bus, m2: Bus, v: u8, pcl: u8, pch: u8| { &&& #[trigger] Bus::spec_read_rel( &pre.bus, &m1, (0x0100 + ((pre.sptr + 1) % 256)) as u16, v, ) &&& #[trigger] Bus::spec_read_rel( &m1, &m2, (0x0100 + ((pre.sptr + 2) % 256)) as u16, pcl, ) &&& #[trigger] Bus::spec_read_rel( &m2, &post.bus, (0x0100 + ((pre.sptr + 3) % 256)) as u16, pch, ) &&& post.sr == ((v & !0x10u8) & !0x20u8) &&& post.pc == ((pcl as u16) | ((pch as u16) << 8)) }))
            &&& (*post == (CPU6502 { bus: post.bus, sr: post.sr, pc: post.pc, sptr: ((pre.sptr + 3) % 256) as u8, ..*pre }))
            &&& (post.bus.system_clock == pre.bus.system_clock)
            &&& (post.bus.ppu.dot_count == pre.bus.ppu.dot_count)
            &&& (post.bus.ppu.frame_complete == pre.bus.ppu.frame_complete)
            &&& (post.bus.ppu.scanline == pre.bus.ppu.scanline)
            &&& (post.bus.ppu.cycle == pre.bus.ppu.cycle)
            &&& (post.bus.apu.global_time == pre.bus.apu.global_time)
        },
        Op::RTS => {
            &&& (post.wf())
            &&& (extra == 0)
            &&& ((exists|m1: Bus, pcl: u8, pch: u8| { &&& #[trigger] Bus::spec_read_rel( &pre.bus, &m1, (0x0100 + ((pre.sptr + 1) % 256)) as u16, pcl, ) &&& #[trigger] Bus::spec_read_rel( &m1, &post.bus, (0x0100 + ((pre.sptr + 2) % 256)) as u16, pch, ) &&& post.pc == ((((pcl as u16) | ((pch as u16) << 8)) as u16 + 1) % 65536) }))
            &&& (*post == (CPU6502 { bus: post.bus, pc: post.pc, sptr: ((pre.sptr + 2) % 256) as u8, ..*pre }))
            &&& (post.bus.system_clock == pre.bus.system_clock)
            &&& (post.bus.ppu.dot_count == pre.bus.ppu.dot_count)
            &&& (post.bus.ppu.frame_complete == pre.bus.ppu.frame_complete)
            &&& (post.bus.ppu.scanline == pre.bus.ppu.scanline)
            &&& (post.bus.ppu.cycle == pre.bus.ppu.cycle)
            &&& (post.bus.apu.global_time == pre.bus.apu.global_time)
        },
        Op::SBC => {
            &&& (post.wf())
            &&& (extra == 1)
            &&& (spec_fetch_rel(pre, post))
            &&& (({ let f = post.fetched; let inv = (f ^ 0xFF) as u8; let c: int = if spec_flag(pre.sr, Flags::C) { 1 } else { 0 }; let sum = pre.a + inv + c; let r = (sum % 256) as u8; *post == (CPU6502 { bus: post.bus, fetched: post.fetched, a: r, sr: spec_put_flag( spec_put_flag( spec_put_flag( spec_put_flag(pre.sr, Flags::C, sum > 255), Flags::Z, r == 0, ), Flags::V, ((r ^ pre.a) & (r ^ inv)) & 0x80 > 0, ), Flags::N, r & 0x80 > 0, ), ..*pre }) }))
            &&& (post.bus.system_clock == pre.bus.system_clock)
            &&& (post.bus.ppu.dot_count == pre.bus.ppu.dot_count)
            &&& (post.bus.ppu.frame_complete == pre.bus.ppu.frame_complete)
            &&& (post.bus.ppu.scanline == pre.bus.ppu.scanline)
            &&& (post.bus.ppu.cycle == pre.bus.ppu.cycle)
            &&& (post.bus.apu.global_time == pre.bus.apu.global_time)
        },
        Op::SEC => {
            &&& (*post == (CPU6502 { sr: spec_put_flag(pre.sr, Flags::C, true), ..*pre }))
            &&& (extra == 0)
            &&& (post.bus.system_clock == pre.bus.system_clock)
            &&& (post.bus.ppu.dot_count == pre.bus.ppu.dot_count)
            &&& (post.bus.ppu.frame_complete == pre.bus.ppu.frame_complete)
            &&& (post.bus.ppu.scanline == pre.bus.ppu.scanline)
            &&& (post.bus.ppu.cycle == pre.bus.ppu.cycle)
            &&& (post.bus.apu.global_time == pre.bus.apu.global_time)
        },
        Op::SED => {
            &&& (*post == (CPU6502 { sr: spec_put_flag(pre.sr, Flags::D, true), ..*pre }))
            &&& (extra == 0)
            &&& (post.bus.system_clock == pre.bus.system_clock)
            &&& (post.bus.ppu.dot_count == pre.bus.ppu.dot_count)
            &&& (post.bus.ppu.frame_complete == pre.bus.ppu.frame_complete)
            &&& (post.bus.ppu.scanline == pre.bus.ppu.scanline)
            &&& (post.bus.ppu.cycle == pre.bus.ppu.cycle)
            &&& (post.bus.apu.global_time == pre.bus.apu.global_time)
        },
        Op::SEI => {
            &&& (*post == (CPU6502 { sr: spec_put_flag(pre.sr, Flags::I, true), ..*pre }))
            &&& (extra == 0)
            &&& (post.bus.system_clock == pre.bus.system_clock)
            &&& (post.bus.ppu.dot_count == pre.bus.ppu.dot_count)
            &&& (post.bus.ppu.frame_complete == pre.bus.ppu.frame_complete)
            &&& (post.bus.ppu.scanline == pre.bus.ppu.scanline)
            &&& (post.bus.ppu.cycle == pre.bus.ppu.cycle)
            &&& (post.bus.apu.global_time == pre.bus.apu.global_time)
        },
        Op::STA => {
            &&& (post.wf())
            &&& (extra == 0)
            &&& (Bus::spec_write_rel( &pre.bus, &post.bus, pre.addr_absolute, pre.a, ))
            &&& (*post == (CPU6502 { bus: post.bus, ..*pre }))
            &&& (post.bus.system_clock == pre.bus.system_clock)
            &&& (post.bus.ppu.dot_count == pre.bus.ppu.dot_count)
            &&& (post.bus.ppu.frame_complete == pre.bus.ppu.frame_complete)
            &&& (post.bus.ppu.scanline == pre.bus.ppu.scanline)
            &&& (post.bus.ppu.cycle == pre.bus.ppu.cycle)
            &&& (post.bus.apu.global_time == pre.bus.apu.global_time)
        },
        Op::STX => {
            &&& (post.wf())
            &&& (extra == 0)
            &&& (Bus::spec_write_rel( &pre.bus, &post.bus, pre.addr_absolute, pre.x, ))
            &&& (*post == (CPU6502 { bus: post.bus, ..*pre }))
            &&& (post.bus.system_clock == pre.bus.system_clock)
            &&& (post.bus.ppu.dot_count == pre.bus.ppu.dot_count)
            &&& (post.bus.ppu.frame_complete == pre.bus.ppu.frame_complete)
            &&& (post.bus.ppu.scanline == pre.bus.ppu.scanline)
            &&& (post.bus.ppu.cycle == pre.bus.ppu.cycle)
            &&& (post.bus.apu.global_time == pre.bus.apu.global_time)
        },
        Op::STY => {
            &&& (post.wf())
            &&& (extra == 0)
            &&& (Bus::spec_write_rel( &pre.bus, &post.bus, pre.addr_absolute, pre.y, ))
            &&& (*post == (CPU6502 { bus: post.bus, ..*pre }))
            &&& (post.bus.system_clock == pre.bus.system_clock)
            &&& (post.bus.ppu.dot_count == pre.bus.ppu.dot_count)
            &&& (post.bus.ppu.frame_complete == pre.bus.ppu.frame_complete)
            &&& (post.bus.ppu.scanline == pre.bus.ppu.scanline)
            &&& (post.bus.ppu.cycle == pre.bus.ppu.cycle)
            &&& (post.bus.apu.global_time == pre.bus.apu.global_time)
        },
        Op::TAX => {
            &&& (*post == (CPU6502 { x: pre.a, sr: spec_put_flag(spec_put_flag(pre.sr, Flags::Z, pre.a == 0), Flags::N, pre.a & 0x80 > 0), ..*pre }))
            &&& (extra == 0)
            &&& (post.bus.system_clock == pre.bus.system_clock)
            &&& (post.bus.ppu.dot_count == pre.bus.ppu.dot_count)
            &&& (post.bus.ppu.frame_complete == pre.bus.ppu.frame_complete)
            &&& (post.bus.ppu.scanline == pre.bus.ppu.scanline)
            &&& (post.bus.ppu.cycle == pre.bus.ppu.cycle)
            &&& (post.bus.apu.global_time == pre.bus.apu.global_time)
        },
        Op::TAY => {
            &&& (*post == (CPU6502 { y: pre.a, sr: spec_put_flag(spec_put_flag(pre.sr, Flags::Z, pre.a == 0), Flags::N, pre.a & 0x80 > 0), ..*pre }))
            &&& (extra == 0)
            &&& (post.bus.system_clock == pre.bus.system_clock)
            &&& (post.bus.ppu.dot_count == pre.bus.ppu.dot_count)
            &&& (post.bus.ppu.frame_complete == pre.bus.ppu.frame_complete)
            &&& (post.bus.ppu.scanline == pre.bus.ppu.scanline)
            &&& (post.bus.ppu.cycle == pre.bus.ppu.cycle)
            &&& (post.bus.apu.global_time == pre.bus.apu.global_time)
        },
        Op::TSX => {
            &&& (*post == (CPU6502 { x: pre.sptr, sr: spec_put_flag(spec_put_flag(pre.sr, Flags::Z, pre.sptr == 0), Flags::N, pre.sptr & 0x80 > 0), ..*pre }))
            &&& (extra == 0)
            &&& (post.bus.system_clock == pre.bus.system_clock)
            &&& (post.bus.ppu.dot_count == pre.bus.ppu.dot_count)
            &&& (post.bus.ppu.frame_complete == pre.bus.ppu.frame_complete)
            &&& (post.bus.ppu.scanline == pre.bus.ppu.scanline)
            &&& (post.bus.ppu.cycle == pre.bus.ppu.cycle)
            &&& (post.bus.apu.global_time == pre.bus.apu.global_time)
        },
        Op::TXA => {
            &&& (*post == (CPU6502 { a: pre.x, sr: spec_put_flag(spec_put_flag(pre.sr, Flags::Z, pre.x == 0), Flags::N, pre.x & 0x80 > 0), ..*pre }))
            &&& (extra == 0)
            &&& (post.bus.system_clock == pre.bus.system_clock)
            &&& (post.bus.ppu.dot_count == pre.bus.ppu.dot_count)
            &&& (post.bus.ppu.frame_complete == pre.bus.ppu.frame_complete)
            &&& (post.bus.ppu.scanline == pre.bus.ppu.scanline)
            &&& (post.bus.ppu.cycle == pre.bus.ppu.cycle)
            &&& (post.bus.apu.global_time == pre.bus.apu.global_time)
        },
        Op::TXS => {
            &&& (*post == (CPU6502 { sptr: pre.x, ..*pre }))
            &&& (extra == 0)
            &&& (post.bus.system_clock == pre.bus.system_clock)
            &&& (post.bus.ppu.dot_count == pre.bus.ppu.dot_count)
            &&& (post.bus.ppu.frame_complete == pre.bus.ppu.frame_complete)
            &&& (post.bus.ppu.scanline == pre.bus.ppu.scanline)
            &&& (post.bus.ppu.cycle == pre.bus.ppu.cycle)
            &&& (post.bus.apu.global_time == pre.bus.apu.global_time)
        },
        Op::TYA => {
            &&& (*post == (CPU6502 { a: pre.y, sr: spec_put_flag(spec_put_flag(pre.sr, Flags::Z, pre.y == 0), Flags::N, pre.y & 0x80 > 0), ..*pre }))
            &&& (extra == 0)
            &&& (post.bus.system_clock == pre.bus.system_clock)
            &&& (post.bus.ppu.dot_count == pre.bus.ppu.dot_count)
            &&& (post.bus.ppu.frame_complete == pre.bus.ppu.frame_complete)
            &&& (post.bus.ppu.scanline == pre.bus.ppu.scanline)
            &&& (post.bus.ppu.cycle == pre.bus.ppu.cycle)
            &&& (post.bus.apu.global_time == pre.bus.apu.global_time)
        },
    }
}

/// How one whole instruction step relates the machine before and after
/// it: the opcode is read at the program counter, the unused flag is
/// set and the table entry's base cycles are charged, the entry's
/// addressing mode and then its operation execute, and the page-cross
/// penalty is paid exactly when both the mode and the operation request
/// it.
#[verifier::opaque]
pub open spec fn spec_step_rel(pre: &CPU6502, post: &CPU6502) -> bool {
    exists|m1: CPU6502, m2: CPU6502, m3: CPU6502, e1: u8, e2: u8|
        {
            &&& #[trigger] Bus::spec_read_rel(&pre.bus, &m1.bus, pre.pc, m1.opcode)
            &&& m1 == (CPU6502 {
                bus: m1.bus,
                opcode: m1.opcode,
                sr: spec_put_flag(pre.sr, Flags::U, true),
                pc: ((pre.pc + 1) % 65536) as u16,
                cycles: spec_instruction(m1.opcode).cycles,
                ..*pre
            })
            &&& #[trigger] spec_mode_rel(spec_instruction(m1.opcode).mode, &m1, &m2, e1)
            &&& #[trigger] spec_op_rel(spec_instruction(m1.opcode).op, &m2, &m3, e2)
            &&& *post == (CPU6502 {
                sr: spec_put_flag(m3.sr, Flags::U, true),
                cycles: ((m3.cycles + (e1 & e2)) % 256) as u8,
                ..m3
            })
        }
}

/// The intermediate machines of one instruction step witness the step
/// relation.
pub proof fn lemma_step_witness(
    pre: CPU6502,
    m1: CPU6502,
    m2: CPU6502,
    m3: CPU6502,
    post: CPU6502,
    e1: u8,
    e2: u8,
)
    requires
        Bus::spec_read_rel(&pre.bus, &m1.bus, pre.pc, m1.opcode),
        m1 == (CPU6502 {
            bus: m1.bus,
            opcode: m1.opcode,
            sr: spec_put_flag(pre.sr, Flags::U, true),
            pc: ((pre.pc + 1) % 65536) as u16,
            cycles: spec_instruction(m1.opcode).cycles,
            ..pre
        }),
        spec_mode_rel(spec_instruction(m1.opcode).mode, &m1, &m2, e1),
        spec_op_rel(spec_instruction(m1.opcode).op, &m2, &m3, e2),
        post == (CPU6502 {
            sr: spec_put_flag(m3.sr, Flags::U, true),
            cycles: ((m3.cycles + (e1 & e2)) % 256) as u8,
            ..m3
        }),
    ensures
        spec_step_rel(&pre, &post),
{
    reveal(spec_step_rel);
}

} // verus!
