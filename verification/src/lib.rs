//! A cycle-stepped emulator core for the Nintendo Entertainment System:
//! a 6502 CPU, picture and audio processing units, a memory bus with
//! OAM DMA and controller latches, and a cartridge with bank mappers.

pub mod bit_facts;
pub mod mapper;
pub mod mapper_0;
pub mod mapper_1;
pub mod mapper_2;
pub mod cartridge;
pub mod ppu;
pub mod apu;
pub mod bus;
pub mod cpu_6502;
pub mod system;
