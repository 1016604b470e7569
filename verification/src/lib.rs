//! A 6502/NES emulation core: the CPU, its instruction decoding, the
//! cartridge format and memory mappers, the audio channels and the display
//! buffer, each with its behaviour stated and proved.

pub mod instruction;
pub mod memory;
pub mod memory_map;
pub mod bits;
pub mod cpu_semantics;
pub mod cpu6502;
pub mod cpu_laws;
pub mod arithmetic_laws;
pub mod common;
pub mod mapper;
pub mod mappers;
pub mod text;
pub mod cartridge_error;
pub mod ines_header;
pub mod cartridge;
pub mod apu2a03;
pub mod display;
pub mod tester;
pub mod ui;
pub mod frame_limiter;
pub mod save_states;
