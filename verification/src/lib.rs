//! Core of an 8-bit console emulator.
//!
//! - [`cartridge`]: images in the iNES container format.
//! - [`ppu`]: the video unit's registers, memory and frame timing.
//! - [`bus`]: the decoding of the 16-bit address space.
//! - [`opcodes`]: the table of the 256 opcode bytes.
//! - [`cpu`], [`addressing`], [`instructions`]: the processor.
//! - [`invariants`]: what no pulse of the processor changes.
//! - [`fault`]: the accesses that the protocol forbids.
//! - [`tiles`]: the graphics ROM as tiles, and the system colours.
//!
//! The processor and the video unit are each advanced one pulse at a time;
//! the caller pulses them at the ratio of the hardware, three pulses of the
//! video unit for each pulse of the processor.
pub mod addressing;
pub mod bus;
pub mod cartridge;
pub mod cpu;
pub mod fault;
pub mod instructions;
pub mod invariants;
pub mod opcodes;
pub mod ppu;
pub mod tiles;
