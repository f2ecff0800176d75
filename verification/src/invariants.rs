//! What no pulse of the processor changes: the cartridge and the graphics
//! ROM are read-only, and a well-formed bus stays well-formed.
use vstd::prelude::*;
use crate::addressing::indirect_high;
use crate::bus::lemma_access_keeps_rom;
use crate::bus::BusState;
use crate::cpu::AddressingMode;
use crate::cpu::Machine;
use crate::cpu::StatusFlag;
use crate::cpu::CPU;
use crate::instructions::shift_left;
use crate::instructions::shift_right;
use crate::opcodes::instruction;
use crate::opcodes::Opcode;

verus! {

/// The second state of the bus has the ROM of the first, and is
/// well-formed if the first is.
pub open spec fn rom_kept(before: BusState, after: BusState) -> bool {
    &&& after.cartridge == before.cartridge
    &&& after.ppu.chr_rom == before.ppu.chr_rom
    &&& before.wf() ==> after.wf()
}

/// Reads and writes of the processor keep the ROM.
pub proof fn lemma_access(m: Machine, addr: u16, data: u8)
    ensures
        rom_kept(m.bus, m.read(addr).0.bus),
        rom_kept(m.bus, m.write(addr, data).0.bus),
        rom_kept(m.bus, m.next_byte().0.bus),
        rom_kept(m.bus, m.next_word().0.bus),
        rom_kept(m.bus, m.push(data).bus),
        rom_kept(m.bus, m.pull().0.bus),
        rom_kept(m.bus, m.operand().0.bus),
        rom_kept(m.bus, m.store(data).0.bus),
        rom_kept(m.bus, m.put_back(data).0.bus),
{
    reveal(Machine::push);
    reveal(Machine::pull);
    reveal(Machine::operand);
    reveal(Machine::store);
    reveal(Machine::put_back);
    lemma_access_keeps_rom(m.bus, addr, data);
    lemma_access_keeps_rom(m.bus, m.cpu.addr_abs, data);
    lemma_access_keeps_rom(m.bus, m.cpu.program_counter, data);
    let next = m.next_byte().0;
    lemma_access_keeps_rom(next.bus, next.cpu.program_counter, data);
}

/// A word read at two addresses keeps the ROM.
pub proof fn lemma_word_reads(m: Machine, first: u16, second: u16)
    ensures
        rom_kept(m.bus, m.read_high_low(first, second).0.bus),
        rom_kept(m.bus, m.read_low_high(first, second).0.bus),
{
    lemma_access(m, first, 0);
    lemma_access(m.read(first).0, second, 0);
}

/// Every addressing mode keeps the ROM.
pub proof fn lemma_resolve(m: Machine, mode: AddressingMode)
    ensures
        rom_kept(m.bus, m.resolve(mode).0.bus),
{
    lemma_access(m, 0, 0);
    let byte = m.next_byte();
    let word = m.next_word();
    match mode {
        AddressingMode::IND => {
            if word.1 is Ok {
                let pointer = word.1->Ok_0;
                lemma_word_reads(word.0, indirect_high(pointer), pointer);
            }
        },
        AddressingMode::IZX => {
            if byte.1 is Ok {
                let pointer = (byte.1->Ok_0).wrapping_add(byte.0.cpu.x_register);
                lemma_word_reads(byte.0, pointer as u16, pointer.wrapping_add(1) as u16);
            }
        },
        AddressingMode::IZY => {
            if byte.1 is Ok {
                let pointer = byte.1->Ok_0;
                lemma_word_reads(byte.0, pointer as u16, pointer.wrapping_add(1) as u16);
            }
        },
        _ => {},
    }
}

/// An interrupt sequence keeps the ROM.
pub proof fn lemma_interrupt(m: Machine, vector: u16, cycles: u8)
    ensures
        rom_kept(m.bus, m.interrupt(vector, cycles).bus),
        rom_kept(m.bus, m.irq().bus),
        rom_kept(m.bus, m.nmi().bus),
        rom_kept(m.bus, m.reset().bus),
{
    reveal(Machine::push);
}

/// Every operation keeps the ROM.
pub proof fn lemma_execute(m: Machine, operation: Opcode)
    ensures
        rom_kept(m.bus, m.execute(operation).0.bus),
{
    reveal(Machine::push);
    reveal(Machine::pull);
    reveal(Machine::put_back);
    lemma_access(m, 0, 0);
    lemma_access(m, 0, m.cpu.accumulator);
    lemma_access(m, 0, m.cpu.x_register);
    lemma_access(m, 0, m.cpu.y_register);
    let fetched = m.operand();
    if fetched.1 is Ok {
        let value = fetched.1->Ok_0;
        lemma_access(fetched.0, 0, value.wrapping_add(1));
        lemma_access(fetched.0, 0, value.wrapping_sub(1));
        let carry = fetched.0.cpu.carry();
        lemma_shift(fetched.0, shift_left(value, 0).0, shift_left(value, 0).1);
        lemma_shift(fetched.0, shift_left(value, carry).0, shift_left(value, carry).1);
        lemma_shift(fetched.0, shift_right(value, 0).0, shift_right(value, 0).1);
        lemma_shift(fetched.0, shift_right(value, carry).0, shift_right(value, carry).1);
    }
}

/// Putting back the result of a shift keeps the ROM.
proof fn lemma_shift(m: Machine, result: u8, carry: bool)
    ensures
        rom_kept(
            m.bus,
            m.set(m.cpu.with_flag(StatusFlag::C, carry).with_zn(result)).put_back(result).0.bus,
        ),
{
    lemma_access(m.set(m.cpu.with_flag(StatusFlag::C, carry).with_zn(result)), 0, result);
}

/// No pulse of the processor changes the cartridge or the graphics ROM,
/// whether it ends in a fault or not, and a well-formed bus is well-formed
/// after it.
pub proof fn lemma_clock_keeps_rom(m: Machine)
    ensures
        rom_kept(m.bus, m.clock().0.bus),
{
    lemma_interrupt(Machine { bus: m.bus.acknowledge_nmi(), ..m }, 0, 0);
    lemma_access(m, 0, 0);
    let fetched = m.next_byte();
    if fetched.1 is Ok {
        let code = fetched.1->Ok_0;
        let entry = instruction(code);
        let m1 = fetched.0.set(CPU { opcode: code, cycles: entry.cycles, ..fetched.0.cpu });
        lemma_resolve(m1, entry.addrmode);
        let m2 = m1.resolve(entry.addrmode).0;
        lemma_execute(m2, entry.operate);
    }
}

} // verus!
