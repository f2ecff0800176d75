//! The twelve addressing modes. Each resolver leaves the address of the
//! operand in `addr_abs` (the branch offset in `addr_rel`) and returns 1
//! where an index carried into the next page, which costs some operations
//! a cycle, and 0 otherwise.
use vstd::prelude::*;
use crate::bus::Bus;
use crate::cpu::page;
use crate::cpu::word;
use crate::cpu::AddressingMode;
use crate::cpu::Machine;
use crate::cpu::CPU;
use crate::fault::Fault;

verus! {

/// Where the indirect mode reads the high byte of its target: one past
/// the pointer, but at the start of the pointer's own page when the pointer
/// is the last byte of that page.
pub open spec fn indirect_high(pointer: u16) -> u16 {
    if pointer % 256 == 0xFF {
        (pointer - 0xFF) as u16
    } else {
        (pointer + 1) as u16
    }
}

/// A branch offset byte, sign-extended to 16 bits.
pub open spec fn sign_extend(offset: u8) -> u16 {
    if offset >= 0x80 {
        (0xFF00 + offset) as u16
    } else {
        offset as u16
    }
}

impl CPU {
    /// Implied: the accumulator becomes the operand.
    pub open spec fn implied(self) -> CPU {
        CPU { fetched: self.accumulator, ..self }
    }

    /// Immediate: the operand is at the program counter, which advances.
    pub open spec fn immediate(self) -> CPU {
        CPU {
            addr_abs: self.program_counter,
            program_counter: self.program_counter.wrapping_add(1),
            ..self
        }
    }
}

impl Machine {
    /// The machine with a resolved address.
    pub open spec fn at(self, addr: u16) -> Machine {
        self.set(CPU { addr_abs: addr, ..self.cpu })
    }

    /// Implied.
    pub open spec fn imp(self) -> (Machine, Result<u8, Fault>) {
        (self.set(self.cpu.implied()), Ok(0u8))
    }

    /// Immediate.
    pub open spec fn imm(self) -> (Machine, Result<u8, Fault>) {
        (self.set(self.cpu.immediate()), Ok(0u8))
    }

    /// Zero page, with an index that wraps within the page.
    pub open spec fn zero_page(self, index: u8) -> (Machine, Result<u8, Fault>) {
        let (m, r) = self.next_byte();
        match r {
            Ok(base) => (m.at(base.wrapping_add(index) as u16), Ok(0u8)),
            Err(fault) => (m, Err(fault)),
        }
    }

    /// Zero page.
    pub open spec fn zp0(self) -> (Machine, Result<u8, Fault>) {
        self.zero_page(0)
    }

    /// Zero page, indexed by X.
    pub open spec fn zpx(self) -> (Machine, Result<u8, Fault>) {
        self.zero_page(self.cpu.x_register)
    }

    /// Zero page, indexed by Y.
    pub open spec fn zpy(self) -> (Machine, Result<u8, Fault>) {
        self.zero_page(self.cpu.y_register)
    }

    /// Relative: the offset byte, sign-extended.
    pub open spec fn rel(self) -> (Machine, Result<u8, Fault>) {
        let (m, r) = self.next_byte();
        match r {
            Ok(offset) => (m.set(CPU { addr_rel: sign_extend(offset), ..m.cpu }), Ok(0u8)),
            Err(fault) => (m, Err(fault)),
        }
    }

    /// Absolute: the word after the opcode.
    pub open spec fn abs(self) -> (Machine, Result<u8, Fault>) {
        let (m, r) = self.next_word();
        match r {
            Ok(addr) => (m.at(addr), Ok(0u8)),
            Err(fault) => (m, Err(fault)),
        }
    }

    /// Absolute with an index: the word after the opcode plus the index,
    /// with 1 returned where the sum lies in another page than the word.
    pub open spec fn absolute_indexed(self, index: u8) -> (Machine, Result<u8, Fault>) {
        let (m, r) = self.next_word();
        match r {
            Ok(base) => {
                let addr = base.wrapping_add(index as u16);
                (
                    m.at(addr),
                    Ok(
                        if page(addr) != page(base) {
                            1u8
                        } else {
                            0u8
                        },
                    ),
                )
            },
            Err(fault) => (m, Err(fault)),
        }
    }

    /// Absolute, indexed by X.
    pub open spec fn abx(self) -> (Machine, Result<u8, Fault>) {
        self.absolute_indexed(self.cpu.x_register)
    }

    /// Absolute, indexed by Y.
    pub open spec fn aby(self) -> (Machine, Result<u8, Fault>) {
        self.absolute_indexed(self.cpu.y_register)
    }

    /// A word read at two addresses, the high byte first.
    pub open spec fn read_high_low(self, high: u16, low: u16) -> (Machine, Result<u16, Fault>) {
        let (m, hi) = self.read(high);
        match hi {
            Ok(hi) => {
                let (m, lo) = m.read(low);
                match lo {
                    Ok(lo) => (m, Ok(word(lo, hi))),
                    Err(fault) => (m, Err(fault)),
                }
            },
            Err(fault) => (m, Err(fault)),
        }
    }

    /// A word read at two addresses, the low byte first.
    pub open spec fn read_low_high(self, low: u16, high: u16) -> (Machine, Result<u16, Fault>) {
        let (m, lo) = self.read(low);
        match lo {
            Ok(lo) => {
                let (m, hi) = m.read(high);
                match hi {
                    Ok(hi) => (m, Ok(word(lo, hi))),
                    Err(fault) => (m, Err(fault)),
                }
            },
            Err(fault) => (m, Err(fault)),
        }
    }

    /// Indirect: the word behind the pointer after the opcode. The high
    /// byte is read first, and never from the page after the pointer's.
    pub open spec fn ind(self) -> (Machine, Result<u8, Fault>) {
        let (m, r) = self.next_word();
        match r {
            Ok(pointer) => {
                let (m, target) = m.read_high_low(indirect_high(pointer), pointer);
                match target {
                    Ok(addr) => (m.at(addr), Ok(0u8)),
                    Err(fault) => (m, Err(fault)),
                }
            },
            Err(fault) => (m, Err(fault)),
        }
    }

    /// Indexed indirect: the word behind the zero-page pointer that the
    /// byte after the opcode and X add up to, wrapping within the page.
    pub open spec fn izx(self) -> (Machine, Result<u8, Fault>) {
        let (m, r) = self.next_byte();
        match r {
            Ok(base) => {
                let pointer = base.wrapping_add(m.cpu.x_register);
                let (m, target) = m.read_low_high(pointer as u16, pointer.wrapping_add(1) as u16);
                match target {
                    Ok(addr) => (m.at(addr), Ok(0u8)),
                    Err(fault) => (m, Err(fault)),
                }
            },
            Err(fault) => (m, Err(fault)),
        }
    }

    /// Indirect indexed: the word behind the zero-page pointer after the
    /// opcode, plus Y, with 1 returned where the sum lies in another page
    /// than the word.
    pub open spec fn izy(self) -> (Machine, Result<u8, Fault>) {
        let (m, r) = self.next_byte();
        match r {
            Ok(pointer) => {
                let (m, target) = m.read_low_high(pointer as u16, pointer.wrapping_add(1) as u16);
                match target {
                    Ok(base) => {
                        let addr = base.wrapping_add(m.cpu.y_register as u16);
                        (
                            m.at(addr),
                            Ok(
                                if page(addr) != page(base) {
                                    1u8
                                } else {
                                    0u8
                                },
                            ),
                        )
                    },
                    Err(fault) => (m, Err(fault)),
                }
            },
            Err(fault) => (m, Err(fault)),
        }
    }

    /// The operand's address by an addressing mode.
    pub open spec fn resolve(self, mode: AddressingMode) -> (Machine, Result<u8, Fault>) {
        match mode {
            AddressingMode::IMP => self.imp(),
            AddressingMode::IMM => self.imm(),
            AddressingMode::ZP0 => self.zp0(),
            AddressingMode::ZPX => self.zpx(),
            AddressingMode::ZPY => self.zpy(),
            AddressingMode::REL => self.rel(),
            AddressingMode::ABS => self.abs(),
            AddressingMode::ABX => self.abx(),
            AddressingMode::ABY => self.aby(),
            AddressingMode::IND => self.ind(),
            AddressingMode::IZX => self.izx(),
            AddressingMode::IZY => self.izy(),
        }
    }
}

impl CPU {
    /// Implied.
    pub(crate) fn imp(&mut self) -> (extra: u8)
        ensures
            *final(self) == old(self).implied(),
            extra == 0,
    {
        self.fetched = self.accumulator;
        0
    }

    /// Immediate.
    pub(crate) fn imm(&mut self) -> (extra: u8)
        ensures
            *final(self) == old(self).immediate(),
            extra == 0,
    {
        self.addr_abs = self.program_counter;
        self.program_counter = self.program_counter.wrapping_add(1);
        0
    }

    /// Zero page with an index.
    fn zero_page(&mut self, bus: &mut Bus, index: u8) -> (r: Result<u8, Fault>)
        ensures
            (final(self).on(final(bus)@), r) == old(self).on(old(bus)@).zero_page(index),
    {
        let base = self.next_byte(bus)?;
        self.addr_abs = base.wrapping_add(index) as u16;
        Ok(0)
    }

    /// Zero page.
    pub(crate) fn zp0(&mut self, bus: &mut Bus) -> (r: Result<u8, Fault>)
        ensures
            (final(self).on(final(bus)@), r) == old(self).on(old(bus)@).zp0(),
    {
        self.zero_page(bus, 0)
    }

    /// Zero page, indexed by X.
    pub(crate) fn zpx(&mut self, bus: &mut Bus) -> (r: Result<u8, Fault>)
        ensures
            (final(self).on(final(bus)@), r) == old(self).on(old(bus)@).zpx(),
    {
        self.zero_page(bus, self.x_register)
    }

    /// Zero page, indexed by Y.
    pub(crate) fn zpy(&mut self, bus: &mut Bus) -> (r: Result<u8, Fault>)
        ensures
            (final(self).on(final(bus)@), r) == old(self).on(old(bus)@).zpy(),
    {
        self.zero_page(bus, self.y_register)
    }

    /// Relative.
    pub(crate) fn rel(&mut self, bus: &mut Bus) -> (r: Result<u8, Fault>)
        ensures
            (final(self).on(final(bus)@), r) == old(self).on(old(bus)@).rel(),
    {
        let offset = self.next_byte(bus)?;
        self.addr_rel = if offset >= 0x80 {
            0xFF00 + offset as u16
        } else {
            offset as u16
        };
        Ok(0)
    }

    /// Absolute.
    pub(crate) fn abs(&mut self, bus: &mut Bus) -> (r: Result<u8, Fault>)
        ensures
            (final(self).on(final(bus)@), r) == old(self).on(old(bus)@).abs(),
    {
        self.addr_abs = self.next_word(bus)?;
        Ok(0)
    }

    /// Absolute with an index.
    fn absolute_indexed(&mut self, bus: &mut Bus, index: u8) -> (r: Result<u8, Fault>)
        ensures
            (final(self).on(final(bus)@), r) == old(self).on(old(bus)@).absolute_indexed(index),
    {
        let base = self.next_word(bus)?;
        self.addr_abs = base.wrapping_add(index as u16);
        if self.addr_abs / 256 != base / 256 {
            Ok(1)
        } else {
            Ok(0)
        }
    }

    /// Absolute, indexed by X.
    pub(crate) fn abx(&mut self, bus: &mut Bus) -> (r: Result<u8, Fault>)
        ensures
            (final(self).on(final(bus)@), r) == old(self).on(old(bus)@).abx(),
    {
        self.absolute_indexed(bus, self.x_register)
    }

    /// Absolute, indexed by Y.
    pub(crate) fn aby(&mut self, bus: &mut Bus) -> (r: Result<u8, Fault>)
        ensures
            (final(self).on(final(bus)@), r) == old(self).on(old(bus)@).aby(),
    {
        self.absolute_indexed(bus, self.y_register)
    }

    /// Indirect.
    pub(crate) fn ind(&mut self, bus: &mut Bus) -> (r: Result<u8, Fault>)
        ensures
            (final(self).on(final(bus)@), r) == old(self).on(old(bus)@).ind(),
    {
        let pointer = self.next_word(bus)?;
        let high: u16 = if pointer % 256 == 0x00FF {
            pointer - 0x00FF
        } else {
            pointer + 1
        };
        let hi = bus.mem_read(high)?;
        let lo = bus.mem_read(pointer)?;
        self.addr_abs = (hi as u16) * 256 + (lo as u16);
        Ok(0)
    }

    /// Indexed indirect.
    pub(crate) fn izx(&mut self, bus: &mut Bus) -> (r: Result<u8, Fault>)
        ensures
            (final(self).on(final(bus)@), r) == old(self).on(old(bus)@).izx(),
    {
        let base = self.next_byte(bus)?;
        let pointer = base.wrapping_add(self.x_register);
        let lo = bus.mem_read(pointer as u16)?;
        let hi = bus.mem_read(pointer.wrapping_add(1) as u16)?;
        self.addr_abs = (hi as u16) * 256 + (lo as u16);
        Ok(0)
    }

    /// Indirect indexed.
    pub(crate) fn izy(&mut self, bus: &mut Bus) -> (r: Result<u8, Fault>)
        ensures
            (final(self).on(final(bus)@), r) == old(self).on(old(bus)@).izy(),
    {
        let pointer = self.next_byte(bus)?;
        let lo = bus.mem_read(pointer as u16)?;
        let hi = bus.mem_read(pointer.wrapping_add(1) as u16)?;
        let base: u16 = (hi as u16) * 256 + (lo as u16);
        self.addr_abs = base.wrapping_add(self.y_register as u16);
        if self.addr_abs / 256 != base / 256 {
            Ok(1)
        } else {
            Ok(0)
        }
    }

    /// Resolves the operand's address by an addressing mode.
    pub(crate) fn resolve(&mut self, bus: &mut Bus, mode: AddressingMode) -> (r: Result<
        u8,
        Fault,
    >)
        ensures
            (final(self).on(final(bus)@), r) == old(self).on(old(bus)@).resolve(mode),
            final(self).cycles == old(self).cycles,
            final(self).opcode == old(self).opcode,
    {
        match mode {
            AddressingMode::IMP => return Ok(self.imp()),
            AddressingMode::IMM => return Ok(self.imm()),
            AddressingMode::ZP0 => return self.zp0(bus),
            AddressingMode::ZPX => return self.zpx(bus),
            AddressingMode::ZPY => return self.zpy(bus),
            AddressingMode::REL => return self.rel(bus),
            AddressingMode::ABS => return self.abs(bus),
            AddressingMode::ABX => return self.abx(bus),
            AddressingMode::ABY => return self.aby(bus),
            AddressingMode::IND => return self.ind(bus),
            AddressingMode::IZX => return self.izx(bus),
            AddressingMode::IZY => return self.izy(bus),
        }
    }
}

/// The indirect mode never reads its target from two pages. With a
/// pointer that is the last byte of a page, the high byte comes from the
/// first byte of that same page; the low byte always comes from the
/// pointer itself.
pub proof fn lemma_indirect_page_wrap(m: Machine, pointer: u16)
    requires
        m.next_word().1 == Ok::<u16, Fault>(pointer),
    ensures
        page(indirect_high(pointer)) == page(pointer),
        pointer % 256 == 0xFF ==> indirect_high(pointer) == pointer - 0xFF && indirect_high(
            pointer,
        ) % 256 == 0,
        pointer % 256 != 0xFF ==> indirect_high(pointer) == pointer + 1,
        m.ind() == ({
            let after = m.next_word().0;
            let (after, target) = after.read_high_low(indirect_high(pointer), pointer);
            match target {
                Ok(addr) => (after.at(addr), Ok::<u8, Fault>(0u8)),
                Err(fault) => (after, Err::<u8, Fault>(fault)),
            }
        }),
{
}

} // verus!
