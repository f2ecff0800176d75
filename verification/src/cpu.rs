//! The processor: its registers, the status flags, the stack, the
//! interrupt sequences and the clock that runs one instruction after
//! another.
use vstd::prelude::*;
use crate::bus::lemma_ram_and_rom;
use crate::bus::Bus;
use crate::bus::BusState;
use crate::fault::Fault;
use crate::opcodes::instruction;
use crate::opcodes::lemma_table_bounds;
use crate::opcodes::Instruction;

verus! {

/// How an instruction finds its operand.
#[derive(Clone, Copy, PartialEq, Eq, Structural, Debug)]
pub enum AddressingMode {
    /// Implied: the operand, if any, is the accumulator.
    IMP,
    /// Immediate: the operand is the byte after the opcode.
    IMM,
    /// Zero page.
    ZP0,
    /// Zero page, indexed by X.
    ZPX,
    /// Zero page, indexed by Y.
    ZPY,
    /// Relative: a signed offset for a branch.
    REL,
    /// Absolute.
    ABS,
    /// Absolute, indexed by X.
    ABX,
    /// Absolute, indexed by Y.
    ABY,
    /// Indirect.
    IND,
    /// Indexed indirect: the zero-page pointer is indexed by X.
    IZX,
    /// Indirect indexed: the address behind the zero-page pointer is indexed by Y.
    IZY,
}

/// The bits of the status register.
#[derive(Clone, Copy, PartialEq, Eq, Structural, Debug)]
pub enum StatusFlag {
    /// Carry.
    C,
    /// Zero.
    Z,
    /// Interrupt disable.
    I,
    /// Decimal mode.
    D,
    /// Break.
    B,
    /// Unused.
    U,
    /// Overflow.
    V,
    /// Negative.
    N,
}

impl StatusFlag {
    /// The bit of the status register that the flag occupies.
    pub open spec fn bit(self) -> u8 {
        match self {
            StatusFlag::C => 0x01,
            StatusFlag::Z => 0x02,
            StatusFlag::I => 0x04,
            StatusFlag::D => 0x08,
            StatusFlag::B => 0x10,
            StatusFlag::U => 0x20,
            StatusFlag::V => 0x40,
            StatusFlag::N => 0x80,
        }
    }

    /// The flag's bit as a mask.
    pub fn mask(self) -> (m: u8)
        ensures
            m == self.bit(),
    {
        match self {
            StatusFlag::C => 0x01,
            StatusFlag::Z => 0x02,
            StatusFlag::I => 0x04,
            StatusFlag::D => 0x08,
            StatusFlag::B => 0x10,
            StatusFlag::U => 0x20,
            StatusFlag::V => 0x40,
            StatusFlag::N => 0x80,
        }
    }
}

/// First address of the stack page.
pub const STACK_PAGE: u16 = 0x0100;

/// Where the address of the non-maskable interrupt's handler is kept.
pub const NMI_VECTOR: u16 = 0xFFFA;

/// Where the address of the first instruction after a reset is kept.
pub const RESET_VECTOR: u16 = 0xFFFC;

/// Where the address of the maskable interrupt's handler is kept.
pub const IRQ_VECTOR: u16 = 0xFFFE;

/// A 16-bit value from its two bytes.
pub open spec fn word(lo: u8, hi: u8) -> u16 {
    (hi * 256 + lo) as u16
}

/// The 256-byte page of an address.
pub open spec fn page(addr: u16) -> int {
    addr as int / 256
}

/// The registers of the processor and the scratch values that it carries
/// through an instruction.
#[derive(Clone, Copy, PartialEq, Eq, Structural, Debug)]
pub struct CPU {
    pub accumulator: u8,
    pub x_register: u8,
    pub y_register: u8,
    /// Offset of the next free byte in the stack page.
    pub stack_pointer: u8,
    pub program_counter: u16,
    pub status: u8,
    /// The operand of the current instruction.
    pub fetched: u8,
    /// The address that the addressing mode resolved.
    pub addr_abs: u16,
    /// The offset of a branch, sign-extended.
    pub addr_rel: u16,
    /// The opcode of the current instruction.
    pub opcode: u8,
    /// Pulses left until the next instruction is fetched.
    pub cycles: u8,
}

impl CPU {
    /// The registers before the first reset: all zero.
    pub open spec fn zeroed() -> CPU {
        CPU {
            accumulator: 0,
            x_register: 0,
            y_register: 0,
            stack_pointer: 0,
            program_counter: 0,
            status: 0,
            fetched: 0,
            addr_abs: 0,
            addr_rel: 0,
            opcode: 0,
            cycles: 0,
        }
    }

    /// The processor together with a state of the bus.
    pub open spec fn on(self, bus: BusState) -> Machine {
        Machine { cpu: self, bus }
    }

    /// Whether a status flag is set.
    pub open spec fn flag(self, flag: StatusFlag) -> bool {
        self.status & flag.bit() != 0
    }

    /// One status flag set or cleared.
    pub open spec fn with_flag(self, flag: StatusFlag, on: bool) -> CPU {
        CPU {
            status: if on {
                self.status | flag.bit()
            } else {
                self.status & !flag.bit()
            },
            ..self
        }
    }

    /// The zero and negative flags taken from a result byte: zero when the
    /// byte is zero, negative when its bit 7 is set.
    pub open spec fn with_zn(self, value: u8) -> CPU {
        self.with_flag(StatusFlag::Z, value == 0).with_flag(StatusFlag::N, value >= 0x80)
    }

    /// The carry flag as a number.
    pub open spec fn carry(self) -> int {
        if self.flag(StatusFlag::C) {
            1
        } else {
            0
        }
    }
}

/// The processor and the bus: the whole machine that an instruction acts on.
#[verifier::ext_equal]
pub struct Machine {
    pub cpu: CPU,
    pub bus: BusState,
}

impl Machine {
    /// The machine with other registers.
    pub open spec fn set(self, cpu: CPU) -> Machine {
        Machine { cpu, ..self }
    }

    /// A read through the bus.
    pub open spec fn read(self, addr: u16) -> (Machine, Result<u8, Fault>) {
        let (bus, r) = self.bus.read(addr);
        (Machine { bus, ..self }, r)
    }

    /// A write through the bus.
    pub open spec fn write(self, addr: u16, data: u8) -> (Machine, Result<(), Fault>) {
        let (bus, r) = self.bus.write(addr, data);
        (Machine { bus, ..self }, r)
    }

    /// The byte at the program counter, which then advances. A fault
    /// leaves the program counter where it was.
    pub open spec fn next_byte(self) -> (Machine, Result<u8, Fault>) {
        let (m, r) = self.read(self.cpu.program_counter);
        match r {
            Ok(byte) => (
                m.set(CPU { program_counter: m.cpu.program_counter.wrapping_add(1), ..m.cpu }),
                Ok(byte),
            ),
            Err(fault) => (m, Err(fault)),
        }
    }

    /// The little-endian word at the program counter.
    pub open spec fn next_word(self) -> (Machine, Result<u16, Fault>) {
        let (m, lo) = self.next_byte();
        match lo {
            Ok(lo) => {
                let (m, hi) = m.next_byte();
                match hi {
                    Ok(hi) => (m, Ok(word(lo, hi))),
                    Err(fault) => (m, Err(fault)),
                }
            },
            Err(fault) => (m, Err(fault)),
        }
    }

    /// Address of the stack byte under the stack pointer.
    pub open spec fn stack_address(self) -> int {
        STACK_PAGE + self.cpu.stack_pointer
    }

    /// A byte pushed: written under the stack pointer, which then moves
    /// down, wrapping within the stack page.
    #[verifier::opaque]
    pub open spec fn push(self, data: u8) -> Machine {
        Machine {
            cpu: CPU { stack_pointer: self.cpu.stack_pointer.wrapping_sub(1), ..self.cpu },
            bus: BusState { ram: self.bus.ram.update(self.stack_address(), data), ..self.bus },
        }
    }

    /// A byte pulled: the stack pointer moves up, wrapping within the stack
    /// page, and the byte under it is read.
    #[verifier::opaque]
    pub open spec fn pull(self) -> (Machine, u8) {
        let m = self.set(CPU { stack_pointer: self.cpu.stack_pointer.wrapping_add(1), ..self.cpu });
        (m, m.bus.ram[m.stack_address()])
    }

    /// A word in program ROM, low byte first.
    pub open spec fn rom_word(self, addr: u16) -> u16 {
        word(self.bus.prg_byte(addr), self.bus.prg_byte(addr.wrapping_add(1)))
    }

    /// An interrupt sequence: the program counter is pushed, high byte
    /// first; the status is pushed with break cleared, unused set and
    /// interrupts disabled, and stays so; the program counter is loaded
    /// from the vector and the cycle count is fixed.
    pub open spec fn interrupt(self, vector: u16, cycles: u8) -> Machine {
        let pc = self.cpu.program_counter;
        let m = self.push((pc / 256) as u8).push((pc % 256) as u8);
        let cpu = m.cpu.with_flag(StatusFlag::B, false).with_flag(StatusFlag::U, true).with_flag(
            StatusFlag::I,
            true,
        );
        let m = m.set(cpu).push(cpu.status);
        m.set(CPU { addr_abs: vector, program_counter: m.rom_word(vector), cycles, ..m.cpu })
    }

    /// The maskable interrupt: nothing while interrupts are disabled.
    pub open spec fn irq(self) -> Machine {
        if self.cpu.flag(StatusFlag::I) {
            self
        } else {
            self.interrupt(IRQ_VECTOR, 7)
        }
    }

    /// The non-maskable interrupt.
    pub open spec fn nmi(self) -> Machine {
        self.interrupt(NMI_VECTOR, 8)
    }

    /// A reset: the interrupt sequence through the reset vector, after
    /// which the registers are in their power-on state.
    pub open spec fn reset(self) -> Machine {
        let m = self.interrupt(RESET_VECTOR, 8);
        m.set(
            CPU {
                accumulator: 0,
                x_register: 0,
                y_register: 0,
                stack_pointer: 0xFD,
                status: StatusFlag::U.bit(),
                addr_rel: 0,
                addr_abs: 0,
                fetched: 0,
                ..m.cpu
            },
        )
    }

    /// One pulse has passed.
    pub open spec fn count_down(self) -> Machine {
        self.set(CPU { cycles: (self.cpu.cycles - 1) as u8, ..self.cpu })
    }

    /// The instruction at the program counter, from its fetch to the end
    /// of its operation. The cycle count is the table's base count, what
    /// the operation adds to it and one more where both the addressing
    /// mode and the operation say that a page crossing costs a cycle.
    pub open spec fn run_instruction(self) -> (Machine, Result<(), Fault>) {
        let (m, code) = self.next_byte();
        match code {
            Err(fault) => (m, Err(fault)),
            Ok(code) => {
                let entry = instruction(code);
                let m = m.set(CPU { opcode: code, cycles: entry.cycles, ..m.cpu });
                let (m, mode_extra) = m.resolve(entry.addrmode);
                match mode_extra {
                    Err(fault) => (m, Err(fault)),
                    Ok(mode_extra) => {
                        let (m, op_extra) = m.execute(entry.operate);
                        match op_extra {
                            Err(fault) => (m, Err(fault)),
                            Ok(op_extra) => {
                                let extra: int = if mode_extra != 0 && op_extra != 0 {
                                    1
                                } else {
                                    0
                                };
                                (
                                    m.set(
                                        CPU { cycles: (m.cpu.cycles + extra) as u8, ..m.cpu },
                                    ),
                                    Ok(()),
                                )
                            },
                        }
                    },
                }
            },
        }
    }

    /// One pulse. While cycles are left, one is counted down. Otherwise
    /// an instruction boundary is reached: a pending interrupt request of
    /// the video unit is taken and answered, or else the next instruction
    /// runs; the pulse itself is then counted down. A fault ends the pulse
    /// where it arises.
    pub open spec fn clock(self) -> (Machine, Result<(), Fault>) {
        if self.cpu.cycles != 0 {
            (self.count_down(), Ok(()))
        } else if self.bus.ppu.nmi {
            (Machine { bus: self.bus.acknowledge_nmi(), ..self }.nmi().count_down(), Ok(()))
        } else {
            let (m, r) = self.run_instruction();
            match r {
                Ok(_) => (m.count_down(), Ok(())),
                Err(fault) => (m, Err(fault)),
            }
        }
    }
}

impl CPU {
    /// A processor with all registers zero, as before its first reset.
    pub fn new() -> (cpu: CPU)
        ensures
            cpu == CPU::zeroed(),
    {
        CPU {
            accumulator: 0x00,
            x_register: 0x00,
            y_register: 0x00,
            stack_pointer: 0x00,
            program_counter: 0x0000,
            status: 0x00,
            fetched: 0x00,
            addr_abs: 0x0000,
            addr_rel: 0x0000,
            opcode: 0x00,
            cycles: 0x00,
        }
    }

    /// Reads a byte through the bus.
    pub fn read(&self, bus: &mut Bus, addr: u16) -> (r: Result<u8, Fault>)
        ensures
            (self.on(final(bus)@), r) == self.on(old(bus)@).read(addr),
    {
        bus.mem_read(addr)
    }

    /// Writes a byte through the bus.
    pub fn write(&self, bus: &mut Bus, addr: u16, data: u8) -> (r: Result<(), Fault>)
        ensures
            (self.on(final(bus)@), r) == self.on(old(bus)@).write(addr, data),
    {
        bus.mem_write(addr, data)
    }

    /// Sets or clears a status flag.
    pub fn set_flag(&mut self, flag: StatusFlag, value: bool)
        ensures
            *final(self) == old(self).with_flag(flag, value),
    {
        if value {
            self.status = self.status | flag.mask();
        } else {
            self.status = self.status & !flag.mask();
        }
    }

    /// Tests a status flag.
    pub fn get_flag(&self, flag: StatusFlag) -> (set: bool)
        ensures
            set == self.flag(flag),
    {
        (self.status & flag.mask()) != 0
    }

    /// Sets the zero and negative flags from a result byte.
    pub(crate) fn set_zn(&mut self, value: u8)
        ensures
            *final(self) == old(self).with_zn(value),
    {
        self.set_flag(StatusFlag::Z, value == 0x00);
        self.set_flag(StatusFlag::N, value >= 0x80);
    }

    /// Reads the byte at the program counter and advances it.
    pub(crate) fn next_byte(&mut self, bus: &mut Bus) -> (r: Result<u8, Fault>)
        ensures
            (final(self).on(final(bus)@), r) == old(self).on(old(bus)@).next_byte(),
    {
        let byte = bus.mem_read(self.program_counter)?;
        self.program_counter = self.program_counter.wrapping_add(1);
        Ok(byte)
    }

    /// Reads the little-endian word at the program counter and advances it.
    pub(crate) fn next_word(&mut self, bus: &mut Bus) -> (r: Result<u16, Fault>)
        ensures
            (final(self).on(final(bus)@), r) == old(self).on(old(bus)@).next_word(),
    {
        let lo = self.next_byte(bus)?;
        let hi = self.next_byte(bus)?;
        Ok((hi as u16) * 256 + (lo as u16))
    }

    /// Pushes a byte on the stack.
    pub(crate) fn push(&mut self, bus: &mut Bus, data: u8)
        ensures
            final(self).on(final(bus)@) == old(self).on(old(bus)@).push(data),
            final(self).cycles == old(self).cycles,
    {
        proof {
            reveal(Machine::push);
            lemma_ram_and_rom(bus@, (STACK_PAGE + self.stack_pointer) as u16, data);
        }
        let _ = bus.mem_write(STACK_PAGE + self.stack_pointer as u16, data);
        self.stack_pointer = self.stack_pointer.wrapping_sub(1);
    }

    /// Pulls a byte from the stack.
    pub(crate) fn pull(&mut self, bus: &mut Bus) -> (data: u8)
        ensures
            (final(self).on(final(bus)@), data) == old(self).on(old(bus)@).pull(),
            final(self).cycles == old(self).cycles,
    {
        self.stack_pointer = self.stack_pointer.wrapping_add(1);
        proof {
            reveal(Machine::pull);
            lemma_ram_and_rom(bus@, (STACK_PAGE + self.stack_pointer) as u16, 0);
        }
        bus.mem_read(STACK_PAGE + self.stack_pointer as u16).unwrap()
    }

    /// Runs an interrupt sequence through a vector in program ROM.
    fn interrupt(&mut self, bus: &mut Bus, vector: u16, cycles: u8)
        requires
            vector == NMI_VECTOR || vector == RESET_VECTOR || vector == IRQ_VECTOR,
        ensures
            final(self).on(final(bus)@) == old(self).on(old(bus)@).interrupt(vector, cycles),
    {
        proof {
            reveal(Machine::push);
        }
        self.push(bus, (self.program_counter / 256) as u8);
        self.push(bus, (self.program_counter % 256) as u8);
        self.set_flag(StatusFlag::B, false);
        self.set_flag(StatusFlag::U, true);
        self.set_flag(StatusFlag::I, true);
        self.push(bus, self.status);
        self.addr_abs = vector;
        let lo = bus.read_prg_rom(vector);
        let hi = bus.read_prg_rom(vector + 1);
        self.program_counter = (hi as u16) * 256 + (lo as u16);
        self.cycles = cycles;
    }

    /// Requests a maskable interrupt. It is taken unless interrupts are
    /// disabled.
    pub fn irq(&mut self, bus: &mut Bus) -> (extra: u8)
        ensures
            final(self).on(final(bus)@) == old(self).on(old(bus)@).irq(),
            extra == 0,
    {
        if !self.get_flag(StatusFlag::I) {
            self.interrupt(bus, IRQ_VECTOR, 7);
        }
        0
    }

    /// Takes a non-maskable interrupt.
    pub fn nmi(&mut self, bus: &mut Bus) -> (extra: u8)
        ensures
            final(self).on(final(bus)@) == old(self).on(old(bus)@).nmi(),
            extra == 0,
    {
        self.interrupt(bus, NMI_VECTOR, 8);
        0
    }

    /// Resets the processor: the registers take their power-on state and
    /// the program counter the address in the reset vector.
    pub fn reset(&mut self, bus: &mut Bus)
        ensures
            final(self).on(final(bus)@) == old(self).on(old(bus)@).reset(),
            final(self).accumulator == 0,
            final(self).x_register == 0,
            final(self).y_register == 0,
            final(self).stack_pointer == 0xFD,
            final(self).status == StatusFlag::U.bit(),
            final(self).program_counter == word(
                old(bus)@.prg_byte(RESET_VECTOR),
                old(bus)@.prg_byte(0xFFFD),
            ),
            final(self).cycles == 8,
    {
        proof {
            reveal(Machine::push);
        }
        self.interrupt(bus, RESET_VECTOR, 8);
        self.accumulator = 0;
        self.x_register = 0;
        self.y_register = 0;
        self.stack_pointer = 0xFD;
        self.status = StatusFlag::U.mask();
        self.addr_rel = 0x0000;
        self.addr_abs = 0x0000;
        self.fetched = 0x00;
    }

    /// Advances the processor by one pulse.
    pub fn clock(&mut self, bus: &mut Bus) -> (r: Result<(), Fault>)
        ensures
            (final(self).on(final(bus)@), r) == old(self).on(old(bus)@).clock(),
    {
        if self.cycles == 0 {
            if bus.take_nmi() {
                self.nmi(bus);
            } else {
                let code = self.next_byte(bus)?;
                let entry = Instruction::lookup(code);
                proof {
                    lemma_table_bounds(code);
                }
                self.opcode = code;
                self.cycles = entry.cycles;
                let mode_extra = self.resolve(bus, entry.addrmode)?;
                let op_extra = self.execute(bus, entry.operate)?;
                if mode_extra != 0 && op_extra != 0 {
                    self.cycles = self.cycles + 1;
                }
            }
        }
        self.cycles = self.cycles - 1;
        Ok(())
    }
}

/// Setting or clearing bits of a byte, read back through their mask.
proof fn lemma_bit_read_back(status: u8, bit: u8)
    by (bit_vector)
    requires
        bit != 0u8,
    ensures
        (status | bit) & bit != 0u8 && (status & !bit) & bit == 0u8,
{
}

/// Setting or clearing bits of a byte leaves the bits outside them alone.
proof fn lemma_bit_frame(status: u8, bit: u8, other: u8)
    by (bit_vector)
    requires
        bit & other == 0u8,
    ensures
        (status | bit) & other == status & other && (status & !bit) & other == status & other,
{
}

/// No two of the eight flag bits overlap.
proof fn lemma_flag_bits_apart()
    by (bit_vector)
    ensures
        0x01u8 & 0x02u8 == 0u8 && 0x01u8 & 0x04u8 == 0u8 && 0x01u8 & 0x08u8 == 0u8 && 0x01u8
            & 0x10u8 == 0u8 && 0x01u8 & 0x20u8 == 0u8 && 0x01u8 & 0x40u8 == 0u8 && 0x01u8
            & 0x80u8 == 0u8 && 0x02u8 & 0x04u8 == 0u8 && 0x02u8 & 0x08u8 == 0u8 && 0x02u8
            & 0x10u8 == 0u8 && 0x02u8 & 0x20u8 == 0u8 && 0x02u8 & 0x40u8 == 0u8 && 0x02u8
            & 0x80u8 == 0u8 && 0x04u8 & 0x08u8 == 0u8 && 0x04u8 & 0x10u8 == 0u8 && 0x04u8
            & 0x20u8 == 0u8 && 0x04u8 & 0x40u8 == 0u8 && 0x04u8 & 0x80u8 == 0u8 && 0x08u8
            & 0x10u8 == 0u8 && 0x08u8 & 0x20u8 == 0u8 && 0x08u8 & 0x40u8 == 0u8 && 0x08u8
            & 0x80u8 == 0u8 && 0x10u8 & 0x20u8 == 0u8 && 0x10u8 & 0x40u8 == 0u8 && 0x10u8
            & 0x80u8 == 0u8 && 0x20u8 & 0x40u8 == 0u8 && 0x20u8 & 0x80u8 == 0u8 && 0x40u8
            & 0x80u8 == 0u8,
{
}

/// Bit-and does not depend on the order of its operands.
proof fn lemma_and_commutes(a: u8, b: u8)
    by (bit_vector)
    ensures
        a & b == b & a,
{
}

/// A flag that was set or cleared reads back as it was left, and no other
/// flag, nor any register, is touched by it.
pub proof fn lemma_flag_set_and_read(cpu: CPU, flag: StatusFlag, on: bool, other: StatusFlag)
    ensures
        cpu.with_flag(flag, on).flag(flag) == on,
        other != flag ==> cpu.with_flag(flag, on).flag(other) == cpu.flag(other),
        cpu.with_flag(flag, on) == (CPU { status: cpu.with_flag(flag, on).status, ..cpu }),
{
    lemma_flag_bits_apart();
    lemma_bit_read_back(cpu.status, flag.bit());
    if other != flag {
        lemma_and_commutes(flag.bit(), other.bit());
        lemma_bit_frame(cpu.status, flag.bit(), other.bit());
    }
}

/// After a reset the registers are in their power-on state, whatever they
/// were: the accumulator and the index registers are zero, the stack pointer
/// is 0xFD, only the unused flag is set, the program counter holds the
/// address kept in the reset vector and eight cycles are due. The video
/// unit and the cartridge are as they were.
pub proof fn lemma_reset_state(m: Machine)
    ensures
        m.reset().cpu.accumulator == 0,
        m.reset().cpu.x_register == 0,
        m.reset().cpu.y_register == 0,
        m.reset().cpu.stack_pointer == 0xFD,
        m.reset().cpu.status == 0x20,
        m.reset().cpu.program_counter == word(m.bus.prg_byte(0xFFFC), m.bus.prg_byte(0xFFFD)),
        m.reset().cpu.cycles == 8,
        m.reset().bus.ppu == m.bus.ppu,
        m.reset().bus.cartridge == m.bus.cartridge,
{
    reveal(Machine::push);
}

} // verus!
