//! The operations. Each handler returns 1 where the operation is one that
//! a page crossing in its addressing mode costs a cycle, and 0 otherwise.
use vstd::prelude::*;
use crate::bus::Bus;
use crate::addressing::sign_extend;
use crate::cpu::page;
use crate::cpu::AddressingMode;
use crate::cpu::Machine;
use crate::cpu::StatusFlag;
use crate::cpu::CPU;
use crate::cpu::IRQ_VECTOR;
use crate::fault::Fault;
use crate::opcodes::instruction;
use crate::opcodes::Instruction;
use crate::opcodes::Opcode;

verus! {

impl CPU {
    /// A register loaded into the accumulator, with the zero and negative
    /// flags of the value.
    pub open spec fn loaded_a(self, value: u8) -> CPU {
        CPU { accumulator: value, ..self }.with_zn(value)
    }

    /// A value loaded into X, with the zero and negative flags of the value.
    pub open spec fn loaded_x(self, value: u8) -> CPU {
        CPU { x_register: value, ..self }.with_zn(value)
    }

    /// A value loaded into Y, with the zero and negative flags of the value.
    pub open spec fn loaded_y(self, value: u8) -> CPU {
        CPU { y_register: value, ..self }.with_zn(value)
    }

    /// A register compared with an operand: carry when the register is
    /// not below the operand, zero and negative from their difference.
    #[verifier::opaque]
    pub open spec fn compared(self, register: u8, operand: u8) -> CPU {
        self.with_flag(StatusFlag::C, register >= operand).with_zn(register.wrapping_sub(operand))
    }

    /// The accumulator plus an operand plus the carry. Carry is set when
    /// the sum does not fit in 8 bits; overflow when both addends have the
    /// same sign and the result has the other.
    #[verifier::opaque]
    pub open spec fn added(self, operand: u8) -> CPU {
        let a = self.accumulator;
        let sum = a + operand + self.carry();
        let result = (sum % 0x100) as u8;
        let overflow = (a >= 0x80) == (operand >= 0x80) && (result >= 0x80) != (a >= 0x80);
        CPU {
            accumulator: result,
            ..self.with_flag(StatusFlag::C, sum > 0xFF).with_zn(result).with_flag(
                StatusFlag::V,
                overflow,
            )
        }
    }

    /// The flags of a bit test: zero when the accumulator and the operand
    /// share no bit, negative and overflow from bits 7 and 6 of the operand.
    #[verifier::opaque]
    pub open spec fn bit_tested(self, operand: u8) -> CPU {
        self.with_flag(StatusFlag::Z, self.accumulator & operand == 0).with_flag(
            StatusFlag::N,
            operand >= 0x80,
        ).with_flag(StatusFlag::V, operand & 0x40 != 0)
    }

    /// A conditional branch. Not taken, it changes nothing. Taken, it moves
    /// the program counter by the offset and costs one cycle, and one more
    /// where the target lies in another page.
    #[verifier::opaque]
    pub open spec fn branched(self, taken: bool) -> CPU {
        if taken {
            let target = self.program_counter.wrapping_add(self.addr_rel);
            let cost: int = if page(target) != page(self.program_counter) {
                2
            } else {
                1
            };
            CPU {
                cycles: (self.cycles + cost) as u8,
                addr_abs: target,
                program_counter: target,
                ..self
            }
        } else {
            self
        }
    }

    /// The program counter set to the resolved address.
    pub open spec fn jumped(self) -> CPU {
        CPU { program_counter: self.addr_abs, ..self }
    }
}

/// The result and the carry out of a shift to the left: bit 7 leaves,
/// the carry in enters at bit 0.
pub open spec fn shift_left(value: u8, carry_in: int) -> (u8, bool) {
    (((value * 2 + carry_in) % 0x100) as u8, value >= 0x80)
}

/// The result and the carry out of a shift to the right: bit 0 leaves,
/// the carry in enters at bit 7.
pub open spec fn shift_right(value: u8, carry_in: int) -> (u8, bool) {
    ((value / 2 + 0x80 * carry_in) as u8, value % 2 == 1)
}

impl Machine {
    /// The operand: the accumulator in the implied mode, else the byte at
    /// the resolved address.
    #[verifier::opaque]
    pub open spec fn operand(self) -> (Machine, Result<u8, Fault>) {
        if instruction(self.cpu.opcode).addrmode == AddressingMode::IMP {
            (self, Ok(self.cpu.fetched))
        } else {
            let (m, r) = self.read(self.cpu.addr_abs);
            match r {
                Ok(value) => (m.set(CPU { fetched: value, ..m.cpu }), Ok(value)),
                Err(fault) => (m, Err(fault)),
            }
        }
    }

    /// A byte stored at the resolved address.
    #[verifier::opaque]
    pub open spec fn store(self, value: u8) -> (Machine, Result<u8, Fault>) {
        let (m, r) = self.write(self.cpu.addr_abs, value);
        match r {
            Ok(_) => (m, Ok(0u8)),
            Err(fault) => (m, Err(fault)),
        }
    }

    /// A result put where the operand came from: the accumulator in the
    /// implied mode, else the resolved address.
    #[verifier::opaque]
    pub open spec fn put_back(self, value: u8) -> (Machine, Result<u8, Fault>) {
        if instruction(self.cpu.opcode).addrmode == AddressingMode::IMP {
            (self.set(CPU { accumulator: value, ..self.cpu }), Ok(0u8))
        } else {
            self.store(value)
        }
    }

    /// A shift or rotation: carry, zero and negative are set from the
    /// outcome, which is then put back.
    pub open spec fn shifted(self, left: bool, through_carry: bool) -> (Machine, Result<
        u8,
        Fault,
    >) {
        let (m, r) = self.operand();
        match r {
            Ok(value) => {
                let carry_in = if through_carry {
                    m.cpu.carry()
                } else {
                    0
                };
                let (result, carry) = if left {
                    shift_left(value, carry_in)
                } else {
                    shift_right(value, carry_in)
                };
                m.set(m.cpu.with_flag(StatusFlag::C, carry).with_zn(result)).put_back(result)
            },
            Err(fault) => (m, Err(fault)),
        }
    }

    /// The operand one up or one down, wrapping at 8 bits, stored back;
    /// zero and negative are set from the result.
    pub open spec fn stepped(self, up: bool) -> (Machine, Result<u8, Fault>) {
        let (m, r) = self.operand();
        match r {
            Ok(value) => {
                let result = if up {
                    value.wrapping_add(1)
                } else {
                    value.wrapping_sub(1)
                };
                let (m, r) = m.store(result);
                match r {
                    Ok(_) => (m.set(m.cpu.with_zn(result)), Ok(0u8)),
                    Err(fault) => (m, Err(fault)),
                }
            },
            Err(fault) => (m, Err(fault)),
        }
    }

    /// ADC: add with carry.
    pub open spec fn adc(self) -> (Machine, Result<u8, Fault>) {
        let (m, r) = self.operand();
        match r {
            Ok(value) => (m.set(m.cpu.added(value)), Ok(1u8)),
            Err(fault) => (m, Err(fault)),
        }
    }

    /// SBC: subtract with borrow, which is the addition of the operand's
    /// complement.
    pub open spec fn sbc(self) -> (Machine, Result<u8, Fault>) {
        let (m, r) = self.operand();
        match r {
            Ok(value) => (m.set(m.cpu.added((0xFF - value) as u8)), Ok(1u8)),
            Err(fault) => (m, Err(fault)),
        }
    }

    /// AND: the accumulator and the operand, bit by bit.
    pub open spec fn and(self) -> (Machine, Result<u8, Fault>) {
        let (m, r) = self.operand();
        match r {
            Ok(value) => (m.set(m.cpu.loaded_a(m.cpu.accumulator & value)), Ok(1u8)),
            Err(fault) => (m, Err(fault)),
        }
    }

    /// ORA: the accumulator or the operand, bit by bit.
    pub open spec fn ora(self) -> (Machine, Result<u8, Fault>) {
        let (m, r) = self.operand();
        match r {
            Ok(value) => (m.set(m.cpu.loaded_a(m.cpu.accumulator | value)), Ok(1u8)),
            Err(fault) => (m, Err(fault)),
        }
    }

    /// EOR: the accumulator or else the operand, bit by bit.
    pub open spec fn eor(self) -> (Machine, Result<u8, Fault>) {
        let (m, r) = self.operand();
        match r {
            Ok(value) => (m.set(m.cpu.loaded_a(m.cpu.accumulator ^ value)), Ok(1u8)),
            Err(fault) => (m, Err(fault)),
        }
    }

    /// BIT: the flags of a bit test.
    pub open spec fn bit(self) -> (Machine, Result<u8, Fault>) {
        let (m, r) = self.operand();
        match r {
            Ok(value) => (m.set(m.cpu.bit_tested(value)), Ok(0u8)),
            Err(fault) => (m, Err(fault)),
        }
    }

    /// A register compared with the operand.
    pub open spec fn compare(self, register: u8, extra: u8) -> (Machine, Result<u8, Fault>) {
        let (m, r) = self.operand();
        match r {
            Ok(value) => (m.set(m.cpu.compared(register, value)), Ok(extra)),
            Err(fault) => (m, Err(fault)),
        }
    }

    /// LDA: the operand into the accumulator.
    pub open spec fn lda(self) -> (Machine, Result<u8, Fault>) {
        let (m, r) = self.operand();
        match r {
            Ok(value) => (m.set(m.cpu.loaded_a(value)), Ok(1u8)),
            Err(fault) => (m, Err(fault)),
        }
    }

    /// LDX: the operand into X.
    pub open spec fn ldx(self) -> (Machine, Result<u8, Fault>) {
        let (m, r) = self.operand();
        match r {
            Ok(value) => (m.set(m.cpu.loaded_x(value)), Ok(1u8)),
            Err(fault) => (m, Err(fault)),
        }
    }

    /// LDY: the operand into Y.
    pub open spec fn ldy(self) -> (Machine, Result<u8, Fault>) {
        let (m, r) = self.operand();
        match r {
            Ok(value) => (m.set(m.cpu.loaded_y(value)), Ok(1u8)),
            Err(fault) => (m, Err(fault)),
        }
    }

    /// PHP: the status pushed with break and unused set; both are then
    /// cleared in the register.
    pub open spec fn php(self) -> Machine {
        let m = self.push(self.cpu.status | StatusFlag::B.bit() | StatusFlag::U.bit());
        m.set(m.cpu.with_flag(StatusFlag::B, false).with_flag(StatusFlag::U, false))
    }

    /// PLA: the accumulator pulled.
    pub open spec fn pla(self) -> Machine {
        let (m, value) = self.pull();
        m.set(m.cpu.loaded_a(value))
    }

    /// PLP: the status pulled, with unused set.
    pub open spec fn plp(self) -> Machine {
        let (m, value) = self.pull();
        m.set(CPU { status: value, ..m.cpu }.with_flag(StatusFlag::U, true))
    }

    /// The program counter pulled, low byte first.
    pub open spec fn pull_pc(self) -> Machine {
        let (m, lo) = self.pull();
        let (m, hi) = m.pull();
        m.set(CPU { program_counter: crate::cpu::word(lo, hi), ..m.cpu })
    }

    /// The program counter pushed, high byte first.
    pub open spec fn push_pc(self) -> Machine {
        let pc = self.cpu.program_counter;
        self.push((pc / 256) as u8).push((pc % 256) as u8)
    }

    /// RTI: the status pulled, with break and unused cleared, then the
    /// program counter.
    pub open spec fn rti(self) -> Machine {
        let (m, value) = self.pull();
        m.set(
            CPU { status: value & !StatusFlag::B.bit() & !StatusFlag::U.bit(), ..m.cpu },
        ).pull_pc()
    }

    /// RTS: the program counter pulled and moved one past.
    pub open spec fn rts(self) -> Machine {
        let m = self.pull_pc();
        m.set(CPU { program_counter: m.cpu.program_counter.wrapping_add(1), ..m.cpu })
    }

    /// JSR: the address of the call's last byte pushed, then the jump.
    pub open spec fn jsr(self) -> Machine {
        let m = self.set(
            CPU { program_counter: self.cpu.program_counter.wrapping_sub(1), ..self.cpu },
        ).push_pc();
        m.set(m.cpu.jumped())
    }

    /// BRK: the byte after the opcode is skipped and interrupts are
    /// disabled; the program counter is pushed, then the status with break
    /// set; the program counter is loaded from the interrupt vector.
    pub open spec fn brk(self) -> Machine {
        let m = self.set(
            CPU {
                program_counter: self.cpu.program_counter.wrapping_add(1),
                ..self.cpu
            }.with_flag(StatusFlag::I, true),
        ).push_pc();
        let m = m.set(m.cpu.with_flag(StatusFlag::B, true));
        let m = m.push(m.cpu.status);
        m.set(
            CPU {
                program_counter: m.rom_word(IRQ_VECTOR),
                ..m.cpu.with_flag(StatusFlag::B, false)
            },
        )
    }

    /// An operation that touches the registers alone.
    pub open spec fn registers(self, cpu: CPU) -> (Machine, Result<u8, Fault>) {
        (self.set(cpu), Ok(0u8))
    }

    /// An operation on the stack, which never faults.
    pub open spec fn stacked(self) -> (Machine, Result<u8, Fault>) {
        (self, Ok(0u8))
    }

    /// An operation on the machine as the addressing mode left it.
    pub open spec fn execute(self, operation: Opcode) -> (Machine, Result<u8, Fault>) {
        let cpu = self.cpu;
        match operation {
            Opcode::ADC => self.adc(),
            Opcode::AND => self.and(),
            Opcode::ASL => self.shifted(true, false),
            Opcode::BCC => self.registers(cpu.branched(!cpu.flag(StatusFlag::C))),
            Opcode::BCS => self.registers(cpu.branched(cpu.flag(StatusFlag::C))),
            Opcode::BEQ => self.registers(cpu.branched(cpu.flag(StatusFlag::Z))),
            Opcode::BIT => self.bit(),
            Opcode::BMI => self.registers(cpu.branched(cpu.flag(StatusFlag::N))),
            Opcode::BNE => self.registers(cpu.branched(!cpu.flag(StatusFlag::Z))),
            Opcode::BPL => self.registers(cpu.branched(!cpu.flag(StatusFlag::N))),
            Opcode::BRK => self.brk().stacked(),
            Opcode::BVC => self.registers(cpu.branched(!cpu.flag(StatusFlag::V))),
            Opcode::BVS => self.registers(cpu.branched(cpu.flag(StatusFlag::V))),
            Opcode::CLC => self.registers(cpu.with_flag(StatusFlag::C, false)),
            Opcode::CLD => self.registers(cpu.with_flag(StatusFlag::D, false)),
            Opcode::CLI => self.registers(cpu.with_flag(StatusFlag::I, false)),
            Opcode::CLV => self.registers(cpu.with_flag(StatusFlag::V, false)),
            Opcode::CMP => self.compare(cpu.accumulator, 1),
            Opcode::CPX => self.compare(cpu.x_register, 0),
            Opcode::CPY => self.compare(cpu.y_register, 0),
            Opcode::DEC => self.stepped(false),
            Opcode::DEX => self.registers(cpu.loaded_x(cpu.x_register.wrapping_sub(1))),
            Opcode::DEY => self.registers(cpu.loaded_y(cpu.y_register.wrapping_sub(1))),
            Opcode::EOR => self.eor(),
            Opcode::INC => self.stepped(true),
            Opcode::INX => self.registers(cpu.loaded_x(cpu.x_register.wrapping_add(1))),
            Opcode::INY => self.registers(cpu.loaded_y(cpu.y_register.wrapping_add(1))),
            Opcode::JMP => self.registers(cpu.jumped()),
            Opcode::JSR => self.jsr().stacked(),
            Opcode::LDA => self.lda(),
            Opcode::LDX => self.ldx(),
            Opcode::LDY => self.ldy(),
            Opcode::LSR => self.shifted(false, false),
            Opcode::NOP => self.registers(cpu),
            Opcode::ORA => self.ora(),
            Opcode::PHA => self.push(cpu.accumulator).stacked(),
            Opcode::PHP => self.php().stacked(),
            Opcode::PLA => self.pla().stacked(),
            Opcode::PLP => self.plp().stacked(),
            Opcode::ROL => self.shifted(true, true),
            Opcode::ROR => self.shifted(false, true),
            Opcode::RTI => self.rti().stacked(),
            Opcode::RTS => self.rts().stacked(),
            Opcode::SBC => self.sbc(),
            Opcode::SEC => self.registers(cpu.with_flag(StatusFlag::C, true)),
            Opcode::SED => self.registers(cpu.with_flag(StatusFlag::D, true)),
            Opcode::SEI => self.registers(cpu.with_flag(StatusFlag::I, true)),
            Opcode::STA => self.store(cpu.accumulator),
            Opcode::STX => self.store(cpu.x_register),
            Opcode::STY => self.store(cpu.y_register),
            Opcode::TAX => self.registers(cpu.loaded_x(cpu.accumulator)),
            Opcode::TAY => self.registers(cpu.loaded_y(cpu.accumulator)),
            Opcode::TSX => self.registers(cpu.loaded_x(cpu.stack_pointer)),
            Opcode::TXA => self.registers(cpu.loaded_a(cpu.x_register)),
            Opcode::TXS => self.registers(CPU { stack_pointer: cpu.x_register, ..cpu }),
            Opcode::TYA => self.registers(cpu.loaded_a(cpu.y_register)),
            Opcode::XXX => self.registers(cpu),
        }
    }
}

/// The sign-bit test on the exclusive-or of the addends and of the result
/// tells a signed overflow: the addends agree in sign and the result does
/// not.
proof fn lemma_signed_overflow(a: u8, operand: u8, result: u8)
    by (bit_vector)
    ensures
        ((!(a ^ operand) & (a ^ result)) & 0x80u8 != 0u8) == ((a >= 0x80u8) == (operand
            >= 0x80u8) && (result >= 0x80u8) != (a >= 0x80u8)),
{
}

/// The complement of a byte is its distance from 0xFF.
proof fn lemma_complement(value: u8)
    by (bit_vector)
    ensures
        value ^ 0xFFu8 == 0xFFu8 - value,
{
}

impl CPU {
    /// Fetches the operand.
    pub(crate) fn fetch(&mut self, bus: &mut Bus) -> (r: Result<u8, Fault>)
        ensures
            (final(self).on(final(bus)@), r) == old(self).on(old(bus)@).operand(),
            final(self).cycles == old(self).cycles,
    {
        proof {
            reveal(Machine::operand);
        }
        if Instruction::lookup(self.opcode).addrmode != AddressingMode::IMP {
            self.fetched = bus.mem_read(self.addr_abs)?;
        }
        Ok(self.fetched)
    }

    /// Stores a byte at the resolved address.
    fn store(&mut self, bus: &mut Bus, value: u8) -> (r: Result<u8, Fault>)
        ensures
            (final(self).on(final(bus)@), r) == old(self).on(old(bus)@).store(value),
            *final(self) == *old(self),
            final(self).cycles == old(self).cycles,
    {
        proof {
            reveal(Machine::store);
        }
        bus.mem_write(self.addr_abs, value)?;
        Ok(0)
    }

    /// Puts a result where the operand came from.
    fn put_back(&mut self, bus: &mut Bus, value: u8) -> (r: Result<u8, Fault>)
        ensures
            (final(self).on(final(bus)@), r) == old(self).on(old(bus)@).put_back(value),
            final(self).cycles == old(self).cycles,
    {
        proof {
            reveal(Machine::put_back);
        }
        if Instruction::lookup(self.opcode).addrmode == AddressingMode::IMP {
            self.accumulator = value;
            Ok(0)
        } else {
            self.store(bus, value)
        }
    }

    /// Sets the flags of a shift and puts its result back.
    fn finish_shift(&mut self, bus: &mut Bus, result: u8, carry: bool) -> (r: Result<u8, Fault>)
        ensures
            (final(self).on(final(bus)@), r) == old(self).on(old(bus)@).set(
                old(self).with_flag(StatusFlag::C, carry).with_zn(result),
            ).put_back(result),
            final(self).cycles == old(self).cycles,
    {
        self.set_flag(StatusFlag::C, carry);
        self.set_zn(result);
        self.put_back(bus, result)
    }

    /// Adds an operand and the carry to the accumulator.
    fn add_with_carry(&mut self, operand: u8)
        ensures
            *final(self) == old(self).added(operand),
            final(self).cycles == old(self).cycles,
    {
        proof {
            reveal(CPU::added);
        }
        let a = self.accumulator;
        let carry: u16 = if self.get_flag(StatusFlag::C) {
            1
        } else {
            0
        };
        let sum: u16 = a as u16 + operand as u16 + carry;
        let result: u8 = (sum % 0x100) as u8;
        proof {
            lemma_signed_overflow(a, operand, result);
        }
        self.set_flag(StatusFlag::C, sum > 0xFF);
        self.set_zn(result);
        self.set_flag(StatusFlag::V, ((!(a ^ operand) & (a ^ result)) & 0x80) != 0);
        self.accumulator = result;
    }

    /// Compares a register with the operand.
    fn compare(&mut self, bus: &mut Bus, register: u8, extra: u8) -> (r: Result<u8, Fault>)
        ensures
            (final(self).on(final(bus)@), r) == old(self).on(old(bus)@).compare(register, extra),
            final(self).cycles == old(self).cycles,
    {
        proof {
            reveal(CPU::compared);
        }
        let value = self.fetch(bus)?;
        self.set_flag(StatusFlag::C, register >= value);
        self.set_zn(register.wrapping_sub(value));
        Ok(extra)
    }

    /// Branches if the condition holds.
    fn branch(&mut self, taken: bool) -> (extra: u8)
        requires
            old(self).cycles <= 253,
        ensures
            *final(self) == old(self).branched(taken),
            extra == 0,
            old(self).cycles <= final(self).cycles <= old(self).cycles + 2,
    {
        proof {
            reveal(CPU::branched);
        }
        if taken {
            self.cycles = self.cycles + 1;
            self.addr_abs = self.program_counter.wrapping_add(self.addr_rel);
            if self.addr_abs / 256 != self.program_counter / 256 {
                self.cycles = self.cycles + 1;
            }
            self.program_counter = self.addr_abs;
        }
        0
    }

    /// Pushes the program counter, high byte first.
    fn push_pc(&mut self, bus: &mut Bus)
        ensures
            final(self).on(final(bus)@) == old(self).on(old(bus)@).push_pc(),
            final(self).cycles == old(self).cycles,
    {
        proof {
            reveal(Machine::push);
        }
        self.push(bus, (self.program_counter / 256) as u8);
        self.push(bus, (self.program_counter % 256) as u8);
    }

    /// Pulls the program counter, low byte first.
    fn pull_pc(&mut self, bus: &mut Bus)
        ensures
            final(self).on(final(bus)@) == old(self).on(old(bus)@).pull_pc(),
            final(self).cycles == old(self).cycles,
    {
        let lo = self.pull(bus);
        let hi = self.pull(bus);
        self.program_counter = (hi as u16) * 256 + (lo as u16);
    }

    /// ADC: adds the operand and the carry to the accumulator.
    pub(crate) fn adc(&mut self, bus: &mut Bus) -> (r: Result<u8, Fault>)
        ensures
            (final(self).on(final(bus)@), r) == old(self).on(old(bus)@).adc(),
            final(self).cycles == old(self).cycles,
    {
        let value = self.fetch(bus)?;
        self.add_with_carry(value);
        Ok(1)
    }

    /// SBC: subtracts the operand and the borrow from the accumulator.
    pub(crate) fn sbc(&mut self, bus: &mut Bus) -> (r: Result<u8, Fault>)
        ensures
            (final(self).on(final(bus)@), r) == old(self).on(old(bus)@).sbc(),
            final(self).cycles == old(self).cycles,
    {
        let value = self.fetch(bus)?;
        proof {
            lemma_complement(value);
        }
        self.add_with_carry(value ^ 0xFF);
        Ok(1)
    }

    /// AND: the accumulator and the operand, bit by bit.
    pub(crate) fn and(&mut self, bus: &mut Bus) -> (r: Result<u8, Fault>)
        ensures
            (final(self).on(final(bus)@), r) == old(self).on(old(bus)@).and(),
            final(self).cycles == old(self).cycles,
    {
        let value = self.fetch(bus)?;
        self.accumulator = self.accumulator & value;
        self.set_zn(self.accumulator);
        Ok(1)
    }

    /// ORA: the accumulator or the operand, bit by bit.
    pub(crate) fn ora(&mut self, bus: &mut Bus) -> (r: Result<u8, Fault>)
        ensures
            (final(self).on(final(bus)@), r) == old(self).on(old(bus)@).ora(),
            final(self).cycles == old(self).cycles,
    {
        let value = self.fetch(bus)?;
        self.accumulator = self.accumulator | value;
        self.set_zn(self.accumulator);
        Ok(1)
    }

    /// EOR: the accumulator or else the operand, bit by bit.
    pub(crate) fn eor(&mut self, bus: &mut Bus) -> (r: Result<u8, Fault>)
        ensures
            (final(self).on(final(bus)@), r) == old(self).on(old(bus)@).eor(),
            final(self).cycles == old(self).cycles,
    {
        let value = self.fetch(bus)?;
        self.accumulator = self.accumulator ^ value;
        self.set_zn(self.accumulator);
        Ok(1)
    }

    /// BIT: tests the operand against the accumulator.
    pub(crate) fn bit(&mut self, bus: &mut Bus) -> (r: Result<u8, Fault>)
        ensures
            (final(self).on(final(bus)@), r) == old(self).on(old(bus)@).bit(),
            final(self).cycles == old(self).cycles,
    {
        proof {
            reveal(CPU::bit_tested);
        }
        let value = self.fetch(bus)?;
        self.set_flag(StatusFlag::Z, self.accumulator & value == 0x00);
        self.set_flag(StatusFlag::N, value >= 0x80);
        self.set_flag(StatusFlag::V, value & 0x40 != 0);
        Ok(0)
    }

    /// ASL: shifts the operand left.
    pub(crate) fn asl(&mut self, bus: &mut Bus) -> (r: Result<u8, Fault>)
        ensures
            (final(self).on(final(bus)@), r) == old(self).on(old(bus)@).shifted(true, false),
            final(self).cycles == old(self).cycles,
    {
        let value = self.fetch(bus)?;
        let wide: u16 = (value as u16) * 2;
        self.finish_shift(bus, (wide % 0x100) as u8, wide > 0xFF)
    }

    /// ROL: rotates the operand left through the carry.
    pub(crate) fn rol(&mut self, bus: &mut Bus) -> (r: Result<u8, Fault>)
        ensures
            (final(self).on(final(bus)@), r) == old(self).on(old(bus)@).shifted(true, true),
            final(self).cycles == old(self).cycles,
    {
        let value = self.fetch(bus)?;
        let carry_in: u16 = if self.get_flag(StatusFlag::C) {
            1
        } else {
            0
        };
        let wide: u16 = (value as u16) * 2 + carry_in;
        self.finish_shift(bus, (wide % 0x100) as u8, wide > 0xFF)
    }

    /// LSR: shifts the operand right.
    pub(crate) fn lsr(&mut self, bus: &mut Bus) -> (r: Result<u8, Fault>)
        ensures
            (final(self).on(final(bus)@), r) == old(self).on(old(bus)@).shifted(false, false),
            final(self).cycles == old(self).cycles,
    {
        let value = self.fetch(bus)?;
        self.finish_shift(bus, value / 2, value % 2 == 1)
    }

    /// ROR: rotates the operand right through the carry.
    pub(crate) fn ror(&mut self, bus: &mut Bus) -> (r: Result<u8, Fault>)
        ensures
            (final(self).on(final(bus)@), r) == old(self).on(old(bus)@).shifted(false, true),
            final(self).cycles == old(self).cycles,
    {
        let value = self.fetch(bus)?;
        let carry_in: u8 = if self.get_flag(StatusFlag::C) {
            0x80
        } else {
            0
        };
        self.finish_shift(bus, value / 2 + carry_in, value % 2 == 1)
    }

    /// Moves the operand by one step and stores it back.
    fn step(&mut self, bus: &mut Bus, up: bool) -> (r: Result<u8, Fault>)
        ensures
            (final(self).on(final(bus)@), r) == old(self).on(old(bus)@).stepped(up),
            final(self).cycles == old(self).cycles,
    {
        let value = self.fetch(bus)?;
        let result = if up {
            value.wrapping_add(1)
        } else {
            value.wrapping_sub(1)
        };
        self.store(bus, result)?;
        self.set_zn(result);
        Ok(0)
    }

    /// LDA: loads the accumulator.
    pub(crate) fn lda(&mut self, bus: &mut Bus) -> (r: Result<u8, Fault>)
        ensures
            (final(self).on(final(bus)@), r) == old(self).on(old(bus)@).lda(),
            final(self).cycles == old(self).cycles,
    {
        let value = self.fetch(bus)?;
        self.load_a(value);
        Ok(1)
    }

    /// LDX: loads X.
    pub(crate) fn ldx(&mut self, bus: &mut Bus) -> (r: Result<u8, Fault>)
        ensures
            (final(self).on(final(bus)@), r) == old(self).on(old(bus)@).ldx(),
            final(self).cycles == old(self).cycles,
    {
        let value = self.fetch(bus)?;
        self.load_x(value);
        Ok(1)
    }

    /// LDY: loads Y.
    pub(crate) fn ldy(&mut self, bus: &mut Bus) -> (r: Result<u8, Fault>)
        ensures
            (final(self).on(final(bus)@), r) == old(self).on(old(bus)@).ldy(),
            final(self).cycles == old(self).cycles,
    {
        let value = self.fetch(bus)?;
        self.load_y(value);
        Ok(1)
    }

    /// Loads the accumulator and sets the flags of the value.
    fn load_a(&mut self, value: u8) -> (extra: u8)
        ensures
            *final(self) == old(self).loaded_a(value),
            extra == 0,
            final(self).cycles == old(self).cycles,
    {
        self.accumulator = value;
        self.set_zn(value);
        0
    }

    /// Loads X and sets the flags of the value.
    fn load_x(&mut self, value: u8) -> (extra: u8)
        ensures
            *final(self) == old(self).loaded_x(value),
            extra == 0,
            final(self).cycles == old(self).cycles,
    {
        self.x_register = value;
        self.set_zn(value);
        0
    }

    /// Loads Y and sets the flags of the value.
    fn load_y(&mut self, value: u8) -> (extra: u8)
        ensures
            *final(self) == old(self).loaded_y(value),
            extra == 0,
            final(self).cycles == old(self).cycles,
    {
        self.y_register = value;
        self.set_zn(value);
        0
    }

    /// Sets or clears a flag as an operation of its own.
    fn flag_op(&mut self, flag: StatusFlag, value: bool) -> (extra: u8)
        ensures
            *final(self) == old(self).with_flag(flag, value),
            extra == 0,
            final(self).cycles == old(self).cycles,
    {
        self.set_flag(flag, value);
        0
    }

    /// PHA: pushes the accumulator.
    pub(crate) fn pha(&mut self, bus: &mut Bus) -> (extra: u8)
        ensures
            final(self).on(final(bus)@) == old(self).on(old(bus)@).push(old(self).accumulator),
            extra == 0,
            final(self).cycles == old(self).cycles,
    {
        self.push(bus, self.accumulator);
        0
    }

    /// PHP: pushes the status.
    pub(crate) fn php(&mut self, bus: &mut Bus) -> (extra: u8)
        ensures
            final(self).on(final(bus)@) == old(self).on(old(bus)@).php(),
            extra == 0,
            final(self).cycles == old(self).cycles,
    {
        self.push(bus, self.status | StatusFlag::B.mask() | StatusFlag::U.mask());
        self.set_flag(StatusFlag::B, false);
        self.set_flag(StatusFlag::U, false);
        0
    }

    /// PLA: pulls the accumulator.
    pub(crate) fn pla(&mut self, bus: &mut Bus) -> (extra: u8)
        ensures
            final(self).on(final(bus)@) == old(self).on(old(bus)@).pla(),
            extra == 0,
            final(self).cycles == old(self).cycles,
    {
        let value = self.pull(bus);
        self.load_a(value)
    }

    /// PLP: pulls the status.
    pub(crate) fn plp(&mut self, bus: &mut Bus) -> (extra: u8)
        ensures
            final(self).on(final(bus)@) == old(self).on(old(bus)@).plp(),
            extra == 0,
            final(self).cycles == old(self).cycles,
    {
        self.status = self.pull(bus);
        self.set_flag(StatusFlag::U, true);
        0
    }

    /// RTI: returns from an interrupt.
    pub(crate) fn rti(&mut self, bus: &mut Bus) -> (extra: u8)
        ensures
            final(self).on(final(bus)@) == old(self).on(old(bus)@).rti(),
            extra == 0,
            final(self).cycles == old(self).cycles,
    {
        let value = self.pull(bus);
        self.status = value & !StatusFlag::B.mask() & !StatusFlag::U.mask();
        self.pull_pc(bus);
        0
    }

    /// RTS: returns from a subroutine.
    pub(crate) fn rts(&mut self, bus: &mut Bus) -> (extra: u8)
        ensures
            final(self).on(final(bus)@) == old(self).on(old(bus)@).rts(),
            extra == 0,
            final(self).cycles == old(self).cycles,
    {
        self.pull_pc(bus);
        self.program_counter = self.program_counter.wrapping_add(1);
        0
    }

    /// JSR: calls a subroutine.
    pub(crate) fn jsr(&mut self, bus: &mut Bus) -> (extra: u8)
        ensures
            final(self).on(final(bus)@) == old(self).on(old(bus)@).jsr(),
            extra == 0,
            final(self).cycles == old(self).cycles,
    {
        self.program_counter = self.program_counter.wrapping_sub(1);
        self.push_pc(bus);
        self.program_counter = self.addr_abs;
        0
    }

    /// BRK: forces an interrupt.
    pub(crate) fn brk(&mut self, bus: &mut Bus) -> (extra: u8)
        ensures
            final(self).on(final(bus)@) == old(self).on(old(bus)@).brk(),
            extra == 0,
            final(self).cycles == old(self).cycles,
    {
        self.program_counter = self.program_counter.wrapping_add(1);
        self.set_flag(StatusFlag::I, true);
        self.push_pc(bus);
        self.set_flag(StatusFlag::B, true);
        self.push(bus, self.status);
        self.set_flag(StatusFlag::B, false);
        let lo = bus.read_prg_rom(IRQ_VECTOR);
        let hi = bus.read_prg_rom(IRQ_VECTOR + 1);
        self.program_counter = (hi as u16) * 256 + (lo as u16);
        0
    }

    /// BCS: branches if the carry is set.
    pub(crate) fn bcs(&mut self) -> (extra: u8)
        requires
            old(self).cycles <= 253,
        ensures
            *final(self) == old(self).branched(old(self).flag(StatusFlag::C)),
            extra == 0,
            old(self).cycles <= final(self).cycles <= old(self).cycles + 2,
    {
        self.branch(self.get_flag(StatusFlag::C))
    }

    /// BCC: branches if the carry is clear.
    pub(crate) fn bcc(&mut self) -> (extra: u8)
        requires
            old(self).cycles <= 253,
        ensures
            *final(self) == old(self).branched(!old(self).flag(StatusFlag::C)),
            extra == 0,
            old(self).cycles <= final(self).cycles <= old(self).cycles + 2,
    {
        self.branch(!self.get_flag(StatusFlag::C))
    }

    /// BEQ: branches if the zero flag is set.
    pub(crate) fn beq(&mut self) -> (extra: u8)
        requires
            old(self).cycles <= 253,
        ensures
            *final(self) == old(self).branched(old(self).flag(StatusFlag::Z)),
            extra == 0,
            old(self).cycles <= final(self).cycles <= old(self).cycles + 2,
    {
        self.branch(self.get_flag(StatusFlag::Z))
    }

    /// BNE: branches if the zero flag is clear.
    pub(crate) fn bne(&mut self) -> (extra: u8)
        requires
            old(self).cycles <= 253,
        ensures
            *final(self) == old(self).branched(!old(self).flag(StatusFlag::Z)),
            extra == 0,
            old(self).cycles <= final(self).cycles <= old(self).cycles + 2,
    {
        self.branch(!self.get_flag(StatusFlag::Z))
    }

    /// BMI: branches if the negative flag is set.
    pub(crate) fn bmi(&mut self) -> (extra: u8)
        requires
            old(self).cycles <= 253,
        ensures
            *final(self) == old(self).branched(old(self).flag(StatusFlag::N)),
            extra == 0,
            old(self).cycles <= final(self).cycles <= old(self).cycles + 2,
    {
        self.branch(self.get_flag(StatusFlag::N))
    }

    /// BPL: branches if the negative flag is clear.
    pub(crate) fn bpl(&mut self) -> (extra: u8)
        requires
            old(self).cycles <= 253,
        ensures
            *final(self) == old(self).branched(!old(self).flag(StatusFlag::N)),
            extra == 0,
            old(self).cycles <= final(self).cycles <= old(self).cycles + 2,
    {
        self.branch(!self.get_flag(StatusFlag::N))
    }

    /// BVS: branches if the overflow flag is set.
    pub(crate) fn bvs(&mut self) -> (extra: u8)
        requires
            old(self).cycles <= 253,
        ensures
            *final(self) == old(self).branched(old(self).flag(StatusFlag::V)),
            extra == 0,
            old(self).cycles <= final(self).cycles <= old(self).cycles + 2,
    {
        self.branch(self.get_flag(StatusFlag::V))
    }

    /// BVC: branches if the overflow flag is clear.
    pub(crate) fn bvc(&mut self) -> (extra: u8)
        requires
            old(self).cycles <= 253,
        ensures
            *final(self) == old(self).branched(!old(self).flag(StatusFlag::V)),
            extra == 0,
            old(self).cycles <= final(self).cycles <= old(self).cycles + 2,
    {
        self.branch(!self.get_flag(StatusFlag::V))
    }

    /// CLC: clears the carry.
    pub(crate) fn clc(&mut self) -> (extra: u8)
        ensures
            *final(self) == old(self).with_flag(StatusFlag::C, false),
            extra == 0,
            final(self).cycles == old(self).cycles,
    {
        self.flag_op(StatusFlag::C, false)
    }

    /// CLD: clears the decimal mode.
    pub(crate) fn cld(&mut self) -> (extra: u8)
        ensures
            *final(self) == old(self).with_flag(StatusFlag::D, false),
            extra == 0,
            final(self).cycles == old(self).cycles,
    {
        self.flag_op(StatusFlag::D, false)
    }

    /// CLI: enables interrupts.
    pub(crate) fn cli(&mut self) -> (extra: u8)
        ensures
            *final(self) == old(self).with_flag(StatusFlag::I, false),
            extra == 0,
            final(self).cycles == old(self).cycles,
    {
        self.flag_op(StatusFlag::I, false)
    }

    /// CLV: clears the overflow flag.
    pub(crate) fn clv(&mut self) -> (extra: u8)
        ensures
            *final(self) == old(self).with_flag(StatusFlag::V, false),
            extra == 0,
            final(self).cycles == old(self).cycles,
    {
        self.flag_op(StatusFlag::V, false)
    }

    /// SEC: sets the carry.
    pub(crate) fn sec(&mut self) -> (extra: u8)
        ensures
            *final(self) == old(self).with_flag(StatusFlag::C, true),
            extra == 0,
            final(self).cycles == old(self).cycles,
    {
        self.flag_op(StatusFlag::C, true)
    }

    /// SED: sets the decimal mode.
    pub(crate) fn sed(&mut self) -> (extra: u8)
        ensures
            *final(self) == old(self).with_flag(StatusFlag::D, true),
            extra == 0,
            final(self).cycles == old(self).cycles,
    {
        self.flag_op(StatusFlag::D, true)
    }

    /// SEI: disables interrupts.
    pub(crate) fn sei(&mut self) -> (extra: u8)
        ensures
            *final(self) == old(self).with_flag(StatusFlag::I, true),
            extra == 0,
            final(self).cycles == old(self).cycles,
    {
        self.flag_op(StatusFlag::I, true)
    }

    /// STA: stores the accumulator.
    pub(crate) fn sta(&mut self, bus: &mut Bus) -> (r: Result<u8, Fault>)
        ensures
            (final(self).on(final(bus)@), r) == old(self).on(old(bus)@).store(
                old(self).accumulator,
            ),
            final(self).cycles == old(self).cycles,
    {
        self.store(bus, self.accumulator)
    }

    /// STX: stores X.
    pub(crate) fn stx(&mut self, bus: &mut Bus) -> (r: Result<u8, Fault>)
        ensures
            (final(self).on(final(bus)@), r) == old(self).on(old(bus)@).store(
                old(self).x_register,
            ),
            final(self).cycles == old(self).cycles,
    {
        self.store(bus, self.x_register)
    }

    /// STY: stores Y.
    pub(crate) fn sty(&mut self, bus: &mut Bus) -> (r: Result<u8, Fault>)
        ensures
            (final(self).on(final(bus)@), r) == old(self).on(old(bus)@).store(
                old(self).y_register,
            ),
            final(self).cycles == old(self).cycles,
    {
        self.store(bus, self.y_register)
    }

    /// TAX: copies the accumulator to X.
    pub(crate) fn tax(&mut self) -> (extra: u8)
        ensures
            *final(self) == old(self).loaded_x(old(self).accumulator),
            extra == 0,
            final(self).cycles == old(self).cycles,
    {
        self.load_x(self.accumulator)
    }

    /// TAY: copies the accumulator to Y.
    pub(crate) fn tay(&mut self) -> (extra: u8)
        ensures
            *final(self) == old(self).loaded_y(old(self).accumulator),
            extra == 0,
            final(self).cycles == old(self).cycles,
    {
        self.load_y(self.accumulator)
    }

    /// TSX: copies the stack pointer to X.
    pub(crate) fn tsx(&mut self) -> (extra: u8)
        ensures
            *final(self) == old(self).loaded_x(old(self).stack_pointer),
            extra == 0,
            final(self).cycles == old(self).cycles,
    {
        self.load_x(self.stack_pointer)
    }

    /// TXA: copies X to the accumulator.
    pub(crate) fn txa(&mut self) -> (extra: u8)
        ensures
            *final(self) == old(self).loaded_a(old(self).x_register),
            extra == 0,
            final(self).cycles == old(self).cycles,
    {
        self.load_a(self.x_register)
    }

    /// TXS: copies X to the stack pointer.
    pub(crate) fn txs(&mut self) -> (extra: u8)
        ensures
            *final(self) == (CPU { stack_pointer: old(self).x_register, ..*old(self) }),
            extra == 0,
            final(self).cycles == old(self).cycles,
    {
        self.stack_pointer = self.x_register;
        0
    }

    /// TYA: copies Y to the accumulator.
    pub(crate) fn tya(&mut self) -> (extra: u8)
        ensures
            *final(self) == old(self).loaded_a(old(self).y_register),
            extra == 0,
            final(self).cycles == old(self).cycles,
    {
        self.load_a(self.y_register)
    }

    /// JMP: jumps to the resolved address.
    pub(crate) fn jmp(&mut self) -> (extra: u8)
        ensures
            *final(self) == old(self).jumped(),
            extra == 0,
            final(self).cycles == old(self).cycles,
    {
        self.program_counter = self.addr_abs;
        0
    }

    /// An opcode without an official operation does nothing.
    pub(crate) fn xxx(&mut self) -> (extra: u8)
        ensures
            *final(self) == *old(self),
            extra == 0,
            final(self).cycles == old(self).cycles,
    {
        0
    }

    /// Runs an operation on the machine as the addressing mode left it.
    pub(crate) fn execute(&mut self, bus: &mut Bus, operation: Opcode) -> (r: Result<u8, Fault>)
        requires
            old(self).cycles <= 253,
        ensures
            (final(self).on(final(bus)@), r) == old(self).on(old(bus)@).execute(operation),
            old(self).cycles <= final(self).cycles <= old(self).cycles + 2,
    {
        match operation {
            Opcode::ADC => return self.adc(bus),
            Opcode::AND => return self.and(bus),
            Opcode::ASL => return self.asl(bus),
            Opcode::BCC => return Ok(self.bcc()),
            Opcode::BCS => return Ok(self.bcs()),
            Opcode::BEQ => return Ok(self.beq()),
            Opcode::BIT => return self.bit(bus),
            Opcode::BMI => return Ok(self.bmi()),
            Opcode::BNE => return Ok(self.bne()),
            Opcode::BPL => return Ok(self.bpl()),
            Opcode::BRK => return Ok(self.brk(bus)),
            Opcode::BVC => return Ok(self.bvc()),
            Opcode::BVS => return Ok(self.bvs()),
            Opcode::CLC => return Ok(self.clc()),
            Opcode::CLD => return Ok(self.cld()),
            Opcode::CLI => return Ok(self.cli()),
            Opcode::CLV => return Ok(self.clv()),
            Opcode::CMP => return self.compare(bus, self.accumulator, 1),
            Opcode::CPX => return self.compare(bus, self.x_register, 0),
            Opcode::CPY => return self.compare(bus, self.y_register, 0),
            Opcode::DEC => return self.step(bus, false),
            Opcode::DEX => return Ok(self.load_x(self.x_register.wrapping_sub(1))),
            Opcode::DEY => return Ok(self.load_y(self.y_register.wrapping_sub(1))),
            Opcode::EOR => return self.eor(bus),
            Opcode::INC => return self.step(bus, true),
            Opcode::INX => return Ok(self.load_x(self.x_register.wrapping_add(1))),
            Opcode::INY => return Ok(self.load_y(self.y_register.wrapping_add(1))),
            Opcode::JMP => return Ok(self.jmp()),
            Opcode::JSR => return Ok(self.jsr(bus)),
            Opcode::LDA => return self.lda(bus),
            Opcode::LDX => return self.ldx(bus),
            Opcode::LDY => return self.ldy(bus),
            Opcode::LSR => return self.lsr(bus),
            Opcode::NOP => return Ok(self.xxx()),
            Opcode::ORA => return self.ora(bus),
            Opcode::PHA => return Ok(self.pha(bus)),
            Opcode::PHP => return Ok(self.php(bus)),
            Opcode::PLA => return Ok(self.pla(bus)),
            Opcode::PLP => return Ok(self.plp(bus)),
            Opcode::ROL => return self.rol(bus),
            Opcode::ROR => return self.ror(bus),
            Opcode::RTI => return Ok(self.rti(bus)),
            Opcode::RTS => return Ok(self.rts(bus)),
            Opcode::SBC => return self.sbc(bus),
            Opcode::SEC => return Ok(self.sec()),
            Opcode::SED => return Ok(self.sed()),
            Opcode::SEI => return Ok(self.sei()),
            Opcode::STA => return self.sta(bus),
            Opcode::STX => return self.stx(bus),
            Opcode::STY => return self.sty(bus),
            Opcode::TAX => return Ok(self.tax()),
            Opcode::TAY => return Ok(self.tay()),
            Opcode::TSX => return Ok(self.tsx()),
            Opcode::TXA => return Ok(self.txa()),
            Opcode::TXS => return Ok(self.txs()),
            Opcode::TYA => return Ok(self.tya()),
            Opcode::XXX => return Ok(self.xxx()),
        }
    }
}

/// What a conditional branch costs. Not taken, it costs nothing beyond
/// the base count of its opcode and leaves the registers alone. Taken, it
/// moves the program counter to the target and costs one cycle more when
/// the target lies in the page of the next instruction, two more when it
/// lies in another page.
pub proof fn lemma_branch_timing(cpu: CPU, taken: bool)
    requires
        cpu.cycles <= 253,
    ensures
        !taken ==> cpu.branched(taken) == cpu,
        taken ==> ({
            let target = cpu.program_counter.wrapping_add(cpu.addr_rel);
            &&& cpu.branched(taken).program_counter == target
            &&& cpu.branched(taken).cycles == cpu.cycles + (if page(target) == page(
                cpu.program_counter,
            ) {
                1int
            } else {
                2int
            })
        }),
{
    reveal(CPU::branched);
}

/// The flag and the sense that each of the eight branches tests.
pub open spec fn branch_taken(cpu: CPU, operation: Opcode) -> bool {
    match operation {
        Opcode::BCC => !cpu.flag(StatusFlag::C),
        Opcode::BCS => cpu.flag(StatusFlag::C),
        Opcode::BNE => !cpu.flag(StatusFlag::Z),
        Opcode::BEQ => cpu.flag(StatusFlag::Z),
        Opcode::BPL => !cpu.flag(StatusFlag::N),
        Opcode::BMI => cpu.flag(StatusFlag::N),
        Opcode::BVC => !cpu.flag(StatusFlag::V),
        _ => cpu.flag(StatusFlag::V),
    }
}

/// The eight conditional branches.
pub open spec fn is_branch(operation: Opcode) -> bool {
    operation is BCC || operation is BCS || operation is BNE || operation is BEQ
        || operation is BPL || operation is BMI || operation is BVC || operation is BVS
}

/// Every opcode of a conditional branch takes the relative mode and has a
/// base count of two cycles.
pub proof fn lemma_branch_entries(code: u8)
    requires
        is_branch(instruction(code).operate),
    ensures
        instruction(code).addrmode == AddressingMode::REL,
        instruction(code).cycles == 2,
{
    reveal(instruction);
}

/// The pulse that fetches a conditional branch, with no interrupt pending
/// and no fault on the way: it reads the opcode and the offset, and leaves
/// one cycle less than the branch costs, that is the base count of two if
/// the branch is not taken, one more if it is taken within the page and
/// two more if it is taken into another page.
pub proof fn lemma_branch_pulse(m: Machine, code: u8, offset: u8)
    requires
        m.cpu.cycles == 0,
        !m.bus.ppu.nmi,
        is_branch(instruction(code).operate),
        m.next_byte().1 == Ok::<u8, Fault>(code),
        m.next_byte().0.next_byte().1 == Ok::<u8, Fault>(offset),
    ensures
        m.clock().1 == Ok::<(), Fault>(()),
        ({
            let next = m.cpu.program_counter.wrapping_add(2);
            let target = next.wrapping_add(sign_extend(offset));
            let taken = branch_taken(m.cpu, instruction(code).operate);
            &&& m.clock().0.bus == m.next_byte().0.next_byte().0.bus
            &&& m.clock().0.cpu.program_counter == (if taken {
                target
            } else {
                next
            })
            &&& m.clock().0.cpu.cycles == (if !taken {
                1int
            } else if page(target) == page(next) {
                2int
            } else {
                3int
            })
        }),
{
    lemma_branch_entries(code);
    let operation = instruction(code).operate;
    let taken = branch_taken(m.cpu, operation);
    let m1 = m.next_byte().0;
    let m2 = m1.set(CPU { opcode: code, cycles: 2, ..m1.cpu });
    let m3 = m2.resolve(AddressingMode::REL).0;
    assert(m2.next_byte().1 == Ok::<u8, Fault>(offset) && m2.next_byte().0.bus
        == m1.next_byte().0.bus);
    assert(m2.resolve(AddressingMode::REL).1 == Ok::<u8, Fault>(0u8));
    assert(m3.bus == m1.next_byte().0.bus);
    assert(m3.cpu == CPU {
        program_counter: m.cpu.program_counter.wrapping_add(1).wrapping_add(1),
        addr_rel: sign_extend(offset),
        opcode: code,
        cycles: 2,
        ..m.cpu
    });
    assert(m3.execute(operation) == m3.registers(m3.cpu.branched(taken)));
    lemma_branch_timing(m3.cpu, taken);
    let m4 = m3.set(m3.cpu.branched(taken));
    assert(m.run_instruction() == (m4, Ok::<(), Fault>(())));
    assert(m.clock() == (m4.count_down(), Ok::<(), Fault>(())));
}

} // verus!
