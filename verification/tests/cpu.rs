use runes::bus::Bus;
use runes::cartridge::Cartridge;
use runes::cpu::{StatusFlag, CPU};
use runes::fault::Fault;

const C: u8 = 0x01;
const Z: u8 = 0x02;
const I: u8 = 0x04;
const B: u8 = 0x10;
const U: u8 = 0x20;
const V: u8 = 0x40;
const N: u8 = 0x80;

/// A machine whose 32KB program ROM holds `program` at 0x8000 and the
/// given blocks elsewhere. The vectors: NMI 0xA000, reset 0x8000, IRQ 0x9000.
fn machine_with(program: &[u8], blocks: &[(u16, &[u8])]) -> (CPU, Bus) {
    let mut prg = vec![0xEAu8; 0x8000];
    prg[..program.len()].copy_from_slice(program);
    prg[0x7FFA] = 0x00;
    prg[0x7FFB] = 0xA0;
    prg[0x7FFC] = 0x00;
    prg[0x7FFD] = 0x80;
    prg[0x7FFE] = 0x00;
    prg[0x7FFF] = 0x90;
    for (addr, bytes) in blocks {
        let start = (*addr - 0x8000) as usize;
        prg[start..start + bytes.len()].copy_from_slice(bytes);
    }
    let mut data = vec![0x4E, 0x45, 0x53, 0x1A, 2, 1, 0, 0];
    data.extend_from_slice(&[0u8; 8]);
    data.extend_from_slice(&prg);
    data.extend_from_slice(&[0u8; 8192]);
    let mut bus = Bus::new(Cartridge::new(&data).unwrap());
    let mut cpu = CPU::new();
    cpu.reset(&mut bus);
    cpu.cycles = 0;
    (cpu, bus)
}

fn machine(program: &[u8]) -> (CPU, Bus) {
    machine_with(program, &[])
}

/// Runs one instruction and returns the number of pulses it took.
fn step(cpu: &mut CPU, bus: &mut Bus) -> u32 {
    let mut pulses = 0;
    loop {
        cpu.clock(bus).unwrap();
        pulses += 1;
        if cpu.cycles == 0 {
            return pulses;
        }
    }
}

fn run(cpu: &mut CPU, bus: &mut Bus, instructions: usize) {
    for _ in 0..instructions {
        step(cpu, bus);
    }
}

#[test]
fn new_processor_is_zeroed() {
    let cpu = CPU::new();
    assert_eq!(
        cpu,
        CPU {
            accumulator: 0,
            x_register: 0,
            y_register: 0,
            stack_pointer: 0,
            program_counter: 0,
            status: 0,
            fetched: 0,
            addr_abs: 0,
            addr_rel: 0,
            opcode: 0,
            cycles: 0,
        }
    );
}

#[test]
fn status_flag_masks() {
    assert_eq!(StatusFlag::C.mask(), 0x01);
    assert_eq!(StatusFlag::Z.mask(), 0x02);
    assert_eq!(StatusFlag::I.mask(), 0x04);
    assert_eq!(StatusFlag::D.mask(), 0x08);
    assert_eq!(StatusFlag::B.mask(), 0x10);
    assert_eq!(StatusFlag::U.mask(), 0x20);
    assert_eq!(StatusFlag::V.mask(), 0x40);
    assert_eq!(StatusFlag::N.mask(), 0x80);
}

#[test]
fn set_and_get_flag() {
    let mut cpu = CPU::new();
    cpu.set_flag(StatusFlag::V, true);
    cpu.set_flag(StatusFlag::C, true);
    assert_eq!(cpu.status, 0x41);
    assert!(cpu.get_flag(StatusFlag::V));
    assert!(cpu.get_flag(StatusFlag::C));
    assert!(!cpu.get_flag(StatusFlag::Z));
    cpu.set_flag(StatusFlag::V, false);
    assert_eq!(cpu.status, 0x01);
    assert!(!cpu.get_flag(StatusFlag::V));
    cpu.set_flag(StatusFlag::N, false);
    assert_eq!(cpu.status, 0x01);
}

#[test]
fn reset_state() {
    let (_, mut bus) = machine(&[]);
    let mut cpu = CPU {
        accumulator: 1,
        x_register: 2,
        y_register: 3,
        stack_pointer: 0x10,
        program_counter: 0x1234,
        status: 0xC3,
        fetched: 4,
        addr_abs: 5,
        addr_rel: 6,
        opcode: 7,
        cycles: 9,
    };
    cpu.reset(&mut bus);
    assert_eq!(cpu.accumulator, 0);
    assert_eq!(cpu.x_register, 0);
    assert_eq!(cpu.y_register, 0);
    assert_eq!(cpu.stack_pointer, 0xFD);
    assert_eq!(cpu.status, U);
    assert_eq!(cpu.program_counter, 0x8000);
    assert_eq!(cpu.cycles, 8);
    assert_eq!(cpu.fetched, 0);
    assert_eq!(cpu.addr_abs, 0);
    assert_eq!(cpu.addr_rel, 0);
    assert_eq!(cpu.opcode, 7);
}

#[test]
fn reset_reads_the_vector_low_byte_first() {
    let (_, mut bus) = machine_with(&[], &[(0xFFFC, &[0xCD, 0xAB])]);
    let mut cpu = CPU::new();
    cpu.reset(&mut bus);
    assert_eq!(cpu.program_counter, 0xABCD);
}

#[test]
fn reset_runs_the_interrupt_sequence_on_the_stack() {
    let (_, mut bus) = machine(&[]);
    let mut cpu = CPU::new();
    cpu.program_counter = 0x1234;
    cpu.stack_pointer = 0x80;
    cpu.status = C | B;
    cpu.reset(&mut bus);
    assert_eq!(bus.ram()[0x0180], 0x12);
    assert_eq!(bus.ram()[0x017F], 0x34);
    assert_eq!(bus.ram()[0x017E], C | U | I);
    assert_eq!(cpu.stack_pointer, 0xFD);
}

#[test]
fn reset_takes_eight_pulses_before_the_first_fetch() {
    let (_, mut bus) = machine(&[0xA9, 0x42]);
    let mut cpu = CPU::new();
    cpu.reset(&mut bus);
    for left in (0..8).rev() {
        assert_eq!(cpu.program_counter, 0x8000);
        cpu.clock(&mut bus).unwrap();
        assert_eq!(cpu.cycles, left);
    }
    assert_eq!(cpu.accumulator, 0);
    cpu.clock(&mut bus).unwrap();
    assert_eq!(cpu.accumulator, 0x42);
    assert_eq!(cpu.cycles, 1);
}

#[test]
fn read_and_write_go_through_the_bus() {
    let (cpu, mut bus) = machine(&[0x11, 0x22]);
    assert_eq!(cpu.write(&mut bus, 0x0801, 0x33), Ok(()));
    assert_eq!(cpu.read(&mut bus, 0x0001), Ok(0x33));
    assert_eq!(cpu.read(&mut bus, 0x8001), Ok(0x22));
    assert_eq!(cpu.read(&mut bus, 0x2000), Err(Fault::WriteOnlyRead { addr: 0x2000 }));
    assert_eq!(cpu.write(&mut bus, 0x8001, 0), Err(Fault::RomWrite { addr: 0x8001 }));
}

#[test]
fn lda_immediate_sets_zero_and_negative() {
    let (mut cpu, mut bus) = machine(&[0xA9, 0x42, 0xA9, 0x00, 0xA9, 0x80]);
    assert_eq!(step(&mut cpu, &mut bus), 2);
    assert_eq!(cpu.accumulator, 0x42);
    assert_eq!(cpu.status, U);
    assert_eq!(cpu.program_counter, 0x8002);
    assert_eq!(cpu.opcode, 0xA9);
    assert_eq!(cpu.addr_abs, 0x8001);
    assert_eq!(cpu.fetched, 0x42);
    assert_eq!(step(&mut cpu, &mut bus), 2);
    assert_eq!(cpu.accumulator, 0x00);
    assert_eq!(cpu.status, U | Z);
    assert_eq!(step(&mut cpu, &mut bus), 2);
    assert_eq!(cpu.accumulator, 0x80);
    assert_eq!(cpu.status, U | N);
}

#[test]
fn every_pulse_counts_down() {
    let (mut cpu, mut bus) = machine(&[0xAD, 0x00, 0x80]);
    cpu.clock(&mut bus).unwrap();
    assert_eq!(cpu.cycles, 3);
    assert_eq!(cpu.accumulator, 0xAD);
    assert_eq!(cpu.program_counter, 0x8003);
    for left in [2, 1, 0] {
        cpu.clock(&mut bus).unwrap();
        assert_eq!(cpu.cycles, left);
        assert_eq!(cpu.program_counter, 0x8003);
    }
}

#[test]
fn zero_page_modes() {
    let (mut cpu, mut bus) = machine(&[
        0xA2, 0xFF, // LDX #$FF
        0xA0, 0x02, // LDY #$02
        0xA5, 0x10, // LDA $10
        0xB5, 0x80, // LDA $80,X -> $7F
        0xB6, 0xFF, // LDX $FF,Y -> $01
    ]);
    bus.mem_write(0x0010, 0x11).unwrap();
    bus.mem_write(0x007F, 0x22).unwrap();
    bus.mem_write(0x0001, 0x33).unwrap();
    bus.mem_write(0x017F, 0x44).unwrap();
    run(&mut cpu, &mut bus, 2);
    assert_eq!(step(&mut cpu, &mut bus), 3);
    assert_eq!(cpu.accumulator, 0x11);
    assert_eq!(cpu.addr_abs, 0x0010);
    assert_eq!(step(&mut cpu, &mut bus), 4);
    assert_eq!(cpu.accumulator, 0x22);
    assert_eq!(cpu.addr_abs, 0x007F);
    assert_eq!(step(&mut cpu, &mut bus), 4);
    assert_eq!(cpu.x_register, 0x33);
    assert_eq!(cpu.addr_abs, 0x0001);
}

#[test]
fn absolute_indexed_costs_a_cycle_on_a_page_crossing() {
    let (mut cpu, mut bus) = machine_with(
        &[
            0xA2, 0x01, // LDX #$01
            0xBD, 0x00, 0x90, // LDA $9000,X
            0xA2, 0xFF, // LDX #$FF
            0xBD, 0x02, 0x90, // LDA $9002,X -> $9101
            0xA0, 0xFF, // LDY #$FF
            0xB9, 0x02, 0x90, // LDA $9002,Y -> $9101
            0xBE, 0x00, 0x90, // LDX $9000,Y -> $90FF
        ],
        &[(0x9001, &[0x5A]), (0x9101, &[0x6B]), (0x90FF, &[0x7C])],
    );
    step(&mut cpu, &mut bus);
    assert_eq!(step(&mut cpu, &mut bus), 4);
    assert_eq!(cpu.accumulator, 0x5A);
    step(&mut cpu, &mut bus);
    assert_eq!(step(&mut cpu, &mut bus), 5);
    assert_eq!(cpu.accumulator, 0x6B);
    assert_eq!(cpu.addr_abs, 0x9101);
    step(&mut cpu, &mut bus);
    assert_eq!(step(&mut cpu, &mut bus), 5);
    assert_eq!(cpu.accumulator, 0x6B);
    assert_eq!(step(&mut cpu, &mut bus), 4);
    assert_eq!(cpu.x_register, 0x7C);
}

#[test]
fn absolute_indexed_wraps_at_16_bits() {
    let (mut cpu, mut bus) = machine(&[
        0xA2, 0x02, // LDX #$02
        0xBD, 0xFF, 0xFF, // LDA $FFFF,X -> $0001
    ]);
    bus.mem_write(0x0001, 0x99).unwrap();
    step(&mut cpu, &mut bus);
    assert_eq!(step(&mut cpu, &mut bus), 5);
    assert_eq!(cpu.addr_abs, 0x0001);
    assert_eq!(cpu.accumulator, 0x99);
}

#[test]
fn a_store_pays_no_cycle_for_a_page_crossing() {
    let (mut cpu, mut bus) = machine(&[
        0xA9, 0x77, // LDA #$77
        0xA2, 0xFF, // LDX #$FF
        0x9D, 0xFF, 0x00, // STA $00FF,X -> $01FE
        0x9D, 0x00, 0x02, // STA $0200,X -> $02FF
    ]);
    run(&mut cpu, &mut bus, 2);
    assert_eq!(step(&mut cpu, &mut bus), 5);
    assert_eq!(bus.ram()[0x01FE], 0x77);
    assert_eq!(step(&mut cpu, &mut bus), 5);
    assert_eq!(bus.ram()[0x02FF], 0x77);
}

#[test]
fn indirect_jump_wraps_within_the_page() {
    let (mut cpu, mut bus) = machine(&[0x6C, 0xFF, 0x02]);
    bus.mem_write(0x02FF, 0x34).unwrap();
    bus.mem_write(0x0200, 0x12).unwrap();
    bus.mem_write(0x0300, 0x56).unwrap();
    assert_eq!(step(&mut cpu, &mut bus), 5);
    assert_eq!(cpu.program_counter, 0x1234);
    assert_eq!(cpu.addr_abs, 0x1234);
}

#[test]
fn indirect_jump_reads_the_next_byte_elsewhere() {
    let (mut cpu, mut bus) = machine(&[0x6C, 0xFE, 0x02]);
    bus.mem_write(0x02FE, 0x34).unwrap();
    bus.mem_write(0x02FF, 0x12).unwrap();
    bus.mem_write(0x0200, 0x56).unwrap();
    assert_eq!(step(&mut cpu, &mut bus), 5);
    assert_eq!(cpu.program_counter, 0x1234);
}

#[test]
fn indexed_indirect_wraps_in_the_zero_page() {
    let (mut cpu, mut bus) = machine(&[
        0xA2, 0x05, // LDX #$05
        0xA1, 0xFA, // LDA ($FA,X) -> pointer at $FF, $00
        0xA1, 0x10, // LDA ($10,X) -> pointer at $15, $16
    ]);
    bus.mem_write(0x00FF, 0x21).unwrap();
    bus.mem_write(0x0000, 0x03).unwrap();
    bus.mem_write(0x0100, 0x04).unwrap();
    bus.mem_write(0x0321, 0xAB).unwrap();
    bus.mem_write(0x0015, 0x22).unwrap();
    bus.mem_write(0x0016, 0x03).unwrap();
    bus.mem_write(0x0322, 0xCD).unwrap();
    step(&mut cpu, &mut bus);
    assert_eq!(step(&mut cpu, &mut bus), 6);
    assert_eq!(cpu.addr_abs, 0x0321);
    assert_eq!(cpu.accumulator, 0xAB);
    assert_eq!(step(&mut cpu, &mut bus), 6);
    assert_eq!(cpu.accumulator, 0xCD);
}

#[test]
fn indirect_indexed_costs_a_cycle_on_a_page_crossing() {
    let (mut cpu, mut bus) = machine(&[
        0xA0, 0x10, // LDY #$10
        0xB1, 0x20, // LDA ($20),Y -> $0300 + $10
        0xB1, 0x22, // LDA ($22),Y -> $03F8 + $10 = $0408
        0xB1, 0xFF, // LDA ($FF),Y -> pointer at $FF, $00
    ]);
    bus.mem_write(0x0020, 0x00).unwrap();
    bus.mem_write(0x0021, 0x03).unwrap();
    bus.mem_write(0x0022, 0xF8).unwrap();
    bus.mem_write(0x0023, 0x03).unwrap();
    bus.mem_write(0x0310, 0x11).unwrap();
    bus.mem_write(0x0408, 0x22).unwrap();
    bus.mem_write(0x00FF, 0x40).unwrap();
    bus.mem_write(0x0000, 0x05).unwrap();
    bus.mem_write(0x0100, 0x06).unwrap();
    bus.mem_write(0x0550, 0x33).unwrap();
    step(&mut cpu, &mut bus);
    assert_eq!(step(&mut cpu, &mut bus), 5);
    assert_eq!(cpu.accumulator, 0x11);
    assert_eq!(step(&mut cpu, &mut bus), 6);
    assert_eq!(cpu.accumulator, 0x22);
    assert_eq!(cpu.addr_abs, 0x0408);
    assert_eq!(step(&mut cpu, &mut bus), 5);
    assert_eq!(cpu.accumulator, 0x33);
}

#[test]
fn branch_not_taken_costs_the_base_count() {
    let (mut cpu, mut bus) = machine(&[0xB0, 0x10]); // BCS +16, carry clear
    assert_eq!(step(&mut cpu, &mut bus), 2);
    assert_eq!(cpu.program_counter, 0x8002);
    assert_eq!(cpu.addr_rel, 0x0010);
}

#[test]
fn branch_taken_within_the_page_costs_one_more() {
    let (mut cpu, mut bus) = machine(&[0x90, 0x10]); // BCC +16, carry clear
    assert_eq!(step(&mut cpu, &mut bus), 3);
    assert_eq!(cpu.program_counter, 0x8012);
    assert_eq!(cpu.addr_abs, 0x8012);
}

#[test]
fn branch_taken_across_a_page_costs_two_more() {
    let (mut cpu, mut bus) =
        machine_with(&[0x4C, 0xFD, 0x80], &[(0x80FD, &[0x90, 0x05])]); // JMP $80FD; BCC +5
    assert_eq!(step(&mut cpu, &mut bus), 3);
    assert_eq!(cpu.program_counter, 0x80FD);
    assert_eq!(step(&mut cpu, &mut bus), 4);
    assert_eq!(cpu.program_counter, 0x8104);
}

#[test]
fn branch_backwards() {
    let (mut cpu, mut bus) = machine(&[0xEA, 0xEA, 0x90, 0xFC]); // NOP NOP BCC -4
    run(&mut cpu, &mut bus, 2);
    assert_eq!(step(&mut cpu, &mut bus), 3);
    assert_eq!(cpu.addr_rel, 0xFFFC);
    assert_eq!(cpu.program_counter, 0x8000);
    let (mut cpu, mut bus) = machine(&[0x90, 0x80]); // BCC -128 from $8002 -> $7F82
    assert_eq!(step(&mut cpu, &mut bus), 4);
    assert_eq!(cpu.program_counter, 0x7F82);
}

#[test]
fn each_branch_tests_its_flag() {
    // (opcode, status for which the branch is taken)
    let cases: [(u8, u8, bool); 16] = [
        (0x90, 0, true),
        (0x90, C, false),
        (0xB0, C, true),
        (0xB0, 0, false),
        (0xF0, Z, true),
        (0xF0, 0, false),
        (0xD0, 0, true),
        (0xD0, Z, false),
        (0x30, N, true),
        (0x30, 0, false),
        (0x10, 0, true),
        (0x10, N, false),
        (0x70, V, true),
        (0x70, 0, false),
        (0x50, 0, true),
        (0x50, V, false),
    ];
    for (opcode, status, taken) in cases {
        let (mut cpu, mut bus) = machine(&[opcode, 0x20]);
        cpu.status = status;
        let pulses = step(&mut cpu, &mut bus);
        if taken {
            assert_eq!((cpu.program_counter, pulses), (0x8022, 3), "{:#04X}", opcode);
        } else {
            assert_eq!((cpu.program_counter, pulses), (0x8002, 2), "{:#04X}", opcode);
        }
        assert_eq!(cpu.status, status);
    }
}

#[test]
fn adc_carry_and_overflow() {
    // (a, operand, carry in, result, flags)
    let cases: [(u8, u8, bool, u8, u8); 8] = [
        (0x50, 0x10, false, 0x60, 0),
        (0x50, 0x50, false, 0xA0, V | N),
        (0x50, 0x90, false, 0xE0, N),
        (0x50, 0xD0, false, 0x20, C),
        (0xD0, 0x90, false, 0x60, C | V),
        (0xFF, 0x01, false, 0x00, C | Z),
        (0xFF, 0x00, true, 0x00, C | Z),
        (0x7F, 0x00, true, 0x80, V | N),
    ];
    for (a, operand, carry, result, flags) in cases {
        let (mut cpu, mut bus) = machine(&[0x69, operand]);
        cpu.accumulator = a;
        cpu.status = if carry { C } else { 0 };
        assert_eq!(step(&mut cpu, &mut bus), 2);
        assert_eq!(cpu.accumulator, result, "{:#04X} + {:#04X}", a, operand);
        assert_eq!(cpu.status, flags, "{:#04X} + {:#04X}", a, operand);
    }
}

#[test]
fn sbc_borrow_and_overflow() {
    // (a, operand, carry in, result, flags)
    let cases: [(u8, u8, bool, u8, u8); 7] = [
        (0x50, 0xF0, true, 0x60, 0),
        (0x50, 0xB0, true, 0xA0, V | N),
        (0x50, 0x70, true, 0xE0, N),
        (0x50, 0x30, true, 0x20, C),
        (0xD0, 0x70, true, 0x60, C | V),
        (0x50, 0x50, true, 0x00, C | Z),
        (0x50, 0x4F, false, 0x00, C | Z),
    ];
    for (a, operand, carry, result, flags) in cases {
        let (mut cpu, mut bus) = machine(&[0xE9, operand]);
        cpu.accumulator = a;
        cpu.status = if carry { C } else { 0 };
        assert_eq!(step(&mut cpu, &mut bus), 2);
        assert_eq!(cpu.accumulator, result, "{:#04X} - {:#04X}", a, operand);
        assert_eq!(cpu.status, flags, "{:#04X} - {:#04X}", a, operand);
    }
}

#[test]
fn logic_operations() {
    let (mut cpu, mut bus) = machine(&[
        0xA9, 0xF0, // LDA #$F0
        0x29, 0x3C, // AND #$3C -> $30
        0x09, 0x81, // ORA #$81 -> $B1
        0x49, 0xB1, // EOR #$B1 -> $00
    ]);
    step(&mut cpu, &mut bus);
    assert_eq!(step(&mut cpu, &mut bus), 2);
    assert_eq!((cpu.accumulator, cpu.status), (0x30, U));
    assert_eq!(step(&mut cpu, &mut bus), 2);
    assert_eq!((cpu.accumulator, cpu.status), (0xB1, U | N));
    assert_eq!(step(&mut cpu, &mut bus), 2);
    assert_eq!((cpu.accumulator, cpu.status), (0x00, U | Z));
}

#[test]
fn logic_operations_pay_for_a_page_crossing() {
    for opcode in [0x3D, 0x1D, 0x5D, 0x7D, 0xFD, 0xDD, 0xBC] {
        let (mut cpu, mut bus) = machine(&[0xA2, 0xFF, opcode, 0x80, 0x02]);
        step(&mut cpu, &mut bus);
        assert_eq!(step(&mut cpu, &mut bus), 5, "{:#04X}", opcode);
        let (mut cpu, mut bus) = machine(&[0xA2, 0x01, opcode, 0x80, 0x02]);
        step(&mut cpu, &mut bus);
        assert_eq!(step(&mut cpu, &mut bus), 4, "{:#04X}", opcode);
    }
}

#[test]
fn bit_test() {
    let (mut cpu, mut bus) = machine(&[0x24, 0x10, 0x24, 0x11, 0x2C, 0x12, 0x00]);
    bus.mem_write(0x0010, 0xC0).unwrap();
    bus.mem_write(0x0011, 0x01).unwrap();
    bus.mem_write(0x0012, 0x40).unwrap();
    cpu.accumulator = 0x01;
    assert_eq!(step(&mut cpu, &mut bus), 3);
    assert_eq!(cpu.status, U | Z | N | V);
    assert_eq!(cpu.accumulator, 0x01);
    assert_eq!(step(&mut cpu, &mut bus), 3);
    assert_eq!(cpu.status, U);
    cpu.accumulator = 0xFF;
    assert_eq!(step(&mut cpu, &mut bus), 4);
    assert_eq!(cpu.status, U | V);
}

#[test]
fn compare_operations() {
    let (mut cpu, mut bus) = machine(&[
        0xC9, 0x40, // CMP #$40
        0xC9, 0x41, // CMP #$41
        0xC9, 0x3F, // CMP #$3F
        0xE0, 0x10, // CPX #$10
        0xC0, 0x90, // CPY #$90
    ]);
    cpu.accumulator = 0x40;
    cpu.x_register = 0x20;
    cpu.y_register = 0x10;
    assert_eq!(step(&mut cpu, &mut bus), 2);
    assert_eq!(cpu.status, U | C | Z);
    step(&mut cpu, &mut bus);
    assert_eq!(cpu.status, U | N);
    step(&mut cpu, &mut bus);
    assert_eq!(cpu.status, U | C);
    step(&mut cpu, &mut bus);
    assert_eq!(cpu.status, U | C);
    step(&mut cpu, &mut bus);
    assert_eq!(cpu.status, U | N);
    assert_eq!((cpu.accumulator, cpu.x_register, cpu.y_register), (0x40, 0x20, 0x10));
}

#[test]
fn only_the_accumulator_compare_pays_for_a_page_crossing() {
    let (mut cpu, mut bus) = machine(&[0xA2, 0xFF, 0xDD, 0x80, 0x02]); // CMP $0280,X
    step(&mut cpu, &mut bus);
    assert_eq!(step(&mut cpu, &mut bus), 5);
}

#[test]
fn shifts_on_the_accumulator() {
    let (mut cpu, mut bus) = machine(&[0x0A, 0x4A, 0x2A, 0x6A, 0x6A]);
    cpu.accumulator = 0x81;
    assert_eq!(step(&mut cpu, &mut bus), 2); // ASL
    assert_eq!((cpu.accumulator, cpu.status), (0x02, U | C));
    assert_eq!(step(&mut cpu, &mut bus), 2); // LSR
    assert_eq!((cpu.accumulator, cpu.status), (0x01, U));
    cpu.accumulator = 0x80;
    cpu.status = U | C;
    assert_eq!(step(&mut cpu, &mut bus), 2); // ROL
    assert_eq!((cpu.accumulator, cpu.status), (0x01, U | C));
    assert_eq!(step(&mut cpu, &mut bus), 2); // ROR
    assert_eq!((cpu.accumulator, cpu.status), (0x80, U | C | N));
    assert_eq!(step(&mut cpu, &mut bus), 2); // ROR
    assert_eq!((cpu.accumulator, cpu.status), (0xC0, U | N));
}

#[test]
fn shifts_on_memory() {
    let (mut cpu, mut bus) = machine(&[
        0x06, 0x10, // ASL $10
        0x46, 0x10, // LSR $10
        0x2E, 0x00, 0x03, // ROL $0300
        0x7E, 0x00, 0x03, // ROR $0300,X
    ]);
    bus.mem_write(0x0010, 0xC1).unwrap();
    bus.mem_write(0x0300, 0x01).unwrap();
    cpu.accumulator = 0x55;
    assert_eq!(step(&mut cpu, &mut bus), 5);
    assert_eq!((bus.ram()[0x10], cpu.status), (0x82, U | C | N));
    assert_eq!(step(&mut cpu, &mut bus), 5);
    assert_eq!((bus.ram()[0x10], cpu.status), (0x41, U));
    cpu.status = U | C;
    assert_eq!(step(&mut cpu, &mut bus), 6);
    assert_eq!((bus.ram()[0x300], cpu.status), (0x03, U));
    assert_eq!(step(&mut cpu, &mut bus), 7);
    assert_eq!((bus.ram()[0x300], cpu.status), (0x01, U | C));
    assert_eq!(cpu.accumulator, 0x55);
}

#[test]
fn shift_to_zero_sets_zero() {
    let (mut cpu, mut bus) = machine(&[0x0A, 0x4A]);
    cpu.accumulator = 0x80;
    step(&mut cpu, &mut bus);
    assert_eq!((cpu.accumulator, cpu.status), (0x00, U | C | Z));
    cpu.accumulator = 0x01;
    step(&mut cpu, &mut bus);
    assert_eq!((cpu.accumulator, cpu.status), (0x00, U | C | Z));
}

#[test]
fn increments_and_decrements() {
    let (mut cpu, mut bus) = machine(&[
        0xE6, 0x10, // INC $10
        0xC6, 0x11, // DEC $11
        0xE8, // INX
        0xC8, // INY
        0xCA, // DEX
        0x88, // DEY
        0xEE, 0x00, 0x02, // INC $0200
        0xDE, 0x00, 0x02, // DEC $0200,X
    ]);
    bus.mem_write(0x0010, 0xFF).unwrap();
    bus.mem_write(0x0011, 0x00).unwrap();
    cpu.x_register = 0xFF;
    cpu.y_register = 0x7F;
    assert_eq!(step(&mut cpu, &mut bus), 5);
    assert_eq!((bus.ram()[0x10], cpu.status), (0x00, U | Z));
    assert_eq!(step(&mut cpu, &mut bus), 5);
    assert_eq!((bus.ram()[0x11], cpu.status), (0xFF, U | N));
    assert_eq!(step(&mut cpu, &mut bus), 2);
    assert_eq!((cpu.x_register, cpu.status), (0x00, U | Z));
    assert_eq!(step(&mut cpu, &mut bus), 2);
    assert_eq!((cpu.y_register, cpu.status), (0x80, U | N));
    assert_eq!(step(&mut cpu, &mut bus), 2);
    assert_eq!((cpu.x_register, cpu.status), (0xFF, U | N));
    assert_eq!(step(&mut cpu, &mut bus), 2);
    assert_eq!((cpu.y_register, cpu.status), (0x7F, U));
    cpu.x_register = 0;
    assert_eq!(step(&mut cpu, &mut bus), 6);
    assert_eq!(bus.ram()[0x200], 0x01);
    assert_eq!(step(&mut cpu, &mut bus), 7);
    assert_eq!((bus.ram()[0x200], cpu.status), (0x00, U | Z));
}

#[test]
fn loads_and_stores() {
    let (mut cpu, mut bus) = machine(&[
        0xA2, 0x11, // LDX #$11
        0xA0, 0x80, // LDY #$80
        0xA9, 0x00, // LDA #$00
        0x85, 0x20, // STA $20
        0x86, 0x21, // STX $21
        0x84, 0x22, // STY $22
        0x8D, 0x00, 0x07, // STA $0700
        0x96, 0x00, // STX $00,Y -> $80
        0x94, 0x00, // STY $00,X -> $11
    ]);
    bus.mem_write(0x0020, 0xFF).unwrap();
    bus.mem_write(0x0700, 0xFF).unwrap();
    run(&mut cpu, &mut bus, 3);
    assert_eq!(cpu.status, U | Z);
    assert_eq!(step(&mut cpu, &mut bus), 3);
    assert_eq!(step(&mut cpu, &mut bus), 3);
    assert_eq!(step(&mut cpu, &mut bus), 3);
    assert_eq!(step(&mut cpu, &mut bus), 4);
    assert_eq!(step(&mut cpu, &mut bus), 4);
    assert_eq!(step(&mut cpu, &mut bus), 4);
    assert_eq!(bus.ram()[0x20], 0x00);
    assert_eq!(bus.ram()[0x21], 0x11);
    assert_eq!(bus.ram()[0x22], 0x80);
    assert_eq!(bus.ram()[0x700], 0x00);
    assert_eq!(bus.ram()[0x80], 0x11);
    assert_eq!(bus.ram()[0x11], 0x80);
    assert_eq!(cpu.status, U | Z);
}

#[test]
fn transfers() {
    let (mut cpu, mut bus) = machine(&[0xAA, 0xA8, 0xBA, 0x8A, 0x9A, 0x98]);
    cpu.accumulator = 0x80;
    assert_eq!(step(&mut cpu, &mut bus), 2); // TAX
    assert_eq!((cpu.x_register, cpu.status), (0x80, U | N));
    cpu.accumulator = 0x00;
    assert_eq!(step(&mut cpu, &mut bus), 2); // TAY
    assert_eq!((cpu.y_register, cpu.status), (0x00, U | Z));
    assert_eq!(step(&mut cpu, &mut bus), 2); // TSX
    assert_eq!((cpu.x_register, cpu.status), (0xFD, U | N));
    cpu.x_register = 0x12;
    assert_eq!(step(&mut cpu, &mut bus), 2); // TXA
    assert_eq!((cpu.accumulator, cpu.status), (0x12, U));
    cpu.x_register = 0x00;
    assert_eq!(step(&mut cpu, &mut bus), 2); // TXS
    assert_eq!((cpu.stack_pointer, cpu.status), (0x00, U));
    cpu.y_register = 0xFF;
    assert_eq!(step(&mut cpu, &mut bus), 2); // TYA
    assert_eq!((cpu.accumulator, cpu.status), (0xFF, U | N));
}

#[test]
fn flag_operations() {
    let (mut cpu, mut bus) = machine(&[0x38, 0xF8, 0x78, 0x18, 0xD8, 0x58, 0xB8]);
    cpu.status = V;
    assert_eq!(step(&mut cpu, &mut bus), 2);
    assert_eq!(cpu.status, V | C);
    step(&mut cpu, &mut bus);
    assert_eq!(cpu.status, V | C | 0x08);
    step(&mut cpu, &mut bus);
    assert_eq!(cpu.status, V | C | 0x08 | I);
    step(&mut cpu, &mut bus);
    assert_eq!(cpu.status, V | 0x08 | I);
    step(&mut cpu, &mut bus);
    assert_eq!(cpu.status, V | I);
    step(&mut cpu, &mut bus);
    assert_eq!(cpu.status, V);
    assert_eq!(step(&mut cpu, &mut bus), 2);
    assert_eq!(cpu.status, 0);
}

#[test]
fn push_and_pull_wrap_within_the_stack_page() {
    let (mut cpu, mut bus) = machine(&[0x48, 0x48, 0x68, 0x68]);
    cpu.accumulator = 0x77;
    cpu.stack_pointer = 0x00;
    assert_eq!(step(&mut cpu, &mut bus), 3);
    assert_eq!(bus.ram()[0x0100], 0x77);
    assert_eq!(cpu.stack_pointer, 0xFF);
    cpu.accumulator = 0x00;
    step(&mut cpu, &mut bus);
    assert_eq!(bus.ram()[0x01FF], 0x00);
    assert_eq!(cpu.stack_pointer, 0xFE);
    cpu.accumulator = 0x55;
    assert_eq!(step(&mut cpu, &mut bus), 4);
    assert_eq!((cpu.accumulator, cpu.stack_pointer, cpu.status), (0x00, 0xFF, U | Z));
    assert_eq!(step(&mut cpu, &mut bus), 4);
    assert_eq!((cpu.accumulator, cpu.stack_pointer, cpu.status), (0x77, 0x00, U));
}

#[test]
fn push_and_pull_status() {
    let (mut cpu, mut bus) = machine(&[0x08, 0x28]);
    cpu.status = C | N;
    assert_eq!(step(&mut cpu, &mut bus), 3);
    assert_eq!(bus.ram()[0x01FD], C | N | B | U);
    assert_eq!(cpu.status, C | N);
    assert_eq!(cpu.stack_pointer, 0xFC);
    bus.mem_write(0x01FD, Z | B).unwrap();
    assert_eq!(step(&mut cpu, &mut bus), 4);
    assert_eq!(cpu.status, Z | B | U);
    assert_eq!(cpu.stack_pointer, 0xFD);
}

#[test]
fn subroutine_call_and_return() {
    let (mut cpu, mut bus) =
        machine_with(&[0x20, 0x10, 0x80, 0xA9, 0x01], &[(0x8010, &[0x60])]);
    assert_eq!(step(&mut cpu, &mut bus), 6);
    assert_eq!(cpu.program_counter, 0x8010);
    assert_eq!(bus.ram()[0x01FD], 0x80);
    assert_eq!(bus.ram()[0x01FC], 0x02);
    assert_eq!(cpu.stack_pointer, 0xFB);
    assert_eq!(step(&mut cpu, &mut bus), 6);
    assert_eq!(cpu.program_counter, 0x8003);
    assert_eq!(cpu.stack_pointer, 0xFD);
    step(&mut cpu, &mut bus);
    assert_eq!(cpu.accumulator, 0x01);
}

#[test]
fn jump_absolute() {
    let (mut cpu, mut bus) = machine(&[0x4C, 0x34, 0x12]);
    assert_eq!(step(&mut cpu, &mut bus), 3);
    assert_eq!(cpu.program_counter, 0x1234);
}

#[test]
fn break_and_return_from_interrupt() {
    let (mut cpu, mut bus) = machine_with(&[0x00, 0xFF, 0xA9, 0x05], &[(0x9000, &[0x40])]);
    cpu.status = U | C;
    assert_eq!(step(&mut cpu, &mut bus), 7);
    assert_eq!(cpu.program_counter, 0x9000);
    assert_eq!(bus.ram()[0x01FD], 0x80);
    assert_eq!(bus.ram()[0x01FC], 0x02);
    assert_eq!(bus.ram()[0x01FB], U | C | I | B);
    assert_eq!(cpu.status, U | C | I);
    assert_eq!(cpu.stack_pointer, 0xFA);
    assert_eq!(step(&mut cpu, &mut bus), 6);
    assert_eq!(cpu.program_counter, 0x8002);
    assert_eq!(cpu.status, C | I);
    assert_eq!(cpu.stack_pointer, 0xFD);
    step(&mut cpu, &mut bus);
    assert_eq!(cpu.accumulator, 0x05);
}

#[test]
fn irq_is_taken_when_interrupts_are_enabled() {
    let (mut cpu, mut bus) = machine(&[]);
    cpu.program_counter = 0x1234;
    cpu.status = C | B;
    assert_eq!(cpu.irq(&mut bus), 0);
    assert_eq!(cpu.program_counter, 0x9000);
    assert_eq!(cpu.cycles, 7);
    assert_eq!(cpu.status, C | U | I);
    assert_eq!(cpu.stack_pointer, 0xFA);
    assert_eq!(bus.ram()[0x01FD], 0x12);
    assert_eq!(bus.ram()[0x01FC], 0x34);
    assert_eq!(bus.ram()[0x01FB], C | U | I);
    assert_eq!(cpu.addr_abs, 0xFFFE);
}

#[test]
fn irq_is_suppressed_while_interrupts_are_disabled() {
    let (mut cpu, mut bus) = machine(&[]);
    cpu.program_counter = 0x1234;
    cpu.status = I | C;
    let before = cpu;
    assert_eq!(cpu.irq(&mut bus), 0);
    assert_eq!(cpu, before);
    assert!(bus.ram().iter().skip(0x100).take(0xFD).all(|b| *b == 0));
}

#[test]
fn nmi_is_taken_even_while_interrupts_are_disabled() {
    let (mut cpu, mut bus) = machine(&[]);
    cpu.program_counter = 0xBEEF;
    cpu.status = I | N;
    assert_eq!(cpu.nmi(&mut bus), 0);
    assert_eq!(cpu.program_counter, 0xA000);
    assert_eq!(cpu.cycles, 8);
    assert_eq!(cpu.status, I | N | U);
    assert_eq!(bus.ram()[0x01FD], 0xBE);
    assert_eq!(bus.ram()[0x01FC], 0xEF);
    assert_eq!(bus.ram()[0x01FB], I | N | U);
    assert_eq!(cpu.stack_pointer, 0xFA);
    assert_eq!(cpu.addr_abs, 0xFFFA);
}

#[test]
fn the_video_interrupt_is_answered_at_the_next_instruction_boundary() {
    let (mut cpu, mut bus) = machine_with(&[0xAD, 0x00, 0x80, 0xA9, 0x01], &[(0xA000, &[0xA9, 0x07])]);
    bus.mem_write(0x2000, 0x80).unwrap();
    for _ in 0..(241u32 * 341 + 1) {
        bus.clock_ppu();
    }
    cpu.clock(&mut bus).unwrap();
    assert_eq!(cpu.cycles, 3);
    bus.clock_ppu();
    assert!(bus.ppu().nmi());
    for _ in 0..3 {
        cpu.clock(&mut bus).unwrap();
        assert!(bus.ppu().nmi());
        assert_eq!(cpu.program_counter, 0x8003);
    }
    cpu.clock(&mut bus).unwrap();
    assert!(!bus.ppu().nmi());
    assert_eq!(cpu.program_counter, 0xA000);
    assert_eq!(cpu.cycles, 7);
    assert_eq!(bus.ram()[0x01FD], 0x80);
    assert_eq!(bus.ram()[0x01FC], 0x03);
    for _ in 0..7 {
        cpu.clock(&mut bus).unwrap();
    }
    step(&mut cpu, &mut bus);
    assert_eq!(cpu.accumulator, 0x07);
}

#[test]
fn illegal_opcodes_do_nothing() {
    let (mut cpu, mut bus) = machine(&[0x02, 0x03, 0xFF, 0xEA]);
    let before = cpu;
    assert_eq!(step(&mut cpu, &mut bus), 2);
    assert_eq!(cpu.program_counter, 0x8001);
    assert_eq!(step(&mut cpu, &mut bus), 8);
    assert_eq!(step(&mut cpu, &mut bus), 7);
    assert_eq!(step(&mut cpu, &mut bus), 2);
    assert_eq!(cpu.program_counter, 0x8004);
    assert_eq!(cpu.accumulator, before.accumulator);
    assert_eq!(cpu.status, before.status);
    assert_eq!(cpu.stack_pointer, before.stack_pointer);
}

#[test]
fn reading_a_write_only_register_stops_the_instruction() {
    let (mut cpu, mut bus) = machine(&[0xA9, 0x55, 0xAD, 0x00, 0x20]); // LDA $2000
    step(&mut cpu, &mut bus);
    assert_eq!(cpu.clock(&mut bus), Err(Fault::WriteOnlyRead { addr: 0x2000 }));
    assert_eq!(cpu.accumulator, 0x55);
    assert_eq!(cpu.program_counter, 0x8005);
    assert_eq!(cpu.cycles, 4);
    assert_eq!(cpu.opcode, 0xAD);
    assert_eq!(cpu.addr_abs, 0x2000);
}

#[test]
fn writing_rom_stops_the_instruction() {
    let (mut cpu, mut bus) = machine(&[0x8D, 0x00, 0x80, 0xEE, 0x00, 0x90]);
    assert_eq!(cpu.clock(&mut bus), Err(Fault::RomWrite { addr: 0x8000 }));
    cpu.cycles = 0;
    cpu.status = 0;
    assert_eq!(cpu.clock(&mut bus), Err(Fault::RomWrite { addr: 0x9000 }));
    assert_eq!(cpu.status, 0);
    assert_eq!(cpu.fetched, 0xEA);
}

#[test]
fn register_faults_reach_the_caller() {
    let (mut cpu, mut bus) = machine(&[0x8D, 0x02, 0x20]); // STA $2002
    assert_eq!(cpu.clock(&mut bus), Err(Fault::ReadOnlyWrite { addr: 0x2002 }));
    let (mut cpu, mut bus) = machine(&[0x8D, 0x05, 0x20]); // STA $2005
    assert_eq!(cpu.clock(&mut bus), Err(Fault::Unimplemented { addr: 0x2005 }));
    let (mut cpu, mut bus) = machine(&[0x4C, 0x00, 0x20]); // JMP $2000
    step(&mut cpu, &mut bus);
    assert_eq!(cpu.clock(&mut bus), Err(Fault::WriteOnlyRead { addr: 0x2000 }));
    assert_eq!(cpu.program_counter, 0x2000);
    assert_eq!(cpu.cycles, 0);
}

#[test]
fn a_shift_on_rom_sets_its_flags_before_the_store_faults() {
    let (mut cpu, mut bus) = machine_with(&[0x0E, 0x00, 0x90], &[(0x9000, &[0x81])]); // ASL $9000
    cpu.status = 0;
    assert_eq!(cpu.clock(&mut bus), Err(Fault::RomWrite { addr: 0x9000 }));
    assert_eq!(cpu.status, C);
}

#[test]
fn unmapped_reads_answer_zero_and_go_on() {
    let (mut cpu, mut bus) = machine(&[0xA9, 0x55, 0xAD, 0x00, 0x50, 0x8D, 0x00, 0x60]);
    step(&mut cpu, &mut bus);
    assert_eq!(step(&mut cpu, &mut bus), 4);
    assert_eq!(cpu.accumulator, 0x00);
    assert_eq!(cpu.status, U | Z);
    assert_eq!(bus.take_unmapped(), Some(0x5000));
    assert_eq!(step(&mut cpu, &mut bus), 4);
    assert_eq!(bus.take_unmapped(), Some(0x6000));
}

#[test]
fn the_processor_drives_the_video_registers() {
    let (mut cpu, mut bus) = machine(&[
        0xA9, 0x3F, // LDA #$3F
        0x8D, 0x06, 0x20, // STA $2006
        0xA9, 0x01, // LDA #$01
        0x8D, 0x06, 0x20, // STA $2006
        0xA9, 0x2C, // LDA #$2C
        0x8D, 0x07, 0x20, // STA $2007
        0xAD, 0x02, 0x20, // LDA $2002
    ]);
    run(&mut cpu, &mut bus, 6);
    assert_eq!(bus.ppu().palette()[1], 0x2C);
    assert_eq!(bus.ppu().address_register(), 0x3F02);
    step(&mut cpu, &mut bus);
    assert_eq!(cpu.accumulator, 0x00);
    assert!(bus.ppu().address_latch());
}

#[test]
fn program_counter_wraps_at_16_bits() {
    let (mut cpu, mut bus) = machine_with(&[], &[(0xFFFF, &[0xA9])]);
    cpu.program_counter = 0xFFFF;
    bus.mem_write(0x0000, 0x66).unwrap();
    assert_eq!(step(&mut cpu, &mut bus), 2);
    assert_eq!(cpu.accumulator, 0x66);
    assert_eq!(cpu.program_counter, 0x0001);
    assert_eq!(cpu.addr_abs, 0x0000);
}

#[test]
fn programs_run_from_ram() {
    let (mut cpu, mut bus) = machine(&[0x4C, 0x00, 0x02]); // JMP $0200
    for (i, byte) in [0xA2u8, 0x03, 0xCA, 0xD0, 0xFD, 0xEA].iter().enumerate() {
        bus.mem_write(0x0200 + i as u16, *byte).unwrap();
    }
    // LDX #3; loop: DEX; BNE loop; NOP
    run(&mut cpu, &mut bus, 2);
    let mut pulses = 0;
    while cpu.program_counter != 0x0205 {
        pulses += step(&mut cpu, &mut bus);
    }
    assert_eq!(cpu.x_register, 0);
    assert_eq!(pulses, 3 * 2 + 2 * 3 + 2);
}
