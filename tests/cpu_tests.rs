use rust_nes::bus::Bus;
use rust_nes::cartridge::Cartridge;
use rust_nes::cpu::CPU;
use rust_nes::opcodes::{decode, AddrMode, Op};

const C: u8 = 0x01;
const Z: u8 = 0x02;
const I: u8 = 0x04;
const B: u8 = 0x10;
const U: u8 = 0x20;
const V: u8 = 0x40;
const N: u8 = 0x80;

/// A CPU whose cartridge holds `program` from `origin` (within $8000-$BFFF,
/// mirrored at $C000-$FFFF), the IRQ vector pointing at $9000 and the NMI
/// vector at $9100; the program counter starts at `origin`.
fn cpu_with(origin: u16, program: &[u8]) -> CPU {
    let mut prg = vec![0xEAu8; 16384];
    let start = (origin as usize - 0x8000) & 0x3FFF;
    prg[start..start + program.len()].copy_from_slice(program);
    prg[0x3FFA] = 0x00;
    prg[0x3FFB] = 0x91;
    prg[0x3FFE] = 0x00;
    prg[0x3FFF] = 0x90;
    let mut img = vec![0x4E, 0x45, 0x53, 0x1A, 1, 1, 0, 0];
    img.extend_from_slice(&[0u8; 8]);
    img.extend_from_slice(&prg);
    img.extend(std::iter::repeat(0).take(8192));
    let mut cpu = CPU::new(Bus::new(Cartridge::new(&img).unwrap()));
    cpu.pc = origin;
    cpu
}

/// Runs one whole instruction and returns its cost: the cycles the step
/// that starts it loads, counted down by the steps that follow.
fn step(cpu: &mut CPU) -> u32 {
    assert!(cpu.complete());
    cpu.clock();
    drain(cpu)
}

/// Clocks until the instruction in flight is done; returns how many clocks.
fn drain(cpu: &mut CPU) -> u32 {
    let mut n = 0;
    while !cpu.complete() {
        cpu.clock();
        n += 1;
    }
    n
}

#[test]
fn reset_clears_registers_and_cycles() {
    let mut cpu = cpu_with(0x8000, &[0xA9, 0x80, 0xA2, 0x05, 0xA0, 0x07, 0x9A]);
    step(&mut cpu);
    step(&mut cpu);
    step(&mut cpu);
    cpu.clock();
    assert!(!cpu.complete());
    cpu.reset();
    assert_eq!((cpu.a, cpu.x, cpu.y, cpu.sp, cpu.pc, cpu.status), (0, 0, 0, 0, 0, 0));
    assert!(cpu.complete());
}

#[test]
fn reset_after_every_opcode_clears_state() {
    for op in 0..=255u8 {
        let mut cpu = cpu_with(0x8000, &[op, 0x01, 0x02]);
        cpu.sp = 0xFD;
        cpu.clock();
        cpu.reset();
        assert_eq!((cpu.a, cpu.x, cpu.y, cpu.sp, cpu.status), (0, 0, 0, 0, 0));
        assert!(cpu.complete());
    }
}

#[test]
fn adc_signed_overflow_flags() {
    // LDA #$50; CLC; ADC #$50
    let mut cpu = cpu_with(0x8000, &[0xA9, 0x50, 0x18, 0x69, 0x50]);
    step(&mut cpu);
    step(&mut cpu);
    assert_eq!(step(&mut cpu), 2);
    assert_eq!(cpu.a, 0xA0);
    assert_eq!(cpu.status & C, 0);
    assert_eq!(cpu.status & Z, 0);
    assert_eq!(cpu.status & V, V);
    assert_eq!(cpu.status & N, N);
}

#[test]
fn adc_carry_out_and_zero() {
    // LDA #$FF; SEC; ADC #$00
    let mut cpu = cpu_with(0x8000, &[0xA9, 0xFF, 0x38, 0x69, 0x00]);
    step(&mut cpu);
    step(&mut cpu);
    step(&mut cpu);
    assert_eq!(cpu.a, 0x00);
    assert_eq!(cpu.status & (C | Z | V | N), C | Z);
}

#[test]
fn sbc_borrow() {
    // LDA #$50; SEC; SBC #$F0  -> 0x60, borrow (carry clear), no overflow
    let mut cpu = cpu_with(0x8000, &[0xA9, 0x50, 0x38, 0xE9, 0xF0]);
    step(&mut cpu);
    step(&mut cpu);
    step(&mut cpu);
    assert_eq!(cpu.a, 0x60);
    assert_eq!(cpu.status & (C | V | N | Z), 0);
}

#[test]
fn branch_not_taken_costs_base() {
    // LDA #$00; BNE +2
    let mut cpu = cpu_with(0x8000, &[0xA9, 0x00, 0xD0, 0x02]);
    step(&mut cpu);
    assert_eq!(step(&mut cpu), 2);
    assert_eq!(cpu.pc, 0x8004);
}

#[test]
fn branch_taken_same_page_costs_one_more() {
    // LDA #$01; BNE +2
    let mut cpu = cpu_with(0x8000, &[0xA9, 0x01, 0xD0, 0x02]);
    step(&mut cpu);
    assert_eq!(step(&mut cpu), 3);
    assert_eq!(cpu.pc, 0x8006);
}

#[test]
fn branch_taken_across_page_costs_two_more() {
    // at $80FB: LDA #$01; BNE +5 -> $8104
    let mut cpu = cpu_with(0x80FB, &[0xA9, 0x01, 0xD0, 0x05]);
    step(&mut cpu);
    assert_eq!(step(&mut cpu), 4);
    assert_eq!(cpu.pc, 0x8104);
}

#[test]
fn branch_backwards() {
    // at $8010: SEC; BCS -4 -> $800F
    let mut cpu = cpu_with(0x8010, &[0x38, 0xB0, 0xFC]);
    step(&mut cpu);
    assert_eq!(step(&mut cpu), 3);
    assert_eq!(cpu.pc, 0x800F);
}

#[test]
fn indirect_jump_wraps_within_page() {
    // JMP ($02FF)
    let mut cpu = cpu_with(0x8000, &[0x6C, 0xFF, 0x02]);
    cpu.bus.write(0x02FF, 0x34);
    cpu.bus.write(0x0200, 0x12);
    cpu.bus.write(0x0300, 0x56);
    assert_eq!(step(&mut cpu), 5);
    assert_eq!(cpu.pc, 0x1234);
}

#[test]
fn indirect_jump_without_wrap() {
    // JMP ($0210)
    let mut cpu = cpu_with(0x8000, &[0x6C, 0x10, 0x02]);
    cpu.bus.write(0x0210, 0x78);
    cpu.bus.write(0x0211, 0x56);
    step(&mut cpu);
    assert_eq!(cpu.pc, 0x5678);
}

#[test]
fn push_pull_restores_accumulator() {
    // LDX #$00; TXS; LDA #$42; PHA; LDA #$07; PLA
    let mut cpu = cpu_with(0x8000, &[0xA2, 0x00, 0x9A, 0xA9, 0x42, 0x48, 0xA9, 0x07, 0x68]);
    for _ in 0..3 {
        step(&mut cpu);
    }
    assert_eq!(cpu.sp, 0x00);
    assert_eq!(step(&mut cpu), 3);
    assert_eq!(cpu.sp, 0xFF);
    assert_eq!(cpu.bus.read(0x0100, true), 0x42);
    step(&mut cpu);
    assert_eq!(cpu.a, 0x07);
    assert_eq!(step(&mut cpu), 4);
    assert_eq!(cpu.a, 0x42);
    assert_eq!(cpu.sp, 0x00);
}

#[test]
fn push_pull_status() {
    // SEC; PHP; CLC; PLP
    let mut cpu = cpu_with(0x8000, &[0x38, 0x08, 0x18, 0x28]);
    cpu.sp = 0xFF;
    step(&mut cpu);
    step(&mut cpu);
    assert_eq!(cpu.bus.read(0x01FF, true) & (C | B | U), C | B | U);
    step(&mut cpu);
    assert_eq!(cpu.status & C, 0);
    step(&mut cpu);
    assert_eq!(cpu.status & (C | U), C | U);
    assert_eq!(cpu.sp, 0xFF);
}

#[test]
fn subroutine_call_and_return() {
    // $8000: JSR $8010 ... $8010: RTS
    let mut cpu2 = cpu_with(0x8000, &[0x20, 0x10, 0x80, 0xEA, 0, 0, 0, 0, 0, 0, 0, 0, 0, 0, 0, 0, 0x60]);
    cpu2.sp = 0xFD;
    assert_eq!(step(&mut cpu2), 6);
    assert_eq!(cpu2.pc, 0x8010);
    assert_eq!(cpu2.sp, 0xFB);
    assert_eq!(cpu2.bus.read(0x01FD, true), 0x80);
    assert_eq!(cpu2.bus.read(0x01FC, true), 0x02);
    assert_eq!(step(&mut cpu2), 6);
    assert_eq!(cpu2.pc, 0x8003);
    assert_eq!(cpu2.sp, 0xFD);
}

#[test]
fn subroutine_call_wraps_stack_pointer() {
    let mut cpu = cpu_with(0x8000, &[0x20, 0x10, 0x80, 0xEA, 0, 0, 0, 0, 0, 0, 0, 0, 0, 0, 0, 0, 0x60]);
    cpu.sp = 0x00;
    step(&mut cpu);
    assert_eq!(cpu.sp, 0xFE);
    assert_eq!(cpu.bus.read(0x0100, true), 0x80);
    assert_eq!(cpu.bus.read(0x01FF, true), 0x02);
    step(&mut cpu);
    assert_eq!(cpu.pc, 0x8003);
    assert_eq!(cpu.sp, 0x00);
}

#[test]
fn irq_is_masked_by_interrupt_disable() {
    let mut cpu = cpu_with(0x8000, &[0x78]);
    cpu.sp = 0xFF;
    step(&mut cpu);
    assert_eq!(cpu.status & I, I);
    cpu.irq();
    assert_eq!(cpu.pc, 0x8001);
    assert!(cpu.complete());
}

#[test]
fn irq_enters_handler() {
    let mut cpu = cpu_with(0x8000, &[0x58]);
    cpu.sp = 0xFF;
    step(&mut cpu);
    cpu.irq();
    assert_eq!(cpu.pc, 0x9000);
    assert_eq!(cpu.sp, 0xFC);
    assert_eq!(cpu.bus.read(0x01FF, true), 0x80);
    assert_eq!(cpu.bus.read(0x01FE, true), 0x01);
    assert_eq!(cpu.bus.read(0x01FD, true) & (B | U | I), U);
    assert_eq!(cpu.status & (I | B | U), I | U);
    assert_eq!(drain(&mut cpu), 7);
}

#[test]
fn nmi_ignores_interrupt_disable() {
    let mut cpu = cpu_with(0x8000, &[0x78]);
    cpu.sp = 0xFF;
    step(&mut cpu);
    cpu.nmi();
    assert_eq!(cpu.pc, 0x9100);
    assert_eq!(cpu.sp, 0xFC);
    assert_eq!(drain(&mut cpu), 7);
}

#[test]
fn brk_and_rti() {
    // $8000: BRK; handler at $9000: RTI
    let mut prog = vec![0x00u8, 0xEA];
    prog.resize(0x1000, 0xEA);
    prog.push(0x40);
    let mut cpu = cpu_with(0x8000, &prog);
    cpu.sp = 0xFF;
    assert_eq!(step(&mut cpu), 7);
    assert_eq!(cpu.pc, 0x9000);
    assert_eq!(cpu.status & I, I);
    assert_eq!(cpu.bus.read(0x01FF, true), 0x80);
    assert_eq!(cpu.bus.read(0x01FE, true), 0x02);
    assert_eq!(cpu.bus.read(0x01FD, true) & B, B);
    assert_eq!(step(&mut cpu), 6);
    assert_eq!(cpu.pc, 0x8002);
    assert_eq!(cpu.sp, 0xFF);
}

#[test]
fn page_crossing_read_costs_extra_cycle() {
    // LDX #$01; LDA $80FF,X ; LDA $8010,X
    let mut cpu = cpu_with(0x8000, &[0xA2, 0x01, 0xBD, 0xFF, 0x80, 0xBD, 0x10, 0x80]);
    step(&mut cpu);
    assert_eq!(step(&mut cpu), 5);
    assert_eq!(step(&mut cpu), 4);
}

#[test]
fn store_indexed_never_costs_extra() {
    // LDX #$01; STA $02FF,X
    let mut cpu = cpu_with(0x8000, &[0xA2, 0x01, 0xA9, 0x33, 0x9D, 0xFF, 0x02]);
    step(&mut cpu);
    step(&mut cpu);
    assert_eq!(step(&mut cpu), 5);
    assert_eq!(cpu.bus.read(0x0300, true), 0x33);
}

#[test]
fn zero_page_indexed_wraps() {
    // LDX #$10; LDA #$5A; STA $F8,X -> $0008
    let mut cpu = cpu_with(0x8000, &[0xA2, 0x10, 0xA9, 0x5A, 0x95, 0xF8]);
    step(&mut cpu);
    step(&mut cpu);
    assert_eq!(step(&mut cpu), 4);
    assert_eq!(cpu.bus.read(0x0008, true), 0x5A);
}

#[test]
fn indexed_indirect_and_indirect_indexed() {
    // LDX #$04; LDA ($FE,X) -> pointer at $02/$03; LDY #$01; LDA ($10),Y
    let mut cpu = cpu_with(0x8000, &[0xA2, 0x04, 0xA1, 0xFE, 0xA0, 0x01, 0xB1, 0x10]);
    cpu.bus.write(0x0002, 0x00);
    cpu.bus.write(0x0003, 0x03);
    cpu.bus.write(0x0300, 0x77);
    cpu.bus.write(0x0010, 0xFF);
    cpu.bus.write(0x0011, 0x03);
    cpu.bus.write(0x0400, 0x66);
    step(&mut cpu);
    assert_eq!(step(&mut cpu), 6);
    assert_eq!(cpu.a, 0x77);
    step(&mut cpu);
    assert_eq!(step(&mut cpu), 6);
    assert_eq!(cpu.a, 0x66);
}

#[test]
fn shifts_on_accumulator_and_memory() {
    // LDA #$81; ASL A; ROL A; LSR $20; ROR $20
    let mut cpu = cpu_with(0x8000, &[0xA9, 0x81, 0x0A, 0x2A, 0x46, 0x20, 0x66, 0x20]);
    cpu.bus.write(0x0020, 0x03);
    step(&mut cpu);
    step(&mut cpu);
    assert_eq!(cpu.a, 0x02);
    assert_eq!(cpu.status & C, C);
    step(&mut cpu);
    assert_eq!(cpu.a, 0x05);
    assert_eq!(cpu.status & C, 0);
    assert_eq!(step(&mut cpu), 5);
    assert_eq!(cpu.bus.read(0x0020, true), 0x01);
    assert_eq!(cpu.status & C, C);
    step(&mut cpu);
    assert_eq!(cpu.bus.read(0x0020, true), 0x80);
    assert_eq!(cpu.status & (C | N), C | N);
}

#[test]
fn compare_and_increments() {
    // LDX #$FF; INX; CPX #$00; DEY; LDA #$10; CMP #$20
    let mut cpu = cpu_with(0x8000, &[0xA2, 0xFF, 0xE8, 0xE0, 0x00, 0x88, 0xA9, 0x10, 0xC9, 0x20]);
    step(&mut cpu);
    step(&mut cpu);
    assert_eq!(cpu.x, 0);
    assert_eq!(cpu.status & Z, Z);
    step(&mut cpu);
    assert_eq!(cpu.status & (C | Z), C | Z);
    step(&mut cpu);
    assert_eq!(cpu.y, 0xFF);
    assert_eq!(cpu.status & N, N);
    step(&mut cpu);
    step(&mut cpu);
    assert_eq!(cpu.status & (C | Z | N), N);
}

#[test]
fn bit_copies_operand_bits() {
    // LDA #$01; BIT $30
    let mut cpu = cpu_with(0x8000, &[0xA9, 0x01, 0x24, 0x30]);
    cpu.bus.write(0x0030, 0xC0);
    step(&mut cpu);
    assert_eq!(step(&mut cpu), 3);
    assert_eq!(cpu.status & (Z | V | N), Z | V | N);
}

#[test]
fn boundary_step_loads_the_full_cost() {
    let mut cpu = cpu_with(0x8000, &[0xEA]);
    cpu.clock();
    assert_eq!(cpu.cycles, 2);
    cpu.clock();
    assert_eq!(cpu.cycles, 1);
    assert_eq!(cpu.clock_count, 2);
}

#[test]
fn undefined_opcode_takes_one_cycle() {
    let mut cpu = cpu_with(0x8000, &[0x02, 0xA9, 0x01]);
    assert_eq!(step(&mut cpu), 1);
    assert_eq!(cpu.pc, 0x8001);
    assert_eq!(cpu.a, 0);
}

#[test]
fn unused_flag_is_set_while_running() {
    let mut cpu = cpu_with(0x8000, &[0xEA]);
    assert_eq!(cpu.status, 0);
    step(&mut cpu);
    assert_eq!(cpu.status & U, U);
}

#[test]
fn decode_table_entries() {
    let lda = decode(0xA9);
    assert_eq!((lda.operation, lda.addr_mode, lda.cycles), (Op::LDA, AddrMode::IMM, 2));
    let jmp = decode(0x6C);
    assert_eq!((jmp.operation, jmp.addr_mode, jmp.cycles), (Op::JMP, AddrMode::IND, 5));
    let unk = decode(0xFF);
    assert_eq!((unk.operation, unk.addr_mode, unk.cycles), (Op::UNK, AddrMode::IMP, 1));
    assert_eq!(Op::LDA.mnemonic(), "LDA");
    assert_eq!(decode(0x02).operation.mnemonic(), "???");
    assert_eq!(decode(0x00).operation, Op::BRK);
    assert_eq!(Op::UNK.mnemonic(), "???");
}
