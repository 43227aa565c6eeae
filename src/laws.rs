use vstd::prelude::*;

use crate::bus::lemma_stack_page_memory;
use crate::model::{
    branch_taken, crosses_page, flag, hi_byte, is_branch, lo_byte, with_flag, with_zn, word, wrap16,
    wrap8,
    CpuView, StatusFlag,
};
use crate::opcodes::{instruction_of, AddrMode, Op};

verus! {

/// A word is rebuilt from its two bytes.
pub proof fn lemma_word_bytes(w: u16)
    ensures
        word(lo_byte(w), hi_byte(w)) == w,
{
    assert(w == (w / 0x100) * 0x100 + w % 0x100) by (nonlinear_arith);
}

/// Setting the Unused bit leaves the branch conditions as they were.
proof fn lemma_unused_bit_keeps_conditions(status: u8)
    ensures
        flag(with_flag(status, StatusFlag::U, true), StatusFlag::C) == flag(status, StatusFlag::C),
        flag(with_flag(status, StatusFlag::U, true), StatusFlag::Z) == flag(status, StatusFlag::Z),
        flag(with_flag(status, StatusFlag::U, true), StatusFlag::V) == flag(status, StatusFlag::V),
        flag(with_flag(status, StatusFlag::U, true), StatusFlag::N) == flag(status, StatusFlag::N),
{
    assert(((status | 0x20u8) & 0x01u8 != 0) == (status & 0x01u8 != 0)) by (bit_vector);
    assert(((status | 0x20u8) & 0x02u8 != 0) == (status & 0x02u8 != 0)) by (bit_vector);
    assert(((status | 0x20u8) & 0x40u8 != 0) == (status & 0x40u8 != 0)) by (bit_vector);
    assert(((status | 0x20u8) & 0x80u8 != 0) == (status & 0x80u8 != 0)) by (bit_vector);
}

/// Whether `opcode` is one of the eight conditional branches.
pub open spec fn is_branch_opcode(opcode: u8) -> bool {
    opcode == 0x10 || opcode == 0x30 || opcode == 0x50 || opcode == 0x70 || opcode == 0x90
        || opcode == 0xB0 || opcode == 0xD0 || opcode == 0xF0
}

/// The branch opcodes are the table's relative-addressed branches, each
/// with a base cost of two cycles.
pub proof fn lemma_branch_opcodes(opcode: u8)
    requires
        is_branch_opcode(opcode),
    ensures
        is_branch(instruction_of(opcode).operation),
        instruction_of(opcode).addr_mode == AddrMode::REL,
        instruction_of(opcode).cycles == 2,
{
}

/// A conditional branch costs its base cycles when not taken, one cycle
/// more when taken to an address on the same page, and two more when taken
/// across a page boundary: the step that starts it loads that cost. Taken,
/// it continues at the instruction after the branch plus the sign-extended
/// offset; not taken, at the instruction after the branch.
pub proof fn lemma_branch_cost(s: CpuView)
    requires
        s.wf(),
        s.cycles == 0,
        is_branch_opcode(s.read(s.pc)),
    ensures
        ({
            let ins = instruction_of(s.read(s.pc));
            let next = wrap16(s.pc + 2);
            let offset = s.read(wrap16(s.pc + 1));
            let rel: u16 = if offset >= 0x80 {
                (offset + 0xFF00) as u16
            } else {
                offset as u16
            };
            let target = wrap16(next + rel);
            let taken = branch_taken(ins.operation, s.status);
            let after = s.clock();
            &&& !taken ==> after.cycles == ins.cycles && after.pc == next
            &&& taken && !crosses_page(target, next) ==> after.cycles == ins.cycles + 1
            &&& taken && crosses_page(target, next) ==> after.cycles == ins.cycles + 2
            &&& taken ==> after.pc == target
        }),
{
    reveal(CpuView::address);
    reveal(CpuView::operate);
    lemma_unused_bit_keeps_conditions(s.status);
    let opcode = s.read(s.pc);
    lemma_branch_opcodes(opcode);
    assert(s.lookup[opcode as int] == instruction_of(opcode));
}

/// An opcode without a defined instruction only moves the program counter
/// past itself, sets the Unused bit and costs one cycle: registers, stack
/// pointer and memory are left as they were.
pub proof fn lemma_undefined_opcode_no_effect(s: CpuView)
    requires
        s.wf(),
        s.cycles == 0,
        instruction_of(s.read(s.pc)).operation == Op::UNK,
    ensures
        ({
            let after = s.clock();
            &&& after.a == s.a && after.x == s.x && after.y == s.y && after.sp == s.sp
            &&& after.bus == s.bus
            &&& after.status == with_flag(s.status, StatusFlag::U, true)
            &&& after.pc == wrap16(s.pc + 1)
            &&& after.cycles == 1
        }),
{
    reveal(CpuView::address);
    reveal(CpuView::operate);
    let opcode = s.read(s.pc);
    assert(s.lookup[opcode as int] == instruction_of(opcode));
    let st = s.status;
    assert((st | 0x20u8) | 0x20u8 == st | 0x20u8) by (bit_vector);
}

/// Indirect addressing through a pointer whose low byte is `$FF` takes the
/// target's high byte from the start of the pointer's own page, not from
/// the next page.
pub proof fn lemma_indirect_page_wrap(s: CpuView)
    requires
        s.read(s.pc) == 0xFF,
    ensures
        ({
            let hi = s.read(wrap16(s.pc + 1));
            s.address(AddrMode::IND).0.addr_abs == word(
                s.read(word(0xFF, hi)),
                s.read(word(0x00, hi)),
            )
        }),
{
    reveal(CpuView::address);
}

/// Pushing the accumulator moves the stack pointer down by one, wrapping
/// below `$00`; changing the accumulator to any `other` value and pulling it
/// back then restores both the accumulator and the stack pointer, with Zero
/// and Negative describing the restored value.
pub proof fn lemma_push_pull_accumulator(s: CpuView, other: u8)
    requires
        s.wf(),
    ensures
        s.operate(Op::PHA, AddrMode::IMP).0.sp == wrap8(s.sp - 1),
        ({
            let pushed = s.operate(Op::PHA, AddrMode::IMP).0;
            let pulled = CpuView { a: other, ..pushed }.operate(Op::PLA, AddrMode::IMP).0;
            &&& pulled.a == s.a && pulled.sp == s.sp
            &&& pulled.status == with_zn(s.status, s.a)
        }),
{
    reveal(CpuView::operate);
    let at = (0x100 + s.sp) as u16;
    lemma_stack_page_memory(s.bus, at, s.a, at);
}

/// A subroutine call (`JSR` with its absolute operand at the program
/// counter) followed by a return (`RTS`) resumes at the instruction right
/// after the call, with the stack pointer back where it was.
pub proof fn lemma_call_return(s: CpuView)
    requires
        s.wf(),
    ensures
        ({
            let called = s.address(AddrMode::ABS).0.operate(Op::JSR, AddrMode::ABS).0;
            let returned = called.address(AddrMode::IMP).0.operate(Op::RTS, AddrMode::IMP).0;
            returned.pc == wrap16(s.pc + 2) && returned.sp == s.sp
        }),
{
    reveal(CpuView::address);
    reveal(CpuView::operate);
    let resolved = s.address(AddrMode::ABS).0;
    let ret = wrap16(resolved.pc - 1);
    assert(ret == wrap16(s.pc + 1));
    let hi_at = (0x100 + s.sp) as u16;
    let lo_at = (0x100 + wrap8(s.sp - 1)) as u16;
    let after_hi = resolved.push(hi_byte(ret));
    lemma_stack_page_memory(resolved.bus, hi_at, hi_byte(ret), lo_at);
    lemma_stack_page_memory(after_hi.bus, lo_at, lo_byte(ret), hi_at);
    lemma_stack_page_memory(after_hi.bus, lo_at, lo_byte(ret), lo_at);
    lemma_word_bytes(ret);
}

/// The step that starts an instruction leaves the Unused bit of the status
/// set, whatever the instruction did to the status, and at least one cycle
/// of the instruction to run.
pub proof fn lemma_unused_set_after_instruction(s: CpuView)
    requires
        s.wf(),
        s.cycles == 0,
    ensures
        flag(s.clock().status, StatusFlag::U),
        s.clock().cycles >= 1,
{
    reveal(CpuView::address);
    reveal(CpuView::operate);
    let opcode = s.read(s.pc);
    assert(1 <= s.lookup[opcode as int].cycles);
    assert forall|x: u8| (#[trigger] (x | 0x20u8)) & 0x20u8 != 0 by {
        assert((x | 0x20u8) & 0x20u8 != 0) by (bit_vector);
    }
}

} // verus!
