use vstd::prelude::*;

use crate::bus::Bus;
use crate::model::{flag, CpuView, StatusFlag};
use crate::opcodes::{decode, instruction_of, AddrMode, Instruction, Op};

verus! {

/// Vector read by a maskable interrupt and by `BRK`.
pub const IRQ_VECTOR: u16 = 0xFFFE;

/// Vector read by a non-maskable interrupt.
pub const NMI_VECTOR: u16 = 0xFFFA;

/// Base of the stack page.
pub const STACK_BASE: u16 = 0x0100;

/// A 6502-family CPU that owns the bus it drives.
///
/// Besides the architectural registers it holds the scratch state of the
/// instruction in flight (`fetched`, `addr_abs`, `addr_rel`, `opcode`),
/// the cycles that instruction still needs, the clock count, and the
/// dispatch table.
pub struct CPU {
    pub a: u8,
    pub x: u8,
    pub y: u8,
    pub sp: u8,
    pub pc: u16,
    pub status: u8,
    pub fetched: u8,
    pub addr_abs: u16,
    pub addr_rel: u16,
    pub opcode: u8,
    pub cycles: u8,
    pub clock_count: u64,
    pub lookup: Vec<Instruction>,
    pub bus: Bus,
}

impl View for CPU {
    type V = CpuView;

    open spec fn view(&self) -> CpuView {
        CpuView {
            a: self.a,
            x: self.x,
            y: self.y,
            sp: self.sp,
            pc: self.pc,
            status: self.status,
            fetched: self.fetched,
            addr_abs: self.addr_abs,
            addr_rel: self.addr_rel,
            opcode: self.opcode,
            cycles: self.cycles,
            clock_count: self.clock_count,
            lookup: self.lookup@,
            bus: self.bus@,
        }
    }
}

#[allow(non_snake_case)]
impl CPU {
    /// A CPU with every register zero, the full dispatch table, and `bus`.
    pub fn new(bus: Bus) -> (r: CPU)
        requires
            bus@.wf(),
        ensures
            r@.wf(),
            r@.bus == bus@,
            r@.a == 0 && r@.x == 0 && r@.y == 0 && r@.sp == 0 && r@.pc == 0 && r@.status == 0,
            r@.cycles == 0,
            r@.clock_count == 0,
    {
        let mut lookup: Vec<Instruction> = Vec::with_capacity(256);
        let mut i: u16 = 0;
        while i < 256
            invariant
                i <= 256,
                lookup@.len() == i,
                forall|j: int|
                    0 <= j < i ==> #[trigger] lookup@[j] == instruction_of(j as u8) && 1
                        <= lookup@[j].cycles <= 7,
            decreases 256 - i,
        {
            lookup.push(decode(i as u8));
            i += 1;
        }
        CPU {
            a: 0,
            x: 0,
            y: 0,
            sp: 0,
            pc: 0,
            status: 0,
            fetched: 0,
            addr_abs: 0,
            addr_rel: 0,
            opcode: 0,
            cycles: 0,
            clock_count: 0,
            lookup,
            bus,
        }
    }

    /// Returns registers and transient state to zero. The bus is left as it
    /// is.
    pub fn reset(&mut self)
        ensures
            final(self)@ == (CpuView {
                a: 0,
                x: 0,
                y: 0,
                sp: 0,
                pc: 0,
                status: 0,
                fetched: 0,
                addr_abs: 0,
                addr_rel: 0,
                opcode: 0,
                cycles: 0,
                clock_count: 0,
                ..old(self)@
            }),
    {
        self.a = 0;
        self.x = 0;
        self.y = 0;
        self.sp = 0;
        self.pc = 0;
        self.status = 0;
        self.fetched = 0;
        self.addr_abs = 0;
        self.addr_rel = 0;
        self.opcode = 0;
        self.cycles = 0;
        self.clock_count = 0;
    }

    fn set_flag(&mut self, f: StatusFlag, val: bool)
        ensures
            final(self)@ == old(self)@.set_flag(f, val),
    {
        if val {
            self.status = self.status | f.mask();
        } else {
            self.status = self.status & !f.mask();
        }
    }

    fn read_flag(&self, f: StatusFlag) -> (r: bool)
        ensures
            r == flag(self.status, f),
    {
        self.status & f.mask() != 0
    }

    fn set_zn(&mut self, v: u8)
        ensures
            final(self)@ == old(self)@.set_zn(v),
    {
        self.set_flag(StatusFlag::Z, v == 0);
        self.set_flag(StatusFlag::N, v >= 0x80);
    }

    fn read(&self, addr: u16) -> (r: u8)
        requires
            self@.wf(),
        ensures
            r == self@.read(addr),
    {
        self.bus.read(addr, false)
    }

    fn write(&mut self, addr: u16, val: u8)
        requires
            old(self)@.wf(),
        ensures
            final(self)@ == old(self)@.write(addr, val),
            final(self)@.wf(),
    {
        self.bus.write(addr, val);
    }

    fn push(&mut self, val: u8)
        requires
            old(self)@.wf(),
        ensures
            final(self)@ == old(self)@.push(val),
            final(self)@.wf(),
    {
        self.write(STACK_BASE + self.sp as u16, val);
        self.sp = self.sp.wrapping_sub(1);
    }

    fn pull(&mut self) -> (r: u8)
        requires
            old(self)@.wf(),
        ensures
            (final(self)@, r) == old(self)@.pull(),
            final(self)@.wf(),
    {
        self.sp = self.sp.wrapping_add(1);
        self.read(STACK_BASE + self.sp as u16)
    }

    fn fetch(&mut self, mode: AddrMode) -> (r: u8)
        requires
            old(self)@.wf(),
        ensures
            final(self)@ == old(self)@.fetch(mode),
            r == final(self)@.fetched,
            final(self)@.wf(),
    {
        if mode != AddrMode::IMP {
            self.fetched = self.read(self.addr_abs);
        }
        self.fetched
    }

    /// Reads the little-endian word at `pc` and moves `pc` past it.
    fn read_word_at_pc(&mut self) -> (r: (u8, u8))
        requires
            old(self)@.wf(),
        ensures
            r.0 == old(self)@.read(old(self).pc),
            r.1 == old(self)@.read(crate::model::wrap16(old(self).pc + 1)),
            final(self)@ == (CpuView { pc: crate::model::wrap16(old(self).pc + 2), ..old(self)@ }),
            final(self)@.wf(),
    {
        let lo = self.read(self.pc);
        self.pc = self.pc.wrapping_add(1);
        let hi = self.read(self.pc);
        self.pc = self.pc.wrapping_add(1);
        (lo, hi)
    }

    // Addressing modes. Each handler is proved to do exactly what
    // `CpuView::address` describes for its mode.

    fn IMP(&mut self) -> (r: u8)
        requires
            old(self)@.wf(),
        ensures
            (final(self)@, r) == old(self)@.address(AddrMode::IMP),
            final(self)@.wf(),
            r <= 1,
            final(self).cycles == old(self).cycles,
    {
        proof {
            reveal(CpuView::address);
        }
        self.fetched = self.a;
        0
    }

    fn IMM(&mut self) -> (r: u8)
        requires
            old(self)@.wf(),
        ensures
            (final(self)@, r) == old(self)@.address(AddrMode::IMM),
            final(self)@.wf(),
            r <= 1,
            final(self).cycles == old(self).cycles,
    {
        proof {
            reveal(CpuView::address);
        }
        self.addr_abs = self.pc;
        self.pc = self.pc.wrapping_add(1);
        0
    }

    fn ZP0(&mut self) -> (r: u8)
        requires
            old(self)@.wf(),
        ensures
            (final(self)@, r) == old(self)@.address(AddrMode::ZP0),
            final(self)@.wf(),
            r <= 1,
            final(self).cycles == old(self).cycles,
    {
        proof {
            reveal(CpuView::address);
        }
        self.addr_abs = self.read(self.pc) as u16;
        self.pc = self.pc.wrapping_add(1);
        0
    }

    fn ZPX(&mut self) -> (r: u8)
        requires
            old(self)@.wf(),
        ensures
            (final(self)@, r) == old(self)@.address(AddrMode::ZPX),
            final(self)@.wf(),
            r <= 1,
            final(self).cycles == old(self).cycles,
    {
        proof {
            reveal(CpuView::address);
        }
        self.addr_abs = self.read(self.pc).wrapping_add(self.x) as u16;
        self.pc = self.pc.wrapping_add(1);
        0
    }

    fn ZPY(&mut self) -> (r: u8)
        requires
            old(self)@.wf(),
        ensures
            (final(self)@, r) == old(self)@.address(AddrMode::ZPY),
            final(self)@.wf(),
            r <= 1,
            final(self).cycles == old(self).cycles,
    {
        proof {
            reveal(CpuView::address);
        }
        self.addr_abs = self.read(self.pc).wrapping_add(self.y) as u16;
        self.pc = self.pc.wrapping_add(1);
        0
    }

    fn REL(&mut self) -> (r: u8)
        requires
            old(self)@.wf(),
        ensures
            (final(self)@, r) == old(self)@.address(AddrMode::REL),
            final(self)@.wf(),
            r <= 1,
            final(self).cycles == old(self).cycles,
    {
        proof {
            reveal(CpuView::address);
        }
        let offset = self.read(self.pc);
        self.pc = self.pc.wrapping_add(1);
        self.addr_rel = if offset >= 0x80 {
            offset as u16 + 0xFF00
        } else {
            offset as u16
        };
        0
    }

    fn ABS(&mut self) -> (r: u8)
        requires
            old(self)@.wf(),
        ensures
            (final(self)@, r) == old(self)@.address(AddrMode::ABS),
            final(self)@.wf(),
            r <= 1,
            final(self).cycles == old(self).cycles,
    {
        proof {
            reveal(CpuView::address);
        }
        let (lo, hi) = self.read_word_at_pc();
        self.addr_abs = hi as u16 * 0x100 + lo as u16;
        0
    }

    fn ABX(&mut self) -> (r: u8)
        requires
            old(self)@.wf(),
        ensures
            (final(self)@, r) == old(self)@.address(AddrMode::ABX),
            final(self)@.wf(),
            r <= 1,
            final(self).cycles == old(self).cycles,
    {
        proof {
            reveal(CpuView::address);
        }
        let (lo, hi) = self.read_word_at_pc();
        self.addr_abs = (hi as u16 * 0x100 + lo as u16).wrapping_add(self.x as u16);
        if self.addr_abs / 0x100 != hi as u16 {
            1
        } else {
            0
        }
    }

    fn ABY(&mut self) -> (r: u8)
        requires
            old(self)@.wf(),
        ensures
            (final(self)@, r) == old(self)@.address(AddrMode::ABY),
            final(self)@.wf(),
            r <= 1,
            final(self).cycles == old(self).cycles,
    {
        proof {
            reveal(CpuView::address);
        }
        let (lo, hi) = self.read_word_at_pc();
        self.addr_abs = (hi as u16 * 0x100 + lo as u16).wrapping_add(self.y as u16);
        if self.addr_abs / 0x100 != hi as u16 {
            1
        } else {
            0
        }
    }

    /// Indirect: a pointer whose low byte is `$FF` takes its high byte from
    /// the start of the same page, as the hardware does.
    fn IND(&mut self) -> (r: u8)
        requires
            old(self)@.wf(),
        ensures
            (final(self)@, r) == old(self)@.address(AddrMode::IND),
            final(self)@.wf(),
            r <= 1,
            final(self).cycles == old(self).cycles,
    {
        proof {
            reveal(CpuView::address);
        }
        let (lo, hi) = self.read_word_at_pc();
        let ptr = hi as u16 * 0x100 + lo as u16;
        let hi_at = if lo == 0xFF {
            hi as u16 * 0x100
        } else {
            ptr + 1
        };
        self.addr_abs = self.read(hi_at) as u16 * 0x100 + self.read(ptr) as u16;
        0
    }

    fn IZX(&mut self) -> (r: u8)
        requires
            old(self)@.wf(),
        ensures
            (final(self)@, r) == old(self)@.address(AddrMode::IZX),
            final(self)@.wf(),
            r <= 1,
            final(self).cycles == old(self).cycles,
    {
        proof {
            reveal(CpuView::address);
        }
        let t = self.read(self.pc);
        self.pc = self.pc.wrapping_add(1);
        let at = t.wrapping_add(self.x);
        let lo = self.read(at as u16);
        let hi = self.read(at.wrapping_add(1) as u16);
        self.addr_abs = hi as u16 * 0x100 + lo as u16;
        0
    }

    fn IZY(&mut self) -> (r: u8)
        requires
            old(self)@.wf(),
        ensures
            (final(self)@, r) == old(self)@.address(AddrMode::IZY),
            final(self)@.wf(),
            r <= 1,
            final(self).cycles == old(self).cycles,
    {
        proof {
            reveal(CpuView::address);
        }
        let t = self.read(self.pc);
        self.pc = self.pc.wrapping_add(1);
        let lo = self.read(t as u16);
        let hi = self.read(t.wrapping_add(1) as u16);
        self.addr_abs = (hi as u16 * 0x100 + lo as u16).wrapping_add(self.y as u16);
        if self.addr_abs / 0x100 != hi as u16 {
            1
        } else {
            0
        }
    }

    fn add_with_carry(&mut self, operand: u8)
        ensures
            final(self)@ == old(self)@.add_with_carry(operand),
    {
        let carry_in: u16 = if self.read_flag(StatusFlag::C) {
            1
        } else {
            0
        };
        let sum: u16 = self.a as u16 + operand as u16 + carry_in;
        let r = if sum > 0xFF {
            (sum - 0x100) as u8
        } else {
            sum as u8
        };
        self.set_flag(StatusFlag::C, sum > 0xFF);
        self.set_flag(StatusFlag::Z, r == 0);
        self.set_flag(
            StatusFlag::V,
            (self.a >= 0x80) == (operand >= 0x80) && (r >= 0x80) != (self.a >= 0x80),
        );
        self.set_flag(StatusFlag::N, r >= 0x80);
        self.a = r;
    }

    fn store_result(&mut self, mode: AddrMode, v: u8)
        requires
            old(self)@.wf(),
        ensures
            final(self)@ == old(self)@.store_result(mode, v),
            final(self)@.wf(),
    {
        if mode == AddrMode::IMP {
            self.a = v;
        } else {
            self.write(self.addr_abs, v);
        }
    }

    fn shift_result(&mut self, mode: AddrMode, carry: bool, r: u8)
        requires
            old(self)@.wf(),
        ensures
            final(self)@ == old(self)@.shift_result(mode, carry, r),
            final(self)@.wf(),
    {
        self.set_flag(StatusFlag::C, carry);
        self.set_zn(r);
        self.store_result(mode, r);
    }

    fn branch(&mut self, taken: bool)
        requires
            old(self).cycles <= 7,
        ensures
            final(self)@ == old(self)@.branch(taken),
    {
        if taken {
            self.cycles = self.cycles + 1;
            let target = self.pc.wrapping_add(self.addr_rel);
            if target / 0x100 != self.pc / 0x100 {
                self.cycles = self.cycles + 1;
            }
            self.addr_abs = target;
            self.pc = target;
        }
    }

    fn compare(&mut self, reg: u8)
        ensures
            final(self)@ == old(self)@.compare(reg),
    {
        let d = reg.wrapping_sub(self.fetched);
        self.set_flag(StatusFlag::C, reg >= self.fetched);
        self.set_flag(StatusFlag::Z, d == 0);
        self.set_flag(StatusFlag::N, d >= 0x80);
    }

    // Operations. Each handler is proved to do exactly what
    // `CpuView::operate` describes for its operation.

    fn ADC(&mut self, mode: AddrMode) -> (r: u8)
        requires
            old(self)@.wf(),
        ensures
            (final(self)@, r) == old(self)@.operate(Op::ADC, mode),
            final(self)@.wf(),
            r <= 1,
            old(self).cycles <= final(self).cycles <= old(self).cycles + 2,
    {
        proof {
            reveal(CpuView::operate);
        }
        let m = self.fetch(mode);
        self.add_with_carry(m);
        1
    }

    fn SBC(&mut self, mode: AddrMode) -> (r: u8)
        requires
            old(self)@.wf(),
        ensures
            (final(self)@, r) == old(self)@.operate(Op::SBC, mode),
            final(self)@.wf(),
            r <= 1,
            old(self).cycles <= final(self).cycles <= old(self).cycles + 2,
    {
        proof {
            reveal(CpuView::operate);
        }
        let m = self.fetch(mode);
        self.add_with_carry(0xFF - m);
        1
    }

    fn AND(&mut self, mode: AddrMode) -> (r: u8)
        requires
            old(self)@.wf(),
        ensures
            (final(self)@, r) == old(self)@.operate(Op::AND, mode),
            final(self)@.wf(),
            r <= 1,
            old(self).cycles <= final(self).cycles <= old(self).cycles + 2,
    {
        proof {
            reveal(CpuView::operate);
        }
        let m = self.fetch(mode);
        self.a = self.a & m;
        self.set_zn(self.a);
        1
    }

    fn ORA(&mut self, mode: AddrMode) -> (r: u8)
        requires
            old(self)@.wf(),
        ensures
            (final(self)@, r) == old(self)@.operate(Op::ORA, mode),
            final(self)@.wf(),
            r <= 1,
            old(self).cycles <= final(self).cycles <= old(self).cycles + 2,
    {
        proof {
            reveal(CpuView::operate);
        }
        let m = self.fetch(mode);
        self.a = self.a | m;
        self.set_zn(self.a);
        1
    }

    fn EOR(&mut self, mode: AddrMode) -> (r: u8)
        requires
            old(self)@.wf(),
        ensures
            (final(self)@, r) == old(self)@.operate(Op::EOR, mode),
            final(self)@.wf(),
            r <= 1,
            old(self).cycles <= final(self).cycles <= old(self).cycles + 2,
    {
        proof {
            reveal(CpuView::operate);
        }
        let m = self.fetch(mode);
        self.a = self.a ^ m;
        self.set_zn(self.a);
        1
    }

    fn ASL(&mut self, mode: AddrMode) -> (r: u8)
        requires
            old(self)@.wf(),
        ensures
            (final(self)@, r) == old(self)@.operate(Op::ASL, mode),
            final(self)@.wf(),
            r <= 1,
            old(self).cycles <= final(self).cycles <= old(self).cycles + 2,
    {
        proof {
            reveal(CpuView::operate);
        }
        let m = self.fetch(mode);
        let r = m.wrapping_add(m);
        self.shift_result(mode, m >= 0x80, r);
        0
    }

    fn LSR(&mut self, mode: AddrMode) -> (r: u8)
        requires
            old(self)@.wf(),
        ensures
            (final(self)@, r) == old(self)@.operate(Op::LSR, mode),
            final(self)@.wf(),
            r <= 1,
            old(self).cycles <= final(self).cycles <= old(self).cycles + 2,
    {
        proof {
            reveal(CpuView::operate);
        }
        let m = self.fetch(mode);
        self.shift_result(mode, m % 2 == 1, m / 2);
        0
    }

    fn ROL(&mut self, mode: AddrMode) -> (r: u8)
        requires
            old(self)@.wf(),
        ensures
            (final(self)@, r) == old(self)@.operate(Op::ROL, mode),
            final(self)@.wf(),
            r <= 1,
            old(self).cycles <= final(self).cycles <= old(self).cycles + 2,
    {
        proof {
            reveal(CpuView::operate);
        }
        let m = self.fetch(mode);
        let carry_in: u16 = if self.read_flag(StatusFlag::C) {
            1
        } else {
            0
        };
        let wide = m as u16 * 2 + carry_in;
        let r = if wide > 0xFF {
            (wide - 0x100) as u8
        } else {
            wide as u8
        };
        self.shift_result(mode, m >= 0x80, r);
        0
    }

    fn ROR(&mut self, mode: AddrMode) -> (r: u8)
        requires
            old(self)@.wf(),
        ensures
            (final(self)@, r) == old(self)@.operate(Op::ROR, mode),
            final(self)@.wf(),
            r <= 1,
            old(self).cycles <= final(self).cycles <= old(self).cycles + 2,
    {
        proof {
            reveal(CpuView::operate);
        }
        let m = self.fetch(mode);
        let carry_in: u8 = if self.read_flag(StatusFlag::C) {
            0x80
        } else {
            0
        };
        self.shift_result(mode, m % 2 == 1, m / 2 + carry_in);
        0
    }

    fn BCC(&mut self, mode: AddrMode) -> (r: u8)
        requires
            old(self)@.wf(),
            old(self).cycles <= 7,
        ensures
            (final(self)@, r) == old(self)@.operate(Op::BCC, mode),
            final(self)@.wf(),
            r <= 1,
            old(self).cycles <= final(self).cycles <= old(self).cycles + 2,
    {
        proof {
            reveal(CpuView::operate);
        }
        let taken = !self.read_flag(StatusFlag::C);
        self.branch(taken);
        0
    }

    fn BCS(&mut self, mode: AddrMode) -> (r: u8)
        requires
            old(self)@.wf(),
            old(self).cycles <= 7,
        ensures
            (final(self)@, r) == old(self)@.operate(Op::BCS, mode),
            final(self)@.wf(),
            r <= 1,
            old(self).cycles <= final(self).cycles <= old(self).cycles + 2,
    {
        proof {
            reveal(CpuView::operate);
        }
        let taken = self.read_flag(StatusFlag::C);
        self.branch(taken);
        0
    }

    fn BEQ(&mut self, mode: AddrMode) -> (r: u8)
        requires
            old(self)@.wf(),
            old(self).cycles <= 7,
        ensures
            (final(self)@, r) == old(self)@.operate(Op::BEQ, mode),
            final(self)@.wf(),
            r <= 1,
            old(self).cycles <= final(self).cycles <= old(self).cycles + 2,
    {
        proof {
            reveal(CpuView::operate);
        }
        let taken = self.read_flag(StatusFlag::Z);
        self.branch(taken);
        0
    }

    fn BMI(&mut self, mode: AddrMode) -> (r: u8)
        requires
            old(self)@.wf(),
            old(self).cycles <= 7,
        ensures
            (final(self)@, r) == old(self)@.operate(Op::BMI, mode),
            final(self)@.wf(),
            r <= 1,
            old(self).cycles <= final(self).cycles <= old(self).cycles + 2,
    {
        proof {
            reveal(CpuView::operate);
        }
        let taken = self.read_flag(StatusFlag::N);
        self.branch(taken);
        0
    }

    fn BNE(&mut self, mode: AddrMode) -> (r: u8)
        requires
            old(self)@.wf(),
            old(self).cycles <= 7,
        ensures
            (final(self)@, r) == old(self)@.operate(Op::BNE, mode),
            final(self)@.wf(),
            r <= 1,
            old(self).cycles <= final(self).cycles <= old(self).cycles + 2,
    {
        proof {
            reveal(CpuView::operate);
        }
        let taken = !self.read_flag(StatusFlag::Z);
        self.branch(taken);
        0
    }

    fn BPL(&mut self, mode: AddrMode) -> (r: u8)
        requires
            old(self)@.wf(),
            old(self).cycles <= 7,
        ensures
            (final(self)@, r) == old(self)@.operate(Op::BPL, mode),
            final(self)@.wf(),
            r <= 1,
            old(self).cycles <= final(self).cycles <= old(self).cycles + 2,
    {
        proof {
            reveal(CpuView::operate);
        }
        let taken = !self.read_flag(StatusFlag::N);
        self.branch(taken);
        0
    }

    fn BVC(&mut self, mode: AddrMode) -> (r: u8)
        requires
            old(self)@.wf(),
            old(self).cycles <= 7,
        ensures
            (final(self)@, r) == old(self)@.operate(Op::BVC, mode),
            final(self)@.wf(),
            r <= 1,
            old(self).cycles <= final(self).cycles <= old(self).cycles + 2,
    {
        proof {
            reveal(CpuView::operate);
        }
        let taken = !self.read_flag(StatusFlag::V);
        self.branch(taken);
        0
    }

    fn BVS(&mut self, mode: AddrMode) -> (r: u8)
        requires
            old(self)@.wf(),
            old(self).cycles <= 7,
        ensures
            (final(self)@, r) == old(self)@.operate(Op::BVS, mode),
            final(self)@.wf(),
            r <= 1,
            old(self).cycles <= final(self).cycles <= old(self).cycles + 2,
    {
        proof {
            reveal(CpuView::operate);
        }
        let taken = self.read_flag(StatusFlag::V);
        self.branch(taken);
        0
    }

    fn BIT(&mut self, mode: AddrMode) -> (r: u8)
        requires
            old(self)@.wf(),
        ensures
            (final(self)@, r) == old(self)@.operate(Op::BIT, mode),
            final(self)@.wf(),
            r <= 1,
            old(self).cycles <= final(self).cycles <= old(self).cycles + 2,
    {
        proof {
            reveal(CpuView::operate);
        }
        let m = self.fetch(mode);
        self.set_flag(StatusFlag::Z, self.a & m == 0);
        self.set_flag(StatusFlag::N, m >= 0x80);
        self.set_flag(StatusFlag::V, m & 0x40 != 0);
        0
    }

    fn BRK(&mut self, mode: AddrMode) -> (r: u8)
        requires
            old(self)@.wf(),
        ensures
            (final(self)@, r) == old(self)@.operate(Op::BRK, mode),
            final(self)@.wf(),
            r <= 1,
            old(self).cycles <= final(self).cycles <= old(self).cycles + 2,
    {
        proof {
            reveal(CpuView::operate);
        }
        self.pc = self.pc.wrapping_add(1);
        self.set_flag(StatusFlag::I, true);
        self.push((self.pc / 0x100) as u8);
        self.push((self.pc % 0x100) as u8);
        self.set_flag(StatusFlag::B, true);
        let status = self.status;
        self.push(status);
        self.set_flag(StatusFlag::B, false);
        let lo = self.read(IRQ_VECTOR);
        let hi = self.read(IRQ_VECTOR + 1);
        self.pc = hi as u16 * 0x100 + lo as u16;
        0
    }

    fn CLC(&mut self, mode: AddrMode) -> (r: u8)
        requires
            old(self)@.wf(),
        ensures
            (final(self)@, r) == old(self)@.operate(Op::CLC, mode),
            final(self)@.wf(),
            r <= 1,
            old(self).cycles <= final(self).cycles <= old(self).cycles + 2,
    {
        proof {
            reveal(CpuView::operate);
        }
        self.set_flag(StatusFlag::C, false);
        0
    }

    fn CLD(&mut self, mode: AddrMode) -> (r: u8)
        requires
            old(self)@.wf(),
        ensures
            (final(self)@, r) == old(self)@.operate(Op::CLD, mode),
            final(self)@.wf(),
            r <= 1,
            old(self).cycles <= final(self).cycles <= old(self).cycles + 2,
    {
        proof {
            reveal(CpuView::operate);
        }
        self.set_flag(StatusFlag::D, false);
        0
    }

    fn CLI(&mut self, mode: AddrMode) -> (r: u8)
        requires
            old(self)@.wf(),
        ensures
            (final(self)@, r) == old(self)@.operate(Op::CLI, mode),
            final(self)@.wf(),
            r <= 1,
            old(self).cycles <= final(self).cycles <= old(self).cycles + 2,
    {
        proof {
            reveal(CpuView::operate);
        }
        self.set_flag(StatusFlag::I, false);
        0
    }

    fn CLV(&mut self, mode: AddrMode) -> (r: u8)
        requires
            old(self)@.wf(),
        ensures
            (final(self)@, r) == old(self)@.operate(Op::CLV, mode),
            final(self)@.wf(),
            r <= 1,
            old(self).cycles <= final(self).cycles <= old(self).cycles + 2,
    {
        proof {
            reveal(CpuView::operate);
        }
        self.set_flag(StatusFlag::V, false);
        0
    }

    fn SEC(&mut self, mode: AddrMode) -> (r: u8)
        requires
            old(self)@.wf(),
        ensures
            (final(self)@, r) == old(self)@.operate(Op::SEC, mode),
            final(self)@.wf(),
            r <= 1,
            old(self).cycles <= final(self).cycles <= old(self).cycles + 2,
    {
        proof {
            reveal(CpuView::operate);
        }
        self.set_flag(StatusFlag::C, true);
        0
    }

    fn SED(&mut self, mode: AddrMode) -> (r: u8)
        requires
            old(self)@.wf(),
        ensures
            (final(self)@, r) == old(self)@.operate(Op::SED, mode),
            final(self)@.wf(),
            r <= 1,
            old(self).cycles <= final(self).cycles <= old(self).cycles + 2,
    {
        proof {
            reveal(CpuView::operate);
        }
        self.set_flag(StatusFlag::D, true);
        0
    }

    fn SEI(&mut self, mode: AddrMode) -> (r: u8)
        requires
            old(self)@.wf(),
        ensures
            (final(self)@, r) == old(self)@.operate(Op::SEI, mode),
            final(self)@.wf(),
            r <= 1,
            old(self).cycles <= final(self).cycles <= old(self).cycles + 2,
    {
        proof {
            reveal(CpuView::operate);
        }
        self.set_flag(StatusFlag::I, true);
        0
    }

    fn CMP(&mut self, mode: AddrMode) -> (r: u8)
        requires
            old(self)@.wf(),
        ensures
            (final(self)@, r) == old(self)@.operate(Op::CMP, mode),
            final(self)@.wf(),
            r <= 1,
            old(self).cycles <= final(self).cycles <= old(self).cycles + 2,
    {
        proof {
            reveal(CpuView::operate);
        }
        self.fetch(mode);
        self.compare(self.a);
        1
    }

    fn CPX(&mut self, mode: AddrMode) -> (r: u8)
        requires
            old(self)@.wf(),
        ensures
            (final(self)@, r) == old(self)@.operate(Op::CPX, mode),
            final(self)@.wf(),
            r <= 1,
            old(self).cycles <= final(self).cycles <= old(self).cycles + 2,
    {
        proof {
            reveal(CpuView::operate);
        }
        self.fetch(mode);
        self.compare(self.x);
        0
    }

    fn CPY(&mut self, mode: AddrMode) -> (r: u8)
        requires
            old(self)@.wf(),
        ensures
            (final(self)@, r) == old(self)@.operate(Op::CPY, mode),
            final(self)@.wf(),
            r <= 1,
            old(self).cycles <= final(self).cycles <= old(self).cycles + 2,
    {
        proof {
            reveal(CpuView::operate);
        }
        self.fetch(mode);
        self.compare(self.y);
        0
    }

    fn DEC(&mut self, mode: AddrMode) -> (r: u8)
        requires
            old(self)@.wf(),
        ensures
            (final(self)@, r) == old(self)@.operate(Op::DEC, mode),
            final(self)@.wf(),
            r <= 1,
            old(self).cycles <= final(self).cycles <= old(self).cycles + 2,
    {
        proof {
            reveal(CpuView::operate);
        }
        let m = self.fetch(mode);
        let r = m.wrapping_sub(1);
        self.write(self.addr_abs, r);
        self.set_zn(r);
        0
    }

    fn INC(&mut self, mode: AddrMode) -> (r: u8)
        requires
            old(self)@.wf(),
        ensures
            (final(self)@, r) == old(self)@.operate(Op::INC, mode),
            final(self)@.wf(),
            r <= 1,
            old(self).cycles <= final(self).cycles <= old(self).cycles + 2,
    {
        proof {
            reveal(CpuView::operate);
        }
        let m = self.fetch(mode);
        let r = m.wrapping_add(1);
        self.write(self.addr_abs, r);
        self.set_zn(r);
        0
    }

    fn DEX(&mut self, mode: AddrMode) -> (r: u8)
        requires
            old(self)@.wf(),
        ensures
            (final(self)@, r) == old(self)@.operate(Op::DEX, mode),
            final(self)@.wf(),
            r <= 1,
            old(self).cycles <= final(self).cycles <= old(self).cycles + 2,
    {
        proof {
            reveal(CpuView::operate);
        }
        self.x = self.x.wrapping_sub(1);
        self.set_zn(self.x);
        0
    }

    fn DEY(&mut self, mode: AddrMode) -> (r: u8)
        requires
            old(self)@.wf(),
        ensures
            (final(self)@, r) == old(self)@.operate(Op::DEY, mode),
            final(self)@.wf(),
            r <= 1,
            old(self).cycles <= final(self).cycles <= old(self).cycles + 2,
    {
        proof {
            reveal(CpuView::operate);
        }
        self.y = self.y.wrapping_sub(1);
        self.set_zn(self.y);
        0
    }

    fn INX(&mut self, mode: AddrMode) -> (r: u8)
        requires
            old(self)@.wf(),
        ensures
            (final(self)@, r) == old(self)@.operate(Op::INX, mode),
            final(self)@.wf(),
            r <= 1,
            old(self).cycles <= final(self).cycles <= old(self).cycles + 2,
    {
        proof {
            reveal(CpuView::operate);
        }
        self.x = self.x.wrapping_add(1);
        self.set_zn(self.x);
        0
    }

    fn INY(&mut self, mode: AddrMode) -> (r: u8)
        requires
            old(self)@.wf(),
        ensures
            (final(self)@, r) == old(self)@.operate(Op::INY, mode),
            final(self)@.wf(),
            r <= 1,
            old(self).cycles <= final(self).cycles <= old(self).cycles + 2,
    {
        proof {
            reveal(CpuView::operate);
        }
        self.y = self.y.wrapping_add(1);
        self.set_zn(self.y);
        0
    }

    fn JMP(&mut self, mode: AddrMode) -> (r: u8)
        requires
            old(self)@.wf(),
        ensures
            (final(self)@, r) == old(self)@.operate(Op::JMP, mode),
            final(self)@.wf(),
            r <= 1,
            old(self).cycles <= final(self).cycles <= old(self).cycles + 2,
    {
        proof {
            reveal(CpuView::operate);
        }
        self.pc = self.addr_abs;
        0
    }

    fn JSR(&mut self, mode: AddrMode) -> (r: u8)
        requires
            old(self)@.wf(),
        ensures
            (final(self)@, r) == old(self)@.operate(Op::JSR, mode),
            final(self)@.wf(),
            r <= 1,
            old(self).cycles <= final(self).cycles <= old(self).cycles + 2,
    {
        proof {
            reveal(CpuView::operate);
        }
        self.pc = self.pc.wrapping_sub(1);
        self.push((self.pc / 0x100) as u8);
        self.push((self.pc % 0x100) as u8);
        self.pc = self.addr_abs;
        0
    }

    fn LDA(&mut self, mode: AddrMode) -> (r: u8)
        requires
            old(self)@.wf(),
        ensures
            (final(self)@, r) == old(self)@.operate(Op::LDA, mode),
            final(self)@.wf(),
            r <= 1,
            old(self).cycles <= final(self).cycles <= old(self).cycles + 2,
    {
        proof {
            reveal(CpuView::operate);
        }
        let m = self.fetch(mode);
        self.a = m;
        self.set_zn(m);
        1
    }

    fn LDX(&mut self, mode: AddrMode) -> (r: u8)
        requires
            old(self)@.wf(),
        ensures
            (final(self)@, r) == old(self)@.operate(Op::LDX, mode),
            final(self)@.wf(),
            r <= 1,
            old(self).cycles <= final(self).cycles <= old(self).cycles + 2,
    {
        proof {
            reveal(CpuView::operate);
        }
        let m = self.fetch(mode);
        self.x = m;
        self.set_zn(m);
        1
    }

    fn LDY(&mut self, mode: AddrMode) -> (r: u8)
        requires
            old(self)@.wf(),
        ensures
            (final(self)@, r) == old(self)@.operate(Op::LDY, mode),
            final(self)@.wf(),
            r <= 1,
            old(self).cycles <= final(self).cycles <= old(self).cycles + 2,
    {
        proof {
            reveal(CpuView::operate);
        }
        let m = self.fetch(mode);
        self.y = m;
        self.set_zn(m);
        1
    }

    fn NOP(&mut self, mode: AddrMode) -> (r: u8)
        requires
            old(self)@.wf(),
        ensures
            (final(self)@, r) == old(self)@.operate(Op::NOP, mode),
            final(self)@.wf(),
            r <= 1,
            old(self).cycles <= final(self).cycles <= old(self).cycles + 2,
    {
        proof {
            reveal(CpuView::operate);
        }
        if self.opcode == 0xFC {
            1
        } else {
            0
        }
    }

    fn PHA(&mut self, mode: AddrMode) -> (r: u8)
        requires
            old(self)@.wf(),
        ensures
            (final(self)@, r) == old(self)@.operate(Op::PHA, mode),
            final(self)@.wf(),
            r <= 1,
            old(self).cycles <= final(self).cycles <= old(self).cycles + 2,
    {
        proof {
            reveal(CpuView::operate);
        }
        let a = self.a;
        self.push(a);
        0
    }

    fn PHP(&mut self, mode: AddrMode) -> (r: u8)
        requires
            old(self)@.wf(),
        ensures
            (final(self)@, r) == old(self)@.operate(Op::PHP, mode),
            final(self)@.wf(),
            r <= 1,
            old(self).cycles <= final(self).cycles <= old(self).cycles + 2,
    {
        proof {
            reveal(CpuView::operate);
        }
        let pushed = self.status | StatusFlag::B.mask() | StatusFlag::U.mask();
        self.push(pushed);
        self.set_flag(StatusFlag::B, false);
        self.set_flag(StatusFlag::U, false);
        0
    }

    fn PLA(&mut self, mode: AddrMode) -> (r: u8)
        requires
            old(self)@.wf(),
        ensures
            (final(self)@, r) == old(self)@.operate(Op::PLA, mode),
            final(self)@.wf(),
            r <= 1,
            old(self).cycles <= final(self).cycles <= old(self).cycles + 2,
    {
        proof {
            reveal(CpuView::operate);
        }
        let v = self.pull();
        self.a = v;
        self.set_zn(v);
        0
    }

    fn PLP(&mut self, mode: AddrMode) -> (r: u8)
        requires
            old(self)@.wf(),
        ensures
            (final(self)@, r) == old(self)@.operate(Op::PLP, mode),
            final(self)@.wf(),
            r <= 1,
            old(self).cycles <= final(self).cycles <= old(self).cycles + 2,
    {
        proof {
            reveal(CpuView::operate);
        }
        self.status = self.pull();
        self.set_flag(StatusFlag::U, true);
        0
    }

    fn RTI(&mut self, mode: AddrMode) -> (r: u8)
        requires
            old(self)@.wf(),
        ensures
            (final(self)@, r) == old(self)@.operate(Op::RTI, mode),
            final(self)@.wf(),
            r <= 1,
            old(self).cycles <= final(self).cycles <= old(self).cycles + 2,
    {
        proof {
            reveal(CpuView::operate);
        }
        self.status = self.pull();
        self.set_flag(StatusFlag::B, false);
        self.set_flag(StatusFlag::U, false);
        let lo = self.pull();
        let hi = self.pull();
        self.pc = hi as u16 * 0x100 + lo as u16;
        0
    }

    fn RTS(&mut self, mode: AddrMode) -> (r: u8)
        requires
            old(self)@.wf(),
        ensures
            (final(self)@, r) == old(self)@.operate(Op::RTS, mode),
            final(self)@.wf(),
            r <= 1,
            old(self).cycles <= final(self).cycles <= old(self).cycles + 2,
    {
        proof {
            reveal(CpuView::operate);
        }
        let lo = self.pull();
        let hi = self.pull();
        self.pc = (hi as u16 * 0x100 + lo as u16).wrapping_add(1);
        0
    }

    fn STA(&mut self, mode: AddrMode) -> (r: u8)
        requires
            old(self)@.wf(),
        ensures
            (final(self)@, r) == old(self)@.operate(Op::STA, mode),
            final(self)@.wf(),
            r <= 1,
            old(self).cycles <= final(self).cycles <= old(self).cycles + 2,
    {
        proof {
            reveal(CpuView::operate);
        }
        self.write(self.addr_abs, self.a);
        0
    }

    fn STX(&mut self, mode: AddrMode) -> (r: u8)
        requires
            old(self)@.wf(),
        ensures
            (final(self)@, r) == old(self)@.operate(Op::STX, mode),
            final(self)@.wf(),
            r <= 1,
            old(self).cycles <= final(self).cycles <= old(self).cycles + 2,
    {
        proof {
            reveal(CpuView::operate);
        }
        self.write(self.addr_abs, self.x);
        0
    }

    fn STY(&mut self, mode: AddrMode) -> (r: u8)
        requires
            old(self)@.wf(),
        ensures
            (final(self)@, r) == old(self)@.operate(Op::STY, mode),
            final(self)@.wf(),
            r <= 1,
            old(self).cycles <= final(self).cycles <= old(self).cycles + 2,
    {
        proof {
            reveal(CpuView::operate);
        }
        self.write(self.addr_abs, self.y);
        0
    }

    fn TAX(&mut self, mode: AddrMode) -> (r: u8)
        requires
            old(self)@.wf(),
        ensures
            (final(self)@, r) == old(self)@.operate(Op::TAX, mode),
            final(self)@.wf(),
            r <= 1,
            old(self).cycles <= final(self).cycles <= old(self).cycles + 2,
    {
        proof {
            reveal(CpuView::operate);
        }
        self.x = self.a;
        self.set_zn(self.x);
        0
    }

    fn TAY(&mut self, mode: AddrMode) -> (r: u8)
        requires
            old(self)@.wf(),
        ensures
            (final(self)@, r) == old(self)@.operate(Op::TAY, mode),
            final(self)@.wf(),
            r <= 1,
            old(self).cycles <= final(self).cycles <= old(self).cycles + 2,
    {
        proof {
            reveal(CpuView::operate);
        }
        self.y = self.a;
        self.set_zn(self.y);
        0
    }

    fn TSX(&mut self, mode: AddrMode) -> (r: u8)
        requires
            old(self)@.wf(),
        ensures
            (final(self)@, r) == old(self)@.operate(Op::TSX, mode),
            final(self)@.wf(),
            r <= 1,
            old(self).cycles <= final(self).cycles <= old(self).cycles + 2,
    {
        proof {
            reveal(CpuView::operate);
        }
        self.x = self.sp;
        self.set_zn(self.x);
        0
    }

    fn TXA(&mut self, mode: AddrMode) -> (r: u8)
        requires
            old(self)@.wf(),
        ensures
            (final(self)@, r) == old(self)@.operate(Op::TXA, mode),
            final(self)@.wf(),
            r <= 1,
            old(self).cycles <= final(self).cycles <= old(self).cycles + 2,
    {
        proof {
            reveal(CpuView::operate);
        }
        self.a = self.x;
        self.set_zn(self.a);
        0
    }

    fn TXS(&mut self, mode: AddrMode) -> (r: u8)
        requires
            old(self)@.wf(),
        ensures
            (final(self)@, r) == old(self)@.operate(Op::TXS, mode),
            final(self)@.wf(),
            r <= 1,
            old(self).cycles <= final(self).cycles <= old(self).cycles + 2,
    {
        proof {
            reveal(CpuView::operate);
        }
        self.sp = self.x;
        0
    }

    fn TYA(&mut self, mode: AddrMode) -> (r: u8)
        requires
            old(self)@.wf(),
        ensures
            (final(self)@, r) == old(self)@.operate(Op::TYA, mode),
            final(self)@.wf(),
            r <= 1,
            old(self).cycles <= final(self).cycles <= old(self).cycles + 2,
    {
        proof {
            reveal(CpuView::operate);
        }
        self.a = self.y;
        self.set_zn(self.a);
        0
    }

    fn UNK(&mut self, mode: AddrMode) -> (r: u8)
        requires
            old(self)@.wf(),
        ensures
            (final(self)@, r) == old(self)@.operate(Op::UNK, mode),
            final(self)@.wf(),
            r <= 1,
            old(self).cycles <= final(self).cycles <= old(self).cycles + 2,
    {
        proof {
            reveal(CpuView::operate);
        }
        0
    }

    /// Dispatch among the loads, stores and register transfers.
    fn operate_transfer(&mut self, op: Op, mode: AddrMode) -> (r: u8)
        requires
            old(self)@.wf(),
            old(self).cycles <= 7,
            op == Op::LDA || op == Op::LDX || op == Op::LDY || op == Op::STA || op == Op::STX || op == Op::STY || op == Op::TAX || op == Op::TAY || op == Op::TSX || op == Op::TXA || op == Op::TXS || op == Op::TYA,
        ensures
            (final(self)@, r) == old(self)@.operate(op, mode),
            final(self)@.wf(),
            r <= 1,
            old(self).cycles <= final(self).cycles <= old(self).cycles + 2,
    {
        match op {
            Op::LDA => self.LDA(mode),
            Op::LDX => self.LDX(mode),
            Op::LDY => self.LDY(mode),
            Op::STA => self.STA(mode),
            Op::STX => self.STX(mode),
            Op::STY => self.STY(mode),
            Op::TAX => self.TAX(mode),
            Op::TAY => self.TAY(mode),
            Op::TSX => self.TSX(mode),
            Op::TXA => self.TXA(mode),
            Op::TXS => self.TXS(mode),
            Op::TYA => self.TYA(mode),
            _ => self.UNK(mode),
        }
    }

    /// Dispatch among the arithmetic, logic and comparisons.
    fn operate_arith(&mut self, op: Op, mode: AddrMode) -> (r: u8)
        requires
            old(self)@.wf(),
            old(self).cycles <= 7,
            op == Op::ADC || op == Op::SBC || op == Op::AND || op == Op::ORA || op == Op::EOR || op == Op::BIT || op == Op::CMP || op == Op::CPX || op == Op::CPY,
        ensures
            (final(self)@, r) == old(self)@.operate(op, mode),
            final(self)@.wf(),
            r <= 1,
            old(self).cycles <= final(self).cycles <= old(self).cycles + 2,
    {
        match op {
            Op::ADC => self.ADC(mode),
            Op::SBC => self.SBC(mode),
            Op::AND => self.AND(mode),
            Op::ORA => self.ORA(mode),
            Op::EOR => self.EOR(mode),
            Op::BIT => self.BIT(mode),
            Op::CMP => self.CMP(mode),
            Op::CPX => self.CPX(mode),
            Op::CPY => self.CPY(mode),
            _ => self.UNK(mode),
        }
    }

    /// Dispatch among the shifts, rotates, increments and decrements.
    fn operate_shift(&mut self, op: Op, mode: AddrMode) -> (r: u8)
        requires
            old(self)@.wf(),
            old(self).cycles <= 7,
            op == Op::ASL || op == Op::LSR || op == Op::ROL || op == Op::ROR || op == Op::DEC || op == Op::INC || op == Op::DEX || op == Op::DEY || op == Op::INX || op == Op::INY,
        ensures
            (final(self)@, r) == old(self)@.operate(op, mode),
            final(self)@.wf(),
            r <= 1,
            old(self).cycles <= final(self).cycles <= old(self).cycles + 2,
    {
        match op {
            Op::ASL => self.ASL(mode),
            Op::LSR => self.LSR(mode),
            Op::ROL => self.ROL(mode),
            Op::ROR => self.ROR(mode),
            Op::DEC => self.DEC(mode),
            Op::INC => self.INC(mode),
            Op::DEX => self.DEX(mode),
            Op::DEY => self.DEY(mode),
            Op::INX => self.INX(mode),
            Op::INY => self.INY(mode),
            _ => self.UNK(mode),
        }
    }

    /// Dispatch among the conditional branches.
    fn operate_branch(&mut self, op: Op, mode: AddrMode) -> (r: u8)
        requires
            old(self)@.wf(),
            old(self).cycles <= 7,
            op == Op::BCC || op == Op::BCS || op == Op::BEQ || op == Op::BMI || op == Op::BNE || op == Op::BPL || op == Op::BVC || op == Op::BVS,
        ensures
            (final(self)@, r) == old(self)@.operate(op, mode),
            final(self)@.wf(),
            r <= 1,
            old(self).cycles <= final(self).cycles <= old(self).cycles + 2,
    {
        match op {
            Op::BCC => self.BCC(mode),
            Op::BCS => self.BCS(mode),
            Op::BEQ => self.BEQ(mode),
            Op::BMI => self.BMI(mode),
            Op::BNE => self.BNE(mode),
            Op::BPL => self.BPL(mode),
            Op::BVC => self.BVC(mode),
            Op::BVS => self.BVS(mode),
            _ => self.UNK(mode),
        }
    }

    /// Dispatch among the flag set and clear.
    fn operate_flags(&mut self, op: Op, mode: AddrMode) -> (r: u8)
        requires
            old(self)@.wf(),
            old(self).cycles <= 7,
            op == Op::CLC || op == Op::CLD || op == Op::CLI || op == Op::CLV || op == Op::SEC || op == Op::SED || op == Op::SEI,
        ensures
            (final(self)@, r) == old(self)@.operate(op, mode),
            final(self)@.wf(),
            r <= 1,
            old(self).cycles <= final(self).cycles <= old(self).cycles + 2,
    {
        match op {
            Op::CLC => self.CLC(mode),
            Op::CLD => self.CLD(mode),
            Op::CLI => self.CLI(mode),
            Op::CLV => self.CLV(mode),
            Op::SEC => self.SEC(mode),
            Op::SED => self.SED(mode),
            Op::SEI => self.SEI(mode),
            _ => self.UNK(mode),
        }
    }

    /// Dispatch among the jumps, interrupts, the stack, and no-ops.
    fn operate_control(&mut self, op: Op, mode: AddrMode) -> (r: u8)
        requires
            old(self)@.wf(),
            old(self).cycles <= 7,
            op == Op::BRK || op == Op::JMP || op == Op::JSR || op == Op::RTI || op == Op::RTS || op == Op::PHA || op == Op::PHP || op == Op::PLA || op == Op::PLP || op == Op::NOP || op == Op::UNK,
        ensures
            (final(self)@, r) == old(self)@.operate(op, mode),
            final(self)@.wf(),
            r <= 1,
            old(self).cycles <= final(self).cycles <= old(self).cycles + 2,
    {
        match op {
            Op::BRK => self.BRK(mode),
            Op::JMP => self.JMP(mode),
            Op::JSR => self.JSR(mode),
            Op::RTI => self.RTI(mode),
            Op::RTS => self.RTS(mode),
            Op::PHA => self.PHA(mode),
            Op::PHP => self.PHP(mode),
            Op::PLA => self.PLA(mode),
            Op::PLP => self.PLP(mode),
            Op::NOP => self.NOP(mode),
            Op::UNK => self.UNK(mode),
            _ => self.UNK(mode),
        }
    }

    /// Runs the operation `op` on the operand that `mode` resolved.
    fn operate(&mut self, op: Op, mode: AddrMode) -> (r: u8)
        requires
            old(self)@.wf(),
            old(self).cycles <= 7,
        ensures
            (final(self)@, r) == old(self)@.operate(op, mode),
            final(self)@.wf(),
            r <= 1,
            old(self).cycles <= final(self).cycles <= old(self).cycles + 2,
    {
        match op {
            Op::LDA | Op::LDX | Op::LDY | Op::STA | Op::STX | Op::STY | Op::TAX | Op::TAY | Op::TSX | Op::TXA | Op::TXS | Op::TYA => self.operate_transfer(op, mode),
            Op::ADC | Op::SBC | Op::AND | Op::ORA | Op::EOR | Op::BIT | Op::CMP | Op::CPX | Op::CPY => self.operate_arith(op, mode),
            Op::ASL | Op::LSR | Op::ROL | Op::ROR | Op::DEC | Op::INC | Op::DEX | Op::DEY | Op::INX | Op::INY => self.operate_shift(op, mode),
            Op::BCC | Op::BCS | Op::BEQ | Op::BMI | Op::BNE | Op::BPL | Op::BVC | Op::BVS => self.operate_branch(op, mode),
            Op::CLC | Op::CLD | Op::CLI | Op::CLV | Op::SEC | Op::SED | Op::SEI => self.operate_flags(op, mode),
            Op::BRK | Op::JMP | Op::JSR | Op::RTI | Op::RTS | Op::PHA | Op::PHP | Op::PLA | Op::PLP | Op::NOP | Op::UNK => self.operate_control(op, mode),
        }
    }

    /// Resolves the operand of the instruction in flight.
    fn address(&mut self, mode: AddrMode) -> (r: u8)
        requires
            old(self)@.wf(),
        ensures
            (final(self)@, r) == old(self)@.address(mode),
            final(self)@.wf(),
            r <= 1,
            final(self).cycles == old(self).cycles,
    {
        match mode {
            AddrMode::IMP => self.IMP(),
            AddrMode::IMM => self.IMM(),
            AddrMode::ZP0 => self.ZP0(),
            AddrMode::ZPX => self.ZPX(),
            AddrMode::ZPY => self.ZPY(),
            AddrMode::REL => self.REL(),
            AddrMode::ABS => self.ABS(),
            AddrMode::ABX => self.ABX(),
            AddrMode::ABY => self.ABY(),
            AddrMode::IND => self.IND(),
            AddrMode::IZX => self.IZX(),
            AddrMode::IZY => self.IZY(),
        }
    }

    /// Pushes the return address and the status (Break clear, Unused set),
    /// sets Interrupt disable, and jumps through the vector at `vector`.
    fn interrupt(&mut self, vector: u16)
        requires
            old(self)@.wf(),
            vector < 0xFFFF,
        ensures
            final(self)@ == old(self)@.interrupt(vector),
            final(self)@.wf(),
    {
        self.push((self.pc / 0x100) as u8);
        self.push((self.pc % 0x100) as u8);
        self.set_flag(StatusFlag::B, false);
        self.set_flag(StatusFlag::U, true);
        let status = self.status;
        self.push(status);
        self.set_flag(StatusFlag::I, true);
        self.addr_abs = vector;
        let lo = self.read(vector);
        let hi = self.read(vector + 1);
        self.pc = hi as u16 * 0x100 + lo as u16;
        self.cycles = 7;
    }

    /// Maskable interrupt request, honoured only while Interrupt disable is
    /// clear; the handler address is read from `$FFFE`.
    pub fn irq(&mut self)
        requires
            old(self)@.wf(),
        ensures
            final(self)@ == old(self)@.irq(),
            final(self)@.wf(),
    {
        if !self.read_flag(StatusFlag::I) {
            self.interrupt(IRQ_VECTOR);
        }
    }

    /// Non-maskable interrupt request; the handler address is read from
    /// `$FFFA`.
    pub fn nmi(&mut self)
        requires
            old(self)@.wf(),
        ensures
            final(self)@ == old(self)@.nmi(),
            final(self)@.wf(),
    {
        self.interrupt(NMI_VECTOR);
    }

    /// Advances one clock cycle. At an instruction boundary the next
    /// instruction is fetched, decoded and executed, and its cost loaded:
    /// the base cost, plus one cycle only when both its addressing mode and
    /// its operation ask for one (and, for a taken branch, the branch's own
    /// extra cycles). Mid-instruction only the remaining count drops by one.
    pub fn clock(&mut self)
        requires
            old(self)@.wf(),
        ensures
            final(self)@ == old(self)@.clock(),
            final(self)@.wf(),
    {
        if self.cycles == 0 {
            self.opcode = self.read(self.pc);
            self.set_flag(StatusFlag::U, true);
            self.pc = self.pc.wrapping_add(1);
            let ins = self.lookup[self.opcode as usize];
            self.cycles = ins.cycles;
            let extra_mode = self.address(ins.addr_mode);
            let extra_op = self.operate(ins.operation, ins.addr_mode);
            if extra_mode == 1 && extra_op == 1 {
                self.cycles = self.cycles + 1;
            }
            self.set_flag(StatusFlag::U, true);
        } else {
            self.cycles = self.cycles - 1;
        }
        self.clock_count = self.clock_count.wrapping_add(1);
    }

    /// Whether the CPU stands between two instructions.
    pub fn complete(&self) -> (r: bool)
        ensures
            r == (self@.cycles == 0),
    {
        self.cycles == 0
    }
}

} // verus!
