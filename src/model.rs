use vstd::prelude::*;

use crate::bus::BusView;
use crate::opcodes::{instruction_of, AddrMode, Instruction, Op};

verus! {

/// The bits of the status register.
#[derive(Clone, Copy, Debug, PartialEq, Eq, Structural)]
pub enum StatusFlag {
    /// Carry (bit 0).
    C,
    /// Zero (bit 1).
    Z,
    /// Interrupt disable (bit 2).
    I,
    /// Decimal mode (bit 3).
    D,
    /// Break (bit 4).
    B,
    /// Unused (bit 5), kept set while instructions run.
    U,
    /// Overflow (bit 6).
    V,
    /// Negative (bit 7).
    N,
}

impl StatusFlag {
    pub open spec fn spec_mask(self) -> u8 {
        match self {
            StatusFlag::C => 0x01,
            StatusFlag::Z => 0x02,
            StatusFlag::I => 0x04,
            StatusFlag::D => 0x08,
            StatusFlag::B => 0x10,
            StatusFlag::U => 0x20,
            StatusFlag::V => 0x40,
            StatusFlag::N => 0x80,
        }
    }

    /// The flag's bit within the status byte.
    #[verifier::when_used_as_spec(spec_mask)]
    pub fn mask(self) -> (r: u8)
        ensures
            r == self.spec_mask(),
    {
        match self {
            StatusFlag::C => 0x01,
            StatusFlag::Z => 0x02,
            StatusFlag::I => 0x04,
            StatusFlag::D => 0x08,
            StatusFlag::B => 0x10,
            StatusFlag::U => 0x20,
            StatusFlag::V => 0x40,
            StatusFlag::N => 0x80,
        }
    }
}

/// Whether flag `f` is set in `status`.
pub open spec fn flag(status: u8, f: StatusFlag) -> bool {
    status & f.mask() != 0
}

/// `status` with flag `f` set to `v`, the other bits kept.
pub open spec fn with_flag(status: u8, f: StatusFlag, v: bool) -> u8 {
    if v {
        status | f.mask()
    } else {
        status & !f.mask()
    }
}

/// `status` with Zero and Negative describing the result `v`.
pub open spec fn with_zn(status: u8, v: u8) -> u8 {
    with_flag(with_flag(status, StatusFlag::Z, v == 0), StatusFlag::N, v >= 0x80)
}

/// `v` reduced modulo 256, for `v` at most one wrap outside the byte range
/// (`-256 <= v < 512`), which covers every sum and difference of bytes.
pub open spec fn wrap8(v: int) -> u8 {
    if v >= 0x100 {
        (v - 0x100) as u8
    } else if v < 0 {
        (v + 0x100) as u8
    } else {
        v as u8
    }
}

/// `v` reduced modulo 65536, for `-65536 <= v < 131072`.
pub open spec fn wrap16(v: int) -> u16 {
    if v >= 0x10000 {
        (v - 0x10000) as u16
    } else if v < 0 {
        (v + 0x10000) as u16
    } else {
        v as u16
    }
}

/// The little-endian word with bytes `lo` and `hi`.
pub open spec fn word(lo: u8, hi: u8) -> u16 {
    (hi * 0x100 + lo) as u16
}

/// High byte of a word.
pub open spec fn hi_byte(w: u16) -> u8 {
    (w / 0x100) as u8
}

/// Low byte of a word.
pub open spec fn lo_byte(w: u16) -> u8 {
    (w % 0x100) as u8
}

/// Whether two addresses lie on different 256-byte pages.
pub open spec fn crosses_page(a: u16, b: u16) -> bool {
    a / 0x100 != b / 0x100
}

/// Signed overflow of the 8-bit addition `a + b` that gave `r`: the operands
/// share a sign bit and the result's differs from it.
pub open spec fn add_overflows(a: u8, b: u8, r: u8) -> bool {
    (a >= 0x80) == (b >= 0x80) && (r >= 0x80) != (a >= 0x80)
}

/// Whether the branch operation `op` is taken under `status`.
pub open spec fn branch_taken(op: Op, status: u8) -> bool {
    match op {
        Op::BCC => !flag(status, StatusFlag::C),
        Op::BCS => flag(status, StatusFlag::C),
        Op::BEQ => flag(status, StatusFlag::Z),
        Op::BMI => flag(status, StatusFlag::N),
        Op::BNE => !flag(status, StatusFlag::Z),
        Op::BPL => !flag(status, StatusFlag::N),
        Op::BVC => !flag(status, StatusFlag::V),
        Op::BVS => flag(status, StatusFlag::V),
        _ => false,
    }
}

/// Whether `op` is one of the conditional branches.
pub open spec fn is_branch(op: Op) -> bool {
    match op {
        Op::BCC | Op::BCS | Op::BEQ | Op::BMI | Op::BNE | Op::BPL | Op::BVC | Op::BVS => true,
        _ => false,
    }
}

/// The state of the CPU and of the bus it drives.
pub struct CpuView {
    pub a: u8,
    pub x: u8,
    pub y: u8,
    pub sp: u8,
    pub pc: u16,
    pub status: u8,
    /// Operand of the instruction in flight.
    pub fetched: u8,
    /// Address resolved by the addressing mode.
    pub addr_abs: u16,
    /// Sign-extended branch offset resolved by relative addressing.
    pub addr_rel: u16,
    /// Opcode of the instruction in flight.
    pub opcode: u8,
    /// Cycles left before the next instruction starts.
    pub cycles: u8,
    /// Clock cycles elapsed, modulo 2^64.
    pub clock_count: u64,
    /// The dispatch table, indexed by opcode.
    pub lookup: Seq<Instruction>,
    pub bus: BusView,
}

impl CpuView {
    pub open spec fn wf(self) -> bool {
        &&& self.bus.wf()
        &&& self.lookup.len() == 256
        &&& forall|i: int|
            0 <= i < 256 ==> #[trigger] self.lookup[i] == instruction_of(i as u8)
                && 1 <= self.lookup[i].cycles <= 7
    }

    pub open spec fn read(self, addr: u16) -> u8 {
        self.bus.read(addr)
    }

    pub open spec fn write(self, addr: u16, v: u8) -> CpuView {
        CpuView { bus: self.bus.write(addr, v), ..self }
    }

    pub open spec fn set_flag(self, f: StatusFlag, v: bool) -> CpuView {
        CpuView { status: with_flag(self.status, f, v), ..self }
    }

    pub open spec fn set_zn(self, v: u8) -> CpuView {
        CpuView { status: with_zn(self.status, v), ..self }
    }

    /// Pushes `v` at `$0100 + sp` and moves the stack pointer down.
    pub open spec fn push(self, v: u8) -> CpuView {
        CpuView { bus: self.bus.write((0x100 + self.sp) as u16, v), sp: wrap8(self.sp - 1), ..self }
    }

    /// Moves the stack pointer up and reads the byte it then points at.
    pub open spec fn pull(self) -> (CpuView, u8) {
        let sp = wrap8(self.sp + 1);
        (CpuView { sp, ..self }, self.read((0x100 + sp) as u16))
    }

    /// Loads the operand: the byte at the resolved address, or the value
    /// implied addressing left in `fetched`.
    pub open spec fn fetch(self, mode: AddrMode) -> CpuView {
        if mode == AddrMode::IMP {
            self
        } else {
            CpuView { fetched: self.read(self.addr_abs), ..self }
        }
    }

    /// Stores the result of a shift or rotate: into the accumulator under
    /// implied addressing, else at the resolved address.
    pub open spec fn store_result(self, mode: AddrMode, v: u8) -> CpuView {
        if mode == AddrMode::IMP {
            CpuView { a: v, ..self }
        } else {
            self.write(self.addr_abs, v)
        }
    }

    /// A taken branch costs one cycle, and one more when it lands on
    /// another page.
    pub open spec fn branch(self, taken: bool) -> CpuView {
        if taken {
            let target = wrap16(self.pc + self.addr_rel);
            CpuView {
                cycles: (self.cycles + 1 + if crosses_page(target, self.pc) {
                    1int
                } else {
                    0int
                }) as u8,
                addr_abs: target,
                pc: target,
                ..self
            }
        } else {
            self
        }
    }

    /// Carry, Zero and Negative after comparing `reg` with the operand.
    pub open spec fn compare(self, reg: u8) -> CpuView {
        let d = wrap8(reg - self.fetched);
        CpuView {
            status: with_flag(
                with_flag(with_flag(self.status, StatusFlag::C, reg >= self.fetched), StatusFlag::Z, d == 0),
                StatusFlag::N,
                d >= 0x80,
            ),
            ..self
        }
    }

    /// Adds `operand` and the carry to the accumulator.
    pub open spec fn add_with_carry(self, operand: u8) -> CpuView {
        let sum = self.a + operand + if flag(self.status, StatusFlag::C) {
            1int
        } else {
            0int
        };
        let r = wrap8(sum);
        CpuView {
            a: r,
            status: with_flag(
                with_flag(
                    with_flag(with_flag(self.status, StatusFlag::C, sum > 0xFF), StatusFlag::Z, r == 0),
                    StatusFlag::V,
                    add_overflows(self.a, operand, r),
                ),
                StatusFlag::N,
                r >= 0x80,
            ),
            ..self
        }
    }

    /// Sets Carry to `carry` and stores a shift or rotate result.
    pub open spec fn shift_result(self, mode: AddrMode, carry: bool, r: u8) -> CpuView {
        self.set_flag(StatusFlag::C, carry).set_zn(r).store_result(mode, r)
    }

    /// Pushes the status with Break clear and Unused set, sets Interrupt
    /// disable, and jumps through the vector at `vector`.
    pub open spec fn interrupt(self, vector: u16) -> CpuView {
        let s1 = self.push(hi_byte(self.pc)).push(lo_byte(self.pc));
        let st = with_flag(with_flag(s1.status, StatusFlag::B, false), StatusFlag::U, true);
        let s2 = CpuView { status: st, ..s1 }.push(st).set_flag(StatusFlag::I, true);
        CpuView {
            addr_abs: vector,
            pc: word(s2.read(vector), s2.read((vector + 1) as u16)),
            cycles: 7,
            ..s2
        }
    }

    /// The addressing step: the state after `mode` has resolved its
    /// operand, and 1 when indexing crossed a page.
    #[verifier::opaque]
    pub open spec fn address(self, mode: AddrMode) -> (CpuView, u8) {
        let pc1 = wrap16(self.pc + 1);
        let pc2 = wrap16(self.pc + 2);
        let b0 = self.read(self.pc);
        let b1 = self.read(pc1);
        match mode {
            AddrMode::IMP => (CpuView { fetched: self.a, ..self }, 0),
            AddrMode::IMM => (CpuView { addr_abs: self.pc, pc: pc1, ..self }, 0),
            AddrMode::ZP0 => (CpuView { addr_abs: b0 as u16, pc: pc1, ..self }, 0),
            AddrMode::ZPX => (CpuView { addr_abs: wrap8(b0 + self.x) as u16, pc: pc1, ..self }, 0),
            AddrMode::ZPY => (CpuView { addr_abs: wrap8(b0 + self.y) as u16, pc: pc1, ..self }, 0),
            AddrMode::REL => {
                let rel: u16 = if b0 >= 0x80 {
                    (b0 + 0xFF00) as u16
                } else {
                    b0 as u16
                };
                (CpuView { addr_rel: rel, pc: pc1, ..self }, 0)
            },
            AddrMode::ABS => (CpuView { addr_abs: word(b0, b1), pc: pc2, ..self }, 0),
            AddrMode::ABX => {
                let t = wrap16(word(b0, b1) + self.x);
                (
                    CpuView { addr_abs: t, pc: pc2, ..self },
                    if t / 0x100 != b1 {
                        1
                    } else {
                        0
                    },
                )
            },
            AddrMode::ABY => {
                let t = wrap16(word(b0, b1) + self.y);
                (
                    CpuView { addr_abs: t, pc: pc2, ..self },
                    if t / 0x100 != b1 {
                        1
                    } else {
                        0
                    },
                )
            },
            AddrMode::IND => {
                let ptr = word(b0, b1);
                let hi_at: u16 = if b0 == 0xFF {
                    word(0, b1)
                } else {
                    (ptr + 1) as u16
                };
                (CpuView { addr_abs: word(self.read(ptr), self.read(hi_at)), pc: pc2, ..self }, 0)
            },
            AddrMode::IZX => {
                let lo = self.read(wrap8(b0 + self.x) as u16);
                let hi = self.read(wrap8(b0 + self.x + 1) as u16);
                (CpuView { addr_abs: word(lo, hi), pc: pc1, ..self }, 0)
            },
            AddrMode::IZY => {
                let lo = self.read(b0 as u16);
                let hi = self.read(wrap8(b0 + 1) as u16);
                let t = wrap16(word(lo, hi) + self.y);
                (
                    CpuView { addr_abs: t, pc: pc1, ..self },
                    if t / 0x100 != hi {
                        1
                    } else {
                        0
                    },
                )
            },
        }
    }

    /// The operation step: the state after `op` has run with its operand
    /// addressed by `mode`, and 1 when the operation takes the extra cycle
    /// of a page-crossing operand.
    #[verifier::opaque]
    pub open spec fn operate(self, op: Op, mode: AddrMode) -> (CpuView, u8) {
        let f = self.fetch(mode);
        let m = f.fetched;
        match op {
            Op::ADC => (f.add_with_carry(m), 1),
            Op::SBC => (f.add_with_carry((0xFF - m) as u8), 1),
            Op::AND => (CpuView { a: f.a & m, ..f }.set_zn(f.a & m), 1),
            Op::ORA => (CpuView { a: f.a | m, ..f }.set_zn(f.a | m), 1),
            Op::EOR => (CpuView { a: f.a ^ m, ..f }.set_zn(f.a ^ m), 1),
            Op::ASL => (f.shift_result(mode, m >= 0x80, wrap8(m * 2)), 0),
            Op::LSR => (f.shift_result(mode, m % 2 == 1, (m / 2) as u8), 0),
            Op::ROL => (
                f.shift_result(
                    mode,
                    m >= 0x80,
                    wrap8(
                        m * 2 + if flag(f.status, StatusFlag::C) {
                            1int
                        } else {
                            0int
                        },
                    ),
                ),
                0,
            ),
            Op::ROR => (
                f.shift_result(
                    mode,
                    m % 2 == 1,
                    (m / 2 + if flag(f.status, StatusFlag::C) {
                        0x80int
                    } else {
                        0int
                    }) as u8,
                ),
                0,
            ),
            Op::BCC | Op::BCS | Op::BEQ | Op::BMI | Op::BNE | Op::BPL | Op::BVC | Op::BVS => (
                self.branch(branch_taken(op, self.status)),
                0,
            ),
            Op::BIT => (
                CpuView {
                    status: with_flag(
                        with_flag(with_flag(f.status, StatusFlag::Z, f.a & m == 0), StatusFlag::N, m >= 0x80),
                        StatusFlag::V,
                        m & 0x40 != 0,
                    ),
                    ..f
                },
                0,
            ),
            Op::BRK => {
                let pc = wrap16(self.pc + 1);
                let s1 = CpuView { pc, ..self }.set_flag(StatusFlag::I, true).push(hi_byte(pc)).push(
                    lo_byte(pc),
                ).set_flag(StatusFlag::B, true);
                let s2 = s1.push(s1.status).set_flag(StatusFlag::B, false);
                (CpuView { pc: word(s2.read(0xFFFE), s2.read(0xFFFF)), ..s2 }, 0)
            },
            Op::CLC => (self.set_flag(StatusFlag::C, false), 0),
            Op::CLD => (self.set_flag(StatusFlag::D, false), 0),
            Op::CLI => (self.set_flag(StatusFlag::I, false), 0),
            Op::CLV => (self.set_flag(StatusFlag::V, false), 0),
            Op::SEC => (self.set_flag(StatusFlag::C, true), 0),
            Op::SED => (self.set_flag(StatusFlag::D, true), 0),
            Op::SEI => (self.set_flag(StatusFlag::I, true), 0),
            Op::CMP => (f.compare(f.a), 1),
            Op::CPX => (f.compare(f.x), 0),
            Op::CPY => (f.compare(f.y), 0),
            Op::DEC => (f.write(f.addr_abs, wrap8(m - 1)).set_zn(wrap8(m - 1)), 0),
            Op::INC => (f.write(f.addr_abs, wrap8(m + 1)).set_zn(wrap8(m + 1)), 0),
            Op::DEX => (CpuView { x: wrap8(self.x - 1), ..self }.set_zn(wrap8(self.x - 1)), 0),
            Op::DEY => (CpuView { y: wrap8(self.y - 1), ..self }.set_zn(wrap8(self.y - 1)), 0),
            Op::INX => (CpuView { x: wrap8(self.x + 1), ..self }.set_zn(wrap8(self.x + 1)), 0),
            Op::INY => (CpuView { y: wrap8(self.y + 1), ..self }.set_zn(wrap8(self.y + 1)), 0),
            Op::JMP => (CpuView { pc: self.addr_abs, ..self }, 0),
            Op::JSR => {
                let ret = wrap16(self.pc - 1);
                (CpuView { pc: self.addr_abs, ..self.push(hi_byte(ret)).push(lo_byte(ret)) }, 0)
            },
            Op::LDA => (CpuView { a: m, ..f }.set_zn(m), 1),
            Op::LDX => (CpuView { x: m, ..f }.set_zn(m), 1),
            Op::LDY => (CpuView { y: m, ..f }.set_zn(m), 1),
            Op::NOP => (
                self,
                if self.opcode == 0xFC {
                    1
                } else {
                    0
                },
            ),
            Op::PHA => (self.push(self.a), 0),
            Op::PHP => {
                let pushed = with_flag(with_flag(self.status, StatusFlag::B, true), StatusFlag::U, true);
                (self.push(pushed).set_flag(StatusFlag::B, false).set_flag(StatusFlag::U, false), 0)
            },
            Op::PLA => {
                let (s, v) = self.pull();
                (CpuView { a: v, ..s }.set_zn(v), 0)
            },
            Op::PLP => {
                let (s, v) = self.pull();
                (CpuView { status: with_flag(v, StatusFlag::U, true), ..s }, 0)
            },
            Op::RTI => {
                let (s1, st) = self.pull();
                let st = with_flag(with_flag(st, StatusFlag::B, false), StatusFlag::U, false);
                let (s2, lo) = CpuView { status: st, ..s1 }.pull();
                let (s3, hi) = s2.pull();
                (CpuView { pc: word(lo, hi), ..s3 }, 0)
            },
            Op::RTS => {
                let (s1, lo) = self.pull();
                let (s2, hi) = s1.pull();
                (CpuView { pc: wrap16(word(lo, hi) + 1), ..s2 }, 0)
            },
            Op::STA => (self.write(self.addr_abs, self.a), 0),
            Op::STX => (self.write(self.addr_abs, self.x), 0),
            Op::STY => (self.write(self.addr_abs, self.y), 0),
            Op::TAX => (CpuView { x: self.a, ..self }.set_zn(self.a), 0),
            Op::TAY => (CpuView { y: self.a, ..self }.set_zn(self.a), 0),
            Op::TSX => (CpuView { x: self.sp, ..self }.set_zn(self.sp), 0),
            Op::TXA => (CpuView { a: self.x, ..self }.set_zn(self.x), 0),
            Op::TXS => (CpuView { sp: self.x, ..self }, 0),
            Op::TYA => (CpuView { a: self.y, ..self }.set_zn(self.y), 0),
            Op::UNK => (self, 0),
        }
    }

    /// Fetch, decode and execute the instruction at the program counter;
    /// `cycles` then holds its full cost.
    pub open spec fn execute(self) -> CpuView {
        let opcode = self.read(self.pc);
        let ins = self.lookup[opcode as int];
        let s1 = CpuView {
            opcode,
            status: with_flag(self.status, StatusFlag::U, true),
            pc: wrap16(self.pc + 1),
            cycles: ins.cycles,
            ..self
        };
        let (s2, extra_mode) = s1.address(ins.addr_mode);
        let (s3, extra_op) = s2.operate(ins.operation, ins.addr_mode);
        CpuView {
            cycles: (s3.cycles + if extra_mode == 1 && extra_op == 1 {
                1int
            } else {
                0int
            }) as u8,
            status: with_flag(s3.status, StatusFlag::U, true),
            ..s3
        }
    }

    /// One clock cycle: at an instruction boundary the next instruction runs
    /// and its full cost is loaded; otherwise one cycle of the instruction in
    /// flight elapses and nothing else changes.
    pub open spec fn clock(self) -> CpuView {
        let s = if self.cycles == 0 {
            self.execute()
        } else {
            CpuView { cycles: (self.cycles - 1) as u8, ..self }
        };
        CpuView {
            clock_count: if s.clock_count == u64::MAX {
                0
            } else {
                (s.clock_count + 1) as u64
            },
            ..s
        }
    }

    /// Maskable interrupt: taken only while Interrupt disable is clear.
    pub open spec fn irq(self) -> CpuView {
        if !flag(self.status, StatusFlag::I) {
            self.interrupt(0xFFFE)
        } else {
            self
        }
    }

    /// Non-maskable interrupt.
    pub open spec fn nmi(self) -> CpuView {
        self.interrupt(0xFFFA)
    }
}

} // verus!
