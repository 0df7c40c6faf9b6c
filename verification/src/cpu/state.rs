//! The register file and its mathematical reading: flags, register pairs,
//! the 3-bit register field and the stack.

use vstd::prelude::*;
use crate::bits::{bit, word, wrap16};
use crate::memory::MmuState;

verus! {

/// Mask of the zero flag in F.
pub const ZERO_FLAG: u8 = 0x80;

/// Mask of the subtract flag in F.
pub const SUBTRACT_FLAG: u8 = 0x40;

/// Mask of the half-carry flag in F.
pub const HALF_CARRY_FLAG: u8 = 0x20;

/// Mask of the carry flag in F.
pub const CARRY_FLAG: u8 = 0x10;

pub struct CPU {
    pub a: u8,
    pub b: u8,
    pub c: u8,
    pub d: u8,
    pub e: u8,
    pub f: u8,
    pub h: u8,
    pub l: u8,
    pub sp: u16,
    pub pc: u16,
    /// Interrupt master enable.
    pub ime: bool,
    /// Set by HALT, cleared by a pending interrupt.
    pub halt: bool,
    /// Set by STOP and by an undefined opcode; never cleared.
    pub stop: bool,
}

/// An undefined opcode and the address it was fetched from.
#[derive(Debug, Clone, Copy, PartialEq, Eq)]
pub struct DecodeError {
    pub pc: u16,
    pub opcode: u8,
}

/// The F register that holds the four flags, low nibble zero.
pub open spec fn flags(z: bool, n: bool, h: bool, c: bool) -> u8 {
    ((if z { 128int } else { 0int }) + (if n { 64int } else { 0int }) + (if h { 32int } else { 0int })
        + (if c { 16int } else { 0int })) as u8
}

impl CPU {
    /// The invariant of the register file: the low nibble of F is zero.
    pub open spec fn wf(self) -> bool {
        self.f % 16 == 0
    }

    pub open spec fn flag_z(self) -> bool {
        bit(self.f as int, 7)
    }

    pub open spec fn flag_n(self) -> bool {
        bit(self.f as int, 6)
    }

    pub open spec fn flag_h(self) -> bool {
        bit(self.f as int, 5)
    }

    pub open spec fn flag_c(self) -> bool {
        bit(self.f as int, 4)
    }

    /// The carry flag as a number.
    pub open spec fn carry(self) -> int {
        if self.flag_c() {
            1
        } else {
            0
        }
    }

    pub open spec fn bc(self) -> u16 {
        word(self.b, self.c)
    }

    pub open spec fn de(self) -> u16 {
        word(self.d, self.e)
    }

    pub open spec fn hl(self) -> u16 {
        word(self.h, self.l)
    }

    pub open spec fn af(self) -> u16 {
        word(self.a, self.f)
    }

    pub open spec fn with_bc(self, v: u16) -> CPU {
        CPU { b: (v / 256) as u8, c: (v % 256) as u8, ..self }
    }

    pub open spec fn with_de(self, v: u16) -> CPU {
        CPU { d: (v / 256) as u8, e: (v % 256) as u8, ..self }
    }

    pub open spec fn with_hl(self, v: u16) -> CPU {
        CPU { h: (v / 256) as u8, l: (v % 256) as u8, ..self }
    }

    /// A and F from a word; the low nibble of F is forced to zero.
    pub open spec fn with_af(self, v: u16) -> CPU {
        CPU { a: (v / 256) as u8, f: (v % 256 - v % 16) as u8, ..self }
    }

    /// The state with the program counter moved on by `n`.
    pub open spec fn skip(self, n: int) -> CPU {
        CPU { pc: wrap16(self.pc + n), ..self }
    }

    /// The register that field value `r` names, for every value but 6:
    /// 0 B, 1 C, 2 D, 3 E, 4 H, 5 L, 7 A.
    pub open spec fn reg8(self, r: int) -> u8 {
        if r == 0 {
            self.b
        } else if r == 1 {
            self.c
        } else if r == 2 {
            self.d
        } else if r == 3 {
            self.e
        } else if r == 4 {
            self.h
        } else if r == 5 {
            self.l
        } else {
            self.a
        }
    }

    /// The operand that field value `r` names; 6 is the byte at HL.
    pub open spec fn reg(self, mem: MmuState, r: int) -> u8 {
        if r == 6 {
            mem.read(self.hl())
        } else {
            self.reg8(r)
        }
    }

    /// The state with `v` in the register that `r` names; unchanged for 6.
    pub open spec fn with_reg(self, r: int, v: u8) -> CPU {
        if r == 0 {
            CPU { b: v, ..self }
        } else if r == 1 {
            CPU { c: v, ..self }
        } else if r == 2 {
            CPU { d: v, ..self }
        } else if r == 3 {
            CPU { e: v, ..self }
        } else if r == 4 {
            CPU { h: v, ..self }
        } else if r == 5 {
            CPU { l: v, ..self }
        } else if r == 6 {
            self
        } else {
            CPU { a: v, ..self }
        }
    }

    /// The bus after `v` went to the operand that `r` names; changed only
    /// for 6.
    pub open spec fn store(self, mem: MmuState, r: int, v: u8) -> MmuState {
        if r == 6 {
            mem.write(self.hl(), v)
        } else {
            mem
        }
    }

    /// The pair that field value `p` names among BC, DE, HL, SP.
    pub open spec fn pair(self, p: int) -> u16 {
        if p == 0 {
            self.bc()
        } else if p == 1 {
            self.de()
        } else if p == 2 {
            self.hl()
        } else {
            self.sp
        }
    }

    pub open spec fn with_pair(self, p: int, v: u16) -> CPU {
        if p == 0 {
            self.with_bc(v)
        } else if p == 1 {
            self.with_de(v)
        } else if p == 2 {
            self.with_hl(v)
        } else {
            CPU { sp: v, ..self }
        }
    }

    /// The pair that field value `p` names among BC, DE, HL, AF.
    pub open spec fn stack_pair(self, p: int) -> u16 {
        if p == 3 {
            self.af()
        } else {
            self.pair(p)
        }
    }

    pub open spec fn with_stack_pair(self, p: int, v: u16) -> CPU {
        if p == 3 {
            self.with_af(v)
        } else {
            self.with_pair(p, v)
        }
    }

    /// The condition that field value `y` names: 0 NZ, 1 Z, 2 NC, 3 C.
    pub open spec fn condition(self, y: int) -> bool {
        if y == 0 {
            !self.flag_z()
        } else if y == 1 {
            self.flag_z()
        } else if y == 2 {
            !self.flag_c()
        } else {
            self.flag_c()
        }
    }

    /// The stack pointer after a push.
    pub open spec fn pushed(self) -> CPU {
        CPU { sp: wrap16(self.sp - 2), ..self }
    }

    /// The bus after `v` has been pushed: high byte at SP-1, then low byte
    /// at SP-2.
    pub open spec fn push_to(self, mem: MmuState, v: u16) -> MmuState {
        mem.write(wrap16(self.sp - 1), (v / 256) as u8).write(
            wrap16(self.sp - 2),
            (v % 256) as u8,
        )
    }

    /// The word on top of the stack: low byte at SP, high byte at SP+1.
    pub open spec fn top(self, mem: MmuState) -> u16 {
        mem.read_word(self.sp)
    }

    /// The stack pointer after a pop.
    pub open spec fn popped(self) -> CPU {
        CPU { sp: wrap16(self.sp + 2), ..self }
    }

    /// The registers when no boot image runs first.
    pub open spec fn after_boot() -> CPU {
        CPU {
            a: 0x01,
            f: 0xB0,
            b: 0x00,
            c: 0x13,
            d: 0x00,
            e: 0xD8,
            h: 0x01,
            l: 0x4D,
            sp: 0xFFFE,
            pc: 0x0100,
            ime: false,
            halt: false,
            stop: false,
        }
    }

    /// The registers at power-on, before a boot image runs.
    pub open spec fn initial() -> CPU {
        CPU {
            a: 0,
            f: 0,
            b: 0,
            c: 0,
            d: 0,
            e: 0,
            h: 0,
            l: 0,
            sp: 0,
            pc: 0,
            ime: false,
            halt: false,
            stop: false,
        }
    }
}

} // verus!
