//! The load instructions: between registers, through HL and the other
//! pairs, through page 0xFF, and to and from the stack.

use vstd::prelude::*;
use crate::bits::{word, wrap16, make_word};
use crate::cpu::alu::{offset_flags, offset_sp};
use crate::cpu::semantics::{imm8, imm16};
use crate::cpu::state::CPU;
use crate::memory::MMU;

verus! {

impl CPU {
    /// LD B,B
    pub(crate) fn ld_b_b(&mut self) -> (cycles: u32)
        ensures
            *final(self) == *old(self),
            cycles == 4,
    {
        4
    }

    /// LD B,C
    pub(crate) fn ld_b_c(&mut self) -> (cycles: u32)
        ensures
            *final(self) == (CPU { b: old(self).c, ..*old(self) }),
            cycles == 4,
    {
        self.ld_r1_r2(0, 1)
    }

    /// LD B,D
    pub(crate) fn ld_b_d(&mut self) -> (cycles: u32)
        ensures
            *final(self) == (CPU { b: old(self).d, ..*old(self) }),
            cycles == 4,
    {
        self.b = self.d;
        4
    }

    /// LD B,E
    pub(crate) fn ld_b_e(&mut self) -> (cycles: u32)
        ensures
            *final(self) == (CPU { b: old(self).e, ..*old(self) }),
            cycles == 4,
    {
        self.b = self.e;
        4
    }

    /// LD B,H
    pub(crate) fn ld_b_h(&mut self) -> (cycles: u32)
        ensures
            *final(self) == (CPU { b: old(self).h, ..*old(self) }),
            cycles == 4,
    {
        self.b = self.h;
        4
    }

    /// LD B,L
    pub(crate) fn ld_b_l(&mut self) -> (cycles: u32)
        ensures
            *final(self) == (CPU { b: old(self).l, ..*old(self) }),
            cycles == 4,
    {
        self.b = self.l;
        4
    }

    /// LD B,(HL)
    pub(crate) fn ld_b_hl(&mut self, memory: &MMU) -> (cycles: u32)
        ensures
            *final(self) == (CPU { b: memory@.read(old(self).hl()), ..*old(self) }),
            cycles == 8,
    {
        let address = self.get_hl();
        self.b = memory.read_byte(address);
        8
    }

    /// LD B,A
    pub(crate) fn ld_b_a(&mut self) -> (cycles: u32)
        ensures
            *final(self) == (CPU { b: old(self).a, ..*old(self) }),
            cycles == 4,
    {
        self.b = self.a;
        4
    }

    /// LD C,B
    pub(crate) fn ld_c_b(&mut self) -> (cycles: u32)
        ensures
            *final(self) == (CPU { c: old(self).b, ..*old(self) }),
            cycles == 4,
    {
        self.c = self.b;
        4
    }

    /// LD C,C
    pub(crate) fn ld_c_c(&mut self) -> (cycles: u32)
        ensures
            *final(self) == *old(self),
            cycles == 4,
    {
        4
    }

    /// LD C,D
    pub(crate) fn ld_c_d(&mut self) -> (cycles: u32)
        ensures
            *final(self) == (CPU { c: old(self).d, ..*old(self) }),
            cycles == 4,
    {
        self.c = self.d;
        4
    }

    /// LD C,E
    pub(crate) fn ld_c_e(&mut self) -> (cycles: u32)
        ensures
            *final(self) == (CPU { c: old(self).e, ..*old(self) }),
            cycles == 4,
    {
        self.c = self.e;
        4
    }

    /// LD C,H
    pub(crate) fn ld_c_h(&mut self) -> (cycles: u32)
        ensures
            *final(self) == (CPU { c: old(self).h, ..*old(self) }),
            cycles == 4,
    {
        self.c = self.h;
        4
    }

    /// LD C,L
    pub(crate) fn ld_c_l(&mut self) -> (cycles: u32)
        ensures
            *final(self) == (CPU { c: old(self).l, ..*old(self) }),
            cycles == 4,
    {
        self.c = self.l;
        4
    }

    /// LD C,(HL)
    pub(crate) fn ld_c_hl(&mut self, memory: &MMU) -> (cycles: u32)
        ensures
            *final(self) == (CPU { c: memory@.read(old(self).hl()), ..*old(self) }),
            cycles == 8,
    {
        let address = self.get_hl();
        self.c = memory.read_byte(address);
        8
    }

    /// LD C,A
    pub(crate) fn ld_c_a(&mut self) -> (cycles: u32)
        ensures
            *final(self) == (CPU { c: old(self).a, ..*old(self) }),
            cycles == 4,
    {
        self.c = self.a;
        4
    }

    /// LD D,B
    pub(crate) fn ld_d_b(&mut self) -> (cycles: u32)
        ensures
            *final(self) == (CPU { d: old(self).b, ..*old(self) }),
            cycles == 4,
    {
        self.d = self.b;
        4
    }

    /// LD D,C
    pub(crate) fn ld_d_c(&mut self) -> (cycles: u32)
        ensures
            *final(self) == (CPU { d: old(self).c, ..*old(self) }),
            cycles == 4,
    {
        self.d = self.c;
        4
    }

    /// LD D,D
    pub(crate) fn ld_d_d(&mut self) -> (cycles: u32)
        ensures
            *final(self) == *old(self),
            cycles == 4,
    {
        4
    }

    /// LD D,E
    pub(crate) fn ld_d_e(&mut self) -> (cycles: u32)
        ensures
            *final(self) == (CPU { d: old(self).e, ..*old(self) }),
            cycles == 4,
    {
        self.ld_r1_r2(2, 3)
    }

    /// LD D,H
    pub(crate) fn ld_d_h(&mut self) -> (cycles: u32)
        ensures
            *final(self) == (CPU { d: old(self).h, ..*old(self) }),
            cycles == 4,
    {
        self.d = self.h;
        4
    }

    /// LD D,L
    pub(crate) fn ld_d_l(&mut self) -> (cycles: u32)
        ensures
            *final(self) == (CPU { d: old(self).l, ..*old(self) }),
            cycles == 4,
    {
        self.d = self.l;
        4
    }

    /// LD D,(HL)
    pub(crate) fn ld_d_hl(&mut self, memory: &MMU) -> (cycles: u32)
        ensures
            *final(self) == (CPU { d: memory@.read(old(self).hl()), ..*old(self) }),
            cycles == 8,
    {
        let address = self.get_hl();
        self.d = memory.read_byte(address);
        8
    }

    /// LD D,A
    pub(crate) fn ld_d_a(&mut self) -> (cycles: u32)
        ensures
            *final(self) == (CPU { d: old(self).a, ..*old(self) }),
            cycles == 4,
    {
        self.d = self.a;
        4
    }

    /// LD E,B
    pub(crate) fn ld_e_b(&mut self) -> (cycles: u32)
        ensures
            *final(self) == (CPU { e: old(self).b, ..*old(self) }),
            cycles == 4,
    {
        self.e = self.b;
        4
    }

    /// LD E,C
    pub(crate) fn ld_e_c(&mut self) -> (cycles: u32)
        ensures
            *final(self) == (CPU { e: old(self).c, ..*old(self) }),
            cycles == 4,
    {
        self.e = self.c;
        4
    }

    /// LD E,D
    pub(crate) fn ld_e_d(&mut self) -> (cycles: u32)
        ensures
            *final(self) == (CPU { e: old(self).d, ..*old(self) }),
            cycles == 4,
    {
        self.e = self.d;
        4
    }

    /// LD E,E
    pub(crate) fn ld_e_e(&mut self) -> (cycles: u32)
        ensures
            *final(self) == *old(self),
            cycles == 4,
    {
        4
    }

    /// LD E,H
    pub(crate) fn ld_e_h(&mut self) -> (cycles: u32)
        ensures
            *final(self) == (CPU { e: old(self).h, ..*old(self) }),
            cycles == 4,
    {
        self.e = self.h;
        4
    }

    /// LD E,L
    pub(crate) fn ld_e_l(&mut self) -> (cycles: u32)
        ensures
            *final(self) == (CPU { e: old(self).l, ..*old(self) }),
            cycles == 4,
    {
        self.e = self.l;
        4
    }

    /// LD E,(HL)
    pub(crate) fn ld_e_hl(&mut self, memory: &MMU) -> (cycles: u32)
        ensures
            *final(self) == (CPU { e: memory@.read(old(self).hl()), ..*old(self) }),
            cycles == 8,
    {
        let address = self.get_hl();
        self.e = memory.read_byte(address);
        8
    }

    /// LD E,A
    pub(crate) fn ld_e_a(&mut self) -> (cycles: u32)
        ensures
            *final(self) == (CPU { e: old(self).a, ..*old(self) }),
            cycles == 4,
    {
        self.e = self.a;
        4
    }

    /// LD H,B
    pub(crate) fn ld_h_b(&mut self) -> (cycles: u32)
        ensures
            *final(self) == (CPU { h: old(self).b, ..*old(self) }),
            cycles == 4,
    {
        self.h = self.b;
        4
    }

    /// LD H,C
    pub(crate) fn ld_h_c(&mut self) -> (cycles: u32)
        ensures
            *final(self) == (CPU { h: old(self).c, ..*old(self) }),
            cycles == 4,
    {
        self.h = self.c;
        4
    }

    /// LD H,D
    pub(crate) fn ld_h_d(&mut self) -> (cycles: u32)
        ensures
            *final(self) == (CPU { h: old(self).d, ..*old(self) }),
            cycles == 4,
    {
        self.h = self.d;
        4
    }

    /// LD H,E
    pub(crate) fn ld_h_e(&mut self) -> (cycles: u32)
        ensures
            *final(self) == (CPU { h: old(self).e, ..*old(self) }),
            cycles == 4,
    {
        self.h = self.e;
        4
    }

    /// LD H,H
    pub(crate) fn ld_h_h(&mut self) -> (cycles: u32)
        ensures
            *final(self) == *old(self),
            cycles == 4,
    {
        4
    }

    /// LD H,L
    pub(crate) fn ld_h_l(&mut self) -> (cycles: u32)
        ensures
            *final(self) == (CPU { h: old(self).l, ..*old(self) }),
            cycles == 4,
    {
        self.h = self.l;
        4
    }

    /// LD H,(HL)
    pub(crate) fn ld_h_hl(&mut self, memory: &MMU) -> (cycles: u32)
        ensures
            *final(self) == (CPU { h: memory@.read(old(self).hl()), ..*old(self) }),
            cycles == 8,
    {
        let address = self.get_hl();
        self.h = memory.read_byte(address);
        8
    }

    /// LD H,A
    pub(crate) fn ld_h_a(&mut self) -> (cycles: u32)
        ensures
            *final(self) == (CPU { h: old(self).a, ..*old(self) }),
            cycles == 4,
    {
        self.h = self.a;
        4
    }

    /// LD L,B
    pub(crate) fn ld_l_b(&mut self) -> (cycles: u32)
        ensures
            *final(self) == (CPU { l: old(self).b, ..*old(self) }),
            cycles == 4,
    {
        self.l = self.b;
        4
    }

    /// LD L,C
    pub(crate) fn ld_l_c(&mut self) -> (cycles: u32)
        ensures
            *final(self) == (CPU { l: old(self).c, ..*old(self) }),
            cycles == 4,
    {
        self.l = self.c;
        4
    }

    /// LD L,D
    pub(crate) fn ld_l_d(&mut self) -> (cycles: u32)
        ensures
            *final(self) == (CPU { l: old(self).d, ..*old(self) }),
            cycles == 4,
    {
        self.l = self.d;
        4
    }

    /// LD L,E
    pub(crate) fn ld_l_e(&mut self) -> (cycles: u32)
        ensures
            *final(self) == (CPU { l: old(self).e, ..*old(self) }),
            cycles == 4,
    {
        self.l = self.e;
        4
    }

    /// LD L,H
    pub(crate) fn ld_l_h(&mut self) -> (cycles: u32)
        ensures
            *final(self) == (CPU { l: old(self).h, ..*old(self) }),
            cycles == 4,
    {
        self.l = self.h;
        4
    }

    /// LD L,L
    pub(crate) fn ld_l_l(&mut self) -> (cycles: u32)
        ensures
            *final(self) == *old(self),
            cycles == 4,
    {
        4
    }

    /// LD L,(HL)
    pub(crate) fn ld_l_hl(&mut self, memory: &MMU) -> (cycles: u32)
        ensures
            *final(self) == (CPU { l: memory@.read(old(self).hl()), ..*old(self) }),
            cycles == 8,
    {
        let address = self.get_hl();
        self.l = memory.read_byte(address);
        8
    }

    /// LD L,A
    pub(crate) fn ld_l_a(&mut self) -> (cycles: u32)
        ensures
            *final(self) == (CPU { l: old(self).a, ..*old(self) }),
            cycles == 4,
    {
        self.l = self.a;
        4
    }

    /// LD (HL),B
    pub(crate) fn ld_hl_b(&mut self, memory: &mut MMU) -> (cycles: u32)
        requires
            old(memory).wf(),
        ensures
            final(memory).wf(),
            *final(self) == *old(self),
            final(memory)@ == old(memory)@.write(old(self).hl(), old(self).b),
            cycles == 8,
    {
        let address = self.get_hl();
        memory.write_byte(address, self.b);
        8
    }

    /// LD (HL),C
    pub(crate) fn ld_hl_c(&mut self, memory: &mut MMU) -> (cycles: u32)
        requires
            old(memory).wf(),
        ensures
            final(memory).wf(),
            *final(self) == *old(self),
            final(memory)@ == old(memory)@.write(old(self).hl(), old(self).c),
            cycles == 8,
    {
        let address = self.get_hl();
        memory.write_byte(address, self.c);
        8
    }

    /// LD (HL),D
    pub(crate) fn ld_hl_d(&mut self, memory: &mut MMU) -> (cycles: u32)
        requires
            old(memory).wf(),
        ensures
            final(memory).wf(),
            *final(self) == *old(self),
            final(memory)@ == old(memory)@.write(old(self).hl(), old(self).d),
            cycles == 8,
    {
        let address = self.get_hl();
        memory.write_byte(address, self.d);
        8
    }

    /// LD (HL),E
    pub(crate) fn ld_hl_e(&mut self, memory: &mut MMU) -> (cycles: u32)
        requires
            old(memory).wf(),
        ensures
            final(memory).wf(),
            *final(self) == *old(self),
            final(memory)@ == old(memory)@.write(old(self).hl(), old(self).e),
            cycles == 8,
    {
        let address = self.get_hl();
        memory.write_byte(address, self.e);
        8
    }

    /// LD (HL),H
    pub(crate) fn ld_hl_h(&mut self, memory: &mut MMU) -> (cycles: u32)
        requires
            old(memory).wf(),
        ensures
            final(memory).wf(),
            *final(self) == *old(self),
            final(memory)@ == old(memory)@.write(old(self).hl(), old(self).h),
            cycles == 8,
    {
        let address = self.get_hl();
        memory.write_byte(address, self.h);
        8
    }

    /// LD (HL),L
    pub(crate) fn ld_hl_l(&mut self, memory: &mut MMU) -> (cycles: u32)
        requires
            old(memory).wf(),
        ensures
            final(memory).wf(),
            *final(self) == *old(self),
            final(memory)@ == old(memory)@.write(old(self).hl(), old(self).l),
            cycles == 8,
    {
        let address = self.get_hl();
        memory.write_byte(address, self.l);
        8
    }

    /// LD (HL),A
    pub(crate) fn ld_hl_a(&mut self, memory: &mut MMU) -> (cycles: u32)
        requires
            old(memory).wf(),
        ensures
            final(memory).wf(),
            *final(self) == *old(self),
            final(memory)@ == old(memory)@.write(old(self).hl(), old(self).a),
            cycles == 8,
    {
        let address = self.get_hl();
        memory.write_byte(address, self.a);
        8
    }

    /// LD A,B
    pub(crate) fn ld_a_b(&mut self) -> (cycles: u32)
        ensures
            *final(self) == (CPU { a: old(self).b, ..*old(self) }),
            cycles == 4,
    {
        self.a = self.b;
        4
    }

    /// LD A,C
    pub(crate) fn ld_a_c(&mut self) -> (cycles: u32)
        ensures
            *final(self) == (CPU { a: old(self).c, ..*old(self) }),
            cycles == 4,
    {
        self.a = self.c;
        4
    }

    /// LD A,D
    pub(crate) fn ld_a_d(&mut self) -> (cycles: u32)
        ensures
            *final(self) == (CPU { a: old(self).d, ..*old(self) }),
            cycles == 4,
    {
        self.a = self.d;
        4
    }

    /// LD A,E
    pub(crate) fn ld_a_e(&mut self) -> (cycles: u32)
        ensures
            *final(self) == (CPU { a: old(self).e, ..*old(self) }),
            cycles == 4,
    {
        self.a = self.e;
        4
    }

    /// LD A,H
    pub(crate) fn ld_a_h(&mut self) -> (cycles: u32)
        ensures
            *final(self) == (CPU { a: old(self).h, ..*old(self) }),
            cycles == 4,
    {
        self.a = self.h;
        4
    }

    /// LD A,L
    pub(crate) fn ld_a_l(&mut self) -> (cycles: u32)
        ensures
            *final(self) == (CPU { a: old(self).l, ..*old(self) }),
            cycles == 4,
    {
        self.a = self.l;
        4
    }

    /// LD A,(HL)
    pub(crate) fn ld_a_hl(&mut self, memory: &MMU) -> (cycles: u32)
        ensures
            *final(self) == (CPU { a: memory@.read(old(self).hl()), ..*old(self) }),
            cycles == 8,
    {
        let address = self.get_hl();
        self.a = memory.read_byte(address);
        8
    }

    /// LD A,A
    pub(crate) fn ld_a_a(&mut self) -> (cycles: u32)
        ensures
            *final(self) == *old(self),
            cycles == 4,
    {
        4
    }

    /// LD B,n
    pub(crate) fn ld_b_n(&mut self, memory: &MMU) -> (cycles: u32)
        ensures
            *final(self) == (CPU { b: imm8(*old(self), memory@), ..old(self).skip(1) }),
            cycles == 8,
    {
        let n = self.fetch(memory);
        self.ld_r_n(0, n)
    }

    /// LD C,n
    pub(crate) fn ld_c_n(&mut self, memory: &MMU) -> (cycles: u32)
        ensures
            *final(self) == (CPU { c: imm8(*old(self), memory@), ..old(self).skip(1) }),
            cycles == 8,
    {
        let n = self.fetch(memory);
        self.ld_r_n(1, n)
    }

    /// LD D,n
    pub(crate) fn ld_d_n(&mut self, memory: &MMU) -> (cycles: u32)
        ensures
            *final(self) == (CPU { d: imm8(*old(self), memory@), ..old(self).skip(1) }),
            cycles == 8,
    {
        let n = self.fetch(memory);
        self.ld_r_n(2, n)
    }

    /// LD E,n
    pub(crate) fn ld_e_n(&mut self, memory: &MMU) -> (cycles: u32)
        ensures
            *final(self) == (CPU { e: imm8(*old(self), memory@), ..old(self).skip(1) }),
            cycles == 8,
    {
        let n = self.fetch(memory);
        self.ld_r_n(3, n)
    }

    /// LD H,n
    pub(crate) fn ld_h_n(&mut self, memory: &MMU) -> (cycles: u32)
        ensures
            *final(self) == (CPU { h: imm8(*old(self), memory@), ..old(self).skip(1) }),
            cycles == 8,
    {
        let n = self.fetch(memory);
        self.ld_r_n(4, n)
    }

    /// LD L,n
    pub(crate) fn ld_l_n(&mut self, memory: &MMU) -> (cycles: u32)
        ensures
            *final(self) == (CPU { l: imm8(*old(self), memory@), ..old(self).skip(1) }),
            cycles == 8,
    {
        let n = self.fetch(memory);
        self.ld_r_n(5, n)
    }

    /// LD (HL),n
    pub(crate) fn ld_hl_n(&mut self, memory: &mut MMU) -> (cycles: u32)
        requires
            old(memory).wf(),
        ensures
            final(memory).wf(),
            *final(self) == old(self).skip(1),
            final(memory)@ == old(memory)@.write(old(self).hl(), imm8(*old(self), old(memory)@)),
            cycles == 12,
    {
        let address = self.get_hl();
        let value = self.fetch(memory);
        memory.write_byte(address, value);
        12
    }

    /// LD A,n
    pub(crate) fn ld_a_n(&mut self, memory: &MMU) -> (cycles: u32)
        ensures
            *final(self) == (CPU { a: imm8(*old(self), memory@), ..old(self).skip(1) }),
            cycles == 8,
    {
        let n = self.fetch(memory);
        self.ld_r_n(7, n)
    }

    /// LD BC,nn
    pub(crate) fn ld_bc_nn(&mut self, memory: &MMU) -> (cycles: u32)
        ensures
            *final(self) == old(self).skip(2).with_bc(imm16(*old(self), memory@)),
            cycles == 12,
    {
        self.ld_rr_nn(0, memory)
    }

    /// LD DE,nn
    pub(crate) fn ld_de_nn(&mut self, memory: &MMU) -> (cycles: u32)
        ensures
            *final(self) == old(self).skip(2).with_de(imm16(*old(self), memory@)),
            cycles == 12,
    {
        self.ld_rr_nn(1, memory)
    }

    /// LD HL,nn
    pub(crate) fn ld_hl_nn(&mut self, memory: &MMU) -> (cycles: u32)
        ensures
            *final(self) == old(self).skip(2).with_hl(imm16(*old(self), memory@)),
            cycles == 12,
    {
        self.ld_rr_nn(2, memory)
    }

    /// LD SP,nn
    pub(crate) fn ld_sp_nn(&mut self, memory: &MMU) -> (cycles: u32)
        ensures
            *final(self) == (CPU { sp: imm16(*old(self), memory@), ..old(self).skip(2) }),
            cycles == 12,
    {
        self.ld_rr_nn(3, memory)
    }

    /// LD (nn),SP: the stack pointer is stored at the address that follows
    /// the opcode, low byte first.
    pub(crate) fn ld_nn_sp(&mut self, memory: &mut MMU) -> (cycles: u32)
        requires
            old(memory).wf(),
        ensures
            final(memory).wf(),
            *final(self) == old(self).skip(2),
            final(memory)@ == old(memory)@.write_word(imm16(*old(self), old(memory)@), old(self).sp),
            cycles == 20,
    {
        let address = self.fetch_word(memory);
        memory.ww(address, self.sp);
        20
    }

    /// LD SP,HL
    pub(crate) fn ld_sp_hl(&mut self) -> (cycles: u32)
        ensures
            *final(self) == (CPU { sp: old(self).hl(), ..*old(self) }),
            cycles == 8,
    {
        self.sp = self.get_hl();
        8
    }

    /// LD HL,SP+e: HL becomes SP plus the signed byte that follows the
    /// opcode.
    pub(crate) fn ld_hl_sp_n(&mut self, memory: &MMU) -> (cycles: u32)
        ensures
            *final(self) == (CPU {
                f: offset_flags(old(self).sp, imm8(*old(self), memory@)),
                ..old(self).skip(1).with_hl(offset_sp(old(self).sp, imm8(*old(self), memory@)))
            }),
            cycles == 12,
            final(self).wf(),
    {
        let e = self.fetch(memory);
        let result = self.sp_plus(e);
        self.set_hl(result);
        12
    }

    /// LD (BC),A
    pub(crate) fn ld_bc_a(&mut self, memory: &mut MMU) -> (cycles: u32)
        requires
            old(memory).wf(),
        ensures
            final(memory).wf(),
            *final(self) == *old(self),
            final(memory)@ == old(memory)@.write(old(self).bc(), old(self).a),
            cycles == 8,
    {
        let address = self.get_bc();
        memory.write_byte(address, self.a);
        8
    }

    /// LD A,(BC)
    pub(crate) fn ld_a_bc(&mut self, memory: &MMU) -> (cycles: u32)
        ensures
            *final(self) == (CPU { a: memory@.read(old(self).bc()), ..*old(self) }),
            cycles == 8,
    {
        let address = self.get_bc();
        self.a = memory.read_byte(address);
        8
    }

    /// LD (DE),A
    pub(crate) fn ld_de_a(&mut self, memory: &mut MMU) -> (cycles: u32)
        requires
            old(memory).wf(),
        ensures
            final(memory).wf(),
            *final(self) == *old(self),
            final(memory)@ == old(memory)@.write(old(self).de(), old(self).a),
            cycles == 8,
    {
        let address = self.get_de();
        memory.write_byte(address, self.a);
        8
    }

    /// LD A,(DE)
    pub(crate) fn ld_a_de(&mut self, memory: &MMU) -> (cycles: u32)
        ensures
            *final(self) == (CPU { a: memory@.read(old(self).de()), ..*old(self) }),
            cycles == 8,
    {
        let address = self.get_de();
        self.a = memory.read_byte(address);
        8
    }

    /// LD (HL+),A: A is stored at HL, then HL is incremented.
    pub(crate) fn ld_hl_inc_a(&mut self, memory: &mut MMU) -> (cycles: u32)
        requires
            old(memory).wf(),
        ensures
            final(memory).wf(),
            *final(self) == old(self).with_hl(wrap16(old(self).hl() + 1)),
            final(memory)@ == old(memory)@.write(old(self).hl(), old(self).a),
            cycles == 8,
    {
        let address = self.get_hl();
        memory.write_byte(address, self.a);
        self.set_hl(address.wrapping_add(1));
        8
    }

    /// LD A,(HL+): A is loaded from HL, then HL is incremented.
    pub(crate) fn ld_a_hl_inc(&mut self, memory: &MMU) -> (cycles: u32)
        ensures
            *final(self) == (CPU { a: memory@.read(old(self).hl()), ..old(self).with_hl(wrap16(old(self).hl() + 1)) }),
            cycles == 8,
    {
        let address = self.get_hl();
        self.a = memory.read_byte(address);
        self.set_hl(address.wrapping_add(1));
        8
    }

    /// LD (HL-),A: A is stored at HL, then HL is decremented.
    pub(crate) fn ld_hl_dec_a(&mut self, memory: &mut MMU) -> (cycles: u32)
        requires
            old(memory).wf(),
        ensures
            final(memory).wf(),
            *final(self) == old(self).with_hl(wrap16(old(self).hl() - 1)),
            final(memory)@ == old(memory)@.write(old(self).hl(), old(self).a),
            cycles == 8,
    {
        let address = self.get_hl();
        memory.write_byte(address, self.a);
        self.set_hl(address.wrapping_sub(1));
        8
    }

    /// LD A,(HL-): A is loaded from HL, then HL is decremented.
    pub(crate) fn ld_a_hl_dec(&mut self, memory: &MMU) -> (cycles: u32)
        ensures
            *final(self) == (CPU { a: memory@.read(old(self).hl()), ..old(self).with_hl(wrap16(old(self).hl() - 1)) }),
            cycles == 8,
    {
        let address = self.get_hl();
        self.a = memory.read_byte(address);
        self.set_hl(address.wrapping_sub(1));
        8
    }

    /// LDH (n),A: A is stored in page 0xFF at the offset that follows the
    /// opcode.
    pub(crate) fn ldh_n_a(&mut self, memory: &mut MMU) -> (cycles: u32)
        requires
            old(memory).wf(),
        ensures
            final(memory).wf(),
            *final(self) == old(self).skip(1),
            final(memory)@ == old(memory)@.write(
                word(0xFF, imm8(*old(self), old(memory)@)),
                old(self).a,
            ),
            cycles == 12,
    {
        let offset = self.fetch(memory);
        let address = make_word(0xFF, offset);
        memory.write_byte(address, self.a);
        12
    }

    /// LDH A,(n): A is loaded from page 0xFF at the offset that follows the
    /// opcode.
    pub(crate) fn ldh_a_n(&mut self, memory: &MMU) -> (cycles: u32)
        ensures
            *final(self) == (CPU {
                a: memory@.read(word(0xFF, imm8(*old(self), memory@))),
                ..old(self).skip(1)
            }),
            cycles == 12,
    {
        let offset = self.fetch(memory);
        let address = make_word(0xFF, offset);
        self.a = memory.read_byte(address);
        12
    }

    /// LD (C),A: A is stored in page 0xFF at offset C.
    pub(crate) fn ldh_c_a(&mut self, memory: &mut MMU) -> (cycles: u32)
        requires
            old(memory).wf(),
        ensures
            final(memory).wf(),
            *final(self) == *old(self),
            final(memory)@ == old(memory)@.write(word(0xFF, old(self).c), old(self).a),
            cycles == 8,
    {
        let address = make_word(0xFF, self.c);
        memory.write_byte(address, self.a);
        8
    }

    /// LD A,(C): A is loaded from page 0xFF at offset C.
    pub(crate) fn ldh_a_c(&mut self, memory: &MMU) -> (cycles: u32)
        ensures
            *final(self) == (CPU { a: memory@.read(word(0xFF, old(self).c)), ..*old(self) }),
            cycles == 8,
    {
        let address = make_word(0xFF, self.c);
        self.a = memory.read_byte(address);
        8
    }

    /// LD (nn),A
    pub(crate) fn ld_nn_a(&mut self, memory: &mut MMU) -> (cycles: u32)
        requires
            old(memory).wf(),
        ensures
            final(memory).wf(),
            *final(self) == old(self).skip(2),
            final(memory)@ == old(memory)@.write(imm16(*old(self), old(memory)@), old(self).a),
            cycles == 16,
    {
        let address = self.fetch_word(memory);
        memory.write_byte(address, self.a);
        16
    }

    /// LD A,(nn)
    pub(crate) fn ld_a_nn(&mut self, memory: &MMU) -> (cycles: u32)
        ensures
            *final(self) == (CPU { a: memory@.read(imm16(*old(self), memory@)), ..old(self).skip(2) }),
            cycles == 16,
    {
        let address = self.fetch_word(memory);
        self.a = memory.read_byte(address);
        16
    }

    /// PUSH BC
    pub(crate) fn push_bc(&mut self, memory: &mut MMU) -> (cycles: u32)
        requires
            old(memory).wf(),
        ensures
            final(memory).wf(),
            *final(self) == old(self).pushed(),
            final(memory)@ == old(self).push_to(old(memory)@, old(self).bc()),
            cycles == 16,
    {
        let value = self.get_bc();
        self.push_stack(memory, value);
        16
    }

    /// POP BC
    pub(crate) fn pop_bc(&mut self, memory: &MMU) -> (cycles: u32)
        ensures
            *final(self) == old(self).popped().with_bc(old(self).top(memory@)),
            cycles == 12,
    {
        let value = self.pop_stack(memory);
        self.set_bc(value);
        12
    }

    /// PUSH DE
    pub(crate) fn push_de(&mut self, memory: &mut MMU) -> (cycles: u32)
        requires
            old(memory).wf(),
        ensures
            final(memory).wf(),
            *final(self) == old(self).pushed(),
            final(memory)@ == old(self).push_to(old(memory)@, old(self).de()),
            cycles == 16,
    {
        let value = self.get_de();
        self.push_stack(memory, value);
        16
    }

    /// POP DE
    pub(crate) fn pop_de(&mut self, memory: &MMU) -> (cycles: u32)
        ensures
            *final(self) == old(self).popped().with_de(old(self).top(memory@)),
            cycles == 12,
    {
        let value = self.pop_stack(memory);
        self.set_de(value);
        12
    }

    /// PUSH HL
    pub(crate) fn push_hl(&mut self, memory: &mut MMU) -> (cycles: u32)
        requires
            old(memory).wf(),
        ensures
            final(memory).wf(),
            *final(self) == old(self).pushed(),
            final(memory)@ == old(self).push_to(old(memory)@, old(self).hl()),
            cycles == 16,
    {
        let value = self.get_hl();
        self.push_stack(memory, value);
        16
    }

    /// POP HL
    pub(crate) fn pop_hl(&mut self, memory: &MMU) -> (cycles: u32)
        ensures
            *final(self) == old(self).popped().with_hl(old(self).top(memory@)),
            cycles == 12,
    {
        let value = self.pop_stack(memory);
        self.set_hl(value);
        12
    }

    /// PUSH AF
    pub(crate) fn push_af(&mut self, memory: &mut MMU) -> (cycles: u32)
        requires
            old(memory).wf(),
        ensures
            final(memory).wf(),
            *final(self) == old(self).pushed(),
            final(memory)@ == old(self).push_to(old(memory)@, old(self).af()),
            cycles == 16,
    {
        let value = self.get_af();
        self.push_stack(memory, value);
        16
    }

    /// POP AF
    /// The low nibble of F is forced to zero.
    pub(crate) fn pop_af(&mut self, memory: &MMU) -> (cycles: u32)
        ensures
            *final(self) == old(self).popped().with_af(old(self).top(memory@)),
            cycles == 12,
            final(self).wf(),
    {
        let value = self.pop_stack(memory);
        self.set_af(value);
        12
    }
}

} // verus!
