//! The arithmetic and logic instructions on A, the increments and
//! decrements, and the 16-bit additions.

use vstd::prelude::*;
use crate::bits::{wrap16, wrap8};
use crate::cpu::alu::{offset_flags, offset_sp};
use crate::cpu::semantics::imm8;
use crate::cpu::state::CPU;
use crate::memory::MMU;

verus! {

impl CPU {
    /// INC B
    pub(crate) fn inc_b(&mut self) -> (cycles: u32)
        ensures
            *final(self) == (CPU {
                b: wrap8(old(self).b + 1),
                f: old(self).inc_flags(old(self).b),
                ..*old(self)
            }),
            cycles == 4,
            final(self).wf(),
    {
        let value = self.b;
        let result = self.inc8(value);
        self.b = result;
        4
    }

    /// DEC B
    pub(crate) fn dec_b(&mut self) -> (cycles: u32)
        ensures
            *final(self) == (CPU {
                b: wrap8(old(self).b - 1),
                f: old(self).dec_flags(old(self).b),
                ..*old(self)
            }),
            cycles == 4,
            final(self).wf(),
    {
        let value = self.b;
        let result = self.dec8(value);
        self.b = result;
        4
    }

    /// INC C
    pub(crate) fn inc_c(&mut self) -> (cycles: u32)
        ensures
            *final(self) == (CPU {
                c: wrap8(old(self).c + 1),
                f: old(self).inc_flags(old(self).c),
                ..*old(self)
            }),
            cycles == 4,
            final(self).wf(),
    {
        let value = self.c;
        let result = self.inc8(value);
        self.c = result;
        4
    }

    /// DEC C
    pub(crate) fn dec_c(&mut self) -> (cycles: u32)
        ensures
            *final(self) == (CPU {
                c: wrap8(old(self).c - 1),
                f: old(self).dec_flags(old(self).c),
                ..*old(self)
            }),
            cycles == 4,
            final(self).wf(),
    {
        let value = self.c;
        let result = self.dec8(value);
        self.c = result;
        4
    }

    /// INC D
    pub(crate) fn inc_d(&mut self) -> (cycles: u32)
        ensures
            *final(self) == (CPU {
                d: wrap8(old(self).d + 1),
                f: old(self).inc_flags(old(self).d),
                ..*old(self)
            }),
            cycles == 4,
            final(self).wf(),
    {
        let value = self.d;
        let result = self.inc8(value);
        self.d = result;
        4
    }

    /// DEC D
    pub(crate) fn dec_d(&mut self) -> (cycles: u32)
        ensures
            *final(self) == (CPU {
                d: wrap8(old(self).d - 1),
                f: old(self).dec_flags(old(self).d),
                ..*old(self)
            }),
            cycles == 4,
            final(self).wf(),
    {
        let value = self.d;
        let result = self.dec8(value);
        self.d = result;
        4
    }

    /// INC E
    pub(crate) fn inc_e(&mut self) -> (cycles: u32)
        ensures
            *final(self) == (CPU {
                e: wrap8(old(self).e + 1),
                f: old(self).inc_flags(old(self).e),
                ..*old(self)
            }),
            cycles == 4,
            final(self).wf(),
    {
        let value = self.e;
        let result = self.inc8(value);
        self.e = result;
        4
    }

    /// DEC E
    pub(crate) fn dec_e(&mut self) -> (cycles: u32)
        ensures
            *final(self) == (CPU {
                e: wrap8(old(self).e - 1),
                f: old(self).dec_flags(old(self).e),
                ..*old(self)
            }),
            cycles == 4,
            final(self).wf(),
    {
        let value = self.e;
        let result = self.dec8(value);
        self.e = result;
        4
    }

    /// INC H
    pub(crate) fn inc_h(&mut self) -> (cycles: u32)
        ensures
            *final(self) == (CPU {
                h: wrap8(old(self).h + 1),
                f: old(self).inc_flags(old(self).h),
                ..*old(self)
            }),
            cycles == 4,
            final(self).wf(),
    {
        let value = self.h;
        let result = self.inc8(value);
        self.h = result;
        4
    }

    /// DEC H
    pub(crate) fn dec_h(&mut self) -> (cycles: u32)
        ensures
            *final(self) == (CPU {
                h: wrap8(old(self).h - 1),
                f: old(self).dec_flags(old(self).h),
                ..*old(self)
            }),
            cycles == 4,
            final(self).wf(),
    {
        let value = self.h;
        let result = self.dec8(value);
        self.h = result;
        4
    }

    /// INC L
    pub(crate) fn inc_l(&mut self) -> (cycles: u32)
        ensures
            *final(self) == (CPU {
                l: wrap8(old(self).l + 1),
                f: old(self).inc_flags(old(self).l),
                ..*old(self)
            }),
            cycles == 4,
            final(self).wf(),
    {
        let value = self.l;
        let result = self.inc8(value);
        self.l = result;
        4
    }

    /// DEC L
    pub(crate) fn dec_l(&mut self) -> (cycles: u32)
        ensures
            *final(self) == (CPU {
                l: wrap8(old(self).l - 1),
                f: old(self).dec_flags(old(self).l),
                ..*old(self)
            }),
            cycles == 4,
            final(self).wf(),
    {
        let value = self.l;
        let result = self.dec8(value);
        self.l = result;
        4
    }

    /// INC (HL)
    pub(crate) fn inc_hl_addr(&mut self, memory: &mut MMU) -> (cycles: u32)
        requires
            old(memory).wf(),
        ensures
            final(memory).wf(),
            *final(self) == (CPU { f: old(self).inc_flags(old(memory)@.read(old(self).hl())), ..*old(self) }),
            final(memory)@ == old(memory)@.write(
                old(self).hl(),
                wrap8(old(memory)@.read(old(self).hl()) + 1),
            ),
            cycles == 12,
            final(self).wf(),
    {
        let address = self.get_hl();
        let value = memory.read_byte(address);
        let result = self.inc8(value);
        memory.write_byte(address, result);
        12
    }

    /// DEC (HL)
    pub(crate) fn dec_hl_addr(&mut self, memory: &mut MMU) -> (cycles: u32)
        requires
            old(memory).wf(),
        ensures
            final(memory).wf(),
            *final(self) == (CPU { f: old(self).dec_flags(old(memory)@.read(old(self).hl())), ..*old(self) }),
            final(memory)@ == old(memory)@.write(
                old(self).hl(),
                wrap8(old(memory)@.read(old(self).hl()) - 1),
            ),
            cycles == 12,
            final(self).wf(),
    {
        let address = self.get_hl();
        let value = memory.read_byte(address);
        let result = self.dec8(value);
        memory.write_byte(address, result);
        12
    }

    /// INC A
    pub(crate) fn inc_a(&mut self) -> (cycles: u32)
        ensures
            *final(self) == (CPU {
                a: wrap8(old(self).a + 1),
                f: old(self).inc_flags(old(self).a),
                ..*old(self)
            }),
            cycles == 4,
            final(self).wf(),
    {
        let value = self.a;
        let result = self.inc8(value);
        self.a = result;
        4
    }

    /// DEC A
    pub(crate) fn dec_a(&mut self) -> (cycles: u32)
        ensures
            *final(self) == (CPU {
                a: wrap8(old(self).a - 1),
                f: old(self).dec_flags(old(self).a),
                ..*old(self)
            }),
            cycles == 4,
            final(self).wf(),
    {
        let value = self.a;
        let result = self.dec8(value);
        self.a = result;
        4
    }

    /// INC BC
    pub(crate) fn inc_bc(&mut self) -> (cycles: u32)
        ensures
            *final(self) == old(self).with_bc(wrap16(old(self).bc() + 1)),
            cycles == 8,
    {
        let value = self.get_bc().wrapping_add(1);
        self.set_bc(value);
        8
    }

    /// DEC BC
    pub(crate) fn dec_bc(&mut self) -> (cycles: u32)
        ensures
            *final(self) == old(self).with_bc(wrap16(old(self).bc() - 1)),
            cycles == 8,
    {
        let value = self.get_bc().wrapping_sub(1);
        self.set_bc(value);
        8
    }

    /// ADD HL,BC
    pub(crate) fn add_hl_bc(&mut self) -> (cycles: u32)
        ensures
            *final(self) == old(self).spec_add_hl(old(self).bc()),
            cycles == 8,
            final(self).wf(),
    {
        let value = self.get_bc();
        self.add_hl(value);
        8
    }

    /// INC DE
    pub(crate) fn inc_de(&mut self) -> (cycles: u32)
        ensures
            *final(self) == old(self).with_de(wrap16(old(self).de() + 1)),
            cycles == 8,
    {
        let value = self.get_de().wrapping_add(1);
        self.set_de(value);
        8
    }

    /// DEC DE
    pub(crate) fn dec_de(&mut self) -> (cycles: u32)
        ensures
            *final(self) == old(self).with_de(wrap16(old(self).de() - 1)),
            cycles == 8,
    {
        let value = self.get_de().wrapping_sub(1);
        self.set_de(value);
        8
    }

    /// ADD HL,DE
    pub(crate) fn add_hl_de(&mut self) -> (cycles: u32)
        ensures
            *final(self) == old(self).spec_add_hl(old(self).de()),
            cycles == 8,
            final(self).wf(),
    {
        let value = self.get_de();
        self.add_hl(value);
        8
    }

    /// INC HL
    pub(crate) fn inc_hl(&mut self) -> (cycles: u32)
        ensures
            *final(self) == old(self).with_hl(wrap16(old(self).hl() + 1)),
            cycles == 8,
    {
        let value = self.get_hl().wrapping_add(1);
        self.set_hl(value);
        8
    }

    /// DEC HL
    pub(crate) fn dec_hl(&mut self) -> (cycles: u32)
        ensures
            *final(self) == old(self).with_hl(wrap16(old(self).hl() - 1)),
            cycles == 8,
    {
        let value = self.get_hl().wrapping_sub(1);
        self.set_hl(value);
        8
    }

    /// ADD HL,HL
    pub(crate) fn add_hl_hl(&mut self) -> (cycles: u32)
        ensures
            *final(self) == old(self).spec_add_hl(old(self).hl()),
            cycles == 8,
            final(self).wf(),
    {
        let value = self.get_hl();
        self.add_hl(value);
        8
    }

    /// INC SP
    pub(crate) fn inc_sp(&mut self) -> (cycles: u32)
        ensures
            *final(self) == (CPU { sp: wrap16(old(self).sp + 1), ..*old(self) }),
            cycles == 8,
    {
        self.sp = self.sp.wrapping_add(1);
        8
    }

    /// DEC SP
    pub(crate) fn dec_sp(&mut self) -> (cycles: u32)
        ensures
            *final(self) == (CPU { sp: wrap16(old(self).sp - 1), ..*old(self) }),
            cycles == 8,
    {
        self.sp = self.sp.wrapping_sub(1);
        8
    }

    /// ADD HL,SP
    pub(crate) fn add_hl_sp(&mut self) -> (cycles: u32)
        ensures
            *final(self) == old(self).spec_add_hl(old(self).sp),
            cycles == 8,
            final(self).wf(),
    {
        let value = self.sp;
        self.add_hl(value);
        8
    }

    /// ADD SP,e: the signed byte that follows the opcode is added to SP.
    pub(crate) fn add_sp_n(&mut self, memory: &MMU) -> (cycles: u32)
        ensures
            *final(self) == (CPU {
                sp: offset_sp(old(self).sp, imm8(*old(self), memory@)),
                f: offset_flags(old(self).sp, imm8(*old(self), memory@)),
                ..old(self).skip(1)
            }),
            cycles == 16,
            final(self).wf(),
    {
        let e = self.fetch(memory);
        let result = self.sp_plus(e);
        self.sp = result;
        16
    }

    /// ADD A,B
    pub(crate) fn add_a_b(&mut self) -> (cycles: u32)
        ensures
            *final(self) == old(self).spec_add_a(old(self).b),
            cycles == 4,
            final(self).wf(),
    {
        let value = self.b;
        self.add_a(value);
        4
    }

    /// ADD A,C
    pub(crate) fn add_a_c(&mut self) -> (cycles: u32)
        ensures
            *final(self) == old(self).spec_add_a(old(self).c),
            cycles == 4,
            final(self).wf(),
    {
        let value = self.c;
        self.add_a(value);
        4
    }

    /// ADD A,D
    pub(crate) fn add_a_d(&mut self) -> (cycles: u32)
        ensures
            *final(self) == old(self).spec_add_a(old(self).d),
            cycles == 4,
            final(self).wf(),
    {
        let value = self.d;
        self.add_a(value);
        4
    }

    /// ADD A,E
    pub(crate) fn add_a_e(&mut self) -> (cycles: u32)
        ensures
            *final(self) == old(self).spec_add_a(old(self).e),
            cycles == 4,
            final(self).wf(),
    {
        let value = self.e;
        self.add_a(value);
        4
    }

    /// ADD A,H
    pub(crate) fn add_a_h(&mut self) -> (cycles: u32)
        ensures
            *final(self) == old(self).spec_add_a(old(self).h),
            cycles == 4,
            final(self).wf(),
    {
        let value = self.h;
        self.add_a(value);
        4
    }

    /// ADD A,L
    pub(crate) fn add_a_l(&mut self) -> (cycles: u32)
        ensures
            *final(self) == old(self).spec_add_a(old(self).l),
            cycles == 4,
            final(self).wf(),
    {
        let value = self.l;
        self.add_a(value);
        4
    }

    /// ADD A,(HL)
    pub(crate) fn add_a_hl(&mut self, memory: &MMU) -> (cycles: u32)
        ensures
            *final(self) == old(self).spec_add_a(memory@.read(old(self).hl())),
            cycles == 8,
            final(self).wf(),
    {
        let address = self.get_hl();
        let value = memory.read_byte(address);
        self.add_a(value);
        8
    }

    /// ADD A,A
    pub(crate) fn add_a_a(&mut self) -> (cycles: u32)
        ensures
            *final(self) == old(self).spec_add_a(old(self).a),
            cycles == 4,
            final(self).wf(),
    {
        let value = self.a;
        self.add_a(value);
        4
    }

    /// ADD A,n
    pub(crate) fn add_a_n(&mut self, memory: &MMU) -> (cycles: u32)
        ensures
            *final(self) == old(self).skip(1).spec_add_a(imm8(*old(self), memory@)),
            cycles == 8,
            final(self).wf(),
    {
        let value = self.fetch(memory);
        self.add_a(value);
        8
    }

    /// ADC A,B
    pub(crate) fn adc_a_b(&mut self) -> (cycles: u32)
        ensures
            *final(self) == old(self).spec_adc_a(old(self).b),
            cycles == 4,
            final(self).wf(),
    {
        let value = self.b;
        self.adc_a(value);
        4
    }

    /// ADC A,C
    pub(crate) fn adc_a_c(&mut self) -> (cycles: u32)
        ensures
            *final(self) == old(self).spec_adc_a(old(self).c),
            cycles == 4,
            final(self).wf(),
    {
        let value = self.c;
        self.adc_a(value);
        4
    }

    /// ADC A,D
    pub(crate) fn adc_a_d(&mut self) -> (cycles: u32)
        ensures
            *final(self) == old(self).spec_adc_a(old(self).d),
            cycles == 4,
            final(self).wf(),
    {
        let value = self.d;
        self.adc_a(value);
        4
    }

    /// ADC A,E
    pub(crate) fn adc_a_e(&mut self) -> (cycles: u32)
        ensures
            *final(self) == old(self).spec_adc_a(old(self).e),
            cycles == 4,
            final(self).wf(),
    {
        let value = self.e;
        self.adc_a(value);
        4
    }

    /// ADC A,H
    pub(crate) fn adc_a_h(&mut self) -> (cycles: u32)
        ensures
            *final(self) == old(self).spec_adc_a(old(self).h),
            cycles == 4,
            final(self).wf(),
    {
        let value = self.h;
        self.adc_a(value);
        4
    }

    /// ADC A,L
    pub(crate) fn adc_a_l(&mut self) -> (cycles: u32)
        ensures
            *final(self) == old(self).spec_adc_a(old(self).l),
            cycles == 4,
            final(self).wf(),
    {
        let value = self.l;
        self.adc_a(value);
        4
    }

    /// ADC A,(HL)
    pub(crate) fn adc_a_hl(&mut self, memory: &MMU) -> (cycles: u32)
        ensures
            *final(self) == old(self).spec_adc_a(memory@.read(old(self).hl())),
            cycles == 8,
            final(self).wf(),
    {
        let address = self.get_hl();
        let value = memory.read_byte(address);
        self.adc_a(value);
        8
    }

    /// ADC A,A
    pub(crate) fn adc_a_a(&mut self) -> (cycles: u32)
        ensures
            *final(self) == old(self).spec_adc_a(old(self).a),
            cycles == 4,
            final(self).wf(),
    {
        let value = self.a;
        self.adc_a(value);
        4
    }

    /// ADC A,n
    pub(crate) fn adc_a_n(&mut self, memory: &MMU) -> (cycles: u32)
        ensures
            *final(self) == old(self).skip(1).spec_adc_a(imm8(*old(self), memory@)),
            cycles == 8,
            final(self).wf(),
    {
        let value = self.fetch(memory);
        self.adc_a(value);
        8
    }

    /// SUB B
    pub(crate) fn sub_b(&mut self) -> (cycles: u32)
        ensures
            *final(self) == old(self).spec_sub_a(old(self).b),
            cycles == 4,
            final(self).wf(),
    {
        let value = self.b;
        self.sub_a(value);
        4
    }

    /// SUB C
    pub(crate) fn sub_c(&mut self) -> (cycles: u32)
        ensures
            *final(self) == old(self).spec_sub_a(old(self).c),
            cycles == 4,
            final(self).wf(),
    {
        let value = self.c;
        self.sub_a(value);
        4
    }

    /// SUB D
    pub(crate) fn sub_d(&mut self) -> (cycles: u32)
        ensures
            *final(self) == old(self).spec_sub_a(old(self).d),
            cycles == 4,
            final(self).wf(),
    {
        let value = self.d;
        self.sub_a(value);
        4
    }

    /// SUB E
    pub(crate) fn sub_e(&mut self) -> (cycles: u32)
        ensures
            *final(self) == old(self).spec_sub_a(old(self).e),
            cycles == 4,
            final(self).wf(),
    {
        let value = self.e;
        self.sub_a(value);
        4
    }

    /// SUB H
    pub(crate) fn sub_h(&mut self) -> (cycles: u32)
        ensures
            *final(self) == old(self).spec_sub_a(old(self).h),
            cycles == 4,
            final(self).wf(),
    {
        let value = self.h;
        self.sub_a(value);
        4
    }

    /// SUB L
    pub(crate) fn sub_l(&mut self) -> (cycles: u32)
        ensures
            *final(self) == old(self).spec_sub_a(old(self).l),
            cycles == 4,
            final(self).wf(),
    {
        let value = self.l;
        self.sub_a(value);
        4
    }

    /// SUB (HL)
    pub(crate) fn sub_hl(&mut self, memory: &MMU) -> (cycles: u32)
        ensures
            *final(self) == old(self).spec_sub_a(memory@.read(old(self).hl())),
            cycles == 8,
            final(self).wf(),
    {
        let address = self.get_hl();
        let value = memory.read_byte(address);
        self.sub_a(value);
        8
    }

    /// SUB A
    pub(crate) fn sub_a_self(&mut self) -> (cycles: u32)
        ensures
            *final(self) == old(self).spec_sub_a(old(self).a),
            cycles == 4,
            final(self).wf(),
    {
        let value = self.a;
        self.sub_a(value);
        4
    }

    /// SUB n
    pub(crate) fn sub_n(&mut self, memory: &MMU) -> (cycles: u32)
        ensures
            *final(self) == old(self).skip(1).spec_sub_a(imm8(*old(self), memory@)),
            cycles == 8,
            final(self).wf(),
    {
        let value = self.fetch(memory);
        self.sub_a(value);
        8
    }

    /// SBC A,B
    pub(crate) fn sbc_a_b(&mut self) -> (cycles: u32)
        ensures
            *final(self) == old(self).spec_sbc_a(old(self).b),
            cycles == 4,
            final(self).wf(),
    {
        let value = self.b;
        self.sbc_a(value);
        4
    }

    /// SBC A,C
    pub(crate) fn sbc_a_c(&mut self) -> (cycles: u32)
        ensures
            *final(self) == old(self).spec_sbc_a(old(self).c),
            cycles == 4,
            final(self).wf(),
    {
        let value = self.c;
        self.sbc_a(value);
        4
    }

    /// SBC A,D
    pub(crate) fn sbc_a_d(&mut self) -> (cycles: u32)
        ensures
            *final(self) == old(self).spec_sbc_a(old(self).d),
            cycles == 4,
            final(self).wf(),
    {
        let value = self.d;
        self.sbc_a(value);
        4
    }

    /// SBC A,E
    pub(crate) fn sbc_a_e(&mut self) -> (cycles: u32)
        ensures
            *final(self) == old(self).spec_sbc_a(old(self).e),
            cycles == 4,
            final(self).wf(),
    {
        let value = self.e;
        self.sbc_a(value);
        4
    }

    /// SBC A,H
    pub(crate) fn sbc_a_h(&mut self) -> (cycles: u32)
        ensures
            *final(self) == old(self).spec_sbc_a(old(self).h),
            cycles == 4,
            final(self).wf(),
    {
        let value = self.h;
        self.sbc_a(value);
        4
    }

    /// SBC A,L
    pub(crate) fn sbc_a_l(&mut self) -> (cycles: u32)
        ensures
            *final(self) == old(self).spec_sbc_a(old(self).l),
            cycles == 4,
            final(self).wf(),
    {
        let value = self.l;
        self.sbc_a(value);
        4
    }

    /// SBC A,(HL)
    pub(crate) fn sbc_a_hl(&mut self, memory: &MMU) -> (cycles: u32)
        ensures
            *final(self) == old(self).spec_sbc_a(memory@.read(old(self).hl())),
            cycles == 8,
            final(self).wf(),
    {
        let address = self.get_hl();
        let value = memory.read_byte(address);
        self.sbc_a(value);
        8
    }

    /// SBC A,A
    pub(crate) fn sbc_a_a(&mut self) -> (cycles: u32)
        ensures
            *final(self) == old(self).spec_sbc_a(old(self).a),
            cycles == 4,
            final(self).wf(),
    {
        let value = self.a;
        self.sbc_a(value);
        4
    }

    /// SBC A,n
    pub(crate) fn sbc_a_n(&mut self, memory: &MMU) -> (cycles: u32)
        ensures
            *final(self) == old(self).skip(1).spec_sbc_a(imm8(*old(self), memory@)),
            cycles == 8,
            final(self).wf(),
    {
        let value = self.fetch(memory);
        self.sbc_a(value);
        8
    }

    /// AND B
    pub(crate) fn and_b(&mut self) -> (cycles: u32)
        ensures
            *final(self) == old(self).spec_and_a(old(self).b),
            cycles == 4,
            final(self).wf(),
    {
        let value = self.b;
        self.and_a(value);
        4
    }

    /// AND C
    pub(crate) fn and_c(&mut self) -> (cycles: u32)
        ensures
            *final(self) == old(self).spec_and_a(old(self).c),
            cycles == 4,
            final(self).wf(),
    {
        let value = self.c;
        self.and_a(value);
        4
    }

    /// AND D
    pub(crate) fn and_d(&mut self) -> (cycles: u32)
        ensures
            *final(self) == old(self).spec_and_a(old(self).d),
            cycles == 4,
            final(self).wf(),
    {
        let value = self.d;
        self.and_a(value);
        4
    }

    /// AND E
    pub(crate) fn and_e(&mut self) -> (cycles: u32)
        ensures
            *final(self) == old(self).spec_and_a(old(self).e),
            cycles == 4,
            final(self).wf(),
    {
        let value = self.e;
        self.and_a(value);
        4
    }

    /// AND H
    pub(crate) fn and_h(&mut self) -> (cycles: u32)
        ensures
            *final(self) == old(self).spec_and_a(old(self).h),
            cycles == 4,
            final(self).wf(),
    {
        let value = self.h;
        self.and_a(value);
        4
    }

    /// AND L
    pub(crate) fn and_l(&mut self) -> (cycles: u32)
        ensures
            *final(self) == old(self).spec_and_a(old(self).l),
            cycles == 4,
            final(self).wf(),
    {
        let value = self.l;
        self.and_a(value);
        4
    }

    /// AND (HL)
    pub(crate) fn and_hl(&mut self, memory: &MMU) -> (cycles: u32)
        ensures
            *final(self) == old(self).spec_and_a(memory@.read(old(self).hl())),
            cycles == 8,
            final(self).wf(),
    {
        let address = self.get_hl();
        let value = memory.read_byte(address);
        self.and_a(value);
        8
    }

    /// AND A
    pub(crate) fn and_a_self(&mut self) -> (cycles: u32)
        ensures
            *final(self) == old(self).spec_and_a(old(self).a),
            cycles == 4,
            final(self).wf(),
    {
        let value = self.a;
        self.and_a(value);
        4
    }

    /// AND n
    pub(crate) fn and_n(&mut self, memory: &MMU) -> (cycles: u32)
        ensures
            *final(self) == old(self).skip(1).spec_and_a(imm8(*old(self), memory@)),
            cycles == 8,
            final(self).wf(),
    {
        let value = self.fetch(memory);
        self.and_a(value);
        8
    }

    /// XOR B
    pub(crate) fn xor_b(&mut self) -> (cycles: u32)
        ensures
            *final(self) == old(self).spec_xor_a(old(self).b),
            cycles == 4,
            final(self).wf(),
    {
        let value = self.b;
        self.xor_a(value);
        4
    }

    /// XOR C
    pub(crate) fn xor_c(&mut self) -> (cycles: u32)
        ensures
            *final(self) == old(self).spec_xor_a(old(self).c),
            cycles == 4,
            final(self).wf(),
    {
        let value = self.c;
        self.xor_a(value);
        4
    }

    /// XOR D
    pub(crate) fn xor_d(&mut self) -> (cycles: u32)
        ensures
            *final(self) == old(self).spec_xor_a(old(self).d),
            cycles == 4,
            final(self).wf(),
    {
        let value = self.d;
        self.xor_a(value);
        4
    }

    /// XOR E
    pub(crate) fn xor_e(&mut self) -> (cycles: u32)
        ensures
            *final(self) == old(self).spec_xor_a(old(self).e),
            cycles == 4,
            final(self).wf(),
    {
        let value = self.e;
        self.xor_a(value);
        4
    }

    /// XOR H
    pub(crate) fn xor_h(&mut self) -> (cycles: u32)
        ensures
            *final(self) == old(self).spec_xor_a(old(self).h),
            cycles == 4,
            final(self).wf(),
    {
        let value = self.h;
        self.xor_a(value);
        4
    }

    /// XOR L
    pub(crate) fn xor_l(&mut self) -> (cycles: u32)
        ensures
            *final(self) == old(self).spec_xor_a(old(self).l),
            cycles == 4,
            final(self).wf(),
    {
        let value = self.l;
        self.xor_a(value);
        4
    }

    /// XOR (HL)
    pub(crate) fn xor_hl(&mut self, memory: &MMU) -> (cycles: u32)
        ensures
            *final(self) == old(self).spec_xor_a(memory@.read(old(self).hl())),
            cycles == 8,
            final(self).wf(),
    {
        let address = self.get_hl();
        let value = memory.read_byte(address);
        self.xor_a(value);
        8
    }

    /// XOR A
    pub(crate) fn xor_a_self(&mut self) -> (cycles: u32)
        ensures
            *final(self) == old(self).spec_xor_a(old(self).a),
            cycles == 4,
            final(self).wf(),
    {
        let value = self.a;
        self.xor_a(value);
        4
    }

    /// XOR n
    pub(crate) fn xor_n(&mut self, memory: &MMU) -> (cycles: u32)
        ensures
            *final(self) == old(self).skip(1).spec_xor_a(imm8(*old(self), memory@)),
            cycles == 8,
            final(self).wf(),
    {
        let value = self.fetch(memory);
        self.xor_a(value);
        8
    }

    /// OR B
    pub(crate) fn or_b(&mut self) -> (cycles: u32)
        ensures
            *final(self) == old(self).spec_or_a(old(self).b),
            cycles == 4,
            final(self).wf(),
    {
        let value = self.b;
        self.or_a(value);
        4
    }

    /// OR C
    pub(crate) fn or_c(&mut self) -> (cycles: u32)
        ensures
            *final(self) == old(self).spec_or_a(old(self).c),
            cycles == 4,
            final(self).wf(),
    {
        let value = self.c;
        self.or_a(value);
        4
    }

    /// OR D
    pub(crate) fn or_d(&mut self) -> (cycles: u32)
        ensures
            *final(self) == old(self).spec_or_a(old(self).d),
            cycles == 4,
            final(self).wf(),
    {
        let value = self.d;
        self.or_a(value);
        4
    }

    /// OR E
    pub(crate) fn or_e(&mut self) -> (cycles: u32)
        ensures
            *final(self) == old(self).spec_or_a(old(self).e),
            cycles == 4,
            final(self).wf(),
    {
        let value = self.e;
        self.or_a(value);
        4
    }

    /// OR H
    pub(crate) fn or_h(&mut self) -> (cycles: u32)
        ensures
            *final(self) == old(self).spec_or_a(old(self).h),
            cycles == 4,
            final(self).wf(),
    {
        let value = self.h;
        self.or_a(value);
        4
    }

    /// OR L
    pub(crate) fn or_l(&mut self) -> (cycles: u32)
        ensures
            *final(self) == old(self).spec_or_a(old(self).l),
            cycles == 4,
            final(self).wf(),
    {
        let value = self.l;
        self.or_a(value);
        4
    }

    /// OR (HL)
    pub(crate) fn or_hl(&mut self, memory: &MMU) -> (cycles: u32)
        ensures
            *final(self) == old(self).spec_or_a(memory@.read(old(self).hl())),
            cycles == 8,
            final(self).wf(),
    {
        let address = self.get_hl();
        let value = memory.read_byte(address);
        self.or_a(value);
        8
    }

    /// OR A
    pub(crate) fn or_a_self(&mut self) -> (cycles: u32)
        ensures
            *final(self) == old(self).spec_or_a(old(self).a),
            cycles == 4,
            final(self).wf(),
    {
        let value = self.a;
        self.or_a(value);
        4
    }

    /// OR n
    pub(crate) fn or_n(&mut self, memory: &MMU) -> (cycles: u32)
        ensures
            *final(self) == old(self).skip(1).spec_or_a(imm8(*old(self), memory@)),
            cycles == 8,
            final(self).wf(),
    {
        let value = self.fetch(memory);
        self.or_a(value);
        8
    }

    /// CP B
    pub(crate) fn cp_b(&mut self) -> (cycles: u32)
        ensures
            *final(self) == old(self).spec_cp_a(old(self).b),
            cycles == 4,
            final(self).wf(),
    {
        let value = self.b;
        self.cp_a(value);
        4
    }

    /// CP C
    pub(crate) fn cp_c(&mut self) -> (cycles: u32)
        ensures
            *final(self) == old(self).spec_cp_a(old(self).c),
            cycles == 4,
            final(self).wf(),
    {
        let value = self.c;
        self.cp_a(value);
        4
    }

    /// CP D
    pub(crate) fn cp_d(&mut self) -> (cycles: u32)
        ensures
            *final(self) == old(self).spec_cp_a(old(self).d),
            cycles == 4,
            final(self).wf(),
    {
        let value = self.d;
        self.cp_a(value);
        4
    }

    /// CP E
    pub(crate) fn cp_e(&mut self) -> (cycles: u32)
        ensures
            *final(self) == old(self).spec_cp_a(old(self).e),
            cycles == 4,
            final(self).wf(),
    {
        let value = self.e;
        self.cp_a(value);
        4
    }

    /// CP H
    pub(crate) fn cp_h(&mut self) -> (cycles: u32)
        ensures
            *final(self) == old(self).spec_cp_a(old(self).h),
            cycles == 4,
            final(self).wf(),
    {
        let value = self.h;
        self.cp_a(value);
        4
    }

    /// CP L
    pub(crate) fn cp_l(&mut self) -> (cycles: u32)
        ensures
            *final(self) == old(self).spec_cp_a(old(self).l),
            cycles == 4,
            final(self).wf(),
    {
        let value = self.l;
        self.cp_a(value);
        4
    }

    /// CP (HL)
    pub(crate) fn cp_hl(&mut self, memory: &MMU) -> (cycles: u32)
        ensures
            *final(self) == old(self).spec_cp_a(memory@.read(old(self).hl())),
            cycles == 8,
            final(self).wf(),
    {
        let address = self.get_hl();
        let value = memory.read_byte(address);
        self.cp_a(value);
        8
    }

    /// CP A
    pub(crate) fn cp_a_self(&mut self) -> (cycles: u32)
        ensures
            *final(self) == old(self).spec_cp_a(old(self).a),
            cycles == 4,
            final(self).wf(),
    {
        let value = self.a;
        self.cp_a(value);
        4
    }

    /// CP n
    pub(crate) fn cp_n(&mut self, memory: &MMU) -> (cycles: u32)
        ensures
            *final(self) == old(self).skip(1).spec_cp_a(imm8(*old(self), memory@)),
            cycles == 8,
            final(self).wf(),
    {
        let value = self.fetch(memory);
        self.cp_a(value);
        8
    }
}

} // verus!
