//! The processor: fetch, decode by a 256-entry table, execute, and the
//! servicing of interrupts.

pub mod state;
pub mod alu;
pub mod semantics;
pub mod loads;
pub mod arith;
pub mod control;
pub mod prefixed;
pub mod laws;

use vstd::prelude::*;
use crate::bits::{
    bit, signed, wrap16, make_word, high_byte, low_byte, add_signed, test_bit, lemma_bit_masks,
    lemma_nibbles, lemma_byte_shift, lemma_fields,
};
use crate::cpu::semantics::{
    executed, imm8, imm16, spec_fault, spec_fault_error, spec_interrupts, stepped,
};
use crate::cpu::state::{
    CPU, DecodeError, flags, ZERO_FLAG, SUBTRACT_FLAG, HALF_CARRY_FLAG, CARRY_FLAG,
};
use crate::memory::MMU;

verus! {

/// Whether `flag` is the mask of one of the four flags.
pub open spec fn is_flag_mask(flag: u8) -> bool {
    flag == ZERO_FLAG || flag == SUBTRACT_FLAG || flag == HALF_CARRY_FLAG || flag == CARRY_FLAG
}

/// F with the flag of mask `flag` given the value `on`, the other three
/// kept.
pub open spec fn with_flag(cpu: CPU, flag: u8, on: bool) -> u8 {
    flags(
        if flag == ZERO_FLAG { on } else { cpu.flag_z() },
        if flag == SUBTRACT_FLAG { on } else { cpu.flag_n() },
        if flag == HALF_CARRY_FLAG { on } else { cpu.flag_h() },
        if flag == CARRY_FLAG { on } else { cpu.flag_c() },
    )
}

proof fn lemma_flag_masks(f: u8)
    by (bit_vector)
    ensures
        f | 0x80 == (if (f / 128) % 2 == 1 { f } else { (f + 128) as u8 }),
        f | 0x40 == (if (f / 64) % 2 == 1 { f } else { (f + 64) as u8 }),
        f | 0x20 == (if (f / 32) % 2 == 1 { f } else { (f + 32) as u8 }),
        f | 0x10 == (if (f / 16) % 2 == 1 { f } else { (f + 16) as u8 }),
        f & !0x80u8 == (if (f / 128) % 2 == 1 { (f - 128) as u8 } else { f }),
        f & !0x40u8 == (if (f / 64) % 2 == 1 { (f - 64) as u8 } else { f }),
        f & !0x20u8 == (if (f / 32) % 2 == 1 { (f - 32) as u8 } else { f }),
        f & !0x10u8 == (if (f / 16) % 2 == 1 { (f - 16) as u8 } else { f }),
{
}

/// The flags read back from an F register are the ones it was made of.
pub proof fn lemma_flags_read(cpu: CPU, z: bool, n: bool, h: bool, c: bool)
    requires
        cpu.f == flags(z, n, h, c),
    ensures
        cpu.wf(),
        cpu.flag_z() == z,
        cpu.flag_n() == n,
        cpu.flag_h() == h,
        cpu.flag_c() == c,
        cpu.f & 0x0F == 0,
{
    lemma_nibbles(cpu.f);
}

/// Packs four flags into an F register.
pub fn make_flags(z: bool, n: bool, h: bool, c: bool) -> (f: u8)
    ensures
        f == flags(z, n, h, c),
{
    (if z { ZERO_FLAG } else { 0 }) + (if n { SUBTRACT_FLAG } else { 0 }) + (if h {
        HALF_CARRY_FLAG
    } else {
        0
    }) + (if c { CARRY_FLAG } else { 0 })
}

impl CPU {
    /// The registers at power-on, for a start through a boot image.
    pub fn new() -> (cpu: Self)
        ensures
            cpu == CPU::initial(),
            cpu.wf(),
    {
        CPU {
            a: 0,
            b: 0,
            c: 0,
            d: 0,
            e: 0,
            f: 0,
            h: 0,
            l: 0,
            sp: 0,
            pc: 0,
            ime: false,
            halt: false,
            stop: false,
        }
    }

    /// The registers as a boot image leaves them, for a start at 0x0100
    /// without one.
    pub fn post_boot() -> (cpu: Self)
        ensures
            cpu == CPU::after_boot(),
            cpu.wf(),
    {
        CPU {
            a: 0x01,
            b: 0x00,
            c: 0x13,
            d: 0x00,
            e: 0xD8,
            f: 0xB0,
            h: 0x01,
            l: 0x4D,
            sp: 0xFFFE,
            pc: 0x0100,
            ime: false,
            halt: false,
            stop: false,
        }
    }

    pub fn is_stopped(&self) -> (stopped: bool)
        ensures
            stopped == self.stop,
    {
        self.stop
    }

    /// Whether the processor waits for an interrupt.
    pub fn is_halted(&self) -> (halted: bool)
        ensures
            halted == self.halt,
    {
        self.halt
    }

    /// Reads the byte at the program counter and moves past it.
    pub(crate) fn fetch(&mut self, memory: &MMU) -> (opcode: u8)
        ensures
            opcode == imm8(*old(self), memory@),
            *final(self) == old(self).skip(1),
    {
        let opcode = memory.read_byte(self.pc);
        self.pc = self.pc.wrapping_add(1);
        opcode
    }

    /// Reads the little-endian word at the program counter and moves past
    /// it.
    pub(crate) fn fetch_word(&mut self, memory: &MMU) -> (value: u16)
        ensures
            value == imm16(*old(self), memory@),
            *final(self) == old(self).skip(2),
    {
        let low = self.fetch(memory);
        let high = self.fetch(memory);
        make_word(high, low)
    }

    pub(crate) fn set_flag(&mut self, flag: u8)
        requires
            old(self).wf(),
            is_flag_mask(flag),
        ensures
            *final(self) == (CPU { f: with_flag(*old(self), flag, true), ..*old(self) }),
            final(self).f == old(self).f | flag,
    {
        proof {
            lemma_flag_masks(self.f);
        }
        self.f = self.f | flag;
    }

    pub(crate) fn clear_flag(&mut self, flag: u8)
        requires
            old(self).wf(),
            is_flag_mask(flag),
        ensures
            *final(self) == (CPU { f: with_flag(*old(self), flag, false), ..*old(self) }),
            final(self).f == old(self).f & !flag,
    {
        proof {
            lemma_flag_masks(self.f);
        }
        self.f = self.f & !flag;
    }

    pub(crate) fn is_flag_set(&self, flag: u8) -> (set: bool)
        requires
            is_flag_mask(flag),
        ensures
            set == (self.f & flag != 0),
            flag == ZERO_FLAG ==> set == self.flag_z(),
            flag == SUBTRACT_FLAG ==> set == self.flag_n(),
            flag == HALF_CARRY_FLAG ==> set == self.flag_h(),
            flag == CARRY_FLAG ==> set == self.flag_c(),
    {
        proof {
            lemma_bit_masks(self.f);
        }
        self.f & flag != 0
    }

    /// The carry flag as 0 or 1.
    pub(crate) fn carry_in(&self) -> (c: u8)
        ensures
            c == self.carry(),
    {
        if self.is_flag_set(CARRY_FLAG) {
            1
        } else {
            0
        }
    }

    pub(crate) fn get_bc(&self) -> (v: u16)
        ensures
            v == self.bc(),
    {
        make_word(self.b, self.c)
    }

    pub(crate) fn set_bc(&mut self, value: u16)
        ensures
            *final(self) == old(self).with_bc(value),
    {
        self.b = high_byte(value);
        self.c = low_byte(value);
    }

    pub(crate) fn get_de(&self) -> (v: u16)
        ensures
            v == self.de(),
    {
        make_word(self.d, self.e)
    }

    pub(crate) fn set_de(&mut self, value: u16)
        ensures
            *final(self) == old(self).with_de(value),
    {
        self.d = high_byte(value);
        self.e = low_byte(value);
    }

    pub(crate) fn get_hl(&self) -> (v: u16)
        ensures
            v == self.hl(),
    {
        make_word(self.h, self.l)
    }

    pub(crate) fn set_hl(&mut self, value: u16)
        ensures
            *final(self) == old(self).with_hl(value),
    {
        self.h = high_byte(value);
        self.l = low_byte(value);
    }

    pub(crate) fn get_af(&self) -> (v: u16)
        ensures
            v == self.af(),
    {
        make_word(self.a, self.f)
    }

    pub(crate) fn set_af(&mut self, value: u16)
        ensures
            *final(self) == old(self).with_af(value),
            final(self).wf(),
    {
        let low = low_byte(value);
        proof {
            lemma_nibbles(low);
        }
        self.a = high_byte(value);
        self.f = low & 0xF0;
    }

    /// Reads the register that a 3-bit field names; not for field value 6,
    /// which names a byte of memory.
    pub(crate) fn get_register(&self, r: u8) -> (v: u8)
        requires
            r <= 7,
            r != 6,
        ensures
            v == self.reg8(r as int),
    {
        match r {
            0 => self.b,
            1 => self.c,
            2 => self.d,
            3 => self.e,
            4 => self.h,
            5 => self.l,
            _ => self.a,
        }
    }

    /// Writes the register that a 3-bit field names; not for field value
    /// 6.
    pub(crate) fn set_register(&mut self, r: u8, value: u8)
        requires
            r <= 7,
            r != 6,
        ensures
            *final(self) == old(self).with_reg(r as int, value),
    {
        match r {
            0 => self.b = value,
            1 => self.c = value,
            2 => self.d = value,
            3 => self.e = value,
            4 => self.h = value,
            5 => self.l = value,
            _ => self.a = value,
        }
    }

    /// Reads the operand that a 3-bit field names.
    pub(crate) fn get_r(&self, r: u8, memory: &MMU) -> (v: u8)
        requires
            r <= 7,
        ensures
            v == self.reg(memory@, r as int),
    {
        if r == 6 {
            memory.read_byte(self.get_hl())
        } else {
            self.get_register(r)
        }
    }

    /// Writes the operand that a 3-bit field names.
    pub(crate) fn set_r(&mut self, r: u8, value: u8, memory: &mut MMU)
        requires
            r <= 7,
            old(memory).wf(),
        ensures
            final(memory).wf(),
            *final(self) == old(self).with_reg(r as int, value),
            final(memory)@ == old(self).store(old(memory)@, r as int, value),
    {
        if r == 6 {
            let address = self.get_hl();
            memory.write_byte(address, value);
        } else {
            self.set_register(r, value);
        }
    }

    pub(crate) fn ld_r_n(&mut self, r: u8, n: u8) -> (cycles: u32)
        requires
            r <= 7,
            r != 6,
        ensures
            *final(self) == old(self).with_reg(r as int, n),
            cycles == 8,
    {
        self.set_register(r, n);
        8
    }

    pub(crate) fn ld_r1_r2(&mut self, r1: u8, r2: u8) -> (cycles: u32)
        requires
            r1 <= 7,
            r1 != 6,
            r2 <= 7,
            r2 != 6,
        ensures
            *final(self) == old(self).with_reg(r1 as int, old(self).reg8(r2 as int)),
            cycles == 4,
    {
        let value = self.get_register(r2);
        self.set_register(r1, value);
        4
    }

    /// Loads the pair that `p` names (0 BC, 1 DE, 2 HL, 3 SP) with the
    /// word that follows the opcode.
    pub(crate) fn ld_rr_nn(&mut self, p: u8, memory: &MMU) -> (cycles: u32)
        requires
            p <= 3,
        ensures
            *final(self) == old(self).skip(2).with_pair(p as int, imm16(*old(self), memory@)),
            cycles == 12,
    {
        let value = self.fetch_word(memory);
        match p {
            0 => self.set_bc(value),
            1 => self.set_de(value),
            2 => self.set_hl(value),
            _ => self.sp = value,
        }
        12
    }

    pub(crate) fn push_stack(&mut self, memory: &mut MMU, value: u16)
        requires
            old(memory).wf(),
        ensures
            final(memory).wf(),
            *final(self) == old(self).pushed(),
            final(memory)@ == old(self).push_to(old(memory)@, value),
    {
        memory.write_byte(self.sp.wrapping_sub(1), high_byte(value));
        self.sp = self.sp.wrapping_sub(2);
        memory.write_byte(self.sp, low_byte(value));
    }

    pub(crate) fn pop_stack(&mut self, memory: &MMU) -> (value: u16)
        ensures
            *final(self) == old(self).popped(),
            value == old(self).top(memory@),
    {
        let value = memory.rw(self.sp);
        self.sp = self.sp.wrapping_add(2);
        value
    }

    /// Adds a signed displacement to the program counter.
    pub(crate) fn jr(&mut self, offset: u8)
        ensures
            *final(self) == (CPU { pc: wrap16(old(self).pc + signed(offset)), ..*old(self) }),
    {
        self.pc = add_signed(self.pc, offset);
    }

    /// Gives up on an undefined opcode: the program counter goes back to
    /// it and the core stops.
    fn fault(&mut self, opcode: u8) -> (error: DecodeError)
        ensures
            *final(self) == spec_fault(*old(self)),
            error == spec_fault_error(*old(self), opcode),
            old(self).wf() ==> final(self).wf(),
    {
        self.pc = self.pc.wrapping_sub(1);
        self.stop = true;
        DecodeError { pc: self.pc, opcode: opcode }
    }

    /// Executes the instruction whose first byte, already fetched, is
    /// `opcode`, and returns the base cycles it took. The table is keyed
    /// by the three fields of the opcode: bits 7..6, bits 5..3, bits 2..0.
    pub(crate) fn execute(&mut self, opcode: u8, memory: &mut MMU) -> (r: Result<u32, DecodeError>)
        requires
            old(self).wf(),
            old(memory).wf(),
        ensures
            final(self).wf(),
            final(memory).wf(),
            executed(*old(self), old(memory)@, opcode, *final(self), final(memory)@, r),
    {
        proof {
            lemma_fields(opcode);
        }
        match (opcode >> 6, (opcode >> 3) & 0x07, opcode & 0x07) {
            (0, 0, 0) => Ok(self.nop()),
            (0, 0, 1) => Ok(self.ld_bc_nn(memory)),
            (0, 0, 2) => Ok(self.ld_bc_a(memory)),
            (0, 0, 3) => Ok(self.inc_bc()),
            (0, 0, 4) => Ok(self.inc_b()),
            (0, 0, 5) => Ok(self.dec_b()),
            (0, 0, 6) => Ok(self.ld_b_n(memory)),
            (0, 0, 7) => Ok(self.rlca()),
            (0, 1, 0) => Ok(self.ld_nn_sp(memory)),
            (0, 1, 1) => Ok(self.add_hl_bc()),
            (0, 1, 2) => Ok(self.ld_a_bc(memory)),
            (0, 1, 3) => Ok(self.dec_bc()),
            (0, 1, 4) => Ok(self.inc_c()),
            (0, 1, 5) => Ok(self.dec_c()),
            (0, 1, 6) => Ok(self.ld_c_n(memory)),
            (0, 1, 7) => Ok(self.rrca()),
            (0, 2, 0) => Ok(self.stop()),
            (0, 2, 1) => Ok(self.ld_de_nn(memory)),
            (0, 2, 2) => Ok(self.ld_de_a(memory)),
            (0, 2, 3) => Ok(self.inc_de()),
            (0, 2, 4) => Ok(self.inc_d()),
            (0, 2, 5) => Ok(self.dec_d()),
            (0, 2, 6) => Ok(self.ld_d_n(memory)),
            (0, 2, 7) => Ok(self.rla()),
            (0, 3, 0) => Ok(self.jr_n(memory)),
            (0, 3, 1) => Ok(self.add_hl_de()),
            (0, 3, 2) => Ok(self.ld_a_de(memory)),
            (0, 3, 3) => Ok(self.dec_de()),
            (0, 3, 4) => Ok(self.inc_e()),
            (0, 3, 5) => Ok(self.dec_e()),
            (0, 3, 6) => Ok(self.ld_e_n(memory)),
            (0, 3, 7) => Ok(self.rra()),
            (0, 4, 0) => Ok(self.jr_nz_n(memory)),
            (0, 4, 1) => Ok(self.ld_hl_nn(memory)),
            (0, 4, 2) => Ok(self.ld_hl_inc_a(memory)),
            (0, 4, 3) => Ok(self.inc_hl()),
            (0, 4, 4) => Ok(self.inc_h()),
            (0, 4, 5) => Ok(self.dec_h()),
            (0, 4, 6) => Ok(self.ld_h_n(memory)),
            (0, 4, 7) => Ok(self.daa()),
            (0, 5, 0) => Ok(self.jr_z_n(memory)),
            (0, 5, 1) => Ok(self.add_hl_hl()),
            (0, 5, 2) => Ok(self.ld_a_hl_inc(memory)),
            (0, 5, 3) => Ok(self.dec_hl()),
            (0, 5, 4) => Ok(self.inc_l()),
            (0, 5, 5) => Ok(self.dec_l()),
            (0, 5, 6) => Ok(self.ld_l_n(memory)),
            (0, 5, 7) => Ok(self.cpl()),
            (0, 6, 0) => Ok(self.jr_nc_n(memory)),
            (0, 6, 1) => Ok(self.ld_sp_nn(memory)),
            (0, 6, 2) => Ok(self.ld_hl_dec_a(memory)),
            (0, 6, 3) => Ok(self.inc_sp()),
            (0, 6, 4) => Ok(self.inc_hl_addr(memory)),
            (0, 6, 5) => Ok(self.dec_hl_addr(memory)),
            (0, 6, 6) => Ok(self.ld_hl_n(memory)),
            (0, 6, 7) => Ok(self.scf()),
            (0, 7, 0) => Ok(self.jr_c_n(memory)),
            (0, 7, 1) => Ok(self.add_hl_sp()),
            (0, 7, 2) => Ok(self.ld_a_hl_dec(memory)),
            (0, 7, 3) => Ok(self.dec_sp()),
            (0, 7, 4) => Ok(self.inc_a()),
            (0, 7, 5) => Ok(self.dec_a()),
            (0, 7, 6) => Ok(self.ld_a_n(memory)),
            (0, 7, 7) => Ok(self.ccf()),

            (1, 0, 0) => Ok(self.ld_b_b()),
            (1, 0, 1) => Ok(self.ld_b_c()),
            (1, 0, 2) => Ok(self.ld_b_d()),
            (1, 0, 3) => Ok(self.ld_b_e()),
            (1, 0, 4) => Ok(self.ld_b_h()),
            (1, 0, 5) => Ok(self.ld_b_l()),
            (1, 0, 6) => Ok(self.ld_b_hl(memory)),
            (1, 0, 7) => Ok(self.ld_b_a()),
            (1, 1, 0) => Ok(self.ld_c_b()),
            (1, 1, 1) => Ok(self.ld_c_c()),
            (1, 1, 2) => Ok(self.ld_c_d()),
            (1, 1, 3) => Ok(self.ld_c_e()),
            (1, 1, 4) => Ok(self.ld_c_h()),
            (1, 1, 5) => Ok(self.ld_c_l()),
            (1, 1, 6) => Ok(self.ld_c_hl(memory)),
            (1, 1, 7) => Ok(self.ld_c_a()),
            (1, 2, 0) => Ok(self.ld_d_b()),
            (1, 2, 1) => Ok(self.ld_d_c()),
            (1, 2, 2) => Ok(self.ld_d_d()),
            (1, 2, 3) => Ok(self.ld_d_e()),
            (1, 2, 4) => Ok(self.ld_d_h()),
            (1, 2, 5) => Ok(self.ld_d_l()),
            (1, 2, 6) => Ok(self.ld_d_hl(memory)),
            (1, 2, 7) => Ok(self.ld_d_a()),
            (1, 3, 0) => Ok(self.ld_e_b()),
            (1, 3, 1) => Ok(self.ld_e_c()),
            (1, 3, 2) => Ok(self.ld_e_d()),
            (1, 3, 3) => Ok(self.ld_e_e()),
            (1, 3, 4) => Ok(self.ld_e_h()),
            (1, 3, 5) => Ok(self.ld_e_l()),
            (1, 3, 6) => Ok(self.ld_e_hl(memory)),
            (1, 3, 7) => Ok(self.ld_e_a()),
            (1, 4, 0) => Ok(self.ld_h_b()),
            (1, 4, 1) => Ok(self.ld_h_c()),
            (1, 4, 2) => Ok(self.ld_h_d()),
            (1, 4, 3) => Ok(self.ld_h_e()),
            (1, 4, 4) => Ok(self.ld_h_h()),
            (1, 4, 5) => Ok(self.ld_h_l()),
            (1, 4, 6) => Ok(self.ld_h_hl(memory)),
            (1, 4, 7) => Ok(self.ld_h_a()),
            (1, 5, 0) => Ok(self.ld_l_b()),
            (1, 5, 1) => Ok(self.ld_l_c()),
            (1, 5, 2) => Ok(self.ld_l_d()),
            (1, 5, 3) => Ok(self.ld_l_e()),
            (1, 5, 4) => Ok(self.ld_l_h()),
            (1, 5, 5) => Ok(self.ld_l_l()),
            (1, 5, 6) => Ok(self.ld_l_hl(memory)),
            (1, 5, 7) => Ok(self.ld_l_a()),
            (1, 6, 0) => Ok(self.ld_hl_b(memory)),
            (1, 6, 1) => Ok(self.ld_hl_c(memory)),
            (1, 6, 2) => Ok(self.ld_hl_d(memory)),
            (1, 6, 3) => Ok(self.ld_hl_e(memory)),
            (1, 6, 4) => Ok(self.ld_hl_h(memory)),
            (1, 6, 5) => Ok(self.ld_hl_l(memory)),
            (1, 6, 6) => Ok(self.halt()),
            (1, 6, 7) => Ok(self.ld_hl_a(memory)),
            (1, 7, 0) => Ok(self.ld_a_b()),
            (1, 7, 1) => Ok(self.ld_a_c()),
            (1, 7, 2) => Ok(self.ld_a_d()),
            (1, 7, 3) => Ok(self.ld_a_e()),
            (1, 7, 4) => Ok(self.ld_a_h()),
            (1, 7, 5) => Ok(self.ld_a_l()),
            (1, 7, 6) => Ok(self.ld_a_hl(memory)),
            (1, 7, 7) => Ok(self.ld_a_a()),

            (2, 0, 0) => Ok(self.add_a_b()),
            (2, 0, 1) => Ok(self.add_a_c()),
            (2, 0, 2) => Ok(self.add_a_d()),
            (2, 0, 3) => Ok(self.add_a_e()),
            (2, 0, 4) => Ok(self.add_a_h()),
            (2, 0, 5) => Ok(self.add_a_l()),
            (2, 0, 6) => Ok(self.add_a_hl(memory)),
            (2, 0, 7) => Ok(self.add_a_a()),
            (2, 1, 0) => Ok(self.adc_a_b()),
            (2, 1, 1) => Ok(self.adc_a_c()),
            (2, 1, 2) => Ok(self.adc_a_d()),
            (2, 1, 3) => Ok(self.adc_a_e()),
            (2, 1, 4) => Ok(self.adc_a_h()),
            (2, 1, 5) => Ok(self.adc_a_l()),
            (2, 1, 6) => Ok(self.adc_a_hl(memory)),
            (2, 1, 7) => Ok(self.adc_a_a()),
            (2, 2, 0) => Ok(self.sub_b()),
            (2, 2, 1) => Ok(self.sub_c()),
            (2, 2, 2) => Ok(self.sub_d()),
            (2, 2, 3) => Ok(self.sub_e()),
            (2, 2, 4) => Ok(self.sub_h()),
            (2, 2, 5) => Ok(self.sub_l()),
            (2, 2, 6) => Ok(self.sub_hl(memory)),
            (2, 2, 7) => Ok(self.sub_a_self()),
            (2, 3, 0) => Ok(self.sbc_a_b()),
            (2, 3, 1) => Ok(self.sbc_a_c()),
            (2, 3, 2) => Ok(self.sbc_a_d()),
            (2, 3, 3) => Ok(self.sbc_a_e()),
            (2, 3, 4) => Ok(self.sbc_a_h()),
            (2, 3, 5) => Ok(self.sbc_a_l()),
            (2, 3, 6) => Ok(self.sbc_a_hl(memory)),
            (2, 3, 7) => Ok(self.sbc_a_a()),
            (2, 4, 0) => Ok(self.and_b()),
            (2, 4, 1) => Ok(self.and_c()),
            (2, 4, 2) => Ok(self.and_d()),
            (2, 4, 3) => Ok(self.and_e()),
            (2, 4, 4) => Ok(self.and_h()),
            (2, 4, 5) => Ok(self.and_l()),
            (2, 4, 6) => Ok(self.and_hl(memory)),
            (2, 4, 7) => Ok(self.and_a_self()),
            (2, 5, 0) => Ok(self.xor_b()),
            (2, 5, 1) => Ok(self.xor_c()),
            (2, 5, 2) => Ok(self.xor_d()),
            (2, 5, 3) => Ok(self.xor_e()),
            (2, 5, 4) => Ok(self.xor_h()),
            (2, 5, 5) => Ok(self.xor_l()),
            (2, 5, 6) => Ok(self.xor_hl(memory)),
            (2, 5, 7) => Ok(self.xor_a_self()),
            (2, 6, 0) => Ok(self.or_b()),
            (2, 6, 1) => Ok(self.or_c()),
            (2, 6, 2) => Ok(self.or_d()),
            (2, 6, 3) => Ok(self.or_e()),
            (2, 6, 4) => Ok(self.or_h()),
            (2, 6, 5) => Ok(self.or_l()),
            (2, 6, 6) => Ok(self.or_hl(memory)),
            (2, 6, 7) => Ok(self.or_a_self()),
            (2, 7, 0) => Ok(self.cp_b()),
            (2, 7, 1) => Ok(self.cp_c()),
            (2, 7, 2) => Ok(self.cp_d()),
            (2, 7, 3) => Ok(self.cp_e()),
            (2, 7, 4) => Ok(self.cp_h()),
            (2, 7, 5) => Ok(self.cp_l()),
            (2, 7, 6) => Ok(self.cp_hl(memory)),
            (2, 7, 7) => Ok(self.cp_a_self()),

            (3, 0, 0) => Ok(self.ret_nz(memory)),
            (3, 0, 1) => Ok(self.pop_bc(memory)),
            (3, 0, 2) => Ok(self.jp_nz_nn(memory)),
            (3, 0, 3) => Ok(self.jp_nn(memory)),
            (3, 0, 4) => Ok(self.call_nz_nn(memory)),
            (3, 0, 5) => Ok(self.push_bc(memory)),
            (3, 0, 6) => Ok(self.add_a_n(memory)),
            (3, 0, 7) => Ok(self.rst_00h(memory)),
            (3, 1, 0) => Ok(self.ret_z(memory)),
            (3, 1, 1) => Ok(self.ret(memory)),
            (3, 1, 2) => Ok(self.jp_z_nn(memory)),
            (3, 1, 3) => Ok(self.prefix_cb(memory)),
            (3, 1, 4) => Ok(self.call_z_nn(memory)),
            (3, 1, 5) => Ok(self.call_nn(memory)),
            (3, 1, 6) => Ok(self.adc_a_n(memory)),
            (3, 1, 7) => Ok(self.rst_08h(memory)),
            (3, 2, 0) => Ok(self.ret_nc(memory)),
            (3, 2, 1) => Ok(self.pop_de(memory)),
            (3, 2, 2) => Ok(self.jp_nc_nn(memory)),
            (3, 2, 4) => Ok(self.call_nc_nn(memory)),
            (3, 2, 5) => Ok(self.push_de(memory)),
            (3, 2, 6) => Ok(self.sub_n(memory)),
            (3, 2, 7) => Ok(self.rst_10h(memory)),
            (3, 3, 0) => Ok(self.ret_c(memory)),
            (3, 3, 1) => Ok(self.reti(memory)),
            (3, 3, 2) => Ok(self.jp_c_nn(memory)),
            (3, 3, 4) => Ok(self.call_c_nn(memory)),
            (3, 3, 6) => Ok(self.sbc_a_n(memory)),
            (3, 3, 7) => Ok(self.rst_18h(memory)),
            (3, 4, 0) => Ok(self.ldh_n_a(memory)),
            (3, 4, 1) => Ok(self.pop_hl(memory)),
            (3, 4, 2) => Ok(self.ldh_c_a(memory)),
            (3, 4, 5) => Ok(self.push_hl(memory)),
            (3, 4, 6) => Ok(self.and_n(memory)),
            (3, 4, 7) => Ok(self.rst_20h(memory)),
            (3, 5, 0) => Ok(self.add_sp_n(memory)),
            (3, 5, 1) => Ok(self.jp_hl()),
            (3, 5, 2) => Ok(self.ld_nn_a(memory)),
            (3, 5, 6) => Ok(self.xor_n(memory)),
            (3, 5, 7) => Ok(self.rst_28h(memory)),
            (3, 6, 0) => Ok(self.ldh_a_n(memory)),
            (3, 6, 1) => Ok(self.pop_af(memory)),
            (3, 6, 2) => Ok(self.ldh_a_c(memory)),
            (3, 6, 3) => Ok(self.di()),
            (3, 6, 5) => Ok(self.push_af(memory)),
            (3, 6, 6) => Ok(self.or_n(memory)),
            (3, 6, 7) => Ok(self.rst_30h(memory)),
            (3, 7, 0) => Ok(self.ld_hl_sp_n(memory)),
            (3, 7, 1) => Ok(self.ld_sp_hl()),
            (3, 7, 2) => Ok(self.ld_a_nn(memory)),
            (3, 7, 3) => Ok(self.ei()),
            (3, 7, 6) => Ok(self.cp_n(memory)),
            (3, 7, 7) => Ok(self.rst_38h(memory)),
            _ => Err(self.fault(opcode)),
        }
    }

    /// Executes one instruction and returns the base cycles it took. A
    /// halted or stopped core only lets four cycles pass. An undefined
    /// opcode stops the core and is reported with its address.
    pub fn step(&mut self, memory: &mut MMU) -> (r: Result<u32, DecodeError>)
        requires
            old(self).wf(),
            old(memory).wf(),
        ensures
            final(self).wf(),
            final(memory).wf(),
            final(self).f & 0x0F == 0,
            stepped(*old(self), old(memory)@, *final(self), final(memory)@, r),
            r matches Ok(c) ==> c > 0 && c % 4 == 0,
    {
        proof {
            lemma_nibbles(self.f);
        }
        if self.halt || self.stop {
            return Ok(4);
        }
        let opcode = self.fetch(memory);
        let r = self.execute(opcode, memory);
        proof {
            lemma_nibbles(self.f);
        }
        r
    }

    /// Serves pending interrupts. Any pending line ends HALT. With the
    /// master enable set, the lowest pending line is acknowledged, the
    /// program counter is pushed and the line's vector entered; the result
    /// says whether that happened.
    pub fn handle_interrupts(&mut self, memory: &mut MMU, interrupts: u8) -> (dispatched: bool)
        requires
            old(memory).wf(),
        ensures
            final(memory).wf(),
            (*final(self), final(memory)@, dispatched) == spec_interrupts(
                *old(self),
                old(memory)@,
                interrupts,
            ),
            old(self).wf() ==> final(self).wf(),
    {
        let mut line: u8 = 0;
        while line < 5 && !test_bit(interrupts, line)
            invariant
                line <= 5,
                forall|k: int| 0 <= k < line ==> !bit(interrupts as int, k),
            decreases 5 - line,
        {
            line = line + 1;
        }
        if line == 5 {
            return false;
        }
        self.halt = false;
        if !self.ime {
            return false;
        }
        proof {
            lemma_byte_shift(interrupts, line);
        }
        self.ime = false;
        memory.acknowledge_interrupt(1u8 << line);
        let back = self.pc;
        self.push_stack(memory, back);
        self.pc = 0x0040 + 8 * line as u16;
        true
    }
}

} // verus!
