//! The instructions behind the 0xCB prefix: rotates and shifts of any
//! operand, and the test, clearing and setting of single bits.

use vstd::prelude::*;
use crate::bits::lemma_fields;
use crate::cpu::alu::{bit_is_clear, clear_bit, set_bit};
use crate::cpu::make_flags;
use crate::cpu::semantics::{
    achieves, spec_bit_test, spec_cb, spec_prefixed, spec_reset, spec_rotate, spec_setbit,
};
use crate::cpu::state::{CPU, CARRY_FLAG};
use crate::memory::MMU;

verus! {

impl CPU {
    /// The 0xCB prefix: fetches the second opcode byte and executes it.
    pub(crate) fn prefix_cb(&mut self, memory: &mut MMU) -> (cycles: u32)
        requires
            old(memory).wf(),
        ensures
            old(self).wf() ==> final(self).wf(),
            final(memory).wf(),
            achieves(
                spec_prefixed(*old(self), old(memory)@),
                *final(self),
                final(memory)@,
                cycles,
            ),
    {
        let opcode = self.fetch(memory);
        self.execute_cb(opcode, memory)
    }

    /// Executes the prefixed opcode `opcode`.
    pub(crate) fn execute_cb(&mut self, opcode: u8, memory: &mut MMU) -> (cycles: u32)
        requires
            old(memory).wf(),
        ensures
            old(self).wf() ==> final(self).wf(),
            final(memory).wf(),
            achieves(
                spec_cb(*old(self), old(memory)@, opcode),
                *final(self),
                final(memory)@,
                cycles,
            ),
    {
        proof {
            lemma_fields(opcode);
        }
        match opcode >> 6 {
            0 => self.rotate_shift(opcode, memory),
            1 => self.bit_b_r(opcode, memory),
            2 => self.res_b_r(opcode, memory),
            _ => self.set_b_r(opcode, memory),
        }
    }

    /// The rotates and shifts, prefixed opcodes 0x00..=0x3F.
    pub(crate) fn rotate_shift(&mut self, opcode: u8, memory: &mut MMU) -> (cycles: u32)
        requires
            old(memory).wf(),
        ensures
            old(self).wf() ==> final(self).wf(),
            final(memory).wf(),
            achieves(
                spec_rotate(
                    *old(self),
                    old(memory)@,
                    ((opcode / 8) % 8) as int,
                    (opcode % 8) as int,
                ),
                *final(self),
                final(memory)@,
                cycles,
            ),
    {
        proof {
            lemma_fields(opcode);
        }
        let r = opcode & 0x07;
        match (opcode >> 3) & 0x07 {
            0 => self.rlc_r(r, memory),
            1 => self.rrc_r(r, memory),
            2 => self.rl_r(r, memory),
            3 => self.rr_r(r, memory),
            4 => self.sla_r(r, memory),
            5 => self.sra_r(r, memory),
            6 => self.swap_r(r, memory),
            _ => self.srl_r(r, memory),
        }
    }

    /// RLC r: rotate left.
    pub(crate) fn rlc_r(&mut self, r: u8, memory: &mut MMU) -> (cycles: u32)
        requires
            r <= 7,
            old(memory).wf(),
        ensures
            old(self).wf() ==> final(self).wf(),
            final(memory).wf(),
            achieves(
                spec_rotate(*old(self), old(memory)@, 0, r as int),
                *final(self),
                final(memory)@,
                cycles,
            ),
    {
        let value = self.get_r(r, memory);
        let result = self.rlc(value);
        self.set_r(r, result, memory);
        if r == 6 {
            16
        } else {
            8
        }
    }

    /// RRC r: rotate right.
    pub(crate) fn rrc_r(&mut self, r: u8, memory: &mut MMU) -> (cycles: u32)
        requires
            r <= 7,
            old(memory).wf(),
        ensures
            old(self).wf() ==> final(self).wf(),
            final(memory).wf(),
            achieves(
                spec_rotate(*old(self), old(memory)@, 1, r as int),
                *final(self),
                final(memory)@,
                cycles,
            ),
    {
        let value = self.get_r(r, memory);
        let result = self.rrc(value);
        self.set_r(r, result, memory);
        if r == 6 {
            16
        } else {
            8
        }
    }

    /// RL r: rotate left through carry.
    pub(crate) fn rl_r(&mut self, r: u8, memory: &mut MMU) -> (cycles: u32)
        requires
            r <= 7,
            old(memory).wf(),
        ensures
            old(self).wf() ==> final(self).wf(),
            final(memory).wf(),
            achieves(
                spec_rotate(*old(self), old(memory)@, 2, r as int),
                *final(self),
                final(memory)@,
                cycles,
            ),
    {
        let value = self.get_r(r, memory);
        let result = self.rl(value);
        self.set_r(r, result, memory);
        if r == 6 {
            16
        } else {
            8
        }
    }

    /// RR r: rotate right through carry.
    pub(crate) fn rr_r(&mut self, r: u8, memory: &mut MMU) -> (cycles: u32)
        requires
            r <= 7,
            old(memory).wf(),
        ensures
            old(self).wf() ==> final(self).wf(),
            final(memory).wf(),
            achieves(
                spec_rotate(*old(self), old(memory)@, 3, r as int),
                *final(self),
                final(memory)@,
                cycles,
            ),
    {
        let value = self.get_r(r, memory);
        let result = self.rr(value);
        self.set_r(r, result, memory);
        if r == 6 {
            16
        } else {
            8
        }
    }

    /// SLA r: shift left.
    pub(crate) fn sla_r(&mut self, r: u8, memory: &mut MMU) -> (cycles: u32)
        requires
            r <= 7,
            old(memory).wf(),
        ensures
            old(self).wf() ==> final(self).wf(),
            final(memory).wf(),
            achieves(
                spec_rotate(*old(self), old(memory)@, 4, r as int),
                *final(self),
                final(memory)@,
                cycles,
            ),
    {
        let value = self.get_r(r, memory);
        let result = self.sla(value);
        self.set_r(r, result, memory);
        if r == 6 {
            16
        } else {
            8
        }
    }

    /// SRA r: shift right, bit 7 kept.
    pub(crate) fn sra_r(&mut self, r: u8, memory: &mut MMU) -> (cycles: u32)
        requires
            r <= 7,
            old(memory).wf(),
        ensures
            old(self).wf() ==> final(self).wf(),
            final(memory).wf(),
            achieves(
                spec_rotate(*old(self), old(memory)@, 5, r as int),
                *final(self),
                final(memory)@,
                cycles,
            ),
    {
        let value = self.get_r(r, memory);
        let result = self.sra(value);
        self.set_r(r, result, memory);
        if r == 6 {
            16
        } else {
            8
        }
    }

    /// SWAP r: the nibbles change places.
    pub(crate) fn swap_r(&mut self, r: u8, memory: &mut MMU) -> (cycles: u32)
        requires
            r <= 7,
            old(memory).wf(),
        ensures
            old(self).wf() ==> final(self).wf(),
            final(memory).wf(),
            achieves(
                spec_rotate(*old(self), old(memory)@, 6, r as int),
                *final(self),
                final(memory)@,
                cycles,
            ),
    {
        let value = self.get_r(r, memory);
        let result = self.swap(value);
        self.set_r(r, result, memory);
        if r == 6 {
            16
        } else {
            8
        }
    }

    /// SRL r: shift right, bit 7 cleared.
    pub(crate) fn srl_r(&mut self, r: u8, memory: &mut MMU) -> (cycles: u32)
        requires
            r <= 7,
            old(memory).wf(),
        ensures
            old(self).wf() ==> final(self).wf(),
            final(memory).wf(),
            achieves(
                spec_rotate(*old(self), old(memory)@, 7, r as int),
                *final(self),
                final(memory)@,
                cycles,
            ),
    {
        let value = self.get_r(r, memory);
        let result = self.srl(value);
        self.set_r(r, result, memory);
        if r == 6 {
            16
        } else {
            8
        }
    }

    /// BIT b,r: the zero flag tells whether the bit is clear.
    pub(crate) fn bit_b_r(&mut self, opcode: u8, memory: &MMU) -> (cycles: u32)
        ensures
            old(self).wf() ==> final(self).wf(),
            achieves(
                spec_bit_test(*old(self), memory@, ((opcode / 8) % 8) as int, (opcode % 8) as int),
                *final(self),
                memory@,
                cycles,
            ),
    {
        proof {
            lemma_fields(opcode);
        }
        let b = (opcode >> 3) & 0x07;
        let r = opcode & 0x07;
        let value = self.get_r(r, memory);
        let carry = self.is_flag_set(CARRY_FLAG);
        proof {
            reveal(CPU::bit_flags);
        }
        self.f = make_flags(bit_is_clear(value, b), false, true, carry);
        if r == 6 {
            12
        } else {
            8
        }
    }

    /// RES b,r
    pub(crate) fn res_b_r(&mut self, opcode: u8, memory: &mut MMU) -> (cycles: u32)
        requires
            old(memory).wf(),
        ensures
            old(self).wf() ==> final(self).wf(),
            final(memory).wf(),
            achieves(
                spec_reset(
                    *old(self),
                    old(memory)@,
                    ((opcode / 8) % 8) as int,
                    (opcode % 8) as int,
                ),
                *final(self),
                final(memory)@,
                cycles,
            ),
    {
        proof {
            lemma_fields(opcode);
        }
        let b = (opcode >> 3) & 0x07;
        let r = opcode & 0x07;
        let value = self.get_r(r, memory);
        let result = clear_bit(value, b);
        self.set_r(r, result, memory);
        if r == 6 {
            16
        } else {
            8
        }
    }

    /// SET b,r
    pub(crate) fn set_b_r(&mut self, opcode: u8, memory: &mut MMU) -> (cycles: u32)
        requires
            old(memory).wf(),
        ensures
            old(self).wf() ==> final(self).wf(),
            final(memory).wf(),
            achieves(
                spec_setbit(
                    *old(self),
                    old(memory)@,
                    ((opcode / 8) % 8) as int,
                    (opcode % 8) as int,
                ),
                *final(self),
                final(memory)@,
                cycles,
            ),
    {
        proof {
            lemma_fields(opcode);
        }
        let b = (opcode >> 3) & 0x07;
        let r = opcode & 0x07;
        let value = self.get_r(r, memory);
        let result = set_bit(value, b);
        self.set_r(r, result, memory);
        if r == 6 {
            16
        } else {
            8
        }
    }
}

} // verus!
