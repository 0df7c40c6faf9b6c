//! The instructions that change the flow of control or the state of the
//! core: jumps, calls, returns, restarts, HALT, STOP, DI and EI.

use vstd::prelude::*;
use crate::cpu::semantics::{Effect, achieves, call_to, imm16, relative_jump, return_from};
use crate::cpu::state::{CPU, ZERO_FLAG, CARRY_FLAG};
use crate::memory::MMU;

verus! {

impl CPU {
    /// NOP
    pub(crate) fn nop(&mut self) -> (cycles: u32)
        ensures
            *final(self) == *old(self),
            cycles == 4,
    {
        4
    }

    /// STOP: the core stops for good.
    pub(crate) fn stop(&mut self) -> (cycles: u32)
        ensures
            *final(self) == (CPU { stop: true, ..*old(self) }),
            cycles == 4,
    {
        self.stop = true;
        4
    }

    /// HALT: the core waits for an interrupt.
    pub(crate) fn halt(&mut self) -> (cycles: u32)
        ensures
            *final(self) == (CPU { halt: true, ..*old(self) }),
            cycles == 4,
    {
        self.halt = true;
        4
    }

    /// DI
    pub(crate) fn di(&mut self) -> (cycles: u32)
        ensures
            *final(self) == (CPU { ime: false, ..*old(self) }),
            cycles == 4,
    {
        self.ime = false;
        4
    }

    /// EI
    pub(crate) fn ei(&mut self) -> (cycles: u32)
        ensures
            *final(self) == (CPU { ime: true, ..*old(self) }),
            cycles == 4,
    {
        self.ime = true;
        4
    }

    /// JR e: a jump relative to the address after the displacement.
    pub(crate) fn jr_n(&mut self, memory: &MMU) -> (cycles: u32)
        ensures
            *final(self) == relative_jump(*old(self), memory@),
            cycles == 12,
    {
        let n = self.fetch(memory);
        self.jr(n);
        12
    }

    /// JR NZ,e
    pub(crate) fn jr_nz_n(&mut self, memory: &MMU) -> (cycles: u32)
        ensures
            *final(self) == (if !old(self).flag_z() {
                relative_jump(*old(self), memory@)
            } else {
                old(self).skip(1)
            }),
            cycles == (if !old(self).flag_z() { 12u32 } else { 8u32 }),
    {
        let n = self.fetch(memory);
        if !self.is_flag_set(ZERO_FLAG) {
            self.jr(n);
            12
        } else {
            8
        }
    }

    /// JR Z,e
    pub(crate) fn jr_z_n(&mut self, memory: &MMU) -> (cycles: u32)
        ensures
            *final(self) == (if old(self).flag_z() {
                relative_jump(*old(self), memory@)
            } else {
                old(self).skip(1)
            }),
            cycles == (if old(self).flag_z() { 12u32 } else { 8u32 }),
    {
        let n = self.fetch(memory);
        if self.is_flag_set(ZERO_FLAG) {
            self.jr(n);
            12
        } else {
            8
        }
    }

    /// JR NC,e
    pub(crate) fn jr_nc_n(&mut self, memory: &MMU) -> (cycles: u32)
        ensures
            *final(self) == (if !old(self).flag_c() {
                relative_jump(*old(self), memory@)
            } else {
                old(self).skip(1)
            }),
            cycles == (if !old(self).flag_c() { 12u32 } else { 8u32 }),
    {
        let n = self.fetch(memory);
        if !self.is_flag_set(CARRY_FLAG) {
            self.jr(n);
            12
        } else {
            8
        }
    }

    /// JR C,e
    pub(crate) fn jr_c_n(&mut self, memory: &MMU) -> (cycles: u32)
        ensures
            *final(self) == (if old(self).flag_c() {
                relative_jump(*old(self), memory@)
            } else {
                old(self).skip(1)
            }),
            cycles == (if old(self).flag_c() { 12u32 } else { 8u32 }),
    {
        let n = self.fetch(memory);
        if self.is_flag_set(CARRY_FLAG) {
            self.jr(n);
            12
        } else {
            8
        }
    }

    /// JP nn
    pub(crate) fn jp_nn(&mut self, memory: &MMU) -> (cycles: u32)
        ensures
            *final(self) == (CPU { pc: imm16(*old(self), memory@), ..*old(self) }),
            cycles == 16,
    {
        let address = self.fetch_word(memory);
        self.pc = address;
        16
    }

    /// JP NZ,nn
    pub(crate) fn jp_nz_nn(&mut self, memory: &MMU) -> (cycles: u32)
        ensures
            *final(self) == (if !old(self).flag_z() {
                CPU { pc: imm16(*old(self), memory@), ..*old(self) }
            } else {
                old(self).skip(2)
            }),
            cycles == (if !old(self).flag_z() { 16u32 } else { 12u32 }),
    {
        let address = self.fetch_word(memory);
        if !self.is_flag_set(ZERO_FLAG) {
            self.pc = address;
            16
        } else {
            12
        }
    }

    /// JP Z,nn
    pub(crate) fn jp_z_nn(&mut self, memory: &MMU) -> (cycles: u32)
        ensures
            *final(self) == (if old(self).flag_z() {
                CPU { pc: imm16(*old(self), memory@), ..*old(self) }
            } else {
                old(self).skip(2)
            }),
            cycles == (if old(self).flag_z() { 16u32 } else { 12u32 }),
    {
        let address = self.fetch_word(memory);
        if self.is_flag_set(ZERO_FLAG) {
            self.pc = address;
            16
        } else {
            12
        }
    }

    /// JP NC,nn
    pub(crate) fn jp_nc_nn(&mut self, memory: &MMU) -> (cycles: u32)
        ensures
            *final(self) == (if !old(self).flag_c() {
                CPU { pc: imm16(*old(self), memory@), ..*old(self) }
            } else {
                old(self).skip(2)
            }),
            cycles == (if !old(self).flag_c() { 16u32 } else { 12u32 }),
    {
        let address = self.fetch_word(memory);
        if !self.is_flag_set(CARRY_FLAG) {
            self.pc = address;
            16
        } else {
            12
        }
    }

    /// JP C,nn
    pub(crate) fn jp_c_nn(&mut self, memory: &MMU) -> (cycles: u32)
        ensures
            *final(self) == (if old(self).flag_c() {
                CPU { pc: imm16(*old(self), memory@), ..*old(self) }
            } else {
                old(self).skip(2)
            }),
            cycles == (if old(self).flag_c() { 16u32 } else { 12u32 }),
    {
        let address = self.fetch_word(memory);
        if self.is_flag_set(CARRY_FLAG) {
            self.pc = address;
            16
        } else {
            12
        }
    }

    /// JP HL
    pub(crate) fn jp_hl(&mut self) -> (cycles: u32)
        ensures
            *final(self) == (CPU { pc: old(self).hl(), ..*old(self) }),
            cycles == 4,
    {
        self.pc = self.get_hl();
        4
    }

    /// CALL nn: the address after the instruction is pushed, then `nn` is
    /// entered.
    pub(crate) fn call_nn(&mut self, memory: &mut MMU) -> (cycles: u32)
        requires
            old(memory).wf(),
        ensures
            final(memory).wf(),
            achieves(
                call_to(old(self).skip(2), old(memory)@, imm16(*old(self), old(memory)@), 24),
                *final(self),
                final(memory)@,
                cycles,
            ),
    {
        let address = self.fetch_word(memory);
        let back = self.pc;
        self.push_stack(memory, back);
        self.pc = address;
        24
    }

    /// CALL NZ,nn
    pub(crate) fn call_nz_nn(&mut self, memory: &mut MMU) -> (cycles: u32)
        requires
            old(memory).wf(),
        ensures
            final(memory).wf(),
            achieves(
                if !old(self).flag_z() {
                    call_to(old(self).skip(2), old(memory)@, imm16(*old(self), old(memory)@), 24)
                } else {
                    Effect { cpu: old(self).skip(2), mem: old(memory)@, cycles: 12 }
                },
                *final(self),
                final(memory)@,
                cycles,
            ),
    {
        let address = self.fetch_word(memory);
        if !self.is_flag_set(ZERO_FLAG) {
            let back = self.pc;
            self.push_stack(memory, back);
            self.pc = address;
            24
        } else {
            12
        }
    }

    /// CALL Z,nn
    pub(crate) fn call_z_nn(&mut self, memory: &mut MMU) -> (cycles: u32)
        requires
            old(memory).wf(),
        ensures
            final(memory).wf(),
            achieves(
                if old(self).flag_z() {
                    call_to(old(self).skip(2), old(memory)@, imm16(*old(self), old(memory)@), 24)
                } else {
                    Effect { cpu: old(self).skip(2), mem: old(memory)@, cycles: 12 }
                },
                *final(self),
                final(memory)@,
                cycles,
            ),
    {
        let address = self.fetch_word(memory);
        if self.is_flag_set(ZERO_FLAG) {
            let back = self.pc;
            self.push_stack(memory, back);
            self.pc = address;
            24
        } else {
            12
        }
    }

    /// CALL NC,nn
    pub(crate) fn call_nc_nn(&mut self, memory: &mut MMU) -> (cycles: u32)
        requires
            old(memory).wf(),
        ensures
            final(memory).wf(),
            achieves(
                if !old(self).flag_c() {
                    call_to(old(self).skip(2), old(memory)@, imm16(*old(self), old(memory)@), 24)
                } else {
                    Effect { cpu: old(self).skip(2), mem: old(memory)@, cycles: 12 }
                },
                *final(self),
                final(memory)@,
                cycles,
            ),
    {
        let address = self.fetch_word(memory);
        if !self.is_flag_set(CARRY_FLAG) {
            let back = self.pc;
            self.push_stack(memory, back);
            self.pc = address;
            24
        } else {
            12
        }
    }

    /// CALL C,nn
    pub(crate) fn call_c_nn(&mut self, memory: &mut MMU) -> (cycles: u32)
        requires
            old(memory).wf(),
        ensures
            final(memory).wf(),
            achieves(
                if old(self).flag_c() {
                    call_to(old(self).skip(2), old(memory)@, imm16(*old(self), old(memory)@), 24)
                } else {
                    Effect { cpu: old(self).skip(2), mem: old(memory)@, cycles: 12 }
                },
                *final(self),
                final(memory)@,
                cycles,
            ),
    {
        let address = self.fetch_word(memory);
        if self.is_flag_set(CARRY_FLAG) {
            let back = self.pc;
            self.push_stack(memory, back);
            self.pc = address;
            24
        } else {
            12
        }
    }

    /// RET
    pub(crate) fn ret(&mut self, memory: &MMU) -> (cycles: u32)
        ensures
            *final(self) == return_from(*old(self), memory@, 16).cpu,
            cycles == 16,
    {
        self.pc = self.pop_stack(memory);
        16
    }

    /// RET NZ
    pub(crate) fn ret_nz(&mut self, memory: &MMU) -> (cycles: u32)
        ensures
            *final(self) == (if !old(self).flag_z() {
                return_from(*old(self), memory@, 20).cpu
            } else {
                *old(self)
            }),
            cycles == (if !old(self).flag_z() { 20u32 } else { 8u32 }),
    {
        if !self.is_flag_set(ZERO_FLAG) {
            self.ret(memory);
            20
        } else {
            8
        }
    }

    /// RET Z
    pub(crate) fn ret_z(&mut self, memory: &MMU) -> (cycles: u32)
        ensures
            *final(self) == (if old(self).flag_z() {
                return_from(*old(self), memory@, 20).cpu
            } else {
                *old(self)
            }),
            cycles == (if old(self).flag_z() { 20u32 } else { 8u32 }),
    {
        if self.is_flag_set(ZERO_FLAG) {
            self.ret(memory);
            20
        } else {
            8
        }
    }

    /// RET NC
    pub(crate) fn ret_nc(&mut self, memory: &MMU) -> (cycles: u32)
        ensures
            *final(self) == (if !old(self).flag_c() {
                return_from(*old(self), memory@, 20).cpu
            } else {
                *old(self)
            }),
            cycles == (if !old(self).flag_c() { 20u32 } else { 8u32 }),
    {
        if !self.is_flag_set(CARRY_FLAG) {
            self.ret(memory);
            20
        } else {
            8
        }
    }

    /// RET C
    pub(crate) fn ret_c(&mut self, memory: &MMU) -> (cycles: u32)
        ensures
            *final(self) == (if old(self).flag_c() {
                return_from(*old(self), memory@, 20).cpu
            } else {
                *old(self)
            }),
            cycles == (if old(self).flag_c() { 20u32 } else { 8u32 }),
    {
        if self.is_flag_set(CARRY_FLAG) {
            self.ret(memory);
            20
        } else {
            8
        }
    }

    /// RETI: a return that also sets the master enable.
    pub(crate) fn reti(&mut self, memory: &MMU) -> (cycles: u32)
        ensures
            *final(self) == (CPU { ime: true, ..return_from(*old(self), memory@, 16).cpu }),
            cycles == 16,
    {
        self.ret(memory);
        self.ime = true;
        16
    }

    /// RST 00H
    pub(crate) fn rst_00h(&mut self, memory: &mut MMU) -> (cycles: u32)
        requires
            old(memory).wf(),
        ensures
            final(memory).wf(),
            achieves(
                call_to(*old(self), old(memory)@, 0x0000, 16),
                *final(self),
                final(memory)@,
                cycles,
            ),
    {
        let back = self.pc;
        self.push_stack(memory, back);
        self.pc = 0x0000;
        16
    }

    /// RST 08H
    pub(crate) fn rst_08h(&mut self, memory: &mut MMU) -> (cycles: u32)
        requires
            old(memory).wf(),
        ensures
            final(memory).wf(),
            achieves(
                call_to(*old(self), old(memory)@, 0x0008, 16),
                *final(self),
                final(memory)@,
                cycles,
            ),
    {
        let back = self.pc;
        self.push_stack(memory, back);
        self.pc = 0x0008;
        16
    }

    /// RST 10H
    pub(crate) fn rst_10h(&mut self, memory: &mut MMU) -> (cycles: u32)
        requires
            old(memory).wf(),
        ensures
            final(memory).wf(),
            achieves(
                call_to(*old(self), old(memory)@, 0x0010, 16),
                *final(self),
                final(memory)@,
                cycles,
            ),
    {
        let back = self.pc;
        self.push_stack(memory, back);
        self.pc = 0x0010;
        16
    }

    /// RST 18H
    pub(crate) fn rst_18h(&mut self, memory: &mut MMU) -> (cycles: u32)
        requires
            old(memory).wf(),
        ensures
            final(memory).wf(),
            achieves(
                call_to(*old(self), old(memory)@, 0x0018, 16),
                *final(self),
                final(memory)@,
                cycles,
            ),
    {
        let back = self.pc;
        self.push_stack(memory, back);
        self.pc = 0x0018;
        16
    }

    /// RST 20H
    pub(crate) fn rst_20h(&mut self, memory: &mut MMU) -> (cycles: u32)
        requires
            old(memory).wf(),
        ensures
            final(memory).wf(),
            achieves(
                call_to(*old(self), old(memory)@, 0x0020, 16),
                *final(self),
                final(memory)@,
                cycles,
            ),
    {
        let back = self.pc;
        self.push_stack(memory, back);
        self.pc = 0x0020;
        16
    }

    /// RST 28H
    pub(crate) fn rst_28h(&mut self, memory: &mut MMU) -> (cycles: u32)
        requires
            old(memory).wf(),
        ensures
            final(memory).wf(),
            achieves(
                call_to(*old(self), old(memory)@, 0x0028, 16),
                *final(self),
                final(memory)@,
                cycles,
            ),
    {
        let back = self.pc;
        self.push_stack(memory, back);
        self.pc = 0x0028;
        16
    }

    /// RST 30H
    pub(crate) fn rst_30h(&mut self, memory: &mut MMU) -> (cycles: u32)
        requires
            old(memory).wf(),
        ensures
            final(memory).wf(),
            achieves(
                call_to(*old(self), old(memory)@, 0x0030, 16),
                *final(self),
                final(memory)@,
                cycles,
            ),
    {
        let back = self.pc;
        self.push_stack(memory, back);
        self.pc = 0x0030;
        16
    }

    /// RST 38H
    pub(crate) fn rst_38h(&mut self, memory: &mut MMU) -> (cycles: u32)
        requires
            old(memory).wf(),
        ensures
            final(memory).wf(),
            achieves(
                call_to(*old(self), old(memory)@, 0x0038, 16),
                *final(self),
                final(memory)@,
                cycles,
            ),
    {
        let back = self.pc;
        self.push_stack(memory, back);
        self.pc = 0x0038;
        16
    }
}

} // verus!
