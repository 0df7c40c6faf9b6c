//! The instruction set, stated by the fields of the opcode: bits 7..6
//! choose a quadrant, bits 5..3 and 2..0 an operation, a register or a
//! condition within it.

use vstd::prelude::*;
use crate::bits::{bit, signed, weight, word, wrap16, wrap8};
use crate::cpu::state::{CPU, DecodeError, flags};
use crate::cpu::alu::{offset_flags, offset_sp, spec_rot, spec_res, spec_set};
use crate::memory::MmuState;

verus! {

/// What one instruction leaves behind: registers, bus, and the base
/// cycles it took.
pub struct Effect {
    pub cpu: CPU,
    pub mem: MmuState,
    pub cycles: u32,
}

/// Whether registers, bus and cycle count are those of `e`.
pub open spec fn achieves(e: Effect, cpu: CPU, mem: MmuState, cycles: u32) -> bool {
    cpu == e.cpu && mem == e.mem && cycles == e.cycles
}

/// The byte that follows the opcode.
pub open spec fn imm8(cpu: CPU, mem: MmuState) -> u8 {
    mem.read(cpu.pc)
}

/// The little-endian word that follows the opcode.
pub open spec fn imm16(cpu: CPU, mem: MmuState) -> u16 {
    mem.read_word(cpu.pc)
}

/// Base cycles of an instruction that touches operand `r` `accesses`
/// times: each access through HL costs four more.
pub open spec fn with_access(base: u32, r: int, accesses: int) -> u32 {
    if r == 6 {
        (base + 4 * accesses) as u32
    } else {
        base
    }
}

/// A jump relative to the address after the displacement byte.
pub open spec fn relative_jump(cpu: CPU, mem: MmuState) -> CPU {
    CPU { pc: wrap16(cpu.pc + 1 + signed(imm8(cpu, mem))), ..cpu }
}

/// A call: the return address is pushed and `target` entered.
pub open spec fn call_to(cpu: CPU, mem: MmuState, target: u16, cycles: u32) -> Effect {
    Effect { cpu: CPU { pc: target, ..cpu.pushed() }, mem: cpu.push_to(mem, cpu.pc), cycles: cycles }
}

/// A return: the program counter is popped.
pub open spec fn return_from(cpu: CPU, mem: MmuState, cycles: u32) -> Effect {
    Effect { cpu: CPU { pc: cpu.top(mem), ..cpu.popped() }, mem: mem, cycles: cycles }
}

/// Opcodes 0x00..=0x3F whose low field is 0: NOP, LD (nn),SP, STOP and
/// the relative jumps.
pub open spec fn spec_misc(cpu: CPU, mem: MmuState, y: int) -> Effect {
    if y == 0 {
        Effect { cpu: cpu, mem: mem, cycles: 4 }
    } else if y == 1 {
        Effect { cpu: cpu.skip(2), mem: mem.write_word(imm16(cpu, mem), cpu.sp), cycles: 20 }
    } else if y == 2 {
        Effect { cpu: CPU { stop: true, ..cpu }, mem: mem, cycles: 4 }
    } else if y == 3 || cpu.condition(y - 4) {
        Effect { cpu: relative_jump(cpu, mem), mem: mem, cycles: 12 }
    } else {
        Effect { cpu: cpu.skip(1), mem: mem, cycles: 8 }
    }
}

/// Loads between A and the byte at BC, DE, HL+ or HL-.
pub open spec fn spec_indirect(cpu: CPU, mem: MmuState, p: int, q: int) -> Effect {
    let addr = if p == 0 {
        cpu.bc()
    } else if p == 1 {
        cpu.de()
    } else {
        cpu.hl()
    };
    let moved = if p == 2 {
        cpu.with_hl(wrap16(cpu.hl() + 1))
    } else if p == 3 {
        cpu.with_hl(wrap16(cpu.hl() - 1))
    } else {
        cpu
    };
    if q == 0 {
        Effect { cpu: moved, mem: mem.write(addr, cpu.a), cycles: 8 }
    } else {
        Effect { cpu: CPU { a: mem.read(addr), ..moved }, mem: mem, cycles: 8 }
    }
}

/// The eight one-byte operations on the accumulator and the flags.
pub open spec fn spec_accumulator(cpu: CPU, y: int) -> CPU {
    if y < 4 {
        cpu.spec_rotate_a(y)
    } else if y == 4 {
        cpu.spec_daa()
    } else if y == 5 {
        cpu.spec_cpl()
    } else if y == 6 {
        cpu.spec_scf()
    } else {
        cpu.spec_ccf()
    }
}

/// Opcodes 0x00..=0x3F.
pub open spec fn spec_quadrant0(cpu: CPU, mem: MmuState, y: int, z: int) -> Effect {
    let p = y / 2;
    let q = y % 2;
    if z == 0 {
        spec_misc(cpu, mem, y)
    } else if z == 1 {
        if q == 0 {
            Effect { cpu: cpu.skip(2).with_pair(p, imm16(cpu, mem)), mem: mem, cycles: 12 }
        } else {
            Effect { cpu: cpu.spec_add_hl(cpu.pair(p)), mem: mem, cycles: 8 }
        }
    } else if z == 2 {
        spec_indirect(cpu, mem, p, q)
    } else if z == 3 {
        if q == 0 {
            Effect { cpu: cpu.with_pair(p, wrap16(cpu.pair(p) + 1)), mem: mem, cycles: 8 }
        } else {
            Effect { cpu: cpu.with_pair(p, wrap16(cpu.pair(p) - 1)), mem: mem, cycles: 8 }
        }
    } else if z == 4 {
        let v = cpu.reg(mem, y);
        let r = wrap8(v + 1);
        Effect {
            cpu: CPU { f: cpu.inc_flags(v), ..cpu.with_reg(y, r) },
            mem: cpu.store(mem, y, r),
            cycles: with_access(4, y, 2),
        }
    } else if z == 5 {
        let v = cpu.reg(mem, y);
        let r = wrap8(v - 1);
        Effect {
            cpu: CPU { f: cpu.dec_flags(v), ..cpu.with_reg(y, r) },
            mem: cpu.store(mem, y, r),
            cycles: with_access(4, y, 2),
        }
    } else if z == 6 {
        let n = imm8(cpu, mem);
        Effect {
            cpu: cpu.skip(1).with_reg(y, n),
            mem: cpu.store(mem, y, n),
            cycles: with_access(8, y, 1),
        }
    } else {
        Effect { cpu: spec_accumulator(cpu, y), mem: mem, cycles: 4 }
    }
}

/// Opcodes 0x40..=0x7F: HALT, and the loads between operands.
pub open spec fn spec_quadrant1(cpu: CPU, mem: MmuState, y: int, z: int) -> Effect {
    if y == 6 && z == 6 {
        Effect { cpu: CPU { halt: true, ..cpu }, mem: mem, cycles: 4 }
    } else {
        let v = cpu.reg(mem, z);
        Effect {
            cpu: cpu.with_reg(y, v),
            mem: cpu.store(mem, y, v),
            cycles: if y == 6 || z == 6 {
                8
            } else {
                4
            },
        }
    }
}

/// Opcodes 0x80..=0xBF: arithmetic and logic on A with an operand.
pub open spec fn spec_quadrant2(cpu: CPU, mem: MmuState, y: int, z: int) -> Effect {
    Effect { cpu: cpu.spec_alu(y, cpu.reg(mem, z)), mem: mem, cycles: with_access(4, z, 1) }
}

/// Opcodes 0xC0..=0xFF whose low field is 0: conditional returns, the
/// loads through page 0xFF, and the two stack-pointer offsets.
pub open spec fn spec_returns(cpu: CPU, mem: MmuState, y: int) -> Effect {
    let n = imm8(cpu, mem);
    if y < 4 {
        if cpu.condition(y) {
            return_from(cpu, mem, 20)
        } else {
            Effect { cpu: cpu, mem: mem, cycles: 8 }
        }
    } else if y == 4 {
        Effect { cpu: cpu.skip(1), mem: mem.write(word(0xFF, n), cpu.a), cycles: 12 }
    } else if y == 5 {
        Effect {
            cpu: CPU { sp: offset_sp(cpu.sp, n), f: offset_flags(cpu.sp, n), ..cpu.skip(1) },
            mem: mem,
            cycles: 16,
        }
    } else if y == 6 {
        Effect { cpu: CPU { a: mem.read(word(0xFF, n)), ..cpu.skip(1) }, mem: mem, cycles: 12 }
    } else {
        Effect {
            cpu: CPU { f: offset_flags(cpu.sp, n), ..cpu.skip(1).with_hl(offset_sp(cpu.sp, n)) },
            mem: mem,
            cycles: 12,
        }
    }
}

/// Opcodes 0xC0..=0xFF whose low field is 1: POP, RET, RETI, JP HL and
/// LD SP,HL.
pub open spec fn spec_pops(cpu: CPU, mem: MmuState, p: int, q: int) -> Effect {
    if q == 0 {
        Effect { cpu: cpu.popped().with_stack_pair(p, cpu.top(mem)), mem: mem, cycles: 12 }
    } else if p == 0 {
        return_from(cpu, mem, 16)
    } else if p == 1 {
        let e = return_from(cpu, mem, 16);
        Effect { cpu: CPU { ime: true, ..e.cpu }, ..e }
    } else if p == 2 {
        Effect { cpu: CPU { pc: cpu.hl(), ..cpu }, mem: mem, cycles: 4 }
    } else {
        Effect { cpu: CPU { sp: cpu.hl(), ..cpu }, mem: mem, cycles: 8 }
    }
}

/// Opcodes 0xC0..=0xFF whose low field is 2: conditional jumps and the
/// loads of A through C and through an absolute address.
pub open spec fn spec_jumps(cpu: CPU, mem: MmuState, y: int) -> Effect {
    let nn = imm16(cpu, mem);
    if y < 4 {
        if cpu.condition(y) {
            Effect { cpu: CPU { pc: nn, ..cpu }, mem: mem, cycles: 16 }
        } else {
            Effect { cpu: cpu.skip(2), mem: mem, cycles: 12 }
        }
    } else if y == 4 {
        Effect { cpu: cpu, mem: mem.write(word(0xFF, cpu.c), cpu.a), cycles: 8 }
    } else if y == 5 {
        Effect { cpu: cpu.skip(2), mem: mem.write(nn, cpu.a), cycles: 16 }
    } else if y == 6 {
        Effect { cpu: CPU { a: mem.read(word(0xFF, cpu.c)), ..cpu }, mem: mem, cycles: 8 }
    } else {
        Effect { cpu: CPU { a: mem.read(nn), ..cpu.skip(2) }, mem: mem, cycles: 16 }
    }
}

/// A rotate or shift of the operand that `z` names.
pub open spec fn spec_rotate(cpu: CPU, mem: MmuState, y: int, z: int) -> Effect {
    let v = cpu.reg(mem, z);
    let r = spec_rot(y, v, cpu.carry()).0;
    Effect {
        cpu: CPU { f: cpu.rot_flags(y, v), ..cpu.with_reg(z, r) },
        mem: cpu.store(mem, z, r),
        cycles: with_access(8, z, 2),
    }
}

/// BIT: a test of bit `y` of the operand that `z` names.
pub open spec fn spec_bit_test(cpu: CPU, mem: MmuState, y: int, z: int) -> Effect {
    Effect {
        cpu: CPU { f: cpu.bit_flags(y, cpu.reg(mem, z)), ..cpu },
        mem: mem,
        cycles: with_access(8, z, 1),
    }
}

/// RES: bit `y` of the operand that `z` names is cleared.
pub open spec fn spec_reset(cpu: CPU, mem: MmuState, y: int, z: int) -> Effect {
    let r = spec_res(cpu.reg(mem, z), y);
    Effect { cpu: cpu.with_reg(z, r), mem: cpu.store(mem, z, r), cycles: with_access(8, z, 2) }
}

/// SET: bit `y` of the operand that `z` names is set.
pub open spec fn spec_setbit(cpu: CPU, mem: MmuState, y: int, z: int) -> Effect {
    let r = spec_set(cpu.reg(mem, z), y);
    Effect { cpu: cpu.with_reg(z, r), mem: cpu.store(mem, z, r), cycles: with_access(8, z, 2) }
}

/// The opcode `op` behind the 0xCB prefix, `cpu.pc` being the address
/// after it: rotates and shifts, then BIT, RES and SET.
pub open spec fn spec_cb(cpu: CPU, mem: MmuState, op: u8) -> Effect {
    let x = op / 64;
    let y = ((op / 8) % 8) as int;
    let z = (op % 8) as int;
    if x == 0 {
        spec_rotate(cpu, mem, y, z)
    } else if x == 1 {
        spec_bit_test(cpu, mem, y, z)
    } else if x == 2 {
        spec_reset(cpu, mem, y, z)
    } else {
        spec_setbit(cpu, mem, y, z)
    }
}

/// The 0xCB prefix: the byte after it chooses the operation.
pub open spec fn spec_prefixed(cpu: CPU, mem: MmuState) -> Effect {
    spec_cb(cpu.skip(1), mem, imm8(cpu, mem))
}

/// Opcodes 0xC0..=0xFF; `None` for the eleven that are undefined.
pub open spec fn spec_quadrant3(cpu: CPU, mem: MmuState, y: int, z: int) -> Option<Effect> {
    let p = y / 2;
    let q = y % 2;
    let nn = imm16(cpu, mem);
    if z == 0 {
        Some(spec_returns(cpu, mem, y))
    } else if z == 1 {
        Some(spec_pops(cpu, mem, p, q))
    } else if z == 2 {
        Some(spec_jumps(cpu, mem, y))
    } else if z == 3 {
        if y == 0 {
            Some(Effect { cpu: CPU { pc: nn, ..cpu }, mem: mem, cycles: 16 })
        } else if y == 1 {
            Some(spec_prefixed(cpu, mem))
        } else if y == 6 {
            Some(Effect { cpu: CPU { ime: false, ..cpu }, mem: mem, cycles: 4 })
        } else if y == 7 {
            Some(Effect { cpu: CPU { ime: true, ..cpu }, mem: mem, cycles: 4 })
        } else {
            None
        }
    } else if z == 4 {
        if y >= 4 {
            None
        } else if cpu.condition(y) {
            Some(call_to(cpu.skip(2), mem, nn, 24))
        } else {
            Some(Effect { cpu: cpu.skip(2), mem: mem, cycles: 12 })
        }
    } else if z == 5 {
        if q == 0 {
            Some(
                Effect { cpu: cpu.pushed(), mem: cpu.push_to(mem, cpu.stack_pair(p)), cycles: 16 },
            )
        } else if p == 0 {
            Some(call_to(cpu.skip(2), mem, nn, 24))
        } else {
            None
        }
    } else if z == 6 {
        Some(Effect { cpu: cpu.skip(1).spec_alu(y, imm8(cpu, mem)), mem: mem, cycles: 8 })
    } else {
        Some(call_to(cpu, mem, (y * 8) as u16, 16))
    }
}

/// What the instruction with first byte `opcode` does, `cpu.pc` being the
/// address after that byte; `None` where the opcode is undefined.
pub open spec fn spec_execute(cpu: CPU, mem: MmuState, opcode: u8) -> Option<Effect> {
    let x = opcode / 64;
    let y = ((opcode / 8) % 8) as int;
    let z = (opcode % 8) as int;
    if x == 0 {
        Some(spec_quadrant0(cpu, mem, y, z))
    } else if x == 1 {
        Some(spec_quadrant1(cpu, mem, y, z))
    } else if x == 2 {
        Some(spec_quadrant2(cpu, mem, y, z))
    } else {
        spec_quadrant3(cpu, mem, y, z)
    }
}

/// The registers after an undefined opcode: the program counter back on
/// the opcode, the core stopped.
pub open spec fn spec_fault(cpu: CPU) -> CPU {
    CPU { pc: wrap16(cpu.pc - 1), stop: true, ..cpu }
}

/// The error that an undefined opcode gives.
pub open spec fn spec_fault_error(cpu: CPU, opcode: u8) -> DecodeError {
    DecodeError { pc: wrap16(cpu.pc - 1), opcode: opcode }
}

/// Whether `after`, `mem_after` and `r` are what the instruction with
/// first byte `opcode` leaves: its effect and cycle count, a positive
/// multiple of four; or, for an undefined opcode, the stopped core, the
/// bus untouched and the error. Either way the low nibble of F stays
/// zero.
pub open spec fn executed(
    cpu: CPU,
    mem: MmuState,
    opcode: u8,
    after: CPU,
    mem_after: MmuState,
    r: Result<u32, DecodeError>,
) -> bool {
    &&& cpu.wf() ==> after.wf()
    &&& match spec_execute(cpu, mem, opcode) {
        Some(e) => r == Ok::<u32, DecodeError>(e.cycles) && achieves(e, after, mem_after, e.cycles)
            && e.cycles > 0 && e.cycles % 4 == 0,
        None => r == Err::<u32, DecodeError>(spec_fault_error(cpu, opcode)) && after == spec_fault(
            cpu,
        ) && mem_after == mem,
    }
}

/// What one step of the processor does: a halted or stopped core only
/// lets four cycles pass, any other executes the instruction at the
/// program counter. `None` where that instruction is undefined.
pub open spec fn spec_step(cpu: CPU, mem: MmuState) -> Option<Effect> {
    if cpu.halt || cpu.stop {
        Some(Effect { cpu: cpu, mem: mem, cycles: 4 })
    } else {
        spec_execute(cpu.skip(1), mem, mem.read(cpu.pc))
    }
}

/// The error that a step gives where the instruction at the program
/// counter is undefined.
pub open spec fn spec_step_error(cpu: CPU, mem: MmuState) -> DecodeError {
    DecodeError { pc: cpu.pc, opcode: mem.read(cpu.pc) }
}

/// Whether `after`, `mem_after` and `r` are what one step of the
/// processor leaves: the effect of the step and its cycle count; or, for
/// an undefined opcode, the stopped core, the bus untouched and the error.
pub open spec fn stepped(
    cpu: CPU,
    mem: MmuState,
    after: CPU,
    mem_after: MmuState,
    r: Result<u32, DecodeError>,
) -> bool {
    match spec_step(cpu, mem) {
        Some(e) => r == Ok::<u32, DecodeError>(e.cycles) && achieves(e, after, mem_after, e.cycles),
        None => r == Err::<u32, DecodeError>(spec_step_error(cpu, mem)) && after == (CPU {
            stop: true,
            ..cpu
        }) && mem_after == mem,
    }
}

/// The lowest of the five request lines set in `pending`; 5 if none is.
pub open spec fn lowest_line(pending: u8) -> int {
    if bit(pending as int, 0) {
        0
    } else if bit(pending as int, 1) {
        1
    } else if bit(pending as int, 2) {
        2
    } else if bit(pending as int, 3) {
        3
    } else if bit(pending as int, 4) {
        4
    } else {
        5
    }
}

/// What the processor does about pending interrupts: any of them ends
/// HALT; with the master enable set, the lowest line is acknowledged, the
/// program counter pushed and the line's vector entered.
pub open spec fn spec_interrupts(cpu: CPU, mem: MmuState, pending: u8) -> (CPU, MmuState, bool) {
    let line = lowest_line(pending);
    if line == 5 {
        (cpu, mem, false)
    } else if !cpu.ime {
        (CPU { halt: false, ..cpu }, mem, false)
    } else {
        let served = MmuState {
            interrupts: mem.interrupts.spec_acknowledge(weight(line) as u8),
            ..mem
        };
        (
            CPU { ime: false, halt: false, pc: (0x40 + 8 * line) as u16, ..cpu.pushed() },
            cpu.push_to(served, cpu.pc),
            true,
        )
    }
}

} // verus!
