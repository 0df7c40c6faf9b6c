//! Laws of the instruction set that hold for every state.

use vstd::prelude::*;
use crate::bits::wrap16;
use crate::cpu::lemma_flags_read;
use crate::cpu::state::{CPU, flags};
use crate::memory::{MmuState, is_ram, lemma_write_keeps, lemma_write_read};

verus! {

/// Adding a byte to A and then subtracting the same byte gives A back,
/// and the subtraction leaves the subtract flag set.
pub proof fn lemma_add_then_sub(cpu: CPU, n: u8)
    ensures
        cpu.spec_add_a(n).spec_sub_a(n).a == cpu.a,
        cpu.spec_add_a(n).spec_sub_a(n).flag_n(),
        cpu.spec_add_a(n).spec_sub_a(n).wf(),
{
    reveal(CPU::spec_add_a);
    reveal(CPU::spec_sub_a);
    let added = cpu.spec_add_a(n);
    let back = added.spec_sub_a(n);
    lemma_flags_read(back, back.a == 0, true, added.a % 16 < n % 16, added.a < n);
}

/// XOR of A with itself leaves A zero, the zero flag set and the other
/// three flags clear.
pub proof fn lemma_xor_self(cpu: CPU)
    ensures
        cpu.spec_xor_a(cpu.a).a == 0,
        cpu.spec_xor_a(cpu.a).f == flags(true, false, false, false),
        cpu.spec_xor_a(cpu.a).flag_z(),
        !cpu.spec_xor_a(cpu.a).flag_n(),
        !cpu.spec_xor_a(cpu.a).flag_h(),
        !cpu.spec_xor_a(cpu.a).flag_c(),
{
    reveal(CPU::spec_xor_a);
    let a = cpu.a;
    assert(a ^ a == 0) by (bit_vector);
    lemma_flags_read(cpu.spec_xor_a(cpu.a), true, false, false, false);
}

/// Whether the two bytes that a push writes lie in memory that keeps what
/// is written and that the processor can read.
pub open spec fn stack_in_memory(cpu: CPU, mem: MmuState) -> bool {
    &&& is_ram(wrap16(cpu.sp - 1))
    &&& is_ram(wrap16(cpu.sp - 2))
    &&& mem.visible(wrap16(cpu.sp - 1))
    &&& mem.visible(wrap16(cpu.sp - 2))
}

/// A word that is pushed and popped again comes back unchanged, and the
/// stack pointer is where it was. This holds where the stack lies in
/// memory; a stack in the cartridge, say, keeps nothing.
pub proof fn lemma_push_then_pop(cpu: CPU, mem: MmuState, v: u16)
    requires
        mem.wf(),
        stack_in_memory(cpu, mem),
    ensures
        cpu.pushed().top(cpu.push_to(mem, v)) == v,
        cpu.pushed().popped().sp == cpu.sp,
{
    let high = wrap16(cpu.sp - 1);
    let low = wrap16(cpu.sp - 2);
    let first = mem.write(high, (v / 256) as u8);
    lemma_write_read(mem, high, (v / 256) as u8);
    lemma_write_keeps(first, low, (v % 256) as u8, high);
    lemma_write_read(first, low, (v % 256) as u8);
    assert(wrap16(cpu.pushed().sp + 1) == high);
}

} // verus!
