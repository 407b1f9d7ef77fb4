use vstd::prelude::*;
use crate::cpu::{Cpu, Flags};
use crate::mmu::{next_addr, MEMORY_SIZE};
use crate::semantics::{
    add16, alu, bool_bit, drop_top, execute, flags_byte, flags_of_byte, imm8, interrupt, popcount,
    lemma_opcode_cycles_range, psw, push, step, step_cycles, top, Machine,
};
use crate::state::{frame, frame_from, END_FRAME_VECTOR, FRAME_CYCLES, HALF_FRAME_CYCLES, MID_FRAME_VECTOR};

verus! {

/// The flag byte, and so the low byte of the PSW, always has bits 5 and 3
/// clear and bit 1 set.
pub proof fn lemma_psw_fixed_bits(c: Cpu)
    ensures
        (psw(c) % 256) as u8 & 0x28 == 0,
        (psw(c) % 256) as u8 & 0x02 == 0x02,
{
    let f = c.flags;
    let s = bool_bit(f.s, 0x80);
    let z = bool_bit(f.z, 0x40);
    let ac = bool_bit(f.ac, 0x10);
    let p = bool_bit(f.p, 0x04);
    let cy = bool_bit(f.cy, 0x01);
    assert((s | z | ac | p | 0x02u8 | cy) & 0x28u8 == 0 && (s | z | ac | p | 0x02u8 | cy) & 0x02u8
        == 0x02u8) by (bit_vector)
        requires
            s == 0x80u8 || s == 0u8,
            z == 0x40u8 || z == 0u8,
            ac == 0x10u8 || ac == 0u8,
            p == 0x04u8 || p == 0u8,
            cy == 0x01u8 || cy == 0u8,
    ;
    assert(psw(c) % 256 == flags_byte(f));
}

/// A byte passed through the accumulator unchanged (ORA with 0) leaves the
/// parity flag set exactly when it has an even number of set bits.
pub proof fn lemma_parity_after_load(b: u8, f: Flags)
    ensures
        alu(b, f, 6, 0).0 == b,
        alu(b, f, 6, 0).1.p == (popcount(b as nat) % 2 == 0),
{
    assert(b | 0u8 == b) by (bit_vector);
}

/// After ADD, CY is the carry out of bit 7 and Z tells a zero sum mod 256.
pub proof fn lemma_add_carry_zero(a: u8, b: u8, f: Flags)
    ensures
        alu(a, f, 0, b).1.cy == (a + b > 255),
        alu(a, f, 0, b).1.z == ((a + b) % 256 == 0),
{
}

/// Popping right after pushing `v` gives back `v` with SP where it was.
pub proof fn lemma_push_pop(m: Machine, v: u16)
    requires
        m.mem.len() == MEMORY_SIZE,
    ensures
        top(push(m, v)) == v,
        drop_top(push(m, v)).cpu.sp == m.cpu.sp,
{
    let sp = add16(m.cpu.sp, -2);
    assert(next_addr(sp) != sp);
}

/// A flag byte read back gives the flags that were written.
pub proof fn lemma_flags_round_trip(f: Flags)
    ensures
        flags_of_byte(flags_byte(f)) == f,
{
    let s = bool_bit(f.s, 0x80);
    let z = bool_bit(f.z, 0x40);
    let ac = bool_bit(f.ac, 0x10);
    let p = bool_bit(f.p, 0x04);
    let cy = bool_bit(f.cy, 0x01);
    let b = s | z | ac | p | 0x02u8 | cy;
    assert(((b & 0x80u8 != 0) == (s == 0x80u8)) && ((b & 0x40u8 != 0) == (z == 0x40u8)) && ((b
        & 0x10u8 != 0) == (ac == 0x10u8)) && ((b & 0x04u8 != 0) == (p == 0x04u8)) && ((b & 0x01u8
        != 0) == (cy == 0x01u8))) by (bit_vector)
        requires
            s == 0x80u8 || s == 0u8,
            z == 0x40u8 || z == 0u8,
            ac == 0x10u8 || ac == 0u8,
            p == 0x04u8 || p == 0u8,
            cy == 0x01u8 || cy == 0u8,
            b == s | z | ac | p | 0x02u8 | cy,
    ;
}

/// PUSH of a register pair (BC, DE, HL or PSW, by `i`) followed by the POP
/// of the same pair leaves every register as it was.
pub proof fn lemma_push_then_pop(m: Machine, i: u8)
    requires
        m.mem.len() == MEMORY_SIZE,
        i < 4,
    ensures
        execute(execute(m, (0xC5 + 16 * i) as u8), (0xC1 + 16 * i) as u8).cpu == m.cpu,
{
    let c = m.cpu;
    let v = if i == 3 { psw(c) } else if i == 0 { crate::semantics::bc(c) } else if i == 1 {
        crate::semantics::de(c)
    } else {
        crate::semantics::hl(c)
    };
    lemma_push_pop(m, v);
    let pushed = execute(m, (0xC5 + 16 * i) as u8);
    assert(pushed == push(m, v));
    if i == 3 {
        lemma_flags_round_trip(c.flags);
        assert(flags_byte(c.flags) == (v % 256) as u8);
    }
}

/// XCHG twice leaves the machine unchanged.
pub proof fn lemma_xchg_twice(m: Machine)
    ensures
        execute(execute(m, 0xEB), 0xEB) == m,
{
}

/// An interrupt right after DI is dropped: PC, SP and everything else stay.
pub proof fn lemma_di_blocks_interrupt(m: Machine, v: u8)
    requires
        !m.cpu.halted,
        m.mem.len() == MEMORY_SIZE,
        imm8(m) == 0xF3,
    ensures
        interrupt(step(m), v) == step(m),
        interrupt(step(m), v).cpu.pc == step(m).cpu.pc,
        interrupt(step(m), v).cpu.sp == step(m).cpu.sp,
{
}

/// EI, HLT, then an interrupt with vector `v`: the CPU leaves the halt with
/// interrupts disabled, PC at `v * 8`, and the address after HLT on the stack.
pub proof fn lemma_interrupt_wakes_halt(m: Machine, v: u8)
    requires
        !m.cpu.halted,
        m.mem.len() == MEMORY_SIZE,
        imm8(m) == 0xFB,
        m.mem[add16(m.cpu.pc, 1) as int] == 0x76,
    ensures
        step(step(m)).cpu.halted,
        interrupt(step(step(m)), v).cpu.pc == v * 8,
        !interrupt(step(step(m)), v).cpu.halted,
        !interrupt(step(step(m)), v).cpu.ime,
        top(interrupt(step(step(m)), v)) == add16(m.cpu.pc, 2),
{
    let s2 = step(step(m));
    assert(s2.cpu.ime);
    assert(s2.cpu.pc == add16(m.cpu.pc, 2));
    let sp = add16(s2.cpu.sp, -2);
    assert(next_addr(sp) != sp);
}

/// Steps run from `acc` spent cycles end within one instruction of the frame
/// budget: at or past it unless the CPU halted, and less than 18 cycles over.
pub proof fn lemma_frame_from_length(m: Machine, acc: nat, mid_done: bool)
    requires
        acc < FRAME_CYCLES + 18,
    ensures
        frame_from(m, acc, mid_done).1 < FRAME_CYCLES + 18,
        !frame_from(m, acc, mid_done).0.cpu.halted ==> frame_from(m, acc, mid_done).1
            >= FRAME_CYCLES,
    decreases (if acc >= FRAME_CYCLES { 0 } else { FRAME_CYCLES - acc }),
{
    if acc < FRAME_CYCLES && !m.cpu.halted {
        lemma_opcode_cycles_range(imm8(m));
        let s = step(m);
        let acc2 = (acc + step_cycles(m)) as nat;
        let mid = !mid_done && acc2 >= HALF_FRAME_CYCLES && !s.cpu.halted;
        lemma_frame_from_length(
            if mid {
                interrupt(s, MID_FRAME_VECTOR)
            } else {
                s
            },
            acc2,
            mid_done || mid,
        );
    }
}

/// A frame takes the frame budget, give or take less than one instruction,
/// unless the CPU halts during it.
pub proof fn lemma_frame_length(m: Machine)
    ensures
        frame(m).1 < FRAME_CYCLES + 18,
        !frame(m).0.cpu.halted ==> frame(m).1 >= FRAME_CYCLES,
{
    lemma_frame_from_length(m, 0, false);
    let e = frame_from(m, 0, false).0;
    if !e.cpu.halted {
        if e.cpu.ime {
            assert(!interrupt(e, END_FRAME_VECTOR).cpu.halted);
        }
    }
}

} // verus!
