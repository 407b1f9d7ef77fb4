use vstd::prelude::*;
use crate::bdos::bdos_output;
use crate::cpu::{Cpu, Flags, BDOS_CALL_ADDR};
use crate::mmu::{next_addr, store_word, word_at};
use crate::ports::{port_read, port_write, PortsView};

verus! {

/// The whole emulated machine as plain values: registers, memory, ports.
pub struct Machine {
    pub cpu: Cpu,
    pub mem: Seq<u8>,
    pub ports: PortsView,
}

/// The machine made of registers `c`, memory `mem` and ports `p`.
pub open spec fn machine(c: Cpu, mem: Seq<u8>, p: PortsView) -> Machine {
    Machine { cpu: c, mem: mem, ports: p }
}

/// `x + d`, wrapped into 16 bits.
pub open spec fn add16(x: u16, d: int) -> u16 {
    ((x as int + d) % 0x10000) as u16
}

/// `x + d`, wrapped into 64 bits.
pub open spec fn add64(x: u64, d: int) -> u64 {
    ((x as int + d) % 0x1_0000_0000_0000_0000) as u64
}

/// The number of set bits in `x`.
pub open spec fn popcount(x: nat) -> nat
    decreases x,
{
    if x == 0 {
        0
    } else {
        x % 2 + popcount(x / 2)
    }
}

/// Even parity: the number of set bits is even.
pub open spec fn parity_even(x: u8) -> bool {
    popcount(x as nat) % 2 == 0
}

/// The word with high byte `high` and low byte `low`.
pub open spec fn pair(high: u8, low: u8) -> u16 {
    (high as int * 256 + low as int) as u16
}

/// `mask` when `b` holds, else 0.
pub open spec fn bool_bit(b: bool, mask: u8) -> u8 {
    if b {
        mask
    } else {
        0
    }
}

/// The flag byte: S Z 0 AC 0 P 1 CY from bit 7 down to bit 0.
pub open spec fn flags_byte(f: Flags) -> u8 {
    bool_bit(f.s, 0x80) | bool_bit(f.z, 0x40) | bool_bit(f.ac, 0x10) | bool_bit(f.p, 0x04)
        | 0x02u8 | bool_bit(f.cy, 0x01)
}

/// The flags that a flag byte holds; bits 5, 3 and 1 are ignored.
pub open spec fn flags_of_byte(b: u8) -> Flags {
    Flags {
        s: b & 0x80 != 0,
        z: b & 0x40 != 0,
        ac: b & 0x10 != 0,
        p: b & 0x04 != 0,
        cy: b & 0x01 != 0,
    }
}

/// The processor status word: A high, flag byte low.
pub open spec fn psw(c: Cpu) -> u16 {
    pair(c.a, flags_byte(c.flags))
}

/// Register pair BC.
pub open spec fn bc(c: Cpu) -> u16 {
    pair(c.b, c.c)
}

/// Register pair DE.
pub open spec fn de(c: Cpu) -> u16 {
    pair(c.d, c.e)
}

/// Register pair HL.
pub open spec fn hl(c: Cpu) -> u16 {
    pair(c.h, c.l)
}

/// Register pair `i`: 0 BC, 1 DE, 2 HL, 3 SP.
pub open spec fn rp(c: Cpu, i: u8) -> u16 {
    if i == 0 {
        bc(c)
    } else if i == 1 {
        de(c)
    } else if i == 2 {
        hl(c)
    } else {
        c.sp
    }
}

/// `c` with register pair `i` set to `w` (high byte to B, D or H).
pub open spec fn with_rp(c: Cpu, i: u8, w: u16) -> Cpu {
    let high = (w as int / 256) as u8;
    let low = (w as int % 256) as u8;
    if i == 0 {
        Cpu { b: high, c: low, ..c }
    } else if i == 1 {
        Cpu { d: high, e: low, ..c }
    } else if i == 2 {
        Cpu { h: high, l: low, ..c }
    } else {
        Cpu { sp: w, ..c }
    }
}

/// Operand `r`: 0 B, 1 C, 2 D, 3 E, 4 H, 5 L, 6 the byte at HL, 7 A.
pub open spec fn reg(c: Cpu, mem: Seq<u8>, r: u8) -> u8 {
    if r == 0 {
        c.b
    } else if r == 1 {
        c.c
    } else if r == 2 {
        c.d
    } else if r == 3 {
        c.e
    } else if r == 4 {
        c.h
    } else if r == 5 {
        c.l
    } else if r == 6 {
        mem[hl(c) as int]
    } else {
        c.a
    }
}

/// The registers after operand `r` is set to `v`.
pub open spec fn cpu_with_reg(c: Cpu, r: u8, v: u8) -> Cpu {
    if r == 0 {
        Cpu { b: v, ..c }
    } else if r == 1 {
        Cpu { c: v, ..c }
    } else if r == 2 {
        Cpu { d: v, ..c }
    } else if r == 3 {
        Cpu { e: v, ..c }
    } else if r == 4 {
        Cpu { h: v, ..c }
    } else if r == 5 {
        Cpu { l: v, ..c }
    } else if r == 6 {
        c
    } else {
        Cpu { a: v, ..c }
    }
}

/// Memory after operand `r` is set to `v`: only operand 6 writes it.
pub open spec fn mem_with_reg(c: Cpu, mem: Seq<u8>, r: u8, v: u8) -> Seq<u8> {
    if r == 6 {
        mem.update(hl(c) as int, v)
    } else {
        mem
    }
}

/// `m` after operand `r` is set to `v`.
pub open spec fn with_reg(m: Machine, r: u8, v: u8) -> Machine {
    Machine { cpu: cpu_with_reg(m.cpu, r, v), mem: mem_with_reg(m.cpu, m.mem, r, v), ..m }
}

/// `m` with registers `c`.
pub open spec fn with_cpu(m: Machine, c: Cpu) -> Machine {
    Machine { cpu: c, ..m }
}

/// Condition `cc`: NZ, Z, NC, C, PO, PE, P, M.
pub open spec fn condition(f: Flags, cc: u8) -> bool {
    if cc == 0 {
        !f.z
    } else if cc == 1 {
        f.z
    } else if cc == 2 {
        !f.cy
    } else if cc == 3 {
        f.cy
    } else if cc == 4 {
        !f.p
    } else if cc == 5 {
        f.p
    } else if cc == 6 {
        !f.s
    } else {
        f.s
    }
}

/// `f` with sign, zero and parity set from the result `r`.
pub open spec fn zsp(f: Flags, r: u8) -> Flags {
    Flags { z: r == 0, s: r >= 128, p: parity_even(r), ..f }
}

/// The carry flag as 0 or 1.
pub open spec fn carry_in(f: Flags) -> int {
    if f.cy {
        1
    } else {
        0
    }
}

/// Flags after a subtraction of `v` and `c` from `a`, with result `r`.
pub open spec fn sub_flags(f: Flags, a: u8, v: u8, c: int, r: u8) -> Flags {
    Flags { cy: a < v + c, ac: a % 16 < v % 16 + c, ..zsp(f, r) }
}

/// Accumulator and flags after ALU operation `op` (ADD, ADC, SUB, SBB, ANA,
/// XRA, ORA, CMP) on A = `a` and operand `v`.
pub open spec fn alu(a: u8, f: Flags, op: u8, v: u8) -> (u8, Flags) {
    let c = carry_in(f);
    if op == 0 || op == 1 {
        let cin = if op == 0 { 0 } else { c };
        let r = ((a + v + cin) % 256) as u8;
        (r, Flags { cy: a + v + cin > 255, ac: a % 16 + v % 16 + cin > 15, ..zsp(f, r) })
    } else if op == 2 || op == 3 || op == 7 {
        let cin = if op == 3 { c } else { 0 };
        let r = ((a - v - cin) % 256) as u8;
        (if op == 7 { a } else { r }, sub_flags(f, a, v, cin, r))
    } else if op == 4 {
        let r = a & v;
        (r, Flags { cy: false, ac: true, ..zsp(f, r) })
    } else if op == 5 {
        let r = a ^ v;
        (r, Flags { cy: false, ac: false, ..zsp(f, r) })
    } else {
        let r = a | v;
        (r, Flags { cy: false, ac: false, ..zsp(f, r) })
    }
}

/// Result and flags of INR on `v`; carry is kept.
pub open spec fn inr(f: Flags, v: u8) -> (u8, Flags) {
    let r = ((v + 1) % 256) as u8;
    (r, Flags { ac: v % 16 == 15, ..zsp(f, r) })
}

/// Result and flags of DCR on `v`; carry is kept.
pub open spec fn dcr(f: Flags, v: u8) -> (u8, Flags) {
    let r = ((v - 1) % 256) as u8;
    (r, Flags { ac: v % 16 == 0, ..zsp(f, r) })
}

/// Accumulator and flags after DAA.
pub open spec fn daa(a: u8, f: Flags) -> (u8, Flags) {
    let fix_low = a % 16 > 9 || f.ac;
    let low = if fix_low { 6int } else { 0 };
    let fix_high = a / 16 > 9 || f.cy || a + low > 0x99;
    let r = ((a + low + if fix_high { 0x60int } else { 0 }) % 256) as u8;
    (r, Flags { ac: fix_low, cy: fix_high, ..zsp(f, r) })
}

/// Accumulator and flags after operation `row` of the accumulator group:
/// RLC, RRC, RAL, RAR, DAA, CMA, STC, CMC.
pub open spec fn acc_op(a: u8, f: Flags, row: u8) -> (u8, Flags) {
    if row == 0 {
        (((a * 2) % 256 + a / 128) as u8, Flags { cy: a >= 128, ..f })
    } else if row == 1 {
        ((a / 2 + (a % 2) * 128) as u8, Flags { cy: a % 2 == 1, ..f })
    } else if row == 2 {
        (((a * 2) % 256 + carry_in(f)) as u8, Flags { cy: a >= 128, ..f })
    } else if row == 3 {
        ((a / 2 + carry_in(f) * 128) as u8, Flags { cy: a % 2 == 1, ..f })
    } else if row == 4 {
        daa(a, f)
    } else if row == 5 {
        ((255 - a) as u8, f)
    } else if row == 6 {
        (a, Flags { cy: true, ..f })
    } else {
        (a, Flags { cy: !f.cy, ..f })
    }
}

/// The byte at PC.
pub open spec fn imm8(m: Machine) -> u8 {
    m.mem[m.cpu.pc as int]
}

/// The little-endian word at PC.
pub open spec fn imm16(m: Machine) -> u16 {
    word_at(m.mem, m.cpu.pc)
}

/// `m` with PC moved on by `n`.
pub open spec fn skip(m: Machine, n: int) -> Machine {
    with_cpu(m, Cpu { pc: add16(m.cpu.pc, n), ..m.cpu })
}

/// `m` after `v` is pushed: SP goes down by two and the word is stored there.
pub open spec fn push(m: Machine, v: u16) -> Machine {
    let sp = add16(m.cpu.sp, -2);
    Machine { cpu: Cpu { sp: sp, ..m.cpu }, mem: store_word(m.mem, sp, v), ..m }
}

/// The word on top of the stack.
pub open spec fn top(m: Machine) -> u16 {
    word_at(m.mem, m.cpu.sp)
}

/// `m` after a word is popped: SP goes up by two.
pub open spec fn drop_top(m: Machine) -> Machine {
    with_cpu(m, Cpu { sp: add16(m.cpu.sp, 2), ..m.cpu })
}

/// `m` after RET.
pub open spec fn ret(m: Machine) -> Machine {
    let d = drop_top(m);
    with_cpu(d, Cpu { pc: top(m), ..d.cpu })
}

/// `m` after a call to `target`: the current PC is pushed.
pub open spec fn call(m: Machine, target: u16) -> Machine {
    let p = push(m, m.cpu.pc);
    with_cpu(p, Cpu { pc: target, ..p.cpu })
}

/// MOV: operand `(op / 8) % 8` gets operand `op % 8`; 0x76 is HLT.
pub open spec fn exec_mov(m: Machine, op: u8) -> Machine {
    if op == 0x76 {
        with_cpu(m, Cpu { halted: true, ..m.cpu })
    } else {
        with_reg(m, (op / 8) % 8, reg(m.cpu, m.mem, op % 8))
    }
}

/// The registers after ALU operation `aop` with operand `v`.
pub open spec fn alu_cpu(c: Cpu, aop: u8, v: u8) -> Cpu {
    Cpu { a: alu(c.a, c.flags, aop, v).0, flags: alu(c.a, c.flags, aop, v).1, ..c }
}

/// The registers after operation `row` of the accumulator group.
pub open spec fn acc_cpu(c: Cpu, row: u8) -> Cpu {
    Cpu { a: acc_op(c.a, c.flags, row).0, flags: acc_op(c.a, c.flags, row).1, ..c }
}

/// `m` after ALU operation `aop` with operand `v`.
pub open spec fn with_alu(m: Machine, aop: u8, v: u8) -> Machine {
    with_cpu(m, alu_cpu(m.cpu, aop, v))
}

/// The opcodes below 0x40, by column `op % 8` and row `op / 8`.
pub open spec fn exec_low(m: Machine, op: u8) -> Machine {
    let row = op / 8;
    let col = op % 8;
    let c = m.cpu;
    if col == 0 {
        m
    } else if col == 1 {
        if row % 2 == 0 {
            // LXI
            with_cpu(skip(m, 2), with_rp(skip(m, 2).cpu, row / 2, imm16(m)))
        } else {
            // DAD
            let sum = hl(c) + rp(c, row / 2);
            with_cpu(
                m,
                Cpu { flags: Flags { cy: sum > 0xFFFF, ..c.flags }, ..with_rp(c, 2, (sum % 0x10000) as u16) },
            )
        }
    } else if col == 2 {
        exec_load_store(m, row)
    } else if col == 3 {
        let d = if row % 2 == 0 { 1int } else { -1int };
        with_cpu(m, with_rp(c, row / 2, add16(rp(c, row / 2), d)))
    } else if col == 4 || col == 5 {
        let v = reg(c, m.mem, row);
        let (r, f) = if col == 4 { inr(c.flags, v) } else { dcr(c.flags, v) };
        with_reg(with_cpu(m, Cpu { flags: f, ..c }), row, r)
    } else if col == 6 {
        with_reg(skip(m, 1), row, imm8(m))
    } else {
        with_cpu(m, acc_cpu(c, row))
    }
}

/// STAX, LDAX, SHLD, LHLD, STA, LDA.
pub open spec fn exec_load_store(m: Machine, row: u8) -> Machine {
    let c = m.cpu;
    if row == 0 || row == 2 {
        let addr = if row == 0 { bc(c) } else { de(c) };
        Machine { mem: m.mem.update(addr as int, c.a), ..m }
    } else if row == 1 || row == 3 {
        let addr = if row == 1 { bc(c) } else { de(c) };
        with_cpu(m, Cpu { a: m.mem[addr as int], ..c })
    } else {
        let addr = imm16(m);
        let s = skip(m, 2);
        if row == 4 {
            Machine { mem: store_word(m.mem, addr, hl(c)), ..s }
        } else if row == 5 {
            with_cpu(s, with_rp(s.cpu, 2, word_at(m.mem, addr)))
        } else if row == 6 {
            Machine { mem: m.mem.update(addr as int, c.a), ..s }
        } else {
            with_cpu(s, Cpu { a: m.mem[addr as int], ..s.cpu })
        }
    }
}

/// The opcodes from 0xC0 on, by column `op % 8` and row `(op / 8) % 8`.
pub open spec fn exec_high(m: Machine, op: u8) -> Machine {
    let row = (op / 8) % 8;
    let col = op % 8;
    let c = m.cpu;
    if col == 0 {
        if condition(c.flags, row) {
            ret(m)
        } else {
            m
        }
    } else if col == 1 {
        if row == 6 {
            // POP PSW
            let w = top(m);
            let d = drop_top(m);
            with_cpu(d, Cpu { a: (w / 256) as u8, flags: flags_of_byte((w % 256) as u8), ..d.cpu })
        } else if row % 2 == 0 {
            let d = drop_top(m);
            with_cpu(d, with_rp(d.cpu, row / 2, top(m)))
        } else if row == 5 {
            with_cpu(m, Cpu { pc: hl(c), ..c })
        } else if row == 7 {
            with_cpu(m, Cpu { sp: hl(c), ..c })
        } else {
            ret(m)
        }
    } else if col == 2 {
        let s = skip(m, 2);
        if condition(c.flags, row) {
            with_cpu(s, Cpu { pc: imm16(m), ..s.cpu })
        } else {
            s
        }
    } else if col == 3 {
        exec_misc(m, row)
    } else if col == 4 {
        if condition(c.flags, row) {
            call(skip(m, 2), imm16(m))
        } else {
            skip(m, 2)
        }
    } else if col == 5 {
        if row == 6 {
            push(m, psw(c))
        } else if row % 2 == 0 {
            push(m, rp(c, row / 2))
        } else {
            call(skip(m, 2), imm16(m))
        }
    } else if col == 6 {
        with_alu(skip(m, 1), row, imm8(m))
    } else {
        call(m, (row * 8) as u16)
    }
}

/// JMP, OUT, IN, XTHL, XCHG, DI, EI.
pub open spec fn exec_misc(m: Machine, row: u8) -> Machine {
    let c = m.cpu;
    if row == 0 || row == 1 {
        with_cpu(m, Cpu { pc: imm16(m), ..c })
    } else if row == 2 {
        Machine { ports: port_write(m.ports, imm8(m), c.a), ..skip(m, 1) }
    } else if row == 3 {
        let s = skip(m, 1);
        with_cpu(s, Cpu { a: port_read(m.ports, imm8(m)), ..s.cpu })
    } else if row == 4 {
        let sp = c.sp;
        Machine {
            cpu: Cpu { l: m.mem[sp as int], h: m.mem[next_addr(sp) as int], ..c },
            mem: m.mem.update(sp as int, c.l).update(next_addr(sp) as int, c.h),
            ..m
        }
    } else if row == 5 {
        with_cpu(m, Cpu { d: c.h, e: c.l, h: c.d, l: c.e, ..c })
    } else if row == 6 {
        with_cpu(m, Cpu { ime: false, ..c })
    } else {
        with_cpu(m, Cpu { ime: true, ..c })
    }
}

/// The effect of opcode `op` on `m`, where PC already points past `op`.
pub open spec fn execute(m: Machine, op: u8) -> Machine {
    if op < 0x40 {
        exec_low(m, op)
    } else if op < 0x80 {
        exec_mov(m, op)
    } else if op < 0xC0 {
        with_alu(m, (op / 8) % 8, reg(m.cpu, m.mem, op % 8))
    } else {
        exec_high(m, op)
    }
}

/// Cycles taken by opcode `op`; conditional calls and returns cost the same
/// whether taken or not.
pub open spec fn opcode_cycles(op: u8) -> u8 {
    let row = (op / 8) % 8;
    let col = op % 8;
    if op < 0x40 {
        if col == 0 || col == 7 {
            4
        } else if col == 1 {
            10
        } else if col == 2 {
            if row < 4 {
                7
            } else if row < 6 {
                16
            } else {
                13
            }
        } else if col == 3 {
            5
        } else if col == 4 || col == 5 {
            if row == 6 {
                10
            } else {
                5
            }
        } else if row == 6 {
            10
        } else {
            7
        }
    } else if op < 0x80 {
        if col == 6 || row == 6 {
            7
        } else {
            5
        }
    } else if op < 0xC0 {
        if col == 6 {
            7
        } else {
            4
        }
    } else if col == 0 {
        5
    } else if col == 1 {
        if row == 5 || row == 7 {
            5
        } else {
            10
        }
    } else if col == 2 {
        10
    } else if col == 3 {
        if row < 4 {
            10
        } else if row == 4 {
            18
        } else if row == 5 {
            5
        } else {
            4
        }
    } else if col == 4 || col == 7 {
        11
    } else if col == 5 {
        if row % 2 == 0 {
            11
        } else {
            17
        }
    } else {
        7
    }
}

/// Every opcode takes between 4 and 18 cycles.
pub proof fn lemma_opcode_cycles_range(op: u8)
    ensures
        4 <= opcode_cycles(op) <= 18,
{
}

/// What one step does: a halted CPU only spends 4 cycles; otherwise the BDOS
/// shim runs when PC is 0x0005, then the opcode at PC is fetched, executed
/// and its cycles counted.
pub open spec fn step(m: Machine) -> Machine {
    if m.cpu.halted {
        with_cpu(m, Cpu { cycles: add64(m.cpu.cycles, 4), ..m.cpu })
    } else {
        let b = if m.cpu.pc == BDOS_CALL_ADDR {
            Machine {
                ports: PortsView { console: m.ports.console + bdos_output(m.cpu.c, de(m.cpu), m.mem), ..m.ports },
                ..m
            }
        } else {
            m
        };
        let op = imm8(b);
        let e = execute(skip(b, 1), op);
        with_cpu(e, Cpu { cycles: add64(e.cpu.cycles, opcode_cycles(op) as int), ..e.cpu })
    }
}

/// The cycles that one step reports.
pub open spec fn step_cycles(m: Machine) -> u64 {
    if m.cpu.halted {
        4
    } else {
        opcode_cycles(imm8(m)) as u64
    }
}

/// An interrupt with vector `v`: dropped unless interrupts are enabled;
/// otherwise it disables them, leaves the halt, and calls `v * 8`.
pub open spec fn interrupt(m: Machine, v: u8) -> Machine {
    if !m.cpu.ime {
        m
    } else {
        call(with_cpu(m, Cpu { ime: false, halted: false, ..m.cpu }), (v * 8) as u16)
    }
}

} // verus!
