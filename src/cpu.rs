use vstd::prelude::*;
use crate::bdos::Bdos;
use crate::mmu::{store_word, word_at, Mmu};
use crate::ports::Ports;
use crate::semantics::{
    acc_cpu, acc_op, add16, add64, alu_cpu, bc, condition, cpu_with_reg, dcr, de, exec_high,
    exec_load_store, exec_low, exec_misc, exec_mov, execute, flags_byte, flags_of_byte, hl, inr,
    interrupt, machine, mem_with_reg, opcode_cycles, pair, parity_even, popcount, psw, reg, rp,
    step, step_cycles, with_rp, zsp,
};
use crate::ports::PortsView;

verus! {

/// PC value at which the CP/M BDOS shim runs.
pub const BDOS_CALL_ADDR: u16 = 0x0005;

/// Represents the Intel 8080 CPU flags.
#[derive(Clone, Copy, Debug, PartialEq, Eq, Structural)]
pub struct Flags {
    pub z: bool,  // Zero
    pub s: bool,  // Sign
    pub p: bool,  // Parity
    pub cy: bool,  // Carry
    pub ac: bool,  // Auxiliary Carry
}

impl Flags {
    /// The flags as a single byte, S Z 0 AC 0 P 1 CY from bit 7 down.
    pub fn to_byte(&self) -> (r: u8)
        ensures
            r == flags_byte(*self),
    {
        let s: u8 = if self.s { 0x80 } else { 0 };
        let z: u8 = if self.z { 0x40 } else { 0 };
        let ac: u8 = if self.ac { 0x10 } else { 0 };
        let p: u8 = if self.p { 0x04 } else { 0 };
        let cy: u8 = if self.cy { 0x01 } else { 0 };
        s | z | ac | p | 0x02u8 | cy
    }

    /// Sets the flags from a flag byte.
    pub fn set_from_byte(&mut self, byte: u8)
        ensures
            *final(self) == flags_of_byte(byte),
    {
        self.s = (byte & 0x80) != 0;
        self.z = (byte & 0x40) != 0;
        self.ac = (byte & 0x10) != 0;
        self.p = (byte & 0x04) != 0;
        self.cy = (byte & 0x01) != 0;
    }
}

/// `x + d` wrapped into 16 bits.
fn wrapping_add16(x: u16, d: u16) -> (r: u16)
    ensures
        r == add16(x, d as int),
{
    ((x as u32 + d as u32) % 0x10000) as u16
}

/// `x - d` wrapped into 16 bits.
fn wrapping_sub16(x: u16, d: u16) -> (r: u16)
    ensures
        r == add16(x, -(d as int)),
{
    ((x as u32 + 0x10000 - d as u32) % 0x10000) as u16
}

/// Even parity of `x`.
fn parity_of(x: u8) -> (r: bool)
    ensures
        r == parity_even(x),
{
    let mut v: u8 = x;
    let mut odd = false;
    while v > 0
        invariant
            ((if odd { 1nat } else { 0nat }) + popcount(v as nat)) % 2 == popcount(x as nat) % 2,
        decreases v,
    {
        odd = odd != (v % 2 == 1);
        v = v / 2;
    }
    !odd
}

/// `f` with sign, zero and parity set from `r`.
fn zsp_of(f: Flags, r: u8) -> (o: Flags)
    ensures
        o == zsp(f, r),
{
    Flags { z: r == 0, s: r >= 128, p: parity_of(r), ..f }
}

/// Auxiliary function that takes 2 bytes and returns a word
pub fn merge_bytes(low: u8, high: u8) -> (r: u16)
    ensures
        r == pair(high, low),
{
    high as u16 * 256 + low as u16
}

/// Represents the Intel 8080 CPU and provides methods to emulate CPU cycles.
#[derive(Clone, Copy, Debug, PartialEq, Eq, Structural)]
pub struct Cpu {
    // 8-bit registers
    pub a: u8,
    pub b: u8,
    pub c: u8,
    pub d: u8,
    pub e: u8,
    pub h: u8,
    pub l: u8,
    // 16-bit registers
    pub sp: u16,
    pub pc: u16,
    // Flags (Intel 8080: Sign, Zero, Aux Carry, Parity, Carry)
    pub flags: Flags,
    /// Interrupt Master Enable
    pub ime: bool,
    /// Total cycles executed by the CPU, wrapping
    pub cycles: u64,
    /// Halted state
    pub halted: bool,
}

impl Cpu {
    /// The CPU at reset.
    pub open spec fn new_spec() -> Cpu {
        Cpu {
            a: 0,
            b: 0,
            c: 0,
            d: 0,
            e: 0,
            h: 0,
            l: 0,
            sp: 0,
            pc: 0,
            flags: Flags { z: false, s: false, p: false, cy: false, ac: false },
            ime: false,
            cycles: 0,
            halted: false,
        }
    }

    /// A CPU at reset: every register, flag and latch zero.
    pub fn new() -> (r: Self)
        ensures
            r == Cpu::new_spec(),
    {
        Cpu {
            a: 0,
            b: 0,
            c: 0,
            d: 0,
            e: 0,
            h: 0,
            l: 0,
            sp: 0,
            pc: 0,
            flags: Flags { z: false, s: false, p: false, cy: false, ac: false },
            ime: false,
            cycles: 0,
            halted: false,
        }
    }

    /// Runs one instruction, or idles for 4 cycles when halted, and returns
    /// the cycles it took. At PC 0x0005 the CP/M shim writes its output to
    /// the console of `ports` before the fetch.
    pub fn step(&mut self, mmu: &mut Mmu, ports: &mut Ports) -> (r: u64)
        requires
            old(mmu).wf(),
            old(ports).wf(),
        ensures
            final(mmu).wf(),
            final(ports).wf(),
            machine(*final(self), final(mmu)@, final(ports)@) == step(
                machine(*old(self), old(mmu)@, old(ports)@),
            ),
            r == step_cycles(machine(*old(self), old(mmu)@, old(ports)@)),
    {
        if self.halted {
            self.cycles = add_cycles(self.cycles, 4);
            return 4;
        }
        // Handle CP/M BDOS call at address 0x0005
        if self.pc == BDOS_CALL_ADDR {
            let mut out = Bdos::handle_call(self.c, self.get_de(), mmu);
            ports.emit(&mut out);
        }
        let opcode = self.fetch_byte(mmu);
        let cycles = self.execute_opcode(opcode, mmu, ports) as u64;
        self.cycles = add_cycles(self.cycles, cycles);
        cycles
    }

    /// Fetches the next byte from memory and increments the program counter.
    fn fetch_byte(&mut self, mmu: &Mmu) -> (r: u8)
        requires
            mmu.wf(),
        ensures
            r == mmu@[old(self).pc as int],
            *final(self) == (Cpu { pc: add16(old(self).pc, 1), ..*old(self) }),
    {
        let byte = mmu.read_byte(self.pc);
        self.pc = wrapping_add16(self.pc, 1);
        byte
    }

    /// Fetches the next word (2 bytes) from memory and increments the program counter.
    fn fetch_word(&mut self, mmu: &Mmu) -> (r: u16)
        requires
            mmu.wf(),
        ensures
            r == word_at(mmu@, old(self).pc),
            *final(self) == (Cpu { pc: add16(old(self).pc, 2), ..*old(self) }),
    {
        let low = self.fetch_byte(mmu);
        let high = self.fetch_byte(mmu);
        merge_bytes(low, high)
    }

    /// Executes an opcode whose byte PC has already passed, and returns the
    /// number of cycles consumed.
    fn execute_opcode(&mut self, opcode: u8, mmu: &mut Mmu, ports: &mut Ports) -> (r: u8)
        requires
            old(mmu).wf(),
            old(ports).wf(),
        ensures
            final(mmu).wf(),
            final(ports).wf(),
            machine(*final(self), final(mmu)@, final(ports)@) == execute(
                machine(*old(self), old(mmu)@, old(ports)@),
                opcode,
            ),
            r == opcode_cycles(opcode),
    {
        let cycles = get_opcode_cycles(opcode);
        if opcode < 0x40 {
            self.exec_low(opcode, mmu, ports);
        } else if opcode < 0x80 {
            self.exec_mov(opcode, mmu, ports);
        } else if opcode < 0xC0 {
            let v = self.get_reg(opcode % 8, mmu);
            self.alu((opcode / 8) % 8, v);
        } else {
            self.exec_high(opcode, mmu, ports);
        }
        cycles
    }

    /// MOV r,r' and HLT.
    fn exec_mov(&mut self, op: u8, mmu: &mut Mmu, ports: &Ports)
        requires
            old(mmu).wf(),
        ensures
            final(mmu).wf(),
            machine(*final(self), final(mmu)@, ports@) == exec_mov(
                machine(*old(self), old(mmu)@, ports@),
                op,
            ),
    {
        if op == 0x76 {
            self.hlt();
        } else {
            let v = self.get_reg(op % 8, mmu);
            self.set_reg((op / 8) % 8, v, mmu);
        }
    }

    /// The opcodes below 0x40.
    fn exec_low(&mut self, op: u8, mmu: &mut Mmu, ports: &Ports)
        requires
            old(mmu).wf(),
            op < 0x40,
        ensures
            final(mmu).wf(),
            machine(*final(self), final(mmu)@, ports@) == exec_low(
                machine(*old(self), old(mmu)@, ports@),
                op,
            ),
    {
        let row = op / 8;
        let col = op % 8;
        if col == 0 {
            // NOP and its aliases
        } else if col == 1 {
            if row % 2 == 0 {
                // LXI rp,D16
                let word = self.fetch_word(mmu);
                self.set_rp(row / 2, word);
            } else {
                // DAD rp
                let value = self.get_rp(row / 2);
                self.dad(value);
            }
        } else if col == 2 {
            self.exec_load_store(row, mmu, ports);
        } else if col == 3 {
            let value = self.get_rp(row / 2);
            if row % 2 == 0 {
                // INX rp
                self.set_rp(row / 2, wrapping_add16(value, 1));
            } else {
                // DCX rp
                self.set_rp(row / 2, wrapping_sub16(value, 1));
            }
        } else if col == 4 {
            // INR r
            let value = self.get_reg(row, mmu);
            let result = self.inr(value);
            self.set_reg(row, result, mmu);
        } else if col == 5 {
            // DCR r
            let value = self.get_reg(row, mmu);
            let result = self.dcr(value);
            self.set_reg(row, result, mmu);
        } else if col == 6 {
            // MVI r,D8
            let value = self.fetch_byte(mmu);
            self.set_reg(row, value, mmu);
        } else {
            self.acc_op(row);
        }
    }

    /// STAX, LDAX, SHLD, LHLD, STA and LDA.
    fn exec_load_store(&mut self, row: u8, mmu: &mut Mmu, ports: &Ports)
        requires
            old(mmu).wf(),
        ensures
            final(mmu).wf(),
            machine(*final(self), final(mmu)@, ports@) == exec_load_store(
                machine(*old(self), old(mmu)@, ports@),
                row,
            ),
    {
        if row == 0 {
            mmu.write_byte(self.get_bc(), self.a);  // STAX BC
        } else if row == 2 {
            mmu.write_byte(self.get_de(), self.a);  // STAX DE
        } else if row == 1 {
            self.a = mmu.read_byte(self.get_bc());  // LDAX BC
        } else if row == 3 {
            self.a = mmu.read_byte(self.get_de());  // LDAX DE
        } else {
            let addr = self.fetch_word(mmu);
            if row == 4 {
                // SHLD D16
                mmu.write_word(addr, self.get_hl());
            } else if row == 5 {
                // LHLD D16
                let value = mmu.read_word(addr);
                self.set_hl(value);
            } else if row == 6 {
                // STA D16
                mmu.write_byte(addr, self.a);
            } else {
                // LDA D16
                self.a = mmu.read_byte(addr);
            }
        }
    }

    /// The opcodes from 0xC0 on.
    fn exec_high(&mut self, op: u8, mmu: &mut Mmu, ports: &mut Ports)
        requires
            old(mmu).wf(),
            old(ports).wf(),
            op >= 0xC0,
        ensures
            final(mmu).wf(),
            final(ports).wf(),
            machine(*final(self), final(mmu)@, final(ports)@) == exec_high(
                machine(*old(self), old(mmu)@, old(ports)@),
                op,
            ),
    {
        let row = (op / 8) % 8;
        let col = op % 8;
        if col == 0 {
            // R<cond>
            if self.condition_holds(row) {
                self.ret(mmu);
            }
        } else if col == 1 {
            if row == 6 {
                // POP PSW
                let value = self.pop(mmu);
                self.a = (value / 256) as u8;
                self.flags.set_from_byte((value % 256) as u8);
            } else if row % 2 == 0 {
                // POP rp
                let value = self.pop(mmu);
                self.set_rp(row / 2, value);
            } else if row == 5 {
                // PCHL
                self.pc = self.get_hl();
            } else if row == 7 {
                // SPHL
                self.sp = self.get_hl();
            } else {
                // RET
                self.ret(mmu);
            }
        } else if col == 2 {
            // J<cond> A16
            let addr = self.fetch_word(mmu);
            if self.condition_holds(row) {
                self.pc = addr;
            }
        } else if col == 3 {
            self.exec_misc(row, mmu, ports);
        } else if col == 4 {
            // C<cond> A16
            let addr = self.fetch_word(mmu);
            if self.condition_holds(row) {
                self.call(addr, mmu);
            }
        } else if col == 5 {
            if row == 6 {
                // PUSH PSW
                let value = self.get_af();
                self.push(value, mmu);
            } else if row % 2 == 0 {
                // PUSH rp
                let value = self.get_rp(row / 2);
                self.push(value, mmu);
            } else {
                // CALL A16
                let addr = self.fetch_word(mmu);
                self.call(addr, mmu);
            }
        } else if col == 6 {
            // ADI, ACI, SUI, SBI, ANI, XRI, ORI, CPI
            let value = self.fetch_byte(mmu);
            self.alu(row, value);
        } else {
            self.rst(row, mmu);
        }
    }

    /// JMP, OUT, IN, XTHL, XCHG, DI and EI.
    fn exec_misc(&mut self, row: u8, mmu: &mut Mmu, ports: &mut Ports)
        requires
            old(mmu).wf(),
            old(ports).wf(),
        ensures
            final(mmu).wf(),
            final(ports).wf(),
            machine(*final(self), final(mmu)@, final(ports)@) == exec_misc(
                machine(*old(self), old(mmu)@, old(ports)@),
                row,
            ),
    {
        if row == 0 || row == 1 {
            // JMP A16
            self.pc = self.fetch_word(mmu);
        } else if row == 2 {
            // OUT D8
            let port = self.fetch_byte(mmu);
            ports.write(port, self.a);
        } else if row == 3 {
            // IN D8
            let port = self.fetch_byte(mmu);
            self.a = ports.read(port);
        } else if row == 4 {
            // XTHL
            let sp = self.sp;
            let sp_next = wrapping_add16(sp, 1);
            let low = mmu.read_byte(sp);
            let high = mmu.read_byte(sp_next);
            let temp_l = self.l;
            let temp_h = self.h;
            self.l = low;
            self.h = high;
            mmu.write_byte(sp, temp_l);
            mmu.write_byte(sp_next, temp_h);
        } else if row == 5 {
            // XCHG
            let temp_d = self.d;
            let temp_e = self.e;
            self.d = self.h;
            self.e = self.l;
            self.h = temp_d;
            self.l = temp_e;
        } else if row == 6 {
            self.ime = false;  // DI
        } else {
            self.ime = true;  // EI
        }
    }

    /// Whether condition `cc` (NZ, Z, NC, C, PO, PE, P, M) holds.
    fn condition_holds(&self, cc: u8) -> (r: bool)
        ensures
            r == condition(self.flags, cc),
    {
        if cc == 0 {
            !self.flags.z
        } else if cc == 1 {
            self.flags.z
        } else if cc == 2 {
            !self.flags.cy
        } else if cc == 3 {
            self.flags.cy
        } else if cc == 4 {
            !self.flags.p
        } else if cc == 5 {
            self.flags.p
        } else if cc == 6 {
            !self.flags.s
        } else {
            self.flags.s
        }
    }

    /// Triggers an interrupt if interrupts are enabled.
    pub fn interrupt(&mut self, vector: u8, mmu: &mut Mmu)
        requires
            old(mmu).wf(),
        ensures
            final(mmu).wf(),
            forall|p: PortsView|
                #[trigger] interrupt(machine(*old(self), old(mmu)@, p), vector) == machine(
                    *final(self),
                    final(mmu)@,
                    p,
                ),
    {
        if !self.ime {
            return;
        }
        self.ime = false;
        self.halted = false;
        self.rst(vector, mmu);
    }

    /// Halt the CPU.
    fn hlt(&mut self)
        ensures
            *final(self) == (Cpu { halted: true, ..*old(self) }),
    {
        self.halted = true;
    }

    /// Calls the subroutine at `n * 8`.
    fn rst(&mut self, n: u8, mmu: &mut Mmu)
        requires
            old(mmu).wf(),
        ensures
            final(mmu).wf(),
            final(self).sp == add16(old(self).sp, -2),
            *final(self) == (Cpu { sp: final(self).sp, pc: (n * 8) as u16, ..*old(self) }),
            final(mmu)@ == store_word(old(mmu)@, final(self).sp, old(self).pc),
    {
        let addr = (n as u16) * 8;
        self.call(addr, mmu);
    }

    /// Pushes PC and jumps to `addr`.
    fn call(&mut self, addr: u16, mmu: &mut Mmu)
        requires
            old(mmu).wf(),
        ensures
            final(mmu).wf(),
            final(self).sp == add16(old(self).sp, -2),
            *final(self) == (Cpu { sp: final(self).sp, pc: addr, ..*old(self) }),
            final(mmu)@ == store_word(old(mmu)@, final(self).sp, old(self).pc),
    {
        let pc = self.pc;
        self.push(pc, mmu);
        self.pc = addr;
    }

    /// Adds a register pair to HL; CY is the carry out of bit 15.
    fn dad(&mut self, value: u16)
        ensures
            *final(self) == (Cpu {
                flags: Flags { cy: hl(*old(self)) + value > 0xFFFF, ..old(self).flags },
                ..with_rp(*old(self), 2, ((hl(*old(self)) + value) % 0x10000) as u16)
            }),
    {
        let sum = self.get_hl() as u32 + value as u32;
        self.set_hl((sum % 0x10000) as u16);
        self.flags.cy = sum > 0xFFFF;
    }

    /// RLC, RRC, RAL, RAR, DAA, CMA, STC or CMC, by `row`.
    fn acc_op(&mut self, row: u8)
        ensures
            *final(self) == acc_cpu(*old(self), row),
    {
        if row == 0 {
            self.a = self.rol(self.a);
        } else if row == 1 {
            self.a = self.ror(self.a);
        } else if row == 2 {
            self.a = self.ral();
        } else if row == 3 {
            self.a = self.rar();
        } else if row == 4 {
            self.a = self.daa();
        } else if row == 5 {
            self.a = self.cma();
        } else if row == 6 {
            self.stc();
        } else {
            self.cmc();
        }
    }

    /// Rotate left; bit 7 goes to bit 0 and to CY.
    fn rol(&mut self, value: u8) -> (r: u8)
        ensures
            r == acc_op(value, old(self).flags, 0).0,
            *final(self) == (Cpu { flags: acc_op(value, old(self).flags, 0).1, ..*old(self) }),
    {
        let carry = value >= 128;
        let result = ((value as u16 * 2) % 256 + value as u16 / 128) as u8;
        self.flags.cy = carry;
        result
    }

    /// Rotate right; bit 0 goes to bit 7 and to CY.
    fn ror(&mut self, value: u8) -> (r: u8)
        ensures
            r == acc_op(value, old(self).flags, 1).0,
            *final(self) == (Cpu { flags: acc_op(value, old(self).flags, 1).1, ..*old(self) }),
    {
        let carry = value % 2 == 1;
        let result = (value as u16 / 2 + (value as u16 % 2) * 128) as u8;
        self.flags.cy = carry;
        result
    }

    /// Rotate Accumulator Left through Carry.
    fn ral(&mut self) -> (r: u8)
        ensures
            r == acc_op(old(self).a, old(self).flags, 2).0,
            *final(self) == (Cpu { flags: acc_op(old(self).a, old(self).flags, 2).1, ..*old(self) }),
    {
        let carry: u16 = if self.flags.cy { 1 } else { 0 };
        let new_carry = self.a >= 128;
        let result = ((self.a as u16 * 2) % 256 + carry) as u8;
        self.flags.cy = new_carry;
        result
    }

    /// Rotate Accumulator Right through Carry.
    fn rar(&mut self) -> (r: u8)
        ensures
            r == acc_op(old(self).a, old(self).flags, 3).0,
            *final(self) == (Cpu { flags: acc_op(old(self).a, old(self).flags, 3).1, ..*old(self) }),
    {
        let carry: u16 = if self.flags.cy { 128 } else { 0 };
        let new_carry = self.a % 2 == 1;
        let result = (self.a as u16 / 2 + carry) as u8;
        self.flags.cy = new_carry;
        result
    }

    /// Decimal adjust of the accumulator.
    #[verifier::rlimit(40)]
    fn daa(&mut self) -> (r: u8)
        ensures
            r == acc_op(old(self).a, old(self).flags, 4).0,
            *final(self) == (Cpu { flags: acc_op(old(self).a, old(self).flags, 4).1, ..*old(self) }),
    {
        let a = self.a;
        let fix_low = a % 16 > 9 || self.flags.ac;
        let low: u16 = if fix_low { 6 } else { 0 };
        let fix_high = a / 16 > 9 || self.flags.cy || a as u16 + low > 0x99;
        let high: u16 = if fix_high { 0x60 } else { 0 };
        let result = ((a as u16 + low + high) % 256) as u8;
        self.flags = Flags { ac: fix_low, cy: fix_high, ..zsp_of(self.flags, result) };
        result
    }

    /// Complement Accumulator.
    fn cma(&mut self) -> (r: u8)
        ensures
            r == acc_op(old(self).a, old(self).flags, 5).0,
            *final(self) == *old(self),
    {
        255 - self.a
    }

    /// Set Carry Flag.
    fn stc(&mut self)
        ensures
            *final(self) == acc_cpu(*old(self), 6),
    {
        self.flags.cy = true;
    }

    /// Complement Carry Flag.
    fn cmc(&mut self)
        ensures
            *final(self) == acc_cpu(*old(self), 7),
    {
        self.flags.cy = !self.flags.cy;
    }

    /// Increments a value and updates flags; CY is kept.
    fn inr(&mut self, value: u8) -> (r: u8)
        ensures
            r == inr(old(self).flags, value).0,
            *final(self) == (Cpu { flags: inr(old(self).flags, value).1, ..*old(self) }),
    {
        let result = ((value as u16 + 1) % 256) as u8;
        self.flags = Flags { ac: value % 16 == 15, ..zsp_of(self.flags, result) };
        result
    }

    /// Decrements a value and updates flags; CY is kept.
    fn dcr(&mut self, value: u8) -> (r: u8)
        ensures
            r == dcr(old(self).flags, value).0,
            *final(self) == (Cpu { flags: dcr(old(self).flags, value).1, ..*old(self) }),
    {
        let result = ((value as u16 + 255) % 256) as u8;
        self.flags = Flags { ac: value % 16 == 0, ..zsp_of(self.flags, result) };
        result
    }

    /// ALU operation `op` (ADD, ADC, SUB, SBB, ANA, XRA, ORA, CMP) with `value`.
    fn alu(&mut self, op: u8, value: u8)
        requires
            op < 8,
        ensures
            *final(self) == alu_cpu(*old(self), op, value),
    {
        if op == 0 {
            self.add(value);
        } else if op == 1 {
            self.adc(value);
        } else if op == 2 {
            self.sub(value);
        } else if op == 3 {
            self.sbb(value);
        } else if op == 4 {
            self.ana(value);
        } else if op == 5 {
            self.xra(value);
        } else if op == 6 {
            self.ora(value);
        } else {
            self.cmp(value);
        }
    }

    /// Adds a value to the accumulator and updates flags.
    #[verifier::rlimit(40)]
    fn add(&mut self, value: u8)
        ensures
            *final(self) == alu_cpu(*old(self), 0, value),
    {
        let sum = self.a as u16 + value as u16;
        let result = (sum % 256) as u8;
        let ac = self.a % 16 + value % 16 > 15;
        self.a = result;
        self.flags = Flags { cy: sum > 255, ac: ac, ..zsp_of(self.flags, result) };
    }

    /// Adds a value and the carry flag to the accumulator and updates flags.
    #[verifier::rlimit(40)]
    fn adc(&mut self, value: u8)
        ensures
            *final(self) == alu_cpu(*old(self), 1, value),
    {
        let carry: u16 = if self.flags.cy { 1 } else { 0 };
        let sum = self.a as u16 + value as u16 + carry;
        let result = (sum % 256) as u8;
        let ac = (self.a % 16) as u16 + (value % 16) as u16 + carry > 15;
        self.a = result;
        self.flags = Flags { cy: sum > 255, ac: ac, ..zsp_of(self.flags, result) };
    }

    /// Subtracts a value from the accumulator and updates flags.
    #[verifier::rlimit(40)]
    fn sub(&mut self, value: u8)
        ensures
            *final(self) == alu_cpu(*old(self), 2, value),
    {
        let result = ((self.a as u16 + 256 - value as u16) % 256) as u8;
        let flags = Flags {
            cy: self.a < value,
            ac: self.a % 16 < value % 16,
            ..zsp_of(self.flags, result)
        };
        self.a = result;
        self.flags = flags;
    }

    /// Subtracts a value and the carry flag from the accumulator and updates flags.
    #[verifier::rlimit(40)]
    fn sbb(&mut self, value: u8)
        ensures
            *final(self) == alu_cpu(*old(self), 3, value),
    {
        let carry: u16 = if self.flags.cy { 1 } else { 0 };
        let result = ((self.a as u16 + 256 - value as u16 - carry) % 256) as u8;
        let flags = Flags {
            cy: (self.a as u16) < value as u16 + carry,
            ac: ((self.a % 16) as u16) < (value % 16) as u16 + carry,
            ..zsp_of(self.flags, result)
        };
        self.a = result;
        self.flags = flags;
    }

    /// Logical AND between accumulator and value; CY cleared, AC set.
    fn ana(&mut self, value: u8)
        ensures
            *final(self) == alu_cpu(*old(self), 4, value),
    {
        self.a = self.a & value;
        self.flags = Flags { cy: false, ac: true, ..zsp_of(self.flags, self.a) };
    }

    /// Logical XOR between accumulator and value; CY and AC cleared.
    fn xra(&mut self, value: u8)
        ensures
            *final(self) == alu_cpu(*old(self), 5, value),
    {
        self.a = self.a ^ value;
        self.flags = Flags { cy: false, ac: false, ..zsp_of(self.flags, self.a) };
    }

    /// Logical OR between accumulator and value; CY and AC cleared.
    fn ora(&mut self, value: u8)
        ensures
            *final(self) == alu_cpu(*old(self), 6, value),
    {
        self.a = self.a | value;
        self.flags = Flags { cy: false, ac: false, ..zsp_of(self.flags, self.a) };
    }

    /// Compares a value with the accumulator and updates flags; A is kept.
    #[verifier::rlimit(40)]
    fn cmp(&mut self, value: u8)
        ensures
            *final(self) == alu_cpu(*old(self), 7, value),
    {
        let result = ((self.a as u16 + 256 - value as u16) % 256) as u8;
        self.flags = Flags {
            cy: self.a < value,
            ac: self.a % 16 < value % 16,
            ..zsp_of(self.flags, result)
        };
    }

    /// Returns from a subroutine.
    fn ret(&mut self, mmu: &Mmu)
        requires
            mmu.wf(),
        ensures
            *final(self) == (Cpu {
                pc: word_at(mmu@, old(self).sp),
                sp: add16(old(self).sp, 2),
                ..*old(self)
            }),
    {
        self.pc = self.pop(mmu);
    }

    /// Pops a 16-bit value from the stack.
    fn pop(&mut self, mmu: &Mmu) -> (r: u16)
        requires
            mmu.wf(),
        ensures
            r == word_at(mmu@, old(self).sp),
            *final(self) == (Cpu { sp: add16(old(self).sp, 2), ..*old(self) }),
    {
        let word = mmu.read_word(self.sp);
        self.sp = wrapping_add16(self.sp, 2);
        word
    }

    /// Pushes a 16-bit value onto the stack.
    fn push(&mut self, value: u16, mmu: &mut Mmu)
        requires
            old(mmu).wf(),
        ensures
            final(mmu).wf(),
            *final(self) == (Cpu { sp: add16(old(self).sp, -2), ..*old(self) }),
            final(mmu)@ == store_word(old(mmu)@, final(self).sp, value),
    {
        self.sp = wrapping_sub16(self.sp, 2);
        mmu.write_word(self.sp, value);
    }

    /// Operand `r`: 0 B, 1 C, 2 D, 3 E, 4 H, 5 L, 6 the byte at HL, 7 A.
    fn get_reg(&self, r: u8, mmu: &Mmu) -> (v: u8)
        requires
            mmu.wf(),
        ensures
            v == reg(*self, mmu@, r),
    {
        if r == 0 {
            self.b
        } else if r == 1 {
            self.c
        } else if r == 2 {
            self.d
        } else if r == 3 {
            self.e
        } else if r == 4 {
            self.h
        } else if r == 5 {
            self.l
        } else if r == 6 {
            mmu.read_byte(self.get_hl())
        } else {
            self.a
        }
    }

    /// Sets operand `r` to `v`.
    fn set_reg(&mut self, r: u8, v: u8, mmu: &mut Mmu)
        requires
            old(mmu).wf(),
        ensures
            final(mmu).wf(),
            *final(self) == cpu_with_reg(*old(self), r, v),
            final(mmu)@ == mem_with_reg(*old(self), old(mmu)@, r, v),
    {
        if r == 0 {
            self.b = v;
        } else if r == 1 {
            self.c = v;
        } else if r == 2 {
            self.d = v;
        } else if r == 3 {
            self.e = v;
        } else if r == 4 {
            self.h = v;
        } else if r == 5 {
            self.l = v;
        } else if r == 6 {
            self.set_at_hl(v, mmu);
        } else {
            self.a = v;
        }
    }

    /// Register pair `i`: 0 BC, 1 DE, 2 HL, 3 SP.
    fn get_rp(&self, i: u8) -> (r: u16)
        ensures
            r == rp(*self, i),
    {
        if i == 0 {
            self.get_bc()
        } else if i == 1 {
            self.get_de()
        } else if i == 2 {
            self.get_hl()
        } else {
            self.sp
        }
    }

    /// Sets register pair `i` to `word`.
    fn set_rp(&mut self, i: u8, word: u16)
        ensures
            *final(self) == with_rp(*old(self), i, word),
    {
        if i == 0 {
            self.set_bc(word);
        } else if i == 1 {
            self.set_de(word);
        } else if i == 2 {
            self.set_hl(word);
        } else {
            self.sp = word;
        }
    }

    /// Returns the AF register pair (A as high byte, flags as low byte).
    pub fn get_af(&self) -> (r: u16)
        ensures
            r == psw(*self),
    {
        merge_bytes(self.flags.to_byte(), self.a)
    }

    /// Returns the combined value of registers B and C as a 16-bit value.
    pub fn get_bc(&self) -> (r: u16)
        ensures
            r == bc(*self),
    {
        merge_bytes(self.c, self.b)
    }

    /// Sets the combined value of registers B and C from a 16-bit value.
    fn set_bc(&mut self, word: u16)
        ensures
            *final(self) == with_rp(*old(self), 0, word),
    {
        self.b = (word / 256) as u8;
        self.c = (word % 256) as u8;
    }

    /// Returns the combined value of registers D and E as a 16-bit value.
    pub fn get_de(&self) -> (r: u16)
        ensures
            r == de(*self),
    {
        merge_bytes(self.e, self.d)
    }

    /// Sets the combined value of registers D and E from a 16-bit value.
    fn set_de(&mut self, word: u16)
        ensures
            *final(self) == with_rp(*old(self), 1, word),
    {
        self.d = (word / 256) as u8;
        self.e = (word % 256) as u8;
    }

    /// Returns the combined value of registers H and L as a 16-bit value.
    pub fn get_hl(&self) -> (r: u16)
        ensures
            r == hl(*self),
    {
        merge_bytes(self.l, self.h)
    }

    /// Sets the combined value of registers H and L from a 16-bit value.
    fn set_hl(&mut self, word: u16)
        ensures
            *final(self) == with_rp(*old(self), 2, word),
    {
        self.h = (word / 256) as u8;
        self.l = (word % 256) as u8;
    }

    /// Writes a byte to the memory address pointed to by the HL register pair.
    fn set_at_hl(&self, value: u8, mmu: &mut Mmu)
        requires
            old(mmu).wf(),
        ensures
            final(mmu).wf(),
            final(mmu)@ == old(mmu)@.update(hl(*self) as int, value),
    {
        let addr = self.get_hl();
        mmu.write_byte(addr, value);
    }
}

/// `x + c`, wrapped into 64 bits.
fn add_cycles(x: u64, c: u64) -> (r: u64)
    ensures
        r == add64(x, c as int),
{
    ((x as u128 + c as u128) % 0x1_0000_0000_0000_0000) as u64
}

/// Cycles taken by `opcode`, from the 8080 timing table.
fn get_opcode_cycles(opcode: u8) -> (r: u8)
    ensures
        r == opcode_cycles(opcode),
{
    let row = (opcode / 8) % 8;
    let col = opcode % 8;
    if opcode < 0x40 {
        if col == 0 || col == 7 {
            4
        } else if col == 1 {
            10
        } else if col == 2 {
            if row < 4 {
                7
            } else if row < 6 {
                16
            } else {
                13
            }
        } else if col == 3 {
            5
        } else if col == 4 || col == 5 {
            if row == 6 {
                10
            } else {
                5
            }
        } else if row == 6 {
            10
        } else {
            7
        }
    } else if opcode < 0x80 {
        if col == 6 || row == 6 {
            7
        } else {
            5
        }
    } else if opcode < 0xC0 {
        if col == 6 {
            7
        } else {
            4
        }
    } else if col == 0 {
        5
    } else if col == 1 {
        if row == 5 || row == 7 {
            5
        } else {
            10
        }
    } else if col == 2 {
        10
    } else if col == 3 {
        if row < 4 {
            10
        } else if row == 4 {
            18
        } else if row == 5 {
            5
        } else {
            4
        }
    } else if col == 4 || col == 7 {
        11
    } else if col == 5 {
        if row % 2 == 0 {
            11
        } else {
            17
        }
    } else {
        7
    }
}

} // verus!
