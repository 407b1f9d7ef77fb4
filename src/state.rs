use vstd::prelude::*;
use crate::cpu::Cpu;
use crate::mmu::Mmu;
use crate::ports::Ports;
use crate::semantics::{
    imm8, interrupt, lemma_opcode_cycles_range, machine, step, step_cycles, Machine,
};

verus! {

/// CPU cycles in one video frame: 2 MHz at 60 Hz.
pub const FRAME_CYCLES: u64 = 33_333;

/// The cycle count at which the mid-frame interrupt is due.
pub const HALF_FRAME_CYCLES: u64 = 16_666;

/// Interrupt vector injected at mid-frame (RST 1).
pub const MID_FRAME_VECTOR: u8 = 1;

/// Interrupt vector injected at the end of a frame (RST 2).
pub const END_FRAME_VECTOR: u8 = 2;

/// Runs steps from `m`, with `acc` cycles of the frame spent, until the frame
/// budget is spent or the CPU halts. The mid-frame interrupt is requested
/// once, after the first step that brings the count to the half frame.
pub open spec fn frame_from(m: Machine, acc: nat, mid_done: bool) -> (Machine, nat)
    decreases (if acc >= FRAME_CYCLES { 0 } else { FRAME_CYCLES - acc }),
    via frame_from_decreases
{
    if acc >= FRAME_CYCLES || m.cpu.halted {
        (m, acc)
    } else {
        let s = step(m);
        let acc2 = (acc + step_cycles(m)) as nat;
        let mid = !mid_done && acc2 >= HALF_FRAME_CYCLES && !s.cpu.halted;
        frame_from(
            if mid {
                interrupt(s, MID_FRAME_VECTOR)
            } else {
                s
            },
            acc2,
            mid_done || mid,
        )
    }
}

#[via_fn]
proof fn frame_from_decreases(m: Machine, acc: nat, mid_done: bool) {
    if !m.cpu.halted {
        lemma_opcode_cycles_range(imm8(m));
    }
}

/// One frame from `m`, and the cycles it took: the steps of `frame_from`,
/// then the end-of-frame interrupt unless the CPU halted.
pub open spec fn frame(m: Machine) -> (Machine, nat) {
    let (e, acc) = frame_from(m, 0, false);
    if e.cpu.halted {
        (e, acc)
    } else {
        (interrupt(e, END_FRAME_VECTOR), acc)
    }
}

/// What one frame of emulation reports to the host.
#[derive(Clone, Copy, Debug, PartialEq, Eq, Structural)]
pub struct FrameRun {
    /// Cycles run in the frame
    pub cycles: u64,
    /// Whether the CPU stopped on HLT
    pub halted: bool,
}

/// The emulated machine: CPU, memory and ports.
pub struct State {
    pub cpu: Cpu,
    pub mmu: Mmu,
    pub ports: Ports,
}

impl State {
    /// Memory covers the address space and the shift amount fits in 3 bits.
    pub open spec fn wf(&self) -> bool {
        self.mmu.wf() && self.ports.wf()
    }

    /// The machine as plain values.
    pub open spec fn machine(&self) -> Machine {
        machine(self.cpu, self.mmu@, self.ports@)
    }

    /// A machine at reset: zeroed CPU and memory, ports at power-on.
    pub fn new() -> (r: Self)
        ensures
            r.wf(),
            r.cpu == Cpu::new_spec(),
            forall|i: int| 0 <= i < 0x10000 ==> r.mmu@[i] == 0u8,
            r.ports@ == Ports::new_spec(),
    {
        Self { cpu: Cpu::new(), mmu: Mmu::new(), ports: Ports::new() }
    }

    /// Runs one video frame: steps until `FRAME_CYCLES` have passed, with
    /// RST 1 requested at the half frame and RST 2 at the end, or until the
    /// CPU halts.
    pub fn run_frame(&mut self) -> (r: FrameRun)
        requires
            old(self).wf(),
        ensures
            final(self).wf(),
            final(self).machine() == frame(old(self).machine()).0,
            r.cycles == frame(old(self).machine()).1,
            r.halted == final(self).cpu.halted,
    {
        let ghost start = self.machine();
        let mut cycles: u64 = 0;
        let mut mid_done = false;
        while cycles < FRAME_CYCLES && !self.cpu.halted
            invariant
                self.wf(),
                cycles < FRAME_CYCLES + 18,
                frame_from(self.machine(), cycles as nat, mid_done) == frame_from(start, 0, false),
            decreases (if cycles >= FRAME_CYCLES { 0 } else { FRAME_CYCLES - cycles }),
        {
            let ghost m0 = self.machine();
            let spent = self.cpu.step(&mut self.mmu, &mut self.ports);
            proof {
                lemma_opcode_cycles_range(imm8(m0));
            }
            cycles = cycles + spent;
            // Trigger interrupt at mid-frame
            if !mid_done && cycles >= HALF_FRAME_CYCLES && !self.cpu.halted {
                let ghost p = self.ports@;
                let ghost m1 = self.machine();
                self.cpu.interrupt(MID_FRAME_VECTOR, &mut self.mmu);
                assert(interrupt(machine(m1.cpu, m1.mem, p), MID_FRAME_VECTOR) == self.machine());
                mid_done = true;
            }
        }
        let halted = self.cpu.halted;
        if !halted {
            // Trigger interrupt at end of frame
            let ghost p = self.ports@;
            let ghost m1 = self.machine();
            self.cpu.interrupt(END_FRAME_VECTOR, &mut self.mmu);
            assert(interrupt(machine(m1.cpu, m1.mem, p), END_FRAME_VECTOR) == self.machine());
        }
        FrameRun { cycles, halted: self.cpu.halted }
    }
}

} // verus!
