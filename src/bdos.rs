use vstd::prelude::*;
use crate::mmu::{Mmu, MEMORY_SIZE};

verus! {

/// The byte that ends a string for BDOS function 9.
pub const STRING_END: u8 = 0x24;

/// The bytes of memory from `addr` on, up to and not including the first `$`,
/// looking at no more than `limit` bytes; addresses wrap modulo 2^16.
pub open spec fn dollar_string(mem: Seq<u8>, addr: u16, limit: nat) -> Seq<u8>
    decreases limit,
{
    if limit == 0 || mem[addr as int] == STRING_END {
        Seq::empty()
    } else {
        seq![mem[addr as int]] + dollar_string(mem, crate::mmu::next_addr(addr), (limit - 1) as nat)
    }
}

/// What the shim prints for function `c` with `de` in DE. Function 2 prints
/// E; function 9 prints the `$`-terminated string at DE (one sweep of the
/// address space at most); every other function prints nothing.
pub open spec fn bdos_output(c: u8, de: u16, mem: Seq<u8>) -> Seq<u8> {
    if c == 2 {
        seq![(de % 256) as u8]
    } else if c == 9 {
        dollar_string(mem, de, MEMORY_SIZE as nat)
    } else {
        Seq::empty()
    }
}

/// CP/M BDOS (Basic Disk Operating System) emulation for .COM diagnostics.
pub struct Bdos;

impl Bdos {
    /// The console output of a BDOS call with C = `c_reg` and DE = `de_reg`.
    pub fn handle_call(c_reg: u8, de_reg: u16, mmu: &Mmu) -> (r: Vec<u8>)
        requires
            mmu.wf(),
        ensures
            r@ == bdos_output(c_reg, de_reg, mmu@),
    {
        let mut out: Vec<u8> = Vec::new();
        if c_reg == 2 {
            // Function 2: Console output (character in E)
            out.push((de_reg % 256) as u8);
        } else if c_reg == 9 {
            // Function 9: Print string (address in DE, terminated by '$')
            let mut addr = de_reg;
            let mut left: usize = MEMORY_SIZE;
            while left > 0
                invariant
                    mmu.wf(),
                    left <= MEMORY_SIZE,
                    out@ + dollar_string(mmu@, addr, left as nat) == dollar_string(
                        mmu@,
                        de_reg,
                        MEMORY_SIZE as nat,
                    ),
                ensures
                    out@ == dollar_string(mmu@, de_reg, MEMORY_SIZE as nat),
                decreases left,
            {
                let ch = mmu.read_byte(addr);
                if ch == STRING_END {
                    assert(out@ =~= out@ + dollar_string(mmu@, addr, left as nat));
                    break;
                }
                let ghost before = out@;
                out.push(ch);
                assert(out@ + dollar_string(mmu@, ((addr as u32 + 1) % 0x10000) as u16, (left - 1) as nat)
                    =~= before + dollar_string(mmu@, addr, left as nat));
                addr = ((addr as u32 + 1) % 0x10000) as u16;
                left = left - 1;
            }
            assert(out@ =~= out@ + dollar_string(mmu@, addr, left as nat)) by {
                if left == 0 {
                    assert(dollar_string(mmu@, addr, 0) =~= Seq::<u8>::empty());
                }
            }
        }
        proof {
            if c_reg == 2 {
                assert(out@ =~= seq![(de_reg % 256) as u8]);
            } else if c_reg != 9 {
                assert(out@ =~= Seq::<u8>::empty());
            }
        }
        out
    }
}

} // verus!
