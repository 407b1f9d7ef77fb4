use vstd::prelude::*;

verus! {

/// Size of the flat address space, in bytes.
pub const MEMORY_SIZE: usize = 0x10000;

/// The address that follows `addr`, wrapping modulo 2^16.
pub open spec fn next_addr(addr: u16) -> u16 {
    ((addr as int + 1) % 0x10000) as u16
}

/// The little-endian word stored at `addr` and the address after it.
pub open spec fn word_at(mem: Seq<u8>, addr: u16) -> u16 {
    (mem[next_addr(addr) as int] as int * 256 + mem[addr as int] as int) as u16
}

/// `mem` with the little-endian word `value` written at `addr`.
pub open spec fn store_word(mem: Seq<u8>, addr: u16, value: u16) -> Seq<u8> {
    mem.update(addr as int, (value as int % 256) as u8).update(
        next_addr(addr) as int,
        (value as int / 256) as u8,
    )
}

/// `mem` with `rom` copied over it from `base` on.
pub open spec fn with_rom(mem: Seq<u8>, rom: Seq<u8>, base: int) -> Seq<u8> {
    mem.subrange(0, base) + rom + mem.subrange(base + rom.len(), mem.len() as int)
}

/// Why a ROM image could not be placed in memory.
#[derive(Clone, Copy, Debug, PartialEq, Eq, Structural)]
pub enum RomLoadError {
    /// The image would run past the end of the 64 KiB address space.
    TooLarge,
}

/// A flat 64 KiB byte-addressable store.
pub struct Mmu {
    memory: Vec<u8>,
}

impl View for Mmu {
    type V = Seq<u8>;

    closed spec fn view(&self) -> Seq<u8> {
        self.memory@
    }
}

impl Mmu {
    /// Every address of the 16-bit space has a byte.
    pub open spec fn wf(&self) -> bool {
        self@.len() == MEMORY_SIZE
    }

    /// A memory whose every byte is zero.
    pub fn new() -> (r: Self)
        ensures
            r.wf(),
            forall|i: int| 0 <= i < MEMORY_SIZE ==> r@[i] == 0u8,
    {
        let mut memory: Vec<u8> = Vec::new();
        while memory.len() < MEMORY_SIZE
            invariant
                memory@.len() <= MEMORY_SIZE,
                forall|i: int| 0 <= i < memory@.len() ==> memory@[i] == 0u8,
            decreases MEMORY_SIZE - memory@.len(),
        {
            memory.push(0);
        }
        Mmu { memory }
    }

    /// Copies `rom` into memory from `base_addr` on. Nothing is written when
    /// the image does not fit below the end of the address space.
    pub fn load_rom(&mut self, rom: &[u8], base_addr: usize) -> (r: Result<(), RomLoadError>)
        requires
            old(self).wf(),
        ensures
            final(self).wf(),
            r is Ok <==> base_addr + rom@.len() <= MEMORY_SIZE,
            r is Ok ==> final(self)@ == with_rom(old(self)@, rom@, base_addr as int),
            r is Err ==> final(self)@ == old(self)@,
    {
        if base_addr > MEMORY_SIZE || rom.len() > MEMORY_SIZE - base_addr {
            return Err(RomLoadError::TooLarge);
        }
        let mut i: usize = 0;
        while i < rom.len()
            invariant
                base_addr + rom@.len() <= MEMORY_SIZE,
                i <= rom@.len(),
                self.memory@.len() == MEMORY_SIZE,
                forall|j: int| 0 <= j < base_addr ==> self.memory@[j] == old(self)@[j],
                forall|j: int| 0 <= j < i ==> self.memory@[base_addr + j] == rom@[j],
                forall|j: int|
                    base_addr + i <= j < MEMORY_SIZE ==> self.memory@[j] == old(self)@[j],
            decreases rom@.len() - i,
        {
            self.memory.set(base_addr + i, rom[i]);
            i = i + 1;
        }
        assert(self.memory@ =~= with_rom(old(self)@, rom@, base_addr as int));
        Ok(())
    }

    /// The byte at `addr`.
    pub fn read_byte(&self, addr: u16) -> (r: u8)
        requires
            self.wf(),
        ensures
            r == self@[addr as int],
    {
        self.memory[addr as usize]
    }

    /// The little-endian word at `addr`; the second byte wraps past 0xFFFF.
    pub fn read_word(&self, addr: u16) -> (r: u16)
        requires
            self.wf(),
        ensures
            r == word_at(self@, addr),
    {
        let low = self.read_byte(addr) as u16;
        let high = self.read_byte(((addr as u32 + 1) % 0x10000) as u16) as u16;
        high * 256 + low
    }

    /// Stores `value` at `addr`.
    pub fn write_byte(&mut self, addr: u16, value: u8)
        requires
            old(self).wf(),
        ensures
            final(self).wf(),
            final(self)@ == old(self)@.update(addr as int, value),
    {
        self.memory.set(addr as usize, value);
    }

    /// Stores `value` little-endian at `addr`; the second byte wraps past 0xFFFF.
    pub fn write_word(&mut self, addr: u16, value: u16)
        requires
            old(self).wf(),
        ensures
            final(self).wf(),
            final(self)@ == store_word(old(self)@, addr, value),
    {
        self.write_byte(addr, (value % 256) as u8);
        self.write_byte(((addr as u32 + 1) % 0x10000) as u16, (value / 256) as u8);
    }
}

} // verus!
