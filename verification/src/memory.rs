//! The flat 64 KiB memory that the processor addresses.

use vstd::prelude::*;

verus! {

/// The number of bytes in the address space.
pub const MAX_SIZE: usize = 0x10000;

/// The address at which a program is loaded and at which execution starts
/// after a reset.
pub const PROGRAM_START: u16 = 0x0600;

/// Byte-addressed memory covering the whole 16-bit address space.
pub struct Memory {
    pub data: [u8; MAX_SIZE],
}

/// Memory contents with every byte zero.
pub open spec fn zeroed() -> Seq<u8> {
    Seq::new(MAX_SIZE as nat, |i: int| 0u8)
}

/// Memory contents after `program` has been copied to `PROGRAM_START`: the
/// part of the program that would lie past the last address is left out, and
/// every other byte is zero.
pub open spec fn loaded(program: Seq<u8>) -> Seq<u8> {
    Seq::new(
        MAX_SIZE as nat,
        |i: int|
            if PROGRAM_START <= i < PROGRAM_START + program.len() {
                program[i - PROGRAM_START]
            } else {
                0u8
            },
    )
}

/// What a read at `addr` yields: the stored byte, or zero outside the address
/// space.
pub open spec fn read_at(contents: Seq<u8>, addr: int) -> u8 {
    if 0 <= addr < MAX_SIZE {
        contents[addr]
    } else {
        0u8
    }
}

/// The contents after a write at `addr`: one byte replaced, or nothing
/// changed outside the address space.
pub open spec fn written_at(contents: Seq<u8>, addr: int, data: u8) -> Seq<u8> {
    if 0 <= addr < MAX_SIZE {
        contents.update(addr, data)
    } else {
        contents
    }
}

impl View for Memory {
    type V = Seq<u8>;

    open spec fn view(&self) -> Seq<u8> {
        self.data@
    }
}

impl Default for Memory {
    fn default() -> (memory: Self)
        ensures
            memory@ == zeroed(),
    {
        let memory = Self { data: [0u8;MAX_SIZE] };
        assert(memory@ =~= zeroed());
        memory
    }
}

impl Memory {
    /// Clears the memory by setting every byte to zero.
    pub fn clear(&mut self)
        ensures
            final(self)@ == zeroed(),
    {
        self.data = [0u8;MAX_SIZE];
        assert(self@ =~= zeroed());
    }

    /// Writes a byte to the given address. A write outside the address space
    /// is ignored.
    pub fn write(&mut self, addr: usize, data: u8)
        ensures
            final(self)@ == written_at(old(self)@, addr as int, data),
    {
        if addr < MAX_SIZE {
            self.data[addr] = data;
        }
    }

    /// Reads the byte at the given address. A read outside the address space
    /// yields zero.
    pub fn read(&self, addr: usize) -> (data: u8)
        ensures
            data == read_at(self@, addr as int),
    {
        if addr < MAX_SIZE {
            self.data[addr]
        } else {
            0
        }
    }

    /// Builds a memory that holds `program` from `PROGRAM_START` on and zero
    /// everywhere else.
    pub fn from_program_vec(program: Vec<u8>) -> (memory: Self)
        ensures
            memory@ == loaded(program@),
    {
        let mut memory: Self = Self::default();
        let room: usize = MAX_SIZE - PROGRAM_START as usize;
        let count: usize = if program.len() < room {
            program.len()
        } else {
            room
        };
        let mut index: usize = 0;
        while index < count
            invariant
                index <= count,
                count <= program.len(),
                count <= MAX_SIZE - PROGRAM_START,
                count == program.len() || count == MAX_SIZE - PROGRAM_START,
                memory@.len() == MAX_SIZE,
                forall|i: int|
                    0 <= i < MAX_SIZE ==> #[trigger] memory@[i] == if PROGRAM_START <= i
                        < PROGRAM_START + index {
                        program@[i - PROGRAM_START]
                    } else {
                        0u8
                    },
            decreases count - index,
        {
            memory.write(PROGRAM_START as usize + index, program[index]);
            index += 1;
        }
        assert(memory@ =~= loaded(program@));
        memory
    }
}

/// A byte written to an address is the byte read back from it.
pub proof fn lemma_write_read(contents: Seq<u8>, addr: int, data: u8)
    requires
        contents.len() == MAX_SIZE,
        0 <= addr < MAX_SIZE,
    ensures
        read_at(written_at(contents, addr, data), addr) == data,
        forall|other: int|
            other != addr ==> read_at(written_at(contents, addr, data), other) == read_at(
                contents,
                other,
            ),
{
}

} // verus!
