use vstd::prelude::*;

verus! {

/// Number of addressable bytes.
pub const TOTAL_MEMORY_BYTES: usize = 0x1000;

/// The byte stored at `addr`, or zero where `addr` lies outside the memory.
pub open spec fn read_at(bytes: Seq<u8>, addr: int) -> u8 {
    if 0 <= addr < bytes.len() {
        bytes[addr]
    } else {
        0
    }
}

/// The memory after storing `data` at `addr`; unchanged where `addr` lies
/// outside the memory.
pub open spec fn write_at(bytes: Seq<u8>, addr: int, data: u8) -> Seq<u8> {
    if 0 <= addr < bytes.len() {
        bytes.update(addr, data)
    } else {
        bytes
    }
}

/// A byte stored at an address inside the memory is the byte read back from
/// that address. At an address outside the memory a store changes nothing
/// and a read gives zero.
pub proof fn lemma_write_then_read(bytes: Seq<u8>, addr: u16, data: u8)
    requires
        bytes.len() == TOTAL_MEMORY_BYTES,
    ensures
        addr < TOTAL_MEMORY_BYTES ==> read_at(write_at(bytes, addr as int, data), addr as int)
            == data,
        addr >= TOTAL_MEMORY_BYTES ==> write_at(bytes, addr as int, data) == bytes && read_at(
            bytes,
            addr as int,
        ) == 0,
{
}

/// A store leaves the byte at every other address as it was.
pub proof fn lemma_write_elsewhere(bytes: Seq<u8>, addr: u16, data: u8, other: u16)
    requires
        bytes.len() == TOTAL_MEMORY_BYTES,
        other != addr,
    ensures
        read_at(write_at(bytes, addr as int, data), other as int) == read_at(bytes, other as int),
{
}

/// The machine's flat byte store of 4096 addresses.
pub struct Memory {
    memory: [u8; 4096],
}

impl View for Memory {
    type V = Seq<u8>;

    closed spec fn view(&self) -> Seq<u8> {
        self.memory@
    }
}

impl Memory {
    /// The view of every memory has one entry per address.
    pub proof fn lemma_size(&self)
        ensures
            self@.len() == TOTAL_MEMORY_BYTES,
    {
    }

    /// A memory in which every byte is zero.
    pub fn new() -> (m: Memory)
        ensures
            m@.len() == TOTAL_MEMORY_BYTES,
            forall|a: int| 0 <= a < TOTAL_MEMORY_BYTES ==> m@[a] == 0,
    {
        Memory { memory: [0x0; 4096] }
    }

    /// Stores `data` at `addr`. An address outside the memory is ignored.
    pub fn write(&mut self, addr: u16, data: u8)
        ensures
            final(self)@ == write_at(old(self)@, addr as int, data),
    {
        if addr as usize >= TOTAL_MEMORY_BYTES {
            return ;
        }
        self.memory[addr as usize] = data;
    }

    /// The byte at `addr`, or zero for an address outside the memory.
    pub fn read(&self, addr: u16) -> (data: u8)
        ensures
            data == read_at(self@, addr as int),
    {
        if addr as usize >= TOTAL_MEMORY_BYTES {
            return 0x0;
        }
        self.memory[addr as usize]
    }
}

} // verus!
