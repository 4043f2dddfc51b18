//! The byte memory and the ports that a core works on.
//!
//! Memory is a flat run of bytes of a size fixed when it is made. Numbers lie
//! in it least significant byte first. The ports are a fixed run of machine
//! words. Both refuse an access outside of what they hold.

use vstd::prelude::*;
use vstd::slice::slice_subrange;
use crate::number::{
    Data, Size, le_value, lemma_data_round_trip, lemma_le_bytes_len,
};

verus! {

/// The number of ports.
pub const PORTS: usize = 8;

/// An access outside the memory.
#[derive(Debug, Clone, Copy, PartialEq, Eq, Structural)]
pub struct MemoryRange {}

/// An access outside the ports.
#[derive(Debug, Clone, Copy, PartialEq, Eq, Structural)]
pub struct PortRange {}

/// Whether the `count` bytes from `address` on lie within `length` bytes.
pub open spec fn in_range(length: nat, address: u64, count: nat) -> bool {
    address + count <= length
}

/// The number of width `width` that lies at `address` in `bytes`.
pub open spec fn number_at(bytes: Seq<u8>, address: u64, width: Size) -> Data {
    Data::assembled(
        width,
        le_value(bytes.subrange(address as int, address + width.spec_size())),
    )
}

/// `bytes` with the run `written` put over what was at `address`.
pub open spec fn overwritten(bytes: Seq<u8>, address: u64, written: Seq<u8>) -> Seq<u8> {
    bytes.subrange(0, address as int) + written + bytes.subrange(
        address + written.len(),
        bytes.len() as int,
    )
}

#[derive(Debug)]
pub struct Memory {
    pub bytes: Vec<u8>,
}

impl Memory {
    /// The memory that holds `bytes`.
    pub fn from(bytes: Vec<u8>) -> (memory: Memory)
        ensures
            memory.bytes@ == bytes@,
    {
        Memory { bytes }
    }

    /// Whether `count` bytes from `address` on lie within the memory.
    pub fn holds(&self, address: u64, count: u8) -> (holds: bool)
        ensures
            holds == in_range(self.bytes@.len(), address, count as nat),
            holds ==> address + count <= usize::MAX,
    {
        let length: usize = self.bytes.len();
        address <= usize::MAX as u64 && address as usize <= length && length - address as usize
            >= count as usize
    }

    /// The number of width `width` at `address`.
    pub fn read(&self, address: u64, width: Size) -> (data: Result<Data, MemoryRange>)
        ensures
            in_range(self.bytes@.len(), address, width.spec_size() as nat) ==> data == Ok::<
                Data,
                MemoryRange,
            >(number_at(self.bytes@, address, width)),
            !in_range(self.bytes@.len(), address, width.spec_size() as nat) ==> data is Err,
    {
        let count: u8 = width.size();
        if !self.holds(address, count) {
            return Err(MemoryRange {});
        }
        let start: usize = address as usize;
        let run: &[u8] = slice_subrange(self.bytes.as_slice(), start, start + count as usize);
        Ok(Data::from_le_bytes(width, run))
    }

    /// Put `data` at `address`. Outside the range nothing is written.
    pub fn write(&mut self, address: u64, data: Data) -> (written: Result<(), MemoryRange>)
        ensures
            in_range(old(self).bytes@.len(), address, data.spec_size().spec_size() as nat)
                ==> written is Ok && final(self).bytes@ == overwritten(
                old(self).bytes@,
                address,
                data.spec_le_bytes(),
            ),
            !in_range(old(self).bytes@.len(), address, data.spec_size().spec_size() as nat)
                ==> written is Err && final(self).bytes@ == old(self).bytes@,
            final(self).bytes@.len() == old(self).bytes@.len(),
    {
        let count: u8 = data.size().size();
        if !self.holds(address, count) {
            return Err(MemoryRange {});
        }
        let start: usize = address as usize;
        let run: Vec<u8> = data.to_le_bytes();
        let ghost before = self.bytes@;
        let mut done: usize = 0;
        assert(self.bytes@ =~= overwritten(before, address, run@.take(0)));
        while done < count as usize
            invariant
                done <= count,
                run@.len() == count,
                start == address,
                start + count <= before.len(),
                start + count <= usize::MAX,
                self.bytes@ == overwritten(before, address, run@.take(done as int)),
            decreases count - done,
        {
            self.bytes[start + done] = run[done];
            done = done + 1;
            assert(self.bytes@ =~= overwritten(before, address, run@.take(done as int)));
        }
        assert(run@.take(done as int) =~= run@);
        Ok(())
    }
}

#[derive(Debug)]
pub struct Ports {
    pub words: [u64; 8],
}

impl Ports {
    /// The word at port `index`.
    pub fn read(&self, index: u64) -> (word: Result<u64, PortRange>)
        ensures
            index < PORTS ==> word == Ok::<u64, PortRange>(self.words[index as int]),
            index >= PORTS ==> word is Err,
    {
        if index < PORTS as u64 {
            Ok(self.words[index as usize])
        } else {
            Err(PortRange {})
        }
    }

    /// Put `word` at port `index`. Outside the range nothing is written.
    pub fn write(&mut self, index: u64, word: u64) -> (written: Result<(), PortRange>)
        ensures
            index < PORTS ==> written is Ok && final(self).words@ == old(self).words@.update(
                index as int,
                word,
            ),
            index >= PORTS ==> written is Err && final(self).words@ == old(self).words@,
    {
        if index < PORTS as u64 {
            self.words[index as usize] = word;
            Ok(())
        } else {
            Err(PortRange {})
        }
    }
}

impl Default for Ports {
    fn default() -> (ports: Ports)
        ensures
            forall|index: int| 0 <= index < PORTS ==> ports.words[index] == 0,
    {
        Ports { words: [0u64; 8] }
    }
}

/// A number that was written is read again at the same address, and the
/// byte at `address + k` is byte `k` of the number, least significant first.
/// Bytes outside the run are as they were.
pub proof fn lemma_read_after_write(bytes: Seq<u8>, address: u64, data: Data)
    requires
        in_range(bytes.len(), address, data.spec_size().spec_size() as nat),
    ensures
        overwritten(bytes, address, data.spec_le_bytes()).len() == bytes.len(),
        number_at(overwritten(bytes, address, data.spec_le_bytes()), address, data.spec_size())
            == data,
        forall|k: int|
            0 <= k < data.spec_size().spec_size() ==> #[trigger] overwritten(
                bytes,
                address,
                data.spec_le_bytes(),
            )[address + k] == data.spec_le_bytes()[k],
        forall|k: int|
            0 <= k < bytes.len() && !(address <= k < address + data.spec_size().spec_size())
                ==> #[trigger] overwritten(bytes, address, data.spec_le_bytes())[k] == bytes[k],
{
    let run = data.spec_le_bytes();
    let after = overwritten(bytes, address, run);
    lemma_data_round_trip(data);
    lemma_le_bytes_len(data.spec_value() as nat, data.spec_size().spec_size() as nat);
    assert(after.subrange(address as int, address + data.spec_size().spec_size()) =~= run);
}

} // verus!
