//! A byte buffer that the bus reads and writes one word at a time.

use vstd::prelude::*;
use crate::bus::Bus;
use crate::types::{zeros, BusError, RvAddr, RvData, RvSize};

verus! {

/// The word whose bytes, lowest first, are `b0`, `b1`, `b2` and `b3`.
pub open spec fn le_word(b0: u8, b1: u8, b2: u8, b3: u8) -> u32 {
    (b0 as u32) | ((b1 as u32) << 8) | ((b2 as u32) << 16) | ((b3 as u32) << 24)
}

/// Byte `i` of the word `val`, counted from the lowest.
pub open spec fn le_byte(val: u32, i: u32) -> u8 {
    ((val >> (8 * i) as u32) & 0xff) as u8
}

/// The word that the four bytes of `data` from `addr` on make, lowest byte
/// first.
pub open spec fn word_at(data: Seq<u8>, addr: int) -> u32 {
    le_word(data[addr], data[addr + 1], data[addr + 2], data[addr + 3])
}

/// `data` with the four bytes from `addr` on replaced by the bytes of `val`,
/// lowest byte first.
pub open spec fn with_word_at(data: Seq<u8>, addr: int, val: u32) -> Seq<u8> {
    data.update(addr, le_byte(val, 0)).update(addr + 1, le_byte(val, 1)).update(
        addr + 2,
        le_byte(val, 2),
    ).update(addr + 3, le_byte(val, 3))
}

/// Whether a buffer of `len` bytes takes an access of `size` at `addr`: the
/// access is one word wide, at a multiple of four, inside the buffer.
pub open spec fn word_access_ok(len: int, size: RvSize, addr: RvAddr) -> bool {
    size == RvSize::Word && addr % 4 == 0 && addr + 4 <= len
}

/// What a read of `size` at `addr` from the buffer `data` returns.
pub open spec fn memory_read(data: Seq<u8>, size: RvSize, addr: RvAddr) -> Result<RvData, BusError> {
    if size != RvSize::Word || addr % 4 != 0 {
        Err(BusError::LoadAddrMisaligned)
    } else if addr + 4 > data.len() {
        Err(BusError::LoadAccessFault)
    } else {
        Ok(word_at(data, addr as int))
    }
}

/// What a write of `size` at `addr` to the buffer `data` returns.
pub open spec fn memory_write_result(data: Seq<u8>, size: RvSize, addr: RvAddr) -> Result<
    (),
    BusError,
> {
    if size != RvSize::Word || addr % 4 != 0 {
        Err(BusError::StoreAddrMisaligned)
    } else if addr + 4 > data.len() {
        Err(BusError::StoreAccessFault)
    } else {
        Ok(())
    }
}

/// The buffer `data` after a write of `val` with `size` at `addr`: a write
/// that fails changes nothing.
pub open spec fn memory_write(data: Seq<u8>, size: RvSize, addr: RvAddr, val: RvData) -> Seq<u8> {
    if word_access_ok(data.len() as int, size, addr) {
        with_word_at(data, addr as int, val)
    } else {
        data
    }
}

/// A buffer of `N` bytes, addressed by words.
pub struct ReadWriteMemory<const N: usize> {
    data: [u8; N],
}

impl<const N: usize> View for ReadWriteMemory<N> {
    type V = Seq<u8>;

    closed spec fn view(&self) -> Seq<u8> {
        self.data@
    }
}

impl<const N: usize> ReadWriteMemory<N> {
    /// A buffer of zero bytes.
    pub fn new() -> (mem: Self)
        ensures
            mem@ == zeros(N as nat),
    {
        let mem = ReadWriteMemory { data: [0u8;N] };
        mem
    }

    /// The bytes of the buffer.
    pub fn data(&self) -> (bytes: &[u8; N])
        ensures
            bytes@ == self@,
    {
        &self.data
    }

    /// The number of bytes in the buffer.
    pub fn size(&self) -> (n: usize)
        ensures
            n == N,
            self@.len() == N,
    {
        N
    }
}

impl<const N: usize> Bus for ReadWriteMemory<N> {
    /// A read returns the word at `addr` and leaves the buffer as it is.
    open spec fn reads(
        &self,
        size: RvSize,
        addr: RvAddr,
        after: &Self,
        r: Result<RvData, BusError>,
    ) -> bool {
        r == memory_read(self@, size, addr) && after@ == self@
    }

    /// A write stores the word `val` at `addr`, or fails and changes
    /// nothing, at whatever time it is made.
    open spec fn writes(
        &self,
        now: u64,
        size: RvSize,
        addr: RvAddr,
        val: RvData,
        after: &Self,
        r: Result<(), BusError>,
    ) -> bool {
        r == memory_write_result(self@, size, addr) && after@ == memory_write(self@, size, addr, val)
    }

    /// A buffer does nothing as time passes.
    open spec fn polled(&self, now: u64, after: &Self) -> bool {
        after@ == self@
    }

    /// Reads the word at `addr`. Nothing but an aligned access of one word
    /// inside the buffer is answered.
    fn read(&mut self, size: RvSize, addr: RvAddr) -> (r: Result<RvData, BusError>)
        ensures
            r == memory_read(old(self)@, size, addr),
            final(self)@ == old(self)@,
    {
        match size {
            RvSize::Word => {},
            _ => {
                return Err(BusError::LoadAddrMisaligned);
            },
        }
        if addr % 4 != 0 {
            return Err(BusError::LoadAddrMisaligned);
        }
        if addr as u64 + 4 > N as u64 {
            return Err(BusError::LoadAccessFault);
        }
        let i: usize = addr as usize;
        let b0: u8 = self.data[i];
        let b1: u8 = self.data[i + 1];
        let b2: u8 = self.data[i + 2];
        let b3: u8 = self.data[i + 3];
        Ok((b0 as u32) | ((b1 as u32) << 8) | ((b2 as u32) << 16) | ((b3 as u32) << 24))
    }

    /// Writes the word `val` at `addr`. Nothing but an aligned access of one
    /// word inside the buffer is taken; any other leaves the buffer as it is.
    fn write(&mut self, now: u64, size: RvSize, addr: RvAddr, val: RvData) -> (r: Result<
        (),
        BusError,
    >)
        ensures
            r == memory_write_result(old(self)@, size, addr),
            final(self)@ == memory_write(old(self)@, size, addr, val),
    {
        match size {
            RvSize::Word => {},
            _ => {
                return Err(BusError::StoreAddrMisaligned);
            },
        }
        if addr % 4 != 0 {
            return Err(BusError::StoreAddrMisaligned);
        }
        if addr as u64 + 4 > N as u64 {
            return Err(BusError::StoreAccessFault);
        }
        let i: usize = addr as usize;
        assert(le_byte(val, 0) == (val & 0xff) as u8 && le_byte(val, 1) == ((val >> 8) & 0xff) as u8
            && le_byte(val, 2) == ((val >> 16) & 0xff) as u8 && le_byte(val, 3) == ((val >> 24)
            & 0xff) as u8) by (bit_vector);
        self.data[i] = (val & 0xff) as u8;
        self.data[i + 1] = ((val >> 8) & 0xff) as u8;
        self.data[i + 2] = ((val >> 16) & 0xff) as u8;
        self.data[i + 3] = ((val >> 24) & 0xff) as u8;
        Ok(())
    }

    fn poll(&mut self, now: u64) {
    }
}

/// A buffer of `N` bytes holds `N` bytes.
pub proof fn lemma_memory_len<const N: usize>(mem: ReadWriteMemory<N>)
    ensures
        mem@.len() == N,
{
}

/// A word that was written is the word that is read back.
pub proof fn lemma_read_after_write(data: Seq<u8>, addr: RvAddr, val: RvData)
    requires
        word_access_ok(data.len() as int, RvSize::Word, addr),
    ensures
        memory_read(memory_write(data, RvSize::Word, addr, val), RvSize::Word, addr) == Ok::<
            RvData,
            BusError,
        >(val),
{
    lemma_word_of_bytes(val);
}

/// A word is made of its four bytes.
pub proof fn lemma_word_of_bytes(val: u32)
    ensures
        le_word(le_byte(val, 0), le_byte(val, 1), le_byte(val, 2), le_byte(val, 3)) == val,
{
    assert(le_word(le_byte(val, 0), le_byte(val, 1), le_byte(val, 2), le_byte(val, 3)) == val)
        by (bit_vector);
}

/// A write of a word changes the four bytes that it names and no other.
pub proof fn lemma_write_is_local(data: Seq<u8>, addr: RvAddr, val: RvData, i: int)
    requires
        word_access_ok(data.len() as int, RvSize::Word, addr),
        0 <= i < data.len(),
        i < addr || addr + 4 <= i,
    ensures
        memory_write(data, RvSize::Word, addr, val).len() == data.len(),
        memory_write(data, RvSize::Word, addr, val)[i] == data[i],
{
}

} // verus!
