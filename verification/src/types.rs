//! Plain types that every bus access is made of.

use vstd::prelude::*;

verus! {

/// An address on the bus.
pub type RvAddr = u32;

/// A data word on the bus.
pub type RvData = u32;

/// The width of one bus access.
#[derive(Clone, Copy, Debug, PartialEq, Eq, Structural)]
pub enum RvSize {
    /// One byte.
    Byte,
    /// Two bytes.
    HalfWord,
    /// Four bytes.
    Word,
    /// No width that the bus knows; every access of it fails.
    Invalid,
}

/// Why a bus access failed.
#[derive(Clone, Copy, Debug, PartialEq, Eq, Structural)]
pub enum BusError {
    /// A read at an address that is no multiple of the access width, or of
    /// a width that the memory does not take.
    LoadAddrMisaligned,
    /// A read at an address that nothing owns, or of a width that the
    /// register does not take.
    LoadAccessFault,
    /// A write at an address that is no multiple of the access width, or of
    /// a width that the memory does not take.
    StoreAddrMisaligned,
    /// A write at an address that nothing owns, or of a width that the
    /// register does not take.
    StoreAccessFault,
}

/// `len` zero bytes.
pub open spec fn zeros(len: nat) -> Seq<u8> {
    Seq::new(len, |i: int| 0u8)
}

impl RvSize {
    /// The number of bytes that an access of this width moves; zero for the
    /// invalid width.
    pub open spec fn spec_bytes(self) -> u32 {
        match self {
            RvSize::Byte => 1,
            RvSize::HalfWord => 2,
            RvSize::Word => 4,
            RvSize::Invalid => 0,
        }
    }

    /// The number of bytes that an access of this width moves.
    pub fn bytes(self) -> (n: u32)
        ensures
            n == self.spec_bytes(),
    {
        match self {
            RvSize::Byte => 1,
            RvSize::HalfWord => 2,
            RvSize::Word => 4,
            RvSize::Invalid => 0,
        }
    }

    /// Whether `addr` is a multiple of this width. The invalid width puts no
    /// condition on the address: an access of that width fails where it
    /// arrives.
    pub open spec fn spec_is_aligned(self, addr: RvAddr) -> bool {
        match self {
            RvSize::Byte => true,
            RvSize::HalfWord => addr % 2 == 0,
            RvSize::Word => addr % 4 == 0,
            RvSize::Invalid => true,
        }
    }

    /// Whether `addr` is a multiple of this width.
    pub fn is_aligned(self, addr: RvAddr) -> (r: bool)
        ensures
            r == self.spec_is_aligned(addr),
    {
        match self {
            RvSize::Byte => true,
            RvSize::HalfWord => addr % 2 == 0,
            RvSize::Word => addr % 4 == 0,
            RvSize::Invalid => true,
        }
    }
}

} // verus!
