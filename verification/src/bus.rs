//! The bus: which region of a peripheral owns an address, and what a
//! peripheral offers to its driver.

use vstd::prelude::*;
use crate::types::{BusError, RvAddr, RvData, RvSize};

verus! {

/// A range of addresses that one memory or one register of a peripheral
/// answers for.
#[derive(Clone, Copy, Debug)]
pub struct Region {
    /// The first address of the range.
    pub offset: RvAddr,
    /// The number of addresses in the range.
    pub size: u32,
    /// The bits of an address that pick the place inside the range.
    pub mask: u32,
}

impl Region {
    /// The range holds an address and ends inside the address space.
    pub open spec fn wf(&self) -> bool {
        1 <= self.size && self.offset + self.size <= 0x1_0000_0000
    }

    /// Whether `addr` lies in the range.
    pub open spec fn spec_contains(&self, addr: RvAddr) -> bool {
        self.offset <= addr && addr - self.offset < self.size
    }

    /// Whether the two ranges share an address.
    pub open spec fn spec_overlaps(&self, other: Region) -> bool {
        self.offset < other.offset + other.size && other.offset < self.offset + self.size
    }

    /// The address inside the range that `addr` stands for.
    pub open spec fn spec_local(&self, addr: RvAddr) -> RvAddr {
        addr & self.mask
    }

    /// Whether `addr` lies in the range.
    #[verifier::when_used_as_spec(spec_contains)]
    pub fn contains(&self, addr: RvAddr) -> (r: bool)
        ensures
            r == self.spec_contains(addr),
    {
        self.offset <= addr && addr - self.offset < self.size
    }

    /// Whether the two ranges share an address.
    #[verifier::when_used_as_spec(spec_overlaps)]
    pub fn overlaps(&self, other: Region) -> (r: bool)
        ensures
            r == self.spec_overlaps(other),
    {
        (self.offset as u64) < other.offset as u64 + other.size as u64 && (other.offset as u64)
            < self.offset as u64 + self.size as u64
    }

    /// The address inside the range that `addr` stands for.
    #[verifier::when_used_as_spec(spec_local)]
    pub fn local(&self, addr: RvAddr) -> (r: RvAddr)
        ensures
            r == self.spec_local(addr),
    {
        addr & self.mask
    }
}

/// Every region is well formed, and no two of them share an address.
pub open spec fn regions_disjoint(regions: Seq<Region>) -> bool {
    &&& forall|i: int| 0 <= i < regions.len() ==> (#[trigger] regions[i]).wf()
    &&& forall|i: int, j: int|
        0 <= i < regions.len() && 0 <= j < regions.len() && i != j ==> !(#[trigger] regions[i]).overlaps(
            #[trigger] regions[j],
        )
}

/// No region of `regions` holds `addr`.
pub open spec fn unowned(regions: Seq<Region>, addr: RvAddr) -> bool {
    forall|i: int| 0 <= i < regions.len() ==> !(#[trigger] regions[i]).contains(addr)
}

/// The regions of one peripheral, each in the slot that it was registered in.
pub struct AddressMap {
    regions: Vec<Region>,
}

impl View for AddressMap {
    type V = Seq<Region>;

    closed spec fn view(&self) -> Seq<Region> {
        self.regions@
    }
}

impl AddressMap {
    #[verifier::type_invariant]
    spec fn inv(&self) -> bool {
        regions_disjoint(self@)
    }

    /// A map without regions.
    pub fn new() -> (map: AddressMap)
        ensures
            map@ == Seq::<Region>::empty(),
    {
        AddressMap { regions: Vec::new() }
    }

    /// The number of regions in the map.
    pub fn len(&self) -> (n: usize)
        ensures
            n == self@.len(),
            regions_disjoint(self@),
    {
        proof {
            use_type_invariant(self);
        }
        self.regions.len()
    }

    /// Whether `region` shares an address with a region of the map.
    pub fn overlaps_any(&self, region: Region) -> (r: bool)
        ensures
            r == exists|i: int| 0 <= i < self@.len() && (#[trigger] self@[i]).overlaps(region),
    {
        let mut i: usize = 0;
        while i < self.regions.len()
            invariant
                i <= self.regions.len(),
                self@ == self.regions@,
                forall|k: int| 0 <= k < i ==> !(#[trigger] self@[k]).overlaps(region),
            decreases self.regions.len() - i,
        {
            if self.regions[i].overlaps(region) {
                return true;
            }
            i = i + 1;
        }
        false
    }

    /// Adds `region` to the map and returns its slot. A region that is
    /// malformed, or that shares an address with one of the map, is turned
    /// down: the map stays as it was.
    pub fn register(&mut self, region: Region) -> (slot: Option<usize>)
        ensures
            regions_disjoint(old(self)@),
            regions_disjoint(final(self)@),
            slot is Some <==> region.wf() && !(exists|i: int|
                0 <= i < old(self)@.len() && (#[trigger] old(self)@[i]).overlaps(region)),
            slot matches Some(s) ==> s == old(self)@.len() && final(self)@ == old(self)@.push(
                region,
            ),
            slot is None ==> final(self)@ == old(self)@,
    {
        proof {
            use_type_invariant(&*self);
        }
        let well_formed = 1 <= region.size && region.offset as u64 + region.size as u64
            <= 0x1_0000_0000u64;
        if !well_formed || self.overlaps_any(region) {
            return None;
        }
        let mut regions: Vec<Region> = Vec::new();
        core::mem::swap(&mut regions, &mut self.regions);
        let slot: usize = regions.len();
        regions.push(region);
        self.regions = regions;
        Some(slot)
    }

    /// The slot of the region that owns `addr`, with the address inside that
    /// region; `None` where no region owns it. At most one region does.
    pub fn decode(&self, addr: RvAddr) -> (r: Option<(usize, RvAddr)>)
        ensures
            r is None <==> unowned(self@, addr),
            r matches Some((slot, local)) ==> {
                &&& slot < self@.len()
                &&& self@[slot as int].contains(addr)
                &&& local == self@[slot as int].local(addr)
                &&& forall|j: int|
                    0 <= j < self@.len() && (#[trigger] self@[j]).contains(addr) ==> j == slot
            },
    {
        proof {
            use_type_invariant(self);
        }
        let mut i: usize = 0;
        while i < self.regions.len()
            invariant
                i <= self.regions.len(),
                self@ == self.regions@,
                regions_disjoint(self@),
                forall|k: int| 0 <= k < i ==> !(#[trigger] self@[k]).contains(addr),
            decreases self.regions.len() - i,
        {
            let region = self.regions[i];
            if region.contains(addr) {
                return Some((i, region.local(addr)));
            }
            i = i + 1;
        }
        None
    }
}

/// Among regions that share no address, at most one owns a given address.
pub proof fn lemma_owner_is_unique(regions: Seq<Region>, addr: RvAddr, slot: int)
    requires
        regions_disjoint(regions),
        0 <= slot < regions.len(),
        regions[slot].contains(addr),
    ensures
        forall|j: int| 0 <= j < regions.len() && (#[trigger] regions[j]).contains(addr) ==> j == slot,
{
}

/// What a peripheral offers to its driver: reads and writes by address, and
/// a hook that is called whenever time has moved. Each peripheral says, by
/// three relations, what its reads, its writes and its polls do. A
/// peripheral keeps no time of its own: a write, which may start a wait, and
/// a poll, which may end one, are told the tick of the clock.
pub trait Bus {
    /// How the peripheral after a read of `size` at `addr`, and what the
    /// read returned, relate to the peripheral before it.
    spec fn reads(&self, size: RvSize, addr: RvAddr, after: &Self, r: Result<RvData, BusError>) -> bool;

    /// How the peripheral after a write of `val` with `size` at `addr`, made
    /// at the tick `now`, and what the write returned, relate to the
    /// peripheral before it.
    spec fn writes(
        &self,
        now: u64,
        size: RvSize,
        addr: RvAddr,
        val: RvData,
        after: &Self,
        r: Result<(), BusError>,
    ) -> bool;

    /// How the peripheral after a call of `poll` at the tick `now` relates
    /// to the peripheral before it.
    spec fn polled(&self, now: u64, after: &Self) -> bool;

    /// Reads `size` bytes at `addr`.
    fn read(&mut self, size: RvSize, addr: RvAddr) -> (r: Result<RvData, BusError>)
        ensures
            old(self).reads(size, addr, final(self), r),
    ;

    /// Writes the `size` low bytes of `val` at `addr`. The time is `now`.
    fn write(&mut self, now: u64, size: RvSize, addr: RvAddr, val: RvData) -> (r: Result<
        (),
        BusError,
    >)
        ensures
            old(self).writes(now, size, addr, val, final(self), r),
    ;

    /// Tells the peripheral that the time is now `now`.
    fn poll(&mut self, now: u64)
        ensures
            old(self).polled(now, final(self)),
    ;
}

} // verus!
