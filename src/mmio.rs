use vstd::prelude::*;

use crate::buffer::{Addressable, Memory, ADDRESS_SPACE, OPEN_BUS};

verus! {

pub const CACHED_KERNEL_MEMORY_START: u32 = 0x8000_0000;
pub const UNCACHED_KERNEL_MEMORY_START: u32 = 0xA000_0000;
pub const VIRTUAL_MEMORY_START: u32 = 0xC000_0000;

/// The four fixed architectural segments of the address space.
#[derive(Clone, Copy, Debug, PartialEq, Eq, Structural)]
pub enum Segment {
    /// 2 GiB user segment.
    User,
    /// 512 MiB cached kernel segment.
    CachedKernel,
    /// 512 MiB uncached kernel segment.
    UncachedKernel,
    /// 1 GiB kernel segment 2, the rest of the space.
    Kernel2,
}

pub open spec fn spec_segment_of(addr: u32) -> Segment {
    if addr < CACHED_KERNEL_MEMORY_START {
        Segment::User
    } else if addr < UNCACHED_KERNEL_MEMORY_START {
        Segment::CachedKernel
    } else if addr < VIRTUAL_MEMORY_START {
        Segment::UncachedKernel
    } else {
        Segment::Kernel2
    }
}

/// The segment that holds `addr`; every address lies in exactly one.
pub fn segment_of(addr: u32) -> (r: Segment)
    ensures
        r == spec_segment_of(addr),
{
    if addr < CACHED_KERNEL_MEMORY_START {
        Segment::User
    } else if addr < UNCACHED_KERNEL_MEMORY_START {
        Segment::CachedKernel
    } else if addr < VIRTUAL_MEMORY_START {
        Segment::UncachedKernel
    } else {
        Segment::Kernel2
    }
}

/// Why a memory window could not be placed on the bus.
#[derive(Clone, Copy, Debug, PartialEq, Eq, Structural)]
pub enum MapError {
    /// The window has no bytes.
    Empty,
    /// The window runs past the end of the address space.
    OutOfRange,
    /// The window shares an address with one already mapped.
    Overlap,
}

/// Two non-empty ranges `[a, a + n)` and `[b, b + m)` share an address.
pub open spec fn ranges_overlap(a: int, n: int, b: int, m: int) -> bool {
    a < b + m && b < a + n
}

/// The memory bus: a table of memory windows on the 32-bit address space.
/// An address that no window covers is open bus.
#[derive(Debug)]
pub struct Mmio {
    regions: Vec<Memory>,
}

/// The byte the bus answers at `addr`, given its windows.
pub open spec fn bus_byte(regions: Seq<Memory>, addr: u32) -> u8 {
    if exists|i: int| 0 <= i < regions.len() && (#[trigger] regions[i]).covers(addr) {
        let i = choose|i: int| 0 <= i < regions.len() && (#[trigger] regions[i]).covers(addr);
        regions[i].data@[addr - regions[i].start]
    } else {
        OPEN_BUS
    }
}

impl Mmio {
    /// The mapped windows, in the order they were mapped.
    pub closed spec fn regions(&self) -> Seq<Memory> {
        self.regions@
    }

    /// Every window lies inside the address space, holds at least one byte,
    /// and no two windows share an address.
    pub open spec fn regions_wf(regions: Seq<Memory>) -> bool {
        &&& forall|i: int| 0 <= i < regions.len() ==> (#[trigger] regions[i]).wf()
        &&& forall|i: int| 0 <= i < regions.len() ==> (#[trigger] regions[i]).data@.len() > 0
        &&& forall|i: int, j: int|
            0 <= i < regions.len() && 0 <= j < regions.len() && i != j ==> !ranges_overlap(
                (#[trigger] regions[i]).start as int,
                regions[i].data@.len() as int,
                (#[trigger] regions[j]).start as int,
                regions[j].data@.len() as int,
            )
    }

    /// A bus with nothing mapped: every read is open bus.
    pub fn new() -> (r: Mmio)
        ensures
            r.regions().len() == 0,
            r.wf(),
    {
        Mmio { regions: Vec::new() }
    }

    /// Zero the contents of every mapped window; the windows stay mapped.
    pub fn reset(&mut self)
        requires
            old(self).wf(),
        ensures
            final(self).wf(),
            final(self).regions().len() == old(self).regions().len(),
            forall|i: int|
                0 <= i < final(self).regions().len() ==> {
                    &&& (#[trigger] final(self).regions()[i]).start == old(self).regions()[i].start
                    &&& final(self).regions()[i].data@.len() == old(self).regions()[i].data@.len()
                    &&& final(self).regions()[i].is_zeroed()
                },
    {
        let mut fresh: Vec<Memory> = Vec::new();
        let mut i: usize = 0;
        while i < self.regions.len()
            invariant
                Mmio::regions_wf(self.regions@),
                i <= self.regions@.len(),
                fresh@.len() == i,
                forall|k: int|
                    0 <= k < i ==> {
                        &&& (#[trigger] fresh@[k]).start == self.regions@[k].start
                        &&& fresh@[k].data@.len() == self.regions@[k].data@.len()
                        &&& fresh@[k].is_zeroed()
                        &&& fresh@[k].wf()
                    },
            decreases self.regions@.len() - i,
        {
            let r = &self.regions[i];
            fresh.push(Memory::new(r.start, r.data.len()));
            i += 1;
        }
        self.regions = fresh;
    }

    /// Index of the window that covers `addr`, if any.
    fn find(&self, addr: u32) -> (r: Option<usize>)
        requires
            self.wf(),
        ensures
            match r {
                Some(i) => i < self.regions@.len() && self.regions@[i as int].covers(addr),
                None => forall|i: int|
                    0 <= i < self.regions@.len() ==> !(#[trigger] self.regions@[i]).covers(addr),
            },
    {
        let mut i: usize = 0;
        while i < self.regions.len()
            invariant
                i <= self.regions@.len(),
                forall|k: int| 0 <= k < i ==> !(#[trigger] self.regions@[k]).covers(addr),
            decreases self.regions@.len() - i,
        {
            let r = &self.regions[i];
            if r.start <= addr && ((addr - r.start) as usize) < r.data.len() {
                return Some(i);
            }
            i += 1;
        }
        None
    }

    /// `after` is this bus once `map_region(start, size)` has returned `r`.
    pub open spec fn map_region_gives(
        self,
        after: Mmio,
        start: u32,
        size: usize,
        r: Result<(), MapError>,
    ) -> bool {
        &&& r == (if size == 0 {
            Err::<(), MapError>(MapError::Empty)
        } else if start as int + size as int > ADDRESS_SPACE as int {
            Err(MapError::OutOfRange)
        } else if exists|i: int|
            0 <= i < self.regions().len() && ranges_overlap(
                (#[trigger] self.regions()[i]).start as int,
                self.regions()[i].data@.len() as int,
                start as int,
                size as int,
            ) {
            Err(MapError::Overlap)
        } else {
            Ok(())
        })
        &&& r is Ok ==> {
            &&& after.regions().len() == self.regions().len() + 1
            &&& after.regions().drop_last() == self.regions()
            &&& after.regions().last().start == start
            &&& after.regions().last().data@.len() == size
            &&& after.regions().last().is_zeroed()
        }
        &&& r is Err ==> after == self
    }

    /// Place a zero-filled window of `size` bytes at `start`.
    pub fn map_region(&mut self, start: u32, size: usize) -> (r: Result<(), MapError>)
        requires
            old(self).wf(),
        ensures
            final(self).wf(),
            old(self).map_region_gives(*final(self), start, size, r),
    {
        if size == 0 {
            return Err(MapError::Empty);
        }
        if size as u64 > ADDRESS_SPACE - start as u64 {
            return Err(MapError::OutOfRange);
        }
        let mut i: usize = 0;
        while i < self.regions.len()
            invariant
                *self == *old(self),
                self.wf(),
                size > 0,
                start as int + size as int <= ADDRESS_SPACE as int,
                i <= self.regions@.len(),
                forall|k: int|
                    0 <= k < i ==> !ranges_overlap(
                        (#[trigger] self.regions@[k]).start as int,
                        self.regions@[k].data@.len() as int,
                        start as int,
                        size as int,
                    ),
            decreases self.regions@.len() - i,
        {
            let r = &self.regions[i];
            if (r.start as u64) < start as u64 + size as u64 && (start as u64) < r.start as u64
                + r.data.len() as u64 {
                return Err(MapError::Overlap);
            }
            i += 1;
        }
        let m = Memory::new(start, size);
        self.regions.push(m);
        assert(self.regions@.drop_last() =~= old(self).regions@);
        Ok(())
    }
}

/// `a` and `b` map the same windows with the same contents.
pub open spec fn same_windows(a: Seq<Memory>, b: Seq<Memory>) -> bool {
    &&& a.len() == b.len()
    &&& forall|i: int|
        0 <= i < a.len() ==> (#[trigger] a[i]).start == b[i].start && a[i].data@ == b[i].data@
}

impl Clone for Mmio {
    fn clone(&self) -> (r: Mmio)
        ensures
            same_windows(r.regions(), self.regions()),
            self.wf() ==> r.wf(),
    {
        let mut regions: Vec<Memory> = Vec::new();
        let mut i: usize = 0;
        while i < self.regions.len()
            invariant
                i <= self.regions@.len(),
                same_windows(regions@, self.regions@.subrange(0, i as int)),
            decreases self.regions@.len() - i,
        {
            regions.push(self.regions[i].clone());
            i += 1;
        }
        assert(self.regions@.subrange(0, self.regions@.len() as int) =~= self.regions@);
        Mmio { regions }
    }
}

impl Addressable for Mmio {
    open spec fn wf(&self) -> bool {
        Mmio::regions_wf(self.regions())
    }

    open spec fn byte_at(&self, addr: u32) -> u8 {
        bus_byte(self.regions(), addr)
    }

    open spec fn write_gives(&self, after: &Mmio, addr: u32, value: u8) -> bool {
        &&& after.regions().len() == self.regions().len()
        &&& forall|i: int|
            0 <= i < self.regions().len() ==> (#[trigger] self.regions()[i]).write_gives(
                &after.regions()[i],
                addr,
                value,
            )
    }

    fn read(&self, addr: u32) -> (r: u8) {
        match self.find(addr) {
            Some(i) => {
                let r = self.regions[i].read(addr);
                proof {
                    let j = choose|j: int|
                        0 <= j < self.regions@.len() && (#[trigger] self.regions@[j]).covers(addr);
                    if j != i as int {
                        assert(ranges_overlap(
                            self.regions@[i as int].start as int,
                            self.regions@[i as int].data@.len() as int,
                            self.regions@[j].start as int,
                            self.regions@[j].data@.len() as int,
                        ));
                    }
                }
                r
            },
            None => OPEN_BUS,
        }
    }

    fn write(&mut self, addr: u32, value: u8) {
        match self.find(addr) {
            Some(i) => {
                let mut region = self.regions.remove(i);
                region.write(addr, value);
                self.regions.insert(i, region);
                proof {
                    let old_r = old(self).regions@;
                    let new_r = self.regions@;
                    assert forall|k: int| 0 <= k < old_r.len() implies (
                    #[trigger] old_r[k]).write_gives(&new_r[k], addr, value) by {
                        if k != i as int {
                            assert(new_r[k] == old_r[k]);
                            if old_r[k].covers(addr) {
                                assert(ranges_overlap(
                                    old_r[i as int].start as int,
                                    old_r[i as int].data@.len() as int,
                                    old_r[k].start as int,
                                    old_r[k].data@.len() as int,
                                ));
                            }
                        }
                    }
                }
            },
            None => {},
        }
    }
}

} // verus!
