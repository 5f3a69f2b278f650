use vstd::prelude::*;

verus! {

/// Byte returned by a read that no device or memory window answers.
pub const OPEN_BUS: u8 = 0xFF;

/// Size of the 32-bit address space.
pub const ADDRESS_SPACE: u64 = 0x1_0000_0000;

/// Something the processor can read and write one byte at a time.
pub trait Addressable: Sized {
    /// The device's own consistency condition.
    spec fn wf(&self) -> bool;

    /// The byte a read at `addr` returns.
    spec fn byte_at(&self, addr: u32) -> u8;

    /// `after` is this device once `value` has been written at `addr`.
    spec fn write_gives(&self, after: &Self, addr: u32, value: u8) -> bool;

    fn read(&self, addr: u32) -> (r: u8)
        requires
            self.wf(),
        ensures
            r == self.byte_at(addr),
    ;

    fn write(&mut self, addr: u32, value: u8)
        requires
            old(self).wf(),
        ensures
            final(self).wf(),
            old(self).write_gives(&*final(self), addr, value),
    ;
}

/// A window of plain memory: `data.len()` bytes starting at address `start`.
/// Accesses outside the window are checked at run time: reads give
/// `OPEN_BUS` and writes are discarded.
#[derive(Debug)]
pub struct Memory {
    pub start: u32,
    pub data: Vec<u8>,
}

impl Memory {
    /// One past the last address of the window, as an integer.
    pub open spec fn end(&self) -> int {
        self.start as int + self.data@.len()
    }

    pub open spec fn covers(&self, addr: u32) -> bool {
        self.start <= addr && (addr as int) < self.end()
    }

    /// Every byte of the window is zero.
    pub open spec fn is_zeroed(&self) -> bool {
        forall|i: int| 0 <= i < self.data@.len() ==> self.data@[i] == 0
    }

    /// A zero-filled window of `size` bytes at `start`.
    pub fn new(start: u32, size: usize) -> (r: Memory)
        requires
            start as int + size as int <= ADDRESS_SPACE as int,
        ensures
            r.start == start,
            r.data@.len() == size,
            r.is_zeroed(),
            r.wf(),
    {
        let mut data: Vec<u8> = Vec::with_capacity(size);
        while data.len() < size
            invariant
                data@.len() <= size,
                forall|i: int| 0 <= i < data@.len() ==> data@[i] == 0,
            decreases size - data@.len(),
        {
            data.push(0);
        }
        Memory { start, data }
    }

    fn offset(&self, addr: u32) -> (r: usize)
        requires
            self.covers(addr),
        ensures
            r as int == addr - self.start,
            r < self.data@.len(),
    {
        (addr - self.start) as usize
    }
}

impl Clone for Memory {
    fn clone(&self) -> (r: Memory)
        ensures
            r.start == self.start,
            r.data@ == self.data@,
    {
        let r = Memory { start: self.start, data: self.data.clone() };
        assert(r.data@ =~= self.data@);
        r
    }
}

impl Addressable for Memory {
    open spec fn wf(&self) -> bool {
        self.end() <= ADDRESS_SPACE as int
    }

    open spec fn byte_at(&self, addr: u32) -> u8 {
        if self.covers(addr) {
            self.data@[addr - self.start]
        } else {
            OPEN_BUS
        }
    }

    open spec fn write_gives(&self, after: &Memory, addr: u32, value: u8) -> bool {
        &&& after.start == self.start
        &&& after.data@ == (if self.covers(addr) {
            self.data@.update(addr - self.start, value)
        } else {
            self.data@
        })
    }

    fn read(&self, addr: u32) -> (r: u8) {
        if self.start <= addr && ((addr - self.start) as usize) < self.data.len() {
            self.data[self.offset(addr)]
        } else {
            OPEN_BUS
        }
    }

    fn write(&mut self, addr: u32, value: u8) {
        if self.start <= addr && ((addr - self.start) as usize) < self.data.len() {
            let i = self.offset(addr);
            self.data.set(i, value);
        }
    }
}

} // verus!
