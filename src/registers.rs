use vstd::prelude::*;

verus! {

/// Number of general-purpose registers.
pub const GPR_COUNT: usize = 32;

/// Address the program counter holds after a reset.
pub const RESET_VECTOR: u32 = 0;

/// Architectural register state: 32 general-purpose registers (register 0
/// reads as zero), the multiply/divide results `hi` and `lo`, and the PC.
#[derive(Clone, Copy, Debug)]
pub struct Registers {
    pub gpr: [u32; 32],
    pub hi: u32,
    pub lo: u32,
    pub pc: u32,
}

impl Registers {
    /// Value an instruction observes when it reads register `index`.
    pub open spec fn spec_read(&self, index: int) -> u32 {
        if index == 0 {
            0
        } else {
            self.gpr@[index]
        }
    }

    /// `after` is this register file once `write(index, value)` has run:
    /// a write to register 0 is discarded.
    pub open spec fn write_gives(self, after: Registers, index: int, value: u32) -> bool {
        &&& after.gpr@ == (if index == 0 {
            self.gpr@
        } else {
            self.gpr@.update(index, value)
        })
        &&& after.hi == self.hi
        &&& after.lo == self.lo
        &&& after.pc == self.pc
    }

    /// Every register zero and the PC at the reset vector.
    pub open spec fn is_reset(&self) -> bool {
        &&& forall|i: int| 0 <= i < 32 ==> self.gpr@[i] == 0
        &&& self.hi == 0
        &&& self.lo == 0
        &&& self.pc == RESET_VECTOR
    }

    pub fn new() -> (r: Registers)
        ensures
            r.is_reset(),
    {
        Registers { gpr: [0u32; 32], hi: 0, lo: 0, pc: RESET_VECTOR }
    }

    pub fn reset(&mut self)
        ensures
            final(self).is_reset(),
    {
        self.gpr = [0u32; 32];
        self.hi = 0;
        self.lo = 0;
        self.pc = RESET_VECTOR;
    }

    pub fn read(&self, index: usize) -> (r: u32)
        requires
            index < GPR_COUNT,
        ensures
            r == self.spec_read(index as int),
            index == 0 ==> r == 0,
    {
        if index == 0 {
            0
        } else {
            self.gpr[index]
        }
    }

    pub fn write(&mut self, index: usize, value: u32)
        requires
            index < GPR_COUNT,
        ensures
            old(self).write_gives(*final(self), index as int, value),
    {
        if index != 0 {
            self.gpr[index] = value;
        }
    }
}

/// Register 0 reads as zero whatever was written before, and a write to it
/// leaves every register as it was.
pub proof fn lemma_zero_register_constant(before: Registers, after: Registers, index: int, value: u32)
    requires
        0 <= index < GPR_COUNT,
        before.write_gives(after, index, value),
    ensures
        after.spec_read(0) == 0,
        index == 0 ==> after.gpr@ == before.gpr@,
        forall|i: int| 0 <= i < GPR_COUNT && i != index ==> after.spec_read(i) == before.spec_read(i),
{
}

} // verus!
