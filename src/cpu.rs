use vstd::prelude::*;

use crate::buffer::Addressable;
use crate::mmio::Mmio;
use crate::registers::Registers;

verus! {

/// Width of an instruction word in bytes.
pub const INSTRUCTION_BYTES: u32 = 4;

/// A failure of one step, returned to the caller instead of aborting.
#[derive(Clone, Copy, Debug, PartialEq, Eq, Structural)]
pub enum StepFault {
    /// The word fetched at `address` decodes to no implemented instruction.
    UnimplementedOpcode { address: u32, raw_opcode: u32 },
}

/// The instructions the decoder knows.
#[derive(Clone, Copy, Debug, PartialEq, Eq, Structural)]
pub enum Instruction {
    /// The all-zero word (`sll $zero, $zero, 0`): does nothing.
    Nop,
}

/// The address `offset` bytes after `addr`, wrapping at the top of the space.
pub open spec fn addr_after(addr: u32, offset: int) -> u32 {
    ((addr as int + offset) % 0x1_0000_0000) as u32
}

/// The little-endian instruction word the bus holds at `addr`.
pub open spec fn spec_fetch(bus: &Mmio, addr: u32) -> u32 {
    (bus.byte_at(addr) as int + bus.byte_at(addr_after(addr, 1)) as int * 0x100
        + bus.byte_at(addr_after(addr, 2)) as int * 0x1_0000 + bus.byte_at(addr_after(addr, 3)) as int
        * 0x100_0000) as u32
}

pub open spec fn spec_decode(word: u32) -> Option<Instruction> {
    if word == 0 {
        Some(Instruction::Nop)
    } else {
        None
    }
}

/// Cycles an instruction costs; never zero.
pub open spec fn spec_cycles(ins: Instruction) -> u8 {
    match ins {
        Instruction::Nop => 1,
    }
}

pub fn fetch_word(bus: &Mmio, addr: u32) -> (r: u32)
    requires
        bus.wf(),
    ensures
        r == spec_fetch(bus, addr),
{
    let b0 = bus.read(addr) as u32;
    let b1 = bus.read(addr.wrapping_add(1)) as u32;
    let b2 = bus.read(addr.wrapping_add(2)) as u32;
    let b3 = bus.read(addr.wrapping_add(3)) as u32;
    assert(addr.wrapping_add(1) == addr_after(addr, 1));
    assert(addr.wrapping_add(2) == addr_after(addr, 2));
    assert(addr.wrapping_add(3) == addr_after(addr, 3));
    b0 + b1 * 0x100 + b2 * 0x1_0000 + b3 * 0x100_0000
}

/// Look up the instruction a word encodes.
pub fn decode(word: u32) -> (r: Option<Instruction>)
    ensures
        r == spec_decode(word),
{
    if word == 0 {
        Some(Instruction::Nop)
    } else {
        None
    }
}

/// The R3000A processor: its registers and two suspension flags.
#[derive(Clone, Copy, Debug)]
pub struct R3000A {
    pub registers: Registers,
    /// Suspended by a halt instruction.
    pub halted: bool,
    /// Suspended until an outside event wakes it.
    pub stopped: bool,
}

impl R3000A {
    /// The processor and what one step does to it, given the bus: the word
    /// at the PC is fetched; if it decodes, the PC moves past it and the
    /// instruction runs; if not, nothing changes and the fault is returned.
    pub open spec fn spec_step(self, bus: &Mmio) -> (R3000A, Result<u8, StepFault>) {
        let pc = self.registers.pc;
        let word = spec_fetch(bus, pc);
        match spec_decode(word) {
            Some(ins) => (
                R3000A {
                    registers: Registers {
                        pc: addr_after(pc, INSTRUCTION_BYTES as int),
                        ..self.registers
                    },
                    ..self
                },
                Ok(spec_cycles(ins)),
            ),
            None => (self, Err(StepFault::UnimplementedOpcode { address: pc, raw_opcode: word })),
        }
    }

    pub fn new() -> (r: R3000A)
        ensures
            r.registers.is_reset(),
            !r.halted,
            !r.stopped,
    {
        R3000A { registers: Registers::new(), halted: false, stopped: false }
    }

    /// Fetch, decode and run one instruction; returns the cycles it took.
    pub fn step(&mut self, mmio: &mut Mmio) -> (r: Result<u8, StepFault>)
        requires
            old(mmio).wf(),
        ensures
            (*final(self), r) == old(self).spec_step(&*old(mmio)),
            *final(mmio) == *old(mmio),
            r matches Ok(c) ==> c >= 1,
            old(self).registers.gpr@[0] == 0 ==> final(self).registers.gpr@[0] == 0,
    {
        let pc = self.registers.pc;
        let opcode = fetch_word(mmio, pc);
        match decode(opcode) {
            Some(ins) => {
                self.registers.pc = pc.wrapping_add(INSTRUCTION_BYTES);
                assert(self.registers.pc == addr_after(pc, INSTRUCTION_BYTES as int));
                Ok(self.execute(ins, mmio))
            },
            None => Err(StepFault::UnimplementedOpcode { address: pc, raw_opcode: opcode }),
        }
    }

    fn execute(&mut self, ins: Instruction, _mmio: &mut Mmio) -> (r: u8)
        ensures
            *final(self) == *old(self),
            *final(_mmio) == *old(_mmio),
            r == spec_cycles(ins),
    {
        match ins {
            Instruction::Nop => 1,
        }
    }
}

} // verus!
