use vstd::prelude::*;

use crate::breakpoints::{strictly_ascending, BreakpointSet};
use crate::buffer::Addressable;
use crate::cpu::{R3000A, StepFault};
use crate::mmio::{same_windows, MapError, Mmio};
use crate::registers::Registers;

verus! {

/// Width of the video output in pixels.
pub const WIDTH: u32 = 640;

/// Height of the video output in pixels.
pub const HEIGHT: u32 = 480;

/// Bytes in one RGBA frame.
pub const FRAME_BYTES: usize = 1228800;

/// Cycle budget of one frame while no video device reports frame completion.
pub const MAX_CYCLES_PER_FRAME: u32 = 1000;

/// What one checked step did.
#[derive(Clone, Copy, Debug, PartialEq, Eq, Structural)]
pub enum StepResult {
    /// The PC is a breakpoint: nothing ran.
    BreakpointHit { address: u32 },
    /// One instruction ran and took `cycles` cycles.
    Executed { cycles: u8 },
    /// The machine is faulted, now or from an earlier step: nothing ran.
    Faulted(StepFault),
}

/// Why a bounded run stopped.
#[derive(Clone, Copy, Debug, PartialEq, Eq, Structural)]
pub enum StopReason {
    BreakpointHit { address: u32 },
    FrameReady,
    BudgetExhausted,
    Faulted(StepFault),
}

/// Outcome of a bounded run: why it stopped and how many cycles it used.
#[derive(Clone, Copy, Debug, PartialEq, Eq, Structural)]
pub struct RunResult {
    pub reason: StopReason,
    pub cycles: u64,
}

/// The whole machine: processor, bus, the debugger's breakpoints, and the
/// fault that stopped it, if any.
#[derive(Debug)]
pub struct PS1 {
    cpu: R3000A,
    mmio: Mmio,
    breakpoints: BreakpointSet,
    fault: Option<StepFault>,
}

/// The state and result of one checked step from `m`: a breakpoint at the
/// PC preempts the instruction; a faulted machine does not advance; else
/// the processor steps, and a failed step latches its fault.
pub open spec fn spec_step_checked(m: PS1) -> (PS1, StepResult) {
    let pc = m.cpu().registers.pc;
    if m.breakpoints()@.contains(pc) {
        (m, StepResult::BreakpointHit { address: pc })
    } else if m.fault() is Some {
        (m, StepResult::Faulted(m.fault()->0))
    } else {
        let (c, r) = m.cpu().spec_step(&m.mmio());
        match r {
            Ok(n) => (m.with_cpu(c), StepResult::Executed { cycles: n }),
            Err(f) => (m.with_fault(f), StepResult::Faulted(f)),
        }
    }
}

/// A bounded run from `m` that has used `acc` cycles of `max`, with no frame
/// ever reported ready: the final state, why it stopped, and the cycles used.
pub open spec fn spec_run(m: PS1, max: int, acc: int) -> (PS1, StopReason, int)
    decreases max - acc,
{
    let (m2, s) = spec_step_checked(m);
    match s {
        StepResult::BreakpointHit { address } => (m2, StopReason::BreakpointHit { address }, acc),
        StepResult::Faulted(f) => (m2, StopReason::Faulted(f), acc),
        StepResult::Executed { cycles } => if acc + cycles >= max {
            (m2, StopReason::BudgetExhausted, acc + cycles)
        } else {
            spec_run(m2, max, acc + cycles)
        },
    }
}

/// The machine after `k` checked steps from `m`.
pub open spec fn spec_after_steps(m: PS1, k: nat) -> PS1
    decreases k,
{
    if k == 0 {
        m
    } else {
        spec_step_checked(spec_after_steps(m, (k - 1) as nat)).0
    }
}

/// Each of the first `k` checked steps from `m` ran an instruction: none
/// met a breakpoint or a fault.
pub open spec fn steps_all_executed(m: PS1, k: nat) -> bool
    decreases k,
{
    k == 0 || (steps_all_executed(m, (k - 1) as nat) && spec_step_checked(
        spec_after_steps(m, (k - 1) as nat),
    ).1 is Executed)
}

/// Cycles used by the first `k` checked steps from `m`.
pub open spec fn spec_steps_cycles(m: PS1, k: nat) -> int
    decreases k,
{
    if k == 0 {
        0
    } else {
        spec_steps_cycles(m, (k - 1) as nat) + match spec_step_checked(
            spec_after_steps(m, (k - 1) as nat),
        ).1 {
            StepResult::Executed { cycles } => cycles as int,
            _ => 0,
        }
    }
}

/// Every frame is blank: no video device draws into it yet.
pub open spec fn is_blank_frame(f: Seq<u8>) -> bool {
    &&& f.len() == FRAME_BYTES
    &&& forall|i: int| 0 <= i < f.len() ==> f[i] == 0
}

fn blank_frame() -> (r: Vec<u8>)
    ensures
        is_blank_frame(r@),
{
    let mut f: Vec<u8> = Vec::with_capacity(FRAME_BYTES);
    while f.len() < FRAME_BYTES
        invariant
            f@.len() <= FRAME_BYTES,
            forall|i: int| 0 <= i < f@.len() ==> f@[i] == 0,
        decreases FRAME_BYTES - f@.len(),
    {
        f.push(0);
    }
    f
}

impl PS1 {
    pub closed spec fn cpu(&self) -> R3000A {
        self.cpu
    }

    pub closed spec fn mmio(&self) -> Mmio {
        self.mmio
    }

    pub closed spec fn breakpoints(&self) -> BreakpointSet {
        self.breakpoints
    }

    pub closed spec fn fault(&self) -> Option<StepFault> {
        self.fault
    }

    pub closed spec fn with_cpu(self, c: R3000A) -> PS1 {
        PS1 { cpu: c, ..self }
    }

    pub closed spec fn with_fault(self, f: StepFault) -> PS1 {
        PS1 { fault: Some(f), ..self }
    }

    /// The bus and breakpoint set are well formed, and register 0 holds zero.
    pub closed spec fn wf(&self) -> bool {
        &&& self.mmio.wf()
        &&& self.breakpoints.wf()
        &&& self.cpu.registers.gpr@[0] == 0
    }

    /// What the two one-field updates of the step model keep and change.
    pub proof fn lemma_with(self, c: R3000A, f: StepFault)
        ensures
            self.with_cpu(c).cpu() == c,
            self.with_cpu(c).mmio() == self.mmio(),
            self.with_cpu(c).breakpoints() == self.breakpoints(),
            self.with_cpu(c).fault() == self.fault(),
            self.with_fault(f).cpu() == self.cpu(),
            self.with_fault(f).mmio() == self.mmio(),
            self.with_fault(f).breakpoints() == self.breakpoints(),
            self.with_fault(f).fault() == Some(f),
    {
    }

    /// `self` is `before` after `reset`: registers zeroed with the PC at the
    /// reset vector, flags and fault cleared, every mapped window kept and
    /// zeroed, breakpoints kept.
    pub open spec fn reset_from(self, before: PS1) -> bool {
        &&& self.cpu().registers.is_reset()
        &&& !self.cpu().halted
        &&& !self.cpu().stopped
        &&& self.fault() is None
        &&& self.breakpoints() == before.breakpoints()
        &&& self.mmio().regions().len() == before.mmio().regions().len()
        &&& forall|i: int|
            0 <= i < self.mmio().regions().len() ==> {
                &&& (#[trigger] self.mmio().regions()[i]).start == before.mmio().regions()[i].start
                &&& self.mmio().regions()[i].data@.len() == before.mmio().regions()[i].data@.len()
                &&& self.mmio().regions()[i].is_zeroed()
            }
    }

    /// A machine in its reset state, with an empty bus and no breakpoints.
    pub fn new() -> (r: PS1)
        ensures
            r.wf(),
            r.cpu().registers.is_reset(),
            !r.cpu().halted,
            !r.cpu().stopped,
            r.mmio().regions().len() == 0,
            r.breakpoints()@ == Set::<u32>::empty(),
            r.fault() is None,
    {
        PS1 {
            cpu: R3000A::new(),
            mmio: Mmio::new(),
            breakpoints: BreakpointSet::new(),
            fault: None,
        }
    }

    /// Zero the registers and the mapped memory, put the PC at the reset
    /// vector and clear the suspension flags and any fault. Breakpoints
    /// belong to the debugging session and are kept.
    pub fn reset(&mut self)
        requires
            old(self).wf(),
        ensures
            final(self).wf(),
            final(self).reset_from(*old(self)),
    {
        self.mmio.reset();
        self.cpu.halted = false;
        self.cpu.stopped = false;
        self.cpu.registers.reset();
        self.fault = None;
    }

    /// The current video frame, without advancing the machine.
    pub fn get_current_frame(&self) -> (r: Vec<u8>)
        ensures
            is_blank_frame(r@),
    {
        blank_frame()
    }

    /// Run one instruction unless a breakpoint at the PC or an earlier fault
    /// stops it.
    pub fn step_instruction(&mut self) -> (r: StepResult)
        requires
            old(self).wf(),
        ensures
            final(self).wf(),
            (*final(self), r) == spec_step_checked(*old(self)),
            old(self).breakpoints()@.contains(old(self).cpu().registers.pc) ==> {
                &&& r == StepResult::BreakpointHit { address: old(self).cpu().registers.pc }
                &&& *final(self) == *old(self)
            },
            r matches StepResult::Executed { cycles } ==> cycles >= 1,
            final(self).breakpoints() == old(self).breakpoints(),
            final(self).mmio() == old(self).mmio(),
            r matches StepResult::Executed { cycles } ==> {
                &&& old(self).fault() is None
                &&& final(self).fault() is None
                &&& (final(self).cpu(), Ok::<u8, StepFault>(cycles)) == old(self).cpu().spec_step(
                    &old(self).mmio(),
                )
            },
            r matches StepResult::Faulted(f) ==> {
                &&& final(self).fault() == Some(f)
                &&& final(self).cpu() == old(self).cpu()
                &&& old(self).fault() is None ==> old(self).cpu().spec_step(&old(self).mmio()) == (
                    old(self).cpu(),
                    Err::<u8, StepFault>(f),
                )
            },
            r is BreakpointHit ==> *final(self) == *old(self),
            final(self).cpu().registers.gpr@[0] == 0,
    {
        let pc = self.cpu.registers.pc;
        if self.breakpoints.contains(pc) {
            return StepResult::BreakpointHit { address: pc };
        }
        if let Some(f) = self.fault {
            return StepResult::Faulted(f);
        }
        match self.cpu.step(&mut self.mmio) {
            Ok(cycles) => StepResult::Executed { cycles },
            Err(f) => {
                self.fault = Some(f);
                StepResult::Faulted(f)
            },
        }
    }

    /// Step until a breakpoint, a fault, `frame_ready` holding of the bus
    /// after a step, or `max_cycles` cycles used, whichever comes first. At
    /// least one step is attempted.
    pub fn run_until<F: Fn(&Mmio) -> bool>(&mut self, max_cycles: u32, frame_ready: F) -> (r:
        RunResult)
        requires
            old(self).wf(),
            forall|b: &Mmio| frame_ready.requires((b,)),
        ensures
            final(self).wf(),
            final(self).breakpoints() == old(self).breakpoints(),
            r.reason != StopReason::FrameReady ==> (*final(self), r.reason, r.cycles as int)
                == spec_run(*old(self), max_cycles as int, 0),
            r.reason == StopReason::FrameReady ==> 1 <= r.cycles < max_cycles + 256,
            r.reason == StopReason::FrameReady ==> exists|k: nat|
                {
                    &&& 1 <= k
                    &&& steps_all_executed(*old(self), k)
                    &&& *final(self) == spec_after_steps(*old(self), k)
                    &&& r.cycles as int == spec_steps_cycles(*old(self), k)
                    &&& (k == 1 || spec_steps_cycles(*old(self), (k - 1) as nat) < max_cycles)
                    &&& frame_ready.ensures((&final(self).mmio(),), true)
                },
            r.reason == StopReason::BudgetExhausted ==> exists|k: nat|
                {
                    &&& 1 <= k
                    &&& steps_all_executed(*old(self), k)
                    &&& *final(self) == spec_after_steps(*old(self), k)
                    &&& r.cycles as int == spec_steps_cycles(*old(self), k)
                    &&& r.cycles >= max_cycles
                    &&& (k == 1 || spec_steps_cycles(*old(self), (k - 1) as nat) < max_cycles)
                },
            r.reason matches StopReason::BreakpointHit { address } ==> exists|k: nat|
                {
                    &&& steps_all_executed(*old(self), k)
                    &&& *final(self) == spec_after_steps(*old(self), k)
                    &&& r.cycles as int == spec_steps_cycles(*old(self), k)
                    &&& address == final(self).cpu().registers.pc
                    &&& final(self).breakpoints()@.contains(address)
                },
            r.reason matches StopReason::Faulted(f) ==> exists|k: nat|
                {
                    &&& steps_all_executed(*old(self), k)
                    &&& spec_step_checked(spec_after_steps(*old(self), k)) == (
                        *final(self),
                        StepResult::Faulted(f),
                    )
                    &&& r.cycles as int == spec_steps_cycles(*old(self), k)
                    &&& final(self).fault() == Some(f)
                    &&& final(self).cpu() == spec_after_steps(*old(self), k).cpu()
                },
            (forall|b: &Mmio, ready: bool| frame_ready.ensures((b,), ready) ==> !ready)
                ==> r.reason != StopReason::FrameReady,
            old(self).fault() is None && !(r.reason is Faulted) ==> final(self).fault() is None,
    {
        let mut acc: u64 = 0;
        let ghost mut k: nat = 0;
        loop
            invariant
                self.wf(),
                forall|b: &Mmio| frame_ready.requires((b,)),
                self.breakpoints() == old(self).breakpoints(),
                acc <= max_cycles,
                acc == 0 || acc < max_cycles,
                spec_run(*old(self), max_cycles as int, 0) == spec_run(
                    *self,
                    max_cycles as int,
                    acc as int,
                ),
                steps_all_executed(*old(self), k),
                *self == spec_after_steps(*old(self), k),
                acc as int == spec_steps_cycles(*old(self), k),
                k == 0 <==> acc == 0,
                old(self).fault() is None ==> self.fault() is None,
            decreases max_cycles - acc,
        {
            let s = self.step_instruction();
            proof {
                assert(spec_after_steps(*old(self), k + 1) == *self);
            }
            match s {
                StepResult::BreakpointHit { address } => {
                    return RunResult { reason: StopReason::BreakpointHit { address }, cycles: acc };
                },
                StepResult::Faulted(f) => {
                    return RunResult { reason: StopReason::Faulted(f), cycles: acc };
                },
                StepResult::Executed { cycles } => {
                    proof {
                        assert(steps_all_executed(*old(self), k + 1));
                        assert(spec_steps_cycles(*old(self), k + 1) == acc + cycles);
                        k = k + 1;
                    }
                    acc = acc + cycles as u64;
                    if frame_ready(&self.mmio) {
                        return RunResult { reason: StopReason::FrameReady, cycles: acc };
                    }
                    if acc >= max_cycles as u64 {
                        return RunResult { reason: StopReason::BudgetExhausted, cycles: acc };
                    }
                },
            }
        }
    }

    /// Run one frame's worth of instructions and return the frame, and
    /// whether a breakpoint ended the run early; a fault is returned as such.
    pub fn run_until_frame(&mut self) -> (r: Result<(Vec<u8>, bool), StepFault>)
        requires
            old(self).wf(),
        ensures
            final(self).wf(),
            ({
                let (m, reason, _c) = spec_run(*old(self), MAX_CYCLES_PER_FRAME as int, 0);
                &&& *final(self) == m
                &&& match r {
                    Ok((frame, hit)) => {
                        &&& is_blank_frame(frame@)
                        &&& hit == reason is BreakpointHit
                        &&& !(reason is Faulted)
                    },
                    Err(f) => reason == StopReason::Faulted(f),
                }
            }),
            final(self).breakpoints() == old(self).breakpoints(),
            r matches Err(f) ==> final(self).fault() == Some(f),
            r is Ok && old(self).fault() is None ==> final(self).fault() is None,
    {
        let no_frame_device = |_b: &Mmio| -> (ready: bool)
            ensures
                !ready,
            { false };
        let run = self.run_until(MAX_CYCLES_PER_FRAME, no_frame_device);
        match run.reason {
            StopReason::Faulted(f) => Err(f),
            StopReason::BreakpointHit { .. } => Ok((self.get_current_frame(), true)),
            _ => Ok((self.get_current_frame(), false)),
        }
    }

    /// The registers, for inspection; register 0 holds zero in every
    /// well-formed machine.
    pub fn get_cpu_registers(&self) -> (r: &Registers)
        ensures
            *r == self.cpu().registers,
            self.wf() ==> r.gpr@[0] == 0 && r.spec_read(0) == 0,
    {
        &self.cpu.registers
    }

    pub fn add_breakpoint(&mut self, address: u32)
        requires
            old(self).wf(),
        ensures
            final(self).wf(),
            final(self).breakpoints()@ == old(self).breakpoints()@.insert(address),
            final(self).cpu() == old(self).cpu(),
            final(self).mmio() == old(self).mmio(),
            final(self).fault() == old(self).fault(),
    {
        self.breakpoints.add(address);
    }

    pub fn remove_breakpoint(&mut self, address: u32)
        requires
            old(self).wf(),
        ensures
            final(self).wf(),
            final(self).breakpoints()@ == old(self).breakpoints()@.remove(address),
            final(self).cpu() == old(self).cpu(),
            final(self).mmio() == old(self).mmio(),
            final(self).fault() == old(self).fault(),
    {
        self.breakpoints.remove(address);
    }

    /// The breakpoints in ascending order.
    pub fn get_breakpoints(&self) -> (r: Vec<u32>)
        requires
            self.wf(),
        ensures
            r@ == self.breakpoints().listed(),
            strictly_ascending(r@),
            forall|a: u32| self.breakpoints()@.contains(a) <==> r@.contains(a),
    {
        proof {
            self.breakpoints.lemma_listed();
        }
        self.breakpoints.all()
    }

    pub fn has_breakpoints(&self) -> (r: bool)
        requires
            self.wf(),
        ensures
            r == (self.breakpoints()@ != Set::<u32>::empty()),
    {
        !self.breakpoints.is_empty()
    }

    /// The fault that stopped the machine, if any.
    pub fn get_fault(&self) -> (r: Option<StepFault>)
        ensures
            r == self.fault(),
    {
        self.fault
    }

    /// Forget the fault so that stepping may resume; the state is kept.
    pub fn clear_fault(&mut self)
        ensures
            final(self).fault() is None,
            final(self).cpu() == old(self).cpu(),
            final(self).mmio() == old(self).mmio(),
            final(self).breakpoints() == old(self).breakpoints(),
            final(self).wf() == old(self).wf(),
    {
        self.fault = None;
    }

    /// Place a zero-filled memory window of `size` bytes at `start`.
    pub fn map_memory(&mut self, start: u32, size: usize) -> (r: Result<(), MapError>)
        requires
            old(self).wf(),
        ensures
            final(self).wf(),
            final(self).cpu() == old(self).cpu(),
            final(self).breakpoints() == old(self).breakpoints(),
            final(self).fault() == old(self).fault(),
            old(self).mmio().map_region_gives(final(self).mmio(), start, size, r),
    {
        self.mmio.map_region(start, size)
    }

    /// Write one byte through the bus.
    pub fn write_byte(&mut self, addr: u32, value: u8)
        requires
            old(self).wf(),
        ensures
            final(self).wf(),
            final(self).cpu() == old(self).cpu(),
            final(self).breakpoints() == old(self).breakpoints(),
            final(self).fault() == old(self).fault(),
            old(self).mmio().write_gives(&final(self).mmio(), addr, value),
    {
        self.mmio.write(addr, value);
    }

    /// Read one byte through the bus.
    pub fn read_byte(&self, addr: u32) -> (r: u8)
        requires
            self.wf(),
        ensures
            r == self.mmio().byte_at(addr),
    {
        self.mmio.read(addr)
    }
}

impl Clone for PS1 {
    /// A deep copy, breakpoints included: nothing is shared with the original.
    fn clone(&self) -> (r: PS1)
        ensures
            r.cpu() == self.cpu(),
            same_windows(r.mmio().regions(), self.mmio().regions()),
            r.breakpoints()@ == self.breakpoints()@,
            r.breakpoints().listed() == self.breakpoints().listed(),
            r.fault() == self.fault(),
            self.wf() ==> r.wf(),
    {
        PS1 {
            cpu: self.cpu,
            mmio: self.mmio.clone(),
            breakpoints: self.breakpoints.clone(),
            fault: self.fault,
        }
    }
}

/// An instruction that runs always costs at least one cycle.
pub proof fn lemma_step_costs_cycles(m: PS1)
    ensures
        spec_step_checked(m).1 matches StepResult::Executed { cycles } ==> cycles >= 1,
{
    let (c, r) = m.cpu().spec_step(&m.mmio());
    if let Ok(n) = r {
        let word = crate::cpu::spec_fetch(&m.mmio(), m.cpu().registers.pc);
        assert(crate::cpu::spec_decode(word) is Some);
        assert(n == crate::cpu::spec_cycles(crate::cpu::spec_decode(word)->0));
    }
}

/// A run with no frame signal uses at least the budget when it stops for
/// it, and overshoots by less than one instruction's cycles; any other stop
/// comes within the budget.
pub proof fn lemma_run_bounded(m: PS1, max: int, acc: int)
    requires
        0 <= acc <= max,
    ensures
        ({
            let (_m2, reason, c) = spec_run(m, max, acc);
            &&& acc <= c
            &&& reason == StopReason::BudgetExhausted ==> max <= c < max + 256
            &&& reason != StopReason::BudgetExhausted ==> c <= max
        }),
    decreases max - acc,
{
    let (m2, s) = spec_step_checked(m);
    lemma_step_costs_cycles(m);
    if let StepResult::Executed { cycles } = s {
        if acc + cycles < max {
            lemma_run_bounded(m2, max, acc + cycles);
        }
    }
}

/// Register 0 of a well-formed machine is zero, and a checked step or a
/// bounded run keeps the machine well formed, so register 0 stays zero.
pub proof fn lemma_register_zero_kept(m: PS1, max: int)
    requires
        m.wf(),
    ensures
        m.cpu().registers.gpr@[0] == 0,
        spec_step_checked(m).0.wf(),
        spec_step_checked(m).0.cpu().registers.gpr@[0] == 0,
        spec_run(m, max, 0).0.wf(),
{
    lemma_run_keeps_wf(m, max, 0);
}

proof fn lemma_run_keeps_wf(m: PS1, max: int, acc: int)
    requires
        m.wf(),
    ensures
        spec_step_checked(m).0.wf(),
        spec_run(m, max, acc).0.wf(),
    decreases max - acc,
{
    let (m2, s) = spec_step_checked(m);
    if let StepResult::Executed { cycles } = s {
        lemma_step_costs_cycles(m);
        if acc + cycles < max {
            lemma_run_keeps_wf(m2, max, acc + cycles);
        }
    }
}

/// A breakpoint at the PC preempts everything: the checked step reports
/// the hit, uses no cycle and changes nothing, and so does a bounded run.
pub proof fn lemma_breakpoint_preempts(m: PS1, max: int)
    requires
        m.breakpoints()@.contains(m.cpu().registers.pc),
    ensures
        spec_step_checked(m) == (m, StepResult::BreakpointHit { address: m.cpu().registers.pc }),
        spec_run(m, max, 0) == (
            m,
            StopReason::BreakpointHit { address: m.cpu().registers.pc },
            0int,
        ),
{
}

} // verus!
