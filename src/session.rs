use vstd::prelude::*;

use crate::cpu::StepFault;
use crate::psx::{
    is_blank_frame, spec_run, spec_step_checked, StepResult, StopReason, MAX_CYCLES_PER_FRAME, PS1,
};

verus! {

/// Wall-clock time one frame should take, in microseconds (about 59.7 Hz).
pub const TARGET_FRAME_MICROS: u64 = 16750;

/// Below this much time left, the pacer does not sleep at all.
pub const SLEEP_THRESHOLD_MICROS: u64 = 100;

/// Time left out of the sleep, to be spent spinning for precision.
pub const SPIN_MARGIN_MICROS: u64 = 50;

/// A frame slower than this many milliseconds is reported.
pub const SLOW_FRAME_MILLIS: u64 = 25;

/// A request from the user interface.
#[derive(Clone, Copy, Debug, PartialEq, Eq, Structural)]
pub enum GuiAction {
    Exit,
    TogglePause,
    Restart,
    ClearError,
    StepCycles(u32),
    StepFrames(u32),
    SetBreakpoint(u32),
    RemoveBreakpoint(u32),
}

/// What the free-running loop should do before the next frame.
#[derive(Clone, Copy, Debug, PartialEq, Eq, Structural)]
pub enum Pacing {
    /// Ahead of time: sleep `sleep_micros`, then spin until the frame time
    /// has passed.
    Wait { sleep_micros: u64 },
    /// Late, within tolerance: run at once.
    OnTime,
    /// Late by more than the tolerance: run at once and report it.
    SlowFrame { elapsed_millis: u64 },
}

/// Decide how to pace the next frame, `elapsed_micros` after the last one.
pub fn frame_pacing(elapsed_micros: u64) -> (r: Pacing)
    ensures
        elapsed_micros < TARGET_FRAME_MICROS ==> r == (Pacing::Wait {
            sleep_micros: if TARGET_FRAME_MICROS - elapsed_micros > SLEEP_THRESHOLD_MICROS {
                (TARGET_FRAME_MICROS - elapsed_micros - SPIN_MARGIN_MICROS) as u64
            } else {
                0
            },
        }),
        elapsed_micros >= TARGET_FRAME_MICROS && elapsed_micros / 1000 > SLOW_FRAME_MILLIS ==> r
            == (Pacing::SlowFrame { elapsed_millis: elapsed_micros / 1000 }),
        elapsed_micros >= TARGET_FRAME_MICROS && elapsed_micros / 1000 <= SLOW_FRAME_MILLIS ==> r
            == Pacing::OnTime,
{
    if elapsed_micros < TARGET_FRAME_MICROS {
        let remaining = TARGET_FRAME_MICROS - elapsed_micros;
        if remaining > SLEEP_THRESHOLD_MICROS {
            Pacing::Wait { sleep_micros: remaining - SPIN_MARGIN_MICROS }
        } else {
            Pacing::Wait { sleep_micros: 0 }
        }
    } else if elapsed_micros / 1000 > SLOW_FRAME_MILLIS {
        Pacing::SlowFrame { elapsed_millis: elapsed_micros / 1000 }
    } else {
        Pacing::OnTime
    }
}

/// The machine after up to `n` checked steps, stopping at the first one
/// that runs no instruction.
pub open spec fn spec_step_n(m: PS1, n: nat) -> PS1
    decreases n,
{
    if n == 0 {
        m
    } else {
        let (m2, s) = spec_step_checked(m);
        if s is Executed {
            spec_step_n(m2, (n - 1) as nat)
        } else {
            m2
        }
    }
}

/// The machine after up to `n` frames, stopping at the first that ends on
/// a breakpoint or a fault.
pub open spec fn spec_frames(m: PS1, n: nat) -> PS1
    decreases n,
{
    if n == 0 {
        m
    } else {
        let (m2, reason, _c) = spec_run(m, MAX_CYCLES_PER_FRAME as int, 0);
        if reason is Faulted || reason is BreakpointHit {
            m2
        } else {
            spec_frames(m2, (n - 1) as nat)
        }
    }
}

/// Which kind of work one `update` did.
#[derive(Clone, Copy, Debug, PartialEq, Eq, Structural)]
pub enum UpdateKind {
    SingleFrame,
    SingleInstruction,
    Instructions,
    Frames,
    Idle,
    FreeRun,
}

/// A debugging session around one machine: pause state, pending step
/// requests from the user, the frame to show next, and whether a breakpoint
/// stopped a free run.
#[derive(Debug)]
pub struct Session {
    pub ps1: PS1,
    pub is_paused: bool,
    pub step_single_frame: bool,
    pub step_single_cycle: bool,
    pub step_multiple_cycles: Option<u32>,
    pub step_multiple_frames: Option<u32>,
    pub frame: Option<Vec<u8>>,
    pub breakpoint_hit: bool,
}

impl Session {
    pub open spec fn wf(&self) -> bool {
        self.ps1.wf()
    }

    /// The frame to show is blank, and there is none once the machine has
    /// faulted.
    pub open spec fn frame_after(&self, m: PS1) -> bool {
        &&& m.fault() is Some ==> self.frame is None
        &&& m.fault() is None ==> (self.frame matches Some(f) && is_blank_frame(f@))
    }

    /// `self` has the pause state, breakpoint flag and pending requests of
    /// `o`, but for the request that was served (`which`: 0 single frame,
    /// 1 single instruction, 2 instructions, 3 frames), which is cleared.
    pub open spec fn serves(self, o: Session, which: int) -> bool {
        &&& self.is_paused == o.is_paused
        &&& self.breakpoint_hit == o.breakpoint_hit
        &&& self.step_single_frame == (o.step_single_frame && which != 0)
        &&& self.step_single_cycle == (o.step_single_cycle && which != 1)
        &&& self.step_multiple_cycles == (if which == 2 {
            None
        } else {
            o.step_multiple_cycles
        })
        &&& self.step_multiple_frames == (if which == 3 {
            None
        } else {
            o.step_multiple_frames
        })
    }

    /// Nothing is pending and the machine can run on its own.
    pub open spec fn spec_runs_free(&self) -> bool {
        &&& !self.step_single_frame
        &&& !self.step_single_cycle
        &&& self.step_multiple_cycles is None
        &&& self.step_multiple_frames is None
        &&& self.ps1.fault() is None
        &&& !self.is_paused
    }

    pub fn new(ps1: PS1) -> (r: Session)
        requires
            ps1.wf(),
        ensures
            r.wf(),
            r.ps1 == ps1,
            !r.is_paused,
            !r.step_single_frame,
            !r.step_single_cycle,
            r.step_multiple_cycles is None,
            r.step_multiple_frames is None,
            r.frame is None,
            !r.breakpoint_hit,
    {
        Session {
            ps1,
            is_paused: false,
            step_single_frame: false,
            step_single_cycle: false,
            step_multiple_cycles: None,
            step_multiple_frames: None,
            frame: None,
            breakpoint_hit: false,
        }
    }

    pub fn runs_free(&self) -> (r: bool)
        ensures
            r == self.spec_runs_free(),
    {
        !self.step_single_frame && !self.step_single_cycle && self.step_multiple_cycles.is_none()
            && self.step_multiple_frames.is_none() && self.ps1.get_fault().is_none()
            && !self.is_paused
    }

    /// Reset the machine and resume; breakpoints are kept.
    pub fn restart(&mut self)
        requires
            old(self).wf(),
        ensures
            final(self).wf(),
            final(self).ps1.reset_from(old(self).ps1),
            final(self).frame is None,
            !final(self).is_paused,
            final(self).breakpoint_hit == old(self).breakpoint_hit,
            final(self).step_single_frame == old(self).step_single_frame,
            final(self).step_single_cycle == old(self).step_single_cycle,
            final(self).step_multiple_cycles == old(self).step_multiple_cycles,
            final(self).step_multiple_frames == old(self).step_multiple_frames,
    {
        self.ps1.reset();
        self.frame = None;
        self.is_paused = false;
    }

    /// Hand over the frame to show, if a new one is there.
    pub fn take_frame(&mut self) -> (r: Option<Vec<u8>>)
        ensures
            r == old(self).frame,
            final(self).frame is None,
            final(self).ps1 == old(self).ps1,
            final(self).is_paused == old(self).is_paused,
            final(self).breakpoint_hit == old(self).breakpoint_hit,
            final(self).step_single_frame == old(self).step_single_frame,
            final(self).step_single_cycle == old(self).step_single_cycle,
            final(self).step_multiple_cycles == old(self).step_multiple_cycles,
            final(self).step_multiple_frames == old(self).step_multiple_frames,
    {
        self.frame.take()
    }

    /// Report whether a breakpoint stopped the run since the last call.
    pub fn check_and_clear_breakpoint_hit(&mut self) -> (r: bool)
        ensures
            r == old(self).breakpoint_hit,
            !final(self).breakpoint_hit,
            final(self).ps1 == old(self).ps1,
            final(self).is_paused == old(self).is_paused,
            final(self).frame == old(self).frame,
            final(self).step_single_frame == old(self).step_single_frame,
            final(self).step_single_cycle == old(self).step_single_cycle,
            final(self).step_multiple_cycles == old(self).step_multiple_cycles,
            final(self).step_multiple_frames == old(self).step_multiple_frames,
    {
        let hit = self.breakpoint_hit;
        self.breakpoint_hit = false;
        hit
    }

    /// Act on a request of the user interface; `Exit` is left to the caller.
    pub fn apply(&mut self, action: GuiAction)
        requires
            old(self).wf(),
        ensures
            final(self).wf(),
            action == GuiAction::TogglePause ==> final(self).is_paused == !old(self).is_paused,
            action == GuiAction::ClearError ==> final(self).ps1.fault() is None
                && final(self).ps1.cpu() == old(self).ps1.cpu() && final(self).ps1.mmio() == old(
                self,
            ).ps1.mmio() && final(self).ps1.breakpoints() == old(self).ps1.breakpoints()
                && final(self).is_paused,
            action == GuiAction::Restart ==> final(self).ps1.reset_from(old(self).ps1)
                && !final(self).is_paused && final(self).frame is None,
            action matches GuiAction::StepCycles(n) ==> final(self).step_multiple_cycles == Some(n),
            action matches GuiAction::StepFrames(n) ==> final(self).step_multiple_frames == Some(n),
            action matches GuiAction::SetBreakpoint(a) ==> final(self).ps1.breakpoints()@ == old(
                self,
            ).ps1.breakpoints()@.insert(a) && final(self).ps1.cpu() == old(self).ps1.cpu()
                && final(self).ps1.mmio() == old(self).ps1.mmio() && final(self).ps1.fault() == old(
                self,
            ).ps1.fault(),
            action matches GuiAction::RemoveBreakpoint(a) ==> final(self).ps1.breakpoints()@ == old(
                self,
            ).ps1.breakpoints()@.remove(a) && final(self).ps1.cpu() == old(self).ps1.cpu()
                && final(self).ps1.mmio() == old(self).ps1.mmio() && final(self).ps1.fault() == old(
                self,
            ).ps1.fault(),
            action != GuiAction::Restart ==> final(self).ps1.breakpoints()@ == old(
                self,
            ).ps1.breakpoints()@ || action is SetBreakpoint || action is RemoveBreakpoint,
            action == GuiAction::Exit ==> *final(self) == *old(self),
            !(action is TogglePause || action is ClearError || action is Restart)
                ==> final(self).is_paused == old(self).is_paused,
            !(action is StepCycles) ==> final(self).step_multiple_cycles == old(
                self,
            ).step_multiple_cycles,
            !(action is StepFrames) ==> final(self).step_multiple_frames == old(
                self,
            ).step_multiple_frames,
            final(self).step_single_frame == old(self).step_single_frame,
            final(self).step_single_cycle == old(self).step_single_cycle,
            final(self).breakpoint_hit == old(self).breakpoint_hit,
            !(action is Restart) ==> final(self).frame == old(self).frame,
            action is TogglePause || action is StepCycles || action is StepFrames ==> final(self).ps1
                == old(self).ps1,
    {
        match action {
            GuiAction::Exit => {},
            GuiAction::TogglePause => {
                self.is_paused = !self.is_paused;
            },
            GuiAction::Restart => {
                self.restart();
            },
            GuiAction::ClearError => {
                self.ps1.clear_fault();
                self.is_paused = true;
            },
            GuiAction::StepCycles(n) => {
                self.step_multiple_cycles = Some(n);
            },
            GuiAction::StepFrames(n) => {
                self.step_multiple_frames = Some(n);
            },
            GuiAction::SetBreakpoint(a) => {
                self.ps1.add_breakpoint(a);
            },
            GuiAction::RemoveBreakpoint(a) => {
                self.ps1.remove_breakpoint(a);
            },
        }
    }

    /// Run `n` checked steps, stopping at the first that runs nothing.
    fn step_instructions(&mut self, n: u32)
        requires
            old(self).wf(),
        ensures
            final(self).wf(),
            final(self).ps1 == spec_step_n(old(self).ps1, n as nat),
            final(self).is_paused == old(self).is_paused,
            final(self).breakpoint_hit == old(self).breakpoint_hit,
            final(self).step_single_frame == old(self).step_single_frame,
            final(self).step_single_cycle == old(self).step_single_cycle,
            final(self).step_multiple_cycles == old(self).step_multiple_cycles,
            final(self).step_multiple_frames == old(self).step_multiple_frames,
            final(self).frame == old(self).frame,
    {
        let mut left: u32 = n;
        while left > 0
            invariant
                self.wf(),
                spec_step_n(old(self).ps1, n as nat) == spec_step_n(self.ps1, left as nat),
                self.is_paused == old(self).is_paused,
                self.breakpoint_hit == old(self).breakpoint_hit,
                self.step_single_frame == old(self).step_single_frame,
                self.step_single_cycle == old(self).step_single_cycle,
                self.step_multiple_cycles == old(self).step_multiple_cycles,
                self.step_multiple_frames == old(self).step_multiple_frames,
                self.frame == old(self).frame,
            decreases left,
        {
            let s = self.ps1.step_instruction();
            left = left - 1;
            if !matches!(s, StepResult::Executed { .. }) {
                return;
            }
        }
    }

    /// Run up to `n` frames, stopping at one that ends on a breakpoint or
    /// a fault.
    fn run_frames(&mut self, n: u32)
        requires
            old(self).wf(),
        ensures
            final(self).wf(),
            final(self).ps1 == spec_frames(old(self).ps1, n as nat),
            final(self).is_paused == old(self).is_paused,
            final(self).breakpoint_hit == old(self).breakpoint_hit,
            final(self).step_single_frame == old(self).step_single_frame,
            final(self).step_single_cycle == old(self).step_single_cycle,
            final(self).step_multiple_cycles == old(self).step_multiple_cycles,
            final(self).step_multiple_frames == old(self).step_multiple_frames,
            final(self).frame == old(self).frame,
    {
        let mut left: u32 = n;
        while left > 0
            invariant
                self.wf(),
                spec_frames(old(self).ps1, n as nat) == spec_frames(self.ps1, left as nat),
                self.is_paused == old(self).is_paused,
                self.breakpoint_hit == old(self).breakpoint_hit,
                self.step_single_frame == old(self).step_single_frame,
                self.step_single_cycle == old(self).step_single_cycle,
                self.step_multiple_cycles == old(self).step_multiple_cycles,
                self.step_multiple_frames == old(self).step_multiple_frames,
                self.frame == old(self).frame,
            decreases left,
        {
            let r = self.ps1.run_until_frame();
            left = left - 1;
            match r {
                Ok((_frame, hit)) => {
                    if hit {
                        return;
                    }
                },
                Err(_) => {
                    return;
                },
            }
        }
    }

    /// The frame to show after stepping: blank, or none once faulted.
    fn show_current_frame(&mut self)
        ensures
            final(self).frame_after(final(self).ps1),
            final(self).ps1 == old(self).ps1,
            final(self).is_paused == old(self).is_paused,
            final(self).breakpoint_hit == old(self).breakpoint_hit,
            final(self).step_single_frame == old(self).step_single_frame,
            final(self).step_single_cycle == old(self).step_single_cycle,
            final(self).step_multiple_cycles == old(self).step_multiple_cycles,
            final(self).step_multiple_frames == old(self).step_multiple_frames,
    {
        if self.ps1.get_fault().is_some() {
            self.frame = None;
        } else {
            self.frame = Some(self.ps1.get_current_frame());
        }
    }

    /// Do the work of one turn of the user-interface loop: the oldest kind
    /// of pending step request, else, unless paused or faulted, one frame
    /// of free running. A breakpoint that ends a free-running frame pauses
    /// the session and is recorded.
    pub fn update(&mut self) -> (r: UpdateKind)
        requires
            old(self).wf(),
        ensures
            final(self).wf(),
            ({
                let o = *old(self);
                let f = *final(self);
                if o.step_single_frame {
                    &&& r == UpdateKind::SingleFrame
                    &&& f.ps1 == spec_run(o.ps1, MAX_CYCLES_PER_FRAME as int, 0).0
                    &&& f.serves(o, 0)
                    &&& f.frame_after(f.ps1)
                } else if o.step_single_cycle {
                    &&& r == UpdateKind::SingleInstruction
                    &&& f.ps1 == spec_step_checked(o.ps1).0
                    &&& f.serves(o, 1)
                    &&& f.frame_after(f.ps1)
                    &&& spec_step_checked(o.ps1).1 is Faulted ==> f.ps1.fault() is Some
                        && f.frame is None
                } else if o.step_multiple_cycles is Some {
                    &&& r == UpdateKind::Instructions
                    &&& f.ps1 == spec_step_n(o.ps1, o.step_multiple_cycles->0 as nat)
                    &&& f.serves(o, 2)
                    &&& f.frame_after(f.ps1)
                } else if o.step_multiple_frames is Some {
                    &&& r == UpdateKind::Frames
                    &&& f.ps1 == spec_frames(o.ps1, o.step_multiple_frames->0 as nat)
                    &&& f.serves(o, 3)
                    &&& f.frame_after(f.ps1)
                } else if o.ps1.fault() is Some || o.is_paused {
                    &&& r == UpdateKind::Idle
                    &&& f == o
                } else {
                    let (m, reason, _c) = spec_run(o.ps1, MAX_CYCLES_PER_FRAME as int, 0);
                    &&& r == UpdateKind::FreeRun
                    &&& f.ps1 == m
                    &&& f.frame_after(f.ps1)
                    &&& reason is BreakpointHit ==> f.ps1.fault() is None && f.frame is Some
                    &&& reason is Faulted ==> f.ps1.fault() is Some && f.frame is None
                    &&& f.ps1.breakpoints() == o.ps1.breakpoints()
                    &&& f.is_paused == (reason is BreakpointHit)
                    &&& f.breakpoint_hit == (o.breakpoint_hit || reason is BreakpointHit)
                    &&& !f.step_single_frame && !f.step_single_cycle
                    &&& f.step_multiple_cycles is None && f.step_multiple_frames is None
                }
            }),
    {
        if self.step_single_frame {
            self.step_single_frame = false;
            let _ = self.ps1.run_until_frame();
            self.show_current_frame();
            return UpdateKind::SingleFrame;
        }
        if self.step_single_cycle {
            self.step_single_cycle = false;
            let _ = self.ps1.step_instruction();
            self.show_current_frame();
            return UpdateKind::SingleInstruction;
        }
        if let Some(count) = self.step_multiple_cycles {
            self.step_multiple_cycles = None;
            self.step_instructions(count);
            self.show_current_frame();
            return UpdateKind::Instructions;
        }
        if let Some(count) = self.step_multiple_frames {
            self.step_multiple_frames = None;
            self.run_frames(count);
            self.show_current_frame();
            return UpdateKind::Frames;
        }
        if self.ps1.get_fault().is_some() || self.is_paused {
            return UpdateKind::Idle;
        }
        if let Ok((_frame, true)) = self.ps1.run_until_frame() {
            self.is_paused = true;
            self.breakpoint_hit = true;
        }
        self.show_current_frame();
        UpdateKind::FreeRun
    }
}

} // verus!
