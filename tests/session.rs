use rustypsx::cpu::StepFault;
use rustypsx::psx::PS1;
use rustypsx::session::{frame_pacing, GuiAction, Pacing, Session, UpdateKind};

fn session_with_ram() -> Session {
    let mut m = PS1::new();
    assert_eq!(m.map_memory(0, 0x10000), Ok(()));
    Session::new(m)
}

#[test]
fn pacing_waits_when_early() {
    assert_eq!(frame_pacing(0), Pacing::Wait { sleep_micros: 16700 });
    assert_eq!(frame_pacing(16000), Pacing::Wait { sleep_micros: 700 });
    assert_eq!(frame_pacing(16700), Pacing::Wait { sleep_micros: 0 });
}

#[test]
fn pacing_reports_slow_frames() {
    assert_eq!(frame_pacing(16750), Pacing::OnTime);
    assert_eq!(frame_pacing(25999), Pacing::OnTime);
    assert_eq!(frame_pacing(26000), Pacing::SlowFrame { elapsed_millis: 26 });
    assert_eq!(frame_pacing(40000), Pacing::SlowFrame { elapsed_millis: 40 });
}

#[test]
fn free_run_advances_one_frame() {
    let mut s = session_with_ram();
    assert!(s.runs_free());
    assert_eq!(s.update(), UpdateKind::FreeRun);
    assert_eq!(s.ps1.get_cpu_registers().pc, 4000);
    assert_eq!(s.take_frame().map(|f| f.len()), Some(640 * 480 * 4));
    assert!(s.take_frame().is_none());
}

#[test]
fn free_run_pauses_on_breakpoint() {
    let mut s = session_with_ram();
    s.apply(GuiAction::SetBreakpoint(0x20));
    assert_eq!(s.update(), UpdateKind::FreeRun);
    assert!(s.is_paused);
    assert!(s.check_and_clear_breakpoint_hit());
    assert!(!s.check_and_clear_breakpoint_hit());
    assert_eq!(s.ps1.get_cpu_registers().pc, 0x20);
    assert_eq!(s.update(), UpdateKind::Idle);
}

#[test]
fn step_requests_are_served() {
    let mut s = session_with_ram();
    s.apply(GuiAction::TogglePause);
    assert!(s.is_paused);
    assert_eq!(s.update(), UpdateKind::Idle);
    s.step_single_cycle = true;
    assert_eq!(s.update(), UpdateKind::SingleInstruction);
    assert_eq!(s.ps1.get_cpu_registers().pc, 4);
    s.apply(GuiAction::StepCycles(5));
    assert_eq!(s.update(), UpdateKind::Instructions);
    assert_eq!(s.ps1.get_cpu_registers().pc, 24);
    s.step_single_frame = true;
    assert_eq!(s.update(), UpdateKind::SingleFrame);
    assert_eq!(s.ps1.get_cpu_registers().pc, 4024);
    s.apply(GuiAction::StepFrames(2));
    assert_eq!(s.update(), UpdateKind::Frames);
    assert_eq!(s.ps1.get_cpu_registers().pc, 12024);
    assert!(s.take_frame().is_some());
}

#[test]
fn fault_stops_session_until_cleared() {
    let mut s = Session::new(PS1::new());
    assert_eq!(s.update(), UpdateKind::FreeRun);
    assert_eq!(
        s.ps1.get_fault(),
        Some(StepFault::UnimplementedOpcode { address: 0, raw_opcode: 0xFFFF_FFFF })
    );
    assert!(s.take_frame().is_none());
    assert!(!s.runs_free());
    assert_eq!(s.update(), UpdateKind::Idle);
    s.apply(GuiAction::ClearError);
    assert_eq!(s.ps1.get_fault(), None);
    assert!(s.is_paused);
    s.apply(GuiAction::Restart);
    assert!(!s.is_paused);
    assert_eq!(s.ps1.get_cpu_registers().pc, 0);
}

#[test]
fn breakpoint_actions_reach_machine() {
    let mut s = Session::new(PS1::new());
    s.apply(GuiAction::SetBreakpoint(0x100));
    s.apply(GuiAction::SetBreakpoint(0x50));
    assert_eq!(s.ps1.get_breakpoints(), vec![0x50, 0x100]);
    s.apply(GuiAction::RemoveBreakpoint(0x100));
    assert_eq!(s.ps1.get_breakpoints(), vec![0x50]);
    s.apply(GuiAction::Exit);
    assert_eq!(s.ps1.get_breakpoints(), vec![0x50]);
}
