use rustypsx::buffer::{Addressable, Memory, OPEN_BUS};
use rustypsx::config::RawConfig;
use rustypsx::cpu::{decode, fetch_word, Instruction, StepFault, R3000A};
use rustypsx::mmio::{segment_of, MapError, Mmio, Segment};
use rustypsx::psx::{RunResult, StepResult, StopReason, FRAME_BYTES, PS1};
use rustypsx::registers::{Registers, RESET_VECTOR};

fn machine_with_ram(size: usize) -> PS1 {
    let mut m = PS1::new();
    assert_eq!(m.map_memory(0, size), Ok(()));
    m
}

#[test]
fn register_zero_reads_zero_after_write() {
    let mut r = Registers::new();
    r.write(0, 0xDEAD_BEEF);
    assert_eq!(r.read(0), 0);
    r.write(0, 1);
    assert_eq!(r.read(0), 0);
    assert_eq!(r.gpr[0], 0);
}

#[test]
fn register_write_then_read() {
    let mut r = Registers::new();
    r.write(7, 42);
    assert_eq!(r.read(7), 42);
    assert_eq!(r.read(6), 0);
    r.write(31, u32::MAX);
    assert_eq!(r.read(31), u32::MAX);
}

#[test]
fn registers_reset_zeroes_everything() {
    let mut r = Registers::new();
    r.write(5, 9);
    r.hi = 3;
    r.lo = 4;
    r.pc = 0x100;
    r.reset();
    assert_eq!(r.gpr, [0u32; 32]);
    assert_eq!((r.hi, r.lo, r.pc), (0, 0, RESET_VECTOR));
}

#[test]
fn memory_window_reads_and_writes() {
    let mut m = Memory::new(0x100, 16);
    assert_eq!(m.read(0x100), 0);
    m.write(0x10F, 0xAB);
    assert_eq!(m.read(0x10F), 0xAB);
    assert_eq!(m.data[15], 0xAB);
    assert_eq!(m.read(0x110), OPEN_BUS);
    assert_eq!(m.read(0xFF), OPEN_BUS);
    m.write(0x110, 1);
    assert_eq!(m.data.len(), 16);
}

#[test]
fn segments_partition_the_space() {
    assert_eq!(segment_of(0), Segment::User);
    assert_eq!(segment_of(0x7FFF_FFFF), Segment::User);
    assert_eq!(segment_of(0x8000_0000), Segment::CachedKernel);
    assert_eq!(segment_of(0x9FFF_FFFF), Segment::CachedKernel);
    assert_eq!(segment_of(0xA000_0000), Segment::UncachedKernel);
    assert_eq!(segment_of(0xBFFF_FFFF), Segment::UncachedKernel);
    assert_eq!(segment_of(0xC000_0000), Segment::Kernel2);
    assert_eq!(segment_of(u32::MAX), Segment::Kernel2);
}

#[test]
fn bus_is_open_without_windows() {
    let mut bus = Mmio::new();
    assert_eq!(bus.read(0), OPEN_BUS);
    assert_eq!(bus.read(0xBFC0_0000), OPEN_BUS);
    bus.write(0, 5);
    assert_eq!(bus.read(0), OPEN_BUS);
}

#[test]
fn bus_routes_to_windows() {
    let mut bus = Mmio::new();
    assert_eq!(bus.map_region(0x1000, 0x100), Ok(()));
    assert_eq!(bus.map_region(0x2000, 0x10), Ok(()));
    bus.write(0x1005, 7);
    bus.write(0x200F, 9);
    bus.write(0x2010, 1);
    assert_eq!(bus.read(0x1005), 7);
    assert_eq!(bus.read(0x200F), 9);
    assert_eq!(bus.read(0x2010), OPEN_BUS);
    assert_eq!(bus.read(0x0FFF), OPEN_BUS);
}

#[test]
fn bus_rejects_bad_windows() {
    let mut bus = Mmio::new();
    assert_eq!(bus.map_region(0x1000, 0), Err(MapError::Empty));
    assert_eq!(bus.map_region(0xFFFF_FFF0, 0x11), Err(MapError::OutOfRange));
    assert_eq!(bus.map_region(0xFFFF_FFF0, 0x10), Ok(()));
    assert_eq!(bus.map_region(0x1000, 0x100), Ok(()));
    assert_eq!(bus.map_region(0x10FF, 1), Err(MapError::Overlap));
    assert_eq!(bus.map_region(0x0F00, 0x101), Err(MapError::Overlap));
    assert_eq!(bus.map_region(0x0F00, 0x100), Ok(()));
    assert_eq!(bus.map_region(0x1100, 4), Ok(()));
}

#[test]
fn bus_reset_zeroes_windows() {
    let mut bus = Mmio::new();
    assert_eq!(bus.map_region(0, 8), Ok(()));
    bus.write(3, 0x55);
    bus.reset();
    assert_eq!(bus.read(3), 0);
    assert_eq!(bus.read(8), OPEN_BUS);
}

#[test]
fn fetch_is_little_endian() {
    let mut bus = Mmio::new();
    assert_eq!(bus.map_region(0, 8), Ok(()));
    bus.write(0, 0x78);
    bus.write(1, 0x56);
    bus.write(2, 0x34);
    bus.write(3, 0x12);
    assert_eq!(fetch_word(&bus, 0), 0x1234_5678);
    assert_eq!(fetch_word(&bus, 6), 0xFFFF_0000);
}

#[test]
fn decode_knows_nop_only() {
    assert_eq!(decode(0), Some(Instruction::Nop));
    assert_eq!(decode(1), None);
    assert_eq!(decode(0xFFFF_FFFF), None);
}

#[test]
fn cpu_step_runs_nop_and_faults_on_unknown() {
    let mut bus = Mmio::new();
    assert_eq!(bus.map_region(0, 8), Ok(()));
    bus.write(4, 0x01);
    let mut cpu = R3000A::new();
    assert_eq!(cpu.step(&mut bus), Ok(1));
    assert_eq!(cpu.registers.pc, 4);
    assert_eq!(
        cpu.step(&mut bus),
        Err(StepFault::UnimplementedOpcode { address: 4, raw_opcode: 1 })
    );
    assert_eq!(cpu.registers.pc, 4);
}

#[test]
fn scenario_fresh_machine_faults() {
    let mut m = PS1::new();
    let r = m.step_instruction();
    assert_eq!(
        r,
        StepResult::Faulted(StepFault::UnimplementedOpcode { address: 0, raw_opcode: 0xFFFF_FFFF })
    );
    assert_eq!(m.get_fault(), Some(StepFault::UnimplementedOpcode { address: 0, raw_opcode: 0xFFFF_FFFF }));
    let regs = m.get_cpu_registers();
    assert_eq!(regs.gpr, [0u32; 32]);
    assert_eq!((regs.hi, regs.lo, regs.pc), (0, 0, 0));
}

#[test]
fn faulted_machine_does_not_advance_until_cleared() {
    let mut m = PS1::new();
    let fault = StepFault::UnimplementedOpcode { address: 0, raw_opcode: 0xFFFF_FFFF };
    assert_eq!(m.step_instruction(), StepResult::Faulted(fault));
    assert_eq!(m.step_instruction(), StepResult::Faulted(fault));
    assert_eq!(m.map_memory(0, 16), Ok(()));
    assert_eq!(m.step_instruction(), StepResult::Faulted(fault));
    m.clear_fault();
    assert_eq!(m.get_fault(), None);
    assert_eq!(m.step_instruction(), StepResult::Executed { cycles: 1 });
    assert_eq!(m.get_cpu_registers().pc, 4);
}

#[test]
fn scenario_breakpoint_at_reset_vector() {
    let mut m = PS1::new();
    m.add_breakpoint(0);
    assert_eq!(m.step_instruction(), StepResult::BreakpointHit { address: 0 });
    assert_eq!(m.get_cpu_registers().pc, 0);
    assert_eq!(m.get_fault(), None);
}

#[test]
fn scenario_remove_breakpoint_then_fault() {
    let mut m = PS1::new();
    m.add_breakpoint(0);
    assert_eq!(m.step_instruction(), StepResult::BreakpointHit { address: 0 });
    m.remove_breakpoint(0);
    assert!(m.get_breakpoints().is_empty());
    assert_eq!(
        m.step_instruction(),
        StepResult::Faulted(StepFault::UnimplementedOpcode { address: 0, raw_opcode: 0xFFFF_FFFF })
    );
}

#[test]
fn scenario_cycle_budget_exhausted() {
    let mut m = machine_with_ram(0x1000);
    let r = m.run_until(1000, |_bus: &Mmio| false);
    assert_eq!(r, RunResult { reason: StopReason::BudgetExhausted, cycles: 1000 });
    assert_eq!(m.get_cpu_registers().pc, 4000);
}

#[test]
fn run_with_zero_budget_takes_one_step() {
    let mut m = machine_with_ram(0x10);
    let r = m.run_until(0, |_bus: &Mmio| false);
    assert_eq!(r, RunResult { reason: StopReason::BudgetExhausted, cycles: 1 });
}

#[test]
fn run_stops_at_breakpoint_without_running_it() {
    let mut m = machine_with_ram(0x100);
    m.add_breakpoint(8);
    let r = m.run_until(1000, |_bus: &Mmio| false);
    assert_eq!(r, RunResult { reason: StopReason::BreakpointHit { address: 8 }, cycles: 2 });
    assert_eq!(m.get_cpu_registers().pc, 8);
    let again = m.run_until(1000, |_bus: &Mmio| false);
    assert_eq!(again, RunResult { reason: StopReason::BreakpointHit { address: 8 }, cycles: 0 });
    assert_eq!(m.get_cpu_registers().pc, 8);
}

#[test]
fn run_stops_on_fault() {
    let mut m = machine_with_ram(8);
    let r = m.run_until(1000, |_bus: &Mmio| false);
    assert_eq!(
        r,
        RunResult {
            reason: StopReason::Faulted(StepFault::UnimplementedOpcode {
                address: 8,
                raw_opcode: 0xFFFF_FFFF
            }),
            cycles: 2
        }
    );
}

#[test]
fn run_stops_when_frame_ready() {
    let mut m = machine_with_ram(0x100);
    let r = m.run_until(1000, |_bus: &Mmio| true);
    assert_eq!(r, RunResult { reason: StopReason::FrameReady, cycles: 1 });
}

#[test]
fn run_until_frame_returns_blank_frame() {
    let mut m = machine_with_ram(0x1000);
    let (frame, hit) = m.run_until_frame().unwrap();
    assert!(!hit);
    assert_eq!(frame.len(), FRAME_BYTES);
    assert!(frame.iter().all(|b| *b == 0));
    assert_eq!(m.get_cpu_registers().pc, 4000);
    assert_eq!(m.get_current_frame().len(), 640 * 480 * 4);
}

#[test]
fn run_until_frame_reports_breakpoint_and_fault() {
    let mut m = machine_with_ram(0x1000);
    m.add_breakpoint(40);
    let (_frame, hit) = m.run_until_frame().unwrap();
    assert!(hit);
    let mut fresh = PS1::new();
    assert_eq!(
        fresh.run_until_frame(),
        Err(StepFault::UnimplementedOpcode { address: 0, raw_opcode: 0xFFFF_FFFF })
    );
}

#[test]
fn reset_keeps_breakpoints() {
    let mut m = machine_with_ram(0x100);
    m.add_breakpoint(0x40);
    m.add_breakpoint(0x10);
    m.write_byte(0x20, 0xAA);
    let _ = m.run_until(8, |_bus: &Mmio| false);
    assert_eq!(m.get_cpu_registers().pc, 0x10);
    m.reset();
    assert_eq!(m.get_cpu_registers().pc, 0);
    assert_eq!(m.get_breakpoints(), vec![0x10, 0x40]);
    assert_eq!(m.read_byte(0x20), 0);
    assert_eq!(m.get_fault(), None);
}

#[test]
fn reset_clears_fault() {
    let mut m = PS1::new();
    let _ = m.step_instruction();
    assert!(m.get_fault().is_some());
    m.reset();
    assert_eq!(m.get_fault(), None);
}

#[test]
fn clone_is_independent() {
    let mut m = machine_with_ram(0x100);
    m.add_breakpoint(0x80);
    let mut copy = m.clone();
    assert_eq!(copy.get_breakpoints(), vec![0x80]);
    assert_eq!(copy.step_instruction(), StepResult::Executed { cycles: 1 });
    copy.write_byte(0, 0x11);
    copy.add_breakpoint(0x90);
    assert_eq!(copy.get_cpu_registers().pc, 4);
    assert_eq!(m.get_cpu_registers().pc, 0);
    assert_eq!(m.read_byte(0), 0);
    assert_eq!(copy.read_byte(0), 0x11);
    assert_eq!(m.get_breakpoints(), vec![0x80]);
}

#[test]
fn breakpoints_are_idempotent_and_sorted() {
    let mut m = PS1::new();
    m.add_breakpoint(0x30);
    m.add_breakpoint(0x10);
    m.add_breakpoint(0x30);
    assert_eq!(m.get_breakpoints(), vec![0x10, 0x30]);
    m.remove_breakpoint(0x20);
    assert_eq!(m.get_breakpoints(), vec![0x10, 0x30]);
    m.remove_breakpoint(0x10);
    m.remove_breakpoint(0x10);
    assert_eq!(m.get_breakpoints(), vec![0x30]);
    assert!(m.has_breakpoints());
    m.remove_breakpoint(0x30);
    assert!(!m.has_breakpoints());
}

#[test]
fn config_keeps_scale() {
    let c = RawConfig { scale: 3 }.clean();
    assert_eq!(c.scale, 3);
}

#[test]
fn frame_predicate_is_asked_after_each_step() {
    let mut m = machine_with_ram(0x100);
    let calls = std::cell::Cell::new(0u32);
    let r = m.run_until(1000, |_bus: &Mmio| {
        calls.set(calls.get() + 1);
        calls.get() >= 3
    });
    assert_eq!(r, RunResult { reason: StopReason::FrameReady, cycles: 3 });
    assert_eq!(calls.get(), 3);
    assert_eq!(m.get_cpu_registers().pc, 12);
    m.add_breakpoint(16);
    calls.set(0);
    let hit = m.run_until(1000, |_bus: &Mmio| {
        calls.set(calls.get() + 1);
        false
    });
    assert_eq!(hit, RunResult { reason: StopReason::BreakpointHit { address: 16 }, cycles: 1 });
    assert_eq!(calls.get(), 1);
}
