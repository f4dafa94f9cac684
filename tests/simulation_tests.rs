use voxel_sim::simulation::{LoopAction, LoopPhase, SimulationLoop, DEFAULT_TICK_MS};

#[test]
fn stop_right_after_start_exits_at_once() {
    let mut sim = SimulationLoop::with_default_interval();
    assert!(sim.start());
    sim.stop();
    assert_eq!(sim.next_action(), LoopAction::Exit);
    assert_eq!(sim.next_action(), LoopAction::Exit);
    assert_eq!(sim.phase, LoopPhase::Stopped);
}

#[test]
fn running_loop_alternates_tick_and_sleep() {
    let mut sim = SimulationLoop::new(250);
    assert_eq!(sim.next_action(), LoopAction::Wait);
    assert!(sim.start());
    assert!(!sim.start());
    assert_eq!(sim.next_action(), LoopAction::Tick);
    assert_eq!(sim.next_action(), LoopAction::Sleep(250));
    assert_eq!(sim.next_action(), LoopAction::Tick);
    sim.stop();
    assert_eq!(sim.next_action(), LoopAction::Exit);
}

#[test]
fn default_interval_is_one_second() {
    let sim = SimulationLoop::with_default_interval();
    assert_eq!(DEFAULT_TICK_MS, 1000);
    assert_eq!(sim.interval_ms, 1000);
    assert_eq!(sim.phase, LoopPhase::Idle);
}

#[test]
fn stopped_loop_cannot_restart() {
    let mut sim = SimulationLoop::new(10);
    sim.stop();
    assert!(!sim.start());
    assert_eq!(sim.next_action(), LoopAction::Exit);
}
