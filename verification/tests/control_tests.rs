use fevm_fan_curve::config::Config;
use fevm_fan_curve::control::{
    failsafe_plan, plan_cycle, resolve_sensor_sets, step, CycleAction, CycleEvent, CycleOutcome,
    CyclePlan, CycleState, StartupError,
};
use fevm_fan_curve::sensors::{max_temp_in_hwmons, GroupScan, SensorGroup, TempError, TempFile};

fn strings(items: &[&str]) -> Vec<String> {
    items.iter().map(|s| s.to_string()).collect()
}

fn group(path: &str, name: &str) -> SensorGroup {
    SensorGroup { path: path.to_string(), name: Some(name.to_string()) }
}

fn input(content: &str) -> GroupScan {
    GroupScan::Listed(vec![TempFile {
        name: "temp1_input".to_string(),
        content: Some(content.to_string()),
    }])
}

#[test]
fn both_sensor_sets_resolve() {
    let groups = vec![group("/h0", "k10temp\n"), group("/h1", "spd5118\n")];
    let sets = resolve_sensor_sets(&Config::default(), &groups).unwrap();
    assert_eq!(sets.cpu, strings(&["/h0"]));
    assert_eq!(sets.mem, strings(&["/h1"]));
    assert!(!sets.mem_fell_back);
}

#[test]
fn memory_falls_back_to_the_cpu_set() {
    let groups = vec![group("/h2", "k10temp\n"), group("/h0", "nvme\n"), group("/h1", "k10temp\n")];
    let sets = resolve_sensor_sets(&Config::default(), &groups).unwrap();
    assert_eq!(sets.cpu, strings(&["/h2", "/h1"]));
    assert_eq!(sets.mem, sets.cpu);
    assert!(sets.mem_fell_back);
}

#[test]
fn missing_memory_sensor_without_fallback_is_fatal() {
    let groups = vec![group("/h0", "k10temp\n")];
    let mut cfg = Config::default();
    cfg.mem_fallback_to_cpu = false;
    assert_eq!(resolve_sensor_sets(&cfg, &groups), Err(StartupError::MemSensorNotFound));
}

#[test]
fn missing_cpu_sensor_is_fatal() {
    let groups = vec![group("/h1", "spd5118\n")];
    assert_eq!(resolve_sensor_sets(&Config::default(), &groups), Err(StartupError::CpuSensorNotFound));
    let mut cfg = Config::default();
    cfg.mem_fallback_to_cpu = false;
    assert_eq!(resolve_sensor_sets(&cfg, &vec![]), Err(StartupError::CpuSensorNotFound));
}

#[test]
fn cycle_at_control_points() {
    let cfg = Config::default();
    let plan = plan_cycle(&cfg, Ok(65_000), Ok(50_000));
    assert_eq!(plan, CyclePlan { outcome: CycleOutcome::Normal, fan1: 55, fan2: 40 });
}

#[test]
fn cycle_from_sensor_text_to_duties() {
    let cfg = Config::default();
    let cpu = max_temp_in_hwmons(&vec![input("65000\n")]);
    let mem = max_temp_in_hwmons(&vec![input("50000\n")]);
    let plan = plan_cycle(&cfg, cpu, mem);
    assert_eq!(plan.outcome, CycleOutcome::Normal);
    assert_eq!(plan.fan1, 55);
    assert_eq!(plan.fan2, 40);
}

#[test]
fn cycle_duties_are_clamped() {
    let mut cfg = Config::default();
    cfg.min_duty = 30;
    cfg.max_duty = 60;
    assert_eq!(
        plan_cycle(&cfg, Ok(20_000), Ok(90_000)),
        CyclePlan { outcome: CycleOutcome::Normal, fan1: 30, fan2: 60 }
    );
}

#[test]
fn failed_reading_gives_failsafe_and_next_cycle_recovers() {
    let cfg = Config::default();
    let cpu = max_temp_in_hwmons(&vec![input("65000\n")]);
    let gone = max_temp_in_hwmons(&vec![GroupScan::Unreadable]);
    assert_eq!(gone, Err(TempError::ScanFailed));
    assert_eq!(
        plan_cycle(&cfg, cpu, gone),
        CyclePlan { outcome: CycleOutcome::Failsafe, fan1: 70, fan2: 70 }
    );
    let back = max_temp_in_hwmons(&vec![input("50000\n")]);
    assert_eq!(
        plan_cycle(&cfg, cpu, back),
        CyclePlan { outcome: CycleOutcome::Normal, fan1: 55, fan2: 40 }
    );
}

#[test]
fn either_failed_reading_gives_failsafe() {
    let cfg = Config::default();
    let failsafe = CyclePlan { outcome: CycleOutcome::Failsafe, fan1: 70, fan2: 70 };
    assert_eq!(plan_cycle(&cfg, Err(TempError::NoInputs), Ok(50_000)), failsafe);
    assert_eq!(plan_cycle(&cfg, Ok(50_000), Err(TempError::NoInputs)), failsafe);
    assert_eq!(plan_cycle(&cfg, Err(TempError::ScanFailed), Err(TempError::NoInputs)), failsafe);
}

#[test]
fn failed_reading_needs_no_curve() {
    let mut cfg = Config::default();
    cfg.cpu_curve = vec![];
    cfg.mem_curve = vec![];
    assert_eq!(plan_cycle(&cfg, Err(TempError::NoInputs), Ok(1)).outcome, CycleOutcome::Failsafe);
}

#[test]
fn failsafe_duty_is_clamped() {
    let mut cfg = Config::default();
    assert_eq!(failsafe_plan(&cfg), CyclePlan { outcome: CycleOutcome::Failsafe, fan1: 70, fan2: 70 });
    cfg.failsafe_duty = 150;
    assert_eq!(failsafe_plan(&cfg), CyclePlan { outcome: CycleOutcome::Failsafe, fan1: 100, fan2: 100 });
    cfg.failsafe_duty = 5;
    assert_eq!(failsafe_plan(&cfg), CyclePlan { outcome: CycleOutcome::Failsafe, fan1: 20, fan2: 20 });
    cfg.min_duty = 80;
    cfg.max_duty = 40;
    assert_eq!(failsafe_plan(&cfg), CyclePlan { outcome: CycleOutcome::Failsafe, fan1: 80, fan2: 80 });
}

const WROTE: CycleEvent = CycleEvent::Wrote { ok: true };
const WRITE_FAILED: CycleEvent = CycleEvent::Wrote { ok: false };

fn run(cfg: &Config, events: &[CycleEvent]) -> (CycleState, Vec<CycleAction>) {
    let mut state = CycleState::Idle;
    let mut actions = Vec::new();
    for &event in events {
        let (next, action) = step(cfg, state, event);
        state = next;
        actions.push(action);
    }
    (state, actions)
}

#[test]
fn normal_cycle_step_by_step() {
    let cfg = Config::default();
    let events = [
        CycleEvent::Woke,
        CycleEvent::Temperature(Ok(65_000)),
        CycleEvent::Temperature(Ok(50_000)),
        WROTE,
        WROTE,
    ];
    let (state, actions) = run(&cfg, &events);
    assert_eq!(state, CycleState::Idle);
    assert_eq!(
        actions,
        vec![
            CycleAction::ReadCpu,
            CycleAction::ReadMem,
            CycleAction::WriteFan1 { duty: 55 },
            CycleAction::WriteFan2 { duty: 40 },
            CycleAction::Sleep { ms: 1000, outcome: CycleOutcome::Normal },
        ]
    );
}

#[test]
fn failed_memory_reading_writes_failsafe_then_recovers() {
    let cfg = Config::default();
    let events = [
        CycleEvent::Woke,
        CycleEvent::Temperature(Ok(65_000)),
        CycleEvent::Temperature(Err(TempError::ScanFailed)),
        WROTE,
        WROTE,
        CycleEvent::Woke,
        CycleEvent::Temperature(Ok(65_000)),
        CycleEvent::Temperature(Ok(50_000)),
        WROTE,
        WROTE,
    ];
    let (state, actions) = run(&cfg, &events);
    assert_eq!(state, CycleState::Idle);
    assert_eq!(
        actions,
        vec![
            CycleAction::ReadCpu,
            CycleAction::ReadMem,
            CycleAction::WriteFan1 { duty: 70 },
            CycleAction::WriteFan2 { duty: 70 },
            CycleAction::Sleep { ms: 1000, outcome: CycleOutcome::Failsafe },
            CycleAction::ReadCpu,
            CycleAction::ReadMem,
            CycleAction::WriteFan1 { duty: 55 },
            CycleAction::WriteFan2 { duty: 40 },
            CycleAction::Sleep { ms: 1000, outcome: CycleOutcome::Normal },
        ]
    );
}

#[test]
fn failed_cpu_reading_skips_the_memory_reading() {
    let cfg = Config::default();
    let events = [CycleEvent::Woke, CycleEvent::Temperature(Err(TempError::NoInputs)), WROTE, WROTE];
    let (state, actions) = run(&cfg, &events);
    assert_eq!(state, CycleState::Idle);
    assert_eq!(
        actions,
        vec![
            CycleAction::ReadCpu,
            CycleAction::WriteFan1 { duty: 70 },
            CycleAction::WriteFan2 { duty: 70 },
            CycleAction::Sleep { ms: 1000, outcome: CycleOutcome::Failsafe },
        ]
    );
}

#[test]
fn failed_write_opens_the_failsafe() {
    let mut cfg = Config::default();
    cfg.failsafe_duty = 150;
    cfg.poll_ms = 250;
    let first_fails = [
        CycleEvent::Woke,
        CycleEvent::Temperature(Ok(65_000)),
        CycleEvent::Temperature(Ok(50_000)),
        WRITE_FAILED,
        WROTE,
        WROTE,
    ];
    let (state, actions) = run(&cfg, &first_fails);
    assert_eq!(state, CycleState::Idle);
    assert_eq!(
        actions[2..],
        [
            CycleAction::WriteFan1 { duty: 55 },
            CycleAction::WriteFan1 { duty: 100 },
            CycleAction::WriteFan2 { duty: 100 },
            CycleAction::Sleep { ms: 250, outcome: CycleOutcome::Failsafe },
        ]
    );
    let second_fails = [
        CycleEvent::Woke,
        CycleEvent::Temperature(Ok(65_000)),
        CycleEvent::Temperature(Ok(50_000)),
        WROTE,
        WRITE_FAILED,
        WROTE,
        WROTE,
    ];
    let (state, actions) = run(&cfg, &second_fails);
    assert_eq!(state, CycleState::Idle);
    assert_eq!(
        actions[2..],
        [
            CycleAction::WriteFan1 { duty: 55 },
            CycleAction::WriteFan2 { duty: 40 },
            CycleAction::WriteFan1 { duty: 100 },
            CycleAction::WriteFan2 { duty: 100 },
            CycleAction::Sleep { ms: 250, outcome: CycleOutcome::Failsafe },
        ]
    );
}

#[test]
fn failsafe_writes_that_fail_are_not_escalated() {
    let cfg = Config::default();
    let events = [
        CycleEvent::Woke,
        CycleEvent::Temperature(Err(TempError::ScanFailed)),
        WRITE_FAILED,
        WRITE_FAILED,
        CycleEvent::Woke,
    ];
    let (state, actions) = run(&cfg, &events);
    assert_eq!(state, CycleState::ReadingCpu);
    assert_eq!(
        actions,
        vec![
            CycleAction::ReadCpu,
            CycleAction::WriteFan1 { duty: 70 },
            CycleAction::WriteFan2 { duty: 70 },
            CycleAction::Sleep { ms: 1000, outcome: CycleOutcome::Failsafe },
            CycleAction::ReadCpu,
        ]
    );
}

#[test]
fn unexpected_event_counts_as_a_failure() {
    let cfg = Config::default();
    assert_eq!(
        step(&cfg, CycleState::ReadingCpu, WROTE),
        (CycleState::FailsafeFan1, CycleAction::WriteFan1 { duty: 70 })
    );
    assert_eq!(
        step(&cfg, CycleState::WritingFan2, CycleEvent::Temperature(Ok(1))),
        (CycleState::FailsafeFan1, CycleAction::WriteFan1 { duty: 70 })
    );
}
