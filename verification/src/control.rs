//! Startup and per-cycle policy: which sensor sets the daemon runs with, and
//! which duties a cycle writes.

use crate::config::{Config, ConfigView};
use crate::curve::{curve_duty, lerp_curve};
use crate::duty::{clamp_duty, clamped};
use crate::sensors::{discovered, first_occurrences, resolve_hwmons, SensorGroup, TempError};
use crate::text::string_views;
use vstd::prelude::*;

verus! {

/// Why the daemon cannot start.
#[derive(Clone, Copy, Debug, PartialEq, Eq, Structural)]
pub enum StartupError {
    /// No sensor group declares any of the CPU chip names.
    CpuSensorNotFound,
    /// No sensor group declares any of the memory chip names, and falling back
    /// to the CPU sensors is switched off.
    MemSensorNotFound,
}

/// The sensor groups that the daemon reads, fixed at startup.
#[derive(Clone, Debug, PartialEq, Eq)]
pub struct SensorSets {
    /// Paths of the CPU sensor groups; never empty.
    pub cpu: Vec<String>,
    /// Paths of the memory sensor groups; never empty.
    pub mem: Vec<String>,
    /// Whether `mem` is a copy of `cpu` for want of a memory sensor.
    pub mem_fell_back: bool,
}

/// The groups that `names` select among `groups`.
pub open spec fn resolved(groups: Seq<SensorGroup>, names: Seq<String>) -> Seq<Seq<char>> {
    first_occurrences(discovered(groups, names))
}

/// A copy of `paths`.
fn clone_paths(paths: &Vec<String>) -> (copy: Vec<String>)
    ensures
        string_views(copy@) == string_views(paths@),
{
    let mut copy: Vec<String> = Vec::new();
    let mut i: usize = 0;
    while i < paths.len()
        invariant
            i <= paths.len(),
            copy@.len() == i,
            forall|j: int| 0 <= j < i ==> copy@[j]@ == paths@[j]@,
        decreases paths.len() - i,
    {
        copy.push(paths[i].clone());
        i += 1;
    }
    assert(string_views(copy@) =~= string_views(paths@));
    copy
}

/// Resolves the CPU and the memory sensor sets among the groups that a scan
/// found.
///
/// Without a CPU sensor there is no start. Without a memory sensor the memory
/// set becomes a copy of the CPU set where the configuration allows the
/// fallback, and there is no start where it does not.
pub fn resolve_sensor_sets(cfg: &Config, groups: &Vec<SensorGroup>) -> (sets: Result<
    SensorSets,
    StartupError,
>)
    ensures
        ({
            let cpu = resolved(groups@, cfg.cpu_sensor_names@);
            let mem = resolved(groups@, cfg.mem_sensor_names@);
            match sets {
                Err(StartupError::CpuSensorNotFound) => cpu.len() == 0,
                Err(StartupError::MemSensorNotFound) => cpu.len() > 0 && mem.len() == 0
                    && !cfg.mem_fallback_to_cpu,
                Ok(s) => {
                    &&& cpu.len() > 0
                    &&& string_views(s.cpu@) == cpu
                    &&& s.mem_fell_back == (mem.len() == 0)
                    &&& s.mem_fell_back ==> cfg.mem_fallback_to_cpu
                    &&& string_views(s.mem@) == if s.mem_fell_back {
                        cpu
                    } else {
                        mem
                    }
                },
            }
        }),
{
    let cpu = resolve_hwmons(cfg.cpu_sensor_names.as_slice(), groups);
    if cpu.len() == 0 {
        return Err(StartupError::CpuSensorNotFound);
    }
    let mem = resolve_hwmons(cfg.mem_sensor_names.as_slice(), groups);
    if mem.len() == 0 {
        if cfg.mem_fallback_to_cpu {
            let copy = clone_paths(&cpu);
            Ok(SensorSets { cpu, mem: copy, mem_fell_back: true })
        } else {
            Err(StartupError::MemSensorNotFound)
        }
    } else {
        Ok(SensorSets { cpu, mem, mem_fell_back: false })
    }
}

/// How a cycle ends. It is decided anew in every cycle.
#[derive(Clone, Copy, Debug, PartialEq, Eq, Structural)]
pub enum CycleOutcome {
    /// Both temperatures were read; the duties come from the curves.
    Normal,
    /// Something failed; both fans get the failsafe duty.
    Failsafe,
}

/// What a cycle writes to the two fans.
#[derive(Clone, Copy, Debug, PartialEq, Eq, Structural)]
pub struct CyclePlan {
    pub outcome: CycleOutcome,
    /// The duty for the first fan, inside the configured bounds.
    pub fan1: i32,
    /// The duty for the second fan, inside the configured bounds.
    pub fan2: i32,
}

/// The plan that drives both fans at the clamped failsafe duty.
pub open spec fn failsafe_of(cfg: ConfigView) -> CyclePlan {
    let duty = clamped(cfg.failsafe_duty as int, cfg.min_duty as int, cfg.max_duty as int) as i32;
    CyclePlan { outcome: CycleOutcome::Failsafe, fan1: duty, fan2: duty }
}

/// The plan for a cycle with the given outcome of reading the CPU and the
/// memory temperature (millidegrees).
pub open spec fn planned(
    cfg: ConfigView,
    cpu: Result<i32, TempError>,
    mem: Result<i32, TempError>,
) -> CyclePlan {
    match (cpu, mem) {
        (Ok(cpu_mc), Ok(mem_mc)) => CyclePlan {
            outcome: CycleOutcome::Normal,
            fan1: clamped(
                curve_duty(cfg.cpu_curve, cpu_mc as int),
                cfg.min_duty as int,
                cfg.max_duty as int,
            ) as i32,
            fan2: clamped(
                curve_duty(cfg.mem_curve, mem_mc as int),
                cfg.min_duty as int,
                cfg.max_duty as int,
            ) as i32,
        },
        _ => failsafe_of(cfg),
    }
}

/// The plan for a cycle that cannot complete: the failsafe duty, clamped, for
/// both fans.
pub fn failsafe_plan(cfg: &Config) -> (plan: CyclePlan)
    ensures
        plan == failsafe_of(cfg@),
        plan.fan1 == plan.fan2,
        cfg.min_duty <= cfg.max_duty ==> cfg.min_duty <= plan.fan1 <= cfg.max_duty,
{
    let duty = clamp_duty(cfg.failsafe_duty, cfg.min_duty, cfg.max_duty);
    CyclePlan { outcome: CycleOutcome::Failsafe, fan1: duty, fan2: duty }
}

/// Decides what one cycle writes.
///
/// With both temperatures read, each fan gets its curve's duty for its
/// temperature, clamped to the configured bounds. If either reading failed,
/// both fans get the failsafe duty, clamped to the same bounds.
pub fn plan_cycle(cfg: &Config, cpu: Result<i32, TempError>, mem: Result<i32, TempError>) -> (plan:
    CyclePlan)
    requires
        cpu is Ok && mem is Ok ==> cfg.cpu_curve@.len() > 0 && cfg.mem_curve@.len() > 0,
    ensures
        plan == planned(cfg@, cpu, mem),
        (plan.outcome == CycleOutcome::Normal) == (cpu is Ok && mem is Ok),
        cfg.min_duty <= cfg.max_duty ==> cfg.min_duty <= plan.fan1 <= cfg.max_duty
            && cfg.min_duty <= plan.fan2 <= cfg.max_duty,
{
    match (cpu, mem) {
        (Ok(cpu_mc), Ok(mem_mc)) => {
            let cpu_duty = lerp_curve(cpu_mc as i64, &cfg.cpu_curve);
            let mem_duty = lerp_curve(mem_mc as i64, &cfg.mem_curve);
            CyclePlan {
                outcome: CycleOutcome::Normal,
                fan1: clamp_duty(cpu_duty, cfg.min_duty, cfg.max_duty),
                fan2: clamp_duty(mem_duty, cfg.min_duty, cfg.max_duty),
            }
        },
        _ => failsafe_plan(cfg),
    }
}

/// Where the daemon stands within a cycle.
#[derive(Clone, Copy, Debug, PartialEq, Eq, Structural)]
pub enum CycleState {
    /// Between two cycles.
    Idle,
    /// The CPU temperature is being read.
    ReadingCpu,
    /// The memory temperature is being read; the CPU temperature is known.
    ReadingMem { cpu_mc: i32 },
    /// The first fan's duty is being written; the second fan's is next.
    WritingFan1 { fan2: i32 },
    /// The second fan's duty is being written.
    WritingFan2,
    /// The failsafe duty is being written to the first fan.
    FailsafeFan1,
    /// The failsafe duty is being written to the second fan.
    FailsafeFan2,
}

/// What happened since the last step.
#[derive(Clone, Copy, Debug, PartialEq, Eq)]
pub enum CycleEvent {
    /// The poll interval is over, or the daemon has just started.
    Woke,
    /// A sensor set was read, with this result in millidegrees.
    Temperature(Result<i32, TempError>),
    /// A duty was written to a fan, or could not be.
    Wrote { ok: bool },
}

/// What the daemon has to do next.
#[derive(Clone, Copy, Debug, PartialEq, Eq, Structural)]
pub enum CycleAction {
    /// Read the highest temperature of the CPU sensor set.
    ReadCpu,
    /// Read the highest temperature of the memory sensor set.
    ReadMem,
    /// Write this duty to the first fan.
    WriteFan1 { duty: i32 },
    /// Write this duty to the second fan.
    WriteFan2 { duty: i32 },
    /// The cycle is over: sleep for the poll interval.
    Sleep { ms: u64, outcome: CycleOutcome },
}

/// The step that opens the failsafe: its duty goes to the first fan.
pub open spec fn enter_failsafe(cfg: ConfigView) -> (CycleState, CycleAction) {
    (CycleState::FailsafeFan1, CycleAction::WriteFan1 { duty: failsafe_of(cfg).fan1 })
}

/// The state and the action that follow `state` on `event`.
///
/// A cycle reads the CPU and then the memory temperature, and writes the first
/// and then the second fan's duty. The first step that fails opens the
/// failsafe: both fans are written the failsafe duty, whether or not those
/// writes succeed. An event that the state does not wait for counts as a
/// failure. Every cycle ends in a sleep.
pub open spec fn next_step(cfg: ConfigView, state: CycleState, event: CycleEvent) -> (
    CycleState,
    CycleAction,
) {
    match state {
        CycleState::Idle => (CycleState::ReadingCpu, CycleAction::ReadCpu),
        CycleState::ReadingCpu => match event {
            CycleEvent::Temperature(Ok(cpu_mc)) => (
                CycleState::ReadingMem { cpu_mc },
                CycleAction::ReadMem,
            ),
            _ => enter_failsafe(cfg),
        },
        CycleState::ReadingMem { cpu_mc } => match event {
            CycleEvent::Temperature(Ok(mem_mc)) => {
                let plan = planned(cfg, Ok(cpu_mc), Ok(mem_mc));
                (
                    CycleState::WritingFan1 { fan2: plan.fan2 },
                    CycleAction::WriteFan1 { duty: plan.fan1 },
                )
            },
            _ => enter_failsafe(cfg),
        },
        CycleState::WritingFan1 { fan2 } => match event {
            CycleEvent::Wrote { ok: true } => (
                CycleState::WritingFan2,
                CycleAction::WriteFan2 { duty: fan2 },
            ),
            _ => enter_failsafe(cfg),
        },
        CycleState::WritingFan2 => match event {
            CycleEvent::Wrote { ok: true } => (
                CycleState::Idle,
                CycleAction::Sleep { ms: cfg.poll_ms, outcome: CycleOutcome::Normal },
            ),
            _ => enter_failsafe(cfg),
        },
        CycleState::FailsafeFan1 => (
            CycleState::FailsafeFan2,
            CycleAction::WriteFan2 { duty: failsafe_of(cfg).fan2 },
        ),
        CycleState::FailsafeFan2 => (
            CycleState::Idle,
            CycleAction::Sleep { ms: cfg.poll_ms, outcome: CycleOutcome::Failsafe },
        ),
    }
}

/// How many steps a cycle can still take from `state` before it sleeps.
pub open spec fn steps_left(state: CycleState) -> nat {
    match state {
        CycleState::Idle => 8,
        CycleState::ReadingCpu => 7,
        CycleState::ReadingMem { .. } => 6,
        CycleState::WritingFan1 { .. } => 5,
        CycleState::WritingFan2 => 4,
        CycleState::FailsafeFan1 => 2,
        CycleState::FailsafeFan2 => 1,
    }
}

/// Whether `action` writes a duty outside `lo ..= hi`.
pub open spec fn writes_outside(action: CycleAction, lo: int, hi: int) -> bool {
    match action {
        CycleAction::WriteFan1 { duty } => !(lo <= duty <= hi),
        CycleAction::WriteFan2 { duty } => !(lo <= duty <= hi),
        _ => false,
    }
}

/// Whether every duty that the daemon still has to write from `state` lies in
/// `lo ..= hi`.
pub open spec fn holds_duty_within(state: CycleState, lo: int, hi: int) -> bool {
    match state {
        CycleState::WritingFan1 { fan2 } => lo <= fan2 <= hi,
        _ => true,
    }
}

/// Whether the step from `state` on `event` evaluates the curves.
pub open spec fn evaluates_curves(state: CycleState, event: CycleEvent) -> bool {
    state is ReadingMem && match event {
        CycleEvent::Temperature(Ok(_)) => true,
        _ => false,
    }
}

/// Advances the cycle by one step: from the state and what happened to the
/// next state and what to do.
pub fn step(cfg: &Config, state: CycleState, event: CycleEvent) -> (next: (CycleState, CycleAction))
    requires
        evaluates_curves(state, event) ==> cfg.cpu_curve@.len() > 0 && cfg.mem_curve@.len() > 0,
    ensures
        next == next_step(cfg@, state, event),
        (next.1 is Sleep) == (next.0 is Idle),
        !(next.0 is Idle) ==> steps_left(next.0) < steps_left(state),
        cfg.min_duty <= cfg.max_duty && holds_duty_within(
            state,
            cfg.min_duty as int,
            cfg.max_duty as int,
        ) ==> !writes_outside(next.1, cfg.min_duty as int, cfg.max_duty as int)
            && holds_duty_within(next.0, cfg.min_duty as int, cfg.max_duty as int),
{
    let failsafe = failsafe_plan(cfg);
    let fail = (CycleState::FailsafeFan1, CycleAction::WriteFan1 { duty: failsafe.fan1 });
    match state {
        CycleState::Idle => (CycleState::ReadingCpu, CycleAction::ReadCpu),
        CycleState::ReadingCpu => match event {
            CycleEvent::Temperature(Ok(cpu_mc)) => (
                CycleState::ReadingMem { cpu_mc },
                CycleAction::ReadMem,
            ),
            _ => fail,
        },
        CycleState::ReadingMem { cpu_mc } => match event {
            CycleEvent::Temperature(Ok(mem_mc)) => {
                let plan = plan_cycle(cfg, Ok(cpu_mc), Ok(mem_mc));
                (
                    CycleState::WritingFan1 { fan2: plan.fan2 },
                    CycleAction::WriteFan1 { duty: plan.fan1 },
                )
            },
            _ => fail,
        },
        CycleState::WritingFan1 { fan2 } => match event {
            CycleEvent::Wrote { ok: true } => (
                CycleState::WritingFan2,
                CycleAction::WriteFan2 { duty: fan2 },
            ),
            _ => fail,
        },
        CycleState::WritingFan2 => match event {
            CycleEvent::Wrote { ok: true } => (
                CycleState::Idle,
                CycleAction::Sleep { ms: cfg.poll_ms, outcome: CycleOutcome::Normal },
            ),
            _ => fail,
        },
        CycleState::FailsafeFan1 => (
            CycleState::FailsafeFan2,
            CycleAction::WriteFan2 { duty: failsafe.fan2 },
        ),
        CycleState::FailsafeFan2 => (
            CycleState::Idle,
            CycleAction::Sleep { ms: cfg.poll_ms, outcome: CycleOutcome::Failsafe },
        ),
    }
}

/// A cycle in which both readings and both writes succeed takes five steps:
/// it reads the CPU and the memory temperature, writes each fan the clamped
/// duty of its curve, and sleeps.
pub proof fn lemma_normal_cycle(cfg: ConfigView, woke: CycleEvent, cpu_mc: i32, mem_mc: i32)
    ensures
        ({
            let plan = planned(cfg, Ok(cpu_mc), Ok(mem_mc));
            let wrote = CycleEvent::Wrote { ok: true };
            let s1 = next_step(cfg, CycleState::Idle, woke);
            let s2 = next_step(cfg, s1.0, CycleEvent::Temperature(Ok(cpu_mc)));
            let s3 = next_step(cfg, s2.0, CycleEvent::Temperature(Ok(mem_mc)));
            let s4 = next_step(cfg, s3.0, wrote);
            let s5 = next_step(cfg, s4.0, wrote);
            &&& s1.1 == CycleAction::ReadCpu
            &&& s2.1 == CycleAction::ReadMem
            &&& s3.1 == CycleAction::WriteFan1 { duty: plan.fan1 }
            &&& s4.1 == CycleAction::WriteFan2 { duty: plan.fan2 }
            &&& s5 == (
                CycleState::Idle,
                CycleAction::Sleep { ms: cfg.poll_ms, outcome: CycleOutcome::Normal },
            )
        }),
{
}

/// Once a step of a cycle has failed, both fans are written the clamped
/// failsafe duty and the cycle ends, whatever becomes of those writes; the
/// cycle after it starts afresh.
pub proof fn lemma_failed_step_ends_in_failsafe(
    cfg: ConfigView,
    state: CycleState,
    event: CycleEvent,
    first: CycleEvent,
    second: CycleEvent,
    woke: CycleEvent,
)
    requires
        !(state is Idle),
        next_step(cfg, state, event).0 is FailsafeFan1,
    ensures
        ({
            let duty = clamped(
                cfg.failsafe_duty as int,
                cfg.min_duty as int,
                cfg.max_duty as int,
            ) as i32;
            let s1 = next_step(cfg, state, event);
            let s2 = next_step(cfg, s1.0, first);
            let s3 = next_step(cfg, s2.0, second);
            let s4 = next_step(cfg, s3.0, woke);
            &&& s1.1 == CycleAction::WriteFan1 { duty }
            &&& s2.1 == CycleAction::WriteFan2 { duty }
            &&& s3 == (
                CycleState::Idle,
                CycleAction::Sleep { ms: cfg.poll_ms, outcome: CycleOutcome::Failsafe },
            )
            &&& s4 == (CycleState::ReadingCpu, CycleAction::ReadCpu)
        }),
{
}

/// Whether `state` is one of the four steps of a cycle that can fail: the two
/// readings and the two writes of the curves' duties.
pub open spec fn can_fail(state: CycleState) -> bool {
    state is ReadingCpu || state is ReadingMem || state is WritingFan1 || state is WritingFan2
}

/// Whether `event` reports a reading or a write that failed.
pub open spec fn is_failure(event: CycleEvent) -> bool {
    match event {
        CycleEvent::Temperature(Err(_)) => true,
        CycleEvent::Wrote { ok: false } => true,
        _ => false,
    }
}

/// A reading or a write that fails opens the failsafe at once: the remaining
/// steps of the cycle are abandoned.
pub proof fn lemma_failure_opens_failsafe(cfg: ConfigView, state: CycleState, event: CycleEvent)
    requires
        can_fail(state),
        is_failure(event),
    ensures
        next_step(cfg, state, event) == enter_failsafe(cfg),
{
}

} // verus!
