//! The per-core idle loop.
//!
//! After bring-up every core falls into an infinite loop: check the current
//! process's schedule-request flag; if set, invoke the scheduler (a
//! voluntary reschedule, which may context-switch away and later resume
//! here); otherwise rest — halt until the next interrupt if interrupts are
//! enabled, or, if they are found disabled (an invariant violation: the idle
//! path must only run with interrupts enabled), report the error once and
//! fall back to a busy spin rather than dying halted.
//!
//! The loop never exits by design. [`ProcessManager::idle_iteration`] is one
//! round of it, and [`ProcessManager::arch_idle_func`] runs any finite
//! number of rounds — every finite prefix of the infinite loop — under an
//! arbitrary pattern of externally raised schedule requests.

use vstd::prelude::*;
use crate::smp::CoreState;
use crate::trace::Event;

verus! {

/// Flag bits of a process control record that the idle loop observes.
#[derive(Clone, Copy, Debug, PartialEq, Eq, Structural)]
pub struct ProcessFlags {
    /// "This process must yield to the scheduler when it next idles." Set by
    /// other code (timer interrupt, wakeups); cleared by the act of invoking
    /// the scheduler.
    pub need_schedule: bool,
}

/// The currently executing process's control record, as far as the idle
/// loop reads it.
#[derive(Clone, Copy, Debug, PartialEq, Eq, Structural)]
pub struct ProcessControlBlock {
    pub flags: ProcessFlags,
}

/// Owner of the per-core idle path.
pub struct ProcessManager;

/// The collaborator invocations of one idle round, decided by the
/// schedule-request flag and the core's interrupt state: scheduler call, or
/// halt, or — on the invariant violation — one error report followed by a
/// busy spin.
pub open spec fn idle_iteration_events(need_schedule: bool, irq_enabled: bool) -> Seq<Event> {
    if need_schedule {
        seq![Event::ScheduleCall]
    } else if irq_enabled {
        seq![Event::Halt]
    } else {
        seq![Event::ErrorLog, Event::SpinWait]
    }
}

/// The collaborator invocations of a run of idle rounds; round `k` sees the
/// schedule-request flag raised exactly when `requests[k]` is true.
pub open spec fn idle_run_events(requests: Seq<bool>, irq_enabled: bool) -> Seq<Event>
    decreases requests.len(),
{
    if requests.len() == 0 {
        Seq::empty()
    } else {
        idle_run_events(requests.drop_last(), irq_enabled) + idle_iteration_events(
            requests.last(),
            irq_enabled,
        )
    }
}

/// Idle law, schedule requested: the round invokes the scheduler, and
/// neither halts nor spins before doing so — the round's whole trace is the
/// one scheduler call.
pub proof fn lemma_idle_requested_schedules(irq_enabled: bool)
    ensures
        idle_iteration_events(true, irq_enabled) == seq![Event::ScheduleCall],
        !idle_iteration_events(true, irq_enabled).contains(Event::Halt),
        !idle_iteration_events(true, irq_enabled).contains(Event::SpinWait),
{
}

/// Idle law, nothing requested and interrupts enabled: the round executes
/// exactly one halt, and the error log is never invoked.
pub proof fn lemma_idle_rests_halting()
    ensures
        idle_iteration_events(false, true) == seq![Event::Halt],
        !idle_iteration_events(false, true).contains(Event::ErrorLog),
{
}

/// Idle law, nothing requested and interrupts disabled: the round reports
/// the invariant violation exactly once and falls back to a busy spin — it
/// never halts, and the loop carries on.
pub proof fn lemma_idle_degrades_spinning()
    ensures
        idle_iteration_events(false, false) == seq![Event::ErrorLog, Event::SpinWait],
        !idle_iteration_events(false, false).contains(Event::Halt),
{
    let events = idle_iteration_events(false, false);
    assert(events[0] != Event::Halt && events[1] != Event::Halt);
}

impl ProcessManager {
    /// One round of the idle loop on core `core`, for the process `pcb`.
    ///
    /// Invoking the scheduler clears the schedule-request flag; a round that
    /// found the flag clear leaves it clear. Either way the flag is false
    /// when the round returns to the check.
    pub fn idle_iteration(pcb: &mut ProcessControlBlock, core: &CoreState, trace: &mut Vec<Event>)
        ensures
            final(trace)@ == old(trace)@ + idle_iteration_events(
                old(pcb).flags.need_schedule,
                core.irq_enabled,
            ),
            !final(pcb).flags.need_schedule,
    {
        let ghost tr0 = trace@;
        if pcb.flags.need_schedule {
            // Pick the next task and switch to it, with no particular mode:
            // a voluntary reschedule. Control returns here when this core's
            // idle path is next resumed.
            schedule_call(pcb, trace);
        } else if core.irq_enabled {
            // Suspend the core until the next interrupt arrives: the
            // energy-saving heart of the loop.
            halt(trace);
        } else {
            // Interrupts are off on the idle path: report it, then burn
            // cycles rather than halt a core that nothing could wake.
            error_log(trace);
            spin_wait(trace);
        }
        assert(trace@ =~= tr0 + idle_iteration_events(old(pcb).flags.need_schedule, core.irq_enabled));
    }

    /// A finite prefix of the infinite per-core idle loop: `requests.len()`
    /// rounds, the schedule-request flag being raised before round `k`
    /// exactly when `requests[k]` is true. In the kernel this function never
    /// returns; every behavior of the real loop is one of these prefixes
    /// continued forever.
    pub fn arch_idle_func(
        pcb: &mut ProcessControlBlock,
        core: &CoreState,
        requests: &Vec<bool>,
        trace: &mut Vec<Event>,
    )
        ensures
            final(trace)@ == old(trace)@ + idle_run_events(requests@, core.irq_enabled),
            requests.len() > 0 ==> !final(pcb).flags.need_schedule,
            requests.len() == 0 ==> *final(pcb) == *old(pcb),
    {
        let ghost tr0 = trace@;
        let mut k: usize = 0;
        while k < requests.len()
            invariant
                k <= requests.len(),
                trace@ == tr0 + idle_run_events(requests@.take(k as int), core.irq_enabled),
                k > 0 ==> !pcb.flags.need_schedule,
                k == 0 ==> *pcb == *old(pcb),
            decreases requests.len() - k,
        {
            // The external raisers of the flag (timer interrupt, wakeups)
            // act between rounds.
            pcb.flags.need_schedule = requests[k];
            Self::idle_iteration(pcb, core, trace);
            proof {
                assert(requests@.take(k + 1 as int).drop_last() =~= requests@.take(k as int));
                assert(requests@.take(k + 1 as int).last() == requests@[k as int]);
            }
            k = k + 1;
        }
        proof {
            assert(requests@.take(requests@.len() as int) =~= requests@);
        }
    }
}

/// Scheduler invocation — pick the next task and switch, with no particular
/// mode. Invoking it consumes the schedule request.
fn schedule_call(pcb: &mut ProcessControlBlock, trace: &mut Vec<Event>)
    ensures
        final(trace)@ == old(trace)@.push(Event::ScheduleCall),
        !final(pcb).flags.need_schedule,
{
    pcb.flags.need_schedule = false;
    trace.push(Event::ScheduleCall);
}

/// Low-power halt until the next interrupt.
fn halt(trace: &mut Vec<Event>)
    ensures
        final(trace)@ == old(trace)@.push(Event::Halt),
{
    trace.push(Event::Halt);
}

/// One busy spin: the degraded, high-power fallback.
fn spin_wait(trace: &mut Vec<Event>)
    ensures
        final(trace)@ == old(trace)@.push(Event::SpinWait),
{
    trace.push(Event::SpinWait);
}

/// One error-level report through the logging collaborator.
fn error_log(trace: &mut Vec<Event>)
    ensures
        final(trace)@ == old(trace)@.push(Event::ErrorLog),
{
    trace.push(Event::ErrorLog);
}

} // verus!
