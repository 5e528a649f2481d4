//! Per-core scheduler local setup and the BSP/AP boot barrier.
//!
//! The bootstrap core programs its scheduling timer unconditionally and then
//! publishes the boot barrier flag, exactly once. Every application core
//! spin-waits on the flag before programming its own timer, and proceeds
//! unconditionally once it has observed the flag true. One observation of
//! the flag — one spin attempt — is one call of
//! [`X86_64SchedArch::initial_setup_sched_local_step`], so any interleaving
//! of the cores' setups is a sequence of such calls;
//! [`run_setup_schedule`] runs an arbitrary interleaving and
//! [`barrier_history_inv`] is preserved by every call, which yields the
//! ordering law [`barrier_trace_ok`]: no application-core timer setup ever
//! precedes the one barrier publication.

use vstd::prelude::*;
use crate::irq::CurrentIrqArch;
use crate::smp::{CoreState, Machine, SetupPhase, smp_get_processor_id};
use crate::trace::Event;

verus! {

/// The x86-64 architecture's scheduler bring-up operations.
#[allow(non_camel_case_types)]
pub struct X86_64SchedArch;

/// Whether core `i` may proceed past the barrier check: it is the bootstrap
/// core, or the barrier flag is set.
pub open spec fn setup_can_finish(m: Machine, i: int) -> bool {
    m.cores[i].id == 0 || m.bsp_init_ok
}

/// The interrupt state that core `c`'s setup scope will restore on exit: the
/// state saved when setup was entered, or the current state if setup has not
/// taken a guard yet.
pub open spec fn setup_saved_irq(c: CoreState) -> bool {
    match c.setup {
        SetupPhase::Waiting { saved_irq } => saved_irq,
        _ => c.irq_enabled,
    }
}

/// The collaborator invocations of one core completing its setup: its timer
/// programming, and — for the bootstrap core — the barrier publication.
pub open spec fn setup_finish_events(id: u32) -> Seq<Event> {
    if id == 0 {
        seq![Event::ApicTimerInit(id), Event::BarrierPublish]
    } else {
        seq![Event::ApicTimerInit(id)]
    }
}

/// Core `c` after its setup completed: timer programmed, scope guard
/// released, prior interrupt state restored.
pub open spec fn setup_finished_core(c: CoreState) -> CoreState {
    CoreState { setup: SetupPhase::Done, timer_ready: true, irq_enabled: setup_saved_irq(c), ..c }
}

/// Core `c` after one spin on the barrier: interrupts held off by the setup
/// scope, one more (saturating) spin counted, setup still waiting.
pub open spec fn setup_blocked_core(c: CoreState) -> CoreState {
    CoreState {
        setup: SetupPhase::Waiting { saved_irq: setup_saved_irq(c) },
        irq_enabled: if c.setup is NotStarted {
            false
        } else {
            c.irq_enabled
        },
        spin_count: if c.spin_count == u64::MAX {
            c.spin_count
        } else {
            (c.spin_count + 1) as u64
        },
        ..c
    }
}

/// Whether the event at `k` is an application core's timer setup.
pub open spec fn ap_timer_at(tr: Seq<Event>, k: int) -> bool {
    tr[k] matches Event::ApicTimerInit(id) && id != 0
}

/// The cross-core ordering law of the boot barrier, as a statement about a
/// trace: the barrier is published at most once, every application-core
/// timer setup happens strictly after a publication, and every publication
/// happens strictly after the bootstrap core's own timer setup.
pub open spec fn barrier_trace_ok(tr: Seq<Event>) -> bool {
    &&& (forall|k1: int, k2: int|
        0 <= k1 < k2 < tr.len() && tr[k1] == Event::BarrierPublish ==> tr[k2]
            != Event::BarrierPublish)
    &&& (forall|k: int|
        0 <= k < tr.len() && ap_timer_at(tr, k) ==> exists|j: int|
            0 <= j < k && tr[j] == Event::BarrierPublish)
    &&& (forall|k: int|
        0 <= k < tr.len() && tr[k] == Event::BarrierPublish ==> exists|j: int|
            0 <= j < k && tr[j] == Event::ApicTimerInit(0u32))
}

/// The invariant tying the machine to the trace of setup events. It holds of
/// a machine at power-on with an empty trace and is preserved by every setup
/// step, under any interleaving of cores.
pub open spec fn barrier_history_inv(m: Machine, tr: Seq<Event>) -> bool {
    &&& m.wf()
    &&& (m.bsp_init_ok <==> tr.contains(Event::BarrierPublish))
    &&& barrier_trace_ok(tr)
    &&& (!m.bsp_init_ok ==> forall|j: int|
        0 <= j < m.cores.len() && m.cores[j].id != 0 ==> !m.cores[j].timer_ready)
    &&& (m.bsp_init_ok ==> forall|j: int|
        0 <= j < m.cores.len() && m.cores[j].id == 0 ==> m.cores[j].setup is Done)
}

/// A machine at power-on, before any setup event, satisfies the history
/// invariant.
pub proof fn lemma_power_on_history(m: Machine, tr: Seq<Event>)
    requires
        m.wf(),
        !m.bsp_init_ok,
        forall|j: int| 0 <= j < m.cores.len() ==> !m.cores[j].timer_ready,
        tr.len() == 0,
    ensures
        barrier_history_inv(m, tr),
{
    assert(!tr.contains(Event::BarrierPublish));
}

/// The history invariant contains the barrier ordering law.
pub proof fn lemma_history_gives_trace_ok(m: Machine, tr: Seq<Event>)
    requires
        barrier_history_inv(m, tr),
    ensures
        barrier_trace_ok(tr),
{
}

proof fn lemma_history_after_finish(m0: Machine, tr0: Seq<Event>, m1: Machine, tr1: Seq<Event>, i: int)
    requires
        barrier_history_inv(m0, tr0),
        0 <= i < m0.cores.len(),
        !(m0.cores[i].setup is Done),
        setup_can_finish(m0, i),
        m1.cores.len() == m0.cores.len(),
        forall|j: int| 0 <= j < m0.cores.len() && j != i ==> m1.cores[j] == m0.cores[j],
        m1.cores[i] == setup_finished_core(m0.cores[i]),
        m1.bsp_init_ok == (m0.bsp_init_ok || m0.cores[i].id == 0),
        tr1 == tr0 + setup_finish_events(m0.cores[i].id),
    ensures
        barrier_history_inv(m1, tr1),
{
    let c0 = m0.cores[i];
    let n = tr0.len() as int;
    assert(m1.wf());
    if c0.id == 0 {
        // The bootstrap core was not yet done, so the flag was still unset
        // and the trace holds no publication yet.
        assert(!m0.bsp_init_ok);
        assert(!tr0.contains(Event::BarrierPublish));
        assert(forall|k: int| 0 <= k < n ==> tr1[k] == tr0[k]);
        assert(tr1[n] == Event::ApicTimerInit(0u32));
        assert(tr1[n + 1] == Event::BarrierPublish);
        assert(tr1.contains(Event::BarrierPublish));
        assert(forall|k: int| 0 <= k < n ==> tr1[k] != Event::BarrierPublish);
        assert forall|k: int| 0 <= k < tr1.len() && ap_timer_at(tr1, k) implies exists|j: int|
            0 <= j < k && tr1[j] == Event::BarrierPublish by {
            if k < n {
                assert(ap_timer_at(tr0, k));
                let j = choose|j: int| 0 <= j < k && tr0[j] == Event::BarrierPublish;
                assert(tr1[j] == Event::BarrierPublish);
            } else {
                // The two appended events are the bootstrap timer setup and
                // the publication; neither is an application-core timer.
                assert(!ap_timer_at(tr1, n));
                assert(!ap_timer_at(tr1, n + 1));
            }
        }
        assert forall|k: int| 0 <= k < tr1.len() && tr1[k] == Event::BarrierPublish implies exists|
            j: int,
        | 0 <= j < k && tr1[j] == Event::ApicTimerInit(0u32) by {
            assert(k == n + 1);
            assert(tr1[n] == Event::ApicTimerInit(0u32));
        }
        assert forall|j: int|
            0 <= j < m1.cores.len() && m1.cores[j].id == 0 implies m1.cores[j].setup is Done by {
            if j != i {
                assert(m1.cores[j] == m0.cores[j]);
                assert(m0.cores[j].id == m0.cores[i].id);
            }
        }
    } else {
        // An application core finishes only once the flag is set, so a
        // publication already stands in the trace.
        assert(m0.bsp_init_ok);
        assert(m1.bsp_init_ok);
        let jp = choose|j: int| 0 <= j < n && tr0[j] == Event::BarrierPublish;
        assert(tr1[jp] == Event::BarrierPublish);
        assert(tr1.contains(Event::BarrierPublish));
        assert(tr1[n] == Event::ApicTimerInit(c0.id));
        assert(forall|k: int| 0 <= k < n ==> tr1[k] == tr0[k]);
        assert forall|k1: int, k2: int|
            0 <= k1 < k2 < tr1.len() && tr1[k1] == Event::BarrierPublish implies tr1[k2]
            != Event::BarrierPublish by {
            if k2 == n {
                assert(tr1[k2] == Event::ApicTimerInit(c0.id));
            }
        }
        assert forall|k: int| 0 <= k < tr1.len() && ap_timer_at(tr1, k) implies exists|j: int|
            0 <= j < k && tr1[j] == Event::BarrierPublish by {
            if k < n {
                assert(ap_timer_at(tr0, k));
                let j = choose|j: int| 0 <= j < k && tr0[j] == Event::BarrierPublish;
                assert(tr1[j] == Event::BarrierPublish);
            } else {
                assert(k == n);
                assert(tr1[jp] == Event::BarrierPublish);
            }
        }
        assert forall|k: int| 0 <= k < tr1.len() && tr1[k] == Event::BarrierPublish implies exists|
            j: int,
        | 0 <= j < k && tr1[j] == Event::ApicTimerInit(0u32) by {
            assert(k < n);
            assert(tr0[k] == Event::BarrierPublish);
            let j = choose|j: int| 0 <= j < k && tr0[j] == Event::ApicTimerInit(0u32);
            assert(tr1[j] == Event::ApicTimerInit(0u32));
        }
        assert forall|j: int|
            0 <= j < m1.cores.len() && m1.cores[j].id == 0 implies m1.cores[j].setup is Done by {
            assert(j != i);
            assert(m1.cores[j] == m0.cores[j]);
        }
    }
}

proof fn lemma_history_after_block(m0: Machine, tr0: Seq<Event>, m1: Machine, i: int)
    requires
        barrier_history_inv(m0, tr0),
        0 <= i < m0.cores.len(),
        !setup_can_finish(m0, i),
        m1.cores.len() == m0.cores.len(),
        forall|j: int| 0 <= j < m0.cores.len() && j != i ==> m1.cores[j] == m0.cores[j],
        m1.cores[i] == setup_blocked_core(m0.cores[i]),
        m1.bsp_init_ok == m0.bsp_init_ok,
    ensures
        barrier_history_inv(m1, tr0),
{
    assert(m1.cores[i].id == m0.cores[i].id);
    assert(m1.cores[i].timer_ready == m0.cores[i].timer_ready);
    assert(m1.wf());
}

impl X86_64SchedArch {
    /// Allow preemption on this core: enabling interrupt delivery is what
    /// lets the scheduling timer preempt the code the core is running.
    pub fn enable_sched_local(core: &mut CoreState)
        ensures
            *final(core) == (CoreState { irq_enabled: true, ..*old(core) }),
    {
        CurrentIrqArch::interrupt_enable(core);
    }

    /// Prevent preemption on this core.
    pub fn disable_sched_local(core: &mut CoreState)
        ensures
            *final(core) == (CoreState { irq_enabled: false, ..*old(core) }),
    {
        CurrentIrqArch::interrupt_disable(core);
    }

    /// One scheduling opportunity of core `i`'s local setup: one observation
    /// of the boot barrier flag.
    ///
    /// The bootstrap core, or an application core that observes the flag
    /// true, runs to completion: interrupts held off by a scoped guard, the
    /// local scheduling timer programmed, the flag published by the
    /// bootstrap core, the guard released. An application core that observes
    /// the flag false spins once, keeping interrupts off, and will look
    /// again. A core whose setup is done does nothing. Returns whether setup
    /// is complete.
    pub fn initial_setup_sched_local_step(m: &mut Machine, i: usize, trace: &mut Vec<Event>) -> (done:
        bool)
        requires
            i < old(m).cores.len(),
        ensures
            final(m).cores.len() == old(m).cores.len(),
            forall|j: int|
                0 <= j < old(m).cores.len() && j != i ==> final(m).cores[j] == old(m).cores[j],
            old(m).bsp_init_ok ==> final(m).bsp_init_ok,
            old(m).cores[i as int].setup is Done ==> *final(m) == *old(m) && final(trace)@ == old(
                trace,
            )@ && done,
            !(old(m).cores[i as int].setup is Done) && setup_can_finish(*old(m), i as int) ==> done
                && final(m).cores[i as int] == setup_finished_core(old(m).cores[i as int])
                && final(m).bsp_init_ok == (old(m).bsp_init_ok || old(m).cores[i as int].id == 0)
                && final(trace)@ == old(trace)@ + setup_finish_events(old(m).cores[i as int].id),
            !(old(m).cores[i as int].setup is Done) && !setup_can_finish(*old(m), i as int)
                ==> !done && final(m).bsp_init_ok == old(m).bsp_init_ok && final(trace)@ == old(
                trace,
            )@ && final(m).cores[i as int] == setup_blocked_core(old(m).cores[i as int]),
            barrier_history_inv(*old(m), old(trace)@) ==> barrier_history_inv(
                *final(m),
                final(trace)@,
            ),
    {
        let ghost m0 = *m;
        let ghost tr0 = trace@;
        let c = m.cores[i];
        match c.setup {
            SetupPhase::Done => {
                proof {
                    assert(m.cores@ =~= m0.cores@);
                }
                true
            },
            SetupPhase::NotStarted => {
                let mut core = c;
                // Disable interrupts for the whole of setup; the guard
                // restores the prior state when setup leaves its scope.
                let irq_guard = CurrentIrqArch::save_and_disable_irq(&mut core);
                let cpu_id = smp_get_processor_id(&core);
                if cpu_id == 0 || m.bsp_init_ok {
                    apic_timer_init(&mut core, trace);
                    if cpu_id == 0 {
                        // The bootstrap core's own timer is set up: release
                        // the application cores, exactly once.
                        m.bsp_init_ok = true;
                        trace.push(Event::BarrierPublish);
                    }
                    core.setup = SetupPhase::Done;
                    irq_guard.release(&mut core);
                    m.cores.set(i, core);
                    proof {
                        assert(trace@ =~= tr0 + setup_finish_events(c.id));
                        if barrier_history_inv(m0, tr0) {
                            lemma_history_after_finish(m0, tr0, *m, trace@, i as int);
                        }
                    }
                    true
                } else {
                    // Barrier not yet observed: hold the guard across the
                    // wait — its saved state is parked in the phase — and
                    // spin once.
                    core.setup = SetupPhase::Waiting { saved_irq: irq_guard.prior_state() };
                    core.spin_count = if core.spin_count == u64::MAX {
                        core.spin_count
                    } else {
                        core.spin_count + 1
                    };
                    m.cores.set(i, core);
                    proof {
                        if barrier_history_inv(m0, tr0) {
                            lemma_history_after_block(m0, tr0, *m, i as int);
                        }
                    }
                    false
                }
            },
            SetupPhase::Waiting { saved_irq } => {
                let mut core = c;
                if core.id == 0 || m.bsp_init_ok {
                    apic_timer_init(&mut core, trace);
                    if core.id == 0 {
                        m.bsp_init_ok = true;
                        trace.push(Event::BarrierPublish);
                    }
                    core.setup = SetupPhase::Done;
                    // Leave the setup scope: restore the interrupt state the
                    // parked guard saved on entry.
                    core.irq_enabled = saved_irq;
                    m.cores.set(i, core);
                    proof {
                        assert(trace@ =~= tr0 + setup_finish_events(c.id));
                        if barrier_history_inv(m0, tr0) {
                            lemma_history_after_finish(m0, tr0, *m, trace@, i as int);
                        }
                    }
                    true
                } else {
                    core.spin_count = if core.spin_count == u64::MAX {
                        core.spin_count
                    } else {
                        core.spin_count + 1
                    };
                    m.cores.set(i, core);
                    proof {
                        if barrier_history_inv(m0, tr0) {
                            lemma_history_after_block(m0, tr0, *m, i as int);
                        }
                    }
                    false
                }
            },
        }
    }

    /// Per-core scheduler local setup, run to completion: for the bootstrap
    /// core unconditionally, for an application core once the barrier flag
    /// has been observed true. The kernel's application cores block in the
    /// spin-wait instead; that wait is the repeated
    /// [`Self::initial_setup_sched_local_step`].
    pub fn initial_setup_sched_local(m: &mut Machine, i: usize, trace: &mut Vec<Event>)
        requires
            i < old(m).cores.len(),
            !(old(m).cores[i as int].setup is Done),
            setup_can_finish(*old(m), i as int),
        ensures
            final(m).cores.len() == old(m).cores.len(),
            forall|j: int|
                0 <= j < old(m).cores.len() && j != i ==> final(m).cores[j] == old(m).cores[j],
            final(m).cores[i as int] == setup_finished_core(old(m).cores[i as int]),
            final(m).bsp_init_ok == (old(m).bsp_init_ok || old(m).cores[i as int].id == 0),
            final(trace)@ == old(trace)@ + setup_finish_events(old(m).cores[i as int].id),
            barrier_history_inv(*old(m), old(trace)@) ==> barrier_history_inv(
                *final(m),
                final(trace)@,
            ),
    {
        let done = X86_64SchedArch::initial_setup_sched_local_step(m, i, trace);
    }
}

/// Program the local scheduling timer of core `core` — a platform
/// collaborator, infallible once architecture early setup has run.
pub fn apic_timer_init(core: &mut CoreState, trace: &mut Vec<Event>)
    ensures
        *final(core) == (CoreState { timer_ready: true, ..*old(core) }),
        final(trace)@ == old(trace)@.push(Event::ApicTimerInit(old(core).id)),
{
    core.timer_ready = true;
    trace.push(Event::ApicTimerInit(core.id));
}

/// What a whole interleaving produces: the barrier flag, the cores and the
/// setup events appended after the turns in `schedule`, starting from flag
/// `flag` and cores `cores`. Each turn is one
/// [`X86_64SchedArch::initial_setup_sched_local_step`] of the core it
/// indexes; a turn that indexes no core does nothing.
pub open spec fn setup_run(flag: bool, cores: Seq<CoreState>, schedule: Seq<usize>) -> (
    bool,
    Seq<CoreState>,
    Seq<Event>,
)
    decreases schedule.len(),
{
    if schedule.len() == 0 {
        (flag, cores, Seq::<Event>::empty())
    } else {
        let i = schedule[0] as int;
        if i >= cores.len() {
            setup_run(flag, cores, schedule.drop_first())
        } else {
            let c = cores[i];
            if c.setup is Done {
                setup_run(flag, cores, schedule.drop_first())
            } else if c.id == 0 || flag {
                let rest = setup_run(
                    flag || c.id == 0,
                    cores.update(i, setup_finished_core(c)),
                    schedule.drop_first(),
                );
                (rest.0, rest.1, setup_finish_events(c.id) + rest.2)
            } else {
                setup_run(flag, cores.update(i, setup_blocked_core(c)), schedule.drop_first())
            }
        }
    }
}

/// Run an arbitrary interleaving of per-core setup steps: entry `k` of
/// `schedule` says which core gets the `k`-th scheduling opportunity. The
/// outcome — flag, cores and appended events — is exactly [`setup_run`] of
/// the schedule, and the history invariant, with it the barrier ordering
/// law, holds at every point, whatever the interleaving.
pub fn run_setup_schedule(m: &mut Machine, schedule: &Vec<usize>, trace: &mut Vec<Event>)
    requires
        barrier_history_inv(*old(m), old(trace)@),
        forall|k: int| 0 <= k < schedule.len() ==> schedule[k] < old(m).cores.len(),
    ensures
        barrier_history_inv(*final(m), final(trace)@),
        final(m).cores.len() == old(m).cores.len(),
        final(m).bsp_init_ok == setup_run(old(m).bsp_init_ok, old(m).cores@, schedule@).0,
        final(m).cores@ == setup_run(old(m).bsp_init_ok, old(m).cores@, schedule@).1,
        final(trace)@ == old(trace)@ + setup_run(old(m).bsp_init_ok, old(m).cores@, schedule@).2,
{
    let ghost full = setup_run(old(m).bsp_init_ok, old(m).cores@, schedule@);
    let ghost tr0 = trace@;
    proof {
        assert(schedule@.skip(0) =~= schedule@);
    }
    let mut k: usize = 0;
    while k < schedule.len()
        invariant
            k <= schedule.len(),
            barrier_history_inv(*m, trace@),
            m.cores.len() == old(m).cores.len(),
            forall|j: int| 0 <= j < schedule.len() ==> schedule[j] < old(m).cores.len(),
            full == setup_run(old(m).bsp_init_ok, old(m).cores@, schedule@),
            tr0 == old(trace)@,
            setup_run(m.bsp_init_ok, m.cores@, schedule@.skip(k as int)).0 == full.0,
            setup_run(m.bsp_init_ok, m.cores@, schedule@.skip(k as int)).1 == full.1,
            tr0 + full.2 == trace@ + setup_run(m.bsp_init_ok, m.cores@, schedule@.skip(k as int)).2,
        decreases schedule.len() - k,
    {
        let ghost pre = *m;
        let ghost pre_tr = trace@;
        let i = schedule[k];
        let done = X86_64SchedArch::initial_setup_sched_local_step(m, i, trace);
        proof {
            let s_pre = schedule@.skip(k as int);
            let s_post = schedule@.skip(k as int + 1);
            assert(s_pre[0] == schedule@[k as int]);
            assert(s_pre.drop_first() =~= s_post);
            let c = pre.cores@[i as int];
            if c.setup is Done {
                assert(m.cores@ =~= pre.cores@);
            } else if c.id == 0 || pre.bsp_init_ok {
                assert(m.cores@ =~= pre.cores@.update(i as int, setup_finished_core(c)));
                let rest = setup_run(m.bsp_init_ok, m.cores@, s_post).2;
                assert(pre_tr + (setup_finish_events(c.id) + rest) =~= (pre_tr
                    + setup_finish_events(c.id)) + rest);
            } else {
                assert(m.cores@ =~= pre.cores@.update(i as int, setup_blocked_core(c)));
            }
        }
        k = k + 1;
    }
    proof {
        assert(trace@ + Seq::<Event>::empty() =~= trace@);
    }
}

} // verus!
