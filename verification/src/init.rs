//! The Boot Orchestrator: the fixed, fail-fast boot sequence.
//!
//! A single non-reentrant entry point on the bootstrap core runs the
//! subsystem initializers in a fixed dependency order. A failing step aborts
//! the boot with a diagnostic naming the step, and no later step is ever
//! invoked: for every environment, the trace of a boot is a prefix of the
//! all-successful trace ([`lemma_failure_truncates_boot`]).

use vstd::prelude::*;
use crate::driver::{driver_init, driver_init_events, driver_init_result};
use crate::env::BootEnv;
use crate::error::{BootError, BootStep, SystemError};
use crate::exception::{irq_init, irq_init_events, irq_init_result};
use crate::irq::CurrentIrqArch;
use crate::mm::{mm_init, mm_init_events, InitGuard, MMInitStatus};
use crate::sched::{setup_finish_events, X86_64SchedArch};
use crate::smp::{CoreState, Machine, SetupPhase};
use crate::trace::Event;

verus! {

/// Wraps a collaborator outcome into the orchestrator's diagnostic for the
/// named step.
pub open spec fn orch_err(step: BootStep, r: Result<(), SystemError>) -> Result<(), BootError> {
    match r {
        Ok(u) => Ok(u),
        Err(e) => Err(BootError::StepFailed { step, source: e }),
    }
}

/// The collaborator invocations of the steps that run before memory
/// management is available: early serial console, video bring-up (whose
/// failure is tolerated) and the screen control module, which is handed
/// exactly the video outcome.
pub open spec fn init_before_mem_init_events(env: BootEnv) -> Seq<Event> {
    let s0 = seq![Event::SerialEarlyInit];
    if env.serial_early_init is Err {
        s0
    } else {
        s0 + seq![Event::VideoInit, Event::ScmInit(env.video_init is Ok)]
    }
}

/// The outcome of the pre-memory steps: only the serial console is fatal.
pub open spec fn init_before_mem_init_result(env: BootEnv) -> Result<(), BootError> {
    if env.serial_early_init is Err {
        orch_err(BootStep::SerialEarlyInit, env.serial_early_init)
    } else {
        Ok(())
    }
}

/// Screen control module initialization — a collaborator that cannot fail;
/// it is told whether video came up, and enables graphic output only then.
/// The flag it was handed is recorded in the event.
fn scm_init(enable_graphic_output: bool, trace: &mut Vec<Event>)
    ensures
        final(trace)@ == old(trace)@.push(Event::ScmInit(enable_graphic_output)),
{
    trace.push(Event::ScmInit(enable_graphic_output));
}

/// Initialization that must run before memory management: the early serial
/// port, the display driver — whose failure only disables graphic output —
/// and the screen control module, which is told whether video came up.
pub fn init_before_mem_init(env: &BootEnv, trace: &mut Vec<Event>) -> (r: Result<(), BootError>)
    ensures
        final(trace)@ == old(trace)@ + init_before_mem_init_events(*env),
        r == init_before_mem_init_result(*env),
{
    let ghost tr0 = trace@;
    trace.push(Event::SerialEarlyInit);
    if let Err(e) = env.serial_early_init {
        assert(trace@ =~= tr0 + init_before_mem_init_events(*env));
        return Err(BootError::StepFailed { step: BootStep::SerialEarlyInit, source: e });
    }
    trace.push(Event::VideoInit);
    let video_ok = env.video_init.is_ok();
    scm_init(video_ok, trace);
    assert(trace@ =~= tr0 + init_before_mem_init_events(*env));
    Ok(())
}

/// The collaborator invocations of the ordered boot sequence under `env`,
/// with the one-time memory-management guard found in state `g`: every step
/// in the fixed order up to and including the first failing one, and
/// nothing after it.
pub open spec fn do_start_kernel_events(env: BootEnv, g: MMInitStatus) -> Seq<Event> {
    let s0 = init_before_mem_init_events(env);
    if env.serial_early_init is Err {
        s0
    } else {
        let s1 = s0 + seq![Event::EarlyInitLogging, Event::EarlySetupArch];
        if env.early_setup_arch is Err {
            s1
        } else if !(g is NotInit) {
            s1
        } else {
            let s3 = s1 + mm_init_events() + seq![Event::ScmReinit];
            if env.scm_reinit is Err {
                s3
            } else {
                let s4 = s3 + seq![Event::TextuiInit];
                if env.textui_init is Err {
                    s4
                } else {
                    let s5 = s4 + seq![Event::InitIntertrait, Event::VfsInit];
                    if env.vfs_init is Err {
                        s5
                    } else {
                        let s6 = s5 + driver_init_events(env);
                        if driver_init_result(env) is Err {
                            s6
                        } else {
                            let s7 = s6 + seq![
                                Event::AcpiInit,
                                Event::SchedInit,
                                Event::ProcessInit,
                                Event::EarlySmpInit,
                            ];
                            if env.early_smp_init is Err {
                                s7
                            } else {
                                let s8 = s7 + irq_init_events(env);
                                if irq_init_result(env) is Err {
                                    s8
                                } else {
                                    let s9 = s8 + seq![Event::SetupArch];
                                    if env.setup_arch is Err {
                                        s9
                                    } else {
                                        let s10 = s9 + seq![Event::PrepareCpus];
                                        if env.prepare_cpus is Err {
                                            s10
                                        } else {
                                            let s11 = s10 + seq![Event::SoftirqInit];
                                            if env.softirq_init is Err {
                                                s11
                                            } else {
                                                let s12 = s11 + seq![Event::SyscallInit];
                                                if env.syscall_init is Err {
                                                    s12
                                                } else {
                                                    let s13 = s12 + seq![
                                                        Event::TimekeepingInit,
                                                        Event::TimeInit,
                                                        Event::TimerInit,
                                                        Event::KthreadInit,
                                                        Event::SetupArchPost,
                                                    ];
                                                    if env.setup_arch_post is Err {
                                                        s13
                                                    } else {
                                                        s13 + seq![
                                                            Event::ClocksourceBootFinish,
                                                            Event::FutexInit,
                                                        ]
                                                    }
                                                }
                                            }
                                        }
                                    }
                                }
                            }
                        }
                    }
                }
            }
        }
    }
}

/// The outcome of the ordered boot sequence: the diagnostic of the first
/// failing step, or success when every step succeeded and the
/// memory-management guard was still unentered.
pub open spec fn do_start_kernel_result(env: BootEnv, g: MMInitStatus) -> Result<(), BootError> {
    if env.serial_early_init is Err {
        orch_err(BootStep::SerialEarlyInit, env.serial_early_init)
    } else if env.early_setup_arch is Err {
        orch_err(BootStep::EarlySetupArch, env.early_setup_arch)
    } else if !(g is NotInit) {
        Err(BootError::InitRepeated { step: BootStep::MmInit, found: g })
    } else if env.scm_reinit is Err {
        orch_err(BootStep::ScmReinit, env.scm_reinit)
    } else if env.textui_init is Err {
        orch_err(BootStep::TextuiInit, env.textui_init)
    } else if env.vfs_init is Err {
        orch_err(BootStep::VfsInit, env.vfs_init)
    } else if driver_init_result(env) is Err {
        orch_err(BootStep::DriverInit, driver_init_result(env))
    } else if env.early_smp_init is Err {
        orch_err(BootStep::EarlySmpInit, env.early_smp_init)
    } else if irq_init_result(env) is Err {
        orch_err(BootStep::IrqInit, irq_init_result(env))
    } else if env.setup_arch is Err {
        orch_err(BootStep::SetupArch, env.setup_arch)
    } else if env.prepare_cpus is Err {
        orch_err(BootStep::PrepareCpus, env.prepare_cpus)
    } else if env.softirq_init is Err {
        orch_err(BootStep::SoftirqInit, env.softirq_init)
    } else if env.syscall_init is Err {
        orch_err(BootStep::SyscallInit, env.syscall_init)
    } else if env.setup_arch_post is Err {
        orch_err(BootStep::SetupArchPost, env.setup_arch_post)
    } else {
        Ok(())
    }
}

/// The state the memory-management guard is left in by the boot sequence: it
/// reaches `Initialized` exactly when the boot got as far as memory
/// management and the guard was won there.
pub open spec fn do_start_kernel_guard(env: BootEnv, g: MMInitStatus) -> MMInitStatus {
    if env.serial_early_init is Err || env.early_setup_arch is Err {
        g
    } else if g is NotInit {
        MMInitStatus::Initialized
    } else {
        g
    }
}

/// The ordered boot sequence, run once on the bootstrap core. Each step
/// either succeeds — and the next step proceeds — or fails, in which case
/// the boot aborts with a diagnostic naming the step and no later step is
/// invoked.
#[verifier::rlimit(100)]
pub fn do_start_kernel(env: &BootEnv, guard: &mut InitGuard, trace: &mut Vec<Event>) -> (r: Result<
    (),
    BootError,
>)
    ensures
        final(trace)@ == old(trace)@ + do_start_kernel_events(*env, old(guard).status_spec()),
        r == do_start_kernel_result(*env, old(guard).status_spec()),
        final(guard).status_spec() == do_start_kernel_guard(*env, old(guard).status_spec()),
{
    let ghost tr0 = trace@;
    let ghost g0 = guard.status_spec();
    // Serial, video and screen control: reporting must work before anything
    // that can fail wants to report.
    if let Err(e) = init_before_mem_init(env, trace) {
        assert(trace@ =~= tr0 + do_start_kernel_events(*env, g0));
        return Err(e);
    }
    // The logging system, so the remaining steps can record errors.
    trace.push(Event::EarlyInitLogging);
    // Architecture early setup: stack start, descriptor-table addresses.
    trace.push(Event::EarlySetupArch);
    if let Err(e) = env.early_setup_arch {
        assert(trace@ =~= tr0 + do_start_kernel_events(*env, g0));
        return Err(BootError::StepFailed { step: BootStep::EarlySetupArch, source: e });
    }
    // Memory management, behind its one-time guard; after this, steps may
    // allocate.
    if let Err(v) = mm_init(guard, trace) {
        assert(trace@ =~= tr0 + do_start_kernel_events(*env, g0));
        return Err(BootError::InitRepeated { step: BootStep::MmInit, found: v.found });
    }
    // Screen control re-initialization, now that allocation works.
    trace.push(Event::ScmReinit);
    if let Err(e) = env.scm_reinit {
        assert(trace@ =~= tr0 + do_start_kernel_events(*env, g0));
        return Err(BootError::StepFailed { step: BootStep::ScmReinit, source: e });
    }
    // The text user-interface framework.
    trace.push(Event::TextuiInit);
    if let Err(e) = env.textui_init {
        assert(trace@ =~= tr0 + do_start_kernel_events(*env, g0));
        return Err(BootError::StepFailed { step: BootStep::TextuiInit, source: e });
    }
    // The intertrait casting tables.
    trace.push(Event::InitIntertrait);
    // The virtual filesystem, before anything enumerates devices into it.
    trace.push(Event::VfsInit);
    if let Err(e) = env.vfs_init {
        assert(trace@ =~= tr0 + do_start_kernel_events(*env, g0));
        return Err(BootError::StepFailed { step: BootStep::VfsInit, source: e });
    }
    // The device driver model.
    if let Err(e) = driver_init(env, trace) {
        assert(trace@ =~= tr0 + do_start_kernel_events(*env, g0));
        return Err(BootError::StepFailed { step: BootStep::DriverInit, source: e });
    }
    // ACPI, the scheduler, process management, then early SMP bring-up — in
    // that relative order.
    trace.push(Event::AcpiInit);
    trace.push(Event::SchedInit);
    trace.push(Event::ProcessInit);
    trace.push(Event::EarlySmpInit);
    if let Err(e) = env.early_smp_init {
        assert(trace@ =~= tr0 + do_start_kernel_events(*env, g0));
        return Err(BootError::StepFailed { step: BootStep::EarlySmpInit, source: e });
    }
    // The interrupt subsystem.
    if let Err(e) = irq_init(env, trace) {
        assert(trace@ =~= tr0 + do_start_kernel_events(*env, g0));
        return Err(BootError::StepFailed { step: BootStep::IrqInit, source: e });
    }
    // Late architecture setup.
    trace.push(Event::SetupArch);
    if let Err(e) = env.setup_arch {
        assert(trace@ =~= tr0 + do_start_kernel_events(*env, g0));
        return Err(BootError::StepFailed { step: BootStep::SetupArch, source: e });
    }
    // CPU preparation for the application cores.
    trace.push(Event::PrepareCpus);
    if let Err(e) = env.prepare_cpus {
        assert(trace@ =~= tr0 + do_start_kernel_events(*env, g0));
        return Err(BootError::StepFailed { step: BootStep::PrepareCpus, source: e });
    }
    // Soft interrupts.
    trace.push(Event::SoftirqInit);
    if let Err(e) = env.softirq_init {
        assert(trace@ =~= tr0 + do_start_kernel_events(*env, g0));
        return Err(BootError::StepFailed { step: BootStep::SoftirqInit, source: e });
    }
    // System calls.
    trace.push(Event::SyscallInit);
    if let Err(e) = env.syscall_init {
        assert(trace@ =~= tr0 + do_start_kernel_events(*env, g0));
        return Err(BootError::StepFailed { step: BootStep::SyscallInit, source: e });
    }
    // Timekeeping, the platform time source, timers and kernel threads,
    // then the post-architecture step.
    trace.push(Event::TimekeepingInit);
    trace.push(Event::TimeInit);
    trace.push(Event::TimerInit);
    trace.push(Event::KthreadInit);
    trace.push(Event::SetupArchPost);
    if let Err(e) = env.setup_arch_post {
        assert(trace@ =~= tr0 + do_start_kernel_events(*env, g0));
        return Err(BootError::StepFailed { step: BootStep::SetupArchPost, source: e });
    }
    // The clock source is settled; futexes come up last.
    trace.push(Event::ClocksourceBootFinish);
    trace.push(Event::FutexInit);
    assert(trace@ =~= tr0 + do_start_kernel_events(*env, g0));
    Ok(())
}

/// The collaborator invocations of the whole kernel entry: the ordered boot
/// sequence and, when it succeeds, the bootstrap core's scheduler local
/// setup with its barrier publication.
pub open spec fn start_kernel_events(env: BootEnv, g: MMInitStatus) -> Seq<Event> {
    if do_start_kernel_result(env, g) is Ok {
        do_start_kernel_events(env, g) + setup_finish_events(0u32)
    } else {
        do_start_kernel_events(env, g)
    }
}

/// The kernel entry point on the bootstrap core (`bsp` indexes it in `m`,
/// and it carries core identity 0; interrupts are off on entry).
///
/// Runs the ordered boot sequence; on success performs the bootstrap core's
/// scheduler local setup — publishing the boot barrier for the application
/// cores — and enables local scheduling. The kernel then enters
/// `ProcessManager::arch_idle_func` on this core and never returns; a
/// failure aborts the boot with its diagnostic and touches no core.
pub fn start_kernel(
    env: &BootEnv,
    guard: &mut InitGuard,
    m: &mut Machine,
    bsp: usize,
    trace: &mut Vec<Event>,
) -> (r: Result<(), BootError>)
    requires
        bsp < old(m).cores.len(),
        old(m).cores[bsp as int].id == 0,
        !old(m).cores[bsp as int].irq_enabled,
        old(m).cores[bsp as int].setup is NotStarted,
    ensures
        r == do_start_kernel_result(*env, old(guard).status_spec()),
        final(trace)@ == old(trace)@ + start_kernel_events(*env, old(guard).status_spec()),
        final(guard).status_spec() == do_start_kernel_guard(*env, old(guard).status_spec()),
        r is Err ==> *final(m) == *old(m),
        r is Ok ==> final(m).cores.len() == old(m).cores.len() && final(m).bsp_init_ok
            && final(m).cores[bsp as int] == (CoreState {
            setup: SetupPhase::Done,
            timer_ready: true,
            irq_enabled: true,
            ..old(m).cores[bsp as int]
        }) && (forall|j: int|
            0 <= j < old(m).cores.len() && j != bsp ==> final(m).cores[j] == old(m).cores[j]),
{
    let ghost tr0 = trace@;
    let ghost g0 = guard.status_spec();
    // Entering the kernel, interrupts must be off on this core.
    let core0 = m.cores[bsp];
    let irq_on = CurrentIrqArch::is_irq_enabled(&core0);
    assert(!irq_on);
    // The ordered initialization steps.
    if let Err(e) = do_start_kernel(env, guard, trace) {
        return Err(e);
    }
    // The bootstrap core's scheduler local setup: its timer, then the
    // barrier publication that releases the application cores.
    X86_64SchedArch::initial_setup_sched_local(m, bsp, trace);
    // Start local scheduling: from here the timer may preempt this core.
    let mut core = m.cores[bsp];
    X86_64SchedArch::enable_sched_local(&mut core);
    m.cores.set(bsp, core);
    // The bootstrap core now runs its idle loop forever.
    assert(trace@ =~= tr0 + start_kernel_events(*env, g0));
    Ok(())
}

proof fn lemma_prefix_refl(u: Seq<Event>)
    ensures
        u.is_prefix_of(u),
{
    assert(u.subrange(0, u.len() as int) =~= u);
}

proof fn lemma_prefix_extend_right(u: Seq<Event>, v: Seq<Event>, w: Seq<Event>)
    requires
        u.is_prefix_of(v),
    ensures
        u.is_prefix_of(v + w),
{
    assert(u =~= (v + w).subrange(0, u.len() as int)) by {
        assert(forall|i: int| 0 <= i < u.len() ==> u[i] == v.subrange(0, u.len() as int)[i]);
        assert(forall|i: int| 0 <= i < u.len() ==> (v + w)[i] == v[i]);
    }
}

proof fn lemma_prefix_under_concat(p: Seq<Event>, a: Seq<Event>, b: Seq<Event>)
    requires
        a.is_prefix_of(b),
    ensures
        (p + a).is_prefix_of(p + b),
{
    assert(forall|i: int| 0 <= i < a.len() ==> a[i] == b.subrange(0, a.len() as int)[i]);
    assert((p + a) =~= (p + b).subrange(0, (p + a).len() as int));
}

proof fn lemma_prefix_trans(a: Seq<Event>, b: Seq<Event>, c: Seq<Event>)
    requires
        a.is_prefix_of(b),
        b.is_prefix_of(c),
    ensures
        a.is_prefix_of(c),
{
    assert(forall|i: int| 0 <= i < a.len() ==> a[i] == b.subrange(0, a.len() as int)[i]);
    assert(forall|i: int| 0 <= i < b.len() ==> b[i] == c.subrange(0, b.len() as int)[i]);
    assert(a =~= c.subrange(0, a.len() as int));
}

proof fn lemma_driver_events_prefix(env: BootEnv)
    ensures
        driver_init_events(env).is_prefix_of(driver_init_events(BootEnv::all_ok_spec())),
{
    let ev = driver_init_events(env);
    let full = driver_init_events(BootEnv::all_ok_spec());
    assert(ev =~= full.subrange(0, ev.len() as int));
}

proof fn lemma_irq_events_prefix(env: BootEnv)
    ensures
        irq_init_events(env).is_prefix_of(irq_init_events(BootEnv::all_ok_spec())),
{
    let ev = irq_init_events(env);
    let full = irq_init_events(BootEnv::all_ok_spec());
    assert(ev =~= full.subrange(0, ev.len() as int));
}

/// The environment `env` with every fatal step succeeding. The video
/// outcome is kept: it is data handed on to the screen control module, not
/// an ordering decision, and its failure never truncates the boot.
pub open spec fn fatal_steps_ok(env: BootEnv) -> BootEnv {
    BootEnv { video_init: env.video_init, ..BootEnv::all_ok_spec() }
}

/// Boot Orchestrator law: a failing step truncates the boot. Whatever the
/// collaborators' outcomes and whatever state the memory-management guard is
/// found in, the trace of the boot is a prefix of the trace of the same
/// boot with every fatal step succeeding — after the first failure, no
/// later collaborator is ever invoked.
pub proof fn lemma_failure_truncates_boot(env: BootEnv, g: MMInitStatus)
    ensures
        do_start_kernel_events(env, g).is_prefix_of(
            do_start_kernel_events(fatal_steps_ok(env), MMInitStatus::NotInit),
        ),
{
    let ok = fatal_steps_ok(env);
    let full = do_start_kernel_events(ok, MMInitStatus::NotInit);
    let ev = do_start_kernel_events(env, g);
    // The stages of the all-successful trace.
    let s0 = init_before_mem_init_events(ok);
    let s1 = s0 + seq![Event::EarlyInitLogging, Event::EarlySetupArch];
    let s3 = s1 + mm_init_events() + seq![Event::ScmReinit];
    let s4 = s3 + seq![Event::TextuiInit];
    let s5 = s4 + seq![Event::InitIntertrait, Event::VfsInit];
    let s6 = s5 + driver_init_events(ok);
    let s7 = s6 + seq![Event::AcpiInit, Event::SchedInit, Event::ProcessInit, Event::EarlySmpInit];
    let s8 = s7 + irq_init_events(ok);
    let s9 = s8 + seq![Event::SetupArch];
    let s10 = s9 + seq![Event::PrepareCpus];
    let s11 = s10 + seq![Event::SoftirqInit];
    let s12 = s11 + seq![Event::SyscallInit];
    let s13 = s12 + seq![
        Event::TimekeepingInit,
        Event::TimeInit,
        Event::TimerInit,
        Event::KthreadInit,
        Event::SetupArchPost,
    ];
    let s14 = s13 + seq![Event::ClocksourceBootFinish, Event::FutexInit];
    assert(full == s14);
    // Every stage is a prefix of the full trace.
    lemma_prefix_refl(s14);
    lemma_prefix_refl(s13);
    lemma_prefix_extend_right(s13, s13, seq![Event::ClocksourceBootFinish, Event::FutexInit]);
    lemma_prefix_refl(s12);
    lemma_prefix_extend_right(
        s12,
        s12,
        seq![
            Event::TimekeepingInit,
            Event::TimeInit,
            Event::TimerInit,
            Event::KthreadInit,
            Event::SetupArchPost,
        ],
    );
    lemma_prefix_trans(s12, s13, s14);
    lemma_prefix_refl(s11);
    lemma_prefix_extend_right(s11, s11, seq![Event::SyscallInit]);
    lemma_prefix_trans(s11, s12, s14);
    lemma_prefix_refl(s10);
    lemma_prefix_extend_right(s10, s10, seq![Event::SoftirqInit]);
    lemma_prefix_trans(s10, s11, s14);
    lemma_prefix_refl(s9);
    lemma_prefix_extend_right(s9, s9, seq![Event::PrepareCpus]);
    lemma_prefix_trans(s9, s10, s14);
    lemma_prefix_refl(s8);
    lemma_prefix_extend_right(s8, s8, seq![Event::SetupArch]);
    lemma_prefix_trans(s8, s9, s14);
    lemma_prefix_refl(s7);
    lemma_prefix_extend_right(s7, s7, irq_init_events(ok));
    lemma_prefix_trans(s7, s8, s14);
    lemma_prefix_refl(s6);
    lemma_prefix_extend_right(
        s6,
        s6,
        seq![Event::AcpiInit, Event::SchedInit, Event::ProcessInit, Event::EarlySmpInit],
    );
    lemma_prefix_trans(s6, s7, s14);
    lemma_prefix_refl(s5);
    lemma_prefix_extend_right(s5, s5, driver_init_events(ok));
    lemma_prefix_trans(s5, s6, s14);
    lemma_prefix_refl(s4);
    lemma_prefix_extend_right(s4, s4, seq![Event::InitIntertrait, Event::VfsInit]);
    lemma_prefix_trans(s4, s5, s14);
    lemma_prefix_refl(s3);
    lemma_prefix_extend_right(s3, s3, seq![Event::TextuiInit]);
    lemma_prefix_trans(s3, s4, s14);
    lemma_prefix_refl(s1);
    lemma_prefix_extend_right(s1, s1, mm_init_events());
    lemma_prefix_extend_right(s1, s1 + mm_init_events(), seq![Event::ScmReinit]);
    lemma_prefix_trans(s1, s3, s14);
    lemma_prefix_refl(s0);
    lemma_prefix_extend_right(s0, s0, seq![Event::EarlyInitLogging, Event::EarlySetupArch]);
    lemma_prefix_trans(s0, s1, s14);
    // Case analysis on the first failing step.
    if env.serial_early_init is Err {
        assert(ev =~= s0.subrange(0, ev.len() as int));
        lemma_prefix_trans(ev, s0, s14);
    } else {
        assert(init_before_mem_init_events(env) == s0);
        if env.early_setup_arch is Err || !(g is NotInit) {
            assert(ev == s1);
        } else if env.scm_reinit is Err {
            assert(ev == s3);
        } else if env.textui_init is Err {
            assert(ev == s4);
        } else if env.vfs_init is Err {
            assert(ev == s5);
        } else if driver_init_result(env) is Err {
            assert(ev == s5 + driver_init_events(env));
            lemma_driver_events_prefix(env);
            assert(driver_init_events(ok) == driver_init_events(BootEnv::all_ok_spec()));
            lemma_prefix_under_concat(s5, driver_init_events(env), driver_init_events(ok));
            lemma_prefix_trans(ev, s6, s14);
        } else {
            assert(driver_init_events(env) =~= driver_init_events(ok));
            if env.early_smp_init is Err {
                assert(ev == s7);
            } else if irq_init_result(env) is Err {
                assert(ev == s7 + irq_init_events(env));
                lemma_irq_events_prefix(env);
                assert(irq_init_events(ok) == irq_init_events(BootEnv::all_ok_spec()));
                lemma_prefix_under_concat(s7, irq_init_events(env), irq_init_events(ok));
                lemma_prefix_trans(ev, s8, s14);
            } else {
                assert(irq_init_events(env) =~= irq_init_events(ok));
                if env.setup_arch is Err {
                    assert(ev == s9);
                } else if env.prepare_cpus is Err {
                    assert(ev == s10);
                } else if env.softirq_init is Err {
                    assert(ev == s11);
                } else if env.syscall_init is Err {
                    assert(ev == s12);
                } else if env.setup_arch_post is Err {
                    assert(ev == s13);
                } else {
                    assert(ev == s14);
                }
            }
        }
    }
}

} // verus!
