use bootcore::irq::CurrentIrqArch;
use bootcore::sched::X86_64SchedArch;
use bootcore::smp::{smp_get_processor_id, Machine, SetupPhase};
use bootcore::trace::Event;

/// Index of the one barrier publication in `trace`; panics if there is not
/// exactly one.
fn publish_index(trace: &[Event]) -> usize {
    let mut found: Option<usize> = None;
    for (k, e) in trace.iter().enumerate() {
        if *e == Event::BarrierPublish {
            assert!(found.is_none(), "barrier published more than once");
            found = Some(k);
        }
    }
    found.expect("barrier never published")
}

/// No application-core timer setup may stand before the publication.
fn assert_no_ap_timer_before_publish(trace: &[Event]) {
    let p = publish_index(trace);
    for e in &trace[..p] {
        if let Event::ApicTimerInit(id) = e {
            assert_eq!(*id, 0, "application core set its timer up before the barrier");
        }
    }
}

#[test]
fn interleaved_setup_keeps_ap_timers_after_the_publication() {
    let ids: Vec<u32> = vec![0, 1, 2, 3];
    let mut m = Machine::new(&ids);
    let mut trace: Vec<Event> = Vec::new();
    // Application cores poll first and repeatedly; the bootstrap core gets
    // its chance late; then everyone finishes.
    let schedule: Vec<usize> = vec![1, 2, 3, 3, 2, 1, 0, 1, 3, 2];
    bootcore::sched::run_setup_schedule(&mut m, &schedule, &mut trace);
    assert_no_ap_timer_before_publish(&trace);
    // Every core finished and programmed its timer exactly once.
    let timer_count = trace
        .iter()
        .filter(|e| matches!(e, Event::ApicTimerInit(_)))
        .count();
    assert_eq!(timer_count, 4);
    for c in &m.cores {
        assert!(c.timer_ready);
        assert_eq!(c.setup, SetupPhase::Done);
    }
    // The application cores did spin before being released.
    assert!(m.cores[1].spin_count > 0);
    assert!(m.cores[2].spin_count > 0);
    assert!(m.cores[3].spin_count > 0);
}

#[test]
fn bootstrap_core_publishes_once_and_core_three_blocks_until_then() {
    let ids: Vec<u32> = vec![0, 3];
    let mut m = Machine::new(&ids);
    let mut trace: Vec<Event> = Vec::new();
    // Core identity 3 calls setup before the flag is set: it blocks.
    let done = X86_64SchedArch::initial_setup_sched_local_step(&mut m, 1, &mut trace);
    assert!(!done);
    assert!(!m.bsp_init_ok);
    assert!(m.cores[1].spin_count > 0);
    assert!(!m.cores[1].timer_ready);
    assert_eq!(trace, Vec::<Event>::new());
    // A second poll still blocks.
    let done = X86_64SchedArch::initial_setup_sched_local_step(&mut m, 1, &mut trace);
    assert!(!done);
    assert_eq!(m.cores[1].spin_count, 2);
    // Core identity 0 runs setup: the flag transitions false -> true,
    // exactly once, after its own timer setup.
    assert!(!m.bsp_init_ok);
    let done = X86_64SchedArch::initial_setup_sched_local_step(&mut m, 0, &mut trace);
    assert!(done);
    assert!(m.bsp_init_ok);
    assert_eq!(trace, vec![Event::ApicTimerInit(0), Event::BarrierPublish]);
    // Released: core 3 now proceeds, and the flag stays true.
    let done = X86_64SchedArch::initial_setup_sched_local_step(&mut m, 1, &mut trace);
    assert!(done);
    assert!(m.bsp_init_ok);
    assert!(m.cores[1].timer_ready);
    assert_eq!(
        trace,
        vec![Event::ApicTimerInit(0), Event::BarrierPublish, Event::ApicTimerInit(3)]
    );
    assert_eq!(publish_index(&trace), 1);
}

#[test]
fn setup_restores_the_interrupt_state_it_found() {
    let ids: Vec<u32> = vec![0];
    let mut m = Machine::new(&ids);
    // Interrupts were enabled when setup was entered: they are enabled again
    // after it, though setup runs with them off.
    let mut core = m.cores[0];
    CurrentIrqArch::interrupt_enable(&mut core);
    m.cores[0] = core;
    let mut trace: Vec<Event> = Vec::new();
    X86_64SchedArch::initial_setup_sched_local(&mut m, 0, &mut trace);
    assert!(m.cores[0].irq_enabled);
    assert!(m.cores[0].timer_ready);
}

#[test]
fn irq_scope_guard_saves_and_restores() {
    let ids: Vec<u32> = vec![7];
    let m = Machine::new(&ids);
    let mut core = m.cores[0];
    CurrentIrqArch::interrupt_enable(&mut core);
    assert!(CurrentIrqArch::is_irq_enabled(&core));
    let g = CurrentIrqArch::save_and_disable_irq(&mut core);
    assert!(!CurrentIrqArch::is_irq_enabled(&core));
    assert!(g.prior_state());
    g.release(&mut core);
    assert!(CurrentIrqArch::is_irq_enabled(&core));
    assert_eq!(smp_get_processor_id(&core), 7);
}

#[test]
fn sched_local_toggles_interrupt_delivery() {
    let ids: Vec<u32> = vec![2];
    let m = Machine::new(&ids);
    let mut core = m.cores[0];
    X86_64SchedArch::enable_sched_local(&mut core);
    assert!(core.irq_enabled);
    X86_64SchedArch::disable_sched_local(&mut core);
    assert!(!core.irq_enabled);
}
