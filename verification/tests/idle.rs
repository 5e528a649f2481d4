use bootcore::idle::{ProcessControlBlock, ProcessFlags, ProcessManager};
use bootcore::smp::Machine;
use bootcore::trace::Event;

fn pcb(need_schedule: bool) -> ProcessControlBlock {
    ProcessControlBlock { flags: ProcessFlags { need_schedule } }
}

#[test]
fn schedule_request_invokes_the_scheduler_before_any_rest() {
    let ids: Vec<u32> = vec![0];
    let mut m = Machine::new(&ids);
    m.cores[0].irq_enabled = true;
    let mut p = pcb(true);
    let mut trace: Vec<Event> = Vec::new();
    ProcessManager::idle_iteration(&mut p, &m.cores[0], &mut trace);
    // The scheduler ran; no halt and no spin were attempted this round.
    assert_eq!(trace, vec![Event::ScheduleCall]);
    assert!(!p.flags.need_schedule);
}

#[test]
fn quiet_round_with_interrupts_enabled_halts_and_never_logs() {
    let ids: Vec<u32> = vec![0];
    let mut m = Machine::new(&ids);
    m.cores[0].irq_enabled = true;
    let mut p = pcb(false);
    let mut trace: Vec<Event> = Vec::new();
    ProcessManager::idle_iteration(&mut p, &m.cores[0], &mut trace);
    assert_eq!(trace, vec![Event::Halt]);
}

#[test]
fn quiet_round_with_interrupts_disabled_logs_once_and_spins() {
    let ids: Vec<u32> = vec![0];
    let m = Machine::new(&ids);
    assert!(!m.cores[0].irq_enabled);
    let mut p = pcb(false);
    let mut trace: Vec<Event> = Vec::new();
    ProcessManager::idle_iteration(&mut p, &m.cores[0], &mut trace);
    // Exactly one error report, then a spin — never a halt.
    assert_eq!(trace, vec![Event::ErrorLog, Event::SpinWait]);
}

#[test]
fn degraded_loop_keeps_running_logging_once_per_round() {
    let ids: Vec<u32> = vec![0];
    let m = Machine::new(&ids);
    let mut p = pcb(false);
    let requests: Vec<bool> = vec![false, false, false];
    let mut trace: Vec<Event> = Vec::new();
    ProcessManager::arch_idle_func(&mut p, &m.cores[0], &requests, &mut trace);
    // Three full rounds ran: the loop does not terminate on the violation.
    assert_eq!(
        trace,
        vec![
            Event::ErrorLog,
            Event::SpinWait,
            Event::ErrorLog,
            Event::SpinWait,
            Event::ErrorLog,
            Event::SpinWait,
        ]
    );
}

#[test]
fn mixed_requests_alternate_scheduling_and_halting() {
    let ids: Vec<u32> = vec![0];
    let mut m = Machine::new(&ids);
    m.cores[0].irq_enabled = true;
    let mut p = pcb(false);
    let requests: Vec<bool> = vec![true, false, true, false];
    let mut trace: Vec<Event> = Vec::new();
    ProcessManager::arch_idle_func(&mut p, &m.cores[0], &requests, &mut trace);
    assert_eq!(
        trace,
        vec![Event::ScheduleCall, Event::Halt, Event::ScheduleCall, Event::Halt]
    );
    assert!(!p.flags.need_schedule);
}
