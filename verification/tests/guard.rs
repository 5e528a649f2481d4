use bootcore::mm::{mm_init, mm_init_status, InitGuard, InitGuardViolation, MMInitStatus};
use bootcore::trace::Event;

#[test]
fn exactly_one_of_many_begin_attempts_wins() {
    // Five racing begin attempts, in the order the atomic compare-exchange
    // serialized them: exactly one success.
    let mut guard = InitGuard::new();
    let mut wins: u32 = 0;
    let mut k: u32 = 0;
    while k < 5 {
        if guard.begin().is_ok() {
            wins += 1;
        }
        k += 1;
    }
    assert_eq!(wins, 1);
    assert_eq!(guard.status(), MMInitStatus::Initializing);
    guard.complete();
    assert_eq!(guard.status(), MMInitStatus::Initialized);
}

#[test]
fn begin_transitions_and_rejections() {
    let mut guard = InitGuard::new();
    assert_eq!(guard.status(), MMInitStatus::NotInit);
    assert_eq!(guard.begin(), Ok(()));
    assert_eq!(guard.status(), MMInitStatus::Initializing);
    assert_eq!(
        guard.begin(),
        Err(InitGuardViolation { found: MMInitStatus::Initializing })
    );
    assert_eq!(guard.status(), MMInitStatus::Initializing);
    guard.complete();
    assert_eq!(
        guard.begin(),
        Err(InitGuardViolation { found: MMInitStatus::Initialized })
    );
    assert_eq!(guard.status(), MMInitStatus::Initialized);
}

#[test]
fn mm_init_runs_once_and_in_order() {
    let mut guard = InitGuard::new();
    let mut trace: Vec<Event> = Vec::new();
    let r = mm_init(&mut guard, &mut trace);
    assert_eq!(r, Ok(()));
    assert_eq!(
        trace,
        vec![
            Event::MmArchInit,
            Event::SlabInit,
            Event::MmioInit,
            Event::KmsgInit,
            Event::PageManagerInit,
            Event::ShmManagerInit,
            Event::MmArchPostInit,
        ]
    );
    assert_eq!(mm_init_status(&guard), MMInitStatus::Initialized);
}

#[test]
fn second_mm_init_is_rejected_and_does_nothing() {
    let mut guard = InitGuard::new();
    let mut trace: Vec<Event> = Vec::new();
    assert_eq!(mm_init(&mut guard, &mut trace), Ok(()));
    let before = trace.clone();
    let r = mm_init(&mut guard, &mut trace);
    assert_eq!(r, Err(InitGuardViolation { found: MMInitStatus::Initialized }));
    assert_eq!(trace, before);
    assert_eq!(mm_init_status(&guard), MMInitStatus::Initialized);
}
