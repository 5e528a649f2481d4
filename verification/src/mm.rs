//! Memory-management initialization and the one-time init guard.
//!
//! The guard is a tri-state cell, `NotInit -> Initializing -> Initialized`,
//! that makes a subsystem's initializer run to completion exactly once. In
//! the kernel the transition is a single sequentially consistent
//! compare-exchange on an atomic cell; concurrent callers therefore agree on
//! one linearization order of their attempts, and the model below speaks
//! about that order: however many `begin` attempts race, exactly the first
//! one in the order wins ([`lemma_exactly_one_begin_wins`]).

use vstd::prelude::*;
use crate::trace::Event;

verus! {

/// Initialization state of a one-time guarded subsystem.
#[derive(Clone, Copy, Debug, PartialEq, Eq, Structural)]
pub enum MMInitStatus {
    NotInit,
    Initializing,
    Initialized,
}

/// The rejection handed to a `begin` attempt that did not win the race: the
/// guarded initializer was already entered. Callers treat it as fatal.
#[derive(Clone, Copy, Debug, PartialEq, Eq, Structural)]
pub struct InitGuardViolation {
    /// The state the guard was found in.
    pub found: MMInitStatus,
}

/// Whether a `begin` attempt made against state `s` wins.
pub open spec fn begin_wins(s: MMInitStatus) -> bool {
    s is NotInit
}

/// The guard state after a `begin` attempt made against state `s`.
pub open spec fn begin_next(s: MMInitStatus) -> MMInitStatus {
    if begin_wins(s) {
        MMInitStatus::Initializing
    } else {
        s
    }
}

/// How many of `n` consecutive `begin` attempts win, starting from state `s`.
pub open spec fn wins_among(s: MMInitStatus, n: nat) -> nat
    decreases n,
{
    if n == 0 {
        0
    } else {
        (if begin_wins(s) { 1nat } else { 0nat }) + wins_among(begin_next(s), (n - 1) as nat)
    }
}

/// From any state other than `NotInit`, no number of `begin` attempts ever
/// wins: the guard is one-shot.
pub proof fn lemma_losers_never_win(s: MMInitStatus, n: nat)
    requires
        !begin_wins(s),
    ensures
        wins_among(s, n) == 0,
    decreases n,
{
    if n > 0 {
        lemma_losers_never_win(begin_next(s), (n - 1) as nat);
    }
}

/// One-Time Init Guard law: starting from `NotInit`, of any positive number
/// of `begin` attempts — however many cores raced, in whatever order the
/// atomic compare-exchange serialized them — exactly one wins.
pub proof fn lemma_exactly_one_begin_wins(n: nat)
    requires
        n >= 1,
    ensures
        wins_among(MMInitStatus::NotInit, n) == 1,
{
    lemma_losers_never_win(MMInitStatus::Initializing, (n - 1) as nat);
}

/// The tri-state one-time initialization guard.
///
/// In the kernel this is an atomic cell; here the state is private and only
/// the three operations below can move it, so the verified transitions are
/// the only ones possible.
pub struct InitGuard {
    state: MMInitStatus,
}

impl InitGuard {
    /// The current state of the guard.
    pub closed spec fn status_spec(self) -> MMInitStatus {
        self.state
    }

    /// A fresh guard: nothing initialized yet.
    pub fn new() -> (g: InitGuard)
        ensures
            g.status_spec() is NotInit,
    {
        InitGuard { state: MMInitStatus::NotInit }
    }

    /// Attempt the `NotInit -> Initializing` transition.
    ///
    /// Exactly the attempt that finds `NotInit` wins; every other attempt is
    /// observably rejected and leaves the state unchanged. A rejection means
    /// a second concurrent or repeated call to the guarded initializer: a
    /// detected programming error, fatal to the boot.
    pub fn begin(&mut self) -> (r: Result<(), InitGuardViolation>)
        ensures
            final(self).status_spec() == begin_next(old(self).status_spec()),
            (r is Ok) <==> begin_wins(old(self).status_spec()),
            r matches Err(v) ==> v.found == old(self).status_spec(),
    {
        match self.state {
            MMInitStatus::NotInit => {
                self.state = MMInitStatus::Initializing;
                Ok(())
            },
            s => Err(InitGuardViolation { found: s }),
        }
    }

    /// The `Initializing -> Initialized` transition, made by the same logical
    /// caller that won `begin`.
    pub fn complete(&mut self)
        requires
            old(self).status_spec() is Initializing,
        ensures
            final(self).status_spec() is Initialized,
    {
        self.state = MMInitStatus::Initialized;
    }

    /// Lock-free read of the guard, usable by any core at any time.
    pub fn status(&self) -> (s: MMInitStatus)
        ensures
            s == self.status_spec(),
    {
        self.state
    }
}

/// The collaborator invocations of a successful memory-management
/// initialization, in order. The guard reads `Initialized` from the moment the
/// winner completes it, which is before the architecture post-init step.
pub open spec fn mm_init_events() -> Seq<Event> {
    seq![
        Event::MmArchInit,
        Event::SlabInit,
        Event::MmioInit,
        Event::KmsgInit,
        Event::PageManagerInit,
        Event::ShmManagerInit,
        Event::MmArchPostInit,
    ]
}

/// Memory-management initialization: slab allocator, memory-mapped I/O pool,
/// kernel message buffer, page manager and shared-memory manager, guarded so
/// that it runs exactly once.
///
/// A call that does not win the guard performs nothing and reports the
/// violation; the boot treats that as fatal.
pub fn mm_init(guard: &mut InitGuard, trace: &mut Vec<Event>) -> (r: Result<(), InitGuardViolation>)
    ensures
        begin_wins(old(guard).status_spec()) ==> r is Ok
            && final(guard).status_spec() is Initialized
            && final(trace)@ == old(trace)@ + mm_init_events(),
        !begin_wins(old(guard).status_spec()) ==> final(guard).status_spec() == old(
            guard,
        ).status_spec() && final(trace)@ == old(trace)@ && (r matches Err(v) && v.found == old(
            guard,
        ).status_spec()),
{
    if let Err(v) = guard.begin() {
        return Err(v);
    }
    trace.push(Event::MmArchInit);
    trace.push(Event::SlabInit);
    trace.push(Event::MmioInit);
    trace.push(Event::KmsgInit);
    trace.push(Event::PageManagerInit);
    trace.push(Event::ShmManagerInit);
    guard.complete();
    trace.push(Event::MmArchPostInit);
    assert(trace@ =~= old(trace)@ + mm_init_events());
    Ok(())
}

/// The initialization state of memory management, readable at any time.
pub fn mm_init_status(guard: &InitGuard) -> (s: MMInitStatus)
    ensures
        s == guard.status_spec(),
{
    guard.status()
}

} // verus!
