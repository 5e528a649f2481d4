//! The record of collaborator invocations.
//!
//! The bring-up core does not perform subsystem initialization, timer
//! programming, halting or logging itself; those are external collaborators.
//! Each time the verified code would invoke one, it appends an [`Event`] to a
//! trace. The contracts of the bring-up functions pin the exact trace for
//! every input, so ordering properties (fail-fast, barrier-before-timer,
//! schedule-before-rest) are statements about these sequences.

use vstd::prelude::*;

verus! {

/// One invocation of an external collaborator.
#[derive(Clone, Copy, Debug, PartialEq, Eq, Structural)]
pub enum Event {
    // Steps before memory management is available. The screen control
    // module is told whether video bring-up succeeded, and enables graphic
    // output only then; the flag it was handed is part of the event.
    SerialEarlyInit,
    VideoInit,
    ScmInit(bool),
    EarlyInitLogging,
    EarlySetupArch,
    // Memory-management bring-up, behind the one-time init guard.
    MmArchInit,
    SlabInit,
    MmioInit,
    KmsgInit,
    PageManagerInit,
    ShmManagerInit,
    MmArchPostInit,
    // Console, text framework and filesystem.
    ScmReinit,
    TextuiInit,
    InitIntertrait,
    VfsInit,
    // Device driver model.
    DevicesInit,
    BusesInit,
    ClassesInit,
    FirmwareInit,
    HypervisorInit,
    PlatformBusInit,
    SerioBusInit,
    CpuDeviceManagerInit,
    // Platform, scheduler and process management.
    AcpiInit,
    SchedInit,
    ProcessInit,
    EarlySmpInit,
    // Interrupt subsystem.
    DummyChipInit,
    IrqDomainManagerInit,
    EarlyIrqInit,
    ArchIrqInit,
    // Late architecture, soft-interrupt, system call and time steps.
    SetupArch,
    PrepareCpus,
    SoftirqInit,
    SyscallInit,
    TimekeepingInit,
    TimeInit,
    TimerInit,
    KthreadInit,
    SetupArchPost,
    ClocksourceBootFinish,
    FutexInit,
    // Per-core scheduler local setup: the core's scheduling timer, and the
    // bootstrap core's one-shot publication of the boot barrier flag.
    ApicTimerInit(u32),
    BarrierPublish,
    // Idle loop collaborators.
    ScheduleCall,
    Halt,
    SpinWait,
    ErrorLog,
}

} // verus!
