//! Error values of the bring-up core.

use vstd::prelude::*;
use crate::mm::MMInitStatus;

verus! {

/// Failure code handed back by a fallible subsystem initializer.
///
/// The collaborators report errno-style codes; the bring-up core never
/// interprets them, it only carries them into the boot diagnostic.
#[allow(non_camel_case_types)]
#[derive(Clone, Copy, Debug, PartialEq, Eq, Structural)]
pub enum SystemError {
    EPERM,
    EIO,
    ENOMEM,
    EFAULT,
    EBUSY,
    EEXIST,
    ENODEV,
    EINVAL,
    ENOSYS,
}

/// The orchestrator-level steps that can abort the boot, in the fixed order
/// the Boot Orchestrator runs them.
#[derive(Clone, Copy, Debug, PartialEq, Eq, Structural)]
pub enum BootStep {
    SerialEarlyInit,
    EarlySetupArch,
    MmInit,
    ScmReinit,
    TextuiInit,
    VfsInit,
    DriverInit,
    EarlySmpInit,
    IrqInit,
    SetupArch,
    PrepareCpus,
    SoftirqInit,
    SyscallInit,
    SetupArchPost,
}

/// Diagnostic of an unrecoverable boot abort: it names the step that failed.
///
/// There is no partial-boot continuation mode; the caller of the orchestrator
/// treats any of these as fatal.
#[derive(Clone, Copy, Debug, PartialEq, Eq, Structural)]
pub enum BootError {
    /// An ordered subsystem-initialization step reported a failure.
    StepFailed { step: BootStep, source: SystemError },
    /// A one-time initialization guard was entered a second time: a systemic
    /// ordering bug, detected rather than silently corrupting state.
    InitRepeated { step: BootStep, found: MMInitStatus },
}

} // verus!
