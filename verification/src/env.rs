//! Outcomes of the fallible external collaborators.
//!
//! Every subsystem initializer the orchestrator invokes either succeeds or
//! reports a failure code; none has side effects on failure that would need
//! rollback. A [`BootEnv`] fixes one outcome per fallible collaborator, and
//! the bring-up contracts then pin the behavior of the boot for each such
//! assignment — including the fail-fast truncation after the first failure.

use vstd::prelude::*;
use crate::error::SystemError;

verus! {

/// One outcome per fallible collaborator, in the orchestrator's fixed order.
/// Collaborators that cannot fail have no entry.
#[derive(Clone, Copy, Debug)]
pub struct BootEnv {
    pub serial_early_init: Result<(), SystemError>,
    /// Video bring-up may fail without aborting the boot: the screen control
    /// module is then initialized without graphic output.
    pub video_init: Result<(), SystemError>,
    pub early_setup_arch: Result<(), SystemError>,
    pub scm_reinit: Result<(), SystemError>,
    pub textui_init: Result<(), SystemError>,
    pub vfs_init: Result<(), SystemError>,
    pub devices_init: Result<(), SystemError>,
    pub buses_init: Result<(), SystemError>,
    pub classes_init: Result<(), SystemError>,
    pub firmware_init: Result<(), SystemError>,
    pub hypervisor_init: Result<(), SystemError>,
    pub platform_bus_init: Result<(), SystemError>,
    pub serio_bus_init: Result<(), SystemError>,
    pub cpu_device_manager_init: Result<(), SystemError>,
    pub early_smp_init: Result<(), SystemError>,
    pub early_irq_init: Result<(), SystemError>,
    pub arch_irq_init: Result<(), SystemError>,
    pub setup_arch: Result<(), SystemError>,
    pub prepare_cpus: Result<(), SystemError>,
    pub softirq_init: Result<(), SystemError>,
    pub syscall_init: Result<(), SystemError>,
    pub setup_arch_post: Result<(), SystemError>,
}

impl BootEnv {
    /// The environment in which every collaborator succeeds.
    pub open spec fn all_ok_spec() -> BootEnv {
        BootEnv {
            serial_early_init: Ok(()),
            video_init: Ok(()),
            early_setup_arch: Ok(()),
            scm_reinit: Ok(()),
            textui_init: Ok(()),
            vfs_init: Ok(()),
            devices_init: Ok(()),
            buses_init: Ok(()),
            classes_init: Ok(()),
            firmware_init: Ok(()),
            hypervisor_init: Ok(()),
            platform_bus_init: Ok(()),
            serio_bus_init: Ok(()),
            cpu_device_manager_init: Ok(()),
            early_smp_init: Ok(()),
            early_irq_init: Ok(()),
            arch_irq_init: Ok(()),
            setup_arch: Ok(()),
            prepare_cpus: Ok(()),
            softirq_init: Ok(()),
            syscall_init: Ok(()),
            setup_arch_post: Ok(()),
        }
    }

    /// Builds the all-successful environment.
    pub fn all_ok() -> (e: BootEnv)
        ensures
            e == BootEnv::all_ok_spec(),
    {
        BootEnv {
            serial_early_init: Ok(()),
            video_init: Ok(()),
            early_setup_arch: Ok(()),
            scm_reinit: Ok(()),
            textui_init: Ok(()),
            vfs_init: Ok(()),
            devices_init: Ok(()),
            buses_init: Ok(()),
            classes_init: Ok(()),
            firmware_init: Ok(()),
            hypervisor_init: Ok(()),
            platform_bus_init: Ok(()),
            serio_bus_init: Ok(()),
            cpu_device_manager_init: Ok(()),
            early_smp_init: Ok(()),
            early_irq_init: Ok(()),
            arch_irq_init: Ok(()),
            setup_arch: Ok(()),
            prepare_cpus: Ok(()),
            softirq_init: Ok(()),
            syscall_init: Ok(()),
            setup_arch_post: Ok(()),
        }
    }
}

} // verus!
