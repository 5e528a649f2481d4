use bootcore::env::BootEnv;
use bootcore::error::{BootError, BootStep, SystemError};
use bootcore::init::{do_start_kernel, start_kernel};
use bootcore::mm::{InitGuard, MMInitStatus};
use bootcore::smp::Machine;
use bootcore::trace::Event;

fn full_trace() -> Vec<Event> {
    vec![
        Event::SerialEarlyInit,
        Event::VideoInit,
        Event::ScmInit(true),
        Event::EarlyInitLogging,
        Event::EarlySetupArch,
        Event::MmArchInit,
        Event::SlabInit,
        Event::MmioInit,
        Event::KmsgInit,
        Event::PageManagerInit,
        Event::ShmManagerInit,
        Event::MmArchPostInit,
        Event::ScmReinit,
        Event::TextuiInit,
        Event::InitIntertrait,
        Event::VfsInit,
        Event::DevicesInit,
        Event::BusesInit,
        Event::ClassesInit,
        Event::FirmwareInit,
        Event::HypervisorInit,
        Event::PlatformBusInit,
        Event::SerioBusInit,
        Event::CpuDeviceManagerInit,
        Event::AcpiInit,
        Event::SchedInit,
        Event::ProcessInit,
        Event::EarlySmpInit,
        Event::DummyChipInit,
        Event::IrqDomainManagerInit,
        Event::EarlyIrqInit,
        Event::ArchIrqInit,
        Event::SetupArch,
        Event::PrepareCpus,
        Event::SoftirqInit,
        Event::SyscallInit,
        Event::TimekeepingInit,
        Event::TimeInit,
        Event::TimerInit,
        Event::KthreadInit,
        Event::SetupArchPost,
        Event::ClocksourceBootFinish,
        Event::FutexInit,
    ]
}

fn run_boot(env: &BootEnv) -> (Vec<Event>, Result<(), BootError>, MMInitStatus) {
    let mut guard = InitGuard::new();
    let mut trace: Vec<Event> = Vec::new();
    let r = do_start_kernel(env, &mut guard, &mut trace);
    let s = guard.status();
    (trace, r, s)
}

/// The boot under `env` must abort naming `step` with `source`, after having
/// invoked exactly the first `cut` collaborators of the all-successful order.
fn assert_fatal(env: BootEnv, step: BootStep, source: SystemError, cut: usize) {
    let (trace, r, _) = run_boot(&env);
    assert_eq!(r, Err(BootError::StepFailed { step, source }));
    assert_eq!(trace, full_trace()[..cut].to_vec());
}

#[test]
fn boot_all_ok_runs_every_step_in_order() {
    let env = BootEnv::all_ok();
    let (trace, r, s) = run_boot(&env);
    assert_eq!(r, Ok(()));
    assert_eq!(trace.len(), 43);
    assert_eq!(trace, full_trace());
    assert_eq!(s, MMInitStatus::Initialized);
}

#[test]
fn video_failure_is_tolerated_and_reaches_the_screen_module() {
    let mut env = BootEnv::all_ok();
    env.video_init = Err(SystemError::ENODEV);
    let (trace, r, s) = run_boot(&env);
    assert_eq!(r, Ok(()));
    // The boot completes, but the screen control module was told that video
    // did not come up.
    let mut expected = full_trace();
    expected[2] = Event::ScmInit(false);
    assert_eq!(trace, expected);
    assert_eq!(s, MMInitStatus::Initialized);
}

#[test]
fn serial_failure_stops_everything_else() {
    let mut env = BootEnv::all_ok();
    env.serial_early_init = Err(SystemError::EIO);
    assert_fatal(env, BootStep::SerialEarlyInit, SystemError::EIO, 1);
}

#[test]
fn early_setup_arch_failure_stops_memory_management() {
    let mut env = BootEnv::all_ok();
    env.early_setup_arch = Err(SystemError::EFAULT);
    assert_fatal(env, BootStep::EarlySetupArch, SystemError::EFAULT, 5);
}

#[test]
fn console_and_ui_failures_are_fatal() {
    let mut env = BootEnv::all_ok();
    env.scm_reinit = Err(SystemError::ENOMEM);
    assert_fatal(env, BootStep::ScmReinit, SystemError::ENOMEM, 13);

    let mut env = BootEnv::all_ok();
    env.textui_init = Err(SystemError::ENOMEM);
    assert_fatal(env, BootStep::TextuiInit, SystemError::ENOMEM, 14);

    let mut env = BootEnv::all_ok();
    env.vfs_init = Err(SystemError::EINVAL);
    assert_fatal(env, BootStep::VfsInit, SystemError::EINVAL, 16);
}

#[test]
fn each_driver_substep_failure_truncates_at_that_substep() {
    let sub: Vec<(usize, fn(&mut BootEnv))> = vec![
        (17, set_devices_err),
        (18, set_buses_err),
        (19, set_classes_err),
        (20, set_firmware_err),
        (21, set_hypervisor_err),
        (22, set_platform_bus_err),
        (23, set_serio_bus_err),
        (24, set_cpu_device_manager_err),
    ];
    for (cut, set) in sub {
        let mut env = BootEnv::all_ok();
        set(&mut env);
        assert_fatal(env, BootStep::DriverInit, SystemError::ENODEV, cut);
    }
}

fn set_devices_err(env: &mut BootEnv) {
    env.devices_init = Err(SystemError::ENODEV);
}

fn set_buses_err(env: &mut BootEnv) {
    env.buses_init = Err(SystemError::ENODEV);
}

fn set_classes_err(env: &mut BootEnv) {
    env.classes_init = Err(SystemError::ENODEV);
}

fn set_firmware_err(env: &mut BootEnv) {
    env.firmware_init = Err(SystemError::ENODEV);
}

fn set_hypervisor_err(env: &mut BootEnv) {
    env.hypervisor_init = Err(SystemError::ENODEV);
}

fn set_platform_bus_err(env: &mut BootEnv) {
    env.platform_bus_init = Err(SystemError::ENODEV);
}

fn set_serio_bus_err(env: &mut BootEnv) {
    env.serio_bus_init = Err(SystemError::ENODEV);
}

fn set_cpu_device_manager_err(env: &mut BootEnv) {
    env.cpu_device_manager_init = Err(SystemError::ENODEV);
}

#[test]
fn smp_and_irq_failures_are_fatal() {
    let mut env = BootEnv::all_ok();
    env.early_smp_init = Err(SystemError::EBUSY);
    assert_fatal(env, BootStep::EarlySmpInit, SystemError::EBUSY, 28);

    let mut env = BootEnv::all_ok();
    env.early_irq_init = Err(SystemError::EINVAL);
    assert_fatal(env, BootStep::IrqInit, SystemError::EINVAL, 31);

    let mut env = BootEnv::all_ok();
    env.arch_irq_init = Err(SystemError::EPERM);
    assert_fatal(env, BootStep::IrqInit, SystemError::EPERM, 32);
}

#[test]
fn late_step_failures_are_fatal() {
    let mut env = BootEnv::all_ok();
    env.setup_arch = Err(SystemError::EFAULT);
    assert_fatal(env, BootStep::SetupArch, SystemError::EFAULT, 33);

    let mut env = BootEnv::all_ok();
    env.prepare_cpus = Err(SystemError::EBUSY);
    assert_fatal(env, BootStep::PrepareCpus, SystemError::EBUSY, 34);

    let mut env = BootEnv::all_ok();
    env.softirq_init = Err(SystemError::ENOMEM);
    assert_fatal(env, BootStep::SoftirqInit, SystemError::ENOMEM, 35);

    let mut env = BootEnv::all_ok();
    env.syscall_init = Err(SystemError::ENOSYS);
    assert_fatal(env, BootStep::SyscallInit, SystemError::ENOSYS, 36);

    let mut env = BootEnv::all_ok();
    env.setup_arch_post = Err(SystemError::EINVAL);
    assert_fatal(env, BootStep::SetupArchPost, SystemError::EINVAL, 41);
}

#[test]
fn boot_with_guard_already_entered_aborts_before_memory_management() {
    let env = BootEnv::all_ok();
    let mut guard = InitGuard::new();
    assert_eq!(guard.begin(), Ok(()));
    guard.complete();
    let mut trace: Vec<Event> = Vec::new();
    let r = do_start_kernel(&env, &mut guard, &mut trace);
    assert_eq!(
        r,
        Err(BootError::InitRepeated { step: BootStep::MmInit, found: MMInitStatus::Initialized })
    );
    // Boot stopped right after architecture early setup: no memory event.
    assert_eq!(trace, full_trace()[..5].to_vec());
}

#[test]
fn start_kernel_boots_sets_up_bsp_and_enables_scheduling() {
    let env = BootEnv::all_ok();
    let mut guard = InitGuard::new();
    let ids: Vec<u32> = vec![0, 5];
    let mut m = Machine::new(&ids);
    let mut trace: Vec<Event> = Vec::new();
    let r = start_kernel(&env, &mut guard, &mut m, 0, &mut trace);
    assert_eq!(r, Ok(()));
    let mut expected = full_trace();
    expected.push(Event::ApicTimerInit(0));
    expected.push(Event::BarrierPublish);
    assert_eq!(trace, expected);
    assert!(m.bsp_init_ok);
    assert!(m.cores[0].timer_ready);
    assert!(m.cores[0].irq_enabled);
    assert!(!m.cores[1].timer_ready);
    assert_eq!(guard.status(), MMInitStatus::Initialized);
}

#[test]
fn start_kernel_failure_touches_no_core() {
    let mut env = BootEnv::all_ok();
    env.vfs_init = Err(SystemError::EINVAL);
    let mut guard = InitGuard::new();
    let ids: Vec<u32> = vec![0, 5];
    let mut m = Machine::new(&ids);
    let mut trace: Vec<Event> = Vec::new();
    let r = start_kernel(&env, &mut guard, &mut m, 0, &mut trace);
    assert_eq!(
        r,
        Err(BootError::StepFailed { step: BootStep::VfsInit, source: SystemError::EINVAL })
    );
    assert!(!m.bsp_init_ok);
    assert!(!m.cores[0].timer_ready);
    assert!(!m.cores[0].irq_enabled);
    assert_eq!(trace, full_trace()[..16].to_vec());
}
