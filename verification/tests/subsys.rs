use bootcore::driver::driver_init;
use bootcore::env::BootEnv;
use bootcore::error::SystemError;
use bootcore::exception::irq_init;
use bootcore::trace::Event;

#[test]
fn driver_init_runs_its_substeps_in_order() {
    let env = BootEnv::all_ok();
    let mut trace: Vec<Event> = Vec::new();
    assert_eq!(driver_init(&env, &mut trace), Ok(()));
    assert_eq!(
        trace,
        vec![
            Event::DevicesInit,
            Event::BusesInit,
            Event::ClassesInit,
            Event::FirmwareInit,
            Event::HypervisorInit,
            Event::PlatformBusInit,
            Event::SerioBusInit,
            Event::CpuDeviceManagerInit,
        ]
    );
}

#[test]
fn driver_init_stops_at_the_first_failing_substep() {
    let mut env = BootEnv::all_ok();
    env.firmware_init = Err(SystemError::EIO);
    let mut trace: Vec<Event> = Vec::new();
    assert_eq!(driver_init(&env, &mut trace), Err(SystemError::EIO));
    assert_eq!(
        trace,
        vec![Event::DevicesInit, Event::BusesInit, Event::ClassesInit, Event::FirmwareInit]
    );
}

#[test]
fn irq_init_runs_its_substeps_in_order() {
    let env = BootEnv::all_ok();
    let mut trace: Vec<Event> = Vec::new();
    assert_eq!(irq_init(&env, &mut trace), Ok(()));
    assert_eq!(
        trace,
        vec![
            Event::DummyChipInit,
            Event::IrqDomainManagerInit,
            Event::EarlyIrqInit,
            Event::ArchIrqInit,
        ]
    );
}

#[test]
fn irq_init_stops_when_the_early_descriptors_fail() {
    let mut env = BootEnv::all_ok();
    env.early_irq_init = Err(SystemError::ENOMEM);
    let mut trace: Vec<Event> = Vec::new();
    assert_eq!(irq_init(&env, &mut trace), Err(SystemError::ENOMEM));
    assert_eq!(
        trace,
        vec![Event::DummyChipInit, Event::IrqDomainManagerInit, Event::EarlyIrqInit]
    );
}
