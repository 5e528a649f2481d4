//! Device driver model initialization.

use vstd::prelude::*;
use crate::env::BootEnv;
use crate::error::SystemError;
use crate::trace::Event;

verus! {

/// The collaborator invocations of driver-model initialization under `env`:
/// the sub-steps in their fixed order, cut short right after the first one
/// that fails.
pub open spec fn driver_init_events(env: BootEnv) -> Seq<Event> {
    let s = seq![Event::DevicesInit];
    if env.devices_init is Err {
        s
    } else {
        let s = s.push(Event::BusesInit);
        if env.buses_init is Err {
            s
        } else {
            let s = s.push(Event::ClassesInit);
            if env.classes_init is Err {
                s
            } else {
                let s = s.push(Event::FirmwareInit);
                if env.firmware_init is Err {
                    s
                } else {
                    let s = s.push(Event::HypervisorInit);
                    if env.hypervisor_init is Err {
                        s
                    } else {
                        let s = s.push(Event::PlatformBusInit);
                        if env.platform_bus_init is Err {
                            s
                        } else {
                            let s = s.push(Event::SerioBusInit);
                            if env.serio_bus_init is Err {
                                s
                            } else {
                                s.push(Event::CpuDeviceManagerInit)
                            }
                        }
                    }
                }
            }
        }
    }
}

/// The outcome of driver-model initialization under `env`: the failure code
/// of the first failing sub-step, or success when all succeed.
pub open spec fn driver_init_result(env: BootEnv) -> Result<(), SystemError> {
    if env.devices_init is Err {
        env.devices_init
    } else if env.buses_init is Err {
        env.buses_init
    } else if env.classes_init is Err {
        env.classes_init
    } else if env.firmware_init is Err {
        env.firmware_init
    } else if env.hypervisor_init is Err {
        env.hypervisor_init
    } else if env.platform_bus_init is Err {
        env.platform_bus_init
    } else if env.serio_bus_init is Err {
        env.serio_bus_init
    } else if env.cpu_device_manager_init is Err {
        env.cpu_device_manager_init
    } else {
        Ok(())
    }
}

/// Initialize the device driver model: device manager, buses, classes,
/// firmware, hypervisor, platform bus, serio bus, CPU device manager — in
/// that order, stopping at the first failure, whose code is handed up.
pub fn driver_init(env: &BootEnv, trace: &mut Vec<Event>) -> (r: Result<(), SystemError>)
    ensures
        final(trace)@ == old(trace)@ + driver_init_events(*env),
        r == driver_init_result(*env),
{
    let ghost tr0 = trace@;
    trace.push(Event::DevicesInit);
    if let Err(e) = env.devices_init {
        assert(trace@ =~= tr0 + driver_init_events(*env));
        return Err(e);
    }
    trace.push(Event::BusesInit);
    if let Err(e) = env.buses_init {
        assert(trace@ =~= tr0 + driver_init_events(*env));
        return Err(e);
    }
    trace.push(Event::ClassesInit);
    if let Err(e) = env.classes_init {
        assert(trace@ =~= tr0 + driver_init_events(*env));
        return Err(e);
    }
    trace.push(Event::FirmwareInit);
    if let Err(e) = env.firmware_init {
        assert(trace@ =~= tr0 + driver_init_events(*env));
        return Err(e);
    }
    trace.push(Event::HypervisorInit);
    if let Err(e) = env.hypervisor_init {
        assert(trace@ =~= tr0 + driver_init_events(*env));
        return Err(e);
    }
    trace.push(Event::PlatformBusInit);
    if let Err(e) = env.platform_bus_init {
        assert(trace@ =~= tr0 + driver_init_events(*env));
        return Err(e);
    }
    trace.push(Event::SerioBusInit);
    if let Err(e) = env.serio_bus_init {
        assert(trace@ =~= tr0 + driver_init_events(*env));
        return Err(e);
    }
    trace.push(Event::CpuDeviceManagerInit);
    if let Err(e) = env.cpu_device_manager_init {
        assert(trace@ =~= tr0 + driver_init_events(*env));
        return Err(e);
    }
    assert(trace@ =~= tr0 + driver_init_events(*env));
    Ok(())
}

} // verus!
