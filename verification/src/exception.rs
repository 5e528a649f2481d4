//! Interrupt subsystem initialization.

use vstd::prelude::*;
use crate::env::BootEnv;
use crate::error::SystemError;
use crate::trace::Event;

verus! {

/// The collaborator invocations of interrupt-subsystem initialization under
/// `env`: dummy chip and domain manager (infallible), early interrupt
/// descriptors, then the architecture's interrupt init, cut short right
/// after the first failure.
pub open spec fn irq_init_events(env: BootEnv) -> Seq<Event> {
    let s = seq![Event::DummyChipInit, Event::IrqDomainManagerInit, Event::EarlyIrqInit];
    if env.early_irq_init is Err {
        s
    } else {
        s.push(Event::ArchIrqInit)
    }
}

/// The outcome of interrupt-subsystem initialization under `env`.
pub open spec fn irq_init_result(env: BootEnv) -> Result<(), SystemError> {
    if env.early_irq_init is Err {
        env.early_irq_init
    } else if env.arch_irq_init is Err {
        env.arch_irq_init
    } else {
        Ok(())
    }
}

/// Initialize the interrupt subsystem: the placeholder chips, the interrupt
/// domain manager, the early descriptor probe, then the architecture's own
/// interrupt setup — in that order, stopping at the first failure.
pub fn irq_init(env: &BootEnv, trace: &mut Vec<Event>) -> (r: Result<(), SystemError>)
    ensures
        final(trace)@ == old(trace)@ + irq_init_events(*env),
        r == irq_init_result(*env),
{
    let ghost tr0 = trace@;
    trace.push(Event::DummyChipInit);
    trace.push(Event::IrqDomainManagerInit);
    trace.push(Event::EarlyIrqInit);
    if let Err(e) = env.early_irq_init {
        assert(trace@ =~= tr0 + irq_init_events(*env));
        return Err(e);
    }
    trace.push(Event::ArchIrqInit);
    if let Err(e) = env.arch_irq_init {
        assert(trace@ =~= tr0 + irq_init_events(*env));
        return Err(e);
    }
    assert(trace@ =~= tr0 + irq_init_events(*env));
    Ok(())
}

} // verus!
