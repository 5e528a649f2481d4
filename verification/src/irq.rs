//! The interrupt architecture of the executing core, and the interrupt-scope
//! guard discipline the boot code relies on.

use vstd::prelude::*;
use crate::smp::CoreState;

verus! {

/// Core-local interrupt control.
pub struct CurrentIrqArch;

impl CurrentIrqArch {
    /// Whether interrupt delivery is currently enabled on this core.
    pub fn is_irq_enabled(core: &CoreState) -> (r: bool)
        ensures
            r == core.irq_enabled,
    {
        core.irq_enabled
    }

    /// Enable interrupt delivery on this core.
    pub fn interrupt_enable(core: &mut CoreState)
        ensures
            *final(core) == (CoreState { irq_enabled: true, ..*old(core) }),
    {
        core.irq_enabled = true;
    }

    /// Disable interrupt delivery on this core.
    pub fn interrupt_disable(core: &mut CoreState)
        ensures
            *final(core) == (CoreState { irq_enabled: false, ..*old(core) }),
    {
        core.irq_enabled = false;
    }

    /// Disable interrupts and hand back a scoped guard holding the prior
    /// state; releasing the guard restores that state whatever happened in
    /// between.
    pub fn save_and_disable_irq(core: &mut CoreState) -> (g: IrqGuard)
        ensures
            *final(core) == (CoreState { irq_enabled: false, ..*old(core) }),
            g.prior() == old(core).irq_enabled,
    {
        let saved = core.irq_enabled;
        core.irq_enabled = false;
        IrqGuard { saved }
    }
}

/// Scoped token for "interrupts forcibly disabled": it owns nothing but the
/// saved prior interrupt state, and releasing it — which consumes it, so it
/// can happen at most once — restores that state on whatever path the scope
/// is left.
pub struct IrqGuard {
    saved: bool,
}

impl IrqGuard {
    /// The interrupt state observed when the guard was created.
    pub closed spec fn prior(self) -> bool {
        self.saved
    }

    /// The saved prior interrupt state, readable while the guard is held.
    pub fn prior_state(&self) -> (r: bool)
        ensures
            r == self.prior(),
    {
        self.saved
    }

    /// Restore the saved interrupt state.
    pub fn release(self, core: &mut CoreState)
        ensures
            *final(core) == (CoreState { irq_enabled: self.prior(), ..*old(core) }),
    {
        core.irq_enabled = self.saved;
    }
}

} // verus!
