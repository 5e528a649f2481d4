//! The multi-core machine model: per-core state and the boot barrier flag.

use vstd::prelude::*;

verus! {

/// Where a core stands in its scheduler local setup.
#[derive(Clone, Copy, Debug, PartialEq, Eq, Structural)]
pub enum SetupPhase {
    /// Setup has not been entered.
    NotStarted,
    /// An application core is spin-waiting on the boot barrier flag, with
    /// interrupts disabled by its interrupt-scope guard; `saved_irq` is the
    /// interrupt state the guard will restore.
    Waiting { saved_irq: bool },
    /// Setup ran to completion; the scheduling timer is programmed.
    Done,
}

/// The state of one physical processor that the bring-up code reads or
/// writes. Core identity is stable for the machine's lifetime; identity 0 is
/// the bootstrap core.
#[derive(Clone, Copy, Debug, PartialEq, Eq, Structural)]
pub struct CoreState {
    /// Stable identity of this core; 0 marks the bootstrap core.
    pub id: u32,
    /// Whether interrupt delivery is enabled on this core.
    pub irq_enabled: bool,
    /// Whether this core's local scheduling timer has been initialized.
    pub timer_ready: bool,
    /// Progress of the per-core scheduler local setup.
    pub setup: SetupPhase,
    /// How many times this core has spun on the boot barrier (saturating).
    pub spin_count: u64,
}

/// The whole machine: the one-shot boot barrier flag and every core.
///
/// The flag is a single global boolean with full sequentially consistent
/// ordering in the kernel; it is written exactly once, by the bootstrap core,
/// and only observed by the others, so the interleaving of per-core setup
/// steps below covers every cross-core schedule.
pub struct Machine {
    /// The boot barrier flag: false until the bootstrap core has completed
    /// its own scheduler timer setup, true forever after.
    pub bsp_init_ok: bool,
    pub cores: Vec<CoreState>,
}

impl Machine {
    /// Core identities are distinct, so exactly one core can carry
    /// identity 0.
    pub open spec fn wf(self) -> bool {
        forall|i: int, j: int|
            0 <= i < self.cores.len() && 0 <= j < self.cores.len() && self.cores[i].id
                == self.cores[j].id ==> i == j
    }

    /// A machine at power-on: barrier unset, and every core with interrupts
    /// off, no timer, setup not started.
    pub fn new(core_ids: &Vec<u32>) -> (m: Machine)
        requires
            forall|i: int, j: int|
                0 <= i < core_ids.len() && 0 <= j < core_ids.len() && core_ids[i] == core_ids[j]
                    ==> i == j,
        ensures
            m.wf(),
            !m.bsp_init_ok,
            m.cores.len() == core_ids.len(),
            forall|i: int|
                0 <= i < core_ids.len() ==> m.cores[i] == (CoreState {
                    id: core_ids[i],
                    irq_enabled: false,
                    timer_ready: false,
                    setup: SetupPhase::NotStarted,
                    spin_count: 0,
                }),
    {
        let mut cores: Vec<CoreState> = Vec::new();
        let mut k: usize = 0;
        while k < core_ids.len()
            invariant
                k <= core_ids.len(),
                cores.len() == k,
                forall|i: int|
                    0 <= i < k ==> cores[i] == (CoreState {
                        id: core_ids[i],
                        irq_enabled: false,
                        timer_ready: false,
                        setup: SetupPhase::NotStarted,
                        spin_count: 0,
                    }),
            decreases core_ids.len() - k,
        {
            cores.push(
                CoreState {
                    id: core_ids[k],
                    irq_enabled: false,
                    timer_ready: false,
                    setup: SetupPhase::NotStarted,
                    spin_count: 0,
                },
            );
            k = k + 1;
        }
        Machine { bsp_init_ok: false, cores }
    }
}

/// Identity of the executing core — in the kernel a privileged register
/// read, here a read of the modeled core.
pub fn smp_get_processor_id(core: &CoreState) -> (id: u32)
    ensures
        id == core.id,
{
    core.id
}

} // verus!
