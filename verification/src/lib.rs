//! Early-boot orchestration and per-CPU bring-up for a multi-core kernel,
//! verified as an explicit state machine.
//!
//! The crate models the sequence that takes a bootstrap processor from
//! "interrupts off, nothing initialized" to a fully scheduled machine with an
//! idle loop on every core: the ordered boot sequence and its fail-fast
//! contract, the one-time initialization guard, the BSP/AP boot barrier, the
//! per-core scheduler local setup, the interrupt-scope guard discipline and
//! the per-core idle loop.
//!
//! Subsystem initializers, the platform timer, the scheduler switch, the halt
//! and spin primitives and the error log are external collaborators: each
//! invocation of one is recorded as an [`trace::Event`], and the outcome of
//! every fallible initializer is an input ([`env::BootEnv`]). Every decision
//! the bring-up code takes is therefore verified for every possible behavior
//! of the collaborators.

pub mod driver;
pub mod env;
pub mod error;
pub mod exception;
pub mod idle;
pub mod init;
pub mod irq;
pub mod mm;
pub mod sched;
pub mod smp;
pub mod trace;
