//! Core of a bare-metal trusted-execution-environment (TEE) harness that
//! negotiates work with an untrusted host over a shared-memory mailbox,
//! executes host-requested memory-access routines against handler-private
//! buffers, and brackets each round with hardware performance-counter
//! sampling.
//!
//! The crate models the machine-facing pieces as plain data so that the
//! protocol and bookkeeping logic can be verified: the shared region is a
//! bounds-checked byte view, the single pre-reserved L1 page table is a
//! 512-entry vector with a bump cursor, and counter programming is emitted
//! as an explicit list of model-specific-register writes for the embedder
//! to perform.

pub mod architectural;
pub mod errors;
pub mod events;
pub mod mem;
pub mod paging;
pub mod pmc;
pub mod shared_mem_com;
pub mod state_machine;
pub mod task;
pub mod task_id;
