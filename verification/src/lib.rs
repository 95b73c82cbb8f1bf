//! Architecture abstraction layer of a small preemptive kernel, host backend.
//!
//! The portable scheduler core is isolated from processor-specific mechanics
//! by four capabilities, bound together by [`arch::Arch`]:
//!
//! - [`clock::Clock`] — the monotonic hardware time source;
//! - [`mem::MemoryConfig`] — per-execution-domain memory access checks;
//! - [`spinlock::SpinLock`] — the mutual-exclusion primitive guarding the
//!   scheduler's shared state, [`sched::SchedulerState`];
//! - [`thread::ThreadState`] — a thread's saved processor context and the
//!   context-switch operation.

pub mod arch;
pub mod clock;
pub mod mem;
pub mod sched;
pub mod spinlock;
pub mod thread;
