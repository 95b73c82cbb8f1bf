//! The scheduler's shared state.
//!
//! `SchedulerState` is the one piece of data every scheduling decision reads
//! and writes. It is only ever reached through the guard of the scheduler
//! lock (see `spinlock`), and it exists only once bring-up is complete: its
//! constructor demands a fully initialized architecture, which is how the
//! boot ordering — `early_init`, then `init`, then the first context switch —
//! is enforced.

use vstd::prelude::*;

use crate::arch::Arch;

verus! {

/// Global scheduler state, protected exclusively by the scheduler lock.
pub struct SchedulerState {
    boot_complete: bool,
    current_thread: u64,
    switch_count: u64,
}

impl SchedulerState {
    /// Whether architecture bring-up had completed when this state was
    /// created. Always true of a constructed value; `context_switch` demands
    /// it of the guard handed in.
    pub closed spec fn spec_boot_complete(self) -> bool {
        self.boot_complete
    }

    /// Identifier of the thread the scheduler considers running.
    pub closed spec fn spec_current_thread(self) -> u64 {
        self.current_thread
    }

    /// How many context switches the scheduler has recorded.
    pub closed spec fn spec_switch_count(self) -> u64 {
        self.switch_count
    }

    /// Creates the scheduler state at scheduler start. Demanding a fully
    /// initialized architecture here is what orders bring-up before any
    /// scheduling: no scheduler state — hence no lock guard, hence no
    /// context switch — exists before `early_init` and `init` have run.
    pub fn new(arch: &Arch) -> (r: SchedulerState)
        requires
            arch.spec_is_ready(),
        ensures
            r.spec_boot_complete(),
            r.spec_current_thread() == 0,
            r.spec_switch_count() == 0,
    {
        SchedulerState { boot_complete: true, current_thread: 0, switch_count: 0 }
    }

    pub fn current_thread(&self) -> (r: u64)
        ensures
            r == self.spec_current_thread(),
    {
        self.current_thread
    }

    pub fn switch_count(&self) -> (r: u64)
        ensures
            r == self.spec_switch_count(),
    {
        self.switch_count
    }

    /// Records which thread runs now. Must only be reached through the
    /// scheduler lock's guard.
    pub fn set_current_thread(&mut self, thread: u64)
        ensures
            final(self).spec_current_thread() == thread,
            final(self).spec_boot_complete() == old(self).spec_boot_complete(),
            final(self).spec_switch_count() == old(self).spec_switch_count(),
    {
        self.current_thread = thread;
    }

    /// Counts one context switch; the count saturates rather than wrapping.
    pub fn record_switch(&mut self)
        ensures
            final(self).spec_switch_count() == if old(self).spec_switch_count() < u64::MAX {
                old(self).spec_switch_count() + 1
            } else {
                u64::MAX as int
            },
            final(self).spec_boot_complete() == old(self).spec_boot_complete(),
            final(self).spec_current_thread() == old(self).spec_current_thread(),
    {
        if self.switch_count < u64::MAX {
            self.switch_count = self.switch_count + 1;
        }
    }
}

} // verus!
