//! Mutual exclusion over the scheduler state.
//!
//! `BareSpinLock` is the raw, non-reentrant primitive; `SpinLock` builds the
//! scheduler's lock on top of it by pairing the primitive with ownership of
//! the guarded `SchedulerState`. A `SpinLockGuard` is the proof of exclusive
//! access: the lock hands the state out inside the guard and takes it back on
//! unlock, so the state is reachable through at most one guard at any time —
//! `try_lock` while a guard is outstanding yields nothing.

use vstd::prelude::*;

use crate::sched::SchedulerState;

verus! {

/// The raw mutual-exclusion primitive the scheduler lock is built on.
/// Non-reentrant: acquiring it twice from the same context would never
/// return, so `acquire` demands it free.
pub struct BareSpinLock {
    held: bool,
}

impl BareSpinLock {
    pub closed spec fn spec_held(self) -> bool {
        self.held
    }

    pub fn new() -> (r: BareSpinLock)
        ensures
            !r.spec_held(),
    {
        BareSpinLock { held: false }
    }

    /// Attempts to take the lock without blocking; fails exactly when the
    /// lock is already held.
    pub fn try_acquire(&mut self) -> (r: bool)
        ensures
            r == !old(self).spec_held(),
            final(self).spec_held(),
    {
        if self.held {
            false
        } else {
            self.held = true;
            true
        }
    }

    pub fn acquire(&mut self)
        requires
            !old(self).spec_held(),
        ensures
            final(self).spec_held(),
    {
        self.held = true;
    }

    pub fn release(&mut self)
        requires
            old(self).spec_held(),
        ensures
            !final(self).spec_held(),
    {
        self.held = false;
    }
}

/// Proof of exclusive access to the scheduler state: while a guard exists,
/// the state it carries is reachable through it alone. The guard is passed by
/// value into `context_switch` and returned by value from it, so exclusivity
/// spans the whole switch, stack swap included.
pub struct SpinLockGuard {
    state: SchedulerState,
}

impl SpinLockGuard {
    /// The guarded scheduler state as seen through this guard.
    pub closed spec fn spec_sched(self) -> SchedulerState {
        self.state
    }

    pub fn sched(&self) -> (r: &SchedulerState)
        ensures
            *r == self.spec_sched(),
    {
        &self.state
    }

    /// Exclusive access for mutation; only a guard holder can reach this.
    pub fn sched_mut(&mut self) -> (r: &mut SchedulerState)
        ensures
            *r == old(self).spec_sched(),
            final(self).spec_sched() == *final(r),
    {
        &mut self.state
    }
}

/// The scheduler's lock: the bare primitive plus ownership of the guarded
/// state. While unlocked it holds the state itself; while locked the state
/// lives in the single outstanding guard.
pub struct SpinLock {
    lock: BareSpinLock,
    state: Option<SchedulerState>,
}

/// What `try_lock` does: on a held lock it changes nothing and yields no
/// guard; on a free lock it moves the state into a fresh guard.
pub open spec fn try_lock_transition(
    pre: SpinLock,
    post: SpinLock,
    r: Option<SpinLockGuard>,
) -> bool {
    &&& post.wf()
    &&& if pre.spec_held() {
        r is None && post == pre
    } else {
        &&& post.spec_held()
        &&& r matches Some(g) && g.spec_sched() == pre.spec_state()->Some_0
    }
}

impl SpinLock {
    pub closed spec fn spec_held(self) -> bool {
        self.lock.spec_held()
    }

    /// The state the lock itself holds: the guarded value while free, nothing
    /// while a guard is outstanding.
    pub closed spec fn spec_state(self) -> Option<SchedulerState> {
        self.state
    }

    /// The lock holds the state exactly while no guard is outstanding.
    pub open spec fn wf(self) -> bool {
        self.spec_held() <==> self.spec_state() is None
    }

    pub fn new(state: SchedulerState) -> (r: SpinLock)
        ensures
            r.wf(),
            !r.spec_held(),
            r.spec_state() == Some(state),
    {
        SpinLock { lock: BareSpinLock::new(), state: Some(state) }
    }

    /// Attempts to take the lock without blocking.
    pub fn try_lock(&mut self) -> (r: Option<SpinLockGuard>)
        requires
            old(self).wf(),
        ensures
            try_lock_transition(*old(self), *final(self), r),
    {
        if self.lock.try_acquire() {
            let mut taken: Option<SchedulerState> = None;
            core::mem::swap(&mut taken, &mut self.state);
            match taken {
                Some(state) => Some(SpinLockGuard { state }),
                None => vstd::pervasive::unreached(),
            }
        } else {
            None
        }
    }

    /// Takes the lock. The primitive spins until the lock is free; on one
    /// core that would never return, so a free lock is demanded here.
    pub fn lock(&mut self) -> (r: SpinLockGuard)
        requires
            old(self).wf(),
            !old(self).spec_held(),
        ensures
            final(self).wf(),
            final(self).spec_held(),
            r.spec_sched() == old(self).spec_state()->Some_0,
    {
        self.lock.acquire();
        let mut taken: Option<SchedulerState> = None;
        core::mem::swap(&mut taken, &mut self.state);
        match taken {
            Some(state) => SpinLockGuard { state },
            None => vstd::pervasive::unreached(),
        }
    }

    /// Releases the lock, returning the state the guard carried.
    pub fn unlock(&mut self, guard: SpinLockGuard)
        requires
            old(self).wf(),
            old(self).spec_held(),
        ensures
            final(self).wf(),
            !final(self).spec_held(),
            final(self).spec_state() == Some(guard.spec_sched()),
    {
        self.lock.release();
        self.state = Some(guard.state);
    }
}

/// Mutual exclusion: while one guard is outstanding (the lock is held), no
/// second guard can be produced — an attempt to take the lock again yields
/// nothing and leaves the lock untouched. Exclusive access to the scheduler
/// state therefore belongs to at most one holder at a time.
pub proof fn lemma_mutual_exclusion(pre: SpinLock, post: SpinLock, r: Option<SpinLockGuard>)
    requires
        pre.spec_held(),
        try_lock_transition(pre, post, r),
    ensures
        r is None,
        post == pre,
{
}

} // verus!
