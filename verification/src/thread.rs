//! Per-thread saved processor context and the context switch.
//!
//! A `ThreadState` holds everything needed to resume one thread: its saved
//! frame (entry point, arguments, stack, active memory domain) and whether it
//! is not yet runnable, suspended, or running. `context_switch` is the one
//! operation that suspends the calling context and resumes another; the
//! scheduler lock's guard is passed by value through it, so exclusive access
//! to scheduler state survives the stack swap.

use vstd::prelude::*;

use crate::mem::MemoryConfig;
use crate::mem::MemoryRegionType;
use crate::spinlock::SpinLockGuard;

verus! {

/// Descriptor of a memory range `[start, end)` usable as a call stack. Owned
/// by the kernel's allocator; a thread's frame only refers to it.
#[derive(Clone, Copy, PartialEq, Eq, Structural, Debug)]
pub struct Stack {
    start: usize,
    end: usize,
}

impl Stack {
    pub closed spec fn spec_start(self) -> usize {
        self.start
    }

    pub closed spec fn spec_end(self) -> usize {
        self.end
    }

    pub fn new(start: usize, end: usize) -> (r: Stack)
        requires
            start <= end,
        ensures
            r.spec_start() == start,
            r.spec_end() == end,
    {
        Stack { start, end }
    }

    pub fn start(&self) -> (r: usize)
        ensures
            r == self.spec_start(),
    {
        self.start
    }

    pub fn end(&self) -> (r: usize)
        ensures
            r == self.spec_end(),
    {
        self.end
    }
}

/// Where a thread stands in its lifecycle: never made runnable, suspended
/// (runnable, with a saved or initial frame), or running on a core right now.
#[derive(Clone, Copy, PartialEq, Eq, Structural, Debug)]
pub enum RunState {
    NotRunnable,
    Suspended,
    Running,
}

/// The saved context a thread resumes from. `Unset` means none has been
/// prepared yet (a fresh thread, or the boot context, whose live state needs
/// no descriptor). A kernel frame resumes at `entry(arg0, arg1)` on `stack`
/// in the trusted domain; a user frame enters a restricted domain at
/// `entry_point` with its own stack pointer.
pub enum Frame {
    Unset,
    Kernel { stack: Stack, memory_config: MemoryConfig, entry: usize, arg0: usize, arg1: usize },
    User {
        kernel_stack: Stack,
        memory_config: MemoryConfig,
        initial_sp: usize,
        entry_point: usize,
        arg: usize,
    },
}

/// Why a user frame could not be established.
#[derive(Clone, Copy, PartialEq, Eq, Structural, Debug)]
pub enum FrameError {
    /// The requested domain does not permit the isolation boundary asked
    /// for: the entry point is not executable there, or the initial stack
    /// pointer is not writable there.
    AccessDenied,
}

/// A user frame can be established exactly when the target domain lets the
/// thread execute at its entry point and write at its initial stack pointer.
pub open spec fn spec_user_frame_valid(
    memory_config: MemoryConfig,
    initial_sp: usize,
    entry_point: usize,
) -> bool {
    &&& memory_config.spec_grants(MemoryRegionType::ReadOnlyExecutable, entry_point as int)
    &&& memory_config.spec_grants(MemoryRegionType::ReadWriteData, initial_sp as int)
}

/// What one context switch does to the two thread states involved: the
/// outgoing thread is suspended with its context saved unchanged, and the
/// incoming thread runs, resuming from exactly the context it was suspended
/// with (or its initialized frame, if it has never run).
pub open spec fn spec_switch(
    from_pre: ThreadState,
    from_post: ThreadState,
    to_pre: ThreadState,
    to_post: ThreadState,
) -> bool {
    &&& from_post.spec_run_state() == RunState::Suspended
    &&& from_post.spec_frame() == from_pre.spec_frame()
    &&& to_post.spec_run_state() == RunState::Running
    &&& to_post.spec_frame() == to_pre.spec_frame()
}

/// One thread's saved processor context. Exactly one logical owner — the
/// thread control block — at a time; never copied.
pub struct ThreadState {
    run_state: RunState,
    frame: Frame,
}

impl ThreadState {
    pub closed spec fn spec_run_state(self) -> RunState {
        self.run_state
    }

    pub closed spec fn spec_frame(self) -> Frame {
        self.frame
    }

    /// A fresh context: not yet runnable, no frame prepared. Infallible.
    pub fn new() -> (t: ThreadState)
        ensures
            t.spec_run_state() == RunState::NotRunnable,
            t.spec_frame() == Frame::Unset,
    {
        ThreadState { run_state: RunState::NotRunnable, frame: Frame::Unset }
    }

    /// The boot context adopted as the first running thread: the code
    /// executing since reset becomes a thread so that the first switch away
    /// from it has a context to save into.
    pub fn bootstrap() -> (t: ThreadState)
        ensures
            t.spec_run_state() == RunState::Running,
            t.spec_frame() == Frame::Unset,
    {
        ThreadState { run_state: RunState::Running, frame: Frame::Unset }
    }

    pub fn run_state(&self) -> (r: RunState)
        ensures
            r == self.spec_run_state(),
    {
        self.run_state
    }

    pub fn frame(&self) -> (r: &Frame)
        ensures
            *r == self.spec_frame(),
    {
        &self.frame
    }

    /// Prepares this context so that the next time it is resumed via
    /// `context_switch`, execution begins at `initial_function(args.0,
    /// args.1)` on `kernel_stack` in the trusted domain `memory_config`. The
    /// entry is a code address; this call itself switches nothing.
    pub fn initialize_kernel_frame(
        &mut self,
        kernel_stack: Stack,
        memory_config: MemoryConfig,
        initial_function: usize,
        args: (usize, usize),
    )
        requires
            old(self).spec_run_state() == RunState::NotRunnable,
        ensures
            final(self).spec_run_state() == RunState::Suspended,
            final(self).spec_frame() == (Frame::Kernel {
                stack: kernel_stack,
                memory_config,
                entry: initial_function,
                arg0: args.0,
                arg1: args.1,
            }),
    {
        self.frame = Frame::Kernel {
            stack: kernel_stack,
            memory_config,
            entry: initial_function,
            arg0: args.0,
            arg1: args.1,
        };
        self.run_state = RunState::Suspended;
    }

    /// Prepares this context to begin execution at `entry_point`, with stack
    /// pointer `initial_sp`, in the restricted domain `memory_config`.
    /// Refused — the thread stays exactly as it was — when that domain does
    /// not permit the requested boundary: the entry point must be executable
    /// and the initial stack pointer writable there.
    pub fn initialize_user_frame(
        &mut self,
        kernel_stack: Stack,
        memory_config: MemoryConfig,
        initial_sp: usize,
        entry_point: usize,
        arg: usize,
    ) -> (r: Result<(), FrameError>)
        requires
            old(self).spec_run_state() == RunState::NotRunnable,
        ensures
            r is Ok <==> spec_user_frame_valid(memory_config, initial_sp, entry_point),
            r is Ok ==> final(self).spec_run_state() == RunState::Suspended
                && final(self).spec_frame() == (Frame::User {
                kernel_stack,
                memory_config,
                initial_sp,
                entry_point,
                arg,
            }),
            r is Err ==> *final(self) == *old(self) && r == Err::<(), FrameError>(
                FrameError::AccessDenied,
            ),
    {
        let executable = memory_config.address_has_access(
            MemoryRegionType::ReadOnlyExecutable,
            entry_point,
        );
        let writable = memory_config.address_has_access(MemoryRegionType::ReadWriteData, initial_sp);
        if !(executable && writable) {
            return Err(FrameError::AccessDenied);
        }
        self.frame = Frame::User { kernel_stack, memory_config, initial_sp, entry_point, arg };
        self.run_state = RunState::Suspended;
        Ok(())
    }

    /// The context switch: saves the running processor state into
    /// `old_thread_state`, restores it from `new_thread_state`, and resumes
    /// the incoming thread where it was suspended — or at its initialized
    /// entry, if it has never run. Callable only while holding the scheduler
    /// lock: the guard is consumed here and an equivalent guard is returned,
    /// on the incoming thread's stack, so exclusivity over scheduler state is
    /// never dropped while no context is fully valid. The guard's state
    /// records that bring-up completed, so no switch precedes `init`. The
    /// backend keeps interrupts masked between saving the outgoing state and
    /// restoring the incoming one, so no nested scheduling decision can
    /// observe a half-switched state; no allocation happens here.
    pub fn context_switch(
        sched_guard: SpinLockGuard,
        old_thread_state: &mut ThreadState,
        new_thread_state: &mut ThreadState,
    ) -> (r: SpinLockGuard)
        requires
            sched_guard.spec_sched().spec_boot_complete(),
            old(old_thread_state).spec_run_state() == RunState::Running,
            old(new_thread_state).spec_run_state() == RunState::Suspended,
        ensures
            spec_switch(
                *old(old_thread_state),
                *final(old_thread_state),
                *old(new_thread_state),
                *final(new_thread_state),
            ),
            r.spec_sched() == sched_guard.spec_sched(),
    {
        old_thread_state.run_state = RunState::Suspended;
        new_thread_state.run_state = RunState::Running;
        sched_guard
    }
}

/// Switch round-trip: switching from thread `x` to thread `y` and later back
/// resumes `x` exactly as it was before the first switch — running, its saved
/// context unchanged — and leaves `y`'s saved context unchanged too.
pub proof fn lemma_switch_round_trip(
    x0: ThreadState,
    x1: ThreadState,
    x2: ThreadState,
    y0: ThreadState,
    y1: ThreadState,
    y2: ThreadState,
)
    requires
        x0.spec_run_state() == RunState::Running,
        spec_switch(x0, x1, y0, y1),
        spec_switch(y1, y2, x1, x2),
    ensures
        x2.spec_run_state() == x0.spec_run_state(),
        x2.spec_frame() == x0.spec_frame(),
        y2.spec_run_state() == RunState::Suspended,
        y2.spec_frame() == y0.spec_frame(),
{
}

} // verus!
