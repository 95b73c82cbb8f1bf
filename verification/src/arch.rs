//! Architecture bring-up and global interrupt mask control.
//!
//! `Arch` binds the backend's capabilities together and models the
//! processor-global state this layer controls: how far two-phase bring-up has
//! come, and whether interrupts are enabled on the calling core. The host
//! backend keeps that state as plain fields; real silicon keeps it in
//! privileged registers.

use vstd::prelude::*;

verus! {

/// How far bring-up has come. `early_init` moves the processor from reset to
/// `EarlyInit`; `init` completes bring-up and yields `Ready`. Only a `Ready`
/// architecture may start the scheduler.
#[derive(Clone, Copy, PartialEq, Eq, Structural, Debug)]
pub enum BootPhase {
    Reset,
    EarlyInit,
    Ready,
}

/// The architecture backend: boot phase and the core's interrupt mask.
pub struct Arch {
    phase: BootPhase,
    interrupts_on: bool,
}

impl Arch {
    pub closed spec fn spec_phase(self) -> BootPhase {
        self.phase
    }

    pub closed spec fn spec_interrupts_on(self) -> bool {
        self.interrupts_on
    }

    /// Bring-up is complete: both `early_init` and `init` have run.
    pub open spec fn spec_is_ready(self) -> bool {
        self.spec_phase() == BootPhase::Ready
    }

    /// What `early_init` does: it runs only from reset and moves the
    /// processor to `EarlyInit`, leaving the interrupt mask alone.
    pub open spec fn spec_early_init(pre: Arch, post: Arch) -> bool {
        &&& pre.spec_phase() == BootPhase::Reset
        &&& post.spec_phase() == BootPhase::EarlyInit
        &&& post.spec_interrupts_on() == pre.spec_interrupts_on()
    }

    /// What `init` does: it runs only after `early_init` and completes
    /// bring-up, leaving the interrupt mask alone.
    pub open spec fn spec_init(pre: Arch, post: Arch) -> bool {
        &&& pre.spec_phase() == BootPhase::EarlyInit
        &&& post.spec_phase() == BootPhase::Ready
        &&& post.spec_interrupts_on() == pre.spec_interrupts_on()
    }

    /// What `disable_interrupts` does.
    pub open spec fn spec_disable_interrupts(pre: Arch, post: Arch) -> bool {
        &&& !post.spec_interrupts_on()
        &&& post.spec_phase() == pre.spec_phase()
    }

    /// What `enable_interrupts` does.
    pub open spec fn spec_enable_interrupts(pre: Arch, post: Arch) -> bool {
        &&& post.spec_interrupts_on()
        &&& post.spec_phase() == pre.spec_phase()
    }

    /// The processor as it comes out of reset: bring-up not yet started,
    /// interrupts masked.
    pub fn new() -> (r: Arch)
        ensures
            r.spec_phase() == BootPhase::Reset,
            !r.spec_interrupts_on(),
    {
        Arch { phase: BootPhase::Reset, interrupts_on: false }
    }

    /// First bring-up phase: runs before any heap, logging or scheduler
    /// subsystem is available, and must not allocate. It brings up only the
    /// minimum needed for diagnostic output.
    pub fn early_init(&mut self)
        requires
            old(self).spec_phase() == BootPhase::Reset,
        ensures
            Arch::spec_early_init(*old(self), *final(self)),
    {
        self.phase = BootPhase::EarlyInit;
    }

    /// Second bring-up phase: full bring-up of the interrupt controller,
    /// memory protection and timers. Runs after `early_init`, before the
    /// scheduler starts any thread.
    pub fn init(&mut self)
        requires
            old(self).spec_phase() == BootPhase::EarlyInit,
        ensures
            Arch::spec_init(*old(self), *final(self)),
    {
        self.phase = BootPhase::Ready;
    }

    /// Unmasks interrupts on the calling core.
    pub fn enable_interrupts(&mut self)
        ensures
            Arch::spec_enable_interrupts(*old(self), *final(self)),
    {
        self.interrupts_on = true;
    }

    /// Masks interrupts on the calling core, opening a critical section
    /// against interrupt-context reentrancy.
    pub fn disable_interrupts(&mut self)
        ensures
            Arch::spec_disable_interrupts(*old(self), *final(self)),
    {
        self.interrupts_on = false;
    }

    /// The current interrupt mask state, exactly as the last enable or
    /// disable call left it.
    pub fn interrupts_enabled(&self) -> (r: bool)
        ensures
            r == self.spec_interrupts_on(),
    {
        self.interrupts_on
    }
}

/// Interrupt round-trip: after `disable_interrupts` the mask reads disabled,
/// and after the following `enable_interrupts` it reads enabled again —
/// `interrupts_enabled` reflects exactly the effect of the two calls.
pub proof fn lemma_interrupt_round_trip(a0: Arch, a1: Arch, a2: Arch)
    requires
        Arch::spec_disable_interrupts(a0, a1),
        Arch::spec_enable_interrupts(a1, a2),
    ensures
        !a1.spec_interrupts_on(),
        a2.spec_interrupts_on(),
{
}

/// Boot ordering: `init` runs only from the phase that `early_init` alone
/// establishes, so any pair of transitions satisfying the two contracts is
/// ordered reset, then `EarlyInit`, then `Ready`. Only a `Ready` architecture
/// satisfies `spec_is_ready`, which creating the scheduler's state demands,
/// and whose lock guard every `context_switch` in turn demands: both
/// bring-up phases complete before the first switch.
pub proof fn lemma_boot_ordering(a0: Arch, a1: Arch, a2: Arch)
    requires
        Arch::spec_early_init(a0, a1),
        Arch::spec_init(a1, a2),
    ensures
        a0.spec_phase() == BootPhase::Reset,
        a1.spec_phase() == BootPhase::EarlyInit,
        a2.spec_is_ready(),
{
}

} // verus!
