use kernel_arch::arch::Arch;
use kernel_arch::arch::BootPhase;

#[test]
fn reset_state_has_interrupts_masked() {
    let arch = Arch::new();
    assert!(!arch.interrupts_enabled());
}

#[test]
fn interrupt_round_trip() {
    let mut arch = Arch::new();
    arch.disable_interrupts();
    assert!(!arch.interrupts_enabled());
    arch.enable_interrupts();
    assert!(arch.interrupts_enabled());
}

#[test]
fn interrupt_mask_reflects_last_call_exactly() {
    let mut arch = Arch::new();
    arch.enable_interrupts();
    arch.enable_interrupts();
    assert!(arch.interrupts_enabled());
    arch.disable_interrupts();
    arch.disable_interrupts();
    assert!(!arch.interrupts_enabled());
}

#[test]
fn bring_up_does_not_touch_interrupt_mask() {
    let mut arch = Arch::new();
    arch.early_init();
    assert!(!arch.interrupts_enabled());
    arch.init();
    assert!(!arch.interrupts_enabled());
}

#[test]
fn boot_phase_values_are_distinct() {
    assert_ne!(BootPhase::Reset, BootPhase::EarlyInit);
    assert_ne!(BootPhase::EarlyInit, BootPhase::Ready);
    assert_ne!(BootPhase::Reset, BootPhase::Ready);
}
