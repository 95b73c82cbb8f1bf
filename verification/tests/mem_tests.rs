use kernel_arch::mem::MemoryConfig;
use kernel_arch::mem::MemoryRegion;
use kernel_arch::mem::MemoryRegionType;

fn user_config() -> MemoryConfig {
    MemoryConfig::new(vec![
        MemoryRegion::new(MemoryRegionType::ReadOnlyExecutable, 0x1000, 0x2000),
        MemoryRegion::new(MemoryRegionType::ReadWriteData, 0x2000, 0x3000),
    ])
}

#[test]
fn empty_range_is_always_accessible() {
    let c = user_config();
    assert!(c.range_has_access(MemoryRegionType::ReadWriteExecutable, 0x9999, 0x9999));
    assert!(c.range_has_access(MemoryRegionType::ReadOnlyData, 0x500, 0x400));
}

#[test]
fn read_allowed_inside_a_region() {
    let c = user_config();
    assert!(c.range_has_access(MemoryRegionType::ReadOnlyData, 0x1000, 0x2000));
    assert!(c.range_has_access(MemoryRegionType::ReadOnlyData, 0x2400, 0x2500));
}

#[test]
fn write_needs_a_writable_region() {
    let c = user_config();
    assert!(c.range_has_access(MemoryRegionType::ReadWriteData, 0x2000, 0x3000));
    assert!(!c.range_has_access(MemoryRegionType::ReadWriteData, 0x1000, 0x1004));
}

#[test]
fn execute_needs_an_executable_region() {
    let c = user_config();
    assert!(c.range_has_access(MemoryRegionType::ReadOnlyExecutable, 0x1800, 0x1900));
    assert!(!c.range_has_access(MemoryRegionType::ReadOnlyExecutable, 0x2800, 0x2900));
}

#[test]
fn range_spanning_two_adjacent_regions_is_readable() {
    let c = user_config();
    assert!(c.range_has_access(MemoryRegionType::ReadOnlyData, 0x1f00, 0x2100));
}

#[test]
fn range_reaching_past_the_regions_is_denied() {
    let c = user_config();
    assert!(!c.range_has_access(MemoryRegionType::ReadOnlyData, 0x2f00, 0x3100));
    assert!(!c.range_has_access(MemoryRegionType::ReadOnlyData, 0x0ff0, 0x1010));
}

#[test]
fn range_over_a_gap_is_denied() {
    let c = MemoryConfig::new(vec![
        MemoryRegion::new(MemoryRegionType::ReadWriteData, 0x100, 0x200),
        MemoryRegion::new(MemoryRegionType::ReadWriteData, 0x300, 0x400),
    ]);
    assert!(!c.range_has_access(MemoryRegionType::ReadOnlyData, 0x180, 0x380));
    assert!(c.range_has_access(MemoryRegionType::ReadOnlyData, 0x180, 0x200));
    assert!(c.range_has_access(MemoryRegionType::ReadOnlyData, 0x300, 0x380));
}

#[test]
fn end_is_exclusive() {
    let c = user_config();
    // The byte at 0x3000 itself lies outside every region.
    assert!(c.range_has_access(MemoryRegionType::ReadOnlyData, 0x2fff, 0x3000));
    assert!(!c.range_has_access(MemoryRegionType::ReadOnlyData, 0x3000, 0x3001));
}

#[test]
fn overlapping_regions_combine() {
    let c = MemoryConfig::new(vec![
        MemoryRegion::new(MemoryRegionType::ReadWriteData, 0x100, 0x300),
        MemoryRegion::new(MemoryRegionType::ReadWriteData, 0x250, 0x500),
    ]);
    assert!(c.range_has_access(MemoryRegionType::ReadWriteData, 0x100, 0x500));
}

#[test]
fn repeated_checks_are_deterministic() {
    let c = user_config();
    let first = c.range_has_access(MemoryRegionType::ReadOnlyData, 0x1000, 0x2800);
    for _ in 0..8 {
        assert_eq!(
            c.range_has_access(MemoryRegionType::ReadOnlyData, 0x1000, 0x2800),
            first
        );
    }
    let denied = c.range_has_access(MemoryRegionType::ReadWriteExecutable, 0x1000, 0x1100);
    for _ in 0..8 {
        assert_eq!(
            c.range_has_access(MemoryRegionType::ReadWriteExecutable, 0x1000, 0x1100),
            denied
        );
    }
}

#[test]
fn superset_domain_grants_whatever_subset_grants() {
    // The kernel's configuration covers every region a user domain has, so
    // any check that passes for the user domain passes for the kernel.
    let user = user_config();
    let kernel = MemoryConfig::kernel_thread_memory_config();
    let cases = [
        (MemoryRegionType::ReadOnlyData, 0x1000, 0x2000),
        (MemoryRegionType::ReadWriteData, 0x2000, 0x3000),
        (MemoryRegionType::ReadOnlyExecutable, 0x1800, 0x1900),
        (MemoryRegionType::ReadOnlyData, 0x1f00, 0x2100),
    ];
    for (access, start, end) in cases {
        if user.range_has_access(access, start, end) {
            assert!(kernel.range_has_access(access, start, end));
        }
    }
}

#[test]
fn kernel_config_grants_everything() {
    let kernel = MemoryConfig::kernel_thread_memory_config();
    assert!(kernel.range_has_access(MemoryRegionType::ReadWriteExecutable, 0, 0x10_0000));
    assert!(kernel.range_has_access(MemoryRegionType::Device, 0xffff_0000, 0xffff_1000));
}

#[test]
fn address_has_access_matches_single_byte_range() {
    let c = user_config();
    assert!(c.address_has_access(MemoryRegionType::ReadOnlyData, 0x1000));
    assert!(!c.address_has_access(MemoryRegionType::ReadOnlyData, 0x3000));
    assert_eq!(
        c.address_has_access(MemoryRegionType::ReadWriteData, 0x2123),
        c.range_has_access(MemoryRegionType::ReadWriteData, 0x2123, 0x2124)
    );
}
