//! Per-execution-domain memory access descriptors and the access check.
//!
//! A `MemoryConfig` is an immutable description of which address ranges one
//! execution domain (the kernel, or one user process) may touch, and with
//! which permissions. `range_has_access` is the pure, total query a fault
//! handler consults: may every byte of `[start, end)` be accessed this way?

use vstd::prelude::*;

verus! {

/// The kind of a memory region, which doubles as the kind of an access
/// request: each variant stands for a set of permissions (read, write,
/// execute). `Device` memory is readable and writable, never executable.
#[derive(Clone, Copy, PartialEq, Eq, Structural, Debug)]
pub enum MemoryRegionType {
    ReadOnlyData,
    ReadWriteData,
    ReadOnlyExecutable,
    ReadWriteExecutable,
    Device,
}

impl MemoryRegionType {
    /// Every region kind permits reads.
    pub open spec fn spec_readable(self) -> bool {
        true
    }

    pub open spec fn spec_writable(self) -> bool {
        match self {
            MemoryRegionType::ReadWriteData => true,
            MemoryRegionType::ReadWriteExecutable => true,
            MemoryRegionType::Device => true,
            _ => false,
        }
    }

    pub open spec fn spec_executable(self) -> bool {
        match self {
            MemoryRegionType::ReadOnlyExecutable => true,
            MemoryRegionType::ReadWriteExecutable => true,
            _ => false,
        }
    }

    /// A region of this kind satisfies an access of kind `access` when it
    /// grants every permission the access kind asks for.
    pub open spec fn spec_allows(self, access: MemoryRegionType) -> bool {
        &&& (access.spec_readable() ==> self.spec_readable())
        &&& (access.spec_writable() ==> self.spec_writable())
        &&& (access.spec_executable() ==> self.spec_executable())
    }

    pub fn writable(self) -> (r: bool)
        ensures
            r == self.spec_writable(),
    {
        matches!(
            self,
            MemoryRegionType::ReadWriteData
                | MemoryRegionType::ReadWriteExecutable
                | MemoryRegionType::Device
        )
    }

    pub fn executable(self) -> (r: bool)
        ensures
            r == self.spec_executable(),
    {
        matches!(
            self,
            MemoryRegionType::ReadOnlyExecutable | MemoryRegionType::ReadWriteExecutable
        )
    }

    pub fn allows(self, access: MemoryRegionType) -> (r: bool)
        ensures
            r == self.spec_allows(access),
    {
        (!access.writable() || self.writable()) && (!access.executable() || self.executable())
    }
}

/// One contiguous region `[start, end)` a domain is granted, with its kind.
#[derive(Clone, Copy, PartialEq, Eq, Structural, Debug)]
pub struct MemoryRegion {
    pub ty: MemoryRegionType,
    pub start: usize,
    pub end: usize,
}

impl MemoryRegion {
    pub open spec fn wf(self) -> bool {
        self.start <= self.end
    }

    pub open spec fn spec_contains(self, addr: int) -> bool {
        self.start <= addr < self.end
    }

    pub fn new(ty: MemoryRegionType, start: usize, end: usize) -> (r: MemoryRegion)
        requires
            start <= end,
        ensures
            r == (MemoryRegion { ty, start, end }),
            r.wf(),
    {
        MemoryRegion { ty, start, end }
    }
}

/// Immutable description of the address ranges one execution domain may
/// access. Constructed once per domain, queried repeatedly, never mutated.
pub struct MemoryConfig {
    regions: Vec<MemoryRegion>,
}

impl MemoryConfig {
    /// The granted regions, in construction order. Overlaps are permitted:
    /// an address is granted when any region of a suitable kind covers it.
    pub closed spec fn spec_regions(self) -> Seq<MemoryRegion> {
        self.regions@
    }

    pub open spec fn wf(self) -> bool {
        forall|i: int| 0 <= i < self.spec_regions().len() ==> self.spec_regions()[i].wf()
    }

    /// Whether this domain may access the single address `addr` as `access`.
    pub open spec fn spec_grants(self, access: MemoryRegionType, addr: int) -> bool {
        exists|i: int|
            0 <= i < self.spec_regions().len() && self.spec_regions()[i].ty.spec_allows(access)
                && self.spec_regions()[i].spec_contains(addr)
    }

    /// Whether this domain may access every byte of `[start, end)` as
    /// `access`. An empty range is always accessible.
    pub open spec fn spec_range_has_access(
        self,
        access: MemoryRegionType,
        start: int,
        end: int,
    ) -> bool {
        forall|addr: int| start <= addr < end ==> self.spec_grants(access, addr)
    }

    pub fn new(regions: Vec<MemoryRegion>) -> (r: MemoryConfig)
        requires
            forall|i: int| 0 <= i < regions@.len() ==> regions@[i].wf(),
        ensures
            r.spec_regions() == regions@,
            r.wf(),
    {
        MemoryConfig { regions }
    }

    /// The kernel's own (trusted) memory configuration: one region granting
    /// read, write and execute over the whole address space.
    pub fn kernel_thread_memory_config() -> (r: MemoryConfig)
        ensures
            r.wf(),
            forall|access: MemoryRegionType, addr: int|
                0 <= addr < usize::MAX ==> r.spec_grants(access, addr),
    {
        let all = MemoryRegion {
            ty: MemoryRegionType::ReadWriteExecutable,
            start: 0,
            end: usize::MAX,
        };
        let config = MemoryConfig { regions: vec![all] };
        proof {
            assert forall|access: MemoryRegionType, addr: int|
                0 <= addr < usize::MAX implies config.spec_grants(access, addr) by {
                assert(config.spec_regions()[0].ty.spec_allows(access));
                assert(config.spec_regions()[0].spec_contains(addr));
            }
        }
        config
    }

    /// Whether the single address `addr` is accessible as `access_type`.
    pub fn address_has_access(&self, access_type: MemoryRegionType, addr: usize) -> (r: bool)
        ensures
            r == self.spec_grants(access_type, addr as int),
    {
        let mut i: usize = 0;
        while i < self.regions.len()
            invariant
                i <= self.regions.len(),
                forall|j: int|
                    0 <= j < i ==> !(#[trigger] self.spec_regions()[j].ty.spec_allows(access_type)
                        && self.spec_regions()[j].spec_contains(addr as int)),
            decreases self.regions.len() - i,
        {
            let rg = self.regions[i];
            if rg.ty.allows(access_type) && rg.start <= addr && addr < rg.end {
                return true;
            }
            i += 1;
        }
        false
    }

    /// Whether every byte of `[start_addr, end_addr)` is accessible as
    /// `access_type` under this domain. Pure and deterministic: the result is
    /// a function of the configuration and the arguments alone, with no side
    /// effect and no allocation, so it is safe to call from a fault handler.
    pub fn range_has_access(
        &self,
        access_type: MemoryRegionType,
        start_addr: usize,
        end_addr: usize,
    ) -> (r: bool)
        ensures
            r == self.spec_range_has_access(access_type, start_addr as int, end_addr as int),
    {
        let mut cur: usize = start_addr;
        while cur < end_addr
            invariant
                start_addr <= cur,
                forall|addr: int|
                    start_addr <= addr < cur && addr < end_addr ==> self.spec_grants(
                        access_type,
                        addr,
                    ),
            decreases end_addr - cur,
        {
            // Find, among the regions of a suitable kind that cover `cur`,
            // the one reaching farthest; the range up to there is granted.
            let mut best_end: usize = cur;
            let mut found = false;
            let mut i: usize = 0;
            while i < self.regions.len()
                invariant
                    i <= self.regions.len(),
                    cur <= best_end,
                    found ==> cur < best_end,
                    found ==> forall|addr: int|
                        cur <= addr < best_end ==> self.spec_grants(access_type, addr),
                    !found ==> best_end == cur,
                    !found ==> forall|j: int|
                        0 <= j < i ==> !(#[trigger] self.spec_regions()[j].ty.spec_allows(
                            access_type,
                        ) && self.spec_regions()[j].spec_contains(cur as int)),
                decreases self.regions.len() - i,
            {
                let rg = self.regions[i];
                if rg.ty.allows(access_type) && rg.start <= cur && cur < rg.end {
                    if rg.end > best_end {
                        best_end = rg.end;
                        proof {
                            assert forall|addr: int|
                                cur <= addr < best_end implies self.spec_grants(
                                access_type,
                                addr,
                            ) by {
                                assert(self.spec_regions()[i as int].spec_contains(addr));
                            }
                        }
                    }
                    found = true;
                }
                i += 1;
            }
            if !found {
                proof {
                    assert(!self.spec_grants(access_type, cur as int));
                }
                return false;
            }
            cur = if best_end < end_addr {
                best_end
            } else {
                end_addr
            };
        }
        true
    }
}

/// Domain `a` grants, for accesses of kind `access`, every address that
/// domain `b` grants.
pub open spec fn spec_grants_superset(
    a: MemoryConfig,
    b: MemoryConfig,
    access: MemoryRegionType,
) -> bool {
    forall|addr: int| b.spec_grants(access, addr) ==> a.spec_grants(access, addr)
}

/// Determinism of the access check: `range_has_access` returns a value equal
/// to a pure function of `(domain, access kind, start, end)`, so two results
/// of the check on the same arguments are always equal.
pub proof fn lemma_range_has_access_deterministic(
    c: MemoryConfig,
    access: MemoryRegionType,
    start: int,
    end: int,
    r1: bool,
    r2: bool,
)
    requires
        r1 == c.spec_range_has_access(access, start, end),
        r2 == c.spec_range_has_access(access, start, end),
    ensures
        r1 == r2,
{
}

/// Monotonicity of the access check: if domain `a`'s granted addresses are a
/// superset of domain `b`'s for an access kind, then every range check that
/// passes for `b` passes for `a`.
pub proof fn lemma_range_has_access_monotonic(
    a: MemoryConfig,
    b: MemoryConfig,
    access: MemoryRegionType,
    start: int,
    end: int,
)
    requires
        spec_grants_superset(a, b, access),
        b.spec_range_has_access(access, start, end),
    ensures
        a.spec_range_has_access(access, start, end),
{
    assert forall|addr: int| start <= addr < end implies a.spec_grants(access, addr) by {
        assert(b.spec_grants(access, addr));
    }
}

} // verus!
