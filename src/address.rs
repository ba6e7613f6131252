//! Hypervisor view of guest memory. Every VM's IPA space is visible to the
//! hypervisor as its own HVA subrange, tagged with the VM id in the address
//! bits between the IPA width and the hypervisor VA width.
use vstd::prelude::*;

verus! {

pub const PAGE_SHIFT: usize = 12;

pub const PAGE_SIZE: usize = 4096;

/// Width of the hypervisor's virtual address space, in bits.
pub const HYP_VA_SIZE: u64 = 39;

/// Width of a guest's intermediate physical address space, in bits.
pub const VM_IPA_SIZE: u64 = 35;

/// Mask of the VM-id tag: one value per VM the HVA space can tell apart.
pub const VMID_TAG_MASK: u64 = 0xf;

/// The tag bits of an HVA, `[HYP_VA_SIZE : VM_IPA_SIZE]`.
pub const VMID_TAG_PREFIX: u64 = 0x78_0000_0000;

/// Whether `ipa` can be aliased: it is not 0 and leaves the tag bits clear.
pub open spec fn ipa_is_aliasable(ipa: usize) -> bool {
    ipa != 0 && (ipa as u64) & VMID_TAG_PREFIX == 0
}

/// The hypervisor address of `ipa` in VM `vm_id`: the VM id in the tag bits,
/// the IPA below them; 0 for an IPA that cannot be aliased.
pub open spec fn hva_of(vm_id: usize, ipa: usize) -> u64 {
    if ipa_is_aliasable(ipa) {
        (((vm_id as u64) & VMID_TAG_MASK) << VM_IPA_SIZE) | (ipa as u64)
    } else {
        0
    }
}

/// Translates a guest IPA of VM `vm_id` to the hypervisor address that
/// aliases it, or 0 when the IPA is 0 or reaches into the tag bits.
pub fn vm_ipa2hva(vm_id: usize, ipa: usize) -> (r: usize)
    ensures
        r == hva_of(vm_id, ipa) as usize,
        !ipa_is_aliasable(ipa) ==> r == 0,
{
    let ipa64 = ipa as u64;
    if ipa == 0 || ipa64 & VMID_TAG_PREFIX != 0 {
        return 0;
    }
    let tag: u64 = ((vm_id as u64) & VMID_TAG_MASK) << VM_IPA_SIZE;
    (tag | ipa64) as usize
}

/// Distinct VMs that the tag can tell apart never share an HVA for the same
/// aliasable IPA, and the IPA can be read back from the HVA.
pub proof fn lemma_hva_distinct(vm_a: usize, vm_b: usize, ipa: usize)
    requires
        vm_a != vm_b,
        vm_a <= VMID_TAG_MASK,
        vm_b <= VMID_TAG_MASK,
        ipa_is_aliasable(ipa),
    ensures
        hva_of(vm_a, ipa) != hva_of(vm_b, ipa),
        hva_of(vm_a, ipa) & !VMID_TAG_PREFIX == (ipa as u64) & !VMID_TAG_PREFIX,
{
    let a = vm_a as u64;
    let b = vm_b as u64;
    let i = ipa as u64;
    assert(a != b);
    assert(((a & 0xf) << 35u64) | i != ((b & 0xf) << 35u64) | i) by (bit_vector)
        requires
            a != b,
            a <= 0xf,
            b <= 0xf,
            i & 0x78_0000_0000u64 == 0,
    ;
    assert((((a & 0xf) << 35u64) | i) & !0x78_0000_0000u64 == i & !0x78_0000_0000u64)
        by (bit_vector);
}

/// Pages the hypervisor allocated for itself: where it sees them, how
/// many, and where they are in physical memory.
#[derive(Clone, Copy, Debug, PartialEq, Eq, Structural)]
pub struct PageFrame {
    pub hva: usize,
    pub page_num: usize,
    pub pa: usize,
}

impl PageFrame {
    pub fn new(hva: usize, page_num: usize, pa: usize) -> (r: Self)
        ensures
            r == (PageFrame { hva, page_num, pa }),
    {
        PageFrame { hva, page_num, pa }
    }

    pub fn pa(&self) -> (r: usize)
        ensures
            r == self.pa,
    {
        self.pa
    }

    pub fn hva(&self) -> (r: usize)
        ensures
            r == self.hva,
    {
        self.hva
    }
}

/// The architecture-specific register values the hypervisor programs.
pub struct Aarch64Arch;

impl Aarch64Arch {
    /// VTTBR_EL2 for a VM: its VMID in bits [63:48] over the base address of
    /// its stage-2 table.
    pub fn vttbr(base: u64, vmid: u64) -> (r: u64)
        requires
            vmid < 0x10000,
            base < 0x1_0000_0000_0000,
        ensures
            r == (vmid << 48u64) | base,
            r >> 48u64 == vmid,
            r & 0xffff_ffff_ffff == base,
    {
        assert(((vmid << 48u64) | base) >> 48u64 == vmid && ((vmid << 48u64) | base) & 0xffff_ffff_ffff
            == base) by (bit_vector)
            requires
                vmid < 0x10000,
                base < 0x1_0000_0000_0000,
        ;
        (vmid << 48u64) | base
    }
}

} // verus!
