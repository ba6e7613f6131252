//! A VM's second-stage translation at page granularity: which guest pages
//! map to which physical frames, with what access permission and memory
//! type.
use vstd::prelude::*;
use std::collections::HashMap;

verus! {

broadcast use vstd::std_specs::hash::group_hash_axioms;

pub const PAGE_BYTES: u64 = 4096;

/// Stage-2 access permission: read only.
pub const PTE_S2_FIELD_AP_RO: u8 = 1;

/// Stage-2 access permission: read and write.
pub const PTE_S2_FIELD_AP_RW: u8 = 3;

/// Highest physical frame number plus one (52-bit physical addresses).
pub const PFN_LIMIT: u64 = 0x10_0000_0000_0000;

/// The translation of one guest page.
#[derive(Clone, Copy, Debug, PartialEq, Eq, Structural)]
pub struct S2Pte {
    pub pfn: u64,
    pub ap: u8,
    pub device: bool,
}

/// Guest page number to translation.
pub struct Stage2PageTable {
    pub entries: HashMap<u64, S2Pte>,
}

/// Whether page `k` lies in the `n` pages from `start`.
pub open spec fn in_pages(k: u64, start: u64, n: u64) -> bool {
    start <= k && k < start + n
}

/// `m` with the `n` pages from `start` mapped, read-write, to the frames
/// from `pfn`.
pub open spec fn mapped_spec(m: Map<u64, S2Pte>, start: u64, n: u64, pfn: u64, device: bool) -> Map<u64, S2Pte> {
    Map::new(
        |k: u64| m.dom().contains(k) || in_pages(k, start, n),
        |k: u64|
            if in_pages(k, start, n) {
                S2Pte { pfn: (pfn + (k - start)) as u64, ap: PTE_S2_FIELD_AP_RW, device }
            } else {
                m[k]
            },
    )
}

/// `m` without the `n` pages from `start`.
pub open spec fn unmapped_spec(m: Map<u64, S2Pte>, start: u64, n: u64) -> Map<u64, S2Pte> {
    Map::new(|k: u64| m.dom().contains(k) && !in_pages(k, start, n), |k: u64| m[k])
}

/// `m` with access permission `ap` on the mapped pages among the `n` from
/// `start`.
pub open spec fn with_ap_spec(m: Map<u64, S2Pte>, start: u64, n: u64, ap: u8) -> Map<u64, S2Pte> {
    Map::new(
        |k: u64| m.dom().contains(k),
        |k: u64|
            if in_pages(k, start, n) {
                S2Pte { ap, ..m[k] }
            } else {
                m[k]
            },
    )
}

/// Every frame number is a valid physical frame.
pub open spec fn pt_wf(m: Map<u64, S2Pte>) -> bool {
    forall|k: u64| #[trigger] m.dom().contains(k) ==> m[k].pfn < PFN_LIMIT
}

/// No two guest pages share a physical frame.
pub open spec fn pt_injective(m: Map<u64, S2Pte>) -> bool {
    forall|a: u64, b: u64|
        #[trigger] m.dom().contains(a) && #[trigger] m.dom().contains(b) && a != b ==> m[a].pfn
            != m[b].pfn
}

impl Stage2PageTable {
    pub fn new() -> (r: Self)
        ensures
            r.entries@ == Map::<u64, S2Pte>::empty(),
    {
        Stage2PageTable { entries: HashMap::new() }
    }

    /// Maps the guest range `[ipa, ipa + len)` to `[pa, pa + len)`,
    /// read-write, page by page.
    pub fn pt_map_range(&mut self, ipa: u64, len: u64, pa: u64, device: bool)
        requires
            pt_wf(old(self).entries@),
            ipa % PAGE_BYTES == 0,
            pa % PAGE_BYTES == 0,
            len % PAGE_BYTES == 0,
            ipa + len <= u64::MAX,
            pa + len < PFN_LIMIT * PAGE_BYTES,
        ensures
            final(self).entries@ == mapped_spec(old(self).entries@, ipa / PAGE_BYTES, len / PAGE_BYTES, pa / PAGE_BYTES, device),
            pt_wf(final(self).entries@),
            pt_injective(old(self).entries@)
                && (forall|k: u64| in_pages(k, ipa / PAGE_BYTES, len / PAGE_BYTES) ==> !#[trigger] old(self).entries@.dom().contains(k))
                && (forall|k: u64| #[trigger] old(self).entries@.dom().contains(k) ==> !(pa / PAGE_BYTES <= old(self).entries@[k].pfn
                    && old(self).entries@[k].pfn < pa / PAGE_BYTES + len / PAGE_BYTES))
                ==> pt_injective(final(self).entries@),
    {
        let start = ipa / PAGE_BYTES;
        let n = len / PAGE_BYTES;
        let pfn = pa / PAGE_BYTES;
        assert(start + n <= u64::MAX && pfn + n < PFN_LIMIT) by (nonlinear_arith)
            requires
                start == ipa / 4096,
                n == len / 4096,
                pfn == pa / 4096,
                ipa + len <= u64::MAX,
                pa + len < PFN_LIMIT * 4096,
        ;
        let mut k: u64 = 0;
        while k < n
            invariant
                k <= n,
                start + n <= u64::MAX,
                pfn + n < PFN_LIMIT,
                self.entries@ == mapped_spec(old(self).entries@, start, k, pfn, device),
                pt_wf(old(self).entries@),
            decreases n - k,
        {
            self.entries.insert(start + k, S2Pte { pfn: pfn + k, ap: PTE_S2_FIELD_AP_RW, device });
            assert(self.entries@ =~= mapped_spec(old(self).entries@, start, (k + 1) as u64, pfn, device));
            k = k + 1;
        }
        assert forall|q: u64| #[trigger] self.entries@.dom().contains(q) implies self.entries@[q].pfn < PFN_LIMIT by {
            if !in_pages(q, start, n) {
                assert(old(self).entries@.dom().contains(q));
            }
        }
        proof {
            if pt_injective(old(self).entries@)
                && (forall|k: u64| in_pages(k, start, n) ==> !#[trigger] old(self).entries@.dom().contains(k))
                && (forall|k: u64| #[trigger] old(self).entries@.dom().contains(k) ==> !(pfn <= old(self).entries@[k].pfn
                    && old(self).entries@[k].pfn < pfn + n)) {
                lemma_map_keeps_injective(old(self).entries@, start, n, pfn, device);
            }
        }
    }

    /// Unmaps the guest range `[ipa, ipa + len)`.
    pub fn pt_unmap_range(&mut self, ipa: u64, len: u64)
        requires
            pt_wf(old(self).entries@),
            ipa % PAGE_BYTES == 0,
            len % PAGE_BYTES == 0,
            ipa + len <= u64::MAX,
        ensures
            final(self).entries@ == unmapped_spec(old(self).entries@, ipa / PAGE_BYTES, len / PAGE_BYTES),
            pt_wf(final(self).entries@),
    {
        let start = ipa / PAGE_BYTES;
        let n = len / PAGE_BYTES;
        assert(start + n <= u64::MAX) by (nonlinear_arith)
            requires
                start == ipa / 4096,
                n == len / 4096,
                ipa + len <= u64::MAX,
        ;
        let mut k: u64 = 0;
        while k < n
            invariant
                k <= n,
                start + n <= u64::MAX,
                self.entries@ == unmapped_spec(old(self).entries@, start, k),
            decreases n - k,
        {
            let key = start + k;
            self.entries.remove(&key);
            assert(self.entries@ =~= unmapped_spec(old(self).entries@, start, (k + 1) as u64));
            k = k + 1;
        }
    }

    /// Sets access permission `ap` on the mapped pages of `[ipa, ipa + len)`.
    pub fn access_permission(&mut self, ipa: u64, len: u64, ap: u8)
        requires
            pt_wf(old(self).entries@),
            ipa % PAGE_BYTES == 0,
            len % PAGE_BYTES == 0,
            ipa + len <= u64::MAX,
        ensures
            final(self).entries@ == with_ap_spec(old(self).entries@, ipa / PAGE_BYTES, len / PAGE_BYTES, ap),
            pt_wf(final(self).entries@),
    {
        let start = ipa / PAGE_BYTES;
        let n = len / PAGE_BYTES;
        assert(start + n <= u64::MAX) by (nonlinear_arith)
            requires
                start == ipa / 4096,
                n == len / 4096,
                ipa + len <= u64::MAX,
        ;
        let mut k: u64 = 0;
        while k < n
            invariant
                k <= n,
                start + n <= u64::MAX,
                self.entries@ == with_ap_spec(old(self).entries@, start, k, ap),
            decreases n - k,
        {
            let key = start + k;
            let cur = match self.entries.get(&key) {
                Some(p) => Some(*p),
                None => None,
            };
            if let Some(p) = cur {
                self.entries.insert(key, S2Pte { ap, ..p });
            }
            assert(self.entries@ =~= with_ap_spec(old(self).entries@, start, (k + 1) as u64, ap));
            k = k + 1;
        }
        assert forall|q: u64| #[trigger] self.entries@.dom().contains(q) implies self.entries@[q].pfn < PFN_LIMIT by {
            assert(old(self).entries@.dom().contains(q));
        }
    }

    /// The physical address `ipa` translates to, if its page is mapped.
    pub fn ipa2pa(&self, ipa: u64) -> (r: Option<u64>)
        requires
            pt_wf(self.entries@),
        ensures
            r == (if self.entries@.dom().contains(ipa / PAGE_BYTES) {
                Some((self.entries@[ipa / PAGE_BYTES].pfn * PAGE_BYTES + ipa % PAGE_BYTES) as u64)
            } else {
                None
            }),
    {
        let key = ipa / PAGE_BYTES;
        match self.entries.get(&key) {
            Some(p) => {
                let pfn = p.pfn;
                assert(pfn * 4096 + ipa % 4096 < 0x1_0000_0000_0000_0000) by (nonlinear_arith)
                    requires
                        pfn < PFN_LIMIT,
                ;
                Some(pfn * PAGE_BYTES + ipa % PAGE_BYTES)
            },
            None => None,
        }
    }
}

/// Mapping a range of unmapped pages and then unmapping it leaves the
/// table as it was.
pub proof fn lemma_map_then_unmap(m: Map<u64, S2Pte>, start: u64, n: u64, pfn: u64, device: bool)
    requires
        forall|k: u64| in_pages(k, start, n) ==> !#[trigger] m.dom().contains(k),
    ensures
        unmapped_spec(mapped_spec(m, start, n, pfn, device), start, n) == m,
{
    assert(unmapped_spec(mapped_spec(m, start, n, pfn, device), start, n) =~= m);
}

/// Making a range read-only and then read-write again changes no page's
/// frame; on a range that was read-write it restores the table exactly.
pub proof fn lemma_ro_then_rw(m: Map<u64, S2Pte>, start: u64, n: u64)
    ensures
        with_ap_spec(with_ap_spec(m, start, n, PTE_S2_FIELD_AP_RO), start, n, PTE_S2_FIELD_AP_RW).dom()
            == m.dom(),
        forall|k: u64|
            #[trigger] m.dom().contains(k) ==> with_ap_spec(
                with_ap_spec(m, start, n, PTE_S2_FIELD_AP_RO),
                start,
                n,
                PTE_S2_FIELD_AP_RW,
            )[k].pfn == m[k].pfn && with_ap_spec(
                with_ap_spec(m, start, n, PTE_S2_FIELD_AP_RO),
                start,
                n,
                PTE_S2_FIELD_AP_RW,
            )[k].device == m[k].device,
        (forall|k: u64| #[trigger] m.dom().contains(k) && in_pages(k, start, n) ==> m[k].ap
            == PTE_S2_FIELD_AP_RW) ==> with_ap_spec(
            with_ap_spec(m, start, n, PTE_S2_FIELD_AP_RO),
            start,
            n,
            PTE_S2_FIELD_AP_RW,
        ) == m,
{
    let r = with_ap_spec(with_ap_spec(m, start, n, PTE_S2_FIELD_AP_RO), start, n, PTE_S2_FIELD_AP_RW);
    assert(r.dom() =~= m.dom());
    if forall|k: u64| #[trigger] m.dom().contains(k) && in_pages(k, start, n) ==> m[k].ap == PTE_S2_FIELD_AP_RW {
        assert(r =~= m);
    }
}

/// Mapping fresh guest pages to frames that no page uses yet keeps the
/// translation injective: no two guest pages share a frame.
pub proof fn lemma_map_keeps_injective(m: Map<u64, S2Pte>, start: u64, n: u64, pfn: u64, device: bool)
    requires
        pt_injective(m),
        start + n <= u64::MAX,
        pfn + n <= u64::MAX,
        forall|k: u64| in_pages(k, start, n) ==> !#[trigger] m.dom().contains(k),
        forall|k: u64| #[trigger] m.dom().contains(k) ==> !(pfn <= m[k].pfn && m[k].pfn < pfn + n),
    ensures
        pt_injective(mapped_spec(m, start, n, pfn, device)),
{
    let r = mapped_spec(m, start, n, pfn, device);
    assert forall|a: u64, b: u64|
        #[trigger] r.dom().contains(a) && #[trigger] r.dom().contains(b) && a != b implies r[a].pfn
        != r[b].pfn by {
        if in_pages(a, start, n) && in_pages(b, start, n) {
        } else if in_pages(a, start, n) {
            assert(m.dom().contains(b));
        } else if in_pages(b, start, n) {
            assert(m.dom().contains(a));
        } else {
            assert(m.dom().contains(a) && m.dom().contains(b));
        }
    }
}

/// A stage-1 descriptor of the hypervisor's own tables.
#[derive(Clone, Copy, Debug, PartialEq, Eq, Structural)]
pub struct BlockDescriptor(pub u64);

/// Memory attributes of a stage-1 block: device memory (MAIR index 0,
/// outer shareable) or normal memory (MAIR index 1, inner shareable).
pub open spec fn s1_attr_bits(device: bool) -> u64 {
    if device {
        0x200
    } else {
        0x304
    }
}

impl BlockDescriptor {
    /// A valid, accessed, EL2 read-write block mapping `output_addr`.
    pub fn new(output_addr: u64, device: bool) -> (r: BlockDescriptor)
        ensures
            r.0 == (((output_addr >> 12u64) & 0xf_ffff_ffff) << 12u64) | 0x400 | s1_attr_bits(device) | 1,
            r.0 & 1 == 1,
            r.0 & 2 == 0,
            (r.0 >> 12u64) & 0xf_ffff_ffff == (output_addr >> 12u64) & 0xf_ffff_ffff,
            (r.0 >> 10u64) & 1 == 1,
            (r.0 >> 6u64) & 3 == 0,
            (r.0 >> 2u64) & 7 == (if device { 0u64 } else { 1u64 }),
            (r.0 >> 8u64) & 3 == (if device { 2u64 } else { 3u64 }),
    {
        let attr: u64 = if device { 0x200 } else { 0x304 };
        let v = (((output_addr >> 12u64) & 0xf_ffff_ffff) << 12u64) | 0x400 | attr | 1;
        assert(v & 1 == 1 && v & 2 == 0 && (v >> 12u64) & 0xf_ffff_ffff == (output_addr >> 12u64) & 0xf_ffff_ffff
            && (v >> 10u64) & 1 == 1 && (v >> 6u64) & 3 == 0 && (v >> 2u64) & 7 == (if attr == 0x200 { 0u64 } else { 1u64 })
            && (v >> 8u64) & 3 == (if attr == 0x200 { 2u64 } else { 3u64 })) by (bit_vector)
            requires
                attr == 0x200 || attr == 0x304,
                v == (((output_addr >> 12u64) & 0xf_ffff_ffff) << 12u64) | 0x400 | attr | 1,
        ;
        BlockDescriptor(v)
    }

    /// A valid table descriptor pointing at the next-level table at
    /// `output_addr`.
    pub fn table(output_addr: u64) -> (r: BlockDescriptor)
        ensures
            r.0 == (((output_addr >> 12u64) & 0xf_ffff_ffff) << 12u64) | 3,
            r.0 & 3 == 3,
            (r.0 >> 12u64) & 0xf_ffff_ffff == (output_addr >> 12u64) & 0xf_ffff_ffff,
    {
        let v = (((output_addr >> 12u64) & 0xf_ffff_ffff) << 12u64) | 3;
        assert(v & 3 == 3 && (v >> 12u64) & 0xf_ffff_ffff == (output_addr >> 12u64) & 0xf_ffff_ffff) by (bit_vector)
            requires
                v == (((output_addr >> 12u64) & 0xf_ffff_ffff) << 12u64) | 3,
        ;
        BlockDescriptor(v)
    }

    /// An invalid descriptor.
    pub fn invalid() -> (r: BlockDescriptor)
        ensures
            r.0 == 0,
    {
        BlockDescriptor(0)
    }
}

/// The bits of a block descriptor that maps `output_addr`.
pub open spec fn block_bits(output_addr: u64, device: bool) -> u64 {
    (((output_addr >> 12u64) & 0xf_ffff_ffff) << 12u64) | 0x400 | s1_attr_bits(device) | 1
}

/// The bits of a table descriptor that points at `output_addr`.
pub open spec fn table_bits(output_addr: u64) -> u64 {
    (((output_addr >> 12u64) & 0xf_ffff_ffff) << 12u64) | 3
}

/// Entry `i` of the hypervisor's first-level table: the low 3 GiB and the
/// 4 GiB above 4 GiB map themselves as normal memory in 1 GiB blocks, the
/// fourth GiB goes through the second-level table, the rest is invalid.
pub open spec fn lvl1_bits(i: int, lvl2_base: u64) -> u64 {
    if 0 <= i < 3 || 4 <= i < 8 {
        block_bits((i * 0x4000_0000) as u64, false)
    } else if i == 3 {
        table_bits(lvl2_base)
    } else {
        0
    }
}

/// Entry `i` of the second-level table of the fourth GiB: 2 MiB blocks that
/// map themselves, normal memory below 0xfc00_0000, device memory above.
pub open spec fn lvl2_bits(i: int) -> u64 {
    block_bits((0xc000_0000 + i * 0x20_0000) as u64, i >= 480)
}

/// Builds the hypervisor's identity tables for the board's physical memory
/// layout: the first-level table and the second-level table of the fourth
/// GiB, whose address is `lvl2_base`, 512 entries each.
pub fn pt_populate(lvl2_base: u64) -> (r: (Vec<BlockDescriptor>, Vec<BlockDescriptor>))
    ensures
        r.0@.len() == 512,
        r.1@.len() == 512,
        forall|i: int| 0 <= i < 512 ==> (#[trigger] r.0@[i]).0 == lvl1_bits(i, lvl2_base),
        forall|i: int| 0 <= i < 512 ==> (#[trigger] r.1@[i]).0 == lvl2_bits(i),
{
    let mut lvl1: Vec<BlockDescriptor> = Vec::new();
    let mut i: u64 = 0;
    while i < 512
        invariant
            i <= 512,
            lvl1@.len() == i,
            forall|k: int| 0 <= k < i ==> (#[trigger] lvl1@[k]).0 == lvl1_bits(k, lvl2_base),
        decreases 512 - i,
    {
        let d = if i < 3 || (4 <= i && i < 8) {
            BlockDescriptor::new(i * 0x4000_0000, false)
        } else if i == 3 {
            BlockDescriptor::table(lvl2_base)
        } else {
            BlockDescriptor::invalid()
        };
        lvl1.push(d);
        i = i + 1;
    }
    let mut lvl2: Vec<BlockDescriptor> = Vec::new();
    let mut j: u64 = 0;
    while j < 512
        invariant
            j <= 512,
            lvl2@.len() == j,
            forall|k: int| 0 <= k < j ==> (#[trigger] lvl2@[k]).0 == lvl2_bits(k),
        decreases 512 - j,
    {
        let d = BlockDescriptor::new(0xc000_0000 + j * 0x20_0000, j >= 480);
        lvl2.push(d);
        j = j + 1;
    }
    (lvl1, lvl2)
}

} // verus!
