//! VM configuration records and the table of configured VMs that the
//! management VM edits through configuration hypercalls.
use vstd::prelude::*;

use crate::bits::{bit_of, count_ones, keep_lowest_bits, lowest_bits, min_nat, popcount};
use crate::emu::EmuDeviceType;
use crate::mediated::{mediated_blk_free, mediated_blk_request, MediatedBlkList};
use crate::address::{hva_of, vm_ipa2hva};
use crate::vm::VmType;

verus! {

/// Budget that cannot be depleted: a VM holding it is not rate limited.
pub const DEFAULT_MEMORY_BUDGET: u32 = 1000000000;

/// Replenishment period of the memory budget, in milliseconds.
pub const DEFAULT_MEMORY_REPLENISHMENT_PERIOD_MS: u64 = 100;

/// Budget share applied when a requested percentage is out of range.
pub const DEFAULT_PERCENT: u32 = 50;

/// Number of words of device-specific configuration copied from the guest.
pub const CFG_MAX_NUM: usize = 0x10;

/// Kind of a device described in a guest's device tree.
#[derive(Clone, Copy, PartialEq, Eq, Structural, Debug)]
pub enum DtbDevType {
    Serial,
    Gicd,
    Gicc,
}

impl DtbDevType {
    pub open spec fn from_num_spec(value: usize) -> Option<DtbDevType> {
        if value == 0 {
            Some(DtbDevType::Serial)
        } else if value == 1 {
            Some(DtbDevType::Gicd)
        } else if value == 2 {
            Some(DtbDevType::Gicc)
        } else {
            None
        }
    }

    /// The device-tree device kind encoded as `value` in the configuration ABI.
    pub fn from_num(value: usize) -> (r: Option<DtbDevType>)
        ensures
            r == Self::from_num_spec(value),
    {
        match value {
            0 => Some(DtbDevType::Serial),
            1 => Some(DtbDevType::Gicd),
            2 => Some(DtbDevType::Gicc),
            _ => None,
        }
    }
}

/// An emulated device of a VM: where it sits in the guest's IPA space, its
/// interrupt and its device-specific configuration words.
#[derive(Clone, Debug)]
pub struct VmEmulatedDeviceConfig {
    pub name: String,
    pub base_ipa: usize,
    pub length: usize,
    pub irq_id: usize,
    pub cfg_list: Vec<usize>,
    pub emu_type: EmuDeviceType,
    pub mediated: bool,
}

#[derive(Clone)]
pub struct VmEmulatedDeviceConfigList {
    pub emu_dev_list: Vec<VmEmulatedDeviceConfig>,
}

/// A physical device range mapped straight into a guest.
#[derive(Clone, Copy, Debug, PartialEq, Eq, Structural)]
pub struct PassthroughRegion {
    pub ipa: usize,
    pub pa: usize,
    pub length: usize,
    pub dev_property: bool,
}

#[derive(Clone)]
pub struct VmPassthroughDeviceConfig {
    pub regions: Vec<PassthroughRegion>,
    pub irqs: Vec<usize>,
    pub streams_ids: Vec<usize>,
}

impl VmPassthroughDeviceConfig {
    /// A configuration without passthrough devices.
    pub fn empty() -> (r: Self)
        ensures
            r.regions@.len() == 0,
            r.irqs@.len() == 0,
            r.streams_ids@.len() == 0,
    {
        VmPassthroughDeviceConfig { regions: Vec::new(), irqs: Vec::new(), streams_ids: Vec::new() }
    }
}

/// A range of guest IPA space.
#[derive(Clone, Copy, Debug, PartialEq, Eq, Structural)]
pub struct VmRegion {
    pub ipa_start: usize,
    pub length: usize,
}

impl VmRegion {
    /// The region as the half-open range `[ipa_start, ipa_start + length)`.
    pub fn as_range(&self) -> (r: core::ops::Range<usize>)
        requires
            self.ipa_start + self.length <= usize::MAX,
        ensures
            r.start == self.ipa_start,
            r.end == self.ipa_start + self.length,
    {
        core::ops::Range { start: self.ipa_start, end: self.ipa_start + self.length }
    }
}

/// Memory of a VM: its IPA regions, the cache colours it may occupy and its
/// memory-bandwidth budget per replenishment period.
#[derive(Clone)]
pub struct VmMemoryConfig {
    pub region: Vec<VmRegion>,
    pub colors: Vec<usize>,
    pub budget: u32,
    pub period_ms: u64,
}

impl Default for VmMemoryConfig {
    fn default() -> (r: Self)
        ensures
            r.region@.len() == 0,
            r.colors@.len() == 0,
            r.budget == DEFAULT_MEMORY_BUDGET,
            r.period_ms == DEFAULT_MEMORY_REPLENISHMENT_PERIOD_MS,
    {
        VmMemoryConfig {
            region: Vec::new(),
            colors: Vec::new(),
            budget: DEFAULT_MEMORY_BUDGET,
            period_ms: DEFAULT_MEMORY_REPLENISHMENT_PERIOD_MS,
        }
    }
}

/// The budget that `percent` percent of `budget_per_period` gives.
pub open spec fn budget_share(budget_per_period: u32, percent: u32) -> int {
    budget_per_period as int * percent as int / 100
}

impl VmMemoryConfig {
    /// Whether the VM's memory bandwidth is limited.
    pub fn is_limited(&self) -> (r: bool)
        ensures
            r == (self.budget < DEFAULT_MEMORY_BUDGET),
    {
        self.budget < DEFAULT_MEMORY_BUDGET
    }

    /// Sets the budget to `percent` percent of the budget per period.
    pub fn set_budget_by_percentage(&mut self, percent: u32, budget_per_period: u32)
        requires
            percent <= 100,
        ensures
            final(self).budget == budget_share(budget_per_period, percent),
            final(self).region == old(self).region,
            final(self).colors == old(self).colors,
            final(self).period_ms == old(self).period_ms,
    {
        assert(budget_per_period as u64 * percent as u64 <= 100 * 0xffff_ffffu64) by (nonlinear_arith)
            requires
                percent <= 100,
        ;
        let b: u64 = budget_per_period as u64 * percent as u64 / 100;
        assert(b <= budget_per_period) by (nonlinear_arith)
            requires
                b == budget_per_period as u64 * percent as u64 / 100,
                percent <= 100,
        ;
        self.budget = b as u32;
    }
}

/// Where the guest's images are loaded and where it starts.
#[derive(Clone)]
pub struct VmImageConfig {
    pub kernel_img_name: Option<&'static str>,
    pub kernel_load_ipa: usize,
    pub kernel_entry_point: usize,
    pub device_tree_load_ipa: usize,
    pub ramdisk_load_ipa: usize,
}

impl VmImageConfig {
    /// An image layout whose entry point is the kernel's load address.
    pub fn new(kernel_load_ipa: usize, device_tree_load_ipa: usize, ramdisk_load_ipa: usize) -> (r:
        VmImageConfig)
        ensures
            r.kernel_img_name.is_none(),
            r.kernel_load_ipa == kernel_load_ipa,
            r.kernel_entry_point == kernel_load_ipa,
            r.device_tree_load_ipa == device_tree_load_ipa,
            r.ramdisk_load_ipa == ramdisk_load_ipa,
    {
        VmImageConfig {
            kernel_img_name: None,
            kernel_load_ipa,
            kernel_entry_point: kernel_load_ipa,
            device_tree_load_ipa,
            ramdisk_load_ipa,
        }
    }
}

/// The physical cores a VM runs on: how many, which ones, and which one
/// hosts its master vCPU.
#[derive(Clone, Copy, Debug, PartialEq, Eq, Structural)]
pub struct VmCpuConfig {
    pub num: usize,
    pub allocate_bitmap: usize,
    pub master: Option<usize>,
}

/// The CPU configuration that a request for `num` cores out of
/// `allocate_bitmap`, with master core `master`, settles on.
pub open spec fn cpu_config_spec(num: usize, allocate_bitmap: usize, master: usize) -> VmCpuConfig {
    let n = min_nat(num as nat, popcount(allocate_bitmap as nat));
    let bitmap = lowest_bits(allocate_bitmap as nat, n) as usize;
    VmCpuConfig {
        num: n as usize,
        allocate_bitmap: bitmap,
        master: if bit_of(bitmap as u64, master as int) {
            Some(master)
        } else {
            None
        },
    }
}

impl VmCpuConfig {
    /// A configuration without cores.
    pub fn empty() -> (r: Self)
        ensures
            r.num == 0,
            r.allocate_bitmap == 0,
            r.master.is_none(),
    {
        VmCpuConfig { num: 0, allocate_bitmap: 0, master: None }
    }

    /// Settles a request: the core count is clamped to the cores the bitmap
    /// offers, the bitmap keeps its `num` lowest cores, and the master is kept
    /// only if it is among them.
    pub fn new(num: usize, allocate_bitmap: usize, master: usize) -> (r: Self)
        ensures
            r == cpu_config_spec(num, allocate_bitmap, master),
    {
        let ones = count_ones(allocate_bitmap);
        let n = if num < ones {
            num
        } else {
            ones
        };
        let bitmap = keep_lowest_bits(allocate_bitmap, n);
        let m = if crate::bits::test_bit(bitmap, master) {
            Some(master)
        } else {
            None
        };
        VmCpuConfig { num: n, allocate_bitmap: bitmap, master: m }
    }
}

/// A device that the guest's device tree describes.
#[derive(Clone, Debug)]
pub struct VmDtbDevConfig {
    pub name: String,
    pub dev_type: DtbDevType,
    pub irqs: Vec<usize>,
    pub addr_region: VmRegion,
}

#[derive(Clone)]
pub struct VMDtbDevConfigList {
    pub dtb_device_list: Vec<VmDtbDevConfig>,
}

/// The whole configuration of one VM.
#[derive(Clone)]
pub struct VmConfigEntry {
    pub id: usize,
    pub name: String,
    pub os_type: VmType,
    pub cmdline: String,
    pub image: VmImageConfig,
    pub memory: VmMemoryConfig,
    pub cpu: VmCpuConfig,
    pub vm_emu_dev_confg: VmEmulatedDeviceConfigList,
    pub vm_pt_dev_confg: VmPassthroughDeviceConfig,
    pub vm_dtb_devs: VMDtbDevConfigList,
    pub mediated_block_index: Option<usize>,
}

/// Colour bitmap of the colours in `colors`, one bit per colour.
pub open spec fn color_bits(colors: Seq<usize>) -> u64
    decreases colors.len(),
{
    if colors.len() == 0 {
        0
    } else {
        color_bits(colors.drop_last()) | (1u64 << (colors.last() as u64))
    }
}

/// The colour bitmap of a VM: every colour when none is listed.
pub open spec fn color_bitmap_spec(colors: Seq<usize>) -> usize {
    if colors.len() == 0 {
        usize::MAX
    } else {
        color_bits(colors) as usize
    }
}

/// Whether `i` is the first device of `devs` of kind `ty`.
pub open spec fn is_first_dtb_of(devs: Seq<VmDtbDevConfig>, ty: DtbDevType, i: int) -> bool {
    &&& 0 <= i < devs.len()
    &&& devs[i].dev_type == ty
    &&& forall|j: int| 0 <= j < i ==> devs[j].dev_type != ty
}

/// Start IPA of the first device of kind `ty`, or 0 when there is none.
pub open spec fn dtb_addr_spec(devs: Seq<VmDtbDevConfig>, ty: DtbDevType, r: usize) -> bool {
    ||| exists|i: int| is_first_dtb_of(devs, ty, i) && r == devs[i].addr_region.ipa_start
    ||| (forall|j: int| 0 <= j < devs.len() ==> devs[j].dev_type != ty) && r == 0
}

fn dtb_dev_addr(devs: &Vec<VmDtbDevConfig>, ty: DtbDevType) -> (r: usize)
    ensures
        dtb_addr_spec(devs@, ty, r),
{
    let mut i: usize = 0;
    while i < devs.len()
        invariant
            i <= devs@.len(),
            forall|j: int| 0 <= j < i ==> devs@[j].dev_type != ty,
        decreases devs@.len() - i,
    {
        if devs[i].dev_type == ty {
            assert(is_first_dtb_of(devs@, ty, i as int));
            return devs[i].addr_region.ipa_start;
        }
        i = i + 1;
    }
    0
}

impl VmConfigEntry {
    /// A fresh configuration: id 0, the given image layout, default memory
    /// settings and no cores or devices yet.
    pub fn new(
        name: String,
        cmdline: String,
        vm_type: usize,
        kernel_load_ipa: usize,
        device_tree_load_ipa: usize,
        ramdisk_load_ipa: usize,
    ) -> (r: VmConfigEntry)
        requires
            VmType::from_num_spec(vm_type).is_some(),
        ensures
            r.id == 0,
            r.name == name,
            r.cmdline == cmdline,
            Some(r.os_type) == VmType::from_num_spec(vm_type),
            r.image.kernel_img_name.is_none(),
            r.image.kernel_load_ipa == kernel_load_ipa,
            r.image.kernel_entry_point == kernel_load_ipa,
            r.image.device_tree_load_ipa == device_tree_load_ipa,
            r.image.ramdisk_load_ipa == ramdisk_load_ipa,
            r.memory.region@.len() == 0,
            r.memory.colors@.len() == 0,
            r.memory.budget == DEFAULT_MEMORY_BUDGET,
            r.cpu == (VmCpuConfig { num: 0, allocate_bitmap: 0, master: None }),
            r.vm_emu_dev_confg.emu_dev_list@.len() == 0,
            r.vm_pt_dev_confg.regions@.len() == 0,
            r.vm_pt_dev_confg.irqs@.len() == 0,
            r.vm_pt_dev_confg.streams_ids@.len() == 0,
            r.vm_dtb_devs.dtb_device_list@.len() == 0,
            r.mediated_block_index.is_none(),
    {
        let os_type = match VmType::from_num(vm_type) {
            Some(t) => t,
            None => VmType::VmTBma,
        };
        VmConfigEntry {
            id: 0,
            name,
            os_type,
            cmdline,
            image: VmImageConfig::new(kernel_load_ipa, device_tree_load_ipa, ramdisk_load_ipa),
            memory: VmMemoryConfig::default(),
            cpu: VmCpuConfig::empty(),
            vm_emu_dev_confg: VmEmulatedDeviceConfigList { emu_dev_list: Vec::new() },
            vm_pt_dev_confg: VmPassthroughDeviceConfig::empty(),
            vm_dtb_devs: VMDtbDevConfigList { dtb_device_list: Vec::new() },
            mediated_block_index: None,
        }
    }

    /// A copy of this configuration; the copy keeps the id, the cores, the
    /// image layout, the memory settings and the mediated block.
    pub fn duplicate(&self) -> (r: VmConfigEntry)
        ensures
            r.id == self.id,
            r.name@ == self.name@,
            r.cmdline@ == self.cmdline@,
            r.os_type == self.os_type,
            r.cpu == self.cpu,
            r.image.kernel_img_name == self.image.kernel_img_name,
            r.image.kernel_load_ipa == self.image.kernel_load_ipa,
            r.image.kernel_entry_point == self.image.kernel_entry_point,
            r.image.device_tree_load_ipa == self.image.device_tree_load_ipa,
            r.image.ramdisk_load_ipa == self.image.ramdisk_load_ipa,
            r.memory.budget == self.memory.budget,
            r.memory.period_ms == self.memory.period_ms,
            r.mediated_block_index == self.mediated_block_index,
    {
        VmConfigEntry {
            id: self.id,
            name: self.name.clone(),
            os_type: self.os_type,
            cmdline: self.cmdline.clone(),
            image: VmImageConfig {
                kernel_img_name: self.image.kernel_img_name,
                kernel_load_ipa: self.image.kernel_load_ipa,
                kernel_entry_point: self.image.kernel_entry_point,
                device_tree_load_ipa: self.image.device_tree_load_ipa,
                ramdisk_load_ipa: self.image.ramdisk_load_ipa,
            },
            memory: VmMemoryConfig {
                region: self.memory.region.clone(),
                colors: self.memory.colors.clone(),
                budget: self.memory.budget,
                period_ms: self.memory.period_ms,
            },
            cpu: self.cpu,
            vm_emu_dev_confg: self.vm_emu_dev_confg.clone(),
            vm_pt_dev_confg: self.vm_pt_dev_confg.clone(),
            vm_dtb_devs: self.vm_dtb_devs.clone(),
            mediated_block_index: self.mediated_block_index,
        }
    }

    pub fn mediated_block_index(&self) -> (r: Option<usize>)
        ensures
            r == self.mediated_block_index,
    {
        self.mediated_block_index
    }

    pub fn set_mediated_block_index(&mut self, med_blk_id: usize)
        ensures
            *final(self) == (VmConfigEntry { mediated_block_index: Some(med_blk_id), ..*old(self) }),
    {
        self.mediated_block_index = Some(med_blk_id);
    }

    pub fn kernel_img_name(&self) -> (r: Option<&'static str>)
        ensures
            r == self.image.kernel_img_name,
    {
        self.image.kernel_img_name
    }

    pub fn kernel_load_ipa(&self) -> (r: usize)
        ensures
            r == self.image.kernel_load_ipa,
    {
        self.image.kernel_load_ipa
    }

    pub fn kernel_entry_point(&self) -> (r: usize)
        ensures
            r == self.image.kernel_entry_point,
    {
        self.image.kernel_entry_point
    }

    pub fn device_tree_load_ipa(&self) -> (r: usize)
        ensures
            r == self.image.device_tree_load_ipa,
    {
        self.image.device_tree_load_ipa
    }

    pub fn ramdisk_load_ipa(&self) -> (r: usize)
        ensures
            r == self.image.ramdisk_load_ipa,
    {
        self.image.ramdisk_load_ipa
    }

    pub fn memory_region(&self) -> (r: &[VmRegion])
        ensures
            r@ == self.memory.region@,
    {
        self.memory.region.as_slice()
    }

    /// Bitmap of the cache colours the VM may use; every colour when the
    /// configuration lists none.
    pub fn memory_color_bitmap(&self) -> (r: usize)
        requires
            forall|i: int| 0 <= i < self.memory.colors@.len() ==> self.memory.colors@[i] < 64,
        ensures
            r == color_bitmap_spec(self.memory.colors@),
    {
        if self.memory.colors.len() == 0 {
            usize::MAX
        } else {
            let mut acc: u64 = 0;
            let mut k: usize = 0;
            while k < self.memory.colors.len()
                invariant
                    k <= self.memory.colors@.len(),
                    forall|i: int|
                        0 <= i < self.memory.colors@.len() ==> self.memory.colors@[i] < 64,
                    acc == color_bits(self.memory.colors@.take(k as int)),
                decreases self.memory.colors@.len() - k,
            {
                let c = self.memory.colors[k];
                assert(self.memory.colors@.take(k as int + 1).drop_last()
                    =~= self.memory.colors@.take(k as int));
                acc = acc | (1u64 << (c as u64));
                k = k + 1;
            }
            assert(self.memory.colors@.take(k as int) =~= self.memory.colors@);
            acc as usize
        }
    }

    pub fn add_memory_cfg(&mut self, ipa_start: usize, length: usize)
        ensures
            final(self).memory.region@ == old(self).memory.region@.push(
                VmRegion { ipa_start, length },
            ),
            final(self).memory.colors == old(self).memory.colors,
            final(self).memory.budget == old(self).memory.budget,
            final(self).memory.period_ms == old(self).memory.period_ms,
            final(self).id == old(self).id,
            final(self).cpu == old(self).cpu,
            final(self).mediated_block_index == old(self).mediated_block_index,
    {
        self.memory.region.push(VmRegion { ipa_start, length });
    }

    pub fn cpu_num(&self) -> (r: usize)
        ensures
            r == self.cpu.num,
    {
        self.cpu.num
    }

    pub fn cpu_allocated_bitmap(&self) -> (r: usize)
        ensures
            r == self.cpu.allocate_bitmap,
    {
        self.cpu.allocate_bitmap
    }

    pub fn cpu_master(&self) -> (r: Option<usize>)
        ensures
            r == self.cpu.master,
    {
        self.cpu.master
    }

    pub fn set_cpu_cfg(&mut self, num: usize, allocate_bitmap: usize, master: usize)
        ensures
            *final(self) == (VmConfigEntry {
                cpu: cpu_config_spec(num, allocate_bitmap, master),
                ..*old(self)
            }),
    {
        self.cpu = VmCpuConfig::new(num, allocate_bitmap, master);
    }

    pub fn emulated_device_list(&self) -> (r: &[VmEmulatedDeviceConfig])
        ensures
            r@ == self.vm_emu_dev_confg.emu_dev_list@,
    {
        self.vm_emu_dev_confg.emu_dev_list.as_slice()
    }

    pub fn add_emulated_device_cfg(&mut self, cfg: VmEmulatedDeviceConfig)
        ensures
            final(self).vm_emu_dev_confg.emu_dev_list@
                == old(self).vm_emu_dev_confg.emu_dev_list@.push(cfg),
            final(self).id == old(self).id,
            final(self).cpu == old(self).cpu,
            final(self).memory == old(self).memory,
            final(self).mediated_block_index == old(self).mediated_block_index,
    {
        self.vm_emu_dev_confg.emu_dev_list.push(cfg);
    }

    pub fn passthrough_device_regions(&self) -> (r: &[PassthroughRegion])
        ensures
            r@ == self.vm_pt_dev_confg.regions@,
    {
        self.vm_pt_dev_confg.regions.as_slice()
    }

    pub fn passthrough_device_irqs(&self) -> (r: &[usize])
        ensures
            r@ == self.vm_pt_dev_confg.irqs@,
    {
        self.vm_pt_dev_confg.irqs.as_slice()
    }

    pub fn passthrough_device_stread_ids(&self) -> (r: &[usize])
        ensures
            r@ == self.vm_pt_dev_confg.streams_ids@,
    {
        self.vm_pt_dev_confg.streams_ids.as_slice()
    }

    pub fn add_passthrough_device_region(&mut self, pt_region_cfg: PassthroughRegion)
    ensures
            final(self).vm_pt_dev_confg.regions@ == old(self).vm_pt_dev_confg.regions@.push(
                pt_region_cfg,
            ),
            final(self).vm_pt_dev_confg.irqs == old(self).vm_pt_dev_confg.irqs,
            final(self).vm_pt_dev_confg.streams_ids == old(self).vm_pt_dev_confg.streams_ids,
            final(self).id == old(self).id,
            final(self).cpu == old(self).cpu,
            final(self).mediated_block_index == old(self).mediated_block_index,
    {
        self.vm_pt_dev_confg.regions.push(pt_region_cfg)
    }

    /// Moves `irqs` to the end of the passthrough interrupt list.
    pub fn add_passthrough_device_irqs(&mut self, irqs: &mut Vec<usize>)
    ensures
            final(self).vm_pt_dev_confg.irqs@ == old(self).vm_pt_dev_confg.irqs@ + old(irqs)@,
            final(irqs)@.len() == 0,
            final(self).vm_pt_dev_confg.regions == old(self).vm_pt_dev_confg.regions,
            final(self).vm_pt_dev_confg.streams_ids == old(self).vm_pt_dev_confg.streams_ids,
            final(self).id == old(self).id,
            final(self).cpu == old(self).cpu,
            final(self).mediated_block_index == old(self).mediated_block_index,
    {
        self.vm_pt_dev_confg.irqs.append(irqs);
    }

    /// Moves `streams_ids` to the end of the passthrough stream-id list.
    pub fn add_passthrough_device_streams_ids(&mut self, streams_ids: &mut Vec<usize>)
    ensures
            final(self).vm_pt_dev_confg.streams_ids@ == old(self).vm_pt_dev_confg.streams_ids@
                + old(streams_ids)@,
            final(streams_ids)@.len() == 0,
            final(self).vm_pt_dev_confg.regions == old(self).vm_pt_dev_confg.regions,
            final(self).vm_pt_dev_confg.irqs == old(self).vm_pt_dev_confg.irqs,
            final(self).id == old(self).id,
            final(self).cpu == old(self).cpu,
            final(self).mediated_block_index == old(self).mediated_block_index,
    {
        self.vm_pt_dev_confg.streams_ids.append(streams_ids);
    }

    pub fn dtb_device_list(&self) -> (r: &[VmDtbDevConfig])
        ensures
            r@ == self.vm_dtb_devs.dtb_device_list@,
    {
        self.vm_dtb_devs.dtb_device_list.as_slice()
    }

    pub fn add_dtb_device(&mut self, cfg: VmDtbDevConfig)
        ensures
            final(self).vm_dtb_devs.dtb_device_list@ == old(
                self,
            ).vm_dtb_devs.dtb_device_list@.push(cfg),
            final(self).id == old(self).id,
            final(self).cpu == old(self).cpu,
            final(self).mediated_block_index == old(self).mediated_block_index,
    {
        self.vm_dtb_devs.dtb_device_list.push(cfg);
    }

    /// IPA of the guest's GIC CPU interface, 0 when its device tree has none.
    pub fn gicc_addr(&self) -> (r: usize)
        ensures
            dtb_addr_spec(self.vm_dtb_devs.dtb_device_list@, DtbDevType::Gicc, r),
    {
        dtb_dev_addr(&self.vm_dtb_devs.dtb_device_list, DtbDevType::Gicc)
    }

    /// IPA of the guest's GIC distributor, 0 when its device tree has none.
    pub fn gicd_addr(&self) -> (r: usize)
        ensures
            dtb_addr_spec(self.vm_dtb_devs.dtb_device_list@, DtbDevType::Gicd, r),
    {
        dtb_dev_addr(&self.vm_dtb_devs.dtb_device_list, DtbDevType::Gicd)
    }
}

/// Most VMs the system is built for.
pub const VM_NUM_MAX: usize = 8;

/// Most VMs that can be configured at once: bounded by the system's VM count
/// and by the number of VM-id tags the HVA space holds.
pub const CONFIG_VM_NUM_MAX: usize = 8;

/// The table of configured VMs: which VM ids are taken, and the
/// configuration of each VM.
pub struct VmConfigTable {
    pub vm_bitmap: Vec<bool>,
    pub entries: Vec<VmConfigEntry>,
}

/// The first free id at or after `i`.
pub open spec fn first_free_from(bm: Seq<bool>, i: int) -> Option<usize>
    decreases bm.len() - i,
{
    if i < 0 || i >= bm.len() {
        None
    } else if !bm[i] {
        Some(i as usize)
    } else {
        first_free_from(bm, i + 1)
    }
}

/// Whether some entry has id `vmid`.
pub open spec fn has_entry(entries: Seq<VmConfigEntry>, vmid: usize) -> bool {
    exists|i: int| 0 <= i < entries.len() && entries[i].id == vmid
}

/// Index of the entry with id `vmid` (meaningful when there is one).
pub open spec fn entry_index(entries: Seq<VmConfigEntry>, vmid: usize) -> int {
    choose|i: int| 0 <= i < entries.len() && entries[i].id == vmid
}

/// Ids in use and configurations agree: an id is taken exactly when a
/// configuration carries it, and no two configurations share one.
pub open spec fn table_wf(bm: Seq<bool>, entries: Seq<VmConfigEntry>) -> bool {
    &&& bm.len() == CONFIG_VM_NUM_MAX
    &&& forall|j: int| 0 <= j < entries.len() ==> entries[j].id < CONFIG_VM_NUM_MAX
    &&& forall|j: int, k: int|
        0 <= j < entries.len() && 0 <= k < entries.len() && j != k ==> entries[j].id
            != entries[k].id
    &&& forall|i: int| 0 <= i < bm.len() ==> (bm[i] <==> has_entry(entries, i as usize))
}

/// Adding `e`: it takes the first free id, or nothing changes when all are
/// taken.
pub open spec fn cfg_add_spec(bm: Seq<bool>, entries: Seq<VmConfigEntry>, e: VmConfigEntry) -> (
    Seq<bool>,
    Seq<VmConfigEntry>,
    Result<usize, ()>,
) {
    match first_free_from(bm, 0) {
        Some(id) => (bm.update(id as int, true), entries.push(VmConfigEntry { id, ..e }), Ok(id)),
        None => (bm, entries, Err(())),
    }
}

/// Deleting VM `vmid`: its configuration leaves and its id is freed.
pub open spec fn cfg_del_spec(bm: Seq<bool>, entries: Seq<VmConfigEntry>, vmid: usize) -> (
    Seq<bool>,
    Seq<VmConfigEntry>,
) {
    if has_entry(entries, vmid) {
        (bm.update(vmid as int, false), entries.remove(entry_index(entries, vmid)))
    } else {
        (bm, entries)
    }
}

/// `new` is `old` with at most entry `i` changed.
pub open spec fn only_entry_changed(old: Seq<VmConfigEntry>, new: Seq<VmConfigEntry>, i: int) -> bool {
    &&& new.len() == old.len()
    &&& forall|j: int| 0 <= j < old.len() && j != i ==> new[j] == old[j]
    &&& new[i].id == old[i].id
}

proof fn lemma_first_free_is_free(bm: Seq<bool>, i: int)
    requires
        0 <= i,
        bm.len() <= usize::MAX,
    ensures
        first_free_from(bm, i) matches Some(id) ==> i <= id < bm.len() && !bm[id as int] && forall|
            j: int,
        | i <= j < id ==> bm[j],
        first_free_from(bm, i).is_none() ==> forall|j: int| i <= j < bm.len() ==> bm[j],
    decreases bm.len() - i,
{
    if i < bm.len() && bm[i] {
        lemma_first_free_is_free(bm, i + 1);
    }
}

impl VmConfigTable {
    pub fn new() -> (r: Self)
        ensures
            r.vm_bitmap@ == Seq::new(CONFIG_VM_NUM_MAX as nat, |i: int| false),
            r.entries@.len() == 0,
            table_wf(r.vm_bitmap@, r.entries@),
    {
        let mut bm: Vec<bool> = Vec::new();
        let mut i: usize = 0;
        while i < CONFIG_VM_NUM_MAX
            invariant
                i <= CONFIG_VM_NUM_MAX,
                bm@ == Seq::new(i as nat, |k: int| false),
            decreases CONFIG_VM_NUM_MAX - i,
        {
            bm.push(false);
            i = i + 1;
        }
        let r = VmConfigTable { vm_bitmap: bm, entries: Vec::new() };
        assert forall|k: int| 0 <= k < r.vm_bitmap@.len() implies (r.vm_bitmap@[k] <==> has_entry(
            r.entries@,
            k as usize,
        )) by {}
        r
    }

    /// Takes the first free VM id.
    pub fn generate_vm_id(&mut self) -> (r: Result<usize, ()>)
        requires
            old(self).vm_bitmap@.len() == CONFIG_VM_NUM_MAX,
        ensures
            r == (match first_free_from(old(self).vm_bitmap@, 0) {
                Some(id) => Ok::<usize, ()>(id),
                None => Err(()),
            }),
            final(self).vm_bitmap@ == (match r {
                Ok(id) => old(self).vm_bitmap@.update(id as int, true),
                Err(_) => old(self).vm_bitmap@,
            }),
            final(self).entries == old(self).entries,
    {
        let mut i: usize = 0;
        while i < CONFIG_VM_NUM_MAX
            invariant
                i <= CONFIG_VM_NUM_MAX,
                self.vm_bitmap@.len() == CONFIG_VM_NUM_MAX,
                self.vm_bitmap@ == old(self).vm_bitmap@,
                self.entries == old(self).entries,
                first_free_from(self.vm_bitmap@, 0) == first_free_from(self.vm_bitmap@, i as int),
            decreases CONFIG_VM_NUM_MAX - i,
        {
            if !self.vm_bitmap[i] {
                self.vm_bitmap.set(i, true);
                return Ok(i);
            }
            i = i + 1;
        }
        Err(())
    }

    /// Frees VM id `vm_id`; an id out of range or not taken is left alone.
    pub fn remove_vm_id(&mut self, vm_id: usize)
        requires
            old(self).vm_bitmap@.len() == CONFIG_VM_NUM_MAX,
        ensures
            final(self).vm_bitmap@ == (if vm_id < CONFIG_VM_NUM_MAX && old(self).vm_bitmap@[vm_id as int] {
                old(self).vm_bitmap@.update(vm_id as int, false)
            } else {
                old(self).vm_bitmap@
            }),
            final(self).entries == old(self).entries,
    {
        if vm_id < CONFIG_VM_NUM_MAX && self.vm_bitmap[vm_id] {
            self.vm_bitmap.set(vm_id, false);
        }
    }
}

/// Index of the configuration of VM `vmid`.
fn vm_cfg_index(table: &VmConfigTable, vmid: usize) -> (r: Option<usize>)
    ensures
        match r {
            Some(i) => i < table.entries@.len() && table.entries@[i as int].id == vmid,
            None => !has_entry(table.entries@, vmid),
        },
{
    let mut i: usize = 0;
    while i < table.entries.len()
        invariant
            i <= table.entries@.len(),
            forall|j: int| 0 <= j < i ==> table.entries@[j].id != vmid,
        decreases table.entries@.len() - i,
    {
        if table.entries[i].id == vmid {
            return Some(i);
        }
        i = i + 1;
    }
    None
}

/// The configuration of VM `vmid`, if it is configured.
pub fn vm_cfg_entry(table: &VmConfigTable, vmid: usize) -> (r: Option<&VmConfigEntry>)
    ensures
        match r {
            Some(e) => e.id == vmid && exists|i: int|
                0 <= i < table.entries@.len() && table.entries@[i] == *e,
            None => !has_entry(table.entries@, vmid),
        },
{
    match vm_cfg_index(table, vmid) {
        Some(i) => Some(&table.entries[i]),
        None => None,
    }
}

/// Adds a VM configuration under the first free VM id and returns that id;
/// fails, changing nothing, when every id is taken.
pub fn vm_cfg_add_vm_entry(table: &mut VmConfigTable, vm_cfg_entry: VmConfigEntry) -> (r: Result<
    usize,
    (),
>)
    requires
        table_wf(old(table).vm_bitmap@, old(table).entries@),
        old(table).entries@.len() > 0 ==> first_free_from(old(table).vm_bitmap@, 0) != Some(0usize),
    ensures
        (final(table).vm_bitmap@, final(table).entries@, r) == cfg_add_spec(
            old(table).vm_bitmap@,
            old(table).entries@,
            vm_cfg_entry,
        ),
        table_wf(final(table).vm_bitmap@, final(table).entries@),
{
    let mut e = vm_cfg_entry;
    let ghost bm0 = table.vm_bitmap@;
    let ghost en0 = table.entries@;
    proof {
        lemma_first_free_is_free(bm0, 0);
    }
    match table.generate_vm_id() {
        Ok(vm_id) => {
            e.id = vm_id;
            table.entries.push(e);
            proof {
                let en1 = table.entries@;
                let bm1 = table.vm_bitmap@;
                assert(!has_entry(en0, vm_id)) by {
                    assert(!bm0[vm_id as int]);
                }
                assert forall|k: int| 0 <= k < bm1.len() implies (bm1[k] <==> has_entry(
                    en1,
                    k as usize,
                )) by {
                    if k == vm_id as int {
                        assert(en1[en0.len() as int].id == vm_id);
                    } else {
                        if bm1[k] {
                            assert(bm0[k]);
                            let w = choose|i: int| 0 <= i < en0.len() && en0[i].id == k as usize;
                            assert(en1[w] == en0[w]);
                        }
                        if has_entry(en1, k as usize) {
                            let w = choose|i: int| 0 <= i < en1.len() && en1[i].id == k as usize;
                            assert(w < en0.len());
                            assert(en0[w] == en1[w]);
                        }
                    }
                }
                assert forall|j: int, k: int|
                    0 <= j < en1.len() && 0 <= k < en1.len() && j != k implies en1[j].id
                    != en1[k].id by {
                    if j == en0.len() as int {
                        assert(en1[k] == en0[k]);
                    } else if k == en0.len() as int {
                        assert(en1[j] == en0[j]);
                    }
                }
            }
            Ok(vm_id)
        },
        Err(_) => Err(()),
    }
}

/// Deletes the configuration of VM `vmid`, frees its id and gives its
/// mediated block back to the pool. Deleting an unknown VM changes nothing.
pub fn del_vm(table: &mut VmConfigTable, blks: &mut MediatedBlkList, vmid: usize) -> (r: Result<
    usize,
    (),
>)
    requires
        table_wf(old(table).vm_bitmap@, old(table).entries@),
    ensures
        r == Ok::<usize, ()>(0),
        (final(table).vm_bitmap@, final(table).entries@) == cfg_del_spec(
            old(table).vm_bitmap@,
            old(table).entries@,
            vmid,
        ),
        table_wf(final(table).vm_bitmap@, final(table).entries@),
        final(blks).blks@ == (if has_entry(old(table).entries@, vmid) {
            match old(table).entries@[entry_index(old(table).entries@, vmid)].mediated_block_index {
                Some(b) => if b < old(blks).blks@.len() {
                    old(blks).blks@.update(
                        b as int,
                        crate::mediated::MediatedBlk { avail: true, ..old(blks).blks@[b as int] },
                    )
                } else {
                    old(blks).blks@
                },
                None => old(blks).blks@,
            }
        } else {
            old(blks).blks@
        }),
{
    let ghost bm0 = table.vm_bitmap@;
    let ghost en0 = table.entries@;
    match vm_cfg_index(table, vmid) {
        Some(idx) => {
            proof {
                let c = entry_index(en0, vmid);
                assert(0 <= c < en0.len() && en0[c].id == vmid);
                assert(c == idx as int);
                assert(bm0[vmid as int]);
            }
            if let Some(block_idx) = table.entries[idx].mediated_block_index() {
                if block_idx < blks.blks.len() {
                    mediated_blk_free(blks, block_idx);
                }
            }
            table.remove_vm_id(vmid);
            table.entries.remove(idx);
            proof {
                let en1 = table.entries@;
                let bm1 = table.vm_bitmap@;
                assert(en1 == en0.remove(idx as int));
                assert forall|k: int| 0 <= k < bm1.len() implies (bm1[k] <==> has_entry(
                    en1,
                    k as usize,
                )) by {
                    if k == vmid as int {
                        if has_entry(en1, k as usize) {
                            let w = choose|i: int| 0 <= i < en1.len() && en1[i].id == k as usize;
                            if w < idx {
                                assert(en1[w] == en0[w]);
                            } else {
                                assert(en1[w] == en0[w + 1]);
                            }
                        }
                    } else {
                        if bm1[k] {
                            assert(bm0[k]);
                            let w = choose|i: int| 0 <= i < en0.len() && en0[i].id == k as usize;
                            assert(w != idx);
                            if w < idx {
                                assert(en1[w] == en0[w]);
                            } else {
                                assert(en1[w - 1] == en0[w]);
                            }
                        }
                        if has_entry(en1, k as usize) {
                            let w = choose|i: int| 0 <= i < en1.len() && en1[i].id == k as usize;
                            if w < idx {
                                assert(en1[w] == en0[w]);
                            } else {
                                assert(en1[w] == en0[w + 1]);
                            }
                        }
                    }
                }
                assert forall|j: int, k: int|
                    0 <= j < en1.len() && 0 <= k < en1.len() && j != k implies en1[j].id
                    != en1[k].id by {
                    let jj = if j < idx { j } else { j + 1 };
                    let kk = if k < idx { k } else { k + 1 };
                    assert(en1[j] == en0[jj]);
                    assert(en1[k] == en0[kk]);
                }
            }
        },
        None => {},
    }
    Ok(0)
}

/// Adding a configuration and then deleting the VM it was given restores
/// the table: the id is free again and the other configurations are as they
/// were.
pub proof fn lemma_add_then_delete_restores(
    bm: Seq<bool>,
    entries: Seq<VmConfigEntry>,
    e: VmConfigEntry,
)
    requires
        table_wf(bm, entries),
    ensures
        ({
            let (bm1, en1, r) = cfg_add_spec(bm, entries, e);
            r matches Ok(id) ==> cfg_del_spec(bm1, en1, id) == (bm, entries) && !bm1[id as int]
                == bm[id as int] && en1[en1.len() - 1].mediated_block_index
                == e.mediated_block_index
        }),
{
    let (bm1, en1, r) = cfg_add_spec(bm, entries, e);
    lemma_first_free_is_free(bm, 0);
    if let Ok(id) = r {
        let last = entries.len() as int;
        assert(en1[last].id == id);
        assert(has_entry(en1, id));
        assert(!has_entry(entries, id)) by {
            assert(!bm[id as int]);
        }
        let c = entry_index(en1, id);
        assert(0 <= c < en1.len() && en1[c].id == id);
        if c != last {
            assert(en1[c] == entries[c]);
        }
        assert(c == last);
        assert(en1.remove(c) =~= entries);
        assert(bm1.update(id as int, false) =~= bm);
    }
}

/// Changing one configuration without touching its id keeps the table
/// well formed.
proof fn lemma_wf_after_edit(
    bm: Seq<bool>,
    old_entries: Seq<VmConfigEntry>,
    new_entries: Seq<VmConfigEntry>,
    i: int,
)
    requires
        table_wf(bm, old_entries),
        0 <= i < old_entries.len(),
        only_entry_changed(old_entries, new_entries, i),
    ensures
        table_wf(bm, new_entries),
{
    assert forall|k: int| 0 <= k < bm.len() implies (bm[k] <==> has_entry(new_entries, k as usize)) by {
        if has_entry(new_entries, k as usize) {
            let w = choose|j: int| 0 <= j < new_entries.len() && new_entries[j].id == k as usize;
            assert(old_entries[w].id == new_entries[w].id);
        }
        if has_entry(old_entries, k as usize) {
            let w = choose|j: int| 0 <= j < old_entries.len() && old_entries[j].id == k as usize;
            assert(old_entries[w].id == new_entries[w].id);
        }
    }
    assert forall|j: int| 0 <= j < new_entries.len() implies new_entries[j].id < CONFIG_VM_NUM_MAX by {
        assert(old_entries[j].id == new_entries[j].id);
    }
    assert forall|j: int, k: int|
        0 <= j < new_entries.len() && 0 <= k < new_entries.len() && j != k implies new_entries[j].id
        != new_entries[k].id by {
        assert(old_entries[j].id == new_entries[j].id);
        assert(old_entries[k].id == new_entries[k].id);
    }
}

/// Result of an edit of VM `vmid`: done when it is configured, refused
/// otherwise.
pub open spec fn edit_result(entries: Seq<VmConfigEntry>, vmid: usize) -> Result<usize, ()> {
    if has_entry(entries, vmid) {
        Ok(0)
    } else {
        Err(())
    }
}

/// Adds the IPA region `[ipa_start, ipa_start + length)` to VM `vmid`.
pub fn add_mem_region(table: &mut VmConfigTable, vmid: usize, ipa_start: usize, length: usize) -> (r:
    Result<usize, ()>)
    requires
        table_wf(old(table).vm_bitmap@, old(table).entries@),
    ensures
        table_wf(final(table).vm_bitmap@, final(table).entries@),
        r == edit_result(old(table).entries@, vmid),
        final(table).vm_bitmap == old(table).vm_bitmap,
        r is Err ==> final(table).entries == old(table).entries,
        forall|i: int|
            #![trigger old(table).entries@[i]] #![trigger final(table).entries@[i]]
            0 <= i < old(table).entries@.len() && old(table).entries@[i].id == vmid ==> {
                &&& only_entry_changed(old(table).entries@, final(table).entries@, i)
                &&& final(table).entries@[i].memory.region@ == old(
                    table,
                ).entries@[i].memory.region@.push(VmRegion { ipa_start, length })
                &&& final(table).entries@[i].cpu == old(table).entries@[i].cpu
            },
{
    match vm_cfg_index(table, vmid) {
        Some(i) => {
            table.entries[i].add_memory_cfg(ipa_start, length);
            proof {
                lemma_wf_after_edit(table.vm_bitmap@, old(table).entries@, table.entries@, i as int);
            }
            Ok(0)
        },
        None => Err(()),
    }
}

/// Sets the cores of VM `vmid` (see `VmCpuConfig::new`).
pub fn set_cpu(
    table: &mut VmConfigTable,
    vmid: usize,
    num: usize,
    allocate_bitmap: usize,
    master: usize,
) -> (r: Result<usize, ()>)
    requires
        table_wf(old(table).vm_bitmap@, old(table).entries@),
    ensures
        table_wf(final(table).vm_bitmap@, final(table).entries@),
        r == edit_result(old(table).entries@, vmid),
        final(table).vm_bitmap == old(table).vm_bitmap,
        r is Err ==> final(table).entries == old(table).entries,
        forall|i: int|
            #![trigger old(table).entries@[i]]
            0 <= i < old(table).entries@.len() && old(table).entries@[i].id == vmid
                ==> final(table).entries@ == old(table).entries@.update(
                i,
                VmConfigEntry {
                    cpu: cpu_config_spec(num, allocate_bitmap, master),
                    ..old(table).entries@[i]
                },
            ),
{
    match vm_cfg_index(table, vmid) {
        Some(i) => {
            table.entries[i].set_cpu_cfg(num, allocate_bitmap, master);
            proof {
                lemma_wf_after_edit(table.vm_bitmap@, old(table).entries@, table.entries@, i as int);
            }
            Ok(0)
        },
        None => Err(()),
    }
}

/// Adds the passthrough device range `ipa -> pa` of `length` bytes to VM
/// `vmid`.
pub fn add_passthrough_device_region(
    table: &mut VmConfigTable,
    vmid: usize,
    base_ipa: usize,
    base_pa: usize,
    length: usize,
) -> (r: Result<usize, ()>)
    requires
        table_wf(old(table).vm_bitmap@, old(table).entries@),
    ensures
        table_wf(final(table).vm_bitmap@, final(table).entries@),
        r == edit_result(old(table).entries@, vmid),
        final(table).vm_bitmap == old(table).vm_bitmap,
        r is Err ==> final(table).entries == old(table).entries,
        forall|i: int|
            #![trigger old(table).entries@[i]] #![trigger final(table).entries@[i]]
            0 <= i < old(table).entries@.len() && old(table).entries@[i].id == vmid ==> {
                &&& only_entry_changed(old(table).entries@, final(table).entries@, i)
                &&& final(table).entries@[i].vm_pt_dev_confg.regions@ == old(
                    table,
                ).entries@[i].vm_pt_dev_confg.regions@.push(
                    PassthroughRegion { ipa: base_ipa, pa: base_pa, length, dev_property: true },
                )
            },
{
    match vm_cfg_index(table, vmid) {
        Some(i) => {
            let pt_region_cfg = PassthroughRegion {
                ipa: base_ipa,
                pa: base_pa,
                length,
                dev_property: true,
            };
            table.entries[i].add_passthrough_device_region(pt_region_cfg);
            proof {
                lemma_wf_after_edit(table.vm_bitmap@, old(table).entries@, table.entries@, i as int);
            }
            Ok(0)
        },
        None => Err(()),
    }
}

/// Appends `irqs` to the passthrough interrupts of VM `vmid`.
pub fn add_passthrough_device_irqs(table: &mut VmConfigTable, vmid: usize, irqs: Vec<usize>) -> (r:
    Result<usize, ()>)
    requires
        table_wf(old(table).vm_bitmap@, old(table).entries@),
    ensures
        table_wf(final(table).vm_bitmap@, final(table).entries@),
        r == edit_result(old(table).entries@, vmid),
        final(table).vm_bitmap == old(table).vm_bitmap,
        r is Err ==> final(table).entries == old(table).entries,
        forall|i: int|
            #![trigger old(table).entries@[i]] #![trigger final(table).entries@[i]]
            0 <= i < old(table).entries@.len() && old(table).entries@[i].id == vmid ==> {
                &&& only_entry_changed(old(table).entries@, final(table).entries@, i)
                &&& final(table).entries@[i].vm_pt_dev_confg.irqs@ == old(
                    table,
                ).entries@[i].vm_pt_dev_confg.irqs@ + irqs@
            },
{
    let mut irqs = irqs;
    match vm_cfg_index(table, vmid) {
        Some(i) => {
            table.entries[i].add_passthrough_device_irqs(&mut irqs);
            proof {
                lemma_wf_after_edit(table.vm_bitmap@, old(table).entries@, table.entries@, i as int);
            }
            Ok(0)
        },
        None => Err(()),
    }
}

/// Appends `streams_ids` to the passthrough stream ids of VM `vmid`.
pub fn add_passthrough_device_streams_ids(
    table: &mut VmConfigTable,
    vmid: usize,
    streams_ids: Vec<usize>,
) -> (r: Result<usize, ()>)
    requires
        table_wf(old(table).vm_bitmap@, old(table).entries@),
    ensures
        table_wf(final(table).vm_bitmap@, final(table).entries@),
        r == edit_result(old(table).entries@, vmid),
        final(table).vm_bitmap == old(table).vm_bitmap,
        r is Err ==> final(table).entries == old(table).entries,
        forall|i: int|
            #![trigger old(table).entries@[i]] #![trigger final(table).entries@[i]]
            0 <= i < old(table).entries@.len() && old(table).entries@[i].id == vmid ==> {
                &&& only_entry_changed(old(table).entries@, final(table).entries@, i)
                &&& final(table).entries@[i].vm_pt_dev_confg.streams_ids@ == old(
                    table,
                ).entries@[i].vm_pt_dev_confg.streams_ids@ + streams_ids@
            },
{
    let mut ids = streams_ids;
    match vm_cfg_index(table, vmid) {
        Some(i) => {
            table.entries[i].add_passthrough_device_streams_ids(&mut ids);
            proof {
                lemma_wf_after_edit(table.vm_bitmap@, old(table).entries@, table.entries@, i as int);
            }
            Ok(0)
        },
        None => Err(()),
    }
}

/// The device kind an emulated device is recorded under: a mediated
/// virtio-blk is recorded as a virtio-blk with the mediated flag.
pub open spec fn recorded_emu_type(t: EmuDeviceType) -> EmuDeviceType {
    if t == EmuDeviceType::EmuDeviceTVirtioBlkMediated {
        EmuDeviceType::EmuDeviceTVirtioBlk
    } else {
        t
    }
}

/// Adds an emulated device to VM `vmid`. A mediated virtio-blk also takes a
/// mediated block from the pool; the request fails when the VM is unknown,
/// the device kind is unknown, or no mediated block is free (the device
/// stays recorded in that last case).
pub fn add_emu_dev(
    table: &mut VmConfigTable,
    blks: &mut MediatedBlkList,
    vmid: usize,
    name: String,
    base_ipa: usize,
    length: usize,
    irq_id: usize,
    cfg_list: Vec<usize>,
    emu_type: usize,
) -> (r: Result<usize, ()>)
    requires
        table_wf(old(table).vm_bitmap@, old(table).entries@),
    ensures
        table_wf(final(table).vm_bitmap@, final(table).entries@),
        !has_entry(old(table).entries@, vmid) || EmuDeviceType::from_num_spec(emu_type) is None
            ==> r is Err && final(table).entries == old(table).entries && final(blks).blks
            == old(blks).blks,
        final(table).vm_bitmap == old(table).vm_bitmap,
        forall|i: int|
            #![trigger old(table).entries@[i]] #![trigger final(table).entries@[i]]
            0 <= i < old(table).entries@.len() && old(table).entries@[i].id == vmid
                && EmuDeviceType::from_num_spec(emu_type) is Some ==> {
                let t = EmuDeviceType::from_num_spec(emu_type)->0;
                let mediated = t == EmuDeviceType::EmuDeviceTVirtioBlkMediated;
                &&& only_entry_changed(old(table).entries@, final(table).entries@, i)
                &&& final(table).entries@[i].vm_emu_dev_confg.emu_dev_list@ == old(
                    table,
                ).entries@[i].vm_emu_dev_confg.emu_dev_list@.push(
                    VmEmulatedDeviceConfig {
                        name,
                        base_ipa,
                        length,
                        irq_id,
                        cfg_list,
                        emu_type: recorded_emu_type(t),
                        mediated,
                    },
                )
                &&& !mediated ==> r == Ok::<usize, ()>(0) && final(table).entries@[i].mediated_block_index
                    == old(table).entries@[i].mediated_block_index && final(blks).blks
                    == old(blks).blks
                &&& mediated ==> (match r {
                    Ok(_) => exists|b: int|
                        crate::mediated::is_first_free(old(blks).blks@, b)
                            && final(table).entries@[i].mediated_block_index == Some(b as usize)
                            && final(blks).blks@ == old(blks).blks@.update(
                            b,
                            crate::mediated::MediatedBlk { avail: false, ..old(blks).blks@[b] },
                        ),
                    Err(_) => final(table).entries@[i].mediated_block_index
                        == old(table).entries@[i].mediated_block_index && forall|j: int|
                        0 <= j < old(blks).blks@.len() ==> !old(blks).blks@[j].avail,
                })
            },
{
    let i = match vm_cfg_index(table, vmid) {
        Some(i) => i,
        None => return Err(()),
    };
    let t = match EmuDeviceType::from_num(emu_type) {
        Some(t) => t,
        None => return Err(()),
    };
    let mediated = t == EmuDeviceType::EmuDeviceTVirtioBlkMediated;
    let recorded = if mediated {
        EmuDeviceType::EmuDeviceTVirtioBlk
    } else {
        t
    };
    let emu_dev_cfg = VmEmulatedDeviceConfig {
        name,
        base_ipa,
        length,
        irq_id,
        cfg_list,
        emu_type: recorded,
        mediated,
    };
    table.entries[i].add_emulated_device_cfg(emu_dev_cfg);
    proof {
        lemma_wf_after_edit(table.vm_bitmap@, old(table).entries@, table.entries@, i as int);
    }
    if mediated {
        match mediated_blk_request(blks) {
            Ok(med_blk_index) => {
                table.entries[i].set_mediated_block_index(med_blk_index);
                proof {
                    lemma_wf_after_edit(table.vm_bitmap@, old(table).entries@, table.entries@, i as int);
                }
            },
            Err(_) => {
                return Err(());
            },
        }
    }
    Ok(0)
}

/// Adds a device-tree device to VM `vmid`; fails when the VM or the device
/// kind is unknown.
pub fn add_dtb_dev(
    table: &mut VmConfigTable,
    vmid: usize,
    name: String,
    dev_type: usize,
    irqs: Vec<usize>,
    addr_region_ipa: usize,
    addr_region_length: usize,
) -> (r: Result<usize, ()>)
    requires
        table_wf(old(table).vm_bitmap@, old(table).entries@),
    ensures
        table_wf(final(table).vm_bitmap@, final(table).entries@),
        r == (if has_entry(old(table).entries@, vmid) && DtbDevType::from_num_spec(dev_type) is Some {
            Ok::<usize, ()>(0)
        } else {
            Err(())
        }),
        final(table).vm_bitmap == old(table).vm_bitmap,
        r is Err ==> final(table).entries == old(table).entries,
        forall|i: int|
            #![trigger old(table).entries@[i]] #![trigger final(table).entries@[i]]
            0 <= i < old(table).entries@.len() && old(table).entries@[i].id == vmid && r is Ok ==> {
                &&& only_entry_changed(old(table).entries@, final(table).entries@, i)
                &&& final(table).entries@[i].vm_dtb_devs.dtb_device_list@ == old(
                    table,
                ).entries@[i].vm_dtb_devs.dtb_device_list@.push(
                    VmDtbDevConfig {
                        name,
                        dev_type: DtbDevType::from_num_spec(dev_type)->0,
                        irqs,
                        addr_region: VmRegion {
                            ipa_start: addr_region_ipa,
                            length: addr_region_length,
                        },
                    },
                )
            },
{
    let ty = match DtbDevType::from_num(dev_type) {
        Some(t) => t,
        None => return Err(()),
    };
    let vm_dtb_dev = VmDtbDevConfig {
        name,
        dev_type: ty,
        irqs,
        addr_region: VmRegion { ipa_start: addr_region_ipa, length: addr_region_length },
    };
    match vm_cfg_index(table, vmid) {
        Some(i) => {
            table.entries[i].add_dtb_device(vm_dtb_dev);
            proof {
                lemma_wf_after_edit(table.vm_bitmap@, old(table).entries@, table.entries@, i as int);
            }
            Ok(0)
        },
        None => Err(()),
    }
}

/// The memory budget per replenishment period that a budget per second
/// gives.
pub fn set_memory_budget_second(budget: u32) -> (r: u32)
    ensures
        r == budget as int * DEFAULT_MEMORY_REPLENISHMENT_PERIOD_MS as int / 1000,
{
    let b: u64 = budget as u64 * DEFAULT_MEMORY_REPLENISHMENT_PERIOD_MS / 1000;
    b as u32
}

/// The share of the budget a requested percentage settles on: `None` when the
/// bandwidth is left unlimited (0 % or 100 %), the percentage itself within
/// 10 %..=90 %, the default share otherwise.
pub open spec fn budget_percent_spec(budget_percent: usize) -> Option<u32> {
    if budget_percent == 0 || budget_percent == 100 {
        None
    } else if 10 <= budget_percent <= 90 {
        Some(budget_percent as u32)
    } else {
        Some(DEFAULT_PERCENT)
    }
}

pub fn settle_budget_percent(percent: usize) -> (r: Option<u32>)
    ensures
        r == budget_percent_spec(percent),
{
    if percent == 100 || percent == 0 {
        None
    } else if 10 <= percent && percent <= 90 {
        Some(percent as u32)
    } else {
        Some(DEFAULT_PERCENT)
    }
}

/// Adds cache colours to VM `vmid` and, when memory reservation is enabled,
/// sets its bandwidth budget to the share `budget_percent` settles on.
pub fn set_memory_color_budget(
    table: &mut VmConfigTable,
    vmid: usize,
    colors: &[usize],
    budget_percent: usize,
    budget_per_period: u32,
    reservation_enabled: bool,
) -> (r: Result<usize, ()>)
    requires
        table_wf(old(table).vm_bitmap@, old(table).entries@),
    ensures
        table_wf(final(table).vm_bitmap@, final(table).entries@),
        r == edit_result(old(table).entries@, vmid),
        final(table).vm_bitmap == old(table).vm_bitmap,
        r is Err ==> final(table).entries == old(table).entries,
        forall|i: int|
            #![trigger old(table).entries@[i]] #![trigger final(table).entries@[i]]
            0 <= i < old(table).entries@.len() && old(table).entries@[i].id == vmid ==> {
                let m0 = old(table).entries@[i].memory;
                let m1 = final(table).entries@[i].memory;
                &&& only_entry_changed(old(table).entries@, final(table).entries@, i)
                &&& m1.colors@ == m0.colors@ + colors@
                &&& m1.region == m0.region
                &&& m1.budget == (match budget_percent_spec(budget_percent) {
                    Some(p) => if reservation_enabled {
                        budget_share(budget_per_period, p) as u32
                    } else {
                        m0.budget
                    },
                    None => m0.budget,
                })
            },
{
    match vm_cfg_index(table, vmid) {
        Some(i) => {
            let mut k: usize = 0;
            let ghost c0 = table.entries@[i as int].memory.colors@;
            while k < colors.len()
                invariant
                    k <= colors@.len(),
                    i < table.entries@.len(),
                    table.vm_bitmap == old(table).vm_bitmap,
                    only_entry_changed(old(table).entries@, table.entries@, i as int),
                    c0 == old(table).entries@[i as int].memory.colors@,
                    table.entries@[i as int].memory.colors@ == c0 + colors@.take(k as int),
                    table.entries@[i as int].memory.region == old(
                        table,
                    ).entries@[i as int].memory.region,
                    table.entries@[i as int].memory.budget == old(
                        table,
                    ).entries@[i as int].memory.budget,
                decreases colors@.len() - k,
            {
                table.entries[i].memory.colors.push(colors[k]);
                assert(colors@.take(k as int + 1) =~= colors@.take(k as int).push(colors@[k as int]));
                k = k + 1;
            }
            assert(colors@.take(k as int) =~= colors@);
            if reservation_enabled {
                if let Some(p) = settle_budget_percent(budget_percent) {
                    table.entries[i].memory.set_budget_by_percentage(p, budget_per_period);
                }
            }
            proof {
                lemma_wf_after_edit(table.vm_bitmap@, old(table).entries@, table.entries@, i as int);
            }
            Ok(0)
        },
        None => Err(()),
    }
}

/// A budget of 0 % or 100 % leaves the memory bandwidth unlimited: the rate
/// limiter stays off for a VM whose budget was the default.
pub proof fn lemma_full_or_empty_budget_unlimited(budget_percent: usize)
    requires
        budget_percent == 0 || budget_percent == 100,
    ensures
        budget_percent_spec(budget_percent) is None,
{
}

/// Settling a CPU request keeps exactly `min(num, popcount(allocate_bitmap))`
/// cores, all of them taken from the requested bitmap.
pub proof fn lemma_cpu_config_clamps(num: usize, allocate_bitmap: usize, master: usize)
    ensures
        cpu_config_spec(num, allocate_bitmap, master).num == min_nat(
            num as nat,
            popcount(allocate_bitmap as nat),
        ),
        popcount(cpu_config_spec(num, allocate_bitmap, master).allocate_bitmap as nat)
            == cpu_config_spec(num, allocate_bitmap, master).num,
        cpu_config_spec(num, allocate_bitmap, master).allocate_bitmap <= allocate_bitmap,
        cpu_config_spec(num, allocate_bitmap, master).master matches Some(m) ==> m == master,
{
    let n = min_nat(num as nat, popcount(allocate_bitmap as nat));
    crate::bits::lemma_lowest_bits_le(allocate_bitmap as nat, n);
    crate::bits::lemma_popcount_lowest_bits(allocate_bitmap as nat, n);
}

/// Where a chunk of a guest's kernel image goes: the HVA of the guest's
/// `kernel_load_ipa + load_offset` and the HVA of the management VM's buffer.
#[derive(Clone, Copy, Debug, PartialEq, Eq, Structural)]
pub struct ImageCopy {
    pub dst_hva: usize,
    pub src_hva: usize,
    pub len: usize,
}

/// Plans the copy of `load_size` bytes of VM `vmid`'s kernel image from the
/// management VM `mvm_id`'s buffer at `cache_ipa` to offset `load_offset` of
/// the image. Fails when the VM is not configured, the target address
/// overflows or either address cannot be aliased.
pub fn upload_kernel_image(
    table: &VmConfigTable,
    vms: &mut crate::vm::VmList,
    vmid: usize,
    mvm_id: usize,
    cache_ipa: usize,
    load_offset: usize,
    load_size: usize,
    counter_now: u64,
) -> (r: Result<ImageCopy, ()>)
    requires
        table_wf(table.vm_bitmap@, table.entries@),
    ensures
        !has_entry(table.entries@, vmid) ==> final(vms).vms@ == old(vms).vms@,
        has_entry(table.entries@, vmid) ==> crate::vm::has_vm(final(vms).vms@, vmid),
        crate::vm::has_vm(old(vms).vms@, vmid) ==> final(vms).vms@ == old(vms).vms@,
        has_entry(table.entries@, vmid) && !crate::vm::has_vm(old(vms).vms@, vmid) ==> {
            let e = table.entries@[entry_index(table.entries@, vmid)];
            let v = final(vms).vms@.last();
            &&& final(vms).vms@.len() == old(vms).vms@.len() + 1
            &&& final(vms).vms@.drop_last() == old(vms).vms@
            &&& v.id == vmid
            &&& v.config matches Some(c) && c.id == vmid && c.cpu == e.cpu && c.image.kernel_load_ipa
                == e.image.kernel_load_ipa && c.image.kernel_entry_point == e.image.kernel_entry_point
                && c.image.device_tree_load_ipa == e.image.device_tree_load_ipa && c.mediated_block_index
                == e.mediated_block_index
        },
        match r {
            Ok(c) => exists|i: int|
                {
                    &&& 0 <= i < table.entries@.len()
                    &&& table.entries@[i].id == vmid
                    &&& table.entries@[i].image.kernel_load_ipa + load_offset <= usize::MAX
                    &&& c.dst_hva == hva_of(
                        vmid,
                        (table.entries@[i].image.kernel_load_ipa + load_offset) as usize,
                    ) as usize
                    &&& c.dst_hva != 0
                    &&& c.src_hva == hva_of(mvm_id, cache_ipa) as usize
                    &&& c.src_hva != 0
                    &&& c.len == load_size
                },
            Err(_) => !has_entry(table.entries@, vmid) || forall|i: int|
                0 <= i < table.entries@.len() && table.entries@[i].id == vmid ==> {
                    let ipa = table.entries@[i].image.kernel_load_ipa + load_offset;
                    ipa > usize::MAX || hva_of(vmid, ipa as usize) as usize == 0 || hva_of(
                        mvm_id,
                        cache_ipa,
                    ) as usize == 0
                },
        },
{
    let i = match vm_cfg_index(table, vmid) {
        Some(i) => i,
        None => return Err(()),
    };
    proof {
        let c = entry_index(table.entries@, vmid);
        if c != i as int {
            assert(table.entries@[c].id == table.entries@[i as int].id);
        }
    }
    let entry = table.entries[i].duplicate();
    crate::vm::vm_cfg_finish_configuration(vms, entry, counter_now);
    let load_ipa = table.entries[i].kernel_load_ipa();
    if load_ipa > usize::MAX - load_offset {
        proof {
            assert forall|j: int|
                0 <= j < table.entries@.len() && table.entries@[j].id == vmid implies table.entries@[j].image.kernel_load_ipa
                + load_offset > usize::MAX by {
                if j != i as int {
                    assert(table.entries@[j].id == table.entries@[i as int].id);
                }
            }
        }
        return Err(());
    }
    let dst = vm_ipa2hva(vmid, load_ipa + load_offset);
    let src = vm_ipa2hva(mvm_id, cache_ipa);
    if dst == 0 || src == 0 {
        return Err(());
    }
    Ok(ImageCopy { dst_hva: dst, src_hva: src, len: load_size })
}

} // verus!
