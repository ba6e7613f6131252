//! The platform this hypervisor is built for (Raspberry Pi 4) and the guest
//! configurations it can set up without the management VM's help.
use vstd::prelude::*;

use crate::config::{
    first_free_from, table_wf, vm_cfg_add_vm_entry, DtbDevType, PassthroughRegion,
    VMDtbDevConfigList, VmConfigEntry, VmConfigTable, VmCpuConfig, VmDtbDevConfig,
    VmEmulatedDeviceConfig, VmEmulatedDeviceConfigList, VmImageConfig, VmMemoryConfig,
    VmPassthroughDeviceConfig, VmRegion,
};
use crate::emu::EmuDeviceType;
use crate::vm::VmType;

verus! {

pub const UART_0_ADDR: usize = 0xFE201000;

pub const UART_1_ADDR: usize = 0xFE201400;

pub const UART_0_INT: usize = 32 + 0x79;

pub const UART_1_INT: usize = 32 + 0x79;

pub const GICD_BASE: usize = 0xFF841000;

pub const GICC_BASE: usize = 0xFF842000;

pub const GICH_BASE: usize = 0xFF844000;

pub const GICV_BASE: usize = 0xFF846000;

/// Physical cores of the platform.
pub const PLATFORM_CPU_NUM_MAX: usize = 4;

/// The guest's virtual timer interrupt.
pub const INTERRUPT_IRQ_GUEST_TIMER: usize = 27;

/// The hypervisor's own timer interrupt.
pub const INTERRUPT_IRQ_HYPERVISOR_TIMER: usize = 26;

/// GIC maintenance interrupt of the platform.
pub const GIC_MAINTENANCE_INT_ID: usize = 25;

/// How a core schedules its vCPUs.
#[derive(Clone, Copy, Debug, PartialEq, Eq, Structural)]
pub enum SchedRule {
    RoundRobin,
}

/// A physical core: its MPIDR and scheduling rule.
#[derive(Clone, Copy, Debug, PartialEq, Eq, Structural)]
pub struct PlatCpuCoreConfig {
    pub mpidr: usize,
    pub sched: SchedRule,
}

/// A physical memory range `[start, end)`.
#[derive(Clone, Copy, Debug, PartialEq, Eq, Structural)]
pub struct PlatMemRange {
    pub start: u64,
    pub end: u64,
}

/// Addresses of the interrupt controller's interfaces.
#[derive(Clone, Copy, Debug, PartialEq, Eq, Structural)]
pub struct GicDesc {
    pub gicd_addr: usize,
    pub gicc_addr: usize,
    pub gich_addr: usize,
    pub gicv_addr: usize,
    pub maintenance_int_id: usize,
}

/// The physical cores of the platform.
pub struct PlatCpuConfig {
    pub num: usize,
    pub core_list: Vec<PlatCpuCoreConfig>,
}

/// The platform's DRAM: its base and its ranges.
pub struct PlatMemoryConfig {
    pub base: u64,
    pub regions: Vec<PlatMemRange>,
}

/// The SMMU of the platform.
#[derive(Clone, Copy, Debug, PartialEq, Eq, Structural)]
pub struct SmmuDesc {
    pub base: usize,
    pub interrupt_id: usize,
    pub global_mask: u16,
}

/// Interrupt controller and SMMU of the platform.
#[derive(Clone, Copy, Debug, PartialEq, Eq, Structural)]
pub struct ArchDesc {
    pub gic_desc: GicDesc,
    pub smmu_desc: SmmuDesc,
}

/// The platform description.
pub struct PlatformConfig {
    pub cpu_desc: PlatCpuConfig,
    pub mem_desc: PlatMemoryConfig,
    pub arch_desc: ArchDesc,
}

/// The Raspberry Pi 4.
pub struct Platform;

impl Platform {
    /// The CPU-interface number of core `cpuid`.
    pub fn cpuid_to_cpuif(cpuid: usize) -> (r: usize)
        ensures
            r == cpuid,
    {
        cpuid
    }

    /// The core of CPU-interface number `cpuif`.
    pub fn cpuif_to_cpuid(cpuif: usize) -> (r: usize)
        ensures
            r == cpuif,
    {
        cpuif
    }

    /// The core number of an MPIDR value: its Aff0 field.
    pub fn mpidr2cpuid(mpidr: usize) -> (r: usize)
        ensures
            r == (mpidr as u64 & 0xff) as usize,
            r < 256,
    {
        let m = mpidr as u64;
        assert(m & 0xff < 256) by (bit_vector);
        (m & 0xff) as usize
    }

    /// Whether physical range `[pa, pa + len)` lies in the device window of
    /// the platform, `[0xfc00_0000, 0x1_0000_0000)`.
    pub fn in_device_region(pa: u64, len: u64) -> (r: bool)
        ensures
            r == (0xfc00_0000 <= pa && pa + len <= 0x1_0000_0000),
    {
        0xfc00_0000 <= pa && len <= 0x1_0000_0000 && pa <= 0x1_0000_0000 - len
    }
}

/// The CPU-interface number of core `cpuid`.
pub fn cpuid_to_cpuif(cpuid: usize) -> (r: usize)
    ensures
        r == cpuid,
{
    Platform::cpuid_to_cpuif(cpuid)
}

/// The core number of an MPIDR value: its Aff0 field.
pub fn mpidr2cpuid(mpidr: usize) -> (r: usize)
    ensures
        r == (mpidr as u64 & 0xff) as usize,
        r < 256,
{
    Platform::mpidr2cpuid(mpidr)
}

/// The Raspberry Pi 4: four round-robin cores, its DRAM ranges and its GIC.
pub fn plat_desc() -> (r: PlatformConfig)
    ensures
        r.cpu_desc.num == PLATFORM_CPU_NUM_MAX,
        r.cpu_desc.core_list@.len() == PLATFORM_CPU_NUM_MAX,
        forall|i: int| 0 <= i < 4 ==> r.cpu_desc.core_list@[i].mpidr == 0x80000000 + i,
        r.arch_desc.gic_desc.gicd_addr == GICD_BASE,
        r.arch_desc.gic_desc.gicc_addr == GICC_BASE,
        r.arch_desc.gic_desc.maintenance_int_id == GIC_MAINTENANCE_INT_ID,
        r.mem_desc.base == 0xf0000000,
        r.mem_desc.regions@.len() == 4,
{
    let mut core_list: Vec<PlatCpuCoreConfig> = Vec::new();
    let mut i: usize = 0;
    while i < PLATFORM_CPU_NUM_MAX
        invariant
            i <= PLATFORM_CPU_NUM_MAX,
            core_list@.len() == i,
            forall|k: int| 0 <= k < i ==> (#[trigger] core_list@[k]).mpidr == 0x80000000 + k,
        decreases PLATFORM_CPU_NUM_MAX - i,
    {
        core_list.push(PlatCpuCoreConfig { mpidr: 0x80000000 + i, sched: SchedRule::RoundRobin });
        i = i + 1;
    }
    let mut regions: Vec<PlatMemRange> = Vec::new();
    regions.push(PlatMemRange { start: 0xf0000000, end: 0xf0000000 + 0xc000000 });
    regions.push(PlatMemRange { start: 0x200000, end: 0x3e000000 });
    regions.push(PlatMemRange { start: 0x40000000, end: 0xf0000000 });
    regions.push(PlatMemRange { start: 0x100000000, end: 0x100000000 + 0x100000000 });
    PlatformConfig {
        cpu_desc: PlatCpuConfig { num: PLATFORM_CPU_NUM_MAX, core_list },
        mem_desc: PlatMemoryConfig { base: 0xf0000000, regions },
        arch_desc: ArchDesc {
            gic_desc: GicDesc {
                gicd_addr: GICD_BASE,
                gicc_addr: GICC_BASE,
                gich_addr: GICH_BASE,
                gicv_addr: GICV_BASE,
                maintenance_int_id: GIC_MAINTENANCE_INT_ID,
            },
            smmu_desc: SmmuDesc { base: 0, interrupt_id: 0, global_mask: 0 },
        },
    }
}

fn emu_dev(
    name: &str,
    base_ipa: usize,
    length: usize,
    irq_id: usize,
    cfg_list: Vec<usize>,
    emu_type: EmuDeviceType,
    mediated: bool,
) -> (r: VmEmulatedDeviceConfig)
    ensures
        r.name@ == name@,
        r.base_ipa == base_ipa,
        r.length == length,
        r.irq_id == irq_id,
        r.cfg_list@ == cfg_list@,
        r.emu_type == emu_type,
        r.mediated == mediated,
{
    VmEmulatedDeviceConfig {
        name: name.to_owned(),
        base_ipa,
        length,
        irq_id,
        cfg_list,
        emu_type,
        mediated,
    }
}

/// Whether `e` is a bare-metal guest on one core with 1 GiB at
/// 0x4000_0000, loaded at 0x4008_0000, with an emulated GIC distributor and
/// a mediated virtio-blk.
/// Whether `d` is an emulated device at `[base, base + length)` raising
/// `irq`, of kind `ty`, mediated or not.
pub open spec fn emu_dev_is(d: VmEmulatedDeviceConfig, base: usize, length: usize, irq: usize, ty: EmuDeviceType, mediated: bool) -> bool {
    d.base_ipa == base && d.length == length && d.irq_id == irq && d.emu_type == ty && d.mediated == mediated
}

/// Whether the emulated devices of `devs` occupy pairwise disjoint ranges.
pub open spec fn devs_disjoint(devs: Seq<VmEmulatedDeviceConfig>) -> bool {
    forall|i: int, j: int|
        0 <= i < devs.len() && 0 <= j < devs.len() && i != j ==> !crate::emu::ranges_overlap(
            #[trigger] devs[i].base_ipa,
            devs[i].length,
            #[trigger] devs[j].base_ipa,
            devs[j].length,
        )
}

pub open spec fn is_bma_config(e: VmConfigEntry, name: &str, core: usize, with_uart_irq: bool) -> bool {
    let devs = e.vm_emu_dev_confg.emu_dev_list@;
    &&& e.name@ == name@
    &&& e.os_type == VmType::VmTBma
    &&& e.cpu == (VmCpuConfig { num: 1, allocate_bitmap: (1usize << core) as usize, master: Some(core) })
    &&& e.memory.region@ == seq![VmRegion { ipa_start: 0x40000000, length: 0x40000000 }]
    &&& e.image.kernel_load_ipa == 0x40080000
    &&& e.image.kernel_entry_point == 0x40080000
    &&& devs.len() == 2
    &&& emu_dev_is(devs[0], 0x8000000, 0x1000, 0, EmuDeviceType::EmuDeviceTGicd, false)
    &&& emu_dev_is(devs[1], 0xa000000, 0x1000, 48, EmuDeviceType::EmuDeviceTVirtioBlk, true)
    &&& devs_disjoint(devs)
    &&& e.vm_pt_dev_confg.regions@ == seq![
        PassthroughRegion { ipa: 0x9000000, pa: UART_1_ADDR, length: 0x1000, dev_property: true },
        PassthroughRegion { ipa: 0x8010000, pa: GICV_BASE, length: 0x2000, dev_property: true },
    ]
    &&& e.vm_pt_dev_confg.irqs@ == (if with_uart_irq { seq![UART_1_INT] } else { Seq::<usize>::empty() })
    &&& e.mediated_block_index.is_none()
}

fn bma_config(name: &str, core: usize, with_uart_irq: bool) -> (r: VmConfigEntry)
    requires
        core == 1 || core == 2,
    ensures
        is_bma_config(r, name, core, with_uart_irq),
{
    let mut emu_dev_config: Vec<VmEmulatedDeviceConfig> = Vec::new();
    emu_dev_config.push(emu_dev("intc@8000000", 0x8000000, 0x1000, 0, Vec::new(), EmuDeviceType::EmuDeviceTGicd, false));
    emu_dev_config.push(emu_dev("virtio_blk@a000000", 0xa000000, 0x1000, 32 + 0x10, vec![0, 209715200], EmuDeviceType::EmuDeviceTVirtioBlk, true));
    let mut pt_dev_config = VmPassthroughDeviceConfig::empty();
    pt_dev_config.regions.push(PassthroughRegion { ipa: 0x9000000, pa: UART_1_ADDR, length: 0x1000, dev_property: true });
    pt_dev_config.regions.push(PassthroughRegion { ipa: 0x8010000, pa: GICV_BASE, length: 0x2000, dev_property: true });
    if with_uart_irq {
        pt_dev_config.irqs.push(UART_1_INT);
    }
    let mut vm_region: Vec<VmRegion> = Vec::new();
    vm_region.push(VmRegion { ipa_start: 0x40000000, length: 0x40000000 });
    let mut memory = VmMemoryConfig::default();
    memory.region = vm_region;
    let bitmap: usize = if core == 1 { 0b0010 } else { 0b0100 };
    assert((1usize << 1usize) == 2usize && (1usize << 2usize) == 4usize) by (bit_vector);
    let e = VmConfigEntry {
        id: 0,
        name: name.to_owned(),
        os_type: VmType::VmTBma,
        cmdline: "".to_owned(),
        image: VmImageConfig {
            kernel_img_name: None,
            kernel_load_ipa: 0x40080000,
            kernel_entry_point: 0x40080000,
            device_tree_load_ipa: 0,
            ramdisk_load_ipa: 0,
        },
        memory,
        cpu: VmCpuConfig { num: 1, allocate_bitmap: bitmap, master: Some(core) },
        vm_emu_dev_confg: VmEmulatedDeviceConfigList { emu_dev_list: emu_dev_config },
        vm_pt_dev_confg: pt_dev_config,
        vm_dtb_devs: VMDtbDevConfigList { dtb_device_list: Vec::new() },
        mediated_block_index: None,
    };
    assert(e.memory.region@ =~= seq![VmRegion { ipa_start: 0x40000000, length: 0x40000000 }]);
    assert(e.vm_pt_dev_confg.regions@ =~= seq![
        PassthroughRegion { ipa: 0x9000000, pa: UART_1_ADDR, length: 0x1000, dev_property: true },
        PassthroughRegion { ipa: 0x8010000, pa: GICV_BASE, length: 0x2000, dev_property: true },
    ]);
    assert(e.vm_pt_dev_confg.irqs@ =~= (if with_uart_irq { seq![UART_1_INT] } else { Seq::<usize>::empty() }));
    e
}

/// Adds the configuration of the first bare-metal guest (core 1).
pub fn init_tmp_config_for_bma1(table: &mut VmConfigTable) -> (r: Result<usize, ()>)
    requires
        table_wf(old(table).vm_bitmap@, old(table).entries@),
        old(table).entries@.len() > 0 ==> first_free_from(old(table).vm_bitmap@, 0) != Some(0usize),
    ensures
        table_wf(final(table).vm_bitmap@, final(table).entries@),
        r is Ok ==> final(table).entries@.len() == old(table).entries@.len() + 1 && is_bma_config(
            VmConfigEntry { id: 0, ..final(table).entries@.last() },
            "guest-bma-0",
            1,
            true,
        ),
        r is Err ==> final(table).entries@ == old(table).entries@,
        r == (match first_free_from(old(table).vm_bitmap@, 0) {
            Some(id) => Ok::<usize, ()>(id),
            None => Err(()),
        }),
        r matches Ok(id) ==> final(table).entries@.last().id == id,
{
    let e = bma_config("guest-bma-0", 1, true);
    vm_cfg_add_vm_entry(table, e)
}

/// Adds the configuration of the second bare-metal guest (core 2).
pub fn init_tmp_config_for_bma2(table: &mut VmConfigTable) -> (r: Result<usize, ()>)
    requires
        table_wf(old(table).vm_bitmap@, old(table).entries@),
        old(table).entries@.len() > 0 ==> first_free_from(old(table).vm_bitmap@, 0) != Some(0usize),
    ensures
        table_wf(final(table).vm_bitmap@, final(table).entries@),
        r is Ok ==> final(table).entries@.len() == old(table).entries@.len() + 1 && is_bma_config(
            VmConfigEntry { id: 0, ..final(table).entries@.last() },
            "guest-bma-1",
            2,
            false,
        ),
        r is Err ==> final(table).entries@ == old(table).entries@,
        r == (match first_free_from(old(table).vm_bitmap@, 0) {
            Some(id) => Ok::<usize, ()>(id),
            None => Err(()),
        }),
        r matches Ok(id) ==> final(table).entries@.last().id == id,
{
    let e = bma_config("guest-bma-1", 2, false);
    vm_cfg_add_vm_entry(table, e)
}

/// Whether `e` is a Linux guest on core `core` with 1 GiB at 0x8000_0000,
/// its kernel at 0x8008_0000 and device tree at 0x8000_0000, an emulated
/// GIC distributor, a mediated virtio-blk, a virtio-net, a virtio-console,
/// a device tree that shows the GIC at 0x800_0000/0x801_0000, and mediated
/// block `med_blk`.
pub open spec fn is_os_config(e: VmConfigEntry, name: &str, core: usize, med_blk: usize, console_ipa: usize) -> bool {
    let devs = e.vm_emu_dev_confg.emu_dev_list@;
    let dtbs = e.vm_dtb_devs.dtb_device_list@;
    &&& e.name@ == name@
    &&& e.os_type == VmType::VmTOs
    &&& e.cpu == (VmCpuConfig { num: 1, allocate_bitmap: (1usize << core) as usize, master: Some(core) })
    &&& e.memory.region@ == seq![VmRegion { ipa_start: 0x80000000, length: 0x40000000 }]
    &&& e.image.kernel_load_ipa == 0x80080000
    &&& e.image.kernel_entry_point == 0x80080000
    &&& e.image.device_tree_load_ipa == 0x80000000
    &&& devs.len() == 4
    &&& emu_dev_is(devs[0], 0x8000000, 0x1000, 0, EmuDeviceType::EmuDeviceTGicd, false)
    &&& emu_dev_is(devs[1], 0xa000000, 0x1000, 48, EmuDeviceType::EmuDeviceTVirtioBlk, true)
    &&& emu_dev_is(devs[2], 0xa001000, 0x1000, 49, EmuDeviceType::EmuDeviceTVirtioNet, false)
    &&& emu_dev_is(devs[3], console_ipa, 0x1000, 50, EmuDeviceType::EmuDeviceTVirtioConsole, false)
    &&& devs_disjoint(devs)
    &&& dtbs.len() == 2
    &&& dtbs[0].dev_type == DtbDevType::Gicd
    &&& dtbs[0].addr_region == (VmRegion { ipa_start: 0x8000000, length: 0x1000 })
    &&& dtbs[1].dev_type == DtbDevType::Gicc
    &&& dtbs[1].addr_region == (VmRegion { ipa_start: 0x8010000, length: 0x2000 })
    &&& e.vm_pt_dev_confg.regions@ == seq![PassthroughRegion { ipa: 0x8010000, pa: GICV_BASE, length: 0x2000, dev_property: true }]
    &&& e.vm_pt_dev_confg.irqs@ == seq![INTERRUPT_IRQ_GUEST_TIMER]
    &&& e.mediated_block_index == Some(med_blk)
}

fn os_config(name: &str, id: usize, core: usize, mac_low: usize, console_ipa: usize, med_blk: usize) -> (r: VmConfigEntry)
    requires
        core == 1 || core == 2,
        console_ipa == 0xa002000 || console_ipa == 0xa003000,
    ensures
        is_os_config(r, name, core, med_blk, console_ipa),
        r.id == id,
{
    let mut emu_dev_config: Vec<VmEmulatedDeviceConfig> = Vec::new();
    emu_dev_config.push(emu_dev("intc@8000000", 0x8000000, 0x1000, 0, Vec::new(), EmuDeviceType::EmuDeviceTGicd, false));
    emu_dev_config.push(emu_dev("virtio_blk@a000000", 0xa000000, 0x1000, 32 + 0x10, vec![0, 209715200], EmuDeviceType::EmuDeviceTVirtioBlk, true));
    emu_dev_config.push(emu_dev("virtio_net@a001000", 0xa001000, 0x1000, 32 + 0x11, vec![0x74, 0x56, 0xaa, 0x0f, 0x47, mac_low], EmuDeviceType::EmuDeviceTVirtioNet, false));
    let console_name = if console_ipa == 0xa002000 { "virtio_console@a002000" } else { "virtio_console@a003000" };
    emu_dev_config.push(emu_dev(console_name, console_ipa, 0x1000, 32 + 0x12, vec![0, console_ipa], EmuDeviceType::EmuDeviceTVirtioConsole, false));
    let mut pt_dev_config = VmPassthroughDeviceConfig::empty();
    pt_dev_config.regions.push(PassthroughRegion { ipa: 0x8010000, pa: GICV_BASE, length: 0x2000, dev_property: true });
    pt_dev_config.irqs.push(INTERRUPT_IRQ_GUEST_TIMER);
    let mut vm_region: Vec<VmRegion> = Vec::new();
    vm_region.push(VmRegion { ipa_start: 0x80000000, length: 0x40000000 });
    let mut vm_dtb_devs: Vec<VmDtbDevConfig> = Vec::new();
    vm_dtb_devs.push(VmDtbDevConfig {
        name: "gicd".to_owned(),
        dev_type: DtbDevType::Gicd,
        irqs: Vec::new(),
        addr_region: VmRegion { ipa_start: 0x8000000, length: 0x1000 },
    });
    vm_dtb_devs.push(VmDtbDevConfig {
        name: "gicc".to_owned(),
        dev_type: DtbDevType::Gicc,
        irqs: Vec::new(),
        addr_region: VmRegion { ipa_start: 0x8010000, length: 0x2000 },
    });
    let mut memory = VmMemoryConfig::default();
    memory.region = vm_region;
    let bitmap: usize = if core == 1 { 0b0010 } else { 0b0100 };
    assert((1usize << 1usize) == 2usize && (1usize << 2usize) == 4usize) by (bit_vector);
    let e = VmConfigEntry {
        id,
        name: name.to_owned(),
        os_type: VmType::VmTOs,
        cmdline: "earlycon console=hvc0,115200n8 root=/dev/vda rw audit=0".to_owned(),
        image: VmImageConfig {
            kernel_img_name: Some("Image_vanilla"),
            kernel_load_ipa: 0x80080000,
            kernel_entry_point: 0x80080000,
            device_tree_load_ipa: 0x80000000,
            ramdisk_load_ipa: 0,
        },
        memory,
        cpu: VmCpuConfig { num: 1, allocate_bitmap: bitmap, master: Some(core) },
        vm_emu_dev_confg: VmEmulatedDeviceConfigList { emu_dev_list: emu_dev_config },
        vm_pt_dev_confg: pt_dev_config,
        vm_dtb_devs: VMDtbDevConfigList { dtb_device_list: vm_dtb_devs },
        mediated_block_index: Some(med_blk),
    };
    assert(e.memory.region@ =~= seq![VmRegion { ipa_start: 0x80000000, length: 0x40000000 }]);
    assert(e.vm_pt_dev_confg.irqs@ =~= seq![INTERRUPT_IRQ_GUEST_TIMER]);
    assert(e.vm_pt_dev_confg.regions@ =~= seq![PassthroughRegion { ipa: 0x8010000, pa: GICV_BASE, length: 0x2000, dev_property: true }]);
    e
}

/// Adds the configuration of the first Linux guest (core 1).
pub fn init_tmp_config_for_vm1(table: &mut VmConfigTable) -> (r: Result<usize, ()>)
    requires
        table_wf(old(table).vm_bitmap@, old(table).entries@),
        old(table).entries@.len() > 0 ==> first_free_from(old(table).vm_bitmap@, 0) != Some(0usize),
    ensures
        table_wf(final(table).vm_bitmap@, final(table).entries@),
        r is Ok ==> final(table).entries@.len() == old(table).entries@.len() + 1 && is_os_config(
            final(table).entries@.last(),
            "guest-os-0",
            1,
            0,
            0xa002000,
        ),
        r is Err ==> final(table).entries@ == old(table).entries@,
        r == (match first_free_from(old(table).vm_bitmap@, 0) {
            Some(id) => Ok::<usize, ()>(id),
            None => Err(()),
        }),
        r matches Ok(id) ==> final(table).entries@.last().id == id,
{
    let e = os_config("guest-os-0", 1, 1, 0xd1, 0xa002000, 0);
    vm_cfg_add_vm_entry(table, e)
}

/// Adds the configuration of the second Linux guest (core 2).
pub fn init_tmp_config_for_vm2(table: &mut VmConfigTable) -> (r: Result<usize, ()>)
    requires
        table_wf(old(table).vm_bitmap@, old(table).entries@),
        old(table).entries@.len() > 0 ==> first_free_from(old(table).vm_bitmap@, 0) != Some(0usize),
    ensures
        table_wf(final(table).vm_bitmap@, final(table).entries@),
        r is Ok ==> final(table).entries@.len() == old(table).entries@.len() + 1 && is_os_config(
            final(table).entries@.last(),
            "guest-os-1",
            2,
            1,
            0xa003000,
        ),
        r is Err ==> final(table).entries@ == old(table).entries@,
        r == (match first_free_from(old(table).vm_bitmap@, 0) {
            Some(id) => Ok::<usize, ()>(id),
            None => Err(()),
        }),
        r matches Ok(id) ==> final(table).entries@.last().id == id,
{
    let e = os_config("guest-os-1", 2, 2, 0xd2, 0xa003000, 1);
    vm_cfg_add_vm_entry(table, e)
}

} // verus!
