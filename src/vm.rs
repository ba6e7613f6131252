//! Per-VM state: the VM interface table, the VM record with its vCPU list,
//! placement of vCPUs on physical cores, and the virtual-counter bookkeeping.
use vstd::prelude::*;

use crate::bits::{bit_of, lemma_set_bit, lemma_zero_bits, test_bit};
use crate::config::{VmConfigEntry, CONFIG_VM_NUM_MAX};
use crate::emu::EmuDevs;
use crate::vcpu::Vcpu;
use crate::pagetable::{mapped_spec, pt_wf, unmapped_spec, with_ap_spec, Stage2PageTable, PAGE_BYTES, PFN_LIMIT, PTE_S2_FIELD_AP_RO};

verus! {

/// Lifecycle state of a VM.
#[derive(Clone, Copy, PartialEq, Eq, Structural, Debug)]
pub enum VmState {
    Inv,
    Pending,
    Active,
}

/// Kind of guest: a full operating system or a bare-metal application.
#[derive(Clone, Copy, PartialEq, Eq, Structural, Debug)]
pub enum VmType {
    VmTOs,
    VmTBma,
}

impl VmType {
    pub open spec fn from_num_spec(value: usize) -> Option<VmType> {
        if value == 0 {
            Some(VmType::VmTOs)
        } else if value == 1 {
            Some(VmType::VmTBma)
        } else {
            None
        }
    }

    /// The guest kind encoded as `value` in the configuration ABI.
    pub fn from_num(value: usize) -> (r: Option<VmType>)
        ensures
            r == Self::from_num_spec(value),
    {
        if value == 0 {
            Some(VmType::VmTOs)
        } else if value == 1 {
            Some(VmType::VmTBma)
        } else {
            None
        }
    }
}

/// Number of interrupt ids a VM's interrupt bitmap covers.
pub const INTERRUPT_NUM_MAX: usize = 1024;

/// GICH/GICV control: the virtual CPU interface is enabled.
pub const GICC_CTLR_EN_BIT: u32 = 0x1;

/// GICH/GICV control: a guest's EOI only drops the running priority.
pub const GICC_CTLR_EOIMODENS_BIT: u32 = 0x200;

/// HCR_EL2 of a guest with an emulated distributor: VM, SWIO, FMO, IMO, TSC
/// and RW set.
pub const HCR_EL2_GIC_EMU_VAL: u64 = 0x80080019;

/// HCR_EL2 of a guest with a passed-through distributor: VM, TSC and RW set.
pub const HCR_EL2_GIC_PASSTHROUGH_VAL: u64 = 0x80080001;

/// Base IPA of the shared-memory window of a VM.
pub const SHARE_MEM_BASE: usize = 0x7000_0000;

/// What the hypervisor keeps about a VM outside the VM record itself: its
/// master core, state, kind, MAC address and inter-VM message area.
#[derive(Clone, Copy, Debug)]
pub struct VmInterface {
    pub master_cpu_id: Option<usize>,
    pub state: VmState,
    pub vm_type: VmType,
    pub mac: [u8; 6],
    pub ivc_arg: usize,
    pub ivc_arg_ptr: usize,
    pub mem_map_len: Option<usize>,
}

impl VmInterface {
    pub fn default() -> (r: Self)
        ensures
            r.master_cpu_id.is_none(),
            r.state == VmState::Pending,
            r.vm_type == VmType::VmTBma,
            forall|i: int| 0 <= i < 6 ==> r.mac@[i] == 0,
            r.ivc_arg == 0,
            r.ivc_arg_ptr == 0,
            r.mem_map_len.is_none(),
    {
        VmInterface {
            master_cpu_id: None,
            state: VmState::Pending,
            vm_type: VmType::VmTBma,
            mac: [0u8; 6],
            ivc_arg: 0,
            ivc_arg_ptr: 0,
            mem_map_len: None,
        }
    }

    /// Records the master core; only the first recording counts.
    pub fn set_master_cpu_once(&mut self, cpu_id: usize)
        ensures
            final(self).master_cpu_id == (match old(self).master_cpu_id {
                Some(m) => Some(m),
                None => Some(cpu_id),
            }),
            final(self).state == old(self).state,
            final(self).vm_type == old(self).vm_type,
            final(self).mac == old(self).mac,
            final(self).ivc_arg == old(self).ivc_arg,
            final(self).ivc_arg_ptr == old(self).ivc_arg_ptr,
            final(self).mem_map_len == old(self).mem_map_len,
    {
        if self.master_cpu_id.is_none() {
            self.master_cpu_id = Some(cpu_id);
        }
    }
}

/// The interfaces of all VMs, indexed by VM id.
pub struct VmIfList {
    pub ifs: Vec<VmInterface>,
}

impl VmIfList {
    pub fn new() -> (r: Self)
        ensures
            r.ifs@.len() == CONFIG_VM_NUM_MAX,
            forall|i: int| 0 <= i < CONFIG_VM_NUM_MAX ==> r.ifs@[i].master_cpu_id.is_none(),
    {
        let mut ifs: Vec<VmInterface> = Vec::new();
        let mut i: usize = 0;
        while i < CONFIG_VM_NUM_MAX
            invariant
                i <= CONFIG_VM_NUM_MAX,
                ifs@.len() == i,
                forall|k: int| 0 <= k < i ==> ifs@[k].master_cpu_id.is_none(),
            decreases CONFIG_VM_NUM_MAX - i,
        {
            ifs.push(VmInterface::default());
            i = i + 1;
        }
        VmIfList { ifs }
    }
}

/// `new` is `old` with only interface `vm_id` replaced by `v`.
pub open spec fn if_updated(old: Seq<VmInterface>, new: Seq<VmInterface>, vm_id: usize, v: VmInterface) -> bool {
    new == old.update(vm_id as int, v)
}

/// Returns the interface of VM `vm_id` to its initial state.
pub fn vm_if_reset(list: &mut VmIfList, vm_id: usize)
    requires
        vm_id < old(list).ifs@.len(),
    ensures
        final(list).ifs@.len() == old(list).ifs@.len(),
        forall|i: int| 0 <= i < old(list).ifs@.len() && i != vm_id ==> final(list).ifs@[i] == old(list).ifs@[i],
        final(list).ifs@[vm_id as int].master_cpu_id.is_none(),
        final(list).ifs@[vm_id as int].state == VmState::Pending,
        final(list).ifs@[vm_id as int].vm_type == VmType::VmTBma,
        forall|i: int| 0 <= i < 6 ==> final(list).ifs@[vm_id as int].mac@[i] == 0,
        final(list).ifs@[vm_id as int].ivc_arg == 0,
        final(list).ifs@[vm_id as int].ivc_arg_ptr == 0,
        final(list).ifs@[vm_id as int].mem_map_len.is_none(),
{
    list.ifs.set(vm_id, VmInterface::default());
}

pub fn vm_if_set_state(list: &mut VmIfList, vm_id: usize, vm_state: VmState)
    requires
        vm_id < old(list).ifs@.len(),
    ensures
        if_updated(old(list).ifs@, final(list).ifs@, vm_id, VmInterface { state: vm_state, ..old(list).ifs@[vm_id as int] }),
{
    let mut v = list.ifs[vm_id];
    v.state = vm_state;
    list.ifs.set(vm_id, v);
}

pub fn vm_if_get_state(list: &VmIfList, vm_id: usize) -> (r: VmState)
    requires
        vm_id < list.ifs@.len(),
    ensures
        r == list.ifs@[vm_id as int].state,
{
    list.ifs[vm_id].state
}

pub fn vm_if_set_type(list: &mut VmIfList, vm_id: usize, vm_type: VmType)
    requires
        vm_id < old(list).ifs@.len(),
    ensures
        if_updated(old(list).ifs@, final(list).ifs@, vm_id, VmInterface { vm_type, ..old(list).ifs@[vm_id as int] }),
{
    let mut v = list.ifs[vm_id];
    v.vm_type = vm_type;
    list.ifs.set(vm_id, v);
}

/// Records the master core of VM `vm_id`; only the first recording counts.
pub fn vm_if_set_cpu_id(list: &mut VmIfList, vm_id: usize, master_cpu_id: usize)
    requires
        vm_id < old(list).ifs@.len(),
    ensures
        if_updated(old(list).ifs@, final(list).ifs@, vm_id, VmInterface {
            master_cpu_id: match old(list).ifs@[vm_id as int].master_cpu_id {
                Some(m) => Some(m),
                None => Some(master_cpu_id),
            },
            ..old(list).ifs@[vm_id as int]
        }),
{
    let mut v = list.ifs[vm_id];
    v.set_master_cpu_once(master_cpu_id);
    list.ifs.set(vm_id, v);
}

pub fn vm_if_get_cpu_id(list: &VmIfList, vm_id: usize) -> (r: Option<usize>)
    requires
        vm_id < list.ifs@.len(),
    ensures
        r == list.ifs@[vm_id as int].master_cpu_id,
{
    list.ifs[vm_id].master_cpu_id
}

/// Whether `frame` is addressed to VM `vm_id`: its first six bytes are the
/// VM's MAC address.
pub fn vm_if_cmp_mac(list: &VmIfList, vm_id: usize, frame: &[u8]) -> (r: bool)
    requires
        vm_id < list.ifs@.len(),
        frame@.len() >= 6,
    ensures
        r == (forall|i: int| 0 <= i < 6 ==> list.ifs@[vm_id as int].mac@[i] == frame@[i]),
{
    let mac = list.ifs[vm_id].mac;
    let mut i: usize = 0;
    while i < 6
        invariant
            i <= 6,
            frame@.len() >= 6,
            mac == list.ifs@[vm_id as int].mac,
            forall|k: int| 0 <= k < i ==> mac@[k] == frame@[k],
        decreases 6 - i,
    {
        if mac[i] != frame[i] {
            return false;
        }
        i = i + 1;
    }
    true
}

pub fn vm_if_set_ivc_arg(list: &mut VmIfList, vm_id: usize, ivc_arg: usize)
    requires
        vm_id < old(list).ifs@.len(),
    ensures
        if_updated(old(list).ifs@, final(list).ifs@, vm_id, VmInterface { ivc_arg, ..old(list).ifs@[vm_id as int] }),
{
    let mut v = list.ifs[vm_id];
    v.ivc_arg = ivc_arg;
    list.ifs.set(vm_id, v);
}

pub fn vm_if_ivc_arg(list: &VmIfList, vm_id: usize) -> (r: usize)
    requires
        vm_id < list.ifs@.len(),
    ensures
        r == list.ifs@[vm_id as int].ivc_arg,
{
    list.ifs[vm_id].ivc_arg
}

pub fn vm_if_set_ivc_arg_ptr(list: &mut VmIfList, vm_id: usize, ivc_arg_ptr: usize)
    requires
        vm_id < old(list).ifs@.len(),
    ensures
        if_updated(old(list).ifs@, final(list).ifs@, vm_id, VmInterface { ivc_arg_ptr, ..old(list).ifs@[vm_id as int] }),
{
    let mut v = list.ifs[vm_id];
    v.ivc_arg_ptr = ivc_arg_ptr;
    list.ifs.set(vm_id, v);
}

pub fn vm_if_ivc_arg_ptr(list: &VmIfList, vm_id: usize) -> (r: usize)
    requires
        vm_id < list.ifs@.len(),
    ensures
        r == list.ifs@[vm_id as int].ivc_arg_ptr,
{
    list.ifs[vm_id].ivc_arg_ptr
}

/// Starts tracking dirty pages of VM `vm_id` over `len` pages.
pub fn vm_if_init_mem_map(list: &mut VmIfList, vm_id: usize, len: usize)
    requires
        vm_id < old(list).ifs@.len(),
    ensures
        if_updated(old(list).ifs@, final(list).ifs@, vm_id, VmInterface { mem_map_len: Some(len), ..old(list).ifs@[vm_id as int] }),
{
    let mut v = list.ifs[vm_id];
    v.mem_map_len = Some(len);
    list.ifs.set(vm_id, v);
}

/// The counter difference `now - base`, modulo 2^64.
pub open spec fn ticks(now: u64, base: u64) -> u64 {
    if now >= base {
        (now - base) as u64
    } else {
        (now + 0x1_0000_0000_0000_0000 - base) as u64
    }
}

/// A VM: its configuration, vCPUs, placement on physical cores, emulated
/// devices, routed interrupts and virtual-counter state.
pub struct Vm {
    pub id: usize,
    pub ready: bool,
    pub config: Option<VmConfigEntry>,
    pub vcpu_list: Vec<Vcpu>,
    pub cpu_num: usize,
    pub ncpu: u64,
    pub intc_dev_id: usize,
    pub int_bitmap: Vec<bool>,
    pub share_mem_base: usize,
    pub iommu_ctx_id: Option<usize>,
    pub emu_devs: Vec<EmuDevs>,
    pub running: usize,
    pub vtimer_offset: u64,
    pub vtimer: u64,
    pub pt: Option<Stage2PageTable>,
}

impl Vm {
    /// A VM without configuration, vCPUs or devices; its virtual counter
    /// starts at zero at physical count `counter_now`.
    pub fn new(id: usize, counter_now: u64) -> (r: Vm)
        ensures
            r.id == id,
            !r.ready,
            r.config.is_none(),
            r.vcpu_list@.len() == 0,
            r.cpu_num == 0,
            r.ncpu == 0,
            r.intc_dev_id == 0,
            r.int_bitmap@ == Seq::new(INTERRUPT_NUM_MAX as nat, |i: int| false),
            r.share_mem_base == SHARE_MEM_BASE,
            r.iommu_ctx_id.is_none(),
            r.emu_devs@.len() == 0,
            r.running == 0,
            r.vtimer_offset == counter_now,
            r.vtimer == 0,
            r.pt.is_none(),
    {
        let mut bm: Vec<bool> = Vec::new();
        let mut i: usize = 0;
        while i < INTERRUPT_NUM_MAX
            invariant
                i <= INTERRUPT_NUM_MAX,
                bm@ == Seq::new(i as nat, |k: int| false),
            decreases INTERRUPT_NUM_MAX - i,
        {
            bm.push(false);
            i = i + 1;
        }
        Vm {
            id,
            ready: false,
            config: None,
            vcpu_list: Vec::new(),
            cpu_num: 0,
            ncpu: 0,
            intc_dev_id: 0,
            int_bitmap: bm,
            share_mem_base: SHARE_MEM_BASE,
            iommu_ctx_id: None,
            emu_devs: Vec::new(),
            running: 0,
            vtimer_offset: counter_now,
            vtimer: 0,
            pt: None,
        }
    }

    pub fn id(&self) -> (r: usize)
        ensures
            r == self.id,
    {
        self.id
    }

    pub fn cpu_num(&self) -> (r: usize)
        ensures
            r == self.cpu_num,
    {
        self.cpu_num
    }

    pub fn ncpu(&self) -> (r: u64)
        ensures
            r == self.ncpu,
    {
        self.ncpu
    }

    pub fn ready(&self) -> (r: bool)
        ensures
            r == self.ready,
    {
        self.ready
    }

    pub fn set_ready(&mut self, ready: bool)
        ensures
            final(self).ready == ready,
            final(self).id == old(self).id,
    {
        self.ready = ready;
    }

    pub fn set_iommu_ctx_id(&mut self, id: usize)
        ensures
            final(self).iommu_ctx_id == Some(id),
            final(self).id == old(self).id,
    {
        self.iommu_ctx_id = Some(id);
    }

    pub fn iommu_ctx_id(&self) -> (r: usize)
        requires
            self.iommu_ctx_id.is_some(),
        ensures
            Some(r) == self.iommu_ctx_id,
    {
        match self.iommu_ctx_id {
            Some(id) => id,
            None => 0,
        }
    }

    pub fn config(&self) -> (r: &VmConfigEntry)
        requires
            self.config.is_some(),
        ensures
            Some(*r) == self.config,
    {
        self.config.as_ref().unwrap()
    }

    /// Index of the VM's mediated block.
    pub fn med_blk_id(&self) -> (r: usize)
        requires
            self.config matches Some(c) && c.mediated_block_index.is_some(),
        ensures
            Some(r) == self.config->0.mediated_block_index,
    {
        match &self.config {
            Some(c) => match c.mediated_block_index {
                Some(idx) => idx,
                None => 0,
            },
            None => 0,
        }
    }

    pub fn set_config_entry(&mut self, config: Option<VmConfigEntry>)
        ensures
            final(self).config == config,
            final(self).id == old(self).id,
            final(self).vcpu_list == old(self).vcpu_list,
            final(self).cpu_num == old(self).cpu_num,
            final(self).pt.is_none() == old(self).pt.is_none(),
    {
        self.config = config;
    }

    pub fn vcpu(&self, index: usize) -> (r: Option<&Vcpu>)
        ensures
            match r {
                Some(v) => index < self.vcpu_list@.len() && *v == self.vcpu_list@[index as int],
                None => index >= self.vcpu_list@.len(),
            },
    {
        if index < self.vcpu_list.len() {
            Some(&self.vcpu_list[index])
        } else {
            None
        }
    }

    /// Adds `vcpu` at the position its id names, or at the end when the list
    /// is shorter than that.
    pub fn push_vcpu(&mut self, vcpu: Vcpu)
        requires
            old(self).vcpu_list@.len() < usize::MAX,
        ensures
            final(self).vcpu_list@ == (if vcpu.id >= old(self).vcpu_list@.len() {
                old(self).vcpu_list@.push(vcpu)
            } else {
                old(self).vcpu_list@.insert(vcpu.id as int, vcpu)
            }),
            final(self).id == old(self).id,
            final(self).cpu_num == old(self).cpu_num,
    {
        if vcpu.id >= self.vcpu_list.len() {
            self.vcpu_list.push(vcpu);
        } else {
            let i = vcpu.id;
            self.vcpu_list.insert(i, vcpu);
        }
    }

    pub fn intc_dev_id(&self) -> (r: usize)
        ensures
            r == self.intc_dev_id,
    {
        self.intc_dev_id
    }

    pub fn set_intc_dev_id(&mut self, intc_dev_id: usize)
        ensures
            final(self).intc_dev_id == intc_dev_id,
            final(self).emu_devs == old(self).emu_devs,
            final(self).id == old(self).id,
    {
        self.intc_dev_id = intc_dev_id;
    }

    /// Routes interrupt `int_id` to this VM.
    pub fn set_int_bit_map(&mut self, int_id: usize)
        requires
            int_id < old(self).int_bitmap@.len(),
        ensures
            final(self).int_bitmap@ == old(self).int_bitmap@.update(int_id as int, true),
            final(self).id == old(self).id,
    {
        self.int_bitmap.set(int_id, true);
    }

    /// Whether interrupt `int_id` is routed to this VM.
    pub fn has_interrupt(&self, int_id: usize) -> (r: bool)
        ensures
            r == (int_id < self.int_bitmap@.len() && self.int_bitmap@[int_id as int]),
    {
        int_id < self.int_bitmap.len() && self.int_bitmap[int_id]
    }

    /// Whether one of the VM's emulated devices raises interrupt `int_id`.
    pub fn emu_has_interrupt(&self, int_id: usize) -> (r: bool)
        requires
            self.config.is_some(),
        ensures
            r == exists|i: int|
                0 <= i < self.config->0.vm_emu_dev_confg.emu_dev_list@.len()
                    && self.config->0.vm_emu_dev_confg.emu_dev_list@[i].irq_id == int_id,
    {
        let devs = self.config().emulated_device_list();
        let mut i: usize = 0;
        while i < devs.len()
            invariant
                i <= devs@.len(),
                devs@ == self.config->0.vm_emu_dev_confg.emu_dev_list@,
                forall|k: int| 0 <= k < i ==> devs@[k].irq_id != int_id,
            decreases devs@.len() - i,
        {
            if devs[i].irq_id == int_id {
                return true;
            }
            i = i + 1;
        }
        false
    }

    /// Places `emu` in device slot `idx`, padding the slots before it with
    /// empty ones.
    pub fn set_emu_devs(&mut self, idx: usize, emu: EmuDevs)
        requires
            idx < old(self).emu_devs@.len() ==> old(self).emu_devs@[idx as int] == EmuDevs::Empty,
        ensures
            idx < old(self).emu_devs@.len() ==> final(self).emu_devs@ == old(self).emu_devs@.update(idx as int, emu),
            idx >= old(self).emu_devs@.len() ==> {
                &&& final(self).emu_devs@.len() == idx + 1
                &&& final(self).emu_devs@[idx as int] == emu
                &&& forall|k: int| 0 <= k < old(self).emu_devs@.len() ==> final(self).emu_devs@[k] == old(self).emu_devs@[k]
                &&& forall|k: int| old(self).emu_devs@.len() <= k < idx ==> final(self).emu_devs@[k] == EmuDevs::Empty
            },
            final(self).id == old(self).id,
            final(self).intc_dev_id == old(self).intc_dev_id,
    {
        if idx < self.emu_devs.len() {
            self.emu_devs.set(idx, emu);
            return;
        }
        let ghost n0 = self.emu_devs@.len();
        while idx > self.emu_devs.len()
            invariant
                n0 <= self.emu_devs@.len() <= idx,
                n0 == old(self).emu_devs@.len(),
                forall|k: int| 0 <= k < n0 ==> self.emu_devs@[k] == old(self).emu_devs@[k],
                forall|k: int| n0 <= k < self.emu_devs@.len() ==> self.emu_devs@[k] == EmuDevs::Empty,
                self.id == old(self).id,
                self.intc_dev_id == old(self).intc_dev_id,
            decreases idx - self.emu_devs@.len(),
        {
            self.emu_devs.push(EmuDevs::Empty);
        }
        self.emu_devs.push(emu);
    }

    /// Whether the VM's interrupt-controller slot holds the virtual GIC.
    pub fn has_vgic(&self) -> (r: bool)
        ensures
            r == (self.intc_dev_id < self.emu_devs@.len() && self.emu_devs@[self.intc_dev_id as int] == EmuDevs::Vgic),
    {
        if self.intc_dev_id >= self.emu_devs.len() {
            return false;
        }
        self.emu_devs[self.intc_dev_id] == EmuDevs::Vgic
    }

    pub fn emu_dev(&self, dev_id: usize) -> (r: EmuDevs)
        requires
            dev_id < self.emu_devs@.len(),
        ensures
            r == self.emu_devs@[dev_id as int],
    {
        self.emu_devs[dev_id]
    }

    /// The `id`-th virtio-net device of the VM, counting from 0.
    pub fn emu_net_dev(&self, id: usize) -> (r: EmuDevs)
        ensures
            r == EmuDevs::VirtioNet || r == EmuDevs::Empty,
            r == EmuDevs::VirtioNet <==> count_of(self.emu_devs@, EmuDevs::VirtioNet) > id,
    {
        let mut dev_num: usize = 0;
        let mut i: usize = 0;
        while i < self.emu_devs.len()
            invariant
                i <= self.emu_devs@.len(),
                dev_num == count_of(self.emu_devs@.take(i as int), EmuDevs::VirtioNet),
                dev_num <= id,
            decreases self.emu_devs@.len() - i,
        {
            proof {
                lemma_count_of_take_step(self.emu_devs@, EmuDevs::VirtioNet, i as int);
            }
            if self.emu_devs[i] == EmuDevs::VirtioNet {
                if dev_num == id {
                    proof {
                        lemma_count_of_prefix_le(self.emu_devs@, EmuDevs::VirtioNet, i as int + 1);
                    }
                    return EmuDevs::VirtioNet;
                }
                dev_num = dev_num + 1;
            }
            i = i + 1;
        }
        proof {
            assert(self.emu_devs@.take(i as int) =~= self.emu_devs@);
        }
        EmuDevs::Empty
    }

    /// The VM's virtio-blk device, if it has one.
    pub fn emu_blk_dev(&self) -> (r: EmuDevs)
        ensures
            r == EmuDevs::VirtioBlk || r == EmuDevs::Empty,
            r == EmuDevs::VirtioBlk <==> exists|i: int| 0 <= i < self.emu_devs@.len() && self.emu_devs@[i] == EmuDevs::VirtioBlk,
    {
        let mut i: usize = 0;
        while i < self.emu_devs.len()
            invariant
                i <= self.emu_devs@.len(),
                forall|k: int| 0 <= k < i ==> self.emu_devs@[k] != EmuDevs::VirtioBlk,
            decreases self.emu_devs@.len() - i,
        {
            if self.emu_devs[i] == EmuDevs::VirtioBlk {
                return EmuDevs::VirtioBlk;
            }
            i = i + 1;
        }
        EmuDevs::Empty
    }

    /// The device in the slot of the first configured emulated device at
    /// `ipa`.
    pub fn emu_console_dev(&self, ipa: usize) -> (r: EmuDevs)
        requires
            self.config.is_some(),
        ensures
            (exists|i: int|
                #[trigger] first_dev_at(self.config->0.vm_emu_dev_confg.emu_dev_list@, ipa, i)
                && r == (if i < self.emu_devs@.len() { self.emu_devs@[i] } else { EmuDevs::Empty }))
            || (r == EmuDevs::Empty && forall|k: int| 0 <= k < self.config->0.vm_emu_dev_confg.emu_dev_list@.len() ==> self.config->0.vm_emu_dev_confg.emu_dev_list@[k].base_ipa != ipa),
    {
        let devs = self.config().emulated_device_list();
        let mut i: usize = 0;
        while i < devs.len()
            invariant
                i <= devs@.len(),
                devs@ == self.config->0.vm_emu_dev_confg.emu_dev_list@,
                forall|k: int| 0 <= k < i ==> devs@[k].base_ipa != ipa,
            decreases devs@.len() - i,
        {
            if devs[i].base_ipa == ipa {
                assert(first_dev_at(devs@, ipa, i as int));
                if i < self.emu_devs.len() {
                    return self.emu_devs[i];
                }
                return EmuDevs::Empty;
            }
            i = i + 1;
        }
        EmuDevs::Empty
    }

    pub fn share_mem_base(&self) -> (r: usize)
        ensures
            r == self.share_mem_base,
    {
        self.share_mem_base
    }

    pub fn add_share_mem_base(&mut self, len: usize)
        requires
            old(self).share_mem_base + len <= usize::MAX,
        ensures
            final(self).share_mem_base == old(self).share_mem_base + len,
            final(self).id == old(self).id,
    {
        self.share_mem_base = self.share_mem_base + len;
    }

    /// The physical core running vCPU `vcpuid`; fails for a vCPU not placed.
    pub fn vcpuid_to_pcpuid(&self, vcpuid: usize) -> (r: Result<usize, ()>)
        ensures
            r == (if vcpuid < self.cpu_num && vcpuid < self.vcpu_list@.len() {
                Ok::<usize, ()>(self.vcpu_list@[vcpuid as int].phys_id)
            } else {
                Err(())
            }),
    {
        if vcpuid < self.cpu_num && vcpuid < self.vcpu_list.len() {
            Ok(self.vcpu_list[vcpuid].phys_id)
        } else {
            Err(())
        }
    }

    /// The first placed vCPU running on physical core `pcpuid`.
    pub fn pcpuid_to_vcpuid(&self, pcpuid: usize) -> (r: Result<usize, ()>)
        ensures
            match r {
                Ok(v) => placed_on(self, v as int, pcpuid) && forall|k: int| 0 <= k < v ==> !placed_on(self, k, pcpuid),
                Err(_) => forall|k: int| 0 <= k < self.cpu_num ==> !placed_on(self, k, pcpuid),
            },
    {
        let mut v: usize = 0;
        while v < self.cpu_num
            invariant
                v <= self.cpu_num,
                forall|k: int| 0 <= k < v ==> !placed_on(self, k, pcpuid),
            decreases self.cpu_num - v,
        {
            if v < self.vcpu_list.len() && self.vcpu_list[v].phys_id == pcpuid {
                return Ok(v);
            }
            v = v + 1;
        }
        Err(())
    }

    /// The physical-core mask of the vCPUs in `mask` (bits below `len`):
    /// bit `p` is set when a placed vCPU of the mask runs on core `p`.
    pub fn vcpu_to_pcpu_mask(&self, mask: usize, len: usize) -> (r: u64)
        requires
            len <= 64,
            forall|k: int| 0 <= k < self.cpu_num && k < self.vcpu_list@.len() ==> self.vcpu_list@[k].phys_id < 64,
        ensures
            forall|p: int| 0 <= p < 64 ==> (#[trigger] bit_of(r, p) <==> exists|i: int| 0 <= i < len && #[trigger] bit_of(mask as u64, i) && placed_on(self, i, p as usize)),
    {
        let mut pmask: u64 = 0;
        let mut i: usize = 0;
        proof {
            assert forall|p: int| 0 <= p < 64 implies !#[trigger] bit_of(pmask, p) by {
                lemma_zero_bits(p as u64);
            }
        }
        while i < len
            invariant
                i <= len <= 64,
                forall|k: int| 0 <= k < self.cpu_num && k < self.vcpu_list@.len() ==> self.vcpu_list@[k].phys_id < 64,
                forall|p: int| 0 <= p < 64 ==> (#[trigger] bit_of(pmask, p) <==> exists|j: int| 0 <= j < i && #[trigger] bit_of(mask as u64, j) && placed_on(self, j, p as usize)),
            decreases len - i,
        {
            let shift = self.vcpuid_to_pcpuid(i);
            let ghost old_mask = pmask;
            if ((mask as u64) >> (i as u64)) & 1 == 1 {
                if let Ok(shift) = shift {
                    pmask = pmask | (1u64 << (shift as u64));
                    proof {
                        assert forall|p: int| 0 <= p < 64 implies (#[trigger] bit_of(pmask, p) <==> exists|j: int| 0 <= j < i + 1 && #[trigger] bit_of(mask as u64, j) && placed_on(self, j, p as usize)) by {
                            lemma_set_bit(old_mask, shift as u64, p as u64);
                            assert(bit_of(mask as u64, i as int));
                            assert(placed_on(self, i as int, shift));
                            assert(bit_of(pmask, p) <==> (bit_of(old_mask, p) || p == shift as int));
                            assert(bit_of(old_mask, p) <==> exists|j: int| 0 <= j < i && #[trigger] bit_of(mask as u64, j) && placed_on(self, j, p as usize));
                            if p == shift as int {
                                assert(placed_on(self, i as int, p as usize));
                            }
                            if exists|j: int| 0 <= j < i + 1 && #[trigger] bit_of(mask as u64, j) && placed_on(self, j, p as usize) {
                                let j = choose|j: int| 0 <= j < i + 1 && #[trigger] bit_of(mask as u64, j) && placed_on(self, j, p as usize);
                                if j < i {
                                } else {
                                    assert(p == shift as int);
                                }
                            }
                        }
                    }
                } else {
                    proof {
                        assert forall|p: int| 0 <= p < 64 implies (#[trigger] bit_of(pmask, p) <==> exists|j: int| 0 <= j < i + 1 && #[trigger] bit_of(mask as u64, j) && placed_on(self, j, p as usize)) by {
                            if exists|j: int| 0 <= j < i + 1 && #[trigger] bit_of(mask as u64, j) && placed_on(self, j, p as usize) {
                                let j = choose|j: int| 0 <= j < i + 1 && #[trigger] bit_of(mask as u64, j) && placed_on(self, j, p as usize);
                                assert(j != i as int);
                            }
                        }
                    }
                }
            } else {
                proof {
                    assert forall|p: int| 0 <= p < 64 implies (#[trigger] bit_of(pmask, p) <==> exists|j: int| 0 <= j < i + 1 && #[trigger] bit_of(mask as u64, j) && placed_on(self, j, p as usize)) by {
                        if exists|j: int| 0 <= j < i + 1 && #[trigger] bit_of(mask as u64, j) && placed_on(self, j, p as usize) {
                            let j = choose|j: int| 0 <= j < i + 1 && #[trigger] bit_of(mask as u64, j) && placed_on(self, j, p as usize);
                            assert(j != i as int);
                        }
                    }
                }
            }
            i = i + 1;
        }
        pmask
    }

    /// Picks the vCPU that physical core `cpu_id` will run, when the core is
    /// one of the VM's and not all its vCPUs are placed yet. The master vCPU
    /// (index 0) goes to the configured master core, or to the last core
    /// when no master core shows up; the others are handed out from the
    /// highest index down. `vm_if` records the core of the master vCPU.
    pub fn select_vcpu2assign(&mut self, cpu_id: usize, vm_if: &mut VmInterface) -> (r: Option<usize>)
        requires
            old(self).config.is_some(),
            cpu_id < 64,
        ensures
            ({
                let cfg = old(self).config->0.cpu;
                let t = assign_target(cfg.master, cfg.num, old(self).cpu_num, old(vm_if).master_cpu_id.is_some(), cpu_id);
                if bit_of(cfg.allocate_bitmap as u64, cpu_id as int) && old(self).cpu_num < cfg.num && 0 <= t < old(self).vcpu_list@.len() {
                    &&& r == Some(t as usize)
                    &&& final(self).cpu_num == old(self).cpu_num + 1
                    &&& final(self).ncpu == old(self).ncpu | (1u64 << (cpu_id as u64))
                    &&& final(vm_if).master_cpu_id == (if old(self).vcpu_list@[t].id == 0 && old(vm_if).master_cpu_id.is_none() {
                        Some(cpu_id)
                    } else {
                        old(vm_if).master_cpu_id
                    })
                } else {
                    &&& r.is_none()
                    &&& final(self).cpu_num == old(self).cpu_num
                    &&& final(self).ncpu == old(self).ncpu
                    &&& final(vm_if).master_cpu_id == old(vm_if).master_cpu_id
                }
            }),
            final(self).vcpu_list == old(self).vcpu_list,
            final(self).config == old(self).config,
            final(self).id == old(self).id,
            final(vm_if).state == old(vm_if).state,
    {
        let cfg = self.config().cpu;
        let has_master = vm_if.master_cpu_id.is_some();
        if test_bit(cfg.allocate_bitmap, cpu_id) && self.cpu_num < cfg.num {
            let trgt_id: usize = if cfg.master == Some(cpu_id) || (!has_master && self.cpu_num == cfg.num - 1) {
                0
            } else if has_master {
                cfg.num - self.cpu_num
            } else {
                cfg.num - self.cpu_num - 1
            };
            if trgt_id < self.vcpu_list.len() {
                if self.vcpu_list[trgt_id].id == 0 {
                    vm_if.set_master_cpu_once(cpu_id);
                }
                self.cpu_num = self.cpu_num + 1;
                self.ncpu = self.ncpu | (1u64 << (cpu_id as u64));
                return Some(trgt_id);
            }
        }
        None
    }

    /// Puts every vCPU in the interrupt mode of the VM: with an emulated
    /// distributor the guest's EOI only drops priority and HCR_EL2 routes
    /// IRQs and FIQs to the hypervisor; with a partially passed-through one
    /// the guest deactivates interrupts itself.
    pub fn init_intc_mode(&mut self, emu: bool)
        ensures
            final(self).vcpu_list@.len() == old(self).vcpu_list@.len(),
            forall|i: int| 0 <= i < old(self).vcpu_list@.len() ==> {
                let v = #[trigger] final(self).vcpu_list@[i];
                let w = old(self).vcpu_list@[i];
                &&& v.gich_ctlr == (if emu { GICC_CTLR_EN_BIT | GICC_CTLR_EOIMODENS_BIT } else { GICC_CTLR_EN_BIT })
                &&& v.vm_context.hcr_el2 == (if emu { HCR_EL2_GIC_EMU_VAL } else { HCR_EL2_GIC_PASSTHROUGH_VAL })
                &&& v.id == w.id && v.vm_id == w.vm_id && v.phys_id == w.phys_id && v.state == w.state
            },
            final(self).id == old(self).id,
            final(self).cpu_num == old(self).cpu_num,
            final(self).config == old(self).config,
    {
        let mut i: usize = 0;
        while i < self.vcpu_list.len()
            invariant
                i <= self.vcpu_list@.len(),
                self.vcpu_list@.len() == old(self).vcpu_list@.len(),
                self.id == old(self).id,
                self.cpu_num == old(self).cpu_num,
                self.config == old(self).config,
                forall|k: int| i <= k < self.vcpu_list@.len() ==> #[trigger] self.vcpu_list@[k] == old(self).vcpu_list@[k],
                forall|k: int| 0 <= k < i ==> {
                    let v = #[trigger] self.vcpu_list@[k];
                    let w = old(self).vcpu_list@[k];
                    &&& v.gich_ctlr == (if emu { GICC_CTLR_EN_BIT | GICC_CTLR_EOIMODENS_BIT } else { GICC_CTLR_EN_BIT })
                    &&& v.vm_context.hcr_el2 == (if emu { HCR_EL2_GIC_EMU_VAL } else { HCR_EL2_GIC_PASSTHROUGH_VAL })
                    &&& v.id == w.id && v.vm_id == w.vm_id && v.phys_id == w.phys_id && v.state == w.state
                },
            decreases old(self).vcpu_list@.len() - i,
        {
            let mut v = self.vcpu_list[i];
            if emu {
                v.gich_ctlr = GICC_CTLR_EN_BIT | GICC_CTLR_EOIMODENS_BIT;
                v.vm_context.hcr_el2 = HCR_EL2_GIC_EMU_VAL;
            } else {
                v.gich_ctlr = GICC_CTLR_EN_BIT;
                v.vm_context.hcr_el2 = HCR_EL2_GIC_PASSTHROUGH_VAL;
            }
            self.vcpu_list.set(i, v);
            i = i + 1;
        }
    }

    /// Gives the VM its stage-2 table.
    pub fn set_pt(&mut self, pt: Stage2PageTable)
        requires
            pt_wf(pt.entries@),
        ensures
            final(self).pt matches Some(p) && p.entries@ == pt.entries@,
            final(self).config == old(self).config,
            final(self).id == old(self).id,
    {
        self.pt = Some(pt);
    }

    /// Maps the VM's range `[ipa, ipa + len)` to `[pa, pa + len)`.
    pub fn pt_map_range(&mut self, ipa: u64, len: u64, pa: u64, device: bool)
        requires
            old(self).pt matches Some(p) && pt_wf(p.entries@),
            ipa % PAGE_BYTES == 0,
            pa % PAGE_BYTES == 0,
            len % PAGE_BYTES == 0,
            ipa + len <= u64::MAX,
            pa + len < PFN_LIMIT * PAGE_BYTES,
        ensures
            final(self).pt matches Some(p) && p.entries@ == mapped_spec(
                old(self).pt->0.entries@,
                ipa / PAGE_BYTES,
                len / PAGE_BYTES,
                pa / PAGE_BYTES,
                device,
            ) && pt_wf(p.entries@),
            final(self).config == old(self).config,
            final(self).id == old(self).id,
    {
        if let Some(pt) = &mut self.pt {
            pt.pt_map_range(ipa, len, pa, device);
        }
    }

    /// Unmaps the VM's range `[ipa, ipa + len)`.
    pub fn pt_unmap_range(&mut self, ipa: u64, len: u64)
        requires
            old(self).pt matches Some(p) && pt_wf(p.entries@),
            ipa % PAGE_BYTES == 0,
            len % PAGE_BYTES == 0,
            ipa + len <= u64::MAX,
        ensures
            final(self).pt matches Some(p) && p.entries@ == unmapped_spec(
                old(self).pt->0.entries@,
                ipa / PAGE_BYTES,
                len / PAGE_BYTES,
            ) && pt_wf(p.entries@),
            final(self).config == old(self).config,
            final(self).id == old(self).id,
    {
        if let Some(pt) = &mut self.pt {
            pt.pt_unmap_range(ipa, len);
        }
    }

    /// Sets access permission `ap` on the page of `ipa`.
    pub fn pt_set_access_permission(&mut self, ipa: u64, ap: u8)
        requires
            old(self).pt matches Some(p) && pt_wf(p.entries@),
            ipa % PAGE_BYTES == 0,
            ipa + PAGE_BYTES <= u64::MAX,
        ensures
            final(self).pt matches Some(p) && p.entries@ == with_ap_spec(
                old(self).pt->0.entries@,
                ipa / PAGE_BYTES,
                1,
                ap,
            ) && pt_wf(p.entries@),
            final(self).config == old(self).config,
            final(self).id == old(self).id,
    {
        if let Some(pt) = &mut self.pt {
            pt.access_permission(ipa, PAGE_BYTES, ap);
        }
    }

    /// The physical address `ipa` of this VM translates to.
    pub fn ipa2pa(&self, ipa: u64) -> (r: Option<u64>)
        requires
            self.pt matches Some(p) && pt_wf(p.entries@),
        ensures
            r == (if self.pt->0.entries@.dom().contains(ipa / PAGE_BYTES) {
                Some((self.pt->0.entries@[ipa / PAGE_BYTES].pfn * PAGE_BYTES + ipa % PAGE_BYTES) as u64)
            } else {
                None
            }),
    {
        match &self.pt {
            Some(pt) => pt.ipa2pa(ipa),
            None => None,
        }
    }

    /// Makes every configured memory region of the VM read-only, leaving
    /// each page's frame as it was.
    pub fn pt_read_only(&mut self)
        requires
            old(self).pt matches Some(p) && pt_wf(p.entries@),
            old(self).config is Some,
            forall|i: int| 0 <= i < old(self).config->0.memory.region@.len() ==> {
                let r = #[trigger] old(self).config->0.memory.region@[i];
                r.ipa_start % 4096 == 0 && r.length % 4096 == 0 && r.ipa_start + r.length <= u64::MAX
            },
        ensures
            final(self).pt matches Some(p) && pt_wf(p.entries@) && p.entries@.dom() == old(self).pt->0.entries@.dom(),
            forall|k: u64| #[trigger] old(self).pt->0.entries@.dom().contains(k) ==> final(self).pt->0.entries@[k].pfn
                == old(self).pt->0.entries@[k].pfn,
            final(self).config == old(self).config,
            final(self).id == old(self).id,
    {
        let n = match &self.config {
            Some(c) => c.memory.region.len(),
            None => 0,
        };
        let mut i: usize = 0;
        while i < n
            invariant
                i <= n,
                self.config == old(self).config,
                self.id == old(self).id,
                old(self).config matches Some(c) && n == c.memory.region@.len(),
                forall|j: int| 0 <= j < old(self).config->0.memory.region@.len() ==> {
                    let r = #[trigger] old(self).config->0.memory.region@[j];
                    r.ipa_start % 4096 == 0 && r.length % 4096 == 0 && r.ipa_start + r.length <= u64::MAX
                },
                self.pt matches Some(p) && pt_wf(p.entries@) && p.entries@.dom() == old(self).pt->0.entries@.dom(),
                forall|k: u64| #[trigger] old(self).pt->0.entries@.dom().contains(k) ==> self.pt->0.entries@[k].pfn
                    == old(self).pt->0.entries@[k].pfn,
            decreases n - i,
        {
            let region = match &self.config {
                Some(c) => c.memory.region[i],
                None => crate::config::VmRegion { ipa_start: 0, length: 0 },
            };
            let ghost before = self.pt->0.entries@;
            if let Some(pt) = &mut self.pt {
                pt.access_permission(region.ipa_start as u64, region.length as u64, PTE_S2_FIELD_AP_RO);
            }
            proof {
                assert(self.pt->0.entries@.dom() =~= before.dom());
            }
            i = i + 1;
        }
    }

    /// The vCPU mask of the physical cores in `mask` (bits below `len`):
    /// bit `v` is set when vCPU `v` is the first placed vCPU on a core of the
    /// mask.
    pub fn pcpu_to_vcpu_mask(&self, mask: usize, len: usize) -> (r: u64)
        requires
            len <= 64,
            self.cpu_num <= 64,
        ensures
            forall|v: int| 0 <= v < 64 ==> (#[trigger] bit_of(r, v) <==> exists|p: int| 0 <= p < len && #[trigger] bit_of(mask as u64, p) && first_on(self, v, p as usize)),
    {
        let mut vmask: u64 = 0;
        let mut i: usize = 0;
        proof {
            assert forall|v: int| 0 <= v < 64 implies !#[trigger] bit_of(vmask, v) by {
                lemma_zero_bits(v as u64);
            }
        }
        while i < len
            invariant
                i <= len <= 64,
                self.cpu_num <= 64,
                forall|v: int| 0 <= v < 64 ==> (#[trigger] bit_of(vmask, v) <==> exists|p: int| 0 <= p < i && #[trigger] bit_of(mask as u64, p) && first_on(self, v, p as usize)),
            decreases len - i,
        {
            let shift = self.pcpuid_to_vcpuid(i);
            let ghost old_mask = vmask;
            if ((mask as u64) >> (i as u64)) & 1 == 1 {
                if let Ok(v) = shift {
                    vmask = vmask | (1u64 << (v as u64));
                    proof {
                        assert(first_on(self, v as int, i));
                        assert(bit_of(mask as u64, i as int));
                        assert forall|q: int| 0 <= q < 64 implies (#[trigger] bit_of(vmask, q) <==> exists|p: int| 0 <= p < i + 1 && #[trigger] bit_of(mask as u64, p) && first_on(self, q, p as usize)) by {
                            lemma_set_bit(old_mask, v as u64, q as u64);
                            assert(bit_of(vmask, q) <==> (bit_of(old_mask, q) || q == v as int));
                            assert(bit_of(old_mask, q) <==> exists|p: int| 0 <= p < i && #[trigger] bit_of(mask as u64, p) && first_on(self, q, p as usize));
                            if exists|p: int| 0 <= p < i + 1 && #[trigger] bit_of(mask as u64, p) && first_on(self, q, p as usize) {
                                let p = choose|p: int| 0 <= p < i + 1 && #[trigger] bit_of(mask as u64, p) && first_on(self, q, p as usize);
                                if p == i as int {
                                    lemma_first_on_unique(self, q, v as int, i);
                                }
                            }
                        }
                    }
                } else {
                    proof {
                        assert forall|q: int| 0 <= q < 64 implies (#[trigger] bit_of(vmask, q) <==> exists|p: int| 0 <= p < i + 1 && #[trigger] bit_of(mask as u64, p) && first_on(self, q, p as usize)) by {
                            if exists|p: int| 0 <= p < i + 1 && #[trigger] bit_of(mask as u64, p) && first_on(self, q, p as usize) {
                                let p = choose|p: int| 0 <= p < i + 1 && #[trigger] bit_of(mask as u64, p) && first_on(self, q, p as usize);
                                if p == i as int {
                                    assert(placed_on(self, q, i));
                                }
                            }
                        }
                    }
                }
            } else {
                proof {
                    assert forall|q: int| 0 <= q < 64 implies (#[trigger] bit_of(vmask, q) <==> exists|p: int| 0 <= p < i + 1 && #[trigger] bit_of(mask as u64, p) && first_on(self, q, p as usize)) by {
                        if exists|p: int| 0 <= p < i + 1 && #[trigger] bit_of(mask as u64, p) && first_on(self, q, p as usize) {
                            let p = choose|p: int| 0 <= p < i + 1 && #[trigger] bit_of(mask as u64, p) && first_on(self, q, p as usize);
                            assert(p != i as int);
                        }
                    }
                }
            }
            i = i + 1;
        }
        vmask
    }

    /// Stops one running vCPU at physical count `now`; when none is left
    /// running, the VM's virtual count is frozen.
    pub fn update_vtimer(&mut self, now: u64)
        requires
            old(self).running > 0,
        ensures
            final(self).running == old(self).running - 1,
            final(self).vtimer_offset == old(self).vtimer_offset,
            final(self).vtimer == (if final(self).running == 0 { ticks(now, old(self).vtimer_offset) } else { old(self).vtimer }),
            final(self).id == old(self).id,
    {
        self.running = self.running - 1;
        if self.running == 0 {
            self.vtimer = now.wrapping_sub(self.vtimer_offset);
        }
    }

    /// Starts one vCPU at physical count `now` and returns the counter offset
    /// to load; when it is the first one running, the offset is recomputed so
    /// that the virtual count resumes where it was frozen.
    pub fn update_vtimer_offset(&mut self, now: u64) -> (r: u64)
        requires
            old(self).running < usize::MAX,
        ensures
            final(self).running == old(self).running + 1,
            final(self).vtimer == old(self).vtimer,
            final(self).vtimer_offset == (if old(self).running == 0 { ticks(now, old(self).vtimer) } else { old(self).vtimer_offset }),
            r == final(self).vtimer_offset,
            final(self).id == old(self).id,
    {
        if self.running == 0 {
            self.vtimer_offset = now.wrapping_sub(self.vtimer);
        }
        self.running = self.running + 1;
        self.vtimer_offset
    }
}

/// Whether `i` is the first configured emulated device based at `ipa`.
pub open spec fn first_dev_at(devs: Seq<crate::config::VmEmulatedDeviceConfig>, ipa: usize, i: int) -> bool {
    &&& 0 <= i < devs.len()
    &&& devs[i].base_ipa == ipa
    &&& forall|k: int| 0 <= k < i ==> devs[k].base_ipa != ipa
}

/// Index of the vCPU that a core gets: 0 on the master core, or on the
/// last core when no master core was seen; otherwise counting down from the
/// highest index, keeping index 0 free while the master is unplaced.
pub open spec fn assign_target(cfg_master: Option<usize>, cfg_num: usize, cpu_num: usize, has_master: bool, cpu_id: usize) -> int {
    if cfg_master == Some(cpu_id) || (!has_master && cpu_num == cfg_num - 1) {
        0
    } else if has_master {
        cfg_num - cpu_num
    } else {
        cfg_num - cpu_num - 1
    }
}

/// Whether vCPU `v` is the first placed vCPU of `vm` on physical core `p`.
pub open spec fn first_on(vm: &Vm, v: int, p: usize) -> bool {
    placed_on(vm, v, p) && forall|k: int| 0 <= k < v ==> !placed_on(vm, k, p)
}

proof fn lemma_first_on_unique(vm: &Vm, a: int, b: int, p: usize)
    requires
        first_on(vm, a, p),
        first_on(vm, b, p),
    ensures
        a == b,
{
    if a < b {
        assert(!placed_on(vm, a, p));
    } else if b < a {
        assert(!placed_on(vm, b, p));
    }
}

/// Whether placed vCPU `i` of `vm` runs on physical core `p`.
pub open spec fn placed_on(vm: &Vm, i: int, p: usize) -> bool {
    0 <= i < vm.cpu_num && i < vm.vcpu_list@.len() && vm.vcpu_list@[i].phys_id == p
}

/// Number of occurrences of `d` in `s`.
pub open spec fn count_of(s: Seq<EmuDevs>, d: EmuDevs) -> nat
    decreases s.len(),
{
    if s.len() == 0 {
        0
    } else {
        count_of(s.drop_last(), d) + if s.last() == d { 1nat } else { 0nat }
    }
}

proof fn lemma_count_of_take_step(s: Seq<EmuDevs>, d: EmuDevs, i: int)
    requires
        0 <= i < s.len(),
    ensures
        count_of(s.take(i + 1), d) == count_of(s.take(i), d) + if s[i] == d { 1nat } else { 0nat },
{
    assert(s.take(i + 1).drop_last() =~= s.take(i));
}

proof fn lemma_count_of_prefix_le(s: Seq<EmuDevs>, d: EmuDevs, i: int)
    requires
        0 <= i <= s.len(),
    ensures
        count_of(s.take(i), d) <= count_of(s, d),
    decreases s.len() - i,
{
    if i < s.len() {
        lemma_count_of_take_step(s, d, i);
        lemma_count_of_prefix_le(s, d, i + 1);
    } else {
        assert(s.take(i) =~= s);
    }
}

/// The guest's virtual count at physical count `now` under counter offset
/// `offset`.
pub open spec fn virtual_count(now: u64, offset: u64) -> u64 {
    ticks(now, offset)
}

/// When the last running vCPU of a VM stops at physical count `t1` and one
/// starts again at `t2`, the offset is recomputed so that the guest's
/// virtual count resumes at the value it had at `t1`: the virtual counter
/// never jumps over the time no vCPU of the VM ran.
pub proof fn lemma_virtual_count_resumes(offset: u64, t1: u64, t2: u64)
    ensures
        ({
            let frozen = ticks(t1, offset);
            let new_offset = ticks(t2, frozen);
            &&& virtual_count(t2, new_offset) == virtual_count(t1, offset)
            &&& new_offset == ticks(t2, frozen)
        }),
{
}

/// The VMs that exist, in the order they were created.
pub struct VmList {
    pub vms: Vec<Vm>,
}

/// Whether some VM of `vms` has id `id`.
pub open spec fn has_vm(vms: Seq<Vm>, id: usize) -> bool {
    exists|i: int| 0 <= i < vms.len() && vms[i].id == id
}

impl VmList {
    pub fn new() -> (r: Self)
        ensures
            r.vms@.len() == 0,
    {
        VmList { vms: Vec::new() }
    }
}

/// Index of the first VM with id `id`.
fn vm_index(list: &VmList, id: usize) -> (r: Option<usize>)
    ensures
        match r {
            Some(i) => i < list.vms@.len() && list.vms@[i as int].id == id && forall|k: int| 0 <= k < i ==> list.vms@[k].id != id,
            None => !has_vm(list.vms@, id),
        },
{
    let mut i: usize = 0;
    while i < list.vms.len()
        invariant
            i <= list.vms@.len(),
            forall|k: int| 0 <= k < i ==> list.vms@[k].id != id,
        decreases list.vms@.len() - i,
    {
        if list.vms[i].id == id {
            return Some(i);
        }
        i = i + 1;
    }
    None
}

/// Creates VM `id`; fails when a VM with that id exists.
pub fn push_vm(list: &mut VmList, id: usize, counter_now: u64) -> (r: Result<(), ()>)
    ensures
        r is Ok <==> !has_vm(old(list).vms@, id),
        r is Ok ==> final(list).vms@.len() == old(list).vms@.len() + 1 && final(list).vms@.drop_last() == old(list).vms@ && final(list).vms@.last().id == id && final(list).vms@.last().cpu_num == 0,
        r is Err ==> final(list).vms@ == old(list).vms@,
{
    match vm_index(list, id) {
        Some(_) => Err(()),
        None => {
            list.vms.push(Vm::new(id, counter_now));
            proof {
                assert(list.vms@.drop_last() =~= old(list).vms@);
            }
            Ok(())
        },
    }
}

/// Removes VM `id` from the list and hands it back.
pub fn remove_vm(list: &mut VmList, id: usize) -> (r: Vm)
    requires
        has_vm(old(list).vms@, id),
    ensures
        r.id == id,
        exists|i: int| 0 <= i < old(list).vms@.len() && old(list).vms@[i].id == id && final(list).vms@ == old(list).vms@.remove(i) && forall|k: int| 0 <= k < i ==> old(list).vms@[k].id != id,
{
    match vm_index(list, id) {
        Some(i) => list.vms.remove(i),
        None => {
            assert(false);
            list.vms.remove(0)
        },
    }
}

/// The VM with id `id`, if it exists.
pub fn vm(list: &VmList, id: usize) -> (r: Option<&Vm>)
    ensures
        match r {
            Some(v) => v.id == id && exists|i: int| 0 <= i < list.vms@.len() && list.vms@[i] == *v,
            None => !has_vm(list.vms@, id),
        },
{
    match vm_index(list, id) {
        Some(i) => Some(&list.vms[i]),
        None => None,
    }
}

/// Finishes the configuration of the VM `entry` describes: on the first
/// call the VM is created with that configuration; later calls change
/// nothing. Returns whether the VM was created now.
pub fn vm_cfg_finish_configuration(list: &mut VmList, entry: VmConfigEntry, counter_now: u64) -> (r: bool)
    ensures
        r == !has_vm(old(list).vms@, entry.id),
        has_vm(final(list).vms@, entry.id),
        !r ==> final(list).vms@ == old(list).vms@,
        r ==> final(list).vms@.len() == old(list).vms@.len() + 1 && final(list).vms@.drop_last() == old(list).vms@
            && final(list).vms@.last().id == entry.id && final(list).vms@.last().config == Some(entry)
            && final(list).vms@.last().cpu_num == 0 && final(list).vms@.last().vcpu_list@.len() == 0,
{
    let id = entry.id;
    match vm_index(list, id) {
        Some(i) => {
            assert(list.vms@[i as int].id == id);
            false
        },
        None => {
            let mut v = Vm::new(id, counter_now);
            v.set_config_entry(Some(entry));
            list.vms.push(v);
            proof {
                assert(list.vms@.drop_last() =~= old(list).vms@);
                assert(list.vms@[list.vms@.len() - 1].id == id);
            }
            true
        },
    }
}

} // verus!
