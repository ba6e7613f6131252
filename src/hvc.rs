//! The hypercall plane: decoding a guest's HVC into a request, the result
//! value the guest reads back, the message slots the hypervisor writes
//! notifications into, and where a notification is delivered.
use vstd::prelude::*;

use crate::config::VM_NUM_MAX;
use crate::address::PAGE_SIZE;
use crate::vm::{has_vm, VmIfList, VmInterface, VmList};

verus! {

/// Result of a hypercall that succeeded.
pub const HVC_FINISH: usize = 0;

pub const HVC_SYS: usize = 0;

pub const HVC_VMM: usize = 1;

pub const HVC_IVC: usize = 2;

pub const HVC_MEDIATED: usize = 3;

pub const HVC_CONFIG: usize = 0x11;

pub const HVC_SYS_REBOOT: usize = 0;

pub const HVC_SYS_SHUTDOWN: usize = 1;

pub const HVC_SYS_UPDATE: usize = 3;

pub const HVC_SYS_TEST: usize = 4;

pub const HVC_VMM_LIST_VM: usize = 0;

pub const HVC_VMM_GET_VM_STATE: usize = 1;

pub const HVC_VMM_BOOT_VM: usize = 2;

pub const HVC_VMM_SHUTDOWN_VM: usize = 3;

pub const HVC_VMM_REBOOT_VM: usize = 4;

pub const HVC_VMM_GET_VM_DEF_CFG: usize = 5;

pub const HVC_VMM_GET_VM_CFG: usize = 6;

pub const HVC_VMM_SET_VM_CFG: usize = 7;

pub const HVC_VMM_GET_VM_ID: usize = 8;

pub const HVC_VMM_TRACE_VMEXIT: usize = 9;

pub const HVC_VMM_MIGRATE_START: usize = 10;

pub const HVC_VMM_MIGRATE_READY: usize = 11;

pub const HVC_VMM_MIGRATE_MEMCPY: usize = 12;

pub const HVC_VMM_MIGRATE_FINISH: usize = 13;

pub const HVC_VMM_MIGRATE_INIT_VM: usize = 14;

pub const HVC_VMM_MIGRATE_VM_BOOT: usize = 15;

pub const HVC_VMM_VM_REMOVE: usize = 16;

pub const HVC_IVC_UPDATE_MQ: usize = 0;

pub const HVC_IVC_SEND_MSG: usize = 1;

pub const HVC_IVC_BROADCAST_MSG: usize = 2;

pub const HVC_IVC_INIT_KEEP_ALIVE: usize = 3;

pub const HVC_IVC_KEEP_ALIVE: usize = 4;

pub const HVC_IVC_ACK: usize = 5;

pub const HVC_IVC_GET_TIME: usize = 6;

pub const HVC_IVC_SHARE_MEM: usize = 7;

pub const HVC_MEDIATED_DEV_APPEND: usize = 0x30;

pub const HVC_MEDIATED_DEV_NOTIFY: usize = 0x31;

pub const HVC_MEDIATED_DRV_NOTIFY: usize = 0x32;

pub const HVC_CONFIG_ADD_VM: usize = 0;

pub const HVC_CONFIG_DELETE_VM: usize = 1;

pub const HVC_CONFIG_CPU: usize = 2;

pub const HVC_CONFIG_MEMORY_REGION: usize = 3;

pub const HVC_CONFIG_EMULATED_DEVICE: usize = 4;

pub const HVC_CONFIG_PASSTHROUGH_DEVICE_REGION: usize = 5;

pub const HVC_CONFIG_PASSTHROUGH_DEVICE_IRQS: usize = 6;

pub const HVC_CONFIG_PASSTHROUGH_DEVICE_STREAMS_IDS: usize = 7;

pub const HVC_CONFIG_DTB_DEVICE: usize = 8;

pub const HVC_CONFIG_UPLOAD_KERNEL_IMAGE: usize = 9;

pub const HVC_CONFIG_MEMORY_COLOR_BUDGET: usize = 10;

/// Interrupt a guest receives for a hypervisor notification.
pub const HVC_IRQ: usize = 32 + 0x20;

/// Bytes of one notification slot in a VM's message page.
pub const HVC_MSG_SLOT: usize = PAGE_SIZE / VM_NUM_MAX;

/// The hypercall arguments `x0`..`x6`.
#[derive(Clone, Copy, Debug, PartialEq, Eq, Structural)]
pub struct HvcArgs {
    pub x0: usize,
    pub x1: usize,
    pub x2: usize,
    pub x3: usize,
    pub x4: usize,
    pub x5: usize,
    pub x6: usize,
}

/// What a guest's hypercall asks for.
#[derive(Clone, Copy, Debug, PartialEq, Eq, Structural)]
pub enum HvcRequest {
    SysTest,
    VmmListVm { list_ipa: usize },
    VmmBootVm { vm_id: usize },
    VmmRebootVm { vm_id: usize },
    VmmGetVmId { id_ipa: usize },
    VmmRemoveVm { vm_id: usize },
    /// A migration step; migration is not supported and the call just
    /// finishes.
    VmmMigrate,
    IvcUpdateMq { list_ipa: usize, ptr_ipa: usize },
    /// Shared-memory setup; not supported, the call just finishes.
    IvcShareMem,
    MediatedDevAppend { class_id: usize, mmio_ipa: usize },
    MediatedDevNotify { dev_ipa: usize },
    ConfigAddVm { config_ipa: usize },
    ConfigDeleteVm { vm_id: usize },
    ConfigCpu { vm_id: usize, num: usize, allocate_bitmap: usize, master: usize },
    ConfigMemoryRegion { vm_id: usize, ipa_start: usize, length: usize },
    ConfigEmulatedDevice { vm_id: usize, name_ipa: usize, base_ipa: usize, length: usize, irq_id: usize, cfg_list_ipa: usize, emu_type: usize },
    ConfigPassthroughRegion { vm_id: usize, base_ipa: usize, base_pa: usize, length: usize },
    ConfigPassthroughIrqs { vm_id: usize, irqs_ipa: usize, irqs_len: usize },
    ConfigPassthroughStreamsIds { vm_id: usize, ids_ipa: usize, ids_len: usize },
    ConfigDtbDevice { vm_id: usize, name_ipa: usize, dev_type: usize, irq_list_ipa: usize, irq_list_len: usize, addr_region_ipa: usize, addr_region_len: usize },
    ConfigUploadKernelImage { vm_id: usize, img_size: usize, cache_ipa: usize, load_offset: usize, load_size: usize },
    ConfigMemoryColorBudget { vm_id: usize, color_num: usize, color_array_ipa: usize, budget_percent: usize },
}

/// Splits the function id of `x0`: the hypercall type in bits [15:8] and
/// the event in bits [7:0].
pub fn hvc_unpack(fid: usize) -> (r: (usize, usize))
    ensures
        r.0 == ((fid as u64 >> 8u64) & 0xff) as usize,
        r.1 == (fid as u64 & 0xff) as usize,
        r.0 < 256,
        r.1 < 256,
{
    let f = fid as u64;
    assert((f >> 8u64) & 0xff < 256 && f & 0xff < 256) by (bit_vector);
    (((f >> 8u64) & 0xff) as usize, (f & 0xff) as usize)
}

/// The value a guest reads in `x0` after a hypercall: the result, or
/// `usize::MAX` for an error.
pub fn hvc_result_value(r: Result<usize, ()>) -> (v: usize)
    ensures
        v == (match r {
            Ok(x) => x,
            Err(_) => usize::MAX,
        }),
{
    match r {
        Ok(x) => x,
        Err(_) => usize::MAX,
    }
}

/// The request of a system hypercall: only the self-test is served.
pub fn hvc_sys_handler(event: usize) -> (r: Result<HvcRequest, ()>)
    ensures
        r == (if event == HVC_SYS_TEST {
            Ok::<HvcRequest, ()>(HvcRequest::SysTest)
        } else {
            Err(())
        }),
{
    if event == HVC_SYS_TEST {
        Ok(HvcRequest::SysTest)
    } else {
        Err(())
    }
}

/// The request of an inter-VM-communication hypercall.
pub fn hvc_ivc_handler(event: usize, x0: usize, x1: usize) -> (r: Result<HvcRequest, ()>)
    ensures
        r == (if event == HVC_IVC_UPDATE_MQ {
            Ok::<HvcRequest, ()>(HvcRequest::IvcUpdateMq { list_ipa: x0, ptr_ipa: x1 })
        } else if event == HVC_IVC_SHARE_MEM {
            Ok(HvcRequest::IvcShareMem)
        } else {
            Err(())
        }),
{
    if event == HVC_IVC_UPDATE_MQ {
        Ok(HvcRequest::IvcUpdateMq { list_ipa: x0, ptr_ipa: x1 })
    } else if event == HVC_IVC_SHARE_MEM {
        Ok(HvcRequest::IvcShareMem)
    } else {
        Err(())
    }
}

/// Whether `event` is one of the migration steps.
pub open spec fn is_migrate_event(event: usize) -> bool {
    event == HVC_VMM_MIGRATE_START || event == HVC_VMM_MIGRATE_READY || event
        == HVC_VMM_MIGRATE_MEMCPY || event == HVC_VMM_MIGRATE_INIT_VM || event
        == HVC_VMM_MIGRATE_VM_BOOT || event == HVC_VMM_MIGRATE_FINISH
}

/// The request of a VM-management hypercall.
pub fn hvc_vmm_handler(event: usize, x0: usize) -> (r: Result<HvcRequest, ()>)
    ensures
        event == HVC_VMM_LIST_VM ==> r == Ok::<HvcRequest, ()>(HvcRequest::VmmListVm { list_ipa: x0 }),
        event == HVC_VMM_BOOT_VM ==> r == Ok::<HvcRequest, ()>(HvcRequest::VmmBootVm { vm_id: x0 }),
        event == HVC_VMM_REBOOT_VM ==> r == Ok::<HvcRequest, ()>(HvcRequest::VmmRebootVm { vm_id: x0 }),
        event == HVC_VMM_GET_VM_ID ==> r == Ok::<HvcRequest, ()>(HvcRequest::VmmGetVmId { id_ipa: x0 }),
        event == HVC_VMM_VM_REMOVE ==> r == Ok::<HvcRequest, ()>(HvcRequest::VmmRemoveVm { vm_id: x0 }),
        is_migrate_event(event) ==> r == Ok::<HvcRequest, ()>(HvcRequest::VmmMigrate),
        event != HVC_VMM_LIST_VM && event != HVC_VMM_BOOT_VM && event != HVC_VMM_REBOOT_VM && event
            != HVC_VMM_GET_VM_ID && event != HVC_VMM_VM_REMOVE && !is_migrate_event(event)
            ==> r is Err,
{
    if event == HVC_VMM_LIST_VM {
        Ok(HvcRequest::VmmListVm { list_ipa: x0 })
    } else if event == HVC_VMM_BOOT_VM {
        Ok(HvcRequest::VmmBootVm { vm_id: x0 })
    } else if event == HVC_VMM_REBOOT_VM {
        Ok(HvcRequest::VmmRebootVm { vm_id: x0 })
    } else if event == HVC_VMM_GET_VM_ID {
        Ok(HvcRequest::VmmGetVmId { id_ipa: x0 })
    } else if event == HVC_VMM_VM_REMOVE {
        Ok(HvcRequest::VmmRemoveVm { vm_id: x0 })
    } else if event == HVC_VMM_MIGRATE_START || event == HVC_VMM_MIGRATE_READY || event
        == HVC_VMM_MIGRATE_MEMCPY || event == HVC_VMM_MIGRATE_INIT_VM || event
        == HVC_VMM_MIGRATE_VM_BOOT || event == HVC_VMM_MIGRATE_FINISH {
        Ok(HvcRequest::VmmMigrate)
    } else {
        Err(())
    }
}

/// The request of a mediated-device hypercall.
pub fn hvc_mediated_handler(event: usize, x0: usize, x1: usize) -> (r: Result<HvcRequest, ()>)
    ensures
        r == (if event == HVC_MEDIATED_DEV_APPEND {
            Ok::<HvcRequest, ()>(HvcRequest::MediatedDevAppend { class_id: x0, mmio_ipa: x1 })
        } else if event == HVC_MEDIATED_DEV_NOTIFY {
            Ok(HvcRequest::MediatedDevNotify { dev_ipa: x0 })
        } else {
            Err(())
        }),
{
    if event == HVC_MEDIATED_DEV_APPEND {
        Ok(HvcRequest::MediatedDevAppend { class_id: x0, mmio_ipa: x1 })
    } else if event == HVC_MEDIATED_DEV_NOTIFY {
        Ok(HvcRequest::MediatedDevNotify { dev_ipa: x0 })
    } else {
        Err(())
    }
}

/// The request of a configuration hypercall; the arguments keep the order
/// the ABI gives them.
pub fn hvc_config_handler(event: usize, a: HvcArgs) -> (r: Result<HvcRequest, ()>)
    ensures
        event == HVC_CONFIG_ADD_VM ==> r == Ok::<HvcRequest, ()>(HvcRequest::ConfigAddVm { config_ipa: a.x0 }),
        event == HVC_CONFIG_DELETE_VM ==> r == Ok::<HvcRequest, ()>(HvcRequest::ConfigDeleteVm { vm_id: a.x0 }),
        event == HVC_CONFIG_CPU ==> r == Ok::<HvcRequest, ()>(HvcRequest::ConfigCpu { vm_id: a.x0, num: a.x1, allocate_bitmap: a.x2, master: a.x3 }),
        event == HVC_CONFIG_MEMORY_REGION ==> r == Ok::<HvcRequest, ()>(HvcRequest::ConfigMemoryRegion { vm_id: a.x0, ipa_start: a.x1, length: a.x2 }),
        event == HVC_CONFIG_EMULATED_DEVICE ==> r == Ok::<HvcRequest, ()>(HvcRequest::ConfigEmulatedDevice { vm_id: a.x0, name_ipa: a.x1, base_ipa: a.x2, length: a.x3, irq_id: a.x4, cfg_list_ipa: a.x5, emu_type: a.x6 }),
        event == HVC_CONFIG_PASSTHROUGH_DEVICE_REGION ==> r == Ok::<HvcRequest, ()>(HvcRequest::ConfigPassthroughRegion { vm_id: a.x0, base_ipa: a.x1, base_pa: a.x2, length: a.x3 }),
        event == HVC_CONFIG_PASSTHROUGH_DEVICE_IRQS ==> r == Ok::<HvcRequest, ()>(HvcRequest::ConfigPassthroughIrqs { vm_id: a.x0, irqs_ipa: a.x1, irqs_len: a.x2 }),
        event == HVC_CONFIG_PASSTHROUGH_DEVICE_STREAMS_IDS ==> r == Ok::<HvcRequest, ()>(HvcRequest::ConfigPassthroughStreamsIds { vm_id: a.x0, ids_ipa: a.x1, ids_len: a.x2 }),
        event == HVC_CONFIG_DTB_DEVICE ==> r == Ok::<HvcRequest, ()>(HvcRequest::ConfigDtbDevice { vm_id: a.x0, name_ipa: a.x1, dev_type: a.x2, irq_list_ipa: a.x3, irq_list_len: a.x4, addr_region_ipa: a.x5, addr_region_len: a.x6 }),
        event == HVC_CONFIG_UPLOAD_KERNEL_IMAGE ==> r == Ok::<HvcRequest, ()>(HvcRequest::ConfigUploadKernelImage { vm_id: a.x0, img_size: a.x1, cache_ipa: a.x2, load_offset: a.x3, load_size: a.x4 }),
        event == HVC_CONFIG_MEMORY_COLOR_BUDGET ==> r == Ok::<HvcRequest, ()>(HvcRequest::ConfigMemoryColorBudget { vm_id: a.x0, color_num: a.x1, color_array_ipa: a.x2, budget_percent: a.x3 }),
        event > HVC_CONFIG_MEMORY_COLOR_BUDGET ==> r is Err,
{
    match event {
        0 => Ok(HvcRequest::ConfigAddVm { config_ipa: a.x0 }),
        1 => Ok(HvcRequest::ConfigDeleteVm { vm_id: a.x0 }),
        2 => Ok(HvcRequest::ConfigCpu { vm_id: a.x0, num: a.x1, allocate_bitmap: a.x2, master: a.x3 }),
        3 => Ok(HvcRequest::ConfigMemoryRegion { vm_id: a.x0, ipa_start: a.x1, length: a.x2 }),
        4 => Ok(HvcRequest::ConfigEmulatedDevice { vm_id: a.x0, name_ipa: a.x1, base_ipa: a.x2, length: a.x3, irq_id: a.x4, cfg_list_ipa: a.x5, emu_type: a.x6 }),
        5 => Ok(HvcRequest::ConfigPassthroughRegion { vm_id: a.x0, base_ipa: a.x1, base_pa: a.x2, length: a.x3 }),
        6 => Ok(HvcRequest::ConfigPassthroughIrqs { vm_id: a.x0, irqs_ipa: a.x1, irqs_len: a.x2 }),
        7 => Ok(HvcRequest::ConfigPassthroughStreamsIds { vm_id: a.x0, ids_ipa: a.x1, ids_len: a.x2 }),
        8 => Ok(HvcRequest::ConfigDtbDevice { vm_id: a.x0, name_ipa: a.x1, dev_type: a.x2, irq_list_ipa: a.x3, irq_list_len: a.x4, addr_region_ipa: a.x5, addr_region_len: a.x6 }),
        9 => Ok(HvcRequest::ConfigUploadKernelImage { vm_id: a.x0, img_size: a.x1, cache_ipa: a.x2, load_offset: a.x3, load_size: a.x4 }),
        10 => Ok(HvcRequest::ConfigMemoryColorBudget { vm_id: a.x0, color_num: a.x1, color_array_ipa: a.x2, budget_percent: a.x3 }),
        _ => Err(()),
    }
}

/// Decodes hypercall type `hvc_type`, event `event`: each type is handled
/// by its own decoder, an unknown type is refused.
pub fn hvc_guest_handler(hvc_type: usize, event: usize, a: HvcArgs) -> (r: Result<HvcRequest, ()>)
    ensures
        hvc_type != HVC_SYS && hvc_type != HVC_VMM && hvc_type != HVC_IVC && hvc_type != HVC_MEDIATED
            && hvc_type != HVC_CONFIG ==> r is Err,
        hvc_type == HVC_VMM && event == HVC_VMM_LIST_VM ==> r == Ok::<HvcRequest, ()>(HvcRequest::VmmListVm { list_ipa: a.x0 }),
        hvc_type == HVC_VMM && event == HVC_VMM_REBOOT_VM ==> r == Ok::<HvcRequest, ()>(HvcRequest::VmmRebootVm { vm_id: a.x0 }),
        hvc_type == HVC_VMM && event == HVC_VMM_BOOT_VM ==> r == Ok::<HvcRequest, ()>(HvcRequest::VmmBootVm { vm_id: a.x0 }),
        hvc_type == HVC_CONFIG && event == HVC_CONFIG_ADD_VM ==> r == Ok::<HvcRequest, ()>(HvcRequest::ConfigAddVm { config_ipa: a.x0 }),
        hvc_type == HVC_CONFIG && event == HVC_CONFIG_DELETE_VM ==> r == Ok::<HvcRequest, ()>(HvcRequest::ConfigDeleteVm { vm_id: a.x0 }),
        hvc_type == HVC_CONFIG && event == HVC_CONFIG_CPU ==> r == Ok::<HvcRequest, ()>(HvcRequest::ConfigCpu { vm_id: a.x0, num: a.x1, allocate_bitmap: a.x2, master: a.x3 }),
        hvc_type == HVC_MEDIATED && event == HVC_MEDIATED_DEV_NOTIFY ==> r == Ok::<HvcRequest, ()>(HvcRequest::MediatedDevNotify { dev_ipa: a.x0 }),
{
    if hvc_type == HVC_SYS {
        hvc_sys_handler(event)
    } else if hvc_type == HVC_VMM {
        hvc_vmm_handler(event, a.x0)
    } else if hvc_type == HVC_IVC {
        hvc_ivc_handler(event, a.x0, a.x1)
    } else if hvc_type == HVC_MEDIATED {
        hvc_mediated_handler(event, a.x0, a.x1)
    } else if hvc_type == HVC_CONFIG {
        hvc_config_handler(event, a)
    } else {
        Err(())
    }
}

/// The slot for the next notification to VM `vm_id`: the slot after the
/// last one, wrapping to the page start at the end of the page; `None`
/// while the VM has not set up its message page.
pub open spec fn next_msg_slot(arg: usize, ptr: usize) -> Option<usize> {
    if ptr == 0 {
        None
    } else if ptr + HVC_MSG_SLOT <= usize::MAX && ptr + HVC_MSG_SLOT >= arg && ptr + HVC_MSG_SLOT
        - arg < PAGE_SIZE {
        Some((ptr + HVC_MSG_SLOT) as usize)
    } else if arg == 0 {
        None
    } else {
        Some(arg)
    }
}

/// Picks the slot of VM `vm_id`'s message page that the next notification
/// is written to, and records it as the last slot used.
pub fn hvc_msg_slot(list: &mut VmIfList, vm_id: usize) -> (r: Option<usize>)
    requires
        vm_id < old(list).ifs@.len(),
    ensures
        r == next_msg_slot(old(list).ifs@[vm_id as int].ivc_arg, old(list).ifs@[vm_id as int].ivc_arg_ptr),
        final(list).ifs@ == (match r {
            Some(t) => old(list).ifs@.update(vm_id as int, VmInterface { ivc_arg_ptr: t, ..old(list).ifs@[vm_id as int] }),
            None => old(list).ifs@,
        }),
{
    let arg = list.ifs[vm_id].ivc_arg;
    let ptr = list.ifs[vm_id].ivc_arg_ptr;
    if ptr == 0 {
        return None;
    }
    let target = if ptr <= usize::MAX - HVC_MSG_SLOT && ptr + HVC_MSG_SLOT >= arg && ptr + HVC_MSG_SLOT
        - arg < PAGE_SIZE {
        ptr + HVC_MSG_SLOT
    } else if arg == 0 {
        return None;
    } else {
        arg
    };
    let mut v = list.ifs[vm_id];
    v.ivc_arg_ptr = target;
    list.ifs.set(vm_id, v);
    Some(target)
}

/// Where a notification for a VM is delivered.
#[derive(Clone, Copy, Debug, PartialEq, Eq, Structural)]
pub enum HvcRoute {
    /// The VM's master vCPU runs on this core: inject directly.
    Local,
    /// Send an HVC message to this core, which runs the VM's master vCPU.
    Ipi(usize),
}

/// Routes a notification for a VM whose master vCPU runs on
/// `master_cpu_id`, sent from core `current_cpu`; `None` when the VM has no
/// master core yet.
pub fn hvc_route(master_cpu_id: Option<usize>, current_cpu: usize) -> (r: Option<HvcRoute>)
    ensures
        r == (match master_cpu_id {
            Some(c) => if c == current_cpu {
                Some(HvcRoute::Local)
            } else {
                Some(HvcRoute::Ipi(c))
            },
            None => None,
        }),
{
    match master_cpu_id {
        Some(c) => if c == current_cpu {
            Some(HvcRoute::Local)
        } else {
            Some(HvcRoute::Ipi(c))
        },
        None => None,
    }
}

/// Whether an HVC message received from another core notifies the guest:
/// mediated-device completions, the start of a migration and kernel-image
/// uploads do.
pub fn hvc_ipi_notifies(fid: usize, event: usize) -> (r: bool)
    ensures
        r == (fid == HVC_MEDIATED || (fid == HVC_VMM && event == HVC_VMM_MIGRATE_START) || (fid
            == HVC_CONFIG && event == HVC_CONFIG_UPLOAD_KERNEL_IMAGE)),
{
    fid == HVC_MEDIATED || (fid == HVC_VMM && event == HVC_VMM_MIGRATE_START) || (fid == HVC_CONFIG
        && event == HVC_CONFIG_UPLOAD_KERNEL_IMAGE)
}

/// Bitmap of the VMs that exist: bit `i` for VM `i`, for ids below 64.
pub fn vmm_list_vm(list: &VmList) -> (r: u64)
    ensures
        forall|i: int| 0 <= i < 64 ==> (#[trigger] crate::bits::bit_of(r, i) <==> has_vm(list.vms@, i as usize)),
{
    let mut bm: u64 = 0;
    let mut k: usize = 0;
    proof {
        assert forall|p: int| 0 <= p < 64 implies !#[trigger] crate::bits::bit_of(bm, p) by {
            crate::bits::lemma_zero_bits(p as u64);
        }
    }
    while k < list.vms.len()
        invariant
            k <= list.vms@.len(),
            forall|p: int| 0 <= p < 64 ==> (#[trigger] crate::bits::bit_of(bm, p) <==> exists|j: int| 0 <= j < k && #[trigger] list.vms@[j].id == p as usize),
        decreases list.vms@.len() - k,
    {
        let id = list.vms[k].id;
        let ghost old_bm = bm;
        if id < 64 {
            bm = bm | (1u64 << (id as u64));
        }
        proof {
            assert forall|p: int| 0 <= p < 64 implies (crate::bits::bit_of(bm, p) <==> exists|j: int| 0 <= j < k + 1 && #[trigger] list.vms@[j].id == p as usize) by {
                if id < 64 {
                    crate::bits::lemma_set_bit(old_bm, id as u64, p as u64);
                }
                assert(crate::bits::bit_of(old_bm, p) <==> exists|j: int| 0 <= j < k && #[trigger] list.vms@[j].id == p as usize);
                if exists|j: int| 0 <= j < k + 1 && #[trigger] list.vms@[j].id == p as usize {
                    let j = choose|j: int| 0 <= j < k + 1 && #[trigger] list.vms@[j].id == p as usize;
                    if j == k as int {
                        assert(id == p as usize);
                    }
                }
                if p == id as int && id < 64 {
                    assert(list.vms@[k as int].id == p as usize);
                }
            }
        }
        k = k + 1;
    }
    proof {
        assert forall|p: int| 0 <= p < 64 implies (crate::bits::bit_of(bm, p) <==> has_vm(list.vms@, p as usize)) by {
            if has_vm(list.vms@, p as usize) {
                let j = choose|j: int| 0 <= j < list.vms@.len() && list.vms@[j].id == p as usize;
                assert(list.vms@[j].id == p as usize);
            }
        }
    }
    bm
}

/// A notification with only a function id and an event.
#[derive(Clone, Copy, Debug, PartialEq, Eq, Structural)]
pub struct HvcDefaultMsg {
    pub fid: usize,
    pub event: usize,
}

/// A notification about VM `vm_id`.
#[derive(Clone, Copy, Debug, PartialEq, Eq, Structural)]
pub struct HvcManageMsg {
    pub fid: usize,
    pub event: usize,
    pub vm_id: usize,
}

/// A migration notification.
#[derive(Clone, Copy, Debug, PartialEq, Eq, Structural)]
pub struct HvcMigrateMsg {
    pub fid: usize,
    pub event: usize,
    pub vm_id: usize,
    pub oper: usize,
    pub page_num: usize,
}

/// A unikernel-library notification with three arguments.
#[derive(Clone, Copy, Debug, PartialEq, Eq, Structural)]
pub struct HvcUniLibMsg {
    pub fid: usize,
    pub event: usize,
    pub vm_id: usize,
    pub arg_1: usize,
    pub arg_2: usize,
    pub arg_3: usize,
}

/// A notification the hypervisor writes into a guest's message slot.
#[derive(Clone, Copy, Debug, PartialEq, Eq, Structural)]
pub enum HvcGuestMsg {
    Default(HvcDefaultMsg),
    Manage(HvcManageMsg),
    Migrate(HvcMigrateMsg),
    UniLib(HvcUniLibMsg),
}

impl HvcGuestMsg {
    /// The function id and event the message carries.
    pub fn fid_event(&self) -> (r: (usize, usize))
        ensures
            r == (match *self {
                HvcGuestMsg::Default(m) => (m.fid, m.event),
                HvcGuestMsg::Manage(m) => (m.fid, m.event),
                HvcGuestMsg::Migrate(m) => (m.fid, m.event),
                HvcGuestMsg::UniLib(m) => (m.fid, m.event),
            }),
    {
        match *self {
            HvcGuestMsg::Default(m) => (m.fid, m.event),
            HvcGuestMsg::Manage(m) => (m.fid, m.event),
            HvcGuestMsg::Migrate(m) => (m.fid, m.event),
            HvcGuestMsg::UniLib(m) => (m.fid, m.event),
        }
    }

    /// The words the guest reads from its slot, in field order.
    pub fn to_words(&self) -> (r: Vec<usize>)
        ensures
            r@ == (match *self {
                HvcGuestMsg::Default(m) => seq![m.fid, m.event],
                HvcGuestMsg::Manage(m) => seq![m.fid, m.event, m.vm_id],
                HvcGuestMsg::Migrate(m) => seq![m.fid, m.event, m.vm_id, m.oper, m.page_num],
                HvcGuestMsg::UniLib(m) => seq![m.fid, m.event, m.vm_id, m.arg_1, m.arg_2, m.arg_3],
            }),
    {
        match *self {
            HvcGuestMsg::Default(m) => vec![m.fid, m.event],
            HvcGuestMsg::Manage(m) => vec![m.fid, m.event, m.vm_id],
            HvcGuestMsg::Migrate(m) => vec![m.fid, m.event, m.vm_id, m.oper, m.page_num],
            HvcGuestMsg::UniLib(m) => vec![m.fid, m.event, m.vm_id, m.arg_1, m.arg_2, m.arg_3],
        }
    }
}

} // verus!
