//! Emulated MMIO devices: the per-VM registry of device regions and the
//! routing of a stage-2 data abort to the device that owns the faulting IPA.
use vstd::prelude::*;

verus! {

/// Kind of an emulated device, as named in a VM's configuration.
#[derive(Clone, Copy, PartialEq, Eq, Structural, Debug)]
pub enum EmuDeviceType {
    EmuDeviceTConsole,
    EmuDeviceTGicd,
    EmuDeviceTGPPT,
    EmuDeviceTVirtioBlk,
    EmuDeviceTVirtioNet,
    EmuDeviceTVirtioConsole,
    EmuDeviceTShyper,
    EmuDeviceTVirtioBlkMediated,
}

impl EmuDeviceType {
    pub open spec fn from_num_spec(value: usize) -> Option<EmuDeviceType> {
        if value == 0 {
            Some(EmuDeviceType::EmuDeviceTConsole)
        } else if value == 1 {
            Some(EmuDeviceType::EmuDeviceTGicd)
        } else if value == 2 {
            Some(EmuDeviceType::EmuDeviceTGPPT)
        } else if value == 3 {
            Some(EmuDeviceType::EmuDeviceTVirtioBlk)
        } else if value == 4 {
            Some(EmuDeviceType::EmuDeviceTVirtioNet)
        } else if value == 5 {
            Some(EmuDeviceType::EmuDeviceTVirtioConsole)
        } else if value == 6 {
            Some(EmuDeviceType::EmuDeviceTShyper)
        } else if value == 7 {
            Some(EmuDeviceType::EmuDeviceTVirtioBlkMediated)
        } else {
            None
        }
    }

    /// The device kind encoded as `value` in the configuration ABI.
    pub fn from_num(value: usize) -> (r: Option<EmuDeviceType>)
        ensures
            r == Self::from_num_spec(value),
    {
        match value {
            0 => Some(EmuDeviceType::EmuDeviceTConsole),
            1 => Some(EmuDeviceType::EmuDeviceTGicd),
            2 => Some(EmuDeviceType::EmuDeviceTGPPT),
            3 => Some(EmuDeviceType::EmuDeviceTVirtioBlk),
            4 => Some(EmuDeviceType::EmuDeviceTVirtioNet),
            5 => Some(EmuDeviceType::EmuDeviceTVirtioConsole),
            6 => Some(EmuDeviceType::EmuDeviceTShyper),
            7 => Some(EmuDeviceType::EmuDeviceTVirtioBlkMediated),
            _ => None,
        }
    }
}

/// What occupies an emulated-device slot of a VM.
#[derive(Clone, Copy, PartialEq, Eq, Structural, Debug)]
pub enum EmuDevs {
    Vgic,
    VirtioBlk,
    VirtioNet,
    VirtioConsole,
    Empty,
}

/// Most emulated devices the system registers.
pub const EMU_DEV_NUM_MAX: usize = 32;

/// A trapped guest access to an emulated device.
#[derive(Clone, Copy, Debug, PartialEq, Eq, Structural)]
pub struct EmuContext {
    pub address: usize,
    pub width: usize,
    pub write: bool,
    pub sign_ext: bool,
    pub reg: usize,
    pub reg_width: usize,
}

/// A registered device region: VM `vm_id`'s IPA range `[ipa, ipa + size)`
/// served by device `id` of kind `kind`.
#[derive(Clone, Copy, Debug, PartialEq, Eq, Structural)]
pub struct EmuDevEntry {
    pub vm_id: usize,
    pub id: usize,
    pub ipa: usize,
    pub size: usize,
    pub kind: EmuDeviceType,
}

/// Whether `e` serves address `ipa` of VM `vm_id`.
pub open spec fn entry_covers(e: EmuDevEntry, vm_id: usize, ipa: usize) -> bool {
    e.vm_id == vm_id && e.ipa <= ipa && ipa - e.ipa < e.size
}

/// Whether the ranges `[a, a + s)` and `[b, b + t)` share an address.
pub open spec fn ranges_overlap(a: usize, s: usize, b: usize, t: usize) -> bool {
    a < b + t && b < a + s
}

/// Whether VM `vm_id`'s range `[ipa, ipa + size)` is clear of every range
/// the VM registered.
pub open spec fn region_free(devs: Seq<EmuDevEntry>, vm_id: usize, ipa: usize, size: usize) -> bool {
    forall|i: int|
        0 <= i < devs.len() && devs[i].vm_id == vm_id ==> !ranges_overlap(
            devs[i].ipa,
            devs[i].size,
            ipa,
            size,
        )
}

/// Every region is non-empty and no two regions of one VM overlap.
pub open spec fn emu_list_wf(devs: Seq<EmuDevEntry>) -> bool {
    &&& forall|i: int| 0 <= i < devs.len() ==> devs[i].size > 0
    &&& forall|i: int, j: int|
        0 <= i < devs.len() && 0 <= j < devs.len() && i != j && devs[i].vm_id == devs[j].vm_id
            ==> !ranges_overlap(devs[i].ipa, devs[i].size, devs[j].ipa, devs[j].size)
}

/// The first region that serves `ipa` of VM `vm_id`.
pub open spec fn is_first_cover(devs: Seq<EmuDevEntry>, vm_id: usize, ipa: usize, i: int) -> bool {
    &&& 0 <= i < devs.len()
    &&& entry_covers(devs[i], vm_id, ipa)
    &&& forall|k: int| 0 <= k < i ==> !entry_covers(devs[k], vm_id, ipa)
}

/// The registered device regions of all VMs.
pub struct EmuDevList {
    pub devs: Vec<EmuDevEntry>,
}

impl EmuDevList {
    pub fn new() -> (r: Self)
        ensures
            r.devs@.len() == 0,
            emu_list_wf(r.devs@),
    {
        EmuDevList { devs: Vec::new() }
    }
}

/// Whether VM `vm_id` may register `[address, address + size)`: the range is
/// non-empty, clear of its other regions, and the registry has room.
pub fn emu_region_available(list: &EmuDevList, vm_id: usize, address: usize, size: usize) -> (r: bool)
    ensures
        r == (size > 0 && list.devs@.len() < EMU_DEV_NUM_MAX && region_free(
            list.devs@,
            vm_id,
            address,
            size,
        )),
{
    if size == 0 || list.devs.len() >= EMU_DEV_NUM_MAX {
        return false;
    }
    let mut i: usize = 0;
    while i < list.devs.len()
        invariant
            i <= list.devs@.len(),
            forall|k: int|
                0 <= k < i && list.devs@[k].vm_id == vm_id ==> !ranges_overlap(
                    list.devs@[k].ipa,
                    list.devs@[k].size,
                    address,
                    size,
                ),
        decreases list.devs@.len() - i,
    {
        let e = list.devs[i];
        if e.vm_id == vm_id {
            let overlap = (e.ipa as u128) < (address as u128) + (size as u128) && (address as u128)
                < (e.ipa as u128) + (e.size as u128);
            if overlap {
                return false;
            }
        }
        i = i + 1;
    }
    true
}

/// Registers device `dev_id` of kind `kind` for VM `vm_id` at
/// `[address, address + size)`.
pub fn emu_register_dev(
    list: &mut EmuDevList,
    vm_id: usize,
    dev_id: usize,
    address: usize,
    size: usize,
    kind: EmuDeviceType,
)
    requires
        emu_list_wf(old(list).devs@),
        size > 0,
        old(list).devs@.len() < EMU_DEV_NUM_MAX,
        region_free(old(list).devs@, vm_id, address, size),
    ensures
        final(list).devs@ == old(list).devs@.push(
            EmuDevEntry { vm_id, id: dev_id, ipa: address, size, kind },
        ),
        emu_list_wf(final(list).devs@),
{
    list.devs.push(EmuDevEntry { vm_id, id: dev_id, ipa: address, size, kind });
    proof {
        let d = list.devs@;
        let n = old(list).devs@.len() as int;
        assert forall|i: int, j: int|
            0 <= i < d.len() && 0 <= j < d.len() && i != j && d[i].vm_id == d[j].vm_id implies !ranges_overlap(
            d[i].ipa,
            d[i].size,
            d[j].ipa,
            d[j].size,
        ) by {
            if i == n {
                assert(d[j] == old(list).devs@[j]);
            } else if j == n {
                assert(d[i] == old(list).devs@[i]);
            } else {
                assert(d[i] == old(list).devs@[i]);
                assert(d[j] == old(list).devs@[j]);
            }
        }
    }
}

/// Routes a data abort of VM `vm_id`: the first registered region that
/// contains the faulting IPA names the device that handles it.
pub fn emu_handler(list: &EmuDevList, vm_id: usize, emu_ctx: &EmuContext) -> (r: Option<EmuDevEntry>)
    ensures
        match r {
            Some(e) => exists|i: int|
                #[trigger] is_first_cover(list.devs@, vm_id, emu_ctx.address, i) && list.devs@[i] == e,
            None => forall|i: int|
                0 <= i < list.devs@.len() ==> !entry_covers(list.devs@[i], vm_id, emu_ctx.address),
        },
{
    let ipa = emu_ctx.address;
    let mut i: usize = 0;
    while i < list.devs.len()
        invariant
            i <= list.devs@.len(),
            ipa == emu_ctx.address,
            forall|k: int| 0 <= k < i ==> !entry_covers(list.devs@[k], vm_id, ipa),
        decreases list.devs@.len() - i,
    {
        let e = list.devs[i];
        if e.vm_id == vm_id && ipa >= e.ipa && ipa - e.ipa < e.size {
            assert(list.devs@[i as int] == e);
            assert(is_first_cover(list.devs@, vm_id, emu_ctx.address, i as int));
            return Some(e);
        }
        i = i + 1;
    }
    None
}

/// In a well-formed registry at most one region of a VM contains a given
/// IPA, so routing a fault never depends on registration order.
pub proof fn lemma_route_unique(devs: Seq<EmuDevEntry>, vm_id: usize, ipa: usize, i: int, j: int)
    requires
        emu_list_wf(devs),
        0 <= i < devs.len(),
        0 <= j < devs.len(),
        entry_covers(devs[i], vm_id, ipa),
        entry_covers(devs[j], vm_id, ipa),
    ensures
        i == j,
{
    if i != j {
        assert(ranges_overlap(devs[i].ipa, devs[i].size, devs[j].ipa, devs[j].size));
    }
}

/// The last byte of a registered region is routed to that region's device.
pub proof fn lemma_last_byte_routes_to_owner(devs: Seq<EmuDevEntry>, i: int)
    requires
        emu_list_wf(devs),
        0 <= i < devs.len(),
        devs[i].ipa + devs[i].size - 1 <= usize::MAX,
    ensures
        is_first_cover(devs, devs[i].vm_id, (devs[i].ipa + devs[i].size - 1) as usize, i),
{
    let ipa = (devs[i].ipa + devs[i].size - 1) as usize;
    assert(entry_covers(devs[i], devs[i].vm_id, ipa));
    assert forall|k: int| 0 <= k < i implies !entry_covers(devs[k], devs[i].vm_id, ipa) by {
        if entry_covers(devs[k], devs[i].vm_id, ipa) {
            lemma_route_unique(devs, devs[i].vm_id, ipa, k, i);
        }
    }
}

} // verus!
