//! PSCI calls a guest makes through SMC: which are answered here, which are
//! forwarded to firmware, and which become work for another core.
use vstd::prelude::*;

use crate::vm::Vm;

verus! {

pub const PSCI_VERSION: u32 = 0x84000000;

pub const PSCI_CPU_OFF: u32 = 0x84000002;

pub const PSCI_CPU_ON_64: u32 = 0xC4000003;

pub const PSCI_AFFINITY_INFO_64: u32 = 0xC4000004;

pub const PSCI_MIGRATE_INFO_TYPE: u32 = 0x84000006;

pub const PSCI_SYSTEM_OFF: u32 = 0x84000008;

pub const PSCI_SYSTEM_RESET: u32 = 0x84000009;

pub const PSCI_FEATURES: u32 = 0x8400000A;

/// PSCI return value for success.
pub const PSCI_SUCCESS: u64 = 0;

/// PSCI `NOT_SUPPORTED` (-1) as the register value a guest reads.
pub const PSCI_NOT_SUPPORTED: u64 = 0xffff_ffff_ffff_ffff;

/// PSCI `NOT_PRESENT` (-7) as the register value a guest reads.
pub const PSCI_NOT_PRESENT: u64 = 0xffff_ffff_ffff_fff9;

/// MIGRATE_INFO_TYPE answer: the trusted OS needs no migration.
pub const PSCI_MIGRATION_NOT_REQUIRED: u64 = 2;

/// What a guest's PSCI call leads to.
#[derive(Clone, Copy, Debug, PartialEq, Eq, Structural)]
pub enum PsciAction {
    /// Answer the guest with this value in `x0`.
    Return(u64),
    /// Ask the firmware for its PSCI version and pass the answer on.
    ForwardVersion,
    /// Wake vCPU `vcpu_id` on physical core `pcpu` at `entry` with `context`
    /// in `x0`; the guest gets `PSCI_SUCCESS`.
    CpuOn { vcpu_id: usize, pcpu: usize, entry: usize, context: usize },
    /// Reboot the calling VM; the guest gets 0.
    SystemReset,
    /// Power the calling VM off; the guest gets 0.
    SystemOff { vm_id: usize },
}

/// The vCPU a CPU_ON call names: Aff0 of the target MPIDR.
pub open spec fn mpidr_vcpu(mpidr: usize) -> usize {
    (mpidr as u64 & 0xff) as usize
}

/// The action for PSCI call `fid` with arguments `x1`..`x3` from VM `vm`,
/// or `None` for a function this hypervisor does not serve.
pub open spec fn psci_action_spec(vm: &Vm, fid: usize, x1: usize, x2: usize, x3: usize) -> Option<PsciAction> {
    let f = fid as u32;
    if f == PSCI_FEATURES {
        let q = x1 as u32;
        Some(PsciAction::Return(if q == PSCI_VERSION || q == PSCI_CPU_ON_64 || q == PSCI_FEATURES {
            PSCI_SUCCESS
        } else {
            PSCI_NOT_SUPPORTED
        }))
    } else if f == PSCI_VERSION {
        Some(PsciAction::ForwardVersion)
    } else if f == PSCI_CPU_ON_64 {
        let v = mpidr_vcpu(x1);
        if v < vm.cpu_num && v < vm.vcpu_list@.len() {
            Some(PsciAction::CpuOn { vcpu_id: v, pcpu: vm.vcpu_list@[v as int].phys_id, entry: x2, context: x3 })
        } else {
            Some(PsciAction::Return(PSCI_NOT_PRESENT))
        }
    } else if f == PSCI_SYSTEM_RESET {
        Some(PsciAction::SystemReset)
    } else if f == PSCI_SYSTEM_OFF {
        Some(PsciAction::SystemOff { vm_id: vm.id })
    } else if f == PSCI_MIGRATE_INFO_TYPE {
        Some(PsciAction::Return(PSCI_MIGRATION_NOT_REQUIRED))
    } else if f == PSCI_AFFINITY_INFO_64 {
        Some(PsciAction::Return(0))
    } else {
        None
    }
}

/// Decides a guest's PSCI call. CPU_ON targets the vCPU named by Aff0 of
/// the MPIDR and fails with `NOT_PRESENT` when that vCPU is not placed.
pub fn smc_guest_handler(vm: &Vm, fid: usize, x1: usize, x2: usize, x3: usize) -> (r: Option<PsciAction>)
    ensures
        r == psci_action_spec(vm, fid, x1, x2, x3),
{
    let f = fid as u32;
    if f == PSCI_FEATURES {
        let q = x1 as u32;
        if q == PSCI_VERSION || q == PSCI_CPU_ON_64 || q == PSCI_FEATURES {
            Some(PsciAction::Return(PSCI_SUCCESS))
        } else {
            Some(PsciAction::Return(PSCI_NOT_SUPPORTED))
        }
    } else if f == PSCI_VERSION {
        Some(PsciAction::ForwardVersion)
    } else if f == PSCI_CPU_ON_64 {
        psci_guest_cpu_on(vm, x1, x2, x3)
    } else if f == PSCI_SYSTEM_RESET {
        Some(PsciAction::SystemReset)
    } else if f == PSCI_SYSTEM_OFF {
        Some(PsciAction::SystemOff { vm_id: vm.id })
    } else if f == PSCI_MIGRATE_INFO_TYPE {
        Some(PsciAction::Return(PSCI_MIGRATION_NOT_REQUIRED))
    } else if f == PSCI_AFFINITY_INFO_64 {
        Some(PsciAction::Return(0))
    } else {
        None
    }
}

fn psci_guest_cpu_on(vm: &Vm, mpidr: usize, entry: usize, ctx: usize) -> (r: Option<PsciAction>)
    ensures
        r == psci_action_spec(vm, PSCI_CPU_ON_64 as usize, mpidr, entry, ctx),
{
    let vcpu_id = (mpidr as u64 & 0xff) as usize;
    match vm.vcpuid_to_pcpuid(vcpu_id) {
        Ok(phys_id) => Some(PsciAction::CpuOn { vcpu_id, pcpu: phys_id, entry, context: ctx }),
        Err(_) => Some(PsciAction::Return(PSCI_NOT_PRESENT)),
    }
}

/// What a core does with a CPU_ON request for one of its vCPUs: only a vCPU
/// that is not running yet is started.
pub fn psci_vcpu_on_allowed(state: crate::vcpu::VcpuState) -> (r: bool)
    ensures
        r == (state == crate::vcpu::VcpuState::VcpuInv),
{
    state == crate::vcpu::VcpuState::VcpuInv
}

/// Starts a vCPU bound to core `cpu_id`, the core doing it, at `entry`
/// with `ctx` as its argument register.
pub fn psci_vcpu_on(vcpu: &mut crate::vcpu::Vcpu, cpu_id: usize, entry: usize, ctx: usize)
    requires
        old(vcpu).phys_id == cpu_id,
    ensures
        final(vcpu).context.elr == entry as u64,
        final(vcpu).context.gpr@ == old(vcpu).context.gpr@.update(0, ctx as u64),
        final(vcpu).id == old(vcpu).id,
        final(vcpu).vm_id == old(vcpu).vm_id,
        final(vcpu).phys_id == old(vcpu).phys_id,
{
    vcpu.context.set_gpr(0, ctx);
    vcpu.context.set_exception_pc(entry);
}

/// What a core did with a power message about one of its vCPUs.
#[derive(Clone, Copy, Debug, PartialEq, Eq, Structural)]
pub enum PsciIpiOutcome {
    /// The vCPU in this pool slot was started.
    Woken(usize),
    /// The vCPU in this pool slot was running already; nothing changed.
    AlreadyRunning(usize),
    /// The active vCPU was reset to boot the VM's kernel again.
    Reset(usize),
    /// The core hosts no vCPU of the message's VM.
    NoVcpu,
    /// Powering a vCPU off on request is not supported.
    Unsupported,
    /// The message is not a power message.
    NotPower,
}

/// Whether slot `i` holds the first vCPU of VM `vm_id` in `pool`.
pub open spec fn is_first_vcpu_of(pool: Seq<crate::vcpu::Vcpu>, vm_id: usize, i: int) -> bool {
    &&& 0 <= i < pool.len()
    &&& pool[i].vm_id == vm_id
    &&& forall|k: int| 0 <= k < i ==> pool[k].vm_id != vm_id
}

/// The outcome of a power message `msg` on a core with vCPU pool `pool` and
/// active slot `active`.
pub open spec fn psci_ipi_outcome_spec(pool: Seq<crate::vcpu::Vcpu>, active: usize, msg: crate::ipi::IpiInnerMsg) -> PsciIpiOutcome {
    match msg {
        crate::ipi::IpiInnerMsg::Power { src, event, entry, context } => {
            if exists|i: int| is_first_vcpu_of(pool, src, i) {
                let i = choose|i: int| is_first_vcpu_of(pool, src, i);
                match event {
                    crate::ipi::PowerEvent::CpuOn => if pool[i].state == crate::vcpu::VcpuState::VcpuInv {
                        PsciIpiOutcome::Woken(i as usize)
                    } else {
                        PsciIpiOutcome::AlreadyRunning(i as usize)
                    },
                    crate::ipi::PowerEvent::CpuOff => PsciIpiOutcome::Unsupported,
                    crate::ipi::PowerEvent::Reset => PsciIpiOutcome::Reset(active),
                }
            } else {
                PsciIpiOutcome::NoVcpu
            }
        },
        _ => PsciIpiOutcome::NotPower,
    }
}

/// Handles a power message on core `cpu`. CPU_ON starts the core's first
/// vCPU of the sending VM at `entry` with `context` in `x0`, if it is not
/// running yet; a reset restarts the core's active vCPU at the VM's kernel
/// entry with the device tree address in `x0`.
pub fn psci_ipi_handler(
    cpu: &mut crate::sched::Pcpu,
    msg: &crate::ipi::IpiMessage,
    kernel_entry: usize,
    dtb_ipa: usize,
) -> (r: PsciIpiOutcome)
    requires
        old(cpu).wf(),
    ensures
        final(cpu).wf(),
        final(cpu).id == old(cpu).id,
        final(cpu).vcpu_pool.content@.len() == old(cpu).vcpu_pool.content@.len(),
        final(cpu).vcpu_pool.active_idx == old(cpu).vcpu_pool.active_idx,
        match r {
            PsciIpiOutcome::Woken(i) => {
                &&& i < old(cpu).vcpu_pool.content@.len()
                &&& old(cpu).vcpu_pool.content@[i as int].state == crate::vcpu::VcpuState::VcpuInv
                &&& final(cpu).vcpu_pool.content@[i as int].state == crate::vcpu::VcpuState::VcpuPend
                &&& msg.ipi_message matches crate::ipi::IpiInnerMsg::Power { src, event, entry, context }
                    && event == crate::ipi::PowerEvent::CpuOn
                    && old(cpu).vcpu_pool.content@[i as int].vm_id == src
                    && final(cpu).vcpu_pool.content@[i as int].context.elr == entry as u64
                    && final(cpu).vcpu_pool.content@[i as int].context.gpr@[0] == context as u64
            },
            PsciIpiOutcome::Reset(i) => {
                &&& i == old(cpu).vcpu_pool.active_idx
                &&& i < old(cpu).vcpu_pool.content@.len()
                &&& final(cpu).vcpu_pool.content@[i as int].context.elr == kernel_entry as u64
                &&& final(cpu).vcpu_pool.content@[i as int].context.gpr@[0] == dtb_ipa as u64
            },
            _ => final(cpu).vcpu_pool.content@ == old(cpu).vcpu_pool.content@,
        },
        r == psci_ipi_outcome_spec(old(cpu).vcpu_pool.content@, old(cpu).vcpu_pool.active_idx, msg.ipi_message),
{
    match msg.ipi_message {
        crate::ipi::IpiInnerMsg::Power { src, event, entry, context } => {
            let slot = match crate::sched::pop_vcpu_through_vmid(cpu, src) {
                Some(s) => s,
                None => {
                    assert(!exists|i: int| is_first_vcpu_of(cpu.vcpu_pool.content@, src, i));
                    return PsciIpiOutcome::NoVcpu;
                },
            };
            proof {
                assert(is_first_vcpu_of(cpu.vcpu_pool.content@, src, slot as int));
                let c = choose|i: int| is_first_vcpu_of(cpu.vcpu_pool.content@, src, i);
                if c < slot as int {
                    assert(cpu.vcpu_pool.content@[c].vm_id != src);
                } else if c > slot as int {
                    assert(cpu.vcpu_pool.content@[slot as int].vm_id != src);
                }
                assert(c == slot as int);
            }
            match event {
                crate::ipi::PowerEvent::CpuOn => {
                    let mut v = cpu.vcpu_pool.content[slot];
                    if !psci_vcpu_on_allowed(v.state) {
                        return PsciIpiOutcome::AlreadyRunning(slot);
                    }
                    psci_vcpu_on(&mut v, cpu.id, entry, context);
                    v.state = crate::vcpu::VcpuState::VcpuPend;
                    cpu.vcpu_pool.content.set(slot, v);
                    PsciIpiOutcome::Woken(slot)
                },
                crate::ipi::PowerEvent::CpuOff => PsciIpiOutcome::Unsupported,
                crate::ipi::PowerEvent::Reset => {
                    let a = cpu.vcpu_pool.active_idx;
                    let mut v = cpu.vcpu_pool.content[a];
                    v.context.set_exception_pc(kernel_entry);
                    v.context.set_argument(dtb_ipa);
                    cpu.vcpu_pool.content.set(a, v);
                    PsciIpiOutcome::Reset(a)
                },
            }
        },
        _ => PsciIpiOutcome::NotPower,
    }
}

} // verus!
