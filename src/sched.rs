//! Per-core scheduling: the pool of vCPUs a physical core runs in
//! round-robin order, and which of them is active.
use vstd::prelude::*;

use crate::vcpu::{Vcpu, VcpuState};

verus! {

/// Most vCPUs one physical core hosts.
pub const VCPU_POOL_MAX: usize = 4;

/// The vCPUs of one core, in the order they were assigned, and the slot of
/// the active one.
pub struct VcpuPool {
    pub content: Vec<Vcpu>,
    pub active_idx: usize,
    pub running: usize,
}

impl VcpuPool {
    pub fn default() -> (r: VcpuPool)
        ensures
            r.content@.len() == 0,
            r.active_idx == 0,
            r.running == 0,
    {
        VcpuPool { content: Vec::new(), active_idx: 0, running: 0 }
    }
}

/// A physical core and the vCPUs it hosts.
pub struct Pcpu {
    pub id: usize,
    pub vcpu_pool: VcpuPool,
}

impl Pcpu {
    /// Every vCPU the core hosts records the core as the one running it, the
    /// active slot names one of them, and the pool is within its bound.
    pub open spec fn wf(&self) -> bool {
        &&& self.vcpu_pool.content@.len() <= VCPU_POOL_MAX
        &&& self.vcpu_pool.running == self.vcpu_pool.content@.len()
        &&& forall|i: int|
            0 <= i < self.vcpu_pool.content@.len() ==> (#[trigger] self.vcpu_pool.content@[i]).phys_id
                == self.id
        &&& self.vcpu_pool.content@.len() > 0 ==> self.vcpu_pool.active_idx
            < self.vcpu_pool.content@.len()
    }

    /// Core `id` with an empty pool.
    pub fn new(id: usize) -> (r: Pcpu)
        ensures
            r.id == id,
            r.vcpu_pool.content@.len() == 0,
            r.wf(),
    {
        Pcpu { id, vcpu_pool: VcpuPool::default() }
    }

    /// The vCPU the core is running, if it hosts any.
    pub fn active_vcpu(&self) -> (r: Option<&Vcpu>)
        requires
            self.wf(),
        ensures
            match r {
                Some(v) => self.vcpu_pool.content@.len() > 0 && *v
                    == self.vcpu_pool.content@[self.vcpu_pool.active_idx as int],
                None => self.vcpu_pool.content@.len() == 0,
            },
    {
        if self.vcpu_pool.content.len() == 0 {
            None
        } else {
            Some(&self.vcpu_pool.content[self.vcpu_pool.active_idx])
        }
    }
}

/// Empties the core's pool.
pub fn vcpu_pool_init(cpu: &mut Pcpu)
    ensures
        final(cpu).id == old(cpu).id,
        final(cpu).vcpu_pool.content@.len() == 0,
        final(cpu).wf(),
{
    cpu.vcpu_pool = VcpuPool::default();
}

/// Gives `vcpu` to the core: it becomes pending and records the core as the
/// one running it. Fails when the pool is full.
pub fn vcpu_pool_append(cpu: &mut Pcpu, vcpu: Vcpu) -> (r: bool)
    requires
        old(cpu).wf(),
    ensures
        final(cpu).wf(),
        final(cpu).id == old(cpu).id,
        r == (old(cpu).vcpu_pool.content@.len() < VCPU_POOL_MAX),
        r ==> final(cpu).vcpu_pool.content@ == old(cpu).vcpu_pool.content@.push(
            Vcpu { phys_id: old(cpu).id, state: VcpuState::VcpuPend, ..vcpu },
        ),
        !r ==> final(cpu).vcpu_pool.content@ == old(cpu).vcpu_pool.content@,
        final(cpu).vcpu_pool.active_idx == (if r && old(cpu).vcpu_pool.content@.len() == 0 {
            0
        } else {
            old(cpu).vcpu_pool.active_idx
        }),
{
    if cpu.vcpu_pool.content.len() >= VCPU_POOL_MAX {
        return false;
    }
    if cpu.vcpu_pool.content.len() == 0 {
        cpu.vcpu_pool.active_idx = 0;
    }
    let mut v = vcpu;
    v.state = VcpuState::VcpuPend;
    v.phys_id = cpu.id;
    cpu.vcpu_pool.content.push(v);
    cpu.vcpu_pool.running = cpu.vcpu_pool.running + 1;
    true
}

/// Makes slot `idx` the active vCPU.
pub fn set_active_vcpu(cpu: &mut Pcpu, idx: usize)
    requires
        old(cpu).wf(),
        idx < old(cpu).vcpu_pool.content@.len(),
    ensures
        final(cpu).wf(),
        final(cpu).id == old(cpu).id,
        final(cpu).vcpu_pool.content@ == old(cpu).vcpu_pool.content@,
        final(cpu).vcpu_pool.active_idx == idx,
{
    cpu.vcpu_pool.active_idx = idx;
}

/// Rotates to the next vCPU of the pool, round robin.
pub fn resched(cpu: &mut Pcpu)
    requires
        old(cpu).wf(),
    ensures
        final(cpu).wf(),
        final(cpu).id == old(cpu).id,
        final(cpu).vcpu_pool.content@ == old(cpu).vcpu_pool.content@,
        old(cpu).vcpu_pool.content@.len() > 0 ==> final(cpu).vcpu_pool.active_idx == (
        old(cpu).vcpu_pool.active_idx + 1) % (old(cpu).vcpu_pool.content@.len() as int),
        old(cpu).vcpu_pool.content@.len() == 0 ==> final(cpu).vcpu_pool.active_idx == old(
            cpu,
        ).vcpu_pool.active_idx,
{
    let n = cpu.vcpu_pool.content.len();
    if n > 0 {
        let a = cpu.vcpu_pool.active_idx;
        let next = if a + 1 == n {
            assert((a + 1) as int % (n as int) == 0) by (nonlinear_arith)
                requires
                    a + 1 == n,
                    n > 0,
            ;
            0
        } else {
            assert((a + 1) as int % (n as int) == a + 1) by (nonlinear_arith)
                requires
                    a + 1 < n,
            ;
            a + 1
        };
        cpu.vcpu_pool.active_idx = next;
    }
}

/// Slot of the first vCPU of VM `vm_id` on the core.
pub fn pop_vcpu_through_vmid(cpu: &Pcpu, vm_id: usize) -> (r: Option<usize>)
    ensures
        match r {
            Some(i) => i < cpu.vcpu_pool.content@.len() && cpu.vcpu_pool.content@[i as int].vm_id
                == vm_id && forall|k: int|
                0 <= k < i ==> cpu.vcpu_pool.content@[k].vm_id != vm_id,
            None => forall|k: int|
                0 <= k < cpu.vcpu_pool.content@.len() ==> cpu.vcpu_pool.content@[k].vm_id != vm_id,
        },
{
    let mut i: usize = 0;
    while i < cpu.vcpu_pool.content.len()
        invariant
            i <= cpu.vcpu_pool.content@.len(),
            forall|k: int| 0 <= k < i ==> cpu.vcpu_pool.content@[k].vm_id != vm_id,
        decreases cpu.vcpu_pool.content@.len() - i,
    {
        if cpu.vcpu_pool.content[i].vm_id == vm_id {
            return Some(i);
        }
        i = i + 1;
    }
    None
}

/// A core that hosts vCPUs is running one that records it as its core.
pub proof fn lemma_active_vcpu_on_its_core(cpu: Pcpu)
    requires
        cpu.wf(),
        cpu.vcpu_pool.content@.len() > 0,
    ensures
        cpu.vcpu_pool.content@[cpu.vcpu_pool.active_idx as int].phys_id == cpu.id,
{
}

} // verus!
