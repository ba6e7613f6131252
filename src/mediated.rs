//! Mediated block devices: block back-ends that the management VM exposes
//! and the hypervisor hands out, one per guest that asks for a mediated
//! virtio-blk device.
use vstd::prelude::*;

use crate::address::{hva_of, vm_ipa2hva};

verus! {

/// Static configuration of a mediated block device's shared page.
#[derive(Clone, Copy, Debug, PartialEq, Eq, Structural)]
pub struct MediatedBlkCfg {
    pub cache_ipa: usize,
    pub cache_pa: usize,
    pub dma_block_max: usize,
}

/// The request slot of a mediated block device's shared page.
#[derive(Clone, Copy, Debug, PartialEq, Eq, Structural)]
pub struct MediatedBlkReq {
    pub req_type: u32,
    pub sector: usize,
    pub count: usize,
}

/// The page that the management VM and the hypervisor share for one
/// mediated block device.
#[derive(Clone, Copy, Debug, PartialEq, Eq, Structural)]
pub struct MediatedBlkContent {
    pub nreq: usize,
    pub cfg: MediatedBlkCfg,
    pub req: MediatedBlkReq,
}

/// One mediated block device: where its shared page is and whether it is
/// still free to be given to a guest.
#[derive(Clone, Copy, Debug, PartialEq, Eq, Structural)]
pub struct MediatedBlk {
    pub base_addr: usize,
    pub avail: bool,
    pub content: MediatedBlkContent,
}

impl MediatedBlk {
    pub fn dma_block_max(&self) -> (r: usize)
        ensures
            r == self.content.cfg.dma_block_max,
    {
        self.content.cfg.dma_block_max
    }

    pub fn nreq(&self) -> (r: usize)
        ensures
            r == self.content.nreq,
    {
        self.content.nreq
    }

    pub fn cache_ipa(&self) -> (r: usize)
        ensures
            r == self.content.cfg.cache_ipa,
    {
        self.content.cfg.cache_ipa
    }

    pub fn cache_pa(&self) -> (r: usize)
        ensures
            r == self.content.cfg.cache_pa,
    {
        self.content.cfg.cache_pa
    }

    pub fn set_nreq(&mut self, nreq: usize)
        ensures
            *final(self) == (MediatedBlk {
                content: MediatedBlkContent { nreq, ..old(self).content },
                ..*old(self)
            }),
    {
        self.content.nreq = nreq;
    }

    pub fn set_type(&mut self, req_type: usize)
        requires
            req_type <= u32::MAX,
        ensures
            *final(self) == (MediatedBlk {
                content: MediatedBlkContent {
                    req: MediatedBlkReq { req_type: req_type as u32, ..old(self).content.req },
                    ..old(self).content
                },
                ..*old(self)
            }),
    {
        self.content.req.req_type = req_type as u32;
    }

    pub fn set_sector(&mut self, sector: usize)
        ensures
            *final(self) == (MediatedBlk {
                content: MediatedBlkContent {
                    req: MediatedBlkReq { sector, ..old(self).content.req },
                    ..old(self).content
                },
                ..*old(self)
            }),
    {
        self.content.req.sector = sector;
    }

    pub fn set_count(&mut self, count: usize)
        ensures
            *final(self) == (MediatedBlk {
                content: MediatedBlkContent {
                    req: MediatedBlkReq { count, ..old(self).content.req },
                    ..old(self).content
                },
                ..*old(self)
            }),
    {
        self.content.req.count = count;
    }

    pub fn set_cache_pa(&mut self, cache_pa: usize)
        ensures
            *final(self) == (MediatedBlk {
                content: MediatedBlkContent {
                    cfg: MediatedBlkCfg { cache_pa, ..old(self).content.cfg },
                    ..old(self).content
                },
                ..*old(self)
            }),
    {
        self.content.cfg.cache_pa = cache_pa;
    }
}

/// The mediated block devices in the order the management VM appended them;
/// a device's index is its id.
pub struct MediatedBlkList {
    pub blks: Vec<MediatedBlk>,
}

/// Whether some VM's configuration claims mediated block `idx`.
pub open spec fn claimed_by_some_vm(claims: Seq<Option<usize>>, idx: int) -> bool {
    exists|i: int| 0 <= i < claims.len() && claims[i] == Some(idx as usize)
}

/// Whether `idx` is the first free mediated block of `blks`.
pub open spec fn is_first_free(blks: Seq<MediatedBlk>, idx: int) -> bool {
    &&& 0 <= idx < blks.len()
    &&& blks[idx].avail
    &&& forall|j: int| 0 <= j < idx ==> !blks[j].avail
}

impl MediatedBlkList {
    pub fn new() -> (r: Self)
        ensures
            r.blks@.len() == 0,
    {
        MediatedBlkList { blks: Vec::new() }
    }
}

/// Appends `blk`; it is taken already when a VM's configuration claims the
/// index it gets (`claims` holds each existing VM's mediated block index).
pub fn mediated_blk_list_push(list: &mut MediatedBlkList, blk: MediatedBlk, claims: &[Option<usize>])
    ensures
        final(list).blks@ == old(list).blks@.push(
            MediatedBlk {
                avail: blk.avail && !claimed_by_some_vm(claims@, old(list).blks@.len() as int),
                ..blk
            },
        ),
{
    let mut b = blk;
    let idx = list.blks.len();
    let mut i: usize = 0;
    while i < claims.len()
        invariant
            i <= claims@.len(),
            idx == list.blks@.len(),
            list.blks@ == old(list).blks@,
            forall|j: int| 0 <= j < i ==> claims@[j] != Some(idx),
            b == blk,
        decreases claims@.len() - i,
    {
        if let Some(id) = claims[i] {
            if id == idx {
                assert(claimed_by_some_vm(claims@, idx as int));
                b.avail = false;
                list.blks.push(b);
                return;
            }
        }
        i = i + 1;
    }
    list.blks.push(b);
}

/// Hands out the first free mediated block, or fails when none is free.
pub fn mediated_blk_request(list: &mut MediatedBlkList) -> (r: Result<usize, ()>)
    ensures
        match r {
            Ok(idx) => is_first_free(old(list).blks@, idx as int) && final(list).blks@
                == old(list).blks@.update(
                idx as int,
                MediatedBlk { avail: false, ..old(list).blks@[idx as int] },
            ),
            Err(()) => (forall|j: int| 0 <= j < old(list).blks@.len() ==> !old(list).blks@[j].avail)
                && final(list).blks@ == old(list).blks@,
        },
{
    let mut i: usize = 0;
    while i < list.blks.len()
        invariant
            i <= list.blks@.len(),
            list.blks@ == old(list).blks@,
            forall|j: int| 0 <= j < i ==> !list.blks@[j].avail,
        decreases list.blks@.len() - i,
    {
        if list.blks[i].avail {
            let mut b = list.blks[i];
            b.avail = false;
            list.blks.set(i, b);
            return Ok(i);
        }
        i = i + 1;
    }
    Err(())
}

/// Returns mediated block `idx` to the free pool.
pub fn mediated_blk_free(list: &mut MediatedBlkList, idx: usize)
    requires
        idx < old(list).blks@.len(),
    ensures
        final(list).blks@ == old(list).blks@.update(
            idx as int,
            MediatedBlk { avail: true, ..old(list).blks@[idx as int] },
        ),
{
    let mut b = list.blks[idx];
    b.avail = true;
    list.blks.set(idx, b);
}

pub fn mediated_blk_list_get(list: &MediatedBlkList, idx: usize) -> (r: MediatedBlk)
    requires
        idx < list.blks@.len(),
    ensures
        r == list.blks@[idx as int],
{
    list.blks[idx]
}

/// The first mediated block whose shared page is at `pa`.
pub fn mediated_blk_list_get_from_pa(list: &MediatedBlkList, pa: usize) -> (r: Option<MediatedBlk>)
    ensures
        match r {
            Some(b) => exists|i: int|
                0 <= i < list.blks@.len() && list.blks@[i] == b && b.base_addr == pa && forall|
                    j: int,
                | 0 <= j < i ==> list.blks@[j].base_addr != pa,
            None => forall|j: int| 0 <= j < list.blks@.len() ==> list.blks@[j].base_addr != pa,
        },
{
    let mut i: usize = 0;
    while i < list.blks.len()
        invariant
            i <= list.blks@.len(),
            forall|j: int| 0 <= j < i ==> list.blks@[j].base_addr != pa,
        decreases list.blks@.len() - i,
    {
        if list.blks[i].base_addr == pa {
            return Some(list.blks[i]);
        }
        i = i + 1;
    }
    None
}

/// Registers the mediated block device whose shared page the management VM
/// `mvm_id` placed at `mmio_ipa`. Its request counter starts at zero and its
/// cache is reached through the management VM's HVA alias.
pub fn mediated_dev_append(
    list: &mut MediatedBlkList,
    mvm_id: usize,
    mmio_ipa: usize,
    content: MediatedBlkContent,
    claims: &[Option<usize>],
) -> (r: Result<usize, ()>)
    ensures
        r == Ok::<usize, ()>(0),
        final(list).blks@.len() == old(list).blks@.len() + 1,
        final(list).blks@.drop_last() == old(list).blks@,
        final(list).blks@.last() == (MediatedBlk {
            base_addr: hva_of(mvm_id, mmio_ipa) as usize,
            avail: !claimed_by_some_vm(claims@, old(list).blks@.len() as int),
            content: MediatedBlkContent {
                nreq: 0,
                cfg: MediatedBlkCfg {
                    cache_pa: hva_of(mvm_id, content.cfg.cache_ipa) as usize,
                    ..content.cfg
                },
                ..content
            },
        }),
{
    let blk_pa = vm_ipa2hva(mvm_id, mmio_ipa);
    let mut blk = MediatedBlk { base_addr: blk_pa, avail: true, content };
    blk.set_nreq(0);
    let cache_pa = vm_ipa2hva(mvm_id, blk.cache_ipa());
    blk.set_cache_pa(cache_pa);
    mediated_blk_list_push(list, blk, claims);
    assert(list.blks@.drop_last() =~= old(list).blks@);
    Ok(0)
}

/// A finished chain of a mediated request: its head and the bytes written.
#[derive(Clone, Copy, Debug, PartialEq, Eq, Structural)]
pub struct UsedInfo {
    pub desc_chain_head_idx: u32,
    pub used_len: u32,
}

/// Registers the handler of mediated-device messages; fails when it is
/// registered already.
pub fn mediated_dev_init(handlers: &mut crate::ipi::IpiHandlerList) -> (r: bool)
    ensures
        r == !old(handlers).registered@.contains(crate::ipi::IpiType::IpiTMediatedDev),
        final(handlers).registered@.contains(crate::ipi::IpiType::IpiTMediatedDev),
{
    crate::ipi::ipi_register(handlers, crate::ipi::IpiType::IpiTMediatedDev)
}

/// Progress of a mediated I/O task.
#[derive(Clone, Copy, Debug, PartialEq, Eq, Structural)]
pub enum AsyncTaskState {
    Pending,
    Running,
    Finish,
}

/// A queued mediated I/O task: the request and where its chain goes back.
#[derive(Clone, Debug)]
pub struct IoTask {
    pub msg: crate::blk::IoMediatedMsg,
    pub used: UsedInfo,
    pub state: AsyncTaskState,
}

/// The mediated I/O tasks of the management VM's core, oldest first.
pub struct IoTaskQueue {
    pub tasks: Vec<IoTask>,
}

impl IoTaskQueue {
    pub fn new() -> (r: Self)
        ensures
            r.tasks@.len() == 0,
    {
        IoTaskQueue { tasks: Vec::new() }
    }
}

/// Queues a task behind the existing ones, pending.
pub fn add_task(q: &mut IoTaskQueue, msg: crate::blk::IoMediatedMsg, used: UsedInfo)
    ensures
        final(q).tasks@.len() == old(q).tasks@.len() + 1,
        final(q).tasks@.drop_last() == old(q).tasks@,
        final(q).tasks@.last().used == used,
        final(q).tasks@.last().state == AsyncTaskState::Pending,
        crate::blk::msg_same(final(q).tasks@.last().msg, msg),
{
    q.tasks.push(IoTask { msg, used, state: AsyncTaskState::Pending });
    assert(q.tasks@.drop_last() =~= old(q).tasks@);
}

/// Marks the oldest task finished: the management VM completed it.
pub fn set_front_io_task_state(q: &mut IoTaskQueue, state: AsyncTaskState) -> (r: bool)
    ensures
        r == (old(q).tasks@.len() > 0),
        final(q).tasks@.len() == old(q).tasks@.len(),
        r ==> final(q).tasks@[0].state == state && final(q).tasks@[0].used == old(q).tasks@[0].used,
        forall|i: int| 1 <= i < old(q).tasks@.len() ==> #[trigger] final(q).tasks@[i] == old(q).tasks@[i],
{
    if q.tasks.len() == 0 {
        return false;
    }
    let mut t = q.tasks.remove(0);
    t.state = state;
    q.tasks.insert(0, t);
    true
}

/// Takes the oldest task if it is finished; tasks complete in the order
/// they were queued.
pub fn finish_front_task(q: &mut IoTaskQueue) -> (r: Option<UsedInfo>)
    ensures
        r is Some <==> (old(q).tasks@.len() > 0 && old(q).tasks@[0].state == AsyncTaskState::Finish),
        r matches Some(u) ==> u == old(q).tasks@[0].used && final(q).tasks@ == old(q).tasks@.drop_first(),
        r is None ==> final(q).tasks@ == old(q).tasks@,
{
    if q.tasks.len() == 0 || q.tasks[0].state != AsyncTaskState::Finish {
        return None;
    }
    let t = q.tasks.remove(0);
    assert(q.tasks@ =~= old(q).tasks@.drop_first());
    Some(t.used)
}

/// The handled chains of `outs` that produced a mediated request, in order.
pub open spec fn task_outs(outs: Seq<crate::blk::ChainOutcome>) -> Seq<crate::blk::ChainOutcome>
    decreases outs.len(),
{
    if outs.len() == 0 {
        Seq::empty()
    } else if outs.last().task is Some {
        task_outs(outs.drop_last()).push(outs.last())
    } else {
        task_outs(outs.drop_last())
    }
}

/// Whether `tasks` holds, from position `n0`, one pending task for each of
/// `touts`, with that chain's request, head and length.
pub open spec fn tasks_match(tasks: Seq<IoTask>, n0: int, touts: Seq<crate::blk::ChainOutcome>) -> bool {
    &&& tasks.len() == n0 + touts.len()
    &&& forall|i: int| 0 <= i < touts.len() ==> {
        let t = #[trigger] tasks[n0 + i];
        &&& t.state == AsyncTaskState::Pending
        &&& t.used == (UsedInfo { desc_chain_head_idx: touts[i].head as u32, used_len: touts[i].total as u32 })
        &&& crate::blk::msg_same(t.msg, touts[i].task->0)
    }
}

/// Queues, behind the existing tasks and in chain order, one pending task
/// for every handled chain that produced a mediated request; the task
/// carries that request and records the chain's head and the bytes to
/// report on completion.
pub fn queue_mediated_tasks(q: &mut IoTaskQueue, outs: Vec<crate::blk::ChainOutcome>)
    ensures
        final(q).tasks@.take(old(q).tasks@.len() as int) == old(q).tasks@,
        tasks_match(final(q).tasks@, old(q).tasks@.len() as int, task_outs(outs@)),
{
    let mut k: usize = 0;
    let ghost n0 = q.tasks@.len() as int;
    while k < outs.len()
        invariant
            k <= outs@.len(),
            n0 == old(q).tasks@.len(),
            q.tasks@.take(n0) == old(q).tasks@,
            tasks_match(q.tasks@, n0, task_outs(outs@.take(k as int))),
        decreases outs@.len() - k,
    {
        let o = &outs[k];
        proof {
            assert(outs@.take(k as int + 1).drop_last() =~= outs@.take(k as int));
            assert(outs@.take(k as int + 1).last() == outs@[k as int]);
        }
        let ghost before = q.tasks@;
        let ghost touts = task_outs(outs@.take(k as int));
        match &o.task {
            Some(t) => {
                let used = UsedInfo { desc_chain_head_idx: o.head as u32, used_len: #[verifier::truncate] (o.total as u32) };
                add_task(q, t.duplicate(), used);
                proof {
                    assert(q.tasks@.take(n0) =~= before.take(n0));
                    let nt = task_outs(outs@.take(k as int + 1));
                    assert(nt == touts.push(outs@[k as int]));
                    assert forall|i: int| 0 <= i < nt.len() implies {
                        let t = #[trigger] q.tasks@[n0 + i];
                        &&& t.state == AsyncTaskState::Pending
                        &&& t.used == (UsedInfo { desc_chain_head_idx: nt[i].head as u32, used_len: nt[i].total as u32 })
                        &&& crate::blk::msg_same(t.msg, nt[i].task->0)
                    } by {
                        if i < touts.len() {
                            assert(q.tasks@[n0 + i] == before[n0 + i]);
                        }
                    }
                }
            },
            None => {},
        }
        k = k + 1;
    }
    assert(outs@.take(k as int) =~= outs@);
}

/// A mediated-device message asks the management VM's core to serve the
/// block queue `vq` of the VM it names: every offered chain is handled as a
/// mediated request, and each request is queued, in order, as a task for
/// the management VM. Any other message changes nothing and gives `false`.
pub fn mediated_ipi_handler(
    msg: &crate::ipi::IpiMessage,
    vq: &mut crate::virtq::Virtq,
    headers: &[Option<crate::blk::BlkReqHeader>],
    region: crate::blk::BlkReqRegion,
    cache: usize,
    q: &mut IoTaskQueue,
) -> (r: bool)
    ensures
        !(msg.ipi_message is MediatedMsg) ==> !r && final(q).tasks@ == old(q).tasks@ && final(vq).last_avail_idx
            == old(vq).last_avail_idx && final(vq).used == old(vq).used,
        msg.ipi_message matches crate::ipi::IpiInnerMsg::MediatedMsg { src_id } ==> {
            &&& final(vq).used == old(vq).used
            &&& final(q).tasks@.take(old(q).tasks@.len() as int) == old(q).tasks@
            &&& exists|outs: Seq<crate::blk::ChainOutcome>| {
                &&& forall|j: int| 0 <= j < outs.len() ==> crate::blk::outcome_at(*old(vq), headers@, #[trigger] outs[j], j, src_id, region, true, cache)
                &&& old(vq).ready != 0 ==> final(vq).last_avail_idx == crate::blk::idx_add(old(vq).last_avail_idx, outs.len() as int + if r { 0int } else { 1int })
                &&& r ==> !crate::virtq::chain_pending(*final(vq))
                &&& #[trigger] tasks_match(final(q).tasks@, old(q).tasks@.len() as int, task_outs(outs))
            }
        },
{
    match msg.ipi_message {
        crate::ipi::IpiInnerMsg::MediatedMsg { src_id } => {
            let (ok, outs) = crate::blk::virtio_blk_notify_handler(vq, headers, src_id, region, true, cache);
            let ghost o = outs@;
            queue_mediated_tasks(q, outs);
            assert(tasks_match(q.tasks@, old(q).tasks@.len() as int, task_outs(o)));
            ok
        },
        _ => false,
    }
}

} // verus!
