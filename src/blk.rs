//! virtio-blk back-end: parsing a descriptor chain into a block request,
//! checking it against the VM's disk region, and deciding the mediated I/O
//! task the management VM performs for it.
use vstd::prelude::*;

use crate::address::{hva_of, vm_ipa2hva};
use crate::virtq::{Virtq, VringDesc, DESC_QUEUE_SIZE, VIRTQ_DESC_F_NEXT, VIRTQ_DESC_F_WRITE};

verus! {

/// Interrupt of the virtio-blk device.
pub const BLK_IRQ: usize = 0x30;

pub const VIRTQUEUE_BLK_MAX_SIZE: usize = 256;

pub const VIRTQUEUE_NET_MAX_SIZE: usize = 256;

pub const VIRTIO_BLK_F_SIZE_MAX: usize = 2;

pub const VIRTIO_BLK_F_SEG_MAX: usize = 4;

pub const SECTOR_BSIZE: usize = 512;

/// Most data segments of one request.
pub const BLOCKIF_IOV_MAX: usize = 64;

pub const VIRTIO_BLK_T_IN: u32 = 0;

pub const VIRTIO_BLK_T_OUT: u32 = 1;

pub const VIRTIO_BLK_T_GET_ID: u32 = 8;

pub const VIRTIO_BLK_S_OK: u8 = 0;

pub const VIRTIO_BLK_S_UNSUPP: u8 = 2;

/// Bytes of the device id a GET_ID request returns.
pub const BLK_ID_BYTES: u64 = 20;

/// Disk geometry in the device's configuration space.
#[derive(Clone, Copy, Debug, PartialEq, Eq, Structural)]
pub struct BlkGeometry {
    pub cylinders: u16,
    pub heads: u8,
    pub sectors: u8,
}

impl BlkGeometry {
    pub fn default() -> (r: BlkGeometry)
        ensures
            r == (BlkGeometry { cylinders: 0, heads: 0, sectors: 0 }),
    {
        BlkGeometry { cylinders: 0, heads: 0, sectors: 0 }
    }
}

/// Block topology in the device's configuration space.
#[derive(Clone, Copy, Debug, PartialEq, Eq, Structural)]
pub struct BlkTopology {
    pub physical_block_exp: u8,
    pub alignment_offset: u8,
    pub min_io_size: u16,
    pub opt_io_size: u32,
}

impl BlkTopology {
    pub fn default() -> (r: BlkTopology)
        ensures
            r == (BlkTopology {
                physical_block_exp: 0,
                alignment_offset: 0,
                min_io_size: 0,
                opt_io_size: 0,
            }),
    {
        BlkTopology { physical_block_exp: 0, alignment_offset: 0, min_io_size: 0, opt_io_size: 0 }
    }
}

/// The configuration space of a virtio-blk device.
#[derive(Clone, Copy, Debug, PartialEq, Eq, Structural)]
pub struct BlkDescInner {
    pub capacity: usize,
    pub size_max: u32,
    pub seg_max: u32,
    pub geometry: BlkGeometry,
    pub blk_size: usize,
    pub topology: BlkTopology,
    pub writeback: u8,
    pub max_discard_sectors: u32,
    pub max_discard_seg: u32,
    pub discard_sector_alignment: u32,
    pub max_write_zeroes_sectors: u32,
    pub max_write_zeroes_seg: u32,
    pub write_zeroes_may_unmap: u8,
}

impl BlkDescInner {
    /// An all-zero configuration space.
    pub fn default() -> (r: BlkDescInner)
        ensures
            r == (BlkDescInner {
                capacity: 0,
                size_max: 0,
                seg_max: 0,
                geometry: BlkGeometry { cylinders: 0, heads: 0, sectors: 0 },
                blk_size: 0,
                topology: BlkTopology {
                    physical_block_exp: 0,
                    alignment_offset: 0,
                    min_io_size: 0,
                    opt_io_size: 0,
                },
                writeback: 0,
                max_discard_sectors: 0,
                max_discard_seg: 0,
                discard_sector_alignment: 0,
                max_write_zeroes_sectors: 0,
                max_write_zeroes_seg: 0,
                write_zeroes_may_unmap: 0,
            }),
    {
        BlkDescInner {
            capacity: 0,
            size_max: 0,
            seg_max: 0,
            geometry: BlkGeometry::default(),
            blk_size: 0,
            topology: BlkTopology::default(),
            writeback: 0,
            max_discard_sectors: 0,
            max_discard_seg: 0,
            discard_sector_alignment: 0,
            max_write_zeroes_sectors: 0,
            max_write_zeroes_seg: 0,
            write_zeroes_may_unmap: 0,
        }
    }

    /// Announces a disk of `bsize` sectors, page-sized segments and at most
    /// `BLOCKIF_IOV_MAX` of them per request.
    pub fn cfg_init(&mut self, bsize: usize)
        ensures
            *final(self) == (BlkDescInner {
                capacity: bsize,
                size_max: 4096,
                seg_max: BLOCKIF_IOV_MAX as u32,
                ..*old(self)
            }),
    {
        self.capacity = bsize;
        self.size_max = 4096;
        self.seg_max = BLOCKIF_IOV_MAX as u32;
    }
}

/// One data segment of a request: a hypervisor address and a length.
#[derive(Clone, Copy, Debug, PartialEq, Eq, Structural)]
pub struct BlkIov {
    pub data_bg: usize,
    pub len: u32,
}

/// The part of the disk a VM may use, in sectors.
#[derive(Clone, Copy, Debug, PartialEq, Eq, Structural)]
pub struct BlkReqRegion {
    pub start: usize,
    pub size: usize,
}

/// A parsed block request.
#[derive(Clone, Debug)]
pub struct VirtioBlkReq {
    pub req_type: u32,
    pub sector: usize,
    pub iov: Vec<BlkIov>,
    pub iov_total: u64,
    pub region: BlkReqRegion,
    pub mediated: bool,
}

/// Total length of the segments.
pub open spec fn iov_sum(iov: Seq<BlkIov>) -> int
    decreases iov.len(),
{
    if iov.len() == 0 {
        0
    } else {
        iov_sum(iov.drop_last()) + iov.last().len as int
    }
}

proof fn lemma_iov_sum_bound(iov: Seq<BlkIov>)
    ensures
        0 <= iov_sum(iov) <= iov.len() * 0xffff_ffff,
    decreases iov.len(),
{
    if iov.len() > 0 {
        lemma_iov_sum_bound(iov.drop_last());
    }
}

impl VirtioBlkReq {
    /// An empty request over the disk region `[0, 0)`.
    pub fn default() -> (r: VirtioBlkReq)
        ensures
            r.req_type == 0,
            r.sector == 0,
            r.iov@.len() == 0,
            r.iov_total == 0,
            r.region == (BlkReqRegion { start: 0, size: 0 }),
            !r.mediated,
    {
        VirtioBlkReq {
            req_type: 0,
            sector: 0,
            iov: Vec::new(),
            iov_total: 0,
            region: BlkReqRegion { start: 0, size: 0 },
            mediated: false,
        }
    }

    pub fn set_start(&mut self, start: usize)
        ensures
            final(self).region.start == start,
            final(self).region.size == old(self).region.size,
            final(self).iov == old(self).iov,
            final(self).iov_total == old(self).iov_total,
    {
        self.region.start = start;
    }

    pub fn set_size(&mut self, size: usize)
        ensures
            final(self).region.size == size,
            final(self).region.start == old(self).region.start,
            final(self).iov == old(self).iov,
            final(self).iov_total == old(self).iov_total,
    {
        self.region.size = size;
    }
}

/// A mediated block I/O the management VM performs for a guest.
#[derive(Clone, Debug)]
pub struct IoMediatedMsg {
    pub src_vmid: usize,
    pub io_type: u32,
    pub blk_id: usize,
    pub sector: usize,
    pub count: u64,
    pub cache: usize,
    pub iov_list: Vec<BlkIov>,
}

/// Whether two mediated requests are the same request.
pub open spec fn msg_same(a: IoMediatedMsg, b: IoMediatedMsg) -> bool {
    &&& a.src_vmid == b.src_vmid
    &&& a.io_type == b.io_type
    &&& a.blk_id == b.blk_id
    &&& a.sector == b.sector
    &&& a.count == b.count
    &&& a.cache == b.cache
    &&& a.iov_list@ == b.iov_list@
}

impl IoMediatedMsg {
    /// A copy of the request.
    pub fn duplicate(&self) -> (r: IoMediatedMsg)
        ensures
            msg_same(r, *self),
    {
        IoMediatedMsg {
            src_vmid: self.src_vmid,
            io_type: self.io_type,
            blk_id: self.blk_id,
            sector: self.sector,
            count: self.count,
            cache: self.cache,
            iov_list: copy_iov(&self.iov_list),
        }
    }
}

/// Whether the request stays inside its VM's disk region: its sectors,
/// counted from the region's start, end within the region's size.
pub open spec fn req_in_range(req: VirtioBlkReq) -> bool {
    req.sector + req.iov_total as int / (SECTOR_BSIZE as int) <= req.region.size
}

/// Whether every segment covers at least one sector.
pub open spec fn segments_whole(iov: Seq<BlkIov>) -> bool {
    forall|i: int| 0 <= i < iov.len() ==> iov[i].len >= SECTOR_BSIZE
}

/// Bytes a request moves: the segment total for reads and writes whose
/// segments all hold a sector, the id length for GET_ID, 0 otherwise or
/// when the request leaves the VM's region.
pub open spec fn blk_req_total(req: VirtioBlkReq) -> u64 {
    if !req_in_range(req) || req.sector + req.region.start > usize::MAX {
        0
    } else if req.req_type == VIRTIO_BLK_T_IN || req.req_type == VIRTIO_BLK_T_OUT {
        if segments_whole(req.iov@) {
            iov_sum(req.iov@) as u64
        } else {
            0
        }
    } else if req.req_type == VIRTIO_BLK_T_GET_ID {
        BLK_ID_BYTES
    } else {
        0
    }
}

/// Whether a request becomes a mediated I/O task: a mediated read in range,
/// or a mediated write in range whose segments all hold a sector.
pub open spec fn blk_req_makes_task(req: VirtioBlkReq) -> bool {
    &&& req.mediated
    &&& req_in_range(req)
    &&& req.sector + req.region.start <= usize::MAX
    &&& (req.req_type == VIRTIO_BLK_T_IN || (req.req_type == VIRTIO_BLK_T_OUT && segments_whole(
        req.iov@,
    )))
}

/// Handles a parsed request of VM `vmid`: returns the bytes it moves and,
/// for a mediated device, the I/O task for the management VM, which works
/// on the disk at the VM's region offset through the cache at `cache`.
pub fn blk_req_handler(req: &VirtioBlkReq, cache: usize, vmid: usize) -> (r: (u64, Option<IoMediatedMsg>))
    requires
        req.iov_total == iov_sum(req.iov@),
    ensures
        r.0 == blk_req_total(*req),
        r.1.is_some() == blk_req_makes_task(*req),
        r.1 matches Some(t) ==> {
            &&& t.src_vmid == vmid
            &&& t.io_type == req.req_type
            &&& t.blk_id == 0
            &&& t.sector == req.sector + req.region.start
            &&& t.count == req.iov_total as int / (SECTOR_BSIZE as int)
            &&& t.cache == cache
            &&& t.iov_list@ == req.iov@
        },
{
    let count: u64 = req.iov_total / (SECTOR_BSIZE as u64);
    if req.sector as u128 + count as u128 > req.region.size as u128 {
        return (0, None);
    }
    let abs_sector = match req.sector.checked_add(req.region.start) {
        Some(s) => s,
        None => return (0, None),
    };
    let ty = req.req_type;
    if ty == VIRTIO_BLK_T_IN || ty == VIRTIO_BLK_T_OUT {
        let whole = segments_all_whole(&req.iov);
        let task = if req.mediated && (ty == VIRTIO_BLK_T_IN || whole) {
            Some(
                IoMediatedMsg {
                    src_vmid: vmid,
                    io_type: ty,
                    blk_id: 0,
                    sector: abs_sector,
                    count,
                    cache,
                    iov_list: copy_iov(&req.iov),
                },
            )
        } else {
            None
        };
        let total = if whole {
            req.iov_total
        } else {
            0
        };
        (total, task)
    } else if ty == VIRTIO_BLK_T_GET_ID {
        (BLK_ID_BYTES, None)
    } else {
        (0, None)
    }
}

fn segments_all_whole(iov: &Vec<BlkIov>) -> (r: bool)
    ensures
        r == segments_whole(iov@),
{
    let mut i: usize = 0;
    while i < iov.len()
        invariant
            i <= iov@.len(),
            forall|k: int| 0 <= k < i ==> iov@[k].len >= SECTOR_BSIZE,
        decreases iov@.len() - i,
    {
        if (iov[i].len as usize) < SECTOR_BSIZE {
            return false;
        }
        i = i + 1;
    }
    true
}

fn copy_iov(iov: &Vec<BlkIov>) -> (r: Vec<BlkIov>)
    ensures
        r@ == iov@,
{
    let mut out: Vec<BlkIov> = Vec::new();
    let mut i: usize = 0;
    while i < iov.len()
        invariant
            i <= iov@.len(),
            out@ == iov@.take(i as int),
        decreases iov@.len() - i,
    {
        out.push(iov[i]);
        assert(iov@.take(i as int + 1) =~= iov@.take(i as int).push(iov@[i as int]));
        i = i + 1;
    }
    assert(iov@.take(i as int) =~= iov@);
    out
}

/// The status byte of a finished request: unsupported for kinds other than
/// read, write and GET_ID.
pub fn blk_req_status(req_type: u32) -> (r: u8)
    ensures
        r == (if req_type > 1 && req_type != VIRTIO_BLK_T_GET_ID {
            VIRTIO_BLK_S_UNSUPP
        } else {
            VIRTIO_BLK_S_OK
        }),
{
    if req_type > 1 && req_type != VIRTIO_BLK_T_GET_ID {
        VIRTIO_BLK_S_UNSUPP
    } else {
        VIRTIO_BLK_S_OK
    }
}

/// The descriptors of one request chain: the header, the data segments in
/// chain order and the status byte.
#[derive(Clone, Debug)]
pub struct BlkChain {
    pub header: VringDesc,
    pub data: Vec<VringDesc>,
    pub status: VringDesc,
}

/// Whether descriptor `d` continues its chain.
pub open spec fn desc_next(d: VringDesc) -> bool {
    d.flags & VIRTQ_DESC_F_NEXT != 0
}

/// Whether descriptor `d` is device-writable.
pub open spec fn desc_writable(d: VringDesc) -> bool {
    d.flags & VIRTQ_DESC_F_WRITE != 0
}

/// Whether `c` is a well-formed chain of `table`: a readable header that
/// continues, data descriptors that continue, and a writable status
/// descriptor that ends it, each linked to the next by its `next` field.
pub open spec fn chain_wf(c: BlkChain) -> bool {
    &&& !desc_writable(c.header)
    &&& desc_next(c.header)
    &&& forall|i: int| 0 <= i < c.data@.len() ==> desc_next(#[trigger] c.data@[i])
    &&& !desc_next(c.status)
    &&& desc_writable(c.status)
}

/// The data descriptors and the status descriptor of the rest of a chain
/// that starts at descriptor `idx`, visiting at most `fuel` descriptors:
/// descriptors that continue are data, the first one that ends the chain is
/// the status and must be device-writable.
pub open spec fn chain_from(table: Seq<VringDesc>, idx: u16, fuel: nat) -> Option<(Seq<VringDesc>, VringDesc)>
    decreases fuel,
{
    if fuel == 0 || idx as int >= table.len() {
        None
    } else {
        let d = table[idx as int];
        if !desc_next(d) {
            if desc_writable(d) {
                Some((Seq::empty(), d))
            } else {
                None
            }
        } else {
            match chain_from(table, d.next, (fuel - 1) as nat) {
                Some((rest, st)) => Some((seq![d] + rest, st)),
                None => None,
            }
        }
    }
}

/// `walk` with `prefix` in front of its data descriptors.
pub open spec fn prepend_data(prefix: Seq<VringDesc>, walk: Option<(Seq<VringDesc>, VringDesc)>) -> Option<(Seq<VringDesc>, VringDesc)> {
    match walk {
        Some((rest, st)) => Some((prefix + rest, st)),
        None => None,
    }
}

/// The chain headed by `head` in `table`: a readable header that continues,
/// then at most 30 data descriptors and a writable status descriptor.
pub open spec fn parse_chain_spec(table: Seq<VringDesc>, head: u16) -> Option<BlkChainView> {
    if head as int >= table.len() {
        None
    } else {
        let h = table[head as int];
        if desc_writable(h) || !desc_next(h) {
            None
        } else {
            match chain_from(table, h.next, (DESC_QUEUE_SIZE - 1) as nat) {
                Some((data, st)) => Some(BlkChainView { header: h, data, status: st }),
                None => None,
            }
        }
    }
}

/// A request chain as values.
pub struct BlkChainView {
    pub header: VringDesc,
    pub data: Seq<VringDesc>,
    pub status: VringDesc,
}

/// Walks the chain headed by descriptor `head`: it exists exactly when the
/// descriptor table holds a readable header that continues, followed by
/// data descriptors that continue and a writable status descriptor, all
/// within the table's size.
pub fn virtio_blk_parse_chain(vq: &Virtq, head: u16) -> (r: Result<BlkChain, ()>)
    ensures
        r matches Ok(c) ==> chain_wf(c) && c.data@.len() < DESC_QUEUE_SIZE && (vq.desc_table matches Some(
            t,
        ) && (head as int) < t@.len() && t@[head as int] == c.header),
        vq.desc_table is None ==> r is Err,
        vq.desc_table matches Some(t) ==> match parse_chain_spec(t@, head) {
            Some(v) => r matches Ok(c) && c.header == v.header && c.data@ == v.data && c.status == v.status,
            None => r is Err,
        },
{
    let table = match &vq.desc_table {
        Some(t) => t,
        None => return Err(()),
    };
    if head as usize >= table.len() {
        return Err(());
    }
    let header = table[head as usize];
    if header.flags & VIRTQ_DESC_F_WRITE != 0 || header.flags & VIRTQ_DESC_F_NEXT == 0 {
        return Err(());
    }
    let mut data: Vec<VringDesc> = Vec::new();
    let mut idx: u16 = header.next;
    let mut steps: usize = 0;
    while steps < DESC_QUEUE_SIZE
        invariant
            steps <= DESC_QUEUE_SIZE,
            data@.len() == steps,
            forall|i: int| 0 <= i < data@.len() ==> desc_next(#[trigger] data@[i]),
            !desc_writable(header),
            desc_next(header),
            vq.desc_table == Some(*table),
            (head as int) < table@.len() && table@[head as int] == header,
            steps < DESC_QUEUE_SIZE ==> chain_from(table@, header.next, (DESC_QUEUE_SIZE - 1) as nat)
                == prepend_data(data@, chain_from(table@, idx, (DESC_QUEUE_SIZE - 1 - steps) as nat)),
            steps == DESC_QUEUE_SIZE ==> chain_from(table@, header.next, (DESC_QUEUE_SIZE - 1) as nat) is None,
        decreases DESC_QUEUE_SIZE - steps,
    {
        if idx as usize >= table.len() {
            return Err(());
        }
        let d = table[idx as usize];
        if d.flags & VIRTQ_DESC_F_NEXT == 0 {
            if d.flags & VIRTQ_DESC_F_WRITE == 0 {
                return Err(());
            }
            if steps + 1 >= DESC_QUEUE_SIZE {
                return Err(());
            }
            assert(data@ + Seq::<VringDesc>::empty() =~= data@);
            let c = BlkChain { header, data, status: d };
            return Ok(c);
        }
        let ghost before = data@;
        data.push(d);
        proof {
            if steps + 1 < DESC_QUEUE_SIZE {
                let w = chain_from(table@, d.next, (DESC_QUEUE_SIZE - 2 - steps) as nat);
                match w {
                    Some((rest, st)) => {
                        assert(before + (seq![d] + rest) =~= data@ + rest);
                    },
                    None => {},
                }
            } else {
                assert(chain_from(table@, d.next, 0) is None);
            }
        }
        idx = d.next;
        steps = steps + 1;
    }
    Err(())
}

/// Whether data descriptor `d` moves data the way a request of kind
/// `req_type` needs: device-writable for a read, readable for a write.
pub open spec fn data_dir_ok(d: VringDesc, req_type: u32) -> bool {
    ((d.flags & VIRTQ_DESC_F_WRITE) >> 1u16) as u32 != req_type
}

/// The segments of a chain of VM `vm_id`, each at the HVA that aliases its
/// buffer.
pub open spec fn chain_iov(data: Seq<VringDesc>, vm_id: usize) -> Seq<BlkIov> {
    Seq::new(
        data.len(),
        |i: int| BlkIov { data_bg: hva_of(vm_id, data[i].addr) as usize, len: data[i].len },
    )
}

/// Builds the request of a parsed chain from the header the guest wrote
/// (`req_type`, `sector`). Fails when a data segment moves data the wrong
/// way, a buffer cannot be aliased, or there are more than
/// `BLOCKIF_IOV_MAX` segments.
pub fn virtio_blk_build_req(
    chain: &BlkChain,
    req_type: u32,
    sector: usize,
    vm_id: usize,
    region: BlkReqRegion,
    mediated: bool,
) -> (r: Result<VirtioBlkReq, ()>)
    ensures
        r matches Ok(req) ==> {
            &&& req.req_type == req_type
            &&& req.sector == sector
            &&& req.region == region
            &&& req.mediated == mediated
            &&& req.iov@ == chain_iov(chain.data@, vm_id)
            &&& req.iov_total == iov_sum(req.iov@)
            &&& req.iov@.len() <= BLOCKIF_IOV_MAX
            &&& forall|i: int| 0 <= i < req.iov@.len() ==> req.iov@[i].data_bg != 0
        },
        r is Err <==> (chain.data@.len() > BLOCKIF_IOV_MAX || exists|i: int|
            0 <= i < chain.data@.len() && (!data_dir_ok(chain.data@[i], req_type) || hva_of(
                vm_id,
                chain.data@[i].addr,
            ) as usize == 0)),
{
    if chain.data.len() > BLOCKIF_IOV_MAX {
        return Err(());
    }
    let mut iov: Vec<BlkIov> = Vec::new();
    let mut total: u64 = 0;
    let mut i: usize = 0;
    while i < chain.data.len()
        invariant
            i <= chain.data@.len() <= BLOCKIF_IOV_MAX,
            iov@ == chain_iov(chain.data@, vm_id).take(i as int),
            total == iov_sum(iov@),
            iov@.len() == i,
            forall|k: int|
                0 <= k < i ==> data_dir_ok(chain.data@[k], req_type) && hva_of(
                    vm_id,
                    chain.data@[k].addr,
                ) as usize != 0,
        decreases chain.data@.len() - i,
    {
        let d = chain.data[i];
        if (((d.flags & VIRTQ_DESC_F_WRITE) >> 1u16) as u32) == req_type {
            return Err(());
        }
        let data_bg = vm_ipa2hva(vm_id, d.addr);
        if data_bg == 0 {
            return Err(());
        }
        proof {
            lemma_iov_sum_bound(iov@);
        }
        let ghost old_iov = iov@;
        iov.push(BlkIov { data_bg, len: d.len });
        assert(iov@.drop_last() =~= old_iov);
        total = total + d.len as u64;
        assert(chain_iov(chain.data@, vm_id).take(i as int + 1) =~= chain_iov(
            chain.data@,
            vm_id,
        ).take(i as int).push(BlkIov { data_bg, len: d.len }));
        i = i + 1;
    }
    assert(chain_iov(chain.data@, vm_id).take(i as int) =~= chain_iov(chain.data@, vm_id));
    Ok(
        VirtioBlkReq {
            req_type,
            sector,
            iov,
            iov_total: total,
            region,
            mediated,
        },
    )
}

/// A mediated block request as the management VM sees it.
#[derive(Clone, Debug)]
pub struct MediatedBlkReqInner {
    pub req_type: usize,
    pub blk_id: usize,
    pub sector: usize,
    pub count: usize,
    pub iov: Vec<BlkIov>,
}

/// Whether the used ring of `vq` can take an entry.
pub open spec fn used_ring_ready(vq: Virtq) -> bool {
    vq.used is Some && vq.num > 0 && (vq.used->0.idx as int) % (vq.num as int) < vq.used->0.ring@.len()
}

/// Whether the chain headed by `head` can be served as a request of kind
/// `req_type` of VM `vm_id`: it is well formed, its status byte and data
/// buffers have HVA aliases, its data moves the right way and fits the
/// segment limit, and the used ring can take the chain back when the
/// hypervisor serves it itself.
pub open spec fn chain_servable(vq: Virtq, head: u16, req_type: u32, vm_id: usize, mediated: bool) -> bool {
    &&& vq.desc_table is Some
    &&& parse_chain_spec(vq.desc_table->0@, head) matches Some(v)
    &&& hva_of(vm_id, v.status.addr) as usize != 0
    &&& v.data.len() <= BLOCKIF_IOV_MAX
    &&& forall|i: int| 0 <= i < v.data.len() ==> data_dir_ok(v.data[i], req_type) && hva_of(vm_id, v.data[i].addr) as usize != 0
    &&& !mediated ==> used_ring_ready(vq)
}

/// What handling one request chain produced: the chain's head, where the
/// status byte goes and its value, the request, the bytes it moved, and the
/// mediated I/O task, if any.
#[derive(Clone, Debug)]
pub struct ChainOutcome {
    pub head: u16,
    pub status_hva: usize,
    pub status: u8,
    pub req: VirtioBlkReq,
    pub total: u64,
    pub task: Option<IoMediatedMsg>,
}

/// Handles the chain headed by `head` of VM `vm_id`'s block queue, whose
/// header the guest filled with `req_type` and `sector`: parses and checks
/// the chain, builds the request, decides its status and the bytes it
/// moves, and, for a device the hypervisor serves itself, hands the chain
/// back on the used ring at once. A mediated request is handed back when
/// the management VM completes it.
pub fn virtio_blk_process_chain(
    vq: &mut Virtq,
    head: u16,
    req_type: u32,
    sector: usize,
    vm_id: usize,
    region: BlkReqRegion,
    mediated: bool,
    cache: usize,
) -> (r: Result<ChainOutcome, ()>)
    ensures
        r matches Ok(o) ==> {
            &&& o.head == head
            &&& o.status_hva != 0
            &&& o.status == (if req_type > 1 && req_type != VIRTIO_BLK_T_GET_ID {
                VIRTIO_BLK_S_UNSUPP
            } else {
                VIRTIO_BLK_S_OK
            })
            &&& o.req.req_type == req_type
            &&& o.req.sector == sector
            &&& o.req.region == region
            &&& o.req.mediated == mediated
            &&& o.total == blk_req_total(o.req)
            &&& o.task.is_some() == blk_req_makes_task(o.req)
            &&& o.req.iov_total == iov_sum(o.req.iov@)
            &&& (old(vq).desc_table matches Some(t) && parse_chain_spec(t@, head) matches Some(v)
                && o.req.iov@ == chain_iov(v.data, vm_id) && o.status_hva == hva_of(vm_id, v.status.addr) as usize)
            &&& o.task matches Some(task) ==> {
                &&& task.src_vmid == vm_id
                &&& task.io_type == req_type
                &&& task.blk_id == 0
                &&& task.sector == sector + region.start
                &&& task.count == o.req.iov_total as int / (SECTOR_BSIZE as int)
                &&& task.cache == cache
                &&& task.iov_list@ == o.req.iov@
            }
            &&& !mediated ==> {
                &&& old(vq).used is Some
                &&& final(vq).used is Some
                &&& final(vq).used->0.idx == crate::virtq::idx_next(old(vq).used->0.idx)
                &&& final(vq).used->0.ring@ == old(vq).used->0.ring@.update(
                    (old(vq).used->0.idx as int) % (old(vq).num as int),
                    crate::virtq::VringUsedElem { id: head as u32, len: o.total as u32 },
                )
            }
            &&& mediated ==> final(vq).used == old(vq).used
        },
        r is Err ==> final(vq).used == old(vq).used,
        r is Ok <==> chain_servable(*old(vq), head, req_type, vm_id, mediated),
        final(vq).last_avail_idx == old(vq).last_avail_idx,
        final(vq).num == old(vq).num,
        final(vq).avail == old(vq).avail,
        final(vq).desc_table == old(vq).desc_table,
{
    let chain = match virtio_blk_parse_chain(vq, head) {
        Ok(c) => c,
        Err(_) => return Err(()),
    };
    let status_hva = vm_ipa2hva(vm_id, chain.status.addr);
    if status_hva == 0 {
        return Err(());
    }
    let req = match virtio_blk_build_req(&chain, req_type, sector, vm_id, region, mediated) {
        Ok(q) => q,
        Err(_) => return Err(()),
    };
    let status = blk_req_status(req_type);
    let (total, task) = blk_req_handler(&req, cache, vm_id);
    if !mediated {
        let used_len: u32 = #[verifier::truncate] (total as u32);
        if !vq.update_used_ring(used_len, head as u32) {
            return Err(());
        }
    }
    Ok(ChainOutcome { head, status_hva, status, req, total, task })
}

/// The request header a guest wrote in a descriptor's buffer.
#[derive(Clone, Copy, Debug, PartialEq, Eq, Structural)]
pub struct BlkReqHeader {
    pub req_type: u32,
    pub sector: usize,
}

/// `a + n` modulo 2^16, the way ring indices advance over `n` chains.
pub open spec fn idx_add(a: u16, n: int) -> u16 {
    ((a as int + n) % 0x10000) as u16
}

/// The used ring after `n` chains were handed back: unchanged for none,
/// its index advanced by `n` otherwise.
pub open spec fn used_advanced(old_used: Option<crate::virtq::VringUsed>, new_used: Option<crate::virtq::VringUsed>, n: int) -> bool {
    if n == 0 {
        new_used == old_used
    } else {
        old_used is Some && new_used is Some && new_used->0.idx == idx_add(old_used->0.idx, n)
    }
}

pub(crate) proof fn lemma_idx_add_next(a: u16, n: int)
    requires
        n >= 0,
    ensures
        crate::virtq::idx_next(idx_add(a, n)) == idx_add(a, n + 1),
{
    assert(((a as int + n) % 0x10000 + 1) % 0x10000 == (a as int + n + 1) % 0x10000) by (nonlinear_arith)
        requires
            n >= 0,
            0 <= a < 0x10000,
    ;
}

/// What handling the chain headed by `head`, with header `h`, yields for VM
/// `vm_id`, given descriptor table `table`: the request it parses to, its
/// status byte and address, the bytes it moves and its mediated task.
pub open spec fn chain_outcome_ok(
    o: ChainOutcome,
    table: Seq<VringDesc>,
    head: u16,
    h: BlkReqHeader,
    vm_id: usize,
    region: BlkReqRegion,
    mediated: bool,
    cache: usize,
) -> bool {
    &&& o.head == head
    &&& o.status == (if h.req_type > 1 && h.req_type != VIRTIO_BLK_T_GET_ID {
        VIRTIO_BLK_S_UNSUPP
    } else {
        VIRTIO_BLK_S_OK
    })
    &&& o.req.req_type == h.req_type
    &&& o.req.sector == h.sector
    &&& o.req.region == region
    &&& o.req.mediated == mediated
    &&& o.total == blk_req_total(o.req)
    &&& o.task.is_some() == blk_req_makes_task(o.req)
    &&& o.req.iov_total == iov_sum(o.req.iov@)
    &&& parse_chain_spec(table, head) matches Some(v)
    &&& o.req.iov@ == chain_iov(v.data, vm_id)
    &&& o.status_hva == hva_of(vm_id, v.status.addr) as usize
    &&& o.status_hva != 0
    &&& o.task matches Some(task) ==> {
        &&& task.src_vmid == vm_id
        &&& task.io_type == h.req_type
        &&& task.blk_id == 0
        &&& task.sector == h.sector + region.start
        &&& task.count == o.req.iov_total as int / (SECTOR_BSIZE as int)
        &&& task.cache == cache
        &&& task.iov_list@ == o.req.iov@
    }
}

/// The head of the `j`-th chain offered on `q` after its cursor.
pub open spec fn head_at(q: Virtq, j: int) -> u16 {
    q.avail->0.ring@[(idx_add(q.last_avail_idx, j) as int) % (q.num as int)]
}

/// Whether `o` is what handling the `j`-th chain offered on `q` yields.
pub open spec fn outcome_at(
    q: Virtq,
    headers: Seq<Option<BlkReqHeader>>,
    o: ChainOutcome,
    j: int,
    vm_id: usize,
    region: BlkReqRegion,
    mediated: bool,
    cache: usize,
) -> bool {
    &&& q.avail is Some
    &&& q.num > 0
    &&& q.desc_table is Some
    &&& (head_at(q, j) as int) < headers.len()
    &&& headers[head_at(q, j) as int] is Some
    &&& chain_outcome_ok(o, q.desc_table->0@, head_at(q, j), headers[head_at(q, j) as int]->0, vm_id, region, mediated, cache)
}

/// Whether the used ring holds the entry of the `j`-th handed-back chain of
/// `outs`, unless a later chain's entry took the same slot.
pub open spec fn used_entry_ok(ring: Seq<crate::virtq::VringUsedElem>, u: u16, num: usize, outs: Seq<ChainOutcome>, j: int) -> bool {
    (0 <= used_slot(u, j, num) < ring.len() && forall|k: int| j < k < outs.len() ==> used_slot(u, k, num) != used_slot(u, j, num)) ==> ring[used_slot(u, j, num)]
        == (crate::virtq::VringUsedElem { id: outs[j].head as u32, len: outs[j].total as u32 })
}

proof fn lemma_used_entries_step(
    ring0: Seq<crate::virtq::VringUsedElem>,
    ring1: Seq<crate::virtq::VringUsedElem>,
    u: u16,
    num: usize,
    outs0: Seq<ChainOutcome>,
    outs1: Seq<ChainOutcome>,
    e: crate::virtq::VringUsedElem,
)
    requires
        outs1.len() == outs0.len() + 1,
        forall|j: int| 0 <= j < outs0.len() ==> outs1[j] == outs0[j],
        e == (crate::virtq::VringUsedElem { id: outs1[outs0.len() as int].head as u32, len: outs1[outs0.len() as int].total as u32 }),
        0 <= used_slot(u, outs0.len() as int, num) < ring0.len(),
        ring1 == ring0.update(used_slot(u, outs0.len() as int, num), e),
        forall|j: int| 0 <= j < outs0.len() ==> #[trigger] used_entry_ok(ring0, u, num, outs0, j),
    ensures
        forall|j: int| 0 <= j < outs1.len() ==> #[trigger] used_entry_ok(ring1, u, num, outs1, j),
{
    let n = outs0.len() as int;
    assert forall|j: int| 0 <= j < outs1.len() implies #[trigger] used_entry_ok(ring1, u, num, outs1, j) by {
        if j < n {
            assert(used_entry_ok(ring0, u, num, outs0, j));
            assert(outs1[j] == outs0[j]);
            if 0 <= used_slot(u, j, num) < ring1.len() && forall|k: int| j < k < outs1.len() ==> used_slot(u, k, num) != used_slot(u, j, num) {
                assert(used_slot(u, n, num) != used_slot(u, j, num));
                assert forall|k: int| j < k < outs0.len() implies used_slot(u, k, num) != used_slot(u, j, num) by {
                    assert(j < k < outs1.len());
                }
                assert(ring1[used_slot(u, j, num)] == ring0[used_slot(u, j, num)]);
            }
        } else {
            assert(j == n);
            assert(ring1[used_slot(u, n, num)] == e);
        }
    }
}

/// The used-ring slot the `j`-th chain handed back after index `u` fills.
pub open spec fn used_slot(u: u16, j: int, num: usize) -> int {
    (idx_add(u, j) as int) % (num as int)
}

/// Whether the `j`-th offered chain of `q` has a header in `headers` and is
/// servable on `q`.
pub open spec fn chain_ok_at(q: Virtq, headers: Seq<Option<BlkReqHeader>>, j: int, vm_id: usize, mediated: bool) -> bool {
    let h = head_at(q, j);
    &&& (h as int) < headers.len()
    &&& headers[h as int] is Some
    &&& chain_servable(q, h, headers[h as int]->0.req_type, vm_id, mediated)
}

/// The block queue notification of VM `vm_id`: takes every chain the guest
/// offered, in ring order, and handles each with the header the guest wrote
/// in its head's buffer (`headers[i]` for descriptor `i`, `None` where it
/// could not be read). A queue that is not ready is left alone. It stops
/// with `false` at the first chain that has no header or cannot be served;
/// otherwise every offered chain was taken and it returns `true`.
pub fn virtio_blk_notify_handler(
    vq: &mut Virtq,
    headers: &[Option<BlkReqHeader>],
    vm_id: usize,
    region: BlkReqRegion,
    mediated: bool,
    cache: usize,
) -> (r: (bool, Vec<ChainOutcome>))
    ensures
        old(vq).ready == 0 ==> !r.0 && r.1@.len() == 0 && final(vq).last_avail_idx == old(vq).last_avail_idx
            && final(vq).used == old(vq).used,
        old(vq).ready != 0 ==> final(vq).last_avail_idx == idx_add(
            old(vq).last_avail_idx,
            r.1@.len() as int + if r.0 { 0int } else { 1int },
        ),
        r.0 ==> !crate::virtq::chain_pending(*final(vq)),
        !r.0 && old(vq).ready != 0 ==> {
            &&& old(vq).avail is Some
            &&& old(vq).num > 0
            &&& crate::virtq::pending(old(vq).avail->0.idx, old(vq).last_avail_idx) > r.1@.len()
            &&& !chain_ok_at(
                Virtq { last_avail_idx: old(vq).last_avail_idx, ..*final(vq) },
                headers@,
                r.1@.len() as int,
                vm_id,
                mediated,
            )
        },
        forall|j: int| 0 <= j < r.1@.len() ==> outcome_at(*old(vq), headers@, #[trigger] r.1@[j], j, vm_id, region, mediated, cache),
        !mediated ==> used_advanced(old(vq).used, final(vq).used, r.1@.len() as int),
        !mediated ==> forall|j: int| 0 <= j < r.1@.len() ==> #[trigger] used_entry_ok(final(vq).used->0.ring@, old(vq).used->0.idx, old(vq).num, r.1@, j),
        mediated ==> final(vq).used == old(vq).used,
        final(vq).avail == old(vq).avail,
        final(vq).num == old(vq).num,
        final(vq).desc_table == old(vq).desc_table,
{
    let mut outs: Vec<ChainOutcome> = Vec::new();
    if vq.ready() == 0 {
        return (false, outs);
    }
    loop
        invariant
            old(vq).ready != 0,
            vq.avail == old(vq).avail,
            vq.num == old(vq).num,
            vq.desc_table == old(vq).desc_table,
            vq.last_avail_idx == idx_add(old(vq).last_avail_idx, outs@.len() as int),
            forall|j: int| 0 <= j < outs@.len() ==> outcome_at(*old(vq), headers@, #[trigger] outs@[j], j, vm_id, region, mediated, cache),
            !mediated ==> used_advanced(old(vq).used, vq.used, outs@.len() as int),
            !mediated ==> forall|j: int| 0 <= j < outs@.len() ==> #[trigger] used_entry_ok(vq.used->0.ring@, old(vq).used->0.idx, old(vq).num, outs@, j),
            mediated ==> vq.used == old(vq).used,
            old(vq).avail is Some ==> crate::virtq::pending(old(vq).avail->0.idx, vq.last_avail_idx) + outs@.len()
                == crate::virtq::pending(old(vq).avail->0.idx, old(vq).last_avail_idx),
        decreases
            (if vq.avail is Some { crate::virtq::pending(vq.avail->0.idx, vq.last_avail_idx) } else { 0 }),
    {
        let ghost n = outs@.len();
        let ghost before = *vq;
        let head = match vq.pop_avail_desc_idx() {
            Some(h) => h,
            None => {
                return (true, outs);
            },
        };
        proof {
            lemma_idx_add_next(old(vq).last_avail_idx, n as int);
            assert(head == head_at(*old(vq), n as int));
        }
        if head as usize >= headers.len() {
            return (false, outs);
        }
        let h = match headers[head as usize] {
            Some(h) => h,
            None => return (false, outs),
        };
        let ghost mid = *vq;
        match virtio_blk_process_chain(vq, head, h.req_type, h.sector, vm_id, region, mediated, cache) {
            Ok(o) => {
                let ghost outs0 = outs@;
                outs.push(o);
                proof {
                    assert(outcome_at(*old(vq), headers@, o, n as int, vm_id, region, mediated, cache));
                    assert forall|j: int| 0 <= j < outs@.len() implies outcome_at(*old(vq), headers@, #[trigger] outs@[j], j, vm_id, region, mediated, cache) by {
                        if j < n {
                            assert(outs@[j] == outs0[j]);
                        }
                    }
                    if !mediated {
                        let u = old(vq).used->0.idx;
                        let num = old(vq).num;
                        if n > 0 {
                            lemma_idx_add_next(u, n as int);
                        } else {
                            lemma_idx_add_next(u, 0);
                            assert(idx_add(u, 0) == u);
                        }
                        assert(mid.used->0.idx == idx_add(u, n as int));
                        let e = crate::virtq::VringUsedElem { id: head as u32, len: o.total as u32 };
                        assert(chain_servable(mid, head, h.req_type, vm_id, mediated));
                        assert(used_ring_ready(mid));
                        assert(vq.used->0.ring@ == mid.used->0.ring@.update(used_slot(u, n as int, num), e));
                        assert(vq.used->0.ring@[used_slot(u, n as int, num)] == e);
                        lemma_used_entries_step(mid.used->0.ring@, vq.used->0.ring@, u, num, outs0, outs@, e);
                    }
                }
            },
            Err(_) => {
                return (false, outs);
            },
        }
    }
}

} // verus!
