//! virtio-console back-end: the console pairs of VMs, and the buffers a
//! transmitted chain of one VM and a receive chain of its peer describe.
use vstd::prelude::*;

use crate::address::{hva_of, vm_ipa2hva};
use crate::blk::BlkIov;
use crate::virtq::{Virtq, VringDesc, DESC_QUEUE_SIZE, VIRTQ_DESC_F_NEXT};

verus! {

pub const VIRTQUEUE_CONSOLE_MAX_SIZE: usize = 64;

/// The console's configuration space and the console it is paired with.
#[derive(Clone, Copy, Debug, PartialEq, Eq, Structural)]
pub struct ConsoleDescInner {
    pub oppo_end_vmid: u16,
    pub oppo_end_ipa: u64,
    pub cols: u16,
    pub rows: u16,
    pub max_nr_ports: u32,
    pub emerg_wr: u32,
}

impl ConsoleDescInner {
    pub fn default() -> (r: ConsoleDescInner)
        ensures
            r == (ConsoleDescInner {
                oppo_end_vmid: 0,
                oppo_end_ipa: 0,
                cols: 0,
                rows: 0,
                max_nr_ports: 0,
                emerg_wr: 0,
            }),
    {
        ConsoleDescInner { oppo_end_vmid: 0, oppo_end_ipa: 0, cols: 0, rows: 0, max_nr_ports: 0, emerg_wr: 0 }
    }

    /// An 80x25 console paired with the console of VM `oppo_end_vmid` at
    /// `oppo_end_ipa`.
    pub fn new(oppo_end_vmid: u16, oppo_end_ipa: u64) -> (r: ConsoleDescInner)
        ensures
            r == (ConsoleDescInner {
                oppo_end_vmid,
                oppo_end_ipa,
                cols: 80,
                rows: 25,
                max_nr_ports: 0,
                emerg_wr: 0,
            }),
    {
        ConsoleDescInner { oppo_end_vmid, oppo_end_ipa, cols: 80, rows: 25, max_nr_ports: 0, emerg_wr: 0 }
    }

    /// The paired console: its VM and its IPA.
    pub fn target_console(&self) -> (r: (u16, u64))
        ensures
            r == (self.oppo_end_vmid, self.oppo_end_ipa),
    {
        (self.oppo_end_vmid, self.oppo_end_ipa)
    }
}

/// Only the transmit queue (index 1 of each port's four) carries data to
/// forward.
pub fn console_queue_transmits(vq_index: usize) -> (r: bool)
    ensures
        r == (vq_index % 4 == 1),
{
    vq_index % 4 == 1
}

/// Total length of segments.
pub open spec fn seg_total(iov: Seq<BlkIov>) -> int
    decreases iov.len(),
{
    if iov.len() == 0 {
        0
    } else {
        seg_total(iov.drop_last()) + iov.last().len as int
    }
}

proof fn lemma_seg_total_bound(iov: Seq<BlkIov>)
    ensures
        0 <= seg_total(iov) <= iov.len() * 0xffff_ffff,
    decreases iov.len(),
{
    if iov.len() > 0 {
        lemma_seg_total_bound(iov.drop_last());
    }
}

/// Step `i` of a transmit walk: the descriptor has flags, and the walk
/// goes on to its `next`.
pub open spec fn tx_link(table: Seq<VringDesc>, idxs: Seq<u16>, i: int) -> bool {
    table[idxs[i] as int].flags != 0 && idxs[i + 1] == table[idxs[i] as int].next
}

/// Step `i` of a receive walk: the descriptor continues, fewer than `len`
/// bytes are gathered so far, and the walk goes on to its `next`.
pub open spec fn rx_link(table: Seq<VringDesc>, idxs: Seq<u16>, i: int, len: u64, vm_id: usize) -> bool {
    &&& table[idxs[i] as int].flags & VIRTQ_DESC_F_NEXT != 0
    &&& seg_total(walk_iov(table, idxs.take(i + 1), vm_id)) < len
    &&& idxs[i + 1] == table[idxs[i] as int].next
}

/// Whether `idxs` is the walk of a chain of `table` from `head` that
/// follows `next` while a descriptor's flags are set.
pub open spec fn tx_walk(table: Seq<VringDesc>, head: u16, idxs: Seq<u16>) -> bool {
    &&& idxs.len() > 0
    &&& idxs[0] == head
    &&& forall|i: int| 0 <= i < idxs.len() ==> (#[trigger] idxs[i] as int) < table.len()
    &&& forall|i: int| 0 <= i < idxs.len() - 1 ==> #[trigger] tx_link(table, idxs, i)
    &&& table[idxs[idxs.len() - 1] as int].flags == 0
}

/// The segments of the descriptors `idxs` of VM `vm_id`.
pub open spec fn walk_iov(table: Seq<VringDesc>, idxs: Seq<u16>, vm_id: usize) -> Seq<BlkIov> {
    Seq::new(
        idxs.len(),
        |i: int| BlkIov { data_bg: hva_of(vm_id, table[idxs[i] as int].addr) as usize, len: table[idxs[i] as int].len },
    )
}

/// Whether the transmit walk from descriptor `idx` ends within `fuel`
/// descriptors, every descriptor present in the table and aliased.
pub open spec fn tx_walk_ok(table: Seq<VringDesc>, idx: u16, fuel: nat, vm_id: usize) -> bool
    decreases fuel,
{
    if fuel == 0 || idx as int >= table.len() {
        false
    } else {
        let d = table[idx as int];
        hva_of(vm_id, d.addr) as usize != 0 && (d.flags == 0 || tx_walk_ok(table, d.next, (fuel - 1) as nat, vm_id))
    }
}

/// Collects the buffers of VM `vm_id`'s transmit chain headed by `head`:
/// the descriptors in chain order up to the first one without flags, each
/// at the HVA aliasing it. Fails on a missing descriptor, a buffer without
/// alias or a chain longer than the table.
pub fn virtio_console_tx_iov(vq: &Virtq, head: u16, vm_id: usize) -> (r: Result<(Vec<BlkIov>, u64), ()>)
    ensures
        r matches Ok((iov, total)) ==> (vq.desc_table matches Some(t) && exists|idxs: Seq<u16>|
            #[trigger] tx_walk(t@, head, idxs) && iov@ == walk_iov(t@, idxs, vm_id) && total == seg_total(iov@)
                && forall|i: int| 0 <= i < iov@.len() ==> iov@[i].data_bg != 0),
        r is Ok <==> (vq.desc_table matches Some(t) && tx_walk_ok(t@, head, DESC_QUEUE_SIZE as nat, vm_id)),
{
    let table = match &vq.desc_table {
        Some(t) => t,
        None => return Err(()),
    };
    let mut iov: Vec<BlkIov> = Vec::new();
    let mut total: u64 = 0;
    let mut idx: u16 = head;
    let ghost mut idxs: Seq<u16> = Seq::empty();
    let mut steps: usize = 0;
    while steps < DESC_QUEUE_SIZE
        invariant
            steps <= DESC_QUEUE_SIZE,
            vq.desc_table == Some(*table),
            idxs.len() == steps,
            iov@ == walk_iov(table@, idxs, vm_id),
            total == seg_total(iov@),
            steps > 0 ==> idxs[0] == head,
            steps == 0 ==> idx == head,
            forall|i: int| 0 <= i < idxs.len() ==> (#[trigger] idxs[i] as int) < table@.len(),
            forall|i: int| 0 <= i < idxs.len() - 1 ==> #[trigger] tx_link(table@, idxs, i),
            steps > 0 ==> table@[idxs[steps - 1] as int].flags != 0 && idx == table@[idxs[steps - 1] as int].next,
            forall|i: int| 0 <= i < iov@.len() ==> iov@[i].data_bg != 0,
            tx_walk_ok(table@, head, DESC_QUEUE_SIZE as nat, vm_id) == tx_walk_ok(table@, idx, (DESC_QUEUE_SIZE - steps) as nat, vm_id),
        decreases DESC_QUEUE_SIZE - steps,
    {
        if idx as usize >= table.len() {
            return Err(());
        }
        let d = table[idx as usize];
        let addr = vm_ipa2hva(vm_id, d.addr);
        if addr == 0 {
            return Err(());
        }
        proof {
            lemma_seg_total_bound(iov@);
        }
        let ghost old_iov = iov@;
        let ghost old_idxs = idxs;
        iov.push(BlkIov { data_bg: addr, len: d.len });
        proof {
            idxs = idxs.push(idx);
            assert(iov@.drop_last() =~= old_iov);
            assert(iov@ =~= walk_iov(table@, idxs, vm_id));
            assert forall|i: int| 0 <= i < idxs.len() - 1 implies #[trigger] tx_link(table@, idxs, i) by {
                if i < old_idxs.len() - 1 {
                    assert(idxs[i] == old_idxs[i] && idxs[i + 1] == old_idxs[i + 1]);
                    assert(tx_link(table@, old_idxs, i));
                } else {
                    assert(i == old_idxs.len() - 1);
                    assert(idxs[i] == old_idxs[i]);
                    assert(idxs[i + 1] == idx);
                    assert(table@[old_idxs[old_idxs.len() - 1] as int].flags != 0);
                }
            }
        }
        total = total + d.len as u64;
        steps = steps + 1;
        if d.flags == 0 {
            assert(idxs[idxs.len() - 1] == idx);
            assert(table@[idx as int] == d);
            assert(idxs[0] == head);
            assert(forall|i: int| 0 <= i < idxs.len() ==> (#[trigger] idxs[i] as int) < table@.len());
            assert(table@[idxs[idxs.len() - 1] as int].flags == 0);
            assert(tx_walk(table@, head, idxs));
            assert(vq.desc_table->0@ == table@);
            assert(tx_walk(vq.desc_table->0@, head, idxs) && iov@ == walk_iov(vq.desc_table->0@, idxs, vm_id));
            return Ok((iov, total));
        }
        idx = d.next;
    }
    Err(())
}

/// Whether `idxs` is the walk of a receive chain from `idxs[0]` that gathers at
/// least `len` bytes: it follows `next` while a descriptor continues and
/// fewer than `len` bytes are gathered.
pub open spec fn rx_walk(table: Seq<VringDesc>, idxs: Seq<u16>, len: u64, vm_id: usize) -> bool {
    &&& idxs.len() > 0
    &&& forall|i: int| 0 <= i < idxs.len() ==> (#[trigger] idxs[i] as int) < table.len()
    &&& forall|i: int| 0 <= i < idxs.len() - 1 ==> #[trigger] rx_link(table, idxs, i, len, vm_id)
    &&& seg_total(walk_iov(table, idxs, vm_id)) >= len
}

/// The head of the next chain the guest offered on `q`.
pub open spec fn pending_head(q: Virtq) -> u16 {
    q.avail->0.ring@[(q.last_avail_idx as int) % (q.num as int)]
}

/// Whether the receive walk from descriptor `idx`, with `gathered` bytes
/// gathered so far, reaches `len` bytes within `fuel` descriptors, every
/// descriptor present in the table and aliased.
pub open spec fn rx_walk_ok(table: Seq<VringDesc>, idx: u16, gathered: int, len: u64, fuel: nat, vm_id: usize) -> bool
    decreases fuel,
{
    if fuel == 0 || idx as int >= table.len() {
        false
    } else {
        let d = table[idx as int];
        let g = gathered + d.len as int;
        hva_of(vm_id, d.addr) as usize != 0 && (g >= len || (d.flags & VIRTQ_DESC_F_NEXT != 0
            && rx_walk_ok(table, d.next, g, len, (fuel - 1) as nat, vm_id)))
    }
}

/// Takes the next receive chain of VM `vm_id`'s console queue and collects
/// buffers for `len` bytes from it: `Ok(None)` when the guest offered no
/// chain, the chain's head and buffers otherwise. A chain too short for
/// `len` bytes is given back to the ring and refused.
pub fn virtio_console_rx_iov(rx_vq: &mut Virtq, vm_id: usize, len: u64) -> (r: Result<Option<(u16, Vec<BlkIov>)>, ()>)
    ensures
        final(rx_vq).desc_table == old(rx_vq).desc_table,
        final(rx_vq).used == old(rx_vq).used,
        final(rx_vq).avail == old(rx_vq).avail,
        final(rx_vq).num == old(rx_vq).num,
        r matches Ok(Some(_)) ==> final(rx_vq).last_avail_idx == crate::virtq::idx_next(old(rx_vq).last_avail_idx),
        r matches Ok(Some((h, v))) ==> (old(rx_vq).desc_table matches Some(t) && exists|idxs: Seq<u16>|
            #[trigger] rx_walk(t@, idxs, len, vm_id) && idxs[0] == h && v@ == walk_iov(t@, idxs, vm_id)),
        r matches Ok(None) ==> final(rx_vq).last_avail_idx == old(rx_vq).last_avail_idx,
        r matches Ok(None) <==> !crate::virtq::chain_pending(*old(rx_vq)),
        r matches Ok(Some((h, _))) ==> h == pending_head(*old(rx_vq)),
        r is Err ==> final(rx_vq).last_avail_idx == old(rx_vq).last_avail_idx,
        crate::virtq::chain_pending(*old(rx_vq)) ==> (r is Ok <==> (old(rx_vq).desc_table matches Some(t)
            && rx_walk_ok(t@, pending_head(*old(rx_vq)), 0, len, DESC_QUEUE_SIZE as nat, vm_id))),
{
    let head = match rx_vq.pop_avail_desc_idx() {
        Some(h) => h,
        None => return Ok(None),
    };
    let ghost popped = rx_vq.last_avail_idx;
    assert(popped == crate::virtq::idx_next(old(rx_vq).last_avail_idx));
    let table = match &rx_vq.desc_table {
        Some(t) => t.clone(),
        None => {
            rx_vq.put_back_avail_desc_idx();
            return Err(());
        },
    };
    assert(head == pending_head(*old(rx_vq)));
    let mut iov: Vec<BlkIov> = Vec::new();
    let mut rx_len: u64 = 0;
    let mut idx: u16 = head;
    let ghost mut idxs: Seq<u16> = Seq::empty();
    let mut steps: usize = 0;
    while steps < DESC_QUEUE_SIZE
        invariant
            steps <= DESC_QUEUE_SIZE,
            rx_vq.desc_table matches Some(t) && t@ == table@,
            rx_vq.last_avail_idx == popped,
            popped == crate::virtq::idx_next(old(rx_vq).last_avail_idx),
            rx_vq.desc_table == old(rx_vq).desc_table,
            rx_vq.used == old(rx_vq).used,
            rx_vq.avail == old(rx_vq).avail,
            rx_vq.num == old(rx_vq).num,
            idxs.len() == steps,
            iov@ == walk_iov(table@, idxs, vm_id),
            rx_len == seg_total(iov@),
            steps > 0 ==> rx_len < len,
            old(rx_vq).desc_table matches Some(t0) && t0@ == table@,
            crate::virtq::chain_pending(*old(rx_vq)),
            head == pending_head(*old(rx_vq)),
            rx_walk_ok(table@, head, 0, len, DESC_QUEUE_SIZE as nat, vm_id) == rx_walk_ok(table@, idx, rx_len as int, len, (DESC_QUEUE_SIZE - steps) as nat, vm_id),
            steps > 0 ==> idxs[0] == head,
            steps == 0 ==> idx == head,
            forall|i: int| 0 <= i < idxs.len() ==> (#[trigger] idxs[i] as int) < table@.len(),
            forall|i: int| 0 <= i < idxs.len() - 1 ==> #[trigger] rx_link(table@, idxs, i, len, vm_id),
            steps > 0 ==> table@[idxs[steps - 1] as int].flags & VIRTQ_DESC_F_NEXT != 0 && idx == table@[idxs[steps - 1] as int].next,
        decreases DESC_QUEUE_SIZE - steps,
    {
        if idx as usize >= table.len() {
            rx_vq.put_back_avail_desc_idx();
            return Err(());
        }
        let d = table[idx as usize];
        let addr = vm_ipa2hva(vm_id, d.addr);
        if addr == 0 {
            rx_vq.put_back_avail_desc_idx();
            return Err(());
        }
        proof {
            lemma_seg_total_bound(iov@);
        }
        let ghost old_iov = iov@;
        let ghost old_idxs = idxs;
        iov.push(BlkIov { data_bg: addr, len: d.len });
        proof {
            idxs = idxs.push(idx);
            assert(iov@.drop_last() =~= old_iov);
            assert(iov@ =~= walk_iov(table@, idxs, vm_id));
            assert forall|i: int| 0 <= i < idxs.len() - 1 implies #[trigger] rx_link(table@, idxs, i, len, vm_id) by {
                if i < old_idxs.len() - 1 {
                    assert(idxs[i] == old_idxs[i] && idxs[i + 1] == old_idxs[i + 1]);
                    assert(idxs.take(i + 1) =~= old_idxs.take(i + 1));
                    assert(rx_link(table@, old_idxs, i, len, vm_id));
                } else {
                    assert(i == old_idxs.len() - 1);
                    assert(idxs[i] == old_idxs[i]);
                    assert(idxs[i + 1] == idx);
                    assert(idxs.take(i + 1) =~= old_idxs);
                    assert(walk_iov(table@, old_idxs, vm_id) =~= old_iov);
                    assert(table@[old_idxs[old_idxs.len() - 1] as int].flags & VIRTQ_DESC_F_NEXT != 0);
                }
            }
        }
        rx_len = rx_len + d.len as u64;
        steps = steps + 1;
        if rx_len >= len {
            assert(idxs[idxs.len() - 1] == idx);
            assert(idxs[0] == head);
            assert(rx_walk(table@, idxs, len, vm_id));
            assert(old(rx_vq).desc_table->0@ == table@);
            assert(rx_vq.last_avail_idx == crate::virtq::idx_next(old(rx_vq).last_avail_idx));
            assert(rx_walk(old(rx_vq).desc_table->0@, idxs, len, vm_id) && iov@ == walk_iov(old(rx_vq).desc_table->0@, idxs, vm_id));
            return Ok(Some((head, iov)));
        }
        if d.flags & VIRTQ_DESC_F_NEXT == 0 {
            rx_vq.put_back_avail_desc_idx();
            return Err(());
        }
        idx = d.next;
    }
    rx_vq.put_back_avail_desc_idx();
    Err(())
}

/// One copy of a forwarded console chain: `n` bytes from `src + src_off`
/// to `dst + dst_off`.
#[derive(Clone, Copy, Debug, PartialEq, Eq, Structural)]
pub struct CopySeg {
    pub dst: usize,
    pub dst_off: usize,
    pub src: usize,
    pub src_off: usize,
    pub n: usize,
}

pub open spec fn min3(a: int, b: int, c: int) -> int {
    if a <= b && a <= c {
        a
    } else if b <= c {
        b
    } else {
        c
    }
}

/// The copies that move `left` bytes from the transmit segments `tx`
/// (from segment `t`, offset `toff`) into the receive segments `rx` (from
/// segment `r`, offset `roff`): each copy fills as much as both current
/// segments allow, in order, until the bytes or a side's segments run out.
pub open spec fn copy_plan(tx: Seq<BlkIov>, rx: Seq<BlkIov>, t: int, toff: int, r: int, roff: int, left: int) -> Seq<CopySeg>
    decreases (tx.len() - t) + (rx.len() - r) + (if left > 0 { 1int } else { 0int }),
{
    if left <= 0 || t < 0 || r < 0 || t >= tx.len() || r >= rx.len() || toff < 0 || roff < 0
        || toff > tx[t].len || roff > rx[r].len {
        Seq::empty()
    } else {
        let n = min3(left, tx[t].len - toff, rx[r].len - roff);
        let t2 = if toff + n == tx[t].len { t + 1 } else { t };
        let toff2 = if toff + n == tx[t].len { 0 } else { toff + n };
        let r2 = if roff + n == rx[r].len { r + 1 } else { r };
        let roff2 = if roff + n == rx[r].len { 0 } else { roff + n };
        let rest = copy_plan(tx, rx, t2, toff2, r2, roff2, left - n);
        if n > 0 {
            seq![CopySeg { dst: rx[r].data_bg, dst_off: roff as usize, src: tx[t].data_bg, src_off: toff as usize, n: n as usize }] + rest
        } else {
            rest
        }
    }
}

/// The copies that move `len` bytes from `tx` into `rx`.
pub fn console_copy_plan(tx: &Vec<BlkIov>, rx: &Vec<BlkIov>, len: u64) -> (r: Vec<CopySeg>)
    ensures
        r@ == copy_plan(tx@, rx@, 0, 0, 0, 0, len as int),
{
    let mut out: Vec<CopySeg> = Vec::new();
    let mut t: usize = 0;
    let mut toff: usize = 0;
    let mut r: usize = 0;
    let mut roff: usize = 0;
    let mut left: u64 = len;
    while left > 0 && t < tx.len() && r < rx.len()
        invariant
            t <= tx@.len(),
            r <= rx@.len(),
            t < tx@.len() ==> toff <= tx@[t as int].len,
            r < rx@.len() ==> roff <= rx@[r as int].len,
            out@ + copy_plan(tx@, rx@, t as int, toff as int, r as int, roff as int, left as int) == copy_plan(tx@, rx@, 0, 0, 0, 0, len as int),
        decreases (tx@.len() - t) + (rx@.len() - r) + (if left > 0 { 1int } else { 0int }),
    {
        let tl = tx[t].len as usize;
        let rl = rx[r].len as usize;
        let a = tl - toff;
        let b = rl - roff;
        let mut n: usize = if a <= b { a } else { b };
        if (left as u128) < (n as u128) {
            n = left as usize;
        }
        assert(n as int == min3(left as int, tl - toff, rl - roff));
        if n > 0 {
            let seg = CopySeg { dst: rx[r].data_bg, dst_off: roff, src: tx[t].data_bg, src_off: toff, n };
            let ghost before = out@;
            out.push(seg);
            proof {
                assert(out@ == before.push(seg));
            }
        }
        left = left - n as u64;
        if toff + n == tl {
            t = t + 1;
            toff = 0;
        } else {
            toff = toff + n;
        }
        if roff + n == rl {
            r = r + 1;
            roff = 0;
        } else {
            roff = roff + n;
        }
    }
    proof {
        assert(copy_plan(tx@, rx@, t as int, toff as int, r as int, roff as int, left as int) == Seq::<CopySeg>::empty());
        assert(out@ + Seq::<CopySeg>::empty() =~= out@);
    }
    out
}

/// What forwarding one transmitted chain did: its head and length, its
/// buffers, and, when the peer offered a receive chain, that chain's head,
/// its buffers and the copies to make.
#[derive(Clone, Debug)]
pub struct ConsoleForward {
    pub tx_head: u16,
    pub len: u64,
    pub tx_iov: Vec<BlkIov>,
    pub delivered: Option<(u16, Vec<BlkIov>, Vec<CopySeg>)>,
}

/// The used-ring entries the forwarded chains hand back, in order.
pub open spec fn fw_elems(fws: Seq<ConsoleForward>) -> Seq<crate::virtq::VringUsedElem> {
    Seq::new(fws.len(), |j: int| crate::virtq::VringUsedElem { id: fws[j].tx_head as u32, len: fws[j].len as u32 })
}

/// Whether the ring holds entry `j` of `elems` at its slot after index `u`,
/// unless a later entry took the same slot.
pub open spec fn elem_ok(ring: Seq<crate::virtq::VringUsedElem>, u: u16, num: usize, elems: Seq<crate::virtq::VringUsedElem>, j: int) -> bool {
    (0 <= crate::blk::used_slot(u, j, num) < ring.len() && forall|k: int| j < k < elems.len() ==> crate::blk::used_slot(u, k, num)
        != crate::blk::used_slot(u, j, num)) ==> ring[crate::blk::used_slot(u, j, num)] == elems[j]
}

proof fn lemma_elems_step(
    ring0: Seq<crate::virtq::VringUsedElem>,
    ring1: Seq<crate::virtq::VringUsedElem>,
    u: u16,
    num: usize,
    e0: Seq<crate::virtq::VringUsedElem>,
    e1: Seq<crate::virtq::VringUsedElem>,
)
    requires
        e1.len() == e0.len() + 1,
        forall|j: int| 0 <= j < e0.len() ==> e1[j] == e0[j],
        0 <= crate::blk::used_slot(u, e0.len() as int, num) < ring0.len(),
        ring1 == ring0.update(crate::blk::used_slot(u, e0.len() as int, num), e1[e0.len() as int]),
        forall|j: int| 0 <= j < e0.len() ==> #[trigger] elem_ok(ring0, u, num, e0, j),
    ensures
        forall|j: int| 0 <= j < e1.len() ==> #[trigger] elem_ok(ring1, u, num, e1, j),
{
    let n = e0.len() as int;
    assert forall|j: int| 0 <= j < e1.len() implies #[trigger] elem_ok(ring1, u, num, e1, j) by {
        if j < n {
            assert(elem_ok(ring0, u, num, e0, j));
            if 0 <= crate::blk::used_slot(u, j, num) < ring1.len() && forall|k: int| j < k < e1.len() ==> crate::blk::used_slot(u, k, num)
                != crate::blk::used_slot(u, j, num) {
                assert(crate::blk::used_slot(u, n, num) != crate::blk::used_slot(u, j, num));
                assert forall|k: int| j < k < e0.len() implies crate::blk::used_slot(u, k, num) != crate::blk::used_slot(u, j, num) by {
                    assert(j < k < e1.len());
                }
                assert(ring1[crate::blk::used_slot(u, j, num)] == ring0[crate::blk::used_slot(u, j, num)]);
            }
        }
    }
}

/// Whether `fw` is what forwarding the `j`-th chain offered on `tx` from VM
/// `src_vm` yields.
pub open spec fn forward_at(tx: Virtq, fw: ConsoleForward, j: int, src_vm: usize) -> bool {
    &&& tx.avail is Some
    &&& tx.num > 0
    &&& tx.desc_table is Some
    &&& fw.tx_head == crate::blk::head_at(tx, j)
    &&& (exists|idxs: Seq<u16>| #[trigger] tx_walk(tx.desc_table->0@, fw.tx_head, idxs) && fw.tx_iov@ == walk_iov(tx.desc_table->0@, idxs, src_vm))
    &&& fw.len == seg_total(fw.tx_iov@)
    &&& fw.delivered matches Some((_, rx_iov, copies)) ==> copies@ == copy_plan(fw.tx_iov@, rx_iov@, 0, 0, 0, 0, fw.len as int)
}

/// The console notification of VM `src_vm`: forwards every chain offered on
/// its transmit queue, in ring order, to the receive queue of the paired
/// console of VM `trgt_vm`, and hands each back on the transmit used ring.
/// Notifications of other queues are ignored; a queue that is not ready is
/// refused. It stops with `false` at the first chain whose buffers cannot be
/// collected or whose used entry cannot be written.
pub fn virtio_console_notify_handler(tx: &mut Virtq, src_vm: usize, rx: &mut Virtq, trgt_vm: usize) -> (r: (
    bool,
    Vec<ConsoleForward>,
))
    ensures
        !(old(tx).vq_index % 4 == 1) ==> r.0 && r.1@.len() == 0 && final(tx).last_avail_idx
            == old(tx).last_avail_idx && final(tx).used == old(tx).used && final(rx).last_avail_idx
            == old(rx).last_avail_idx && final(rx).used == old(rx).used,
        (old(tx).vq_index % 4 == 1) && old(tx).ready == 0 ==> !r.0 && r.1@.len() == 0
            && final(tx).last_avail_idx == old(tx).last_avail_idx && final(tx).used == old(tx).used,
        (old(tx).vq_index % 4 == 1) && old(tx).ready != 0 ==> {
            &&& final(tx).last_avail_idx == crate::blk::idx_add(old(tx).last_avail_idx, r.1@.len() as int + if r.0 { 0int } else { 1int })
            &&& r.0 ==> !crate::virtq::chain_pending(*final(tx))
            &&& crate::blk::used_advanced(old(tx).used, final(tx).used, r.1@.len() as int)
            &&& forall|j: int| 0 <= j < r.1@.len() ==> #[trigger] elem_ok(final(tx).used->0.ring@, old(tx).used->0.idx, old(tx).num, fw_elems(r.1@), j)
        },
        forall|j: int| 0 <= j < r.1@.len() ==> forward_at(*old(tx), #[trigger] r.1@[j], j, src_vm),
        final(tx).avail == old(tx).avail,
        final(tx).desc_table == old(tx).desc_table,
        final(tx).num == old(tx).num,
        final(rx).avail == old(rx).avail,
        final(rx).desc_table == old(rx).desc_table,
        final(rx).num == old(rx).num,
{
    let mut fws: Vec<ConsoleForward> = Vec::new();
    if !console_queue_transmits(tx.vq_index) {
        return (true, fws);
    }
    if tx.ready() == 0 {
        return (false, fws);
    }
    loop
        invariant
            old(tx).ready != 0,
            old(tx).vq_index % 4 == 1,
            tx.avail == old(tx).avail,
            tx.num == old(tx).num,
            tx.desc_table == old(tx).desc_table,
            rx.avail == old(rx).avail,
            rx.num == old(rx).num,
            rx.desc_table == old(rx).desc_table,
            tx.last_avail_idx == crate::blk::idx_add(old(tx).last_avail_idx, fws@.len() as int),
            forall|j: int| 0 <= j < fws@.len() ==> forward_at(*old(tx), #[trigger] fws@[j], j, src_vm),
            crate::blk::used_advanced(old(tx).used, tx.used, fws@.len() as int),
            forall|j: int| 0 <= j < fws@.len() ==> #[trigger] elem_ok(tx.used->0.ring@, old(tx).used->0.idx, old(tx).num, fw_elems(fws@), j),
        decreases
            (if tx.avail is Some { crate::virtq::pending(tx.avail->0.idx, tx.last_avail_idx) } else { 0 }),
    {
        let ghost n = fws@.len();
        let head = match tx.pop_avail_desc_idx() {
            Some(h) => h,
            None => return (true, fws),
        };
        proof {
            crate::blk::lemma_idx_add_next(old(tx).last_avail_idx, n as int);
            assert(head == crate::blk::head_at(*old(tx), n as int));
        }
        let (tx_iov, len) = match virtio_console_tx_iov(tx, head, src_vm) {
            Ok(x) => x,
            Err(_) => return (false, fws),
        };
        let delivered = match virtio_console_rx_iov(rx, trgt_vm, len) {
            Ok(Some((rh, rx_iov))) => {
                let copies = console_copy_plan(&tx_iov, &rx_iov, len);
                let used_len: u32 = #[verifier::truncate] (len as u32);
                rx.update_used_ring(used_len, rh as u32);
                Some((rh, rx_iov, copies))
            },
            _ => None,
        };
        let ghost mid = *tx;
        let used_len: u32 = #[verifier::truncate] (len as u32);
        if !tx.update_used_ring(used_len, head as u32) {
            return (false, fws);
        }
        let fw = ConsoleForward { tx_head: head, len, tx_iov, delivered };
        let ghost f0 = fws@;
        fws.push(fw);
        proof {
            assert forall|j: int| 0 <= j < fws@.len() implies forward_at(*old(tx), #[trigger] fws@[j], j, src_vm) by {
                if j < n {
                    assert(fws@[j] == f0[j]);
                }
            }
            let u = old(tx).used->0.idx;
            let num = old(tx).num;
            if n > 0 {
                crate::blk::lemma_idx_add_next(u, n as int);
            } else {
                crate::blk::lemma_idx_add_next(u, 0);
                assert(crate::blk::idx_add(u, 0) == u);
            }
            assert(mid.used->0.idx == crate::blk::idx_add(u, n as int));
            assert(fw_elems(fws@)[n as int] == crate::virtq::VringUsedElem { id: head as u32, len: used_len });
            assert forall|j: int| 0 <= j < f0.len() implies fw_elems(fws@)[j] == fw_elems(f0)[j] by {
                assert(fws@[j] == f0[j]);
            }
            lemma_elems_step(mid.used->0.ring@, tx.used->0.ring@, u, num, fw_elems(f0), fw_elems(fws@));
        }
    }
}

} // verus!
