//! The split virtqueue of a virtio-mmio transport: the descriptor table,
//! the available ring the guest fills and the used ring the device fills,
//! with the device-side cursor over the available ring.
use vstd::prelude::*;

verus! {

pub const VIRTQ_READY: usize = 1;

pub const VIRTQ_DESC_F_NEXT: u16 = 1;

pub const VIRTQ_DESC_F_WRITE: u16 = 2;

pub const VRING_USED_F_NO_NOTIFY: u16 = 1;

/// Entries of the descriptor table and of both rings.
pub const DESC_QUEUE_SIZE: usize = 32;

/// One descriptor: a guest buffer, its length, its flags and the next
/// descriptor of its chain.
#[derive(Clone, Copy, Debug, PartialEq, Eq, Structural)]
pub struct VringDesc {
    pub addr: usize,
    pub len: u32,
    pub flags: u16,
    pub next: u16,
}

/// The available ring: descriptor-chain heads the guest offers.
#[derive(Clone, Debug)]
pub struct VringAvail {
    pub flags: u16,
    pub idx: u16,
    pub ring: Vec<u16>,
}

/// One used-ring entry: the head of a finished chain and the bytes written.
#[derive(Clone, Copy, Debug, PartialEq, Eq, Structural)]
pub struct VringUsedElem {
    pub id: u32,
    pub len: u32,
}

/// The used ring: finished chains the device hands back.
#[derive(Clone, Debug)]
pub struct VringUsed {
    pub flags: u16,
    pub idx: u16,
    pub ring: Vec<VringUsedElem>,
}

/// Back-end a queue notification is handed to.
#[derive(Clone, Copy, Debug, PartialEq, Eq, Structural)]
pub enum VirtioDeviceType {
    Net,
    Block,
    Console,
}

/// A virtqueue as the device sees it.
pub struct Virtq {
    pub ready: usize,
    pub vq_index: usize,
    pub num: usize,
    pub desc_table: Option<Vec<VringDesc>>,
    pub avail: Option<VringAvail>,
    pub used: Option<VringUsed>,
    pub last_avail_idx: u16,
    pub last_used_idx: u16,
    pub used_flags: u16,
    pub to_notify: bool,
    pub desc_table_addr: usize,
    pub avail_addr: usize,
    pub used_addr: usize,
    pub notify_handler: Option<VirtioDeviceType>,
}

/// `a + 1` modulo 2^16, the way ring indices advance.
pub open spec fn idx_next(a: u16) -> u16 {
    if a == u16::MAX {
        0
    } else {
        (a + 1) as u16
    }
}

/// Whether the guest offered a chain the device has not taken yet, and its
/// ring slot can be read.
pub open spec fn chain_pending(q: Virtq) -> bool {
    &&& q.avail matches Some(a)
    &&& a.idx != q.last_avail_idx
    &&& q.num > 0
    &&& (q.last_avail_idx as int) % (q.num as int) < a.ring@.len()
}

/// Chains the guest offered that the device has not taken yet.
pub open spec fn pending(avail_idx: u16, last_avail_idx: u16) -> int {
    if avail_idx >= last_avail_idx {
        avail_idx - last_avail_idx
    } else {
        avail_idx + 0x10000 - last_avail_idx
    }
}

impl Virtq {
    /// A queue that is not set up yet.
    pub fn default() -> (r: Virtq)
        ensures
            r.ready == 0,
            r.num == 0,
            r.desc_table.is_none(),
            r.avail.is_none(),
            r.used.is_none(),
            r.last_avail_idx == 0,
            r.last_used_idx == 0,
            r.used_flags == 0,
            r.to_notify,
            r.notify_handler.is_none(),
    {
        Virtq {
            ready: 0,
            vq_index: 0,
            num: 0,
            desc_table: None,
            avail: None,
            used: None,
            last_avail_idx: 0,
            last_used_idx: 0,
            used_flags: 0,
            to_notify: true,
            desc_table_addr: 0,
            avail_addr: 0,
            used_addr: 0,
            notify_handler: None,
        }
    }

    /// Returns the queue to its state before setup, as queue `index`.
    pub fn reset(&mut self, index: usize)
        ensures
            final(self).ready == 0,
            final(self).vq_index == index,
            final(self).num == 0,
            final(self).desc_table.is_none(),
            final(self).avail.is_none(),
            final(self).used.is_none(),
            final(self).last_avail_idx == 0,
            final(self).last_used_idx == 0,
            final(self).used_flags == 0,
            final(self).to_notify,
            final(self).desc_table_addr == 0,
            final(self).avail_addr == 0,
            final(self).used_addr == 0,
            final(self).notify_handler == old(self).notify_handler,
    {
        self.ready = 0;
        self.vq_index = index;
        self.num = 0;
        self.last_avail_idx = 0;
        self.last_used_idx = 0;
        self.used_flags = 0;
        self.to_notify = true;
        self.desc_table_addr = 0;
        self.avail_addr = 0;
        self.used_addr = 0;
        self.desc_table = None;
        self.avail = None;
        self.used = None;
    }

    /// Whether the guest should be interrupted for finished chains.
    pub fn notify(&self) -> (r: bool)
        ensures
            r == self.to_notify,
    {
        self.to_notify
    }

    /// Takes the next chain head the guest offered, if any, and advances the
    /// device's cursor by one.
    pub fn pop_avail_desc_idx(&mut self) -> (r: Option<u16>)
        ensures
            match r {
                Some(head) => {
                    &&& old(self).avail matches Some(a)
                    &&& a.idx != old(self).last_avail_idx
                    &&& old(self).num > 0
                    &&& (old(self).last_avail_idx as int) % (old(self).num as int) < a.ring@.len()
                    &&& head == a.ring@[(old(self).last_avail_idx as int) % (old(self).num as int)]
                    &&& final(self).last_avail_idx == idx_next(old(self).last_avail_idx)
                },
                None => final(self).last_avail_idx == old(self).last_avail_idx,
            },
            r is Some <==> chain_pending(*old(self)),
            final(self).avail == old(self).avail,
            final(self).used == old(self).used,
            final(self).desc_table == old(self).desc_table,
            final(self).num == old(self).num,
            final(self).used_flags == old(self).used_flags,
            final(self).to_notify == old(self).to_notify,
    {
        match &self.avail {
            Some(avail) => {
                if avail.idx == self.last_avail_idx || self.num == 0 {
                    return None;
                }
                let idx = self.last_avail_idx as usize % self.num;
                if idx >= avail.ring.len() {
                    return None;
                }
                let avail_desc_idx = avail.ring[idx];
                self.last_avail_idx = self.last_avail_idx.wrapping_add(1);
                Some(avail_desc_idx)
            },
            None => None,
        }
    }

    /// Asks the guest not to notify the device.
    pub fn disable_notify(&mut self)
        ensures
            final(self).used_flags == old(self).used_flags | VRING_USED_F_NO_NOTIFY,
            final(self).last_avail_idx == old(self).last_avail_idx,
            final(self).used == old(self).used,
            final(self).avail == old(self).avail,
    {
        self.used_flags = self.used_flags | VRING_USED_F_NO_NOTIFY;
    }

    /// Lets the guest notify the device again.
    pub fn enable_notify(&mut self)
        ensures
            final(self).used_flags == old(self).used_flags & !VRING_USED_F_NO_NOTIFY,
            final(self).last_avail_idx == old(self).last_avail_idx,
            final(self).used == old(self).used,
            final(self).avail == old(self).avail,
    {
        self.used_flags = self.used_flags & !VRING_USED_F_NO_NOTIFY;
    }

    /// Whether the device has taken every chain the guest offered.
    pub fn check_avail_idx(&self) -> (r: bool)
        requires
            self.avail.is_some(),
        ensures
            r == (self.last_avail_idx == self.avail->0.idx),
    {
        match &self.avail {
            Some(a) => self.last_avail_idx == a.idx,
            None => true,
        }
    }

    /// Descriptor `idx`, when the table is set up and holds it.
    pub fn desc(&self, idx: usize) -> (r: Option<VringDesc>)
        ensures
            r == (match self.desc_table {
                Some(t) => if idx < t@.len() {
                    Some(t@[idx as int])
                } else {
                    None
                },
                None => None,
            }),
    {
        match &self.desc_table {
            Some(t) => if idx < t.len() {
                Some(t[idx])
            } else {
                None
            },
            None => None,
        }
    }

    /// Whether descriptor `idx` is device-writable.
    pub fn desc_is_writable(&self, idx: usize) -> (r: bool)
        ensures
            r == (self.desc_table matches Some(t) && idx < t@.len() && t@[idx as int].flags
                & VIRTQ_DESC_F_WRITE != 0),
    {
        match self.desc(idx) {
            Some(d) => d.flags & VIRTQ_DESC_F_WRITE != 0,
            None => false,
        }
    }

    /// Whether descriptor `idx` continues its chain.
    pub fn desc_has_next(&self, idx: usize) -> (r: bool)
        ensures
            r == (self.desc_table matches Some(t) && idx < t@.len() && t@[idx as int].flags
                & VIRTQ_DESC_F_NEXT != 0),
    {
        match self.desc(idx) {
            Some(d) => d.flags & VIRTQ_DESC_F_NEXT != 0,
            None => false,
        }
    }

    /// Hands the chain headed by `desc_chain_head_idx` back to the guest with
    /// `len` bytes written: one entry at the used ring's index, which then
    /// advances by one. Fails when the used ring is not set up.
    pub fn update_used_ring(&mut self, len: u32, desc_chain_head_idx: u32) -> (r: bool)
        ensures
            r == (old(self).used.is_some() && old(self).num > 0 && (old(self).used->0.idx as int)
                % (old(self).num as int) < old(self).used->0.ring@.len()),
            r ==> ({
                let u0 = old(self).used->0;
                let u1 = final(self).used->0;
                let slot = (u0.idx as int) % (old(self).num as int);
                &&& final(self).used is Some
                &&& u1.idx == idx_next(u0.idx)
                &&& u1.flags == old(self).used_flags
                &&& u1.ring@ == u0.ring@.update(
                    slot,
                    VringUsedElem { id: desc_chain_head_idx, len },
                )
            }),
            !r ==> final(self).used == old(self).used,
            final(self).last_avail_idx == old(self).last_avail_idx,
            final(self).avail == old(self).avail,
            final(self).desc_table == old(self).desc_table,
            final(self).num == old(self).num,
            final(self).used_flags == old(self).used_flags,
    {
        let flag = self.used_flags;
        let num = self.num;
        match &mut self.used {
            Some(used) => {
                if num == 0 {
                    return false;
                }
                let slot = used.idx as usize % num;
                if slot >= used.ring.len() {
                    return false;
                }
                used.flags = flag;
                used.ring.set(slot, VringUsedElem { id: desc_chain_head_idx, len });
                used.idx = used.idx.wrapping_add(1);
                true
            },
            None => false,
        }
    }

    pub fn set_notify_handler(&mut self, handler: VirtioDeviceType)
        ensures
            final(self).notify_handler == Some(handler),
            final(self).last_avail_idx == old(self).last_avail_idx,
    {
        self.notify_handler = Some(handler);
    }

    pub fn set_num(&mut self, num: usize)
        ensures
            final(self).num == num,
            final(self).last_avail_idx == old(self).last_avail_idx,
    {
        self.num = num;
    }

    pub fn set_ready(&mut self, ready: usize)
        ensures
            final(self).ready == ready,
            final(self).num == old(self).num,
    {
        self.ready = ready;
    }

    pub fn or_desc_table_addr(&mut self, addr: usize)
        ensures
            final(self).desc_table_addr == old(self).desc_table_addr | addr,
    {
        self.desc_table_addr = self.desc_table_addr | addr;
    }

    pub fn or_avail_addr(&mut self, addr: usize)
        ensures
            final(self).avail_addr == old(self).avail_addr | addr,
    {
        self.avail_addr = self.avail_addr | addr;
    }

    pub fn or_used_addr(&mut self, addr: usize)
        ensures
            final(self).used_addr == old(self).used_addr | addr,
    {
        self.used_addr = self.used_addr | addr;
    }

    pub fn ready(&self) -> (r: usize)
        ensures
            r == self.ready,
    {
        self.ready
    }

    pub fn num(&self) -> (r: usize)
        ensures
            r == self.num,
    {
        self.num
    }

    pub fn desc_table_addr(&self) -> (r: usize)
        ensures
            r == self.desc_table_addr,
    {
        self.desc_table_addr
    }

    pub fn avail_addr(&self) -> (r: usize)
        ensures
            r == self.avail_addr,
    {
        self.avail_addr
    }

    pub fn used_addr(&self) -> (r: usize)
        ensures
            r == self.used_addr,
    {
        self.used_addr
    }

    /// Flags of the available ring, 0 when it is not set up.
    pub fn avail_flags(&self) -> (r: u16)
        ensures
            r == (match self.avail {
                Some(a) => a.flags,
                None => 0u16,
            }),
    {
        match &self.avail {
            Some(a) => a.flags,
            None => 0,
        }
    }
}

/// Taking a chain advances the device's cursor by exactly one, so it never
/// moves backwards and never skips a chain; handing the chain back fills
/// exactly one used-ring slot, with that chain's head, and advances the used
/// index by exactly one.
pub proof fn lemma_pop_then_use(last_avail: u16, used_idx: u16)
    ensures
        pending(idx_next(last_avail), last_avail) == 1,
        pending(idx_next(used_idx), used_idx) == 1,
{
}

/// With `num - 1` chains pending, the guest can offer one more chain
/// without overrunning the ring: the count stays within `num`, and the slot
/// the new chain is read from differs from the slots of the pending ones.
pub proof fn lemma_one_more_fits(avail_idx: u16, last_avail: u16, num: int, k: int)
    requires
        0 < num <= 0x8000,
        pending(avail_idx, last_avail) == num - 1,
        0 <= k < num - 1,
    ensures
        pending(idx_next(avail_idx), last_avail) == num,
        (last_avail as int + k) % num != (last_avail as int + (num - 1)) % num,
{
    let l = last_avail as int;
    let a = l + k;
    let b = l + (num - 1);
    vstd::arithmetic::div_mod::lemma_fundamental_div_mod(a, num);
    vstd::arithmetic::div_mod::lemma_fundamental_div_mod(b, num);
    vstd::arithmetic::div_mod::lemma_mod_pos_bound(a, num);
    vstd::arithmetic::div_mod::lemma_mod_pos_bound(b, num);
    let q1 = a / num;
    let q2 = b / num;
    if a % num == b % num {
        assert(num * q2 - num * q1 == b - a);
        vstd::arithmetic::mul::lemma_mul_is_distributive_sub(num, q2, q1);
        assert(num * (q2 - q1) == num - 1 - k);
        if q2 - q1 >= 1 {
            vstd::arithmetic::mul::lemma_mul_inequality(1, q2 - q1, num);
            assert(num * (q2 - q1) >= num) by {
                vstd::arithmetic::mul::lemma_mul_is_commutative(num, q2 - q1);
            }
        } else {
            assert(num * (q2 - q1) <= 0) by (nonlinear_arith)
                requires
                    q2 - q1 <= 0,
                    num > 0,
            ;
        }
    }
}

/// The virtio 1.0 feature bit.
pub const VIRTIO_F_VERSION_1: u64 = 0x1_0000_0000;

/// The console feature announcing a console size.
pub const VIRTIO_CONSOLE_F_SIZE: u64 = 1;

/// Features a virtio-console device offers.
pub fn console_features() -> (r: u64)
    ensures
        r == VIRTIO_F_VERSION_1 | VIRTIO_CONSOLE_F_SIZE,
{
    VIRTIO_F_VERSION_1 | VIRTIO_CONSOLE_F_SIZE
}

/// Device-specific state of a virtio device.
#[derive(Clone, Copy, Debug, PartialEq, Eq, Structural)]
pub enum DevStat {
    BlkStat,
    NetStat,
    Empty,
}

impl Virtq {
    /// Gives the last chain taken back to the available ring.
    pub fn put_back_avail_desc_idx(&mut self)
        ensures
            final(self).last_avail_idx == (if old(self).last_avail_idx == 0 {
                u16::MAX
            } else {
                (old(self).last_avail_idx - 1) as u16
            }),
            final(self).avail == old(self).avail,
            final(self).used == old(self).used,
            final(self).desc_table == old(self).desc_table,
            final(self).num == old(self).num,
    {
        self.last_avail_idx = self.last_avail_idx.wrapping_sub(1);
    }
}

} // verus!
