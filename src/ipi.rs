//! Inter-processor messages: typed, queued per target core, delivered in
//! the order they were sent.
use vstd::prelude::*;

verus! {

/// The handler class of an inter-processor message.
#[derive(Clone, Copy, Debug, PartialEq, Eq, Structural)]
pub enum IpiType {
    IpiTIntc,
    IpiTPower,
    IpiTHvc,
    IpiTVMM,
    IpiTMediatedDev,
    IpiTMediatedNotify,
    IpiTIntInject,
    IpiTEthernetMsg,
}

/// Power events one core asks of another for a VM.
#[derive(Clone, Copy, Debug, PartialEq, Eq, Structural)]
pub enum PowerEvent {
    CpuOn,
    CpuOff,
    Reset,
}

/// VM-lifecycle events one core asks of another.
#[derive(Clone, Copy, Debug, PartialEq, Eq, Structural)]
pub enum VmmEvent {
    VmmBoot,
    VmmReboot,
    VmmShutdown,
    VmmAssignCpu,
    VmmMapIPA,
    VmmUnmapIPA,
}

/// The payload of an inter-processor message.
#[derive(Clone, Copy, Debug, PartialEq, Eq, Structural)]
pub enum IpiInnerMsg {
    Intc { vm_id: usize, int_id: usize, val: usize },
    Power { src: usize, event: PowerEvent, entry: usize, context: usize },
    VmmMsg { vmid: usize, event: VmmEvent },
    HvcMsg { src_vmid: usize, trgt_vmid: usize, fid: usize, event: usize },
    MediatedMsg { src_id: usize },
    MediatedNotifyMsg { vm_id: usize },
    IntInjectMsg { vm_id: usize, int_id: usize },
    EthernetMsg { src_vmid: usize, len: usize },
}

/// A message from one core to another.
#[derive(Clone, Copy, Debug, PartialEq, Eq, Structural)]
pub struct IpiMessage {
    pub ipi_type: IpiType,
    pub ipi_message: IpiInnerMsg,
}

/// One mailbox per core: the messages sent to it and not yet handled, in
/// the order they were sent.
pub struct IpiMailboxes {
    pub queues: Vec<Vec<IpiMessage>>,
}

/// The contents of every mailbox.
pub open spec fn mailbox_view(queues: Seq<Vec<IpiMessage>>) -> Seq<Seq<IpiMessage>> {
    Seq::new(queues.len(), |i: int| queues[i]@)
}

/// Mailboxes after `sends` are delivered in order, each a (target, message)
/// pair.
pub open spec fn apply_sends(boxes: Seq<Seq<IpiMessage>>, sends: Seq<(usize, IpiMessage)>) -> Seq<
    Seq<IpiMessage>,
>
    decreases sends.len(),
{
    if sends.len() == 0 {
        boxes
    } else {
        let prev = apply_sends(boxes, sends.drop_last());
        let (t, m) = sends.last();
        if t < prev.len() {
            prev.update(t as int, prev[t as int].push(m))
        } else {
            prev
        }
    }
}

/// The messages of `sends` addressed to core `t`, in sending order.
pub open spec fn sent_to(sends: Seq<(usize, IpiMessage)>, t: usize) -> Seq<IpiMessage>
    decreases sends.len(),
{
    if sends.len() == 0 {
        Seq::empty()
    } else if sends.last().0 == t {
        sent_to(sends.drop_last(), t).push(sends.last().1)
    } else {
        sent_to(sends.drop_last(), t)
    }
}

impl IpiMailboxes {
    /// Empty mailboxes for `cpu_num` cores.
    pub fn new(cpu_num: usize) -> (r: Self)
        ensures
            mailbox_view(r.queues@) == Seq::new(cpu_num as nat, |i: int| Seq::<IpiMessage>::empty()),
    {
        let mut queues: Vec<Vec<IpiMessage>> = Vec::new();
        let mut i: usize = 0;
        while i < cpu_num
            invariant
                i <= cpu_num,
                queues@.len() == i,
                forall|k: int| 0 <= k < i ==> (#[trigger] queues@[k])@ == Seq::<IpiMessage>::empty(),
            decreases cpu_num - i,
        {
            queues.push(Vec::new());
            i = i + 1;
        }
        let r = IpiMailboxes { queues };
        assert(mailbox_view(r.queues@) =~= Seq::new(cpu_num as nat, |i: int| Seq::<IpiMessage>::empty()));
        r
    }
}

/// Queues `msg` of type `ipi_type` for core `target`; fails for a core that
/// does not exist.
pub fn ipi_send_msg(boxes: &mut IpiMailboxes, target: usize, ipi_type: IpiType, msg: IpiInnerMsg) -> (r: bool)
    ensures
        r == (target < old(boxes).queues@.len()),
        mailbox_view(final(boxes).queues@) == apply_sends(
            mailbox_view(old(boxes).queues@),
            seq![(target, IpiMessage { ipi_type, ipi_message: msg })],
        ),
{
    let ghost before = mailbox_view(boxes.queues@);
    let m = IpiMessage { ipi_type, ipi_message: msg };
    proof {
        let s = seq![(target, m)];
        assert(s.drop_last() =~= Seq::<(usize, IpiMessage)>::empty());
        assert(apply_sends(before, s.drop_last()) == before);
        assert(s.last() == (target, m));
    }
    if target >= boxes.queues.len() {
        return false;
    }
    let mut q = Vec::new();
    std::mem::swap(&mut q, &mut boxes.queues[target]);
    q.push(m);
    boxes.queues.set(target, q);
    proof {
        assert(mailbox_view(boxes.queues@) =~= before.update(target as int, before[target as int].push(m)));
    }
    true
}

/// Takes every message queued for core `target`, oldest first.
pub fn ipi_drain(boxes: &mut IpiMailboxes, target: usize) -> (r: Vec<IpiMessage>)
    requires
        target < old(boxes).queues@.len(),
    ensures
        r@ == old(boxes).queues@[target as int]@,
        mailbox_view(final(boxes).queues@) == mailbox_view(old(boxes).queues@).update(
            target as int,
            Seq::empty(),
        ),
{
    let mut q = Vec::new();
    std::mem::swap(&mut q, &mut boxes.queues[target]);
    proof {
        assert(mailbox_view(boxes.queues@) =~= mailbox_view(old(boxes).queues@).update(
            target as int,
            Seq::empty(),
        ));
    }
    q
}

/// Delivery keeps sending order: after a sequence of sends to existing
/// cores, each core's mailbox holds what it held before followed by exactly
/// the messages sent to it, in the order they were sent.
pub proof fn lemma_delivery_in_order(boxes: Seq<Seq<IpiMessage>>, sends: Seq<(usize, IpiMessage)>, t: usize)
    requires
        t < boxes.len(),
        forall|i: int| 0 <= i < sends.len() ==> (#[trigger] sends[i]).0 < boxes.len(),
    ensures
        apply_sends(boxes, sends).len() == boxes.len(),
        apply_sends(boxes, sends)[t as int] == boxes[t as int] + sent_to(sends, t),
    decreases sends.len(),
{
    if sends.len() == 0 {
        assert(boxes[t as int] + Seq::<IpiMessage>::empty() =~= boxes[t as int]);
    } else {
        let pre = sends.drop_last();
        assert forall|i: int| 0 <= i < pre.len() implies (#[trigger] pre[i]).0 < boxes.len() by {
            assert(pre[i] == sends[i]);
        }
        lemma_delivery_in_order(boxes, pre, t);
        let (u, m) = sends.last();
        assert(sends[sends.len() - 1].0 < boxes.len());
        if u == t {
            assert(boxes[t as int] + sent_to(pre, t).push(m) =~= (boxes[t as int] + sent_to(pre, t)).push(m));
        }
    }
}

/// The message types that have a handler.
pub struct IpiHandlerList {
    pub registered: Vec<IpiType>,
}

impl IpiHandlerList {
    pub fn new() -> (r: Self)
        ensures
            r.registered@.len() == 0,
    {
        IpiHandlerList { registered: Vec::new() }
    }
}

/// Registers the handler of message type `ty`; a type has at most one
/// handler, so a second registration fails and changes nothing.
pub fn ipi_register(list: &mut IpiHandlerList, ty: IpiType) -> (r: bool)
    ensures
        r == !old(list).registered@.contains(ty),
        r ==> final(list).registered@ == old(list).registered@.push(ty),
        !r ==> final(list).registered@ == old(list).registered@,
        final(list).registered@.contains(ty),
{
    let mut i: usize = 0;
    while i < list.registered.len()
        invariant
            i <= list.registered@.len(),
            list.registered@ == old(list).registered@,
            forall|k: int| 0 <= k < i ==> list.registered@[k] != ty,
        decreases list.registered@.len() - i,
    {
        if list.registered[i] == ty {
            assert(list.registered@[i as int] == ty);
            return false;
        }
        i = i + 1;
    }
    list.registered.push(ty);
    assert(list.registered@[list.registered@.len() - 1] == ty);
    true
}

} // verus!
