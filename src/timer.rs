//! Timer events of a physical core and what the hypervisor timer tick
//! does: fire the events that are due, rotate the core's vCPUs, re-arm.
use vstd::prelude::*;

use crate::sched::{resched, Pcpu};

verus! {

/// Length of a scheduling slice, in milliseconds.
pub const TIME_SLICE_MS: u64 = 10;

/// A callback registered to run once the time reaches `timeout`.
#[derive(Clone, Copy, Debug, PartialEq, Eq, Structural)]
pub struct TimerEvent {
    pub timeout: u64,
    pub id: usize,
}

/// The pending timer events of a core.
pub struct TimerList {
    pub events: Vec<TimerEvent>,
}

/// Whether `i` is the first of the earliest events of `events`.
pub open spec fn is_earliest(events: Seq<TimerEvent>, i: int) -> bool {
    &&& 0 <= i < events.len()
    &&& forall|j: int| 0 <= j < events.len() ==> events[i].timeout <= events[j].timeout
    &&& forall|j: int| 0 <= j < i ==> events[j].timeout > events[i].timeout
}

impl TimerList {
    pub fn new() -> (r: Self)
        ensures
            r.events@.len() == 0,
    {
        TimerList { events: Vec::new() }
    }
}

/// Registers event `id` to fire `period` after `now`.
pub fn start_timer_event(list: &mut TimerList, now: u64, period: u64, id: usize)
    requires
        now + period <= u64::MAX,
    ensures
        final(list).events@ == old(list).events@.push(TimerEvent { timeout: (now + period) as u64, id }),
{
    list.events.push(TimerEvent { timeout: now + period, id });
}

/// Removes every registration of event `id`.
pub fn remove_timer_event(list: &mut TimerList, id: usize)
    ensures
        final(list).events@ == old(list).events@.filter(|e: TimerEvent| e.id != id),
{
    let mut kept: Vec<TimerEvent> = Vec::new();
    let mut i: usize = 0;
    while i < list.events.len()
        invariant
            i <= list.events@.len(),
            list.events@ == old(list).events@,
            kept@ == list.events@.take(i as int).filter(|e: TimerEvent| e.id != id),
        decreases list.events@.len() - i,
    {
        let e = list.events[i];
        proof {
            reveal(Seq::filter);
            assert(list.events@.take(i as int + 1).drop_last() =~= list.events@.take(i as int));
        }
        if e.id != id {
            kept.push(e);
        }
        i = i + 1;
    }
    proof {
        assert(list.events@.take(i as int) =~= list.events@);
    }
    list.events = kept;
}

/// Takes the earliest event that is due at `current`, if any.
pub fn timer_list_pop(list: &mut TimerList, current: u64) -> (r: Option<TimerEvent>)
    ensures
        match r {
            Some(e) => exists|i: int|
                #[trigger] is_earliest(old(list).events@, i) && old(list).events@[i] == e && e.timeout
                    <= current && final(list).events@ == old(list).events@.remove(i),
            None => final(list).events@ == old(list).events@ && forall|j: int|
                0 <= j < old(list).events@.len() ==> #[trigger] old(list).events@[j].timeout
                    > current,
        },
{
    if list.events.len() == 0 {
        return None;
    }
    let mut best: usize = 0;
    let mut i: usize = 1;
    while i < list.events.len()
        invariant
            1 <= i <= list.events@.len(),
            best < i,
            list.events@ == old(list).events@,
            forall|j: int| 0 <= j < i ==> list.events@[best as int].timeout <= list.events@[j].timeout,
            forall|j: int| 0 <= j < best ==> list.events@[j].timeout > list.events@[best as int].timeout,
        decreases list.events@.len() - i,
    {
        if list.events[i].timeout < list.events[best].timeout {
            best = i;
        }
        i = i + 1;
    }
    assert(is_earliest(list.events@, best as int));
    let e = list.events[best];
    if e.timeout > current {
        assert forall|j: int| 0 <= j < old(list).events@.len() implies #[trigger] old(list).events@[j].timeout > current by {
            assert(list.events@[best as int].timeout <= list.events@[j].timeout);
        }
        return None;
    }
    let removed = list.events.remove(best);
    Some(removed)
}

/// Whether the core's timer is armed for `ms` milliseconds: a zero delay
/// arms nothing.
pub fn timer_notify_after(ms: u64) -> (r: bool)
    ensures
        r == (ms != 0),
{
    ms != 0
}

/// The hypervisor timer tick at time `now`: takes every due event, oldest
/// deadline first, rotates the core to its next vCPU and returns the events
/// to run and the delay to re-arm the timer with.
pub fn timer_irq_handler(cpu: &mut Pcpu, list: &mut TimerList, now: u64) -> (r: (Vec<TimerEvent>, u64))
    requires
        old(cpu).wf(),
    ensures
        final(cpu).wf(),
        final(cpu).id == old(cpu).id,
        final(cpu).vcpu_pool.content@ == old(cpu).vcpu_pool.content@,
        old(cpu).vcpu_pool.content@.len() > 0 ==> final(cpu).vcpu_pool.active_idx == (
        old(cpu).vcpu_pool.active_idx + 1) % (old(cpu).vcpu_pool.content@.len() as int),
        forall|k: int| 0 <= k < r.0@.len() ==> (#[trigger] r.0@[k]).timeout <= now,
        forall|j: int| 0 <= j < final(list).events@.len() ==> (#[trigger] final(list).events@[j]).timeout > now,
        r.0@.len() + final(list).events@.len() == old(list).events@.len(),
        r.0@.to_multiset().add(final(list).events@.to_multiset()) == old(list).events@.to_multiset(),
        forall|k: int| 0 <= k < r.0@.len() - 1 ==> (#[trigger] r.0@[k]).timeout <= r.0@[k + 1].timeout,
        r.1 == TIME_SLICE_MS,
{
    let mut fired: Vec<TimerEvent> = Vec::new();
    let ghost n0 = list.events@.len();
    proof {
        broadcast use vstd::multiset::group_multiset_axioms;
        vstd::seq_lib::to_multiset_len(fired@);
        assert(fired@.to_multiset() =~= vstd::multiset::Multiset::empty());
        assert(fired@.to_multiset().add(list.events@.to_multiset()) =~= list.events@.to_multiset());
    }
    loop
        invariant
            fired@.len() + list.events@.len() == n0,
            forall|k: int| 0 <= k < fired@.len() ==> (#[trigger] fired@[k]).timeout <= now,
            fired@.to_multiset().add(list.events@.to_multiset()) == old(list).events@.to_multiset(),
            forall|k: int| 0 <= k < fired@.len() - 1 ==> (#[trigger] fired@[k]).timeout <= fired@[k + 1].timeout,
            forall|k: int, j: int| 0 <= k < fired@.len() && 0 <= j < list.events@.len() ==> (#[trigger] fired@[k]).timeout <= (#[trigger] list.events@[j]).timeout,
        ensures
            fired@.len() + list.events@.len() == n0,
            forall|k: int| 0 <= k < fired@.len() ==> (#[trigger] fired@[k]).timeout <= now,
            fired@.to_multiset().add(list.events@.to_multiset()) == old(list).events@.to_multiset(),
            forall|k: int| 0 <= k < fired@.len() - 1 ==> (#[trigger] fired@[k]).timeout <= fired@[k + 1].timeout,
            forall|j: int| 0 <= j < list.events@.len() ==> (#[trigger] list.events@[j]).timeout > now,
        decreases list.events@.len(),
    {
        let ghost cur = list.events@;
        let ghost f0 = fired@;
        match timer_list_pop(list, now) {
            Some(e) => {
                fired.push(e);
                proof {
                    let i = choose|i: int| #[trigger] is_earliest(cur, i) && cur[i] == e && e.timeout <= now && list.events@ == cur.remove(i);
                    vstd::seq_lib::to_multiset_remove(cur, i);
                    vstd::seq_lib::to_multiset_build(f0, e);
                    broadcast use vstd::multiset::group_multiset_axioms;
                    assert(cur.to_multiset().count(e) > 0) by {
                        vstd::seq_lib::to_multiset_contains(cur, e);
                    }
                    assert(fired@.to_multiset().add(list.events@.to_multiset()) =~= f0.to_multiset().add(cur.to_multiset()));
                    assert forall|k: int, j: int| 0 <= k < fired@.len() && 0 <= j < list.events@.len() implies (#[trigger] fired@[k]).timeout <= (#[trigger] list.events@[j]).timeout by {
                        let jj = if j < i { j } else { j + 1 };
                        assert(list.events@[j] == cur[jj]);
                        if k < f0.len() {
                            assert(fired@[k] == f0[k]);
                        }
                    }
                    assert forall|k: int| 0 <= k < fired@.len() - 1 implies (#[trigger] fired@[k]).timeout <= fired@[k + 1].timeout by {
                        if k < f0.len() - 1 {
                            assert(fired@[k] == f0[k] && fired@[k + 1] == f0[k + 1]);
                        } else {
                            assert(fired@[k] == f0[k]);
                            assert(fired@[k + 1] == cur[i]);
                        }
                    }
                }
            },
            None => {
                break;
            },
        }
    }
    resched(cpu);
    (fired, TIME_SLICE_MS)
}

} // verus!
