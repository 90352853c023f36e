//! Workload generation: a finite sequence of items per publisher session.
//!
//! Undelayed workloads rotate through their item kinds in strict round robin.
//! Delayed workloads keep one slot per kind; a timer queue outside the library
//! fires slot `i` every `slot_delay(i)` milliseconds and the generator decides
//! what is emitted. Either way exactly `count` items come out.
use vstd::prelude::*;
use std::collections::VecDeque;
use crate::cli::DataEvent;

verus! {

/// A workload description: a total emission count and the item kinds.
pub struct GenData {
    count: usize,
    events: VecDeque<DataEvent>,
}

impl GenData {
    pub closed spec fn count_spec(&self) -> nat {
        self.count as nat
    }

    pub closed spec fn events_spec(&self) -> Seq<DataEvent> {
        self.events@
    }

    pub fn new(count: usize, events: VecDeque<DataEvent>) -> (r: Self)
        ensures
            r.count_spec() == count,
            r.events_spec() == events@,
    {
        GenData { count, events }
    }

    /// Whether any item kind asks for a delay.
    pub open spec fn is_delayed(events: Seq<DataEvent>) -> bool {
        exists|i: int| 0 <= i < events.len() && events[i].delay_spec() != 0
    }

    /// The generator: timed when any kind has a non-zero delay, rotating otherwise.
    pub fn into_stream(self) -> (r: St)
        ensures
            r.remaining() == self.count_spec(),
            r.items() == self.events_spec(),
            r.timed() == Self::is_delayed(self.events_spec()),
    {
        let n = self.events.len();
        let mut delayed = false;
        let mut i: usize = 0;
        while i < n
            invariant
                n == self.events@.len(),
                i <= n,
                delayed == exists|j: int| 0 <= j < i && self.events@[j].delay_spec() != 0,
            decreases n - i,
        {
            if self.events[i].duration() != 0 {
                delayed = true;
            }
            i = i + 1;
        }
        if delayed {
            let mut slots: Vec<DataEvent> = Vec::new();
            let mut k: usize = 0;
            while k < n
                invariant
                    n == self.events@.len(),
                    k <= n,
                    slots@ == self.events@.subrange(0, k as int),
                decreases n - k,
            {
                slots.push(self.events[k]);
                k = k + 1;
                proof {
                    assert(slots@ =~= self.events@.subrange(0, k as int));
                }
            }
            proof {
                assert(slots@ =~= self.events@);
            }
            St { queue: Schedule::Timed(slots), count: self.count }
        } else {
            St { queue: Schedule::Rotating(self.events), count: self.count }
        }
    }
}

/// Where the next item comes from.
pub enum Schedule {
    /// Item kinds in rotation order; the head is emitted next.
    Rotating(VecDeque<DataEvent>),
    /// One slot per item kind, fired by a timer.
    Timed(Vec<DataEvent>),
}

/// A workload generator in progress.
pub struct St {
    queue: Schedule,
    count: usize,
}

/// What one pull of a generator does to its remaining count and its kinds,
/// whichever strategy it follows.
pub open spec fn pull_step(pre: St, post: St, r: Option<DataEvent>) -> bool {
    &&& post.timed() == pre.timed()
    &&& post.items().len() == pre.items().len()
    &&& if pre.remaining() == 0 || pre.items().len() == 0 {
        r is None && post.remaining() == pre.remaining()
    } else {
        r is Some && post.remaining() == pre.remaining() - 1
    }
}

impl St {
    /// Items still to be emitted.
    pub closed spec fn remaining(&self) -> nat {
        self.count as nat
    }

    /// Current item kinds: the rotation order, or the slots.
    pub closed spec fn items(&self) -> Seq<DataEvent> {
        match self.queue {
            Schedule::Rotating(q) => q@,
            Schedule::Timed(v) => v@,
        }
    }

    pub closed spec fn timed(&self) -> bool {
        self.queue is Timed
    }

    pub fn is_timed(&self) -> (r: bool)
        ensures
            r == self.timed(),
    {
        match &self.queue {
            Schedule::Rotating(_) => false,
            Schedule::Timed(_) => true,
        }
    }

    pub fn remaining_count(&self) -> (r: usize)
        ensures
            r == self.remaining(),
    {
        self.count
    }

    /// Number of item kinds.
    pub fn slot_count(&self) -> (r: usize)
        ensures
            r == self.items().len(),
    {
        match &self.queue {
            Schedule::Rotating(q) => q.len(),
            Schedule::Timed(v) => v.len(),
        }
    }

    /// The delay in milliseconds after which slot `slot` fires again.
    pub fn slot_delay(&self, slot: usize) -> (r: u64)
        requires
            slot < self.items().len(),
        ensures
            r == self.items()[slot as int].delay_spec(),
    {
        match &self.queue {
            Schedule::Rotating(q) => q[slot].duration(),
            Schedule::Timed(v) => v[slot].duration(),
        }
    }

    /// Pull of a rotating generator: emits the head kind and re-enqueues it at
    /// the tail with the next sequence number.
    pub fn next(&mut self) -> (r: Option<DataEvent>)
        requires
            !old(self).timed(),
        ensures
            pull_step(*old(self), *final(self), r),
            if old(self).remaining() == 0 || old(self).items().len() == 0 {
                final(self).items() == old(self).items()
            } else {
                &&& r == Some(old(self).items()[0])
                &&& final(self).items() == old(self).items().drop_first().push(
                    old(self).items()[0].inc_sequence_spec(),
                )
            },
    {
        if self.count == 0 {
            return None;
        }
        match &mut self.queue {
            Schedule::Rotating(q) => {
                match q.pop_front() {
                    None => None,
                    Some(event) => {
                        q.push_back(event.inc_sequence());
                        self.count = self.count - 1;
                        Some(event)
                    }
                }
            }
            Schedule::Timed(_) => None,
        }
    }

    /// Slot `slot` of a timed generator fired: emits its kind and advances its
    /// sequence number.
    pub fn fire(&mut self, slot: usize) -> (r: Option<DataEvent>)
        requires
            old(self).timed(),
            slot < old(self).items().len(),
        ensures
            pull_step(*old(self), *final(self), r),
            if old(self).remaining() == 0 {
                final(self).items() == old(self).items()
            } else {
                &&& r == Some(old(self).items()[slot as int])
                &&& final(self).items() == old(self).items().update(
                    slot as int,
                    old(self).items()[slot as int].inc_sequence_spec(),
                )
            },
    {
        if self.count == 0 {
            return None;
        }
        match &mut self.queue {
            Schedule::Rotating(_) => None,
            Schedule::Timed(v) => {
                let event = v[slot];
                v.set(slot, event.inc_sequence());
                self.count = self.count - 1;
                Some(event)
            }
        }
    }
}

/// A generator made with a total of `count` emissions and at least one item
/// kind yields exactly `count` items and then only completion, whether it is
/// rotating or timed: along any run of pulls, pull `i` yields an item exactly
/// when `i < count`.
pub proof fn generator_exhaustion(states: Seq<St>, outs: Seq<Option<DataEvent>>, count: nat)
    requires
        states.len() == outs.len() + 1,
        states[0].remaining() == count,
        states[0].items().len() > 0,
        forall|i: int| 0 <= i < outs.len() ==> #[trigger] pull_step(states[i], states[i + 1], outs[i]),
    ensures
        forall|i: int| 0 <= i < outs.len() ==> (outs[i] is Some <==> i < count),
{
    assert forall|i: int| 0 <= i < outs.len() implies (outs[i] is Some <==> i < count) by {
        lemma_pull_run(states, outs, count, i);
    }
}

proof fn lemma_pull_run(states: Seq<St>, outs: Seq<Option<DataEvent>>, count: nat, i: int)
    requires
        states.len() == outs.len() + 1,
        states[0].remaining() == count,
        states[0].items().len() > 0,
        forall|j: int| 0 <= j < outs.len() ==> #[trigger] pull_step(states[j], states[j + 1], outs[j]),
        0 <= i <= outs.len(),
    ensures
        states[i].items().len() == states[0].items().len(),
        states[i].remaining() == if i < count { count - i } else { 0 },
        i < outs.len() ==> (outs[i] is Some <==> i < count),
    decreases i,
{
    if i > 0 {
        let j = i - 1;
        lemma_pull_run(states, outs, count, j);
        assert(pull_step(states[j], states[j + 1], outs[j]));
        assert(states[j + 1] == states[i]);
    }
    if i < outs.len() {
        assert(pull_step(states[i], states[i + 1], outs[i]));
    }
}

} // verus!
