use vstd::prelude::*;
use crate::event::{EventType, HistoryEvent};
use std::collections::VecDeque;

verus! {

/// Index one past the end of the task sequence that begins at `i`: up to and including the
/// first `WorkflowTaskStarted` event, or to the end.
pub open spec fn wft_end(s: Seq<HistoryEvent>, i: int) -> int
    decreases s.len() - i,
{
    if i < 0 || i >= s.len() {
        s.len() as int
    } else if s[i].event_type == EventType::WorkflowTaskStarted {
        i + 1
    } else {
        wft_end(s, i + 1)
    }
}

/// Index of the first event from `i` on whose id is above `last_handled`.
pub open spec fn first_unhandled(s: Seq<HistoryEvent>, i: int, last_handled: i64) -> int
    decreases s.len() - i,
{
    if i < 0 || i >= s.len() {
        s.len() as int
    } else if s[i].event_id > last_handled {
        i
    } else {
        first_unhandled(s, i + 1, last_handled)
    }
}

/// The next task sequence of `s` after the task whose started event is `last_handled`.
pub open spec fn next_wft_sequence(s: Seq<HistoryEvent>, last_handled: i64) -> Seq<HistoryEvent> {
    let st = first_unhandled(s, 0, last_handled);
    s.subrange(st, wft_end(s, st))
}

/// What is left of `s` once that sequence is taken.
pub open spec fn after_next_wft_sequence(s: Seq<HistoryEvent>, last_handled: i64) -> Seq<
    HistoryEvent,
> {
    let st = first_unhandled(s, 0, last_handled);
    s.subrange(wft_end(s, st), s.len() as int)
}

pub proof fn lemma_wft_end_bounds(s: Seq<HistoryEvent>, i: int)
    requires
        0 <= i <= s.len(),
    ensures
        i <= wft_end(s, i) <= s.len(),
        i < s.len() ==> i < wft_end(s, i),
    decreases s.len() - i,
{
    if i < s.len() && s[i].event_type != EventType::WorkflowTaskStarted {
        lemma_wft_end_bounds(s, i + 1);
    }
}

pub proof fn lemma_first_unhandled_bounds(s: Seq<HistoryEvent>, i: int, last_handled: i64)
    requires
        0 <= i <= s.len(),
    ensures
        i <= first_unhandled(s, i, last_handled) <= s.len(),
    decreases s.len() - i,
{
    if i < s.len() && s[i].event_id <= last_handled {
        lemma_first_unhandled_bounds(s, i + 1, last_handled);
    }
}

proof fn lemma_first_unhandled_concat(s1: Seq<HistoryEvent>, s2: Seq<HistoryEvent>, i: int, h: i64)
    requires
        0 <= i <= s1.len(),
        first_unhandled(s1, i, h) < s1.len(),
    ensures
        first_unhandled(s1 + s2, i, h) == first_unhandled(s1, i, h),
    decreases s1.len() - i,
{
    assert((s1 + s2)[i] == s1[i]);
    if s1[i].event_id <= h {
        lemma_first_unhandled_concat(s1, s2, i + 1, h);
    }
}

proof fn lemma_wft_end_concat(s1: Seq<HistoryEvent>, s2: Seq<HistoryEvent>, i: int)
    requires
        0 <= i <= s1.len(),
        wft_end(s1, i) <= s1.len(),
        exists|j: int| i <= j < s1.len() && s1[j].event_type == EventType::WorkflowTaskStarted,
    ensures
        wft_end(s1 + s2, i) == wft_end(s1, i),
    decreases s1.len() - i,
{
    assert((s1 + s2)[i] == s1[i]);
    if s1[i].event_type != EventType::WorkflowTaskStarted {
        let j = choose|j: int| i <= j < s1.len() && s1[j].event_type == EventType::WorkflowTaskStarted;
        assert(j != i);
        lemma_wft_end_concat(s1, s2, i + 1);
    }
}

/// Task boundaries do not depend on paging: once a page holds the started event that ends
/// the next task sequence, events that arrive later change neither that sequence nor where
/// it ends.
pub proof fn lemma_next_sequence_unaffected_by_later_events(
    s1: Seq<HistoryEvent>,
    s2: Seq<HistoryEvent>,
    last_handled: i64,
)
    requires
        exists|j: int|
            first_unhandled(s1, 0, last_handled) <= j < s1.len() && s1[j].event_type
                == EventType::WorkflowTaskStarted,
    ensures
        next_wft_sequence(s1 + s2, last_handled) == next_wft_sequence(s1, last_handled),
{
    let st = first_unhandled(s1, 0, last_handled);
    lemma_first_unhandled_bounds(s1, 0, last_handled);
    lemma_first_unhandled_concat(s1, s2, 0, last_handled);
    lemma_wft_end_bounds(s1, st);
    lemma_wft_end_concat(s1, s2, st);
    let en = wft_end(s1, st);
    assert((s1 + s2).subrange(st, en) =~= s1.subrange(st, en));
}

/// The history of a run as far as it has been received, consumed one task at a time.
pub struct HistoryUpdate {
    /// Events not yet taken, in order.
    pub events: VecDeque<HistoryEvent>,
    /// The started event id of the last task that an earlier worker handled; replay
    /// goes on until it is passed.
    pub previous_started_event_id: i64,
}

impl HistoryUpdate {
    pub fn new(events: Vec<HistoryEvent>, previous_started_event_id: i64) -> (r: HistoryUpdate)
        ensures
            r.events@ == events@,
            r.previous_started_event_id == previous_started_event_id,
    {
        let mut q: VecDeque<HistoryEvent> = VecDeque::new();
        let mut rest = events;
        let ghost all = events@;
        while rest.len() > 0
            invariant
                q@ + rest@ == all,
            decreases rest.len(),
        {
            let e = rest.remove(0);
            q.push_back(e);
            assert(q@ + rest@ =~= all);
        }
        assert(q@ =~= all);
        HistoryUpdate { events: q, previous_started_event_id }
    }

    /// Takes the events after `last_handled_wft_started_id` up to and including the next
    /// `WorkflowTaskStarted` event.
    pub fn take_next_wft_sequence(&mut self, last_handled_wft_started_id: i64) -> (r: Vec<
        HistoryEvent,
    >)
        ensures
            r@ == next_wft_sequence(old(self).events@, last_handled_wft_started_id),
            final(self).events@ == after_next_wft_sequence(
                old(self).events@,
                last_handled_wft_started_id,
            ),
            final(self).previous_started_event_id == old(self).previous_started_event_id,
    {
        let ghost s = self.events@;
        let ghost st = first_unhandled(s, 0, last_handled_wft_started_id);
        proof {
            lemma_first_unhandled_bounds(s, 0, last_handled_wft_started_id);
            lemma_wft_end_bounds(s, st);
        }
        let ghost mut i: int = 0;
        while self.events.len() > 0 && self.events[0].event_id <= last_handled_wft_started_id
            invariant
                0 <= i <= st,
                first_unhandled(s, i, last_handled_wft_started_id) == st,
                self.events@ == s.subrange(i, s.len() as int),
                self.previous_started_event_id == old(self).previous_started_event_id,
            decreases self.events@.len(),
        {
            let ghost head = self.events@[0];
            let _ = self.events.pop_front();
            proof {
                assert(head == s[i]);
                lemma_first_unhandled_bounds(s, i + 1, last_handled_wft_started_id);
                i = i + 1;
                assert(self.events@ =~= s.subrange(i, s.len() as int));
            }
        }
        let mut out: Vec<HistoryEvent> = Vec::new();
        let mut done = false;
        while !done && self.events.len() > 0
            invariant
                0 <= st <= i <= wft_end(s, st) <= s.len(),
                done ==> i == wft_end(s, st),
                !done ==> wft_end(s, i) == wft_end(s, st),
                self.events@ == s.subrange(i, s.len() as int),
                out@ == s.subrange(st, i),
                self.previous_started_event_id == old(self).previous_started_event_id,
            decreases self.events@.len(),
        {
            let ghost head = self.events@[0];
            let ghost old_q = self.events;
            let e = self.events.pop_front().unwrap();
            done = e.event_type == EventType::WorkflowTaskStarted;
            out.push(e);
            proof {
                assert(old_q@[0] == s[i]);
                assert(head == s[i]);
                lemma_wft_end_bounds(s, i);
                i = i + 1;
                assert(self.events@ =~= s.subrange(i, s.len() as int));
                assert(out@ =~= s.subrange(st, i));
            }
        }
        assert(self.events@ =~= s.subrange(wft_end(s, st), s.len() as int));
        out
    }
}

} // verus!
