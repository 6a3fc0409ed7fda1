//! The broadcast hub: the subscriber set, the queue of pending state-change
//! events, and the collect-then-compact sweep that delivers one event to
//! every subscriber and prunes the dead ones.
//!
//! The actual transports live outside this crate; a subscriber is known here
//! by the identifier [`Hub::subscribe`] handed out. The hub's owner loop
//! drains the queue one message at a time: [`take_next`] yields the oldest
//! queued message together with an immutable snapshot of the subscriber set,
//! the owner attempts delivery to every snapshot entry, and
//! [`end_sweep`] then removes exactly the subscribers whose delivery failed,
//! in one compacting pass, never during the iteration.
//!
//! [`take_next`]: Hub::take_next
//! [`end_sweep`]: Hub::end_sweep

use crate::command::CommandResponse;
use vstd::prelude::*;
use vstd::seq_lib::group_filter_ensures;

verus! {

/// The broadcast hub state.
#[derive(Debug)]
pub struct Hub {
    /// The currently registered subscribers, in registration order.
    pub subscribers: Vec<u64>,
    /// The next subscriber identifier to hand out; never reused.
    pub next_id: u64,
    /// Pending messages, oldest first, in publish order.
    pub queue: Vec<CommandResponse>,
}

impl Hub {
    /// Hub well-formedness: subscriber identifiers are distinct, and all of
    /// them were handed out before `next_id`.
    pub open spec fn wf(&self) -> bool {
        &&& self.subscribers@.no_duplicates()
        &&& forall|i: int|
            0 <= i < self.subscribers@.len() ==> #[trigger] self.subscribers@[i] < self.next_id
    }

    /// An empty hub: no subscribers, nothing queued.
    pub fn new() -> (h: Hub)
        ensures
            h.wf(),
            h.subscribers@.len() == 0,
            h.queue@.len() == 0,
            h.next_id == 0,
    {
        Hub { subscribers: Vec::new(), next_id: 0, queue: Vec::new() }
    }

    /// Registers a new subscriber and returns its fresh identifier. There is
    /// no historical replay: the new subscriber will only see messages
    /// published after this call, so it must request the full state itself.
    pub fn subscribe(&mut self) -> (id: u64)
        requires
            old(self).wf(),
            old(self).next_id < u64::MAX,
        ensures
            final(self).wf(),
            id == old(self).next_id,
            !old(self).subscribers@.contains(id),
            final(self).subscribers@ == old(self).subscribers@.push(id),
            final(self).next_id == old(self).next_id + 1,
            final(self).queue == old(self).queue,
    {
        let id = self.next_id;
        proof {
            if self.subscribers@.contains(id) {
                let i = choose|i: int|
                    0 <= i < self.subscribers@.len() && self.subscribers@[i] == id;
                assert(self.subscribers@[i] < id);
            }
        }
        self.subscribers.push(id);
        self.next_id = self.next_id + 1;
        id
    }

    /// Appends a message to the event queue. Publishing never fails and
    /// never touches the subscriber set, whoever may have gone away.
    pub fn publish(&mut self, msg: CommandResponse)
        requires
            old(self).wf(),
        ensures
            final(self).wf(),
            final(self).queue@ == old(self).queue@.push(msg),
            final(self).subscribers == old(self).subscribers,
            final(self).next_id == old(self).next_id,
    {
        self.queue.push(msg);
    }

    /// Takes the oldest queued message, if any, together with an immutable
    /// snapshot of the current subscriber set: the message to deliver and
    /// the exact list of subscribers one sweep must attempt, in order.
    pub fn take_next(&mut self) -> (r: Option<(CommandResponse, Vec<u64>)>)
        requires
            old(self).wf(),
        ensures
            final(self).wf(),
            final(self).subscribers == old(self).subscribers,
            final(self).next_id == old(self).next_id,
            old(self).queue@.len() == 0 ==> r is None && final(self).queue == old(self).queue,
            old(self).queue@.len() > 0 ==> {
                &&& r matches Some((m, snap))
                &&& m == old(self).queue@[0]
                &&& snap@ == old(self).subscribers@
                &&& final(self).queue@ == old(self).queue@.remove(0)
            },
    {
        if self.queue.len() == 0 {
            return None;
        }
        let m = self.queue.remove(0);
        let mut snap: Vec<u64> = Vec::new();
        let mut i: usize = 0;
        while i < self.subscribers.len()
            invariant
                i <= self.subscribers@.len(),
                snap@ == self.subscribers@.take(i as int),
            decreases self.subscribers@.len() - i,
        {
            snap.push(self.subscribers[i]);
            assert(snap@ =~= self.subscribers@.take(i + 1));
            i = i + 1;
        }
        assert(snap@ =~= self.subscribers@);
        Some((m, snap))
    }

    /// Removes, in one compacting pass, exactly the subscribers whose
    /// delivery failed during the sweep: everyone listed in `failed` is
    /// gone, everyone else survives in order. The queue is untouched.
    pub fn end_sweep(&mut self, failed: &Vec<u64>)
        requires
            old(self).wf(),
        ensures
            final(self).wf(),
            final(self).subscribers@ == old(self).subscribers@.filter(
                |x: u64| !failed@.contains(x),
            ),
            forall|id: u64|
                final(self).subscribers@.contains(id) <==> (old(self).subscribers@.contains(id)
                    && !failed@.contains(id)),
            final(self).queue == old(self).queue,
            final(self).next_id == old(self).next_id,
    {
        broadcast use group_filter_ensures;

        let ghost pred = |x: u64| !failed@.contains(x);
        let mut kept: Vec<u64> = Vec::new();
        let mut i: usize = 0;
        while i < self.subscribers.len()
            invariant
                i <= self.subscribers@.len(),
                kept@ == self.subscribers@.take(i as int).filter(pred),
                pred == (|x: u64| !failed@.contains(x)),
            decreases self.subscribers@.len() - i,
        {
            let x = self.subscribers[i];
            let dead = contains_id(failed, x);
            proof {
                assert(self.subscribers@.take(i as int).push(x) =~= self.subscribers@.take(
                    i + 1,
                ));
                self.subscribers@.take(i as int).lemma_filter_push(x, pred);
            }
            if !dead {
                kept.push(x);
            }
            i = i + 1;
        }
        proof {
            assert(self.subscribers@.take(self.subscribers@.len() as int) =~= self.subscribers@);
        }
        self.subscribers = kept;
        proof {
            let pre = old(self).subscribers@;
            let post = self.subscribers@;
            assert forall|id: u64|
                post.contains(id) <==> (pre.contains(id) && !failed@.contains(id)) by {
                if post.contains(id) {
                    pre.lemma_filter_contains_rev(pred, id);
                }
                if pre.contains(id) && !failed@.contains(id) {
                    let j = choose|j: int| 0 <= j < pre.len() && pre[j] == id;
                    pre.lemma_filter_contains(pred, j);
                }
            }
            lemma_filter_keeps_no_duplicates(pre, pred);
            assert forall|i: int| 0 <= i < post.len() implies #[trigger] post[i] < self.next_id by {
                assert(post.contains(post[i]));
                pre.lemma_filter_contains_rev(pred, post[i]);
                let j = choose|j: int| 0 <= j < pre.len() && pre[j] == post[i];
                assert(pre[j] < old(self).next_id);
            }
        }
    }
}

/// Whether a subscriber identifier occurs in a list of identifiers.
fn contains_id(v: &Vec<u64>, x: u64) -> (b: bool)
    ensures
        b <==> v@.contains(x),
{
    let mut i: usize = 0;
    while i < v.len()
        invariant
            i <= v@.len(),
            forall|j: int| 0 <= j < i as int ==> v@[j] != x,
        decreases v@.len() - i,
    {
        if v[i] == x {
            return true;
        }
        i = i + 1;
    }
    false
}

/// Filtering a duplicate-free sequence leaves it duplicate-free.
proof fn lemma_filter_keeps_no_duplicates(s: Seq<u64>, pred: spec_fn(u64) -> bool)
    requires
        s.no_duplicates(),
    ensures
        s.filter(pred).no_duplicates(),
    decreases s.len(),
{
    reveal(Seq::filter);
    if s.len() > 0 {
        let t = s.drop_last();
        let last = s.last();
        assert(t.no_duplicates());
        lemma_filter_keeps_no_duplicates(t, pred);
        if pred(last) {
            if t.filter(pred).contains(last) {
                t.lemma_filter_contains_rev(pred, last);
                let j = choose|j: int| 0 <= j < t.len() && t[j] == last;
                assert(s[j] == s[s.len() - 1]);
            }
            assert(s.filter(pred) == t.filter(pred).push(last));
        }
    }
}

/// One publish cycle treats subscribers exactly as owed: the snapshot taken
/// at sweep start lists every then-registered subscriber at exactly one
/// position, so each still-connected subscriber receives exactly one copy of
/// the message; and the compacting pass afterwards removes exactly the
/// subscribers whose delivery failed, leaving every other subscriber
/// registered, so one dead subscriber never perturbs the others.
pub proof fn lemma_publish_cycle(subs: Seq<u64>, failed: Seq<u64>, remaining: Seq<u64>)
    requires
        subs.no_duplicates(),
        remaining == subs.filter(|x: u64| !failed.contains(x)),
    ensures
        forall|i: int, j: int|
            0 <= i < subs.len() && 0 <= j < subs.len() && subs[i] == subs[j] ==> i == j,
        forall|id: u64|
            #[trigger] remaining.contains(id) <==> (subs.contains(id) && !failed.contains(id)),
        remaining.no_duplicates(),
{
    let pred = |x: u64| !failed.contains(x);
    assert forall|id: u64| #[trigger]
        remaining.contains(id) <==> (subs.contains(id) && !failed.contains(id)) by {
        if remaining.contains(id) {
            subs.lemma_filter_contains_rev(pred, id);
            let k = choose|k: int|
                0 <= k < subs.filter(pred).len() && subs.filter(pred)[k] == id;
            subs.lemma_filter_pred(pred, k);
        }
        if subs.contains(id) && !failed.contains(id) {
            let j = choose|j: int| 0 <= j < subs.len() && subs[j] == id;
            subs.lemma_filter_contains(pred, j);
        }
    }
    lemma_filter_keeps_no_duplicates(subs, pred);
}

} // verus!
