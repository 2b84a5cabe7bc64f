//! Lossy fan-out of timer snapshots: every subscriber owns a bounded queue;
//! publishing never blocks, a full queue drops its oldest entry and the
//! subscriber is told how many entries it missed, and a new subscriber sees
//! only what is published after it subscribed.

use vstd::prelude::*;

use crate::timer::TimerUpdate;

verus! {

/// One observer's delivery state: the undelivered snapshots, oldest first,
/// and how many snapshots were dropped on it and not yet reported.
pub struct SubscriberQueue {
    pub queue: Vec<TimerUpdate>,
    pub missed: u64,
}

/// The mathematical model of one subscriber: its pending snapshots and its
/// unreported drop count.
#[verifier::ext_equal]
pub struct SubModel {
    pub queue: Seq<TimerUpdate>,
    pub missed: u64,
}

impl View for SubscriberQueue {
    type V = SubModel;

    open spec fn view(&self) -> SubModel {
        SubModel { queue: self.queue@, missed: self.missed }
    }
}

/// A subscriber that has just subscribed: nothing pending, nothing missed.
pub open spec fn empty_sub() -> SubModel {
    SubModel { queue: Seq::empty(), missed: 0 }
}

/// A drop counter grows by one and pegs at its maximum rather than wrapping.
pub open spec fn sat_inc(m: u64) -> u64 {
    if m < u64::MAX {
        (m + 1) as u64
    } else {
        m
    }
}

/// One snapshot delivered to one subscriber: appended to its queue, after
/// dropping the oldest pending entry (counted as missed) when the queue is
/// already at capacity.
pub open spec fn publish_one(s: SubModel, u: TimerUpdate, cap: nat) -> SubModel {
    if s.queue.len() >= cap {
        SubModel { queue: s.queue.skip(1).push(u), missed: sat_inc(s.missed) }
    } else {
        SubModel { queue: s.queue.push(u), missed: s.missed }
    }
}

/// One snapshot delivered to every subscriber independently.
pub open spec fn publish_model(subs: Seq<SubModel>, u: TimerUpdate, cap: nat) -> Seq<SubModel> {
    subs.map_values(|s: SubModel| publish_one(s, u, cap))
}

/// A whole sequence of snapshots delivered in order to every subscriber.
pub open spec fn publish_all(subs: Seq<SubModel>, us: Seq<TimerUpdate>, cap: nat) -> Seq<SubModel>
    decreases us.len(),
{
    if us.len() == 0 {
        subs
    } else {
        publish_all(publish_model(subs, us[0], cap), us.skip(1), cap)
    }
}

/// A whole sequence of snapshots delivered in order to one subscriber.
pub open spec fn sub_after(s: SubModel, us: Seq<TimerUpdate>, cap: nat) -> SubModel
    decreases us.len(),
{
    if us.len() == 0 {
        s
    } else {
        sub_after(publish_one(s, us[0], cap), us.skip(1), cap)
    }
}

/// What one receive call hands a subscriber.
#[derive(Debug, PartialEq, Eq)]
pub enum RecvOutcome {
    /// The oldest snapshot that is still pending.
    Update(TimerUpdate),
    /// The subscriber fell behind: this many snapshots were dropped for it
    /// since it last kept up. Reported once, then delivery resumes.
    Lagged(u64),
    /// Nothing is pending.
    Empty,
}

/// The fan-out itself: any number of subscribers, each with its own queue of
/// at most `capacity` pending snapshots.
pub struct Broadcaster {
    pub capacity: usize,
    pub subs: Vec<SubscriberQueue>,
}

impl View for Broadcaster {
    type V = Seq<SubModel>;

    open spec fn view(&self) -> Seq<SubModel> {
        self.subs@.map_values(|s: SubscriberQueue| s@)
    }
}

impl Broadcaster {
    /// Every queue respects the fixed capacity, which is at least one.
    pub open spec fn wf(self) -> bool {
        &&& self.capacity >= 1
        &&& forall|i: int|
            0 <= i < self@.len() ==> (#[trigger] self@[i]).queue.len() <= self.capacity
    }

    /// A fan-out with no subscribers yet.
    pub fn new(capacity: usize) -> (b: Broadcaster)
        requires
            capacity >= 1,
        ensures
            b.wf(),
            b.capacity == capacity,
            b@ == Seq::<SubModel>::empty(),
    {
        let b = Broadcaster { capacity, subs: Vec::new() };
        proof {
            assert(b@ =~= Seq::<SubModel>::empty());
        }
        b
    }

    /// Registers a new observer and returns its handle. The new queue starts
    /// empty: snapshots published before this call are never seen by it.
    pub fn subscribe(&mut self) -> (id: usize)
        requires
            old(self).wf(),
        ensures
            final(self).wf(),
            final(self).capacity == old(self).capacity,
            id == old(self)@.len(),
            final(self)@ == old(self)@.push(empty_sub()),
    {
        let id = self.subs.len();
        self.subs.push(SubscriberQueue { queue: Vec::new(), missed: 0 });
        proof {
            assert(self@ =~= old(self)@.push(empty_sub()));
        }
        id
    }

    /// How many observers are subscribed.
    pub fn subscriber_count(&self) -> (n: usize)
        ensures
            n == self@.len(),
    {
        self.subs.len()
    }

    /// Delivers one snapshot to every subscriber. Never blocks and never
    /// fails: with no subscribers it does nothing, and a full queue loses its
    /// oldest entry (counted against that subscriber alone) rather than
    /// stalling the publisher.
    pub fn publish(&mut self, u: &TimerUpdate)
        requires
            old(self).wf(),
        ensures
            final(self).wf(),
            final(self).capacity == old(self).capacity,
            final(self)@.len() == old(self)@.len(),
            final(self)@ == publish_model(old(self)@, *u, old(self).capacity as nat),
    {
        let ghost subs0 = self@;
        let ghost cap = self.capacity as nat;
        let n = self.subs.len();
        let mut i: usize = 0;
        while i < n
            invariant
                i <= n,
                n == self.subs.len(),
                self.capacity as nat == cap,
                cap >= 1,
                subs0.len() == n,
                forall|j: int| 0 <= j < i ==> self@[j] == publish_one(subs0[j], *u, cap),
                forall|j: int| i <= j < n ==> self@[j] == subs0[j],
                forall|j: int| 0 <= j < n ==> (#[trigger] self@[j]).queue.len() <= cap,
            decreases n - i,
        {
            let ghost prev = self@;
            let ghost prev_subs = self.subs@;
            let s = &mut self.subs[i];
            if s.queue.len() >= self.capacity {
                s.queue.remove(0);
                if s.missed < u64::MAX {
                    s.missed = s.missed + 1;
                }
            }
            s.queue.push(u.clone());
            proof {
                assert forall|j: int| 0 <= j < n && j != i implies #[trigger] self@[j] == prev[j] by {
                    assert(self.subs@[j] == prev_subs[j]);
                    assert(self@[j] == self.subs@[j]@);
                    assert(prev[j] == prev_subs[j]@);
                }
                let qi = subs0[i as int];
                assert(prev[i as int] == qi);
                if qi.queue.len() >= cap {
                    assert(self@[i as int].queue =~= qi.queue.skip(1).push(*u));
                } else {
                    assert(self@[i as int].queue =~= qi.queue.push(*u));
                }
                assert(self@[i as int] =~= publish_one(qi, *u, cap));
            }
            i = i + 1;
        }
        proof {
            assert(self@ =~= publish_model(subs0, *u, cap));
        }
    }

    /// One receive step for the subscriber `id`: a pending lag is reported
    /// first (and cleared); otherwise the oldest pending snapshot is handed
    /// out; otherwise there is nothing to report.
    pub fn recv(&mut self, id: usize) -> (r: RecvOutcome)
        requires
            old(self).wf(),
            id < old(self)@.len(),
        ensures
            final(self).wf(),
            final(self).capacity == old(self).capacity,
            ({
                let s = old(self)@[id as int];
                if s.missed > 0 {
                    &&& r == RecvOutcome::Lagged(s.missed)
                    &&& final(self)@ == old(self)@.update(
                        id as int,
                        SubModel { queue: s.queue, missed: 0 },
                    )
                } else if s.queue.len() > 0 {
                    &&& r == RecvOutcome::Update(s.queue[0])
                    &&& final(self)@ == old(self)@.update(
                        id as int,
                        SubModel { queue: s.queue.skip(1), missed: 0 },
                    )
                } else {
                    &&& r == RecvOutcome::Empty
                    &&& final(self)@ == old(self)@
                }
            }),
    {
        let ghost subs0 = self@;
        let s = &mut self.subs[id];
        let r = if s.missed > 0 {
            let m = s.missed;
            s.missed = 0;
            RecvOutcome::Lagged(m)
        } else if s.queue.len() > 0 {
            let u = s.queue.remove(0);
            RecvOutcome::Update(u)
        } else {
            RecvOutcome::Empty
        };
        proof {
            let s0 = subs0[id as int];
            if s0.missed > 0 {
                assert(self@ =~= subs0.update(id as int, SubModel { queue: s0.queue, missed: 0 }));
            } else if s0.queue.len() > 0 {
                assert(s0.queue.subrange(1, s0.queue.len() as int) =~= s0.queue.skip(1));
                assert(self@ =~= subs0.update(
                    id as int,
                    SubModel { queue: s0.queue.skip(1), missed: 0 },
                ));
            } else {
                assert(self@ =~= subs0);
            }
        }
        r
    }
}

/// Publishing an empty run of snapshots changes nothing.
pub proof fn lemma_publish_all_empty(subs: Seq<SubModel>, cap: nat)
    ensures
        publish_all(subs, Seq::<TimerUpdate>::empty(), cap) == subs,
{
}

/// Publishing a run of one snapshot is one delivery.
pub proof fn lemma_publish_all_one(subs: Seq<SubModel>, u: TimerUpdate, cap: nat)
    ensures
        publish_all(subs, seq![u], cap) == publish_model(subs, u, cap),
{
    assert(seq![u].skip(1) =~= Seq::<TimerUpdate>::empty());
    lemma_publish_all_empty(publish_model(subs, u, cap), cap);
}

/// Publishing a run of two snapshots is two deliveries in order.
pub proof fn lemma_publish_all_two(subs: Seq<SubModel>, a: TimerUpdate, b: TimerUpdate, cap: nat)
    ensures
        publish_all(subs, seq![a, b], cap) == publish_model(
            publish_model(subs, a, cap),
            b,
            cap,
        ),
{
    assert(seq![a, b].skip(1) =~= seq![b]);
    lemma_publish_all_one(publish_model(subs, a, cap), b, cap);
}

/// Publishing a run of snapshots acts on every subscriber independently: the
/// fan-out keeps its subscriber count, and subscriber `i` ends up exactly as
/// if the run had been delivered to it alone.
pub proof fn lemma_publish_all_elem(subs: Seq<SubModel>, us: Seq<TimerUpdate>, cap: nat, i: int)
    requires
        0 <= i < subs.len(),
    ensures
        publish_all(subs, us, cap).len() == subs.len(),
        publish_all(subs, us, cap)[i] == sub_after(subs[i], us, cap),
    decreases us.len(),
{
    if us.len() == 0 {
    } else {
        lemma_publish_all_elem(publish_model(subs, us[0], cap), us.skip(1), cap, i);
    }
}

/// Delivering a run of snapshots to one subscriber whose queue starts within
/// capacity: the queue ends holding the newest entries, oldest first, up to
/// capacity, and every entry that had to be dropped is counted as missed.
pub proof fn lemma_sub_after_run(s: SubModel, us: Seq<TimerUpdate>, cap: nat)
    requires
        cap >= 1,
        s.queue.len() <= cap,
        s.missed + us.len() <= u64::MAX,
    ensures
        ({
            let f = sub_after(s, us, cap);
            let total = s.queue.len() + us.len();
            &&& (total <= cap ==> f.queue == s.queue + us && f.missed == s.missed)
            &&& (total > cap ==> f.queue == (s.queue + us).skip(total - cap) && f.missed
                == s.missed + total - cap)
        }),
    decreases us.len(),
{
    if us.len() == 0 {
        assert(s.queue + us =~= s.queue);
    } else {
        let s1 = publish_one(s, us[0], cap);
        if s.queue.len() >= cap {
            assert(s1.queue + us.skip(1) =~= (s.queue + us).skip(1));
            lemma_sub_after_run(s1, us.skip(1), cap);
            let total = s.queue.len() + us.len();
            if total - 1 > cap {
                assert(((s.queue + us).skip(1)).skip(total - 1 - cap) =~= (s.queue + us).skip(
                    total - cap,
                ));
            } else {
                assert((s.queue + us).skip(1) =~= (s.queue + us).skip(total - cap));
            }
        } else {
            assert(s1.queue + us.skip(1) =~= s.queue + us);
            lemma_sub_after_run(s1, us.skip(1), cap);
        }
    }
}

/// Law: a subscriber created after any number of snapshots have been
/// published receives none of them. Of the snapshots published after it
/// subscribed it holds, in order, the newest ones up to the queue capacity;
/// when they all fit, it holds every one of them and has missed nothing, and
/// otherwise exactly the overflow count is reported to it as missed. Every
/// snapshot it ever holds was published after it subscribed.
pub proof fn lemma_subscriber_isolation(subs: Seq<SubModel>, us: Seq<TimerUpdate>, cap: nat)
    requires
        cap >= 1,
        us.len() <= u64::MAX,
    ensures
        ({
            let id = subs.len() as int;
            let after = publish_all(subs.push(empty_sub()), us, cap);
            &&& after.len() == subs.len() + 1
            &&& (us.len() <= cap ==> after[id].queue == us && after[id].missed == 0)
            &&& (us.len() > cap ==> after[id].queue == us.skip(us.len() - cap) && after[id].missed
                == us.len() - cap)
            &&& forall|k: int|
                0 <= k < after[id].queue.len() ==> us.contains(#[trigger] after[id].queue[k])
        }),
{
    let id = subs.len() as int;
    let start = subs.push(empty_sub());
    let after = publish_all(start, us, cap);
    lemma_publish_all_elem(start, us, cap, id);
    lemma_sub_after_run(empty_sub(), us, cap);
    assert(empty_sub().queue + us =~= us);
    let off: int = if us.len() <= cap {
        0
    } else {
        us.len() - cap
    };
    assert forall|k: int| 0 <= k < after[id].queue.len() implies us.contains(
        #[trigger] after[id].queue[k],
    ) by {
        assert(after[id].queue[k] == us[k + off]);
    }
}

} // verus!
