//! The event bus: one producer publishes the events of its jobs, and any
//! number of subscribers each take them at their own pace.
//!
//! Publishing never waits. Every subscriber has a queue of its own. A
//! lifecycle event is always queued. A queue holds no more progress samples
//! than the capacity of the bus: a sample that finds that many waiting
//! displaces the oldest of them. So a slow subscriber loses samples and
//! nothing else.

use crate::event::{EventView, FFMpegEvent};
use vstd::prelude::*;

verus! {

/// The views of `events`, in order.
pub open spec fn event_views(events: Seq<FFMpegEvent>) -> Seq<EventView> {
    Seq::new(events.len(), |i: int| events[i]@)
}

/// The position of the oldest progress sample in `queue` at or after `from`,
/// or the length of `queue` when there is none.
pub open spec fn oldest_sample(queue: Seq<EventView>, from: int) -> int
    decreases queue.len() - from,
{
    if from >= queue.len() {
        queue.len() as int
    } else if queue[from] is Progress {
        from
    } else {
        oldest_sample(queue, from + 1)
    }
}

/// The number of progress samples in `queue`.
pub open spec fn sample_count(queue: Seq<EventView>) -> nat
    decreases queue.len(),
{
    if queue.len() == 0 {
        0
    } else {
        sample_count(queue.drop_last()) + if queue.last() is Progress {
            1nat
        } else {
            0nat
        }
    }
}

/// A subscriber's queue after `event` has been published to it. A
/// lifecycle event is appended. So is a progress sample while fewer than
/// `capacity` samples wait; after that it takes the place of the oldest
/// sample waiting, at the end of the queue. With no capacity at all every
/// sample is dropped.
pub open spec fn enqueued(queue: Seq<EventView>, event: EventView, capacity: nat) -> Seq<
    EventView,
> {
    if event.is_lifecycle() || sample_count(queue) < capacity {
        queue.push(event)
    } else {
        let k = oldest_sample(queue, 0);
        if k < queue.len() {
            queue.remove(k).push(event)
        } else {
            queue
        }
    }
}

/// Whether `seen` is `sent` with some progress samples left out: the same
/// events in the same order, but for samples that are missing.
pub open spec fn thinned(seen: Seq<EventView>, sent: Seq<EventView>) -> bool
    decreases sent.len(),
{
    if sent.len() == 0 {
        seen.len() == 0
    } else {
        ||| (seen.len() > 0 && seen.last() == sent.last() && thinned(
            seen.drop_last(),
            sent.drop_last(),
        ))
        ||| (sent.last() is Progress && thinned(seen, sent.drop_last()))
    }
}

/// The lifecycle events among `events`, in order.
pub open spec fn lifecycle_events(events: Seq<EventView>) -> Seq<EventView> {
    events.filter(|e: EventView| e.is_lifecycle())
}

/// Whether the progress samples among `events` never step back in time.
pub open spec fn samples_nondecreasing(events: Seq<EventView>) -> bool {
    forall|i: int, j: int|
        0 <= i < j < events.len() && (#[trigger] events[i]) is Progress && (
        #[trigger] events[j]) is Progress ==> events[i]->Progress_1.out_time_us
            <= events[j]->Progress_1.out_time_us
}

proof fn lemma_oldest_sample(queue: Seq<EventView>, from: int)
    requires
        0 <= from <= queue.len(),
    ensures
        from <= oldest_sample(queue, from) <= queue.len(),
        oldest_sample(queue, from) < queue.len() ==> queue[oldest_sample(queue, from)] is Progress,
    decreases queue.len() - from,
{
    if from < queue.len() && !(queue[from] is Progress) {
        lemma_oldest_sample(queue, from + 1);
    }
}

/// Taking an event out of a queue lowers its sample count by one if the
/// event is a sample, and leaves it as it is otherwise.
pub proof fn lemma_sample_count_remove(queue: Seq<EventView>, k: int)
    requires
        0 <= k < queue.len(),
    ensures
        sample_count(queue.remove(k)) + (if queue[k] is Progress {
            1nat
        } else {
            0nat
        }) == sample_count(queue),
    decreases queue.len(),
{
    if k == queue.len() - 1 {
        assert(queue.remove(k) =~= queue.drop_last());
    } else {
        lemma_sample_count_remove(queue.drop_last(), k);
        assert(queue.remove(k).drop_last() =~= queue.drop_last().remove(k));
        assert(queue.remove(k).last() == queue.last());
    }
}

/// Publishing to a queue that holds no more samples than the capacity
/// leaves it with no more samples than the capacity.
pub proof fn lemma_enqueued_bounded(queue: Seq<EventView>, event: EventView, capacity: nat)
    requires
        sample_count(queue) <= capacity,
    ensures
        sample_count(enqueued(queue, event, capacity)) <= capacity,
{
    if event.is_lifecycle() || sample_count(queue) < capacity {
        assert(queue.push(event).drop_last() =~= queue);
    } else {
        let k = oldest_sample(queue, 0);
        lemma_oldest_sample(queue, 0);
        if k < queue.len() {
            lemma_sample_count_remove(queue, k);
            assert(queue.remove(k).push(event).drop_last() =~= queue.remove(k));
        }
    }
}

/// Publishing an event to both sides keeps one a thinning of the other.
pub proof fn lemma_thinned_push(seen: Seq<EventView>, sent: Seq<EventView>, event: EventView)
    requires
        thinned(seen, sent),
    ensures
        thinned(seen.push(event), sent.push(event)),
{
    assert(seen.push(event).drop_last() =~= seen);
    assert(sent.push(event).drop_last() =~= sent);
}

/// A progress sample may go missing.
pub proof fn lemma_thinned_miss(seen: Seq<EventView>, sent: Seq<EventView>, event: EventView)
    requires
        thinned(seen, sent),
        event is Progress,
    ensures
        thinned(seen, sent.push(event)),
{
    assert(sent.push(event).drop_last() =~= sent);
}

/// A progress sample that was seen may be left out after all.
pub proof fn lemma_thinned_remove(seen: Seq<EventView>, sent: Seq<EventView>, k: int)
    requires
        thinned(seen, sent),
        0 <= k < seen.len(),
        seen[k] is Progress,
    ensures
        thinned(seen.remove(k), sent),
    decreases sent.len(),
{
    if seen.len() > 0 && seen.last() == sent.last() && thinned(seen.drop_last(), sent.drop_last()) {
        if k == seen.len() - 1 {
            assert(seen.remove(k) =~= seen.drop_last());
        } else {
            lemma_thinned_remove(seen.drop_last(), sent.drop_last(), k);
            assert(seen.remove(k).drop_last() =~= seen.drop_last().remove(k));
            assert(seen.remove(k).last() == seen.last());
        }
    } else {
        lemma_thinned_remove(seen, sent.drop_last(), k);
    }
}

/// A thinning has every lifecycle event of the whole, in the same order,
/// and no other.
pub proof fn lemma_thinned_keeps_lifecycle(seen: Seq<EventView>, sent: Seq<EventView>)
    requires
        thinned(seen, sent),
    ensures
        lifecycle_events(seen) == lifecycle_events(sent),
    decreases sent.len(),
{
    reveal(Seq::filter);
    if sent.len() > 0 {
        if seen.len() > 0 && seen.last() == sent.last() && thinned(
            seen.drop_last(),
            sent.drop_last(),
        ) {
            lemma_thinned_keeps_lifecycle(seen.drop_last(), sent.drop_last());
        } else {
            lemma_thinned_keeps_lifecycle(seen, sent.drop_last());
        }
    }
}

/// Every event of a thinning occurs in the whole.
pub proof fn lemma_thinned_members(seen: Seq<EventView>, sent: Seq<EventView>, i: int)
    requires
        thinned(seen, sent),
        0 <= i < seen.len(),
    ensures
        sent.contains(seen[i]),
    decreases sent.len(),
{
    if seen.len() > 0 && seen.last() == sent.last() && thinned(seen.drop_last(), sent.drop_last()) {
        if i == seen.len() - 1 {
            assert(sent[sent.len() - 1] == seen[i]);
        } else {
            lemma_thinned_members(seen.drop_last(), sent.drop_last(), i);
            let j = choose|j: int| 0 <= j < sent.drop_last().len() && sent.drop_last()[j] == seen[i];
            assert(sent[j] == seen[i]);
        }
    } else {
        lemma_thinned_members(seen, sent.drop_last(), i);
        let j = choose|j: int| 0 <= j < sent.drop_last().len() && sent.drop_last()[j] == seen[i];
        assert(sent[j] == seen[i]);
    }
}

/// Leaving samples out of a run whose samples never step back in time gives
/// a run whose samples never step back in time.
pub proof fn lemma_thinned_stays_nondecreasing(seen: Seq<EventView>, sent: Seq<EventView>)
    requires
        thinned(seen, sent),
        samples_nondecreasing(sent),
    ensures
        samples_nondecreasing(seen),
    decreases sent.len(),
{
    if sent.len() > 0 {
        let shorter = sent.drop_last();
        assert(samples_nondecreasing(shorter)) by {
            assert forall|i: int, j: int|
                0 <= i < j < shorter.len() && (#[trigger] shorter[i]) is Progress && (
                #[trigger] shorter[j]) is Progress implies shorter[i]->Progress_1.out_time_us
                <= shorter[j]->Progress_1.out_time_us by {
                assert(sent[i] == shorter[i] && sent[j] == shorter[j]);
            }
        }
        if seen.len() > 0 && seen.last() == sent.last() && thinned(seen.drop_last(), shorter) {
            let front = seen.drop_last();
            lemma_thinned_stays_nondecreasing(front, shorter);
            assert forall|i: int, j: int|
                0 <= i < j < seen.len() && (#[trigger] seen[i]) is Progress && (
                #[trigger] seen[j]) is Progress implies seen[i]->Progress_1.out_time_us
                <= seen[j]->Progress_1.out_time_us by {
                if j == seen.len() - 1 {
                    lemma_thinned_members(front, shorter, i);
                    let at = choose|at: int| 0 <= at < shorter.len() && shorter[at] == front[i];
                    assert(sent[at] == seen[i]);
                    assert(sent[sent.len() - 1] == seen[j]);
                } else {
                    assert(front[i] == seen[i] && front[j] == seen[j]);
                }
            }
        } else {
            lemma_thinned_stays_nondecreasing(seen, shorter);
        }
    }
}

/// What a subscriber gets when it asks for its next event.
#[derive(Debug, PartialEq, Eq)]
pub enum Delivery {
    /// The oldest event that was waiting.
    Event(FFMpegEvent),
    /// Nothing is waiting, but more may come.
    Empty,
    /// Nothing is waiting and nothing will come: the bus is closed, or the
    /// caller never subscribed.
    Closed,
}

/// What a `Delivery` stands for.
pub enum DeliveryView {
    Event(EventView),
    Empty,
    Closed,
}

impl View for Delivery {
    type V = DeliveryView;

    open spec fn view(&self) -> DeliveryView {
        match self {
            Delivery::Event(e) => DeliveryView::Event(e@),
            Delivery::Empty => DeliveryView::Empty,
            Delivery::Closed => DeliveryView::Closed,
        }
    }
}

/// The bus itself.
pub struct EventBus {
    queues: Vec<Vec<FFMpegEvent>>,
    capacity: usize,
    closed: bool,
    published: Ghost<Seq<EventView>>,
    joined: Ghost<Seq<nat>>,
    delivered: Ghost<Seq<Seq<EventView>>>,
}

fn count_samples(queue: &Vec<FFMpegEvent>) -> (n: usize)
    ensures
        n == sample_count(event_views(queue@)),
        n <= queue.len(),
{
    let ghost views = event_views(queue@);
    let mut n: usize = 0;
    let mut i: usize = 0;
    assert(views.take(0) =~= Seq::<EventView>::empty());
    while i < queue.len()
        invariant
            i <= queue.len(),
            views == event_views(queue@),
            n <= i,
            n == sample_count(views.take(i as int)),
        decreases queue.len() - i,
    {
        assert(views.take(i + 1).drop_last() =~= views.take(i as int));
        assert(views.take(i + 1).last() == queue@[i as int]@);
        if queue[i].is_progress() {
            n = n + 1;
        }
        i = i + 1;
    }
    assert(views.take(i as int) =~= views);
    n
}

fn enqueue(queue: &mut Vec<FFMpegEvent>, event: FFMpegEvent, capacity: usize)
    ensures
        event_views(final(queue)@) == enqueued(event_views(old(queue)@), event@, capacity as nat),
{
    let ghost before = event_views(queue@);
    if !event.is_progress() || count_samples(queue) < capacity {
        queue.push(event);
        assert(event_views(queue@) =~= before.push(event@));
        return ;
    }
    let mut k: usize = 0;
    while k < queue.len() && !queue[k].is_progress()
        invariant
            k <= queue.len(),
            before == event_views(queue@),
            oldest_sample(before, 0) == oldest_sample(before, k as int),
        decreases queue.len() - k,
    {
        assert(before[k as int] == queue@[k as int]@);
        k = k + 1;
    }
    if k < queue.len() {
        assert(before[k as int] == queue@[k as int]@);
        queue.remove(k);
        assert(event_views(queue@) =~= before.remove(k as int));
        queue.push(event);
        assert(event_views(queue@) =~= before.remove(k as int).push(event@));
    }
}

impl EventBus {
    /// Everything published so far, oldest first.
    pub closed spec fn published(&self) -> Seq<EventView> {
        self.published@
    }

    /// The number of subscribers. They are numbered from 0 in the order in
    /// which they subscribed.
    pub closed spec fn subscribers(&self) -> nat {
        self.queues.len() as nat
    }

    /// How many events had been published when subscriber `id` subscribed.
    pub closed spec fn joined_at(&self, id: int) -> nat {
        self.joined@[id]
    }

    /// What subscriber `id` has taken so far, oldest first.
    pub closed spec fn observed(&self, id: int) -> Seq<EventView> {
        self.delivered@[id]
    }

    /// What waits for subscriber `id`, oldest first.
    pub closed spec fn pending(&self, id: int) -> Seq<EventView> {
        event_views(self.queues[id]@)
    }

    /// The number of events a queue holds before samples displace each
    /// other.
    pub closed spec fn capacity(&self) -> nat {
        self.capacity as nat
    }

    /// Whether the bus has been closed.
    pub closed spec fn is_closed(&self) -> bool {
        self.closed
    }

    /// What was published since subscriber `id` subscribed.
    pub open spec fn sent_to(&self, id: int) -> Seq<EventView> {
        self.published().skip(self.joined_at(id) as int)
    }

    /// Everything that subscriber `id` has taken or will take as things
    /// stand, oldest first.
    pub open spec fn received(&self, id: int) -> Seq<EventView> {
        self.observed(id) + self.pending(id)
    }

    /// The invariant of the bus: every subscriber has joined at some point
    /// of the stream, no more samples wait for it than the capacity allows,
    /// and what it has received is what was published since then, with some
    /// progress samples left out.
    pub closed spec fn wf(&self) -> bool {
        &&& self.joined@.len() == self.queues.len()
        &&& self.delivered@.len() == self.queues.len()
        &&& forall|id: int| 0 <= id < self.queues.len() ==> #[trigger] self.subscriber_ok(id)
    }

    spec fn subscriber_ok(&self, id: int) -> bool {
        &&& self.joined@[id] <= self.published@.len()
        &&& sample_count(event_views(self.queues[id]@)) <= self.capacity
        &&& thinned(
            self.delivered@[id] + event_views(self.queues[id]@),
            self.published@.skip(self.joined@[id] as int),
        )
    }

    /// Whether `self` is `before` with nothing changed but, perhaps, the
    /// queue and the takings of subscriber `but`.
    pub open spec fn same_but(&self, before: &EventBus, but: int) -> bool {
        &&& self.published() == before.published()
        &&& self.subscribers() == before.subscribers()
        &&& self.capacity() == before.capacity()
        &&& self.is_closed() == before.is_closed()
        &&& forall|id: int|
            0 <= id < before.subscribers() ==> #[trigger] self.joined_at(id) == before.joined_at(id)
        &&& forall|id: int|
            #![trigger self.observed(id)]
            #![trigger self.pending(id)]
            0 <= id < before.subscribers() && id != but ==> {
                &&& self.observed(id) == before.observed(id)
                &&& self.pending(id) == before.pending(id)
            }
    }

    /// Whether `self` is `before` after `event` was published: the event
    /// is on record, and every subscriber's queue has taken it in.
    pub open spec fn after_publish(&self, before: &EventBus, event: EventView) -> bool {
        &&& self.published() == before.published().push(event)
        &&& self.subscribers() == before.subscribers()
        &&& self.capacity() == before.capacity()
        &&& self.is_closed() == before.is_closed()
        &&& forall|id: int|
            #![trigger self.joined_at(id)]
            #![trigger self.observed(id)]
            #![trigger self.pending(id)]
            0 <= id < before.subscribers() ==> {
                &&& self.joined_at(id) == before.joined_at(id)
                &&& self.observed(id) == before.observed(id)
                &&& self.pending(id) == enqueued(before.pending(id), event, before.capacity())
            }
    }

    /// A bus without subscribers on which nothing was published.
    pub fn new(capacity: usize) -> (bus: Self)
        ensures
            bus.wf(),
            bus.subscribers() == 0,
            bus.published() == Seq::<EventView>::empty(),
            bus.capacity() == capacity,
            !bus.is_closed(),
    {
        EventBus {
            queues: Vec::new(),
            capacity,
            closed: false,
            published: Ghost(Seq::empty()),
            joined: Ghost(Seq::empty()),
            delivered: Ghost(Seq::empty()),
        }
    }

    /// Adds a subscriber and returns its number. It will receive what is
    /// published from now on.
    pub fn subscribe(&mut self) -> (id: usize)
        requires
            old(self).wf(),
        ensures
            final(self).wf(),
            id == old(self).subscribers(),
            final(self).subscribers() == old(self).subscribers() + 1,
            final(self).published() == old(self).published(),
            final(self).capacity() == old(self).capacity(),
            final(self).is_closed() == old(self).is_closed(),
            forall|other: int|
                #![trigger final(self).joined_at(other)]
                #![trigger final(self).observed(other)]
                #![trigger final(self).pending(other)]
                0 <= other < old(self).subscribers() ==> {
                    &&& final(self).joined_at(other) == old(self).joined_at(other)
                    &&& final(self).observed(other) == old(self).observed(other)
                    &&& final(self).pending(other) == old(self).pending(other)
                },
            final(self).joined_at(id as int) == old(self).published().len(),
            final(self).observed(id as int) == Seq::<EventView>::empty(),
            final(self).pending(id as int) == Seq::<EventView>::empty(),
    {
        let id: usize = self.queues.len();
        self.queues.push(Vec::new());
        self.joined = Ghost(self.joined@.push(self.published@.len()));
        self.delivered = Ghost(self.delivered@.push(Seq::empty()));
        proof {
            assert(event_views(self.queues[id as int]@) =~= Seq::<EventView>::empty());
            assert(self.delivered@[id as int] + event_views(self.queues[id as int]@)
                =~= Seq::<EventView>::empty());
            assert(self.published@.skip(self.published@.len() as int) =~= Seq::<
                EventView,
            >::empty());
            assert forall|other: int| 0 <= other < self.queues.len() implies #[trigger]
                self.subscriber_ok(other) by {
                if other < id {
                    assert(old(self).subscriber_ok(other));
                    assert(self.queues[other] == old(self).queues[other]);
                }
            }
        }
        id
    }

    /// Publishes `event` to every subscriber.
    pub fn publish(&mut self, event: FFMpegEvent)
        requires
            old(self).wf(),
        ensures
            final(self).wf(),
            final(self).after_publish(old(self), event@),
    {
        let mut i: usize = 0;
        while i < self.queues.len()
            invariant
                i <= self.queues.len(),
                self.queues.len() == old(self).queues.len(),
                self.capacity == old(self).capacity,
                self.closed == old(self).closed,
                self.published == old(self).published,
                self.joined == old(self).joined,
                self.delivered == old(self).delivered,
                forall|id: int|
                    0 <= id < i ==> event_views(#[trigger] self.queues[id]@) == enqueued(
                        event_views(old(self).queues[id]@),
                        event@,
                        self.capacity as nat,
                    ),
                forall|id: int|
                    i <= id < self.queues.len() ==> #[trigger] self.queues[id] == old(
                        self,
                    ).queues[id],
            decreases self.queues.len() - i,
        {
            let copy = event.clone();
            let capacity = self.capacity;
            let queue = &mut self.queues[i];
            enqueue(queue, copy, capacity);
            i = i + 1;
        }
        self.published = Ghost(self.published@.push(event@));
        proof {
            let sent = old(self).published@;
            assert forall|id: int| 0 <= id < self.queues.len() implies #[trigger]
                self.subscriber_ok(id) by {
                let taken = self.delivered@[id];
                let queue = event_views(old(self).queues[id]@);
                let from = self.joined@[id] as int;
                assert(old(self).subscriber_ok(id));
                assert(event_views(self.queues[id]@) == enqueued(queue, event@, self.capacity as nat));
                lemma_enqueued_bounded(queue, event@, self.capacity as nat);
                assert(sent.push(event@).skip(from) =~= sent.skip(from).push(event@));
                if event@.is_lifecycle() || sample_count(queue) < self.capacity {
                    lemma_thinned_push(taken + queue, sent.skip(from), event@);
                    assert(taken + queue.push(event@) =~= (taken + queue).push(event@));
                } else {
                    let k = oldest_sample(queue, 0);
                    lemma_oldest_sample(queue, 0);
                    if k < queue.len() {
                        lemma_thinned_remove(taken + queue, sent.skip(from), taken.len() + k);
                        lemma_thinned_push(
                            (taken + queue).remove(taken.len() + k),
                            sent.skip(from),
                            event@,
                        );
                        assert(taken + queue.remove(k).push(event@) =~= (taken + queue).remove(
                            taken.len() + k,
                        ).push(event@));
                    } else {
                        lemma_thinned_miss(taken + queue, sent.skip(from), event@);
                    }
                }
            }
        }
    }

    /// Takes the next event that waits for subscriber `id`.
    pub fn poll(&mut self, id: usize) -> (r: Delivery)
        requires
            old(self).wf(),
        ensures
            final(self).wf(),
            final(self).same_but(old(self), id as int),
            id < old(self).subscribers() && old(self).pending(id as int).len() > 0 ==> {
                &&& r@ == DeliveryView::Event(old(self).pending(id as int)[0])
                &&& final(self).pending(id as int) == old(self).pending(id as int).drop_first()
                &&& final(self).observed(id as int) == old(self).observed(id as int).push(
                    old(self).pending(id as int)[0],
                )
            },
            id < old(self).subscribers() && old(self).pending(id as int).len() == 0 ==> {
                &&& r@ == (if old(self).is_closed() {
                    DeliveryView::Closed
                } else {
                    DeliveryView::Empty
                })
                &&& final(self).pending(id as int) == old(self).pending(id as int)
                &&& final(self).observed(id as int) == old(self).observed(id as int)
            },
            id >= old(self).subscribers() ==> r@ == DeliveryView::Closed,
    {
        if id >= self.queues.len() {
            return Delivery::Closed;
        }
        if self.queues[id].len() == 0 {
            return if self.closed {
                Delivery::Closed
            } else {
                Delivery::Empty
            };
        }
        let ghost waiting = event_views(self.queues[id as int]@);
        let ghost taken = self.delivered@[id as int];
        let queue = &mut self.queues[id];
        let event = queue.remove(0);
        self.delivered = Ghost(self.delivered@.update(id as int, taken.push(event@)));
        proof {
            assert(waiting[0] == event@);
            assert(event_views(self.queues[id as int]@) =~= waiting.drop_first());
            assert(waiting.drop_first() =~= waiting.remove(0));
            lemma_sample_count_remove(waiting, 0);
            assert forall|other: int| 0 <= other < self.queues.len() implies #[trigger]
                self.subscriber_ok(other) by {
                assert(old(self).subscriber_ok(other));
                if other == id {
                    assert(taken.push(event@) + waiting.drop_first() =~= taken + waiting);
                } else {
                    assert(self.queues[other] == old(self).queues[other]);
                }
            }
        }
        Delivery::Event(event)
    }

    /// Closes the bus: a subscriber that has taken everything is then told
    /// that nothing more will come.
    pub fn close(&mut self)
        requires
            old(self).wf(),
        ensures
            final(self).wf(),
            final(self).is_closed(),
            final(self).published() == old(self).published(),
            final(self).subscribers() == old(self).subscribers(),
            final(self).capacity() == old(self).capacity(),
            forall|id: int|
                #![trigger final(self).joined_at(id)]
                #![trigger final(self).observed(id)]
                #![trigger final(self).pending(id)]
                0 <= id < old(self).subscribers() ==> {
                    &&& final(self).joined_at(id) == old(self).joined_at(id)
                    &&& final(self).observed(id) == old(self).observed(id)
                    &&& final(self).pending(id) == old(self).pending(id)
                },
    {
        self.closed = true;
        proof {
            assert forall|id: int| 0 <= id < self.queues.len() implies #[trigger]
                self.subscriber_ok(id) by {
                assert(old(self).subscriber_ok(id));
            }
        }
    }

    /// The number of subscribers.
    pub fn subscriber_count(&self) -> (n: usize)
        ensures
            n == self.subscribers(),
    {
        self.queues.len()
    }

    /// What a subscriber has received is what was published since it
    /// subscribed, with some progress samples left out; and no more samples
    /// wait for it than the capacity allows.
    pub proof fn lemma_received_is_thinned(&self, id: int)
        requires
            self.wf(),
            0 <= id < self.subscribers(),
        ensures
            self.joined_at(id) <= self.published().len(),
            thinned(self.received(id), self.sent_to(id)),
            sample_count(self.pending(id)) <= self.capacity(),
    {
        assert(self.subscriber_ok(id));
    }

    /// No subscriber misses a lifecycle event: the lifecycle events that a
    /// subscriber has received are those published since it subscribed, in
    /// the same order, however many progress samples were displaced.
    pub proof fn lemma_lifecycle_reaches_everyone(&self, id: int)
        requires
            self.wf(),
            0 <= id < self.subscribers(),
        ensures
            lifecycle_events(self.received(id)) == lifecycle_events(self.sent_to(id)),
    {
        self.lemma_received_is_thinned(id);
        lemma_thinned_keeps_lifecycle(self.received(id), self.sent_to(id));
    }

    /// If the samples published since a subscriber joined never step back
    /// in time, neither do the samples that the subscriber receives.
    pub proof fn lemma_received_samples_nondecreasing(&self, id: int)
        requires
            self.wf(),
            0 <= id < self.subscribers(),
            samples_nondecreasing(self.sent_to(id)),
        ensures
            samples_nondecreasing(self.received(id)),
    {
        self.lemma_received_is_thinned(id);
        lemma_thinned_stays_nondecreasing(self.received(id), self.sent_to(id));
    }
}

} // verus!
