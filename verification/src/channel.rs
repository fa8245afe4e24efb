use vstd::prelude::*;
use crate::size::Size;

verus! {

/// The producer handle of a kanal channel, opaque to the verifier.
#[verifier::external_type_specification]
#[verifier::external_body]
#[verifier::reject_recursive_types(T)]
pub struct ExSender<T>(kanal::Sender<T>);

/// The consumer handle of a kanal channel, opaque to the verifier.
#[verifier::external_type_specification]
#[verifier::external_body]
#[verifier::reject_recursive_types(T)]
pub struct ExReceiver<T>(kanal::Receiver<T>);

/// The queue of buffered dimension pairs that the receiving half of a kanal
/// channel will hand out, oldest first.
pub uninterp spec fn pending_dims(receiver: kanal::Receiver<(u64, u64)>) -> Seq<(u64, u64)>;

/// The Event Channel: an unbounded, non-blocking queue of pending size
/// notifications with exactly one producer handle and one consumer handle.
/// Both handles are held here, so the channel is never observed closed from
/// either side.
pub struct EventChannel {
    sender: kanal::Sender<(u64, u64)>,
    receiver: kanal::Receiver<(u64, u64)>,
}

impl EventChannel {
    /// The pending notifications, in the order the producer raised them.
    pub closed spec fn pending(self) -> Seq<Size> {
        pending_dims(self.receiver).map_values(|d: (u64, u64)| Size { width: d.0, height: d.1 })
    }

    /// Relies on kanal::unbounded: a fresh channel starts with an empty
    /// buffer, and the returned pair are its only two handles.
    #[verifier::external_body]
    fn raw_new() -> (c: Self)
        ensures
            pending_dims(c.receiver) == Seq::<(u64, u64)>::empty(),
    {
        let (sender, receiver) = kanal::unbounded();
        EventChannel { sender, receiver }
    }

    /// Relies on kanal::Sender::send on an unbounded channel whose receiver is
    /// alive and never waits (the consumer here only ever polls): the item is
    /// appended at the back of the buffer and the call returns at once,
    /// without blocking.
    #[verifier::external_body]
    fn raw_send(&mut self, item: (u64, u64))
        ensures
            pending_dims(final(self).receiver) == pending_dims(old(self).receiver).push(item),
    {
        let _ = self.sender.send(item);
    }

    /// Relies on kanal::Receiver::try_recv while a sender is alive: it removes
    /// and returns the front of the buffer, or returns nothing when the buffer
    /// is empty, never blocking and never failing.
    #[verifier::external_body]
    fn raw_try_recv(&mut self) -> (r: Option<(u64, u64)>)
        ensures
            pending_dims(old(self).receiver).len() == 0 ==> r is None
                && pending_dims(final(self).receiver) == pending_dims(old(self).receiver),
            pending_dims(old(self).receiver).len() > 0 ==> r == Some(
                pending_dims(old(self).receiver)[0],
            ) && pending_dims(final(self).receiver) == pending_dims(old(self).receiver).drop_first(),
    {
        match self.receiver.try_recv() {
            Ok(Some(item)) => Some(item),
            _ => None,
        }
    }

    /// Creates an empty channel.
    pub fn new() -> (c: Self)
        ensures
            c.pending() == Seq::<Size>::empty(),
    {
        let c = Self::raw_new();
        proof {
            assert(c.pending() =~= Seq::<Size>::empty());
        }
        c
    }

    /// Non-blocking enqueue: appends one notification at the back of the
    /// queue. It never fails; the queue is unbounded, so no notification is
    /// ever dropped for want of capacity.
    pub fn send(&mut self, size: Size)
        ensures
            final(self).pending() == old(self).pending().push(size),
    {
        self.raw_send((size.width, size.height));
        proof {
            assert(self.pending() =~= old(self).pending().push(size));
        }
    }

    /// Non-blocking drain of at most one notification: returns the oldest
    /// pending one and removes it from the queue, or reports absence when the
    /// queue is empty. An empty queue is a normal outcome, not an error, and
    /// polling it leaves the channel unchanged.
    pub fn try_receive(&mut self) -> (r: Option<Size>)
        ensures
            old(self).pending().len() == 0 ==> r is None
                && final(self).pending() == old(self).pending(),
            old(self).pending().len() > 0 ==> r == Some(old(self).pending()[0])
                && final(self).pending() == old(self).pending().drop_first(),
    {
        match self.raw_try_recv() {
            Some(item) => {
                proof {
                    assert(self.pending() =~= old(self).pending().drop_first());
                }
                Some(Size { width: item.0, height: item.1 })
            },
            None => {
                proof {
                    assert(self.pending() =~= old(self).pending());
                }
                None
            },
        }
    }
}

/// The queue after each element of `events` is enqueued in order, first
/// element first, exactly as `send` pushes them.
pub open spec fn enqueue_all(q: Seq<Size>, events: Seq<Size>) -> Seq<Size>
    decreases events.len(),
{
    if events.len() == 0 {
        q
    } else {
        enqueue_all(q.push(events[0]), events.drop_first())
    }
}

/// The notifications a consumer observes by polling the queue to empty, one
/// item per poll, exactly as `try_receive` drains them.
pub open spec fn drain_all(q: Seq<Size>) -> Seq<Size>
    decreases q.len(),
{
    if q.len() == 0 {
        Seq::<Size>::empty()
    } else {
        seq![q[0]] + drain_all(q.drop_first())
    }
}

/// Enqueueing appends and nothing else: the queue that held `q` holds
/// `q + events` after the producer raises `events`, so no notification is
/// lost, duplicated or reordered on the way in.
pub proof fn lemma_enqueue_all_appends(q: Seq<Size>, events: Seq<Size>)
    ensures
        enqueue_all(q, events) == q + events,
    decreases events.len(),
{
    if events.len() == 0 {
        assert(enqueue_all(q, events) =~= q + events);
    } else {
        lemma_enqueue_all_appends(q.push(events[0]), events.drop_first());
        assert(q.push(events[0]) + events.drop_first() =~= q + events);
    }
}

/// Draining observes exactly what is queued, front first: no notification is
/// lost, duplicated or reordered on the way out.
pub proof fn lemma_drain_all_exact(q: Seq<Size>)
    ensures
        drain_all(q) == q,
    decreases q.len(),
{
    if q.len() == 0 {
        assert(drain_all(q) =~= q);
    } else {
        lemma_drain_all_exact(q.drop_first());
        assert(seq![q[0]] + q.drop_first() =~= q);
    }
}

/// FIFO delivery: for every sequence of producer events, a consumer that
/// polls in a loop until empty observes exactly those notifications, in the
/// order produced.
pub proof fn lemma_fifo_delivery(events: Seq<Size>)
    ensures
        drain_all(enqueue_all(Seq::<Size>::empty(), events)) == events,
{
    lemma_enqueue_all_appends(Seq::<Size>::empty(), events);
    assert(Seq::<Size>::empty() + events =~= events);
    lemma_drain_all_exact(events);
}

} // verus!
