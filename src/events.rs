//! Bounded event queues between interrupt handlers and the tasks that
//! consume their events, with a wake token that resumes a waiting consumer.

use vstd::prelude::*;
use crossbeam_queue::ArrayQueue;
use futures_util::task::AtomicWaker;
use std::task::Waker;

verus! {

#[verifier::external_type_specification]
#[verifier::external_body]
#[verifier::reject_recursive_types(T)]
pub struct ExArrayQueue<T>(ArrayQueue<T>);

#[verifier::external_type_specification]
#[verifier::external_body]
pub struct ExAtomicWaker(AtomicWaker);

#[verifier::external_type_specification]
#[verifier::external_body]
pub struct ExWaker(Waker);

/// The largest capacity a queue is built with.
pub const MAX_CAPACITY: usize = 65536;

/// One packet of the pointing device: signed offsets and the button states.
#[derive(Clone, Copy, PartialEq, Eq, Debug, Structural)]
pub struct PointerPacket {
    pub dx: i16,
    pub dy: i16,
    pub left: bool,
    pub right: bool,
}

/// An event handed from an interrupt handler to a task.
#[derive(Clone, Copy, PartialEq, Eq, Debug, Structural)]
pub enum Event {
    Scancode(u8),
    Pointer(PointerPacket),
    Char(char),
}

/// The events a queue holds, oldest first.
pub uninterp spec fn queued(q: ArrayQueue<Event>) -> Seq<Event>;

/// The capacity a queue was built with.
pub uninterp spec fn capacity_of(q: ArrayQueue<Event>) -> nat;

/// Relies on `ArrayQueue::new`: an empty queue with `cap` slots (it panics on 0).
#[verifier::external_body]
fn new_queue(cap: usize) -> (r: ArrayQueue<Event>)
    requires
        0 < cap <= MAX_CAPACITY,
    ensures
        queued(r) == Seq::<Event>::empty(),
        capacity_of(r) == cap,
{
    ArrayQueue::new(cap)
}

/// Relies on `ArrayQueue::push_mut`: appends at the back, or hands the event
/// back when the queue is full.
#[verifier::external_body]
fn queue_push(q: &mut ArrayQueue<Event>, e: Event) -> (r: Result<(), Event>)
    ensures
        capacity_of(*final(q)) == capacity_of(*old(q)),
        queued(*old(q)).len() < capacity_of(*old(q)) ==> r is Ok,
        queued(*old(q)).len() < capacity_of(*old(q)) ==> queued(*final(q)) == queued(*old(q)).push(e),
        queued(*old(q)).len() >= capacity_of(*old(q)) ==> r is Err,
        queued(*old(q)).len() >= capacity_of(*old(q)) ==> queued(*final(q)) == queued(*old(q)),
{
    q.push_mut(e)
}

/// Relies on `ArrayQueue::pop_mut`: takes the oldest event, or `None` when empty.
#[verifier::external_body]
fn queue_pop(q: &mut ArrayQueue<Event>) -> (r: Option<Event>)
    ensures
        capacity_of(*final(q)) == capacity_of(*old(q)),
        queued(*old(q)).len() == 0 ==> r is None,
        queued(*old(q)).len() == 0 ==> queued(*final(q)) == queued(*old(q)),
        queued(*old(q)).len() > 0 ==> r == Some(queued(*old(q))[0]),
        queued(*old(q)).len() > 0 ==> queued(*final(q)) == queued(*old(q)).drop_first(),
{
    q.pop_mut()
}

/// Relies on `AtomicWaker::new`: a token with no waker registered.
#[verifier::external_body]
pub(crate) fn new_waker() -> (r: AtomicWaker) {
    AtomicWaker::new()
}

/// Relies on `AtomicWaker::register`: keeps a clone of `waker`, replacing the previous one.
#[verifier::external_body]
pub(crate) fn register_waker(token: &AtomicWaker, waker: &Waker) {
    token.register(waker)
}

/// Relies on `AtomicWaker::wake`: wakes the registered waker, if any, and forgets it.
#[verifier::external_body]
pub(crate) fn wake(token: &AtomicWaker) {
    token.wake()
}

/// Relies on `AtomicWaker::take`: forgets the registered waker without waking it.
#[verifier::external_body]
pub(crate) fn forget_waker(token: &AtomicWaker) {
    let _ = token.take();
}

/// The queue after offering `x`: appended when there is room, else unchanged.
pub open spec fn pushed<A>(q: Seq<A>, cap: nat, x: A) -> Seq<A> {
    if q.len() < cap {
        q.push(x)
    } else {
        q
    }
}

/// The queue after offering each of `xs` in order.
pub open spec fn pushed_all<A>(q: Seq<A>, cap: nat, xs: Seq<A>) -> Seq<A>
    decreases xs.len(),
{
    if xs.len() == 0 {
        q
    } else {
        pushed(pushed_all(q, cap, xs.drop_last()), cap, xs.last())
    }
}

/// The first `n` items that successive pops return, fewer if the queue runs empty.
pub open spec fn popped<A>(q: Seq<A>, n: nat) -> Seq<A>
    decreases n,
{
    if n == 0 || q.len() == 0 {
        Seq::empty()
    } else {
        seq![q[0]] + popped(q.drop_first(), (n - 1) as nat)
    }
}

/// A bounded queue of events and the token of the task that consumes them.
pub struct EventQueue {
    queue: ArrayQueue<Event>,
    waker: AtomicWaker,
}

impl EventQueue {
    /// The events held, oldest first.
    pub closed spec fn events(&self) -> Seq<Event> {
        queued(self.queue)
    }

    pub closed spec fn capacity(&self) -> nat {
        capacity_of(self.queue)
    }

    pub open spec fn wf(&self) -> bool {
        &&& 1 <= self.capacity() <= MAX_CAPACITY
        &&& self.events().len() <= self.capacity()
    }

    /// An empty queue with room for `capacity` events.
    pub fn new(capacity: usize) -> (r: EventQueue)
        requires
            0 < capacity <= MAX_CAPACITY,
        ensures
            r.wf(),
            r.events() == Seq::<Event>::empty(),
            r.capacity() == capacity,
    {
        EventQueue { queue: new_queue(capacity), waker: new_waker() }
    }

    /// Offers an event without blocking: it is appended and the consumer woken
    /// when there is room; a full queue drops it and returns `false`.
    pub fn push(&mut self, event: Event) -> (r: bool)
        requires
            old(self).wf(),
        ensures
            final(self).wf(),
            final(self).capacity() == old(self).capacity(),
            r == (old(self).events().len() < old(self).capacity()),
            final(self).events() == pushed(old(self).events(), old(self).capacity(), event),
    {
        match queue_push(&mut self.queue, event) {
            Ok(()) => {
                wake(&self.waker);
                true
            },
            Err(_) => false,
        }
    }

    /// Takes the oldest event. When there is none, registers `waker` to be
    /// woken by the next push, then looks once more, so that an event pushed
    /// in between is not missed.
    pub fn poll_next(&mut self, waker: &Waker) -> (r: Option<Event>)
        requires
            old(self).wf(),
        ensures
            final(self).wf(),
            final(self).capacity() == old(self).capacity(),
            old(self).events().len() == 0 ==> r is None && final(self).events() == old(self).events(),
            old(self).events().len() > 0 ==> r == Some(old(self).events()[0]) && final(self).events() == old(
                self,
            ).events().drop_first(),
    {
        if let Some(e) = queue_pop(&mut self.queue) {
            return Some(e);
        }
        register_waker(&self.waker, waker);
        match queue_pop(&mut self.queue) {
            Some(e) => {
                forget_waker(&self.waker);
                Some(e)
            },
            None => None,
        }
    }
}

/// Offering items to an empty queue with room for all of them, then popping
/// as many, gives them back in the order they were pushed.
pub proof fn lemma_fifo<A>(cap: nat, xs: Seq<A>)
    requires
        xs.len() <= cap,
    ensures
        pushed_all(Seq::<A>::empty(), cap, xs) == xs,
        popped(pushed_all(Seq::<A>::empty(), cap, xs), xs.len()) == xs,
{
    lemma_pushed_all_fits(cap, xs);
    lemma_popped_all(xs);
}

/// Offering `cap + 1` items to an empty queue of capacity `cap` keeps the
/// first `cap` in order and drops the last.
pub proof fn lemma_overflow_drops_newest<A>(cap: nat, xs: Seq<A>)
    requires
        xs.len() == cap + 1,
    ensures
        pushed_all(Seq::<A>::empty(), cap, xs) == xs.take(cap as int),
        popped(pushed_all(Seq::<A>::empty(), cap, xs), cap) == xs.take(cap as int),
        popped(pushed_all(Seq::<A>::empty(), cap, xs), cap + 1) == xs.take(cap as int),
{
    let front = xs.drop_last();
    assert(front =~= xs.take(cap as int));
    lemma_pushed_all_fits(cap, front);
    lemma_popped_all(front);
    lemma_popped_all(front);
    lemma_popped_past_end(front, cap + 1);
}

proof fn lemma_pushed_all_fits<A>(cap: nat, xs: Seq<A>)
    requires
        xs.len() <= cap,
    ensures
        pushed_all(Seq::<A>::empty(), cap, xs) == xs,
    decreases xs.len(),
{
    if xs.len() > 0 {
        lemma_pushed_all_fits(cap, xs.drop_last());
        assert(xs.drop_last().push(xs.last()) =~= xs);
    }
}

proof fn lemma_popped_all<A>(q: Seq<A>)
    ensures
        popped(q, q.len()) == q,
    decreases q.len(),
{
    if q.len() > 0 {
        lemma_popped_all(q.drop_first());
        assert(seq![q[0]] + q.drop_first() =~= q);
    }
}

proof fn lemma_popped_past_end<A>(q: Seq<A>, n: nat)
    requires
        n >= q.len(),
    ensures
        popped(q, n) == q,
    decreases q.len(),
{
    if q.len() > 0 {
        lemma_popped_past_end(q.drop_first(), (n - 1) as nat);
        assert(seq![q[0]] + q.drop_first() =~= q);
    }
}

} // verus!
