//! Packets from the pointing device's interrupt handler.

use vstd::prelude::*;
use std::task::Waker;
use crate::events::{Event, EventQueue, pushed};
use crate::events::PointerPacket;

verus! {

/// Events the stream holds at most.
pub const CAPACITY: usize = 100;

/// The packets that a run of events carries.
pub open spec fn packets(events: Seq<Event>) -> Seq<PointerPacket> {
    events.map_values(|e: Event| match e {
        Event::Pointer(x) => x,
        _ => PointerPacket { dx: 0, dy: 0, left: false, right: false },
    })
}

/// A stream of packets, fed by an interrupt handler.
pub struct StateStream {
    queue: EventQueue,
}

impl StateStream {
    /// The items held, oldest first.
    pub closed spec fn view(&self) -> Seq<PointerPacket> {
        packets(self.queue.events())
    }

    pub closed spec fn wf(&self) -> bool {
        &&& self.queue.wf()
        &&& self.queue.capacity() == CAPACITY
        &&& forall|i: int| 0 <= i < self.queue.events().len() ==> #[trigger] self.queue.events()[i] is Pointer
    }

    /// An empty stream.
    pub fn new() -> (r: StateStream)
        ensures
            r.wf(),
            r@ == Seq::<PointerPacket>::empty(),
    {
        let r = StateStream { queue: EventQueue::new(CAPACITY) };
        assert(r@ =~= Seq::<PointerPacket>::empty());
        r
    }

    /// A stream holds at most `CAPACITY` items.
    pub proof fn lemma_bounded(&self)
        requires
            self.wf(),
        ensures
            self@.len() <= CAPACITY,
    {
    }

    /// Takes the oldest item, or registers `waker` and reports that none is ready.
    pub fn poll_next(&mut self, waker: &Waker) -> (r: Option<PointerPacket>)
        requires
            old(self).wf(),
        ensures
            final(self).wf(),
            old(self)@.len() <= CAPACITY,
            old(self)@.len() == 0 ==> r is None && final(self)@ == old(self)@,
            old(self)@.len() > 0 ==> r == Some(old(self)@[0]) && final(self)@ == old(self)@.drop_first(),
    {
        let ghost before = self.queue.events();
        match self.queue.poll_next(waker) {
            Some(Event::Pointer(x)) => {
                assert(self@ =~= old(self)@.drop_first());
                Some(x)
            },
            Some(_) => {
                assert(before[0] is Pointer);
                None
            },
            None => None,
        }
    }
}

/// Hands a packet to the stream without blocking or allocating; called by the pointing device's interrupt handler.
/// Returns `false` when the stream was full and the item was dropped.
pub fn add_state(stream: &mut StateStream, x: PointerPacket) -> (r: bool)
    requires
        old(stream).wf(),
    ensures
        final(stream).wf(),
        r == (old(stream)@.len() < CAPACITY),
        final(stream)@ == pushed(old(stream)@, CAPACITY as nat, x),
{
    let ghost before = stream.queue.events();
    let r = stream.queue.push(Event::Pointer(x));
    assert(stream@ =~= pushed(old(stream)@, CAPACITY as nat, x));
    r
}

} // verus!
