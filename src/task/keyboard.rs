//! Scancodes from the keyboard's interrupt handler.

use vstd::prelude::*;
use std::task::Waker;
use crate::events::{Event, EventQueue, pushed};

verus! {

/// Events the stream holds at most.
pub const CAPACITY: usize = 100;

/// The scancodes that a run of events carries.
pub open spec fn scancodes(events: Seq<Event>) -> Seq<u8> {
    events.map_values(|e: Event| match e {
        Event::Scancode(x) => x,
        _ => 0,
    })
}

/// A stream of scancodes, fed by an interrupt handler.
pub struct ScancodeStream {
    queue: EventQueue,
}

impl ScancodeStream {
    /// The items held, oldest first.
    pub closed spec fn view(&self) -> Seq<u8> {
        scancodes(self.queue.events())
    }

    pub closed spec fn wf(&self) -> bool {
        &&& self.queue.wf()
        &&& self.queue.capacity() == CAPACITY
        &&& forall|i: int| 0 <= i < self.queue.events().len() ==> #[trigger] self.queue.events()[i] is Scancode
    }

    /// An empty stream.
    pub fn new() -> (r: ScancodeStream)
        ensures
            r.wf(),
            r@ == Seq::<u8>::empty(),
    {
        let r = ScancodeStream { queue: EventQueue::new(CAPACITY) };
        assert(r@ =~= Seq::<u8>::empty());
        r
    }

    /// A stream holds at most `CAPACITY` items.
    pub proof fn lemma_bounded(&self)
        requires
            self.wf(),
        ensures
            self@.len() <= CAPACITY,
    {
    }

    /// Takes the oldest item, or registers `waker` and reports that none is ready.
    pub fn poll_next(&mut self, waker: &Waker) -> (r: Option<u8>)
        requires
            old(self).wf(),
        ensures
            final(self).wf(),
            old(self)@.len() <= CAPACITY,
            old(self)@.len() == 0 ==> r is None && final(self)@ == old(self)@,
            old(self)@.len() > 0 ==> r == Some(old(self)@[0]) && final(self)@ == old(self)@.drop_first(),
    {
        let ghost before = self.queue.events();
        match self.queue.poll_next(waker) {
            Some(Event::Scancode(x)) => {
                assert(self@ =~= old(self)@.drop_first());
                Some(x)
            },
            Some(_) => {
                assert(before[0] is Scancode);
                None
            },
            None => None,
        }
    }
}

/// Hands a scancode to the stream without blocking or allocating; called by the keyboard interrupt handler.
/// Returns `false` when the stream was full and the item was dropped.
pub fn add_scancode(stream: &mut ScancodeStream, x: u8) -> (r: bool)
    requires
        old(stream).wf(),
    ensures
        final(stream).wf(),
        r == (old(stream)@.len() < CAPACITY),
        final(stream)@ == pushed(old(stream)@, CAPACITY as nat, x),
{
    let ghost before = stream.queue.events();
    let r = stream.queue.push(Event::Scancode(x));
    assert(stream@ =~= pushed(old(stream)@, CAPACITY as nat, x));
    r
}

} // verus!
