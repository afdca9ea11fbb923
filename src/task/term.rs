//! Characters on their way to the terminal multiplexer.

use vstd::prelude::*;
use std::task::Waker;
use crate::events::{Event, EventQueue, pushed};
use crate::term::{Term, written_all, end_of};
use crate::textbuffer::Textbuffer;
use crate::writer::{Writer, char_byte};

verus! {

/// Events the stream holds at most.
pub const CAPACITY: usize = 1000;

/// The characters that a run of events carries.
pub open spec fn characters(events: Seq<Event>) -> Seq<char> {
    events.map_values(|e: Event| match e {
        Event::Char(x) => x,
        _ => ' ',
    })
}

/// A stream of characters, fed by an interrupt handler.
pub struct CharacterStream {
    queue: EventQueue,
}

impl CharacterStream {
    /// The items held, oldest first.
    pub closed spec fn view(&self) -> Seq<char> {
        characters(self.queue.events())
    }

    pub closed spec fn wf(&self) -> bool {
        &&& self.queue.wf()
        &&& self.queue.capacity() == CAPACITY
        &&& forall|i: int| 0 <= i < self.queue.events().len() ==> #[trigger] self.queue.events()[i] is Char
    }

    /// An empty stream.
    pub fn new() -> (r: CharacterStream)
        ensures
            r.wf(),
            r@ == Seq::<char>::empty(),
    {
        let r = CharacterStream { queue: EventQueue::new(CAPACITY) };
        assert(r@ =~= Seq::<char>::empty());
        r
    }

    /// A stream holds at most `CAPACITY` items.
    pub proof fn lemma_bounded(&self)
        requires
            self.wf(),
        ensures
            self@.len() <= CAPACITY,
    {
    }

    /// Takes the oldest item, or registers `waker` and reports that none is ready.
    pub fn poll_next(&mut self, waker: &Waker) -> (r: Option<char>)
        requires
            old(self).wf(),
        ensures
            final(self).wf(),
            old(self)@.len() <= CAPACITY,
            old(self)@.len() == 0 ==> r is None && final(self)@ == old(self)@,
            old(self)@.len() > 0 ==> r == Some(old(self)@[0]) && final(self)@ == old(self)@.drop_first(),
    {
        let ghost before = self.queue.events();
        match self.queue.poll_next(waker) {
            Some(Event::Char(x)) => {
                assert(self@ =~= old(self)@.drop_first());
                Some(x)
            },
            Some(_) => {
                assert(before[0] is Char);
                None
            },
            None => None,
        }
    }
}

/// Hands a character for the terminal to the stream without blocking.
/// Returns `false` when the stream was full and the item was dropped.
pub fn add_char(stream: &mut CharacterStream, x: char) -> (r: bool)
    requires
        old(stream).wf(),
    ensures
        final(stream).wf(),
        r == (old(stream)@.len() < CAPACITY),
        final(stream)@ == pushed(old(stream)@, CAPACITY as nat, x),
{
    let ghost before = stream.queue.events();
    let r = stream.queue.push(Event::Char(x));
    assert(stream@ =~= pushed(old(stream)@, CAPACITY as nat, x));
    r
}

/// Feeds every character that is ready to the terminal, oldest first, each
/// as its low byte; returns how many there were. With none ready, `waker` is
/// registered for the next one.
pub fn process_buffer(
    stream: &mut CharacterStream,
    term: &mut Term,
    writer: &mut Writer,
    log: &Textbuffer,
    waker: &Waker,
) -> (r: usize)
    requires
        old(stream).wf(),
        old(term).wf(),
        old(writer).wf(),
        log.wf(),
    ensures
        final(stream).wf(),
        final(term).wf(),
        final(writer).wf(),
        r == old(stream)@.len(),
        final(stream)@.len() == 0,
        final(term)@ == written_all(old(term)@, old(stream)@.map_values(|c: char| char_byte(c)), end_of(log.rows())),
{
    let ghost all = stream@;
    proof { stream.lemma_bounded(); }
    let mut n: usize = 0;
    loop
        invariant
            stream.wf(),
            term.wf(),
            writer.wf(),
            log.wf(),
            n <= all.len(),
            all.len() <= CAPACITY,
            all == old(stream)@,
            stream@ == all.subrange(n as int, all.len() as int),
            term@ == written_all(old(term)@, all.subrange(0, n as int).map_values(|c: char| char_byte(c)), end_of(log.rows())),
        decreases stream@.len(),
    {
        match stream.poll_next(waker) {
            Some(c) => {
                assert(c == all[n as int]);
                assert(n < all.len());
                term.write_byte((c as u32 % 256) as u8, writer, log);
                n = n + 1;
                let ghost done = all.subrange(0, n as int).map_values(|c: char| char_byte(c));
                assert(done.drop_last() =~= all.subrange(0, n - 1).map_values(|c: char| char_byte(c)));
                assert(stream@ =~= all.subrange(n as int, all.len() as int));
            },
            None => {
                assert(stream@.len() == all.len() - n);
                assert(all.subrange(0, n as int) =~= all);
                return n;
            },
        }
    }
}

} // verus!
