use futures_util::task::noop_waker;
use rust_stuff_term::events::{Event, EventQueue, PointerPacket};
use rust_stuff_term::task::canvasgame::Interval;
use rust_stuff_term::task::keyboard::{self, add_scancode, ScancodeStream};
use rust_stuff_term::task::mouse::{add_state, StateStream};
use rust_stuff_term::task::print;
use rust_stuff_term::task::term::{self, add_char};

fn packet(i: i16) -> PointerPacket {
    PointerPacket { dx: i, dy: -i, left: i % 2 == 0, right: false }
}

#[test]
fn pops_come_out_in_push_order() {
    let waker = noop_waker();
    let mut stream = term::CharacterStream::new();
    for c in "hello".chars() {
        assert!(add_char(&mut stream, c));
    }
    let mut out = String::new();
    while let Some(c) = stream.poll_next(&waker) {
        out.push(c);
    }
    assert_eq!(out, "hello");
}

#[test]
fn overflowing_scancodes_keeps_the_first_hundred() {
    let waker = noop_waker();
    let mut stream = ScancodeStream::new();
    let mut accepted = 0;
    for i in 0..=100u8 {
        if add_scancode(&mut stream, i) {
            accepted += 1;
        }
    }
    assert_eq!(accepted, keyboard::CAPACITY);
    for i in 0..100u8 {
        assert_eq!(stream.poll_next(&waker), Some(i));
    }
    assert_eq!(stream.poll_next(&waker), None);
}

#[test]
fn hundred_and_one_pointer_packets_drop_one() {
    let waker = noop_waker();
    let mut stream = StateStream::new();
    let mut dropped = 0;
    for i in 0..101i16 {
        if !add_state(&mut stream, packet(i)) {
            dropped += 1;
        }
    }
    assert_eq!(dropped, 1);
    let mut retrieved = 0;
    while let Some(p) = stream.poll_next(&waker) {
        assert_eq!(p, packet(retrieved));
        retrieved += 1;
    }
    assert_eq!(retrieved, 100);
}

#[test]
fn empty_stream_is_not_ready() {
    let waker = noop_waker();
    let mut stream = print::CharacterStream::new();
    assert_eq!(stream.poll_next(&waker), None);
    assert!(print::add_char(&mut stream, 'x'));
    assert_eq!(stream.poll_next(&waker), Some('x'));
    assert_eq!(stream.poll_next(&waker), None);
}

#[test]
fn character_stream_holds_a_thousand() {
    let mut stream = print::CharacterStream::new();
    for _ in 0..1000 {
        assert!(print::add_char(&mut stream, 'a'));
    }
    assert!(!print::add_char(&mut stream, 'b'));
}

#[test]
fn event_queue_is_bounded_and_ordered() {
    let waker = noop_waker();
    let mut q = EventQueue::new(2);
    assert!(q.push(Event::Char('a')));
    assert!(q.push(Event::Scancode(7)));
    assert!(!q.push(Event::Char('z')));
    assert_eq!(q.poll_next(&waker), Some(Event::Char('a')));
    assert!(q.push(Event::Pointer(packet(3))));
    assert_eq!(q.poll_next(&waker), Some(Event::Scancode(7)));
    assert_eq!(q.poll_next(&waker), Some(Event::Pointer(packet(3))));
    assert_eq!(q.poll_next(&waker), None);
}

#[test]
fn interval_fires_after_its_duration() {
    let waker = noop_waker();
    let mut interval = Interval::new(20);
    assert_eq!(interval.poll_next(5, &waker), None);
    assert_eq!(interval.poll_next(20, &waker), Some(20));
    assert_eq!(interval.poll_next(39, &waker), None);
    assert_eq!(interval.poll_next(45, &waker), Some(25));
    interval.next();
}
