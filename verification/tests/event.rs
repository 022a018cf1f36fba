use cocoa_bridge::event::{trampoline, reply_for, Event, EventMonitor};
use cocoa_bridge::flags::EventMask;
use cocoa_bridge::handle::{HandleError, Ownership, RefAction, NIL};
use std::sync::atomic::{AtomicUsize, Ordering};
use std::sync::Arc;

fn key(address: usize, characters: &str) -> Event<'_> {
    Event::new(address, characters.as_bytes()).unwrap()
}

fn pass(event: Event<'_>) -> Option<Event<'_>> {
    Some(event)
}

fn suppress_q(event: Event<'_>) -> Option<Event<'_>> {
    if event.characters() == "q" {
        None
    } else {
        Some(event)
    }
}

#[test]
fn event_borrows_its_object_and_decodes_its_characters() {
    let event = key(0x700, "é");
    assert_eq!(event.objc().as_ptr(), 0x700);
    assert_eq!(event.objc().mode(), Ownership::Borrow);
    assert_eq!(event.objc().acquire(), RefAction::Nothing);
    assert_eq!(event.characters(), "é");
    assert_eq!(event.characters(), "é");
    assert_eq!(event.try_characters(), Some(String::from("é")));
    let broken = Event::new(0x701, &[0xff]).unwrap();
    assert_eq!(broken.try_characters(), None);
    assert_eq!(Event::new(NIL, &[]).unwrap_err(), HandleError::InvalidPointer);
}

#[test]
fn none_becomes_the_null_sentinel_and_some_the_event_address() {
    assert_eq!(reply_for(None), NIL);
    assert_eq!(reply_for(Some(key(0x710, "a"))), 0x710);
    assert_eq!(trampoline(&|_event| None, key(0x711, "a")), NIL);
    assert_eq!(trampoline(&pass, key(0x712, "a")), 0x712);
    assert_eq!(trampoline(&|_event| Some(key(0x999, "z")), key(0x713, "a")), 0x999);
}

#[test]
fn key_down_monitor_suppresses_q() {
    let mut monitor = Event::local_monitor(EventMask::KeyDown, suppress_q);
    assert_eq!(monitor.mask(), 1024);
    assert!(monitor.install(0x800).unwrap().is_none());
    let replies = vec![
        monitor.deliver(key(0x801, "a")),
        monitor.deliver(key(0x802, "q")),
        monitor.deliver(key(0x803, "b")),
    ];
    assert_eq!(replies, vec![0x801, NIL, 0x803]);
    assert_ne!(replies[0], NIL);
    assert_eq!(replies[1], NIL);
    assert_ne!(replies[2], NIL);
}

#[test]
fn closure_runs_once_for_each_event_and_never_after_unregistering() {
    for n in [0usize, 1, 2, 17] {
        let calls = Arc::new(AtomicUsize::new(0));
        let seen = Arc::clone(&calls);
        let mut monitor = Event::local_monitor(EventMask::KeyDown, move |event| {
            seen.fetch_add(1, Ordering::SeqCst);
            Some(event)
        });
        assert!(monitor.install(0x900).unwrap().is_none());
        for i in 0..n {
            assert_eq!(monitor.deliver(key(0x1000 + i, "k")), 0x1000 + i);
        }
        assert_eq!(calls.load(Ordering::SeqCst), n);
        assert_eq!(monitor.unregister(), Some((0x900, RefAction::Decrement)));
        assert_eq!(calls.load(Ordering::SeqCst), n);
        // The registration held the only other reference to the counter.
        assert_eq!(Arc::strong_count(&calls), 1);
    }
}

#[test]
fn run_of_events_is_answered_in_order() {
    let calls = Arc::new(AtomicUsize::new(0));
    let seen = Arc::clone(&calls);
    let mut monitor = Event::local_monitor(EventMask::KeyDown, move |event| {
        seen.fetch_add(1, Ordering::SeqCst);
        suppress_q(event)
    });
    let events = vec![key(1, "q"), key(2, "x"), key(3, "q"), key(4, "qq"), key(5, "")];
    assert_eq!(monitor.deliver_all(events), vec![NIL, 2, NIL, 4, 5]);
    assert_eq!(calls.load(Ordering::SeqCst), 5);
    assert_eq!(monitor.deliver_all(Vec::new()), Vec::<usize>::new());
    assert_eq!(calls.load(Ordering::SeqCst), 5);
}

#[test]
fn monitor_owns_the_object_the_runtime_gave() {
    let mut monitor: EventMonitor<fn(Event<'_>) -> Option<Event<'_>>> = Event::local_monitor(
        EventMask::KeyDown,
        suppress_q as fn(Event<'_>) -> Option<Event<'_>>,
    );
    assert!(monitor.objc().is_none());
    assert!(monitor.install(0xa00).unwrap().is_none());
    let handle = monitor.objc().unwrap();
    assert_eq!(handle.as_ptr(), 0xa00);
    assert_eq!(handle.mode(), Ownership::Retain);
    assert_eq!(handle.acquire(), RefAction::Increment);
    assert_eq!(monitor.unregister(), Some((0xa00, RefAction::Decrement)));
}

#[test]
fn null_monitor_is_refused_and_changes_nothing() {
    let mut monitor = Event::local_monitor(EventMask::KeyDown, suppress_q);
    assert_eq!(monitor.install(NIL).unwrap_err(), HandleError::InvalidPointer);
    assert!(monitor.objc().is_none());
    assert!(monitor.install(0xb00).unwrap().is_none());
    assert_eq!(monitor.install(NIL).unwrap_err(), HandleError::InvalidPointer);
    assert_eq!(monitor.objc().unwrap().as_ptr(), 0xb00);
    assert_eq!(monitor.deliver(key(0xb01, "q")), NIL);
}

#[test]
fn second_monitor_object_hands_back_the_first() {
    let mut monitor = Event::local_monitor(EventMask::KeyDown, suppress_q);
    assert!(monitor.install(0xc00).unwrap().is_none());
    let previous = monitor.install(0xc01).unwrap().unwrap();
    assert_eq!(previous.release(), (0xc00, RefAction::Decrement));
    assert_eq!(monitor.unregister(), Some((0xc01, RefAction::Decrement)));
}

#[test]
fn monitor_never_installed_owes_nothing() {
    let monitor = Event::local_monitor(EventMask::KeyDown, suppress_q);
    assert_eq!(monitor.unregister(), None);
}
