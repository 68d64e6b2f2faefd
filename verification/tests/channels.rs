use simcore::events::EventChannel;
use simcore::input::{KeyState, KeyboardEvent};

#[test]
fn reader_sees_all_pushes_in_order() {
    let mut ch: EventChannel<i32> = EventChannel::with_capacity(8);
    let mut reader = ch.register_reader();
    for i in 1..=5 {
        ch.push(i);
    }
    let got = ch.read(&mut reader);
    assert_eq!(got, vec![1, 2, 3, 4, 5]);
    // Draining is not re-iterable: the same cursor now sees nothing.
    let again = ch.read(&mut reader);
    assert_eq!(again, Vec::<i32>::new());
}

#[test]
fn late_reader_sees_only_remaining_pushes() {
    let mut ch: EventChannel<i32> = EventChannel::with_capacity(8);
    let mut first = ch.register_reader();
    ch.push(10);
    ch.push(20);
    let mut second = ch.register_reader();
    ch.push(30);
    ch.push(40);
    ch.push(50);
    assert_eq!(ch.read(&mut first), vec![10, 20, 30, 40, 50]);
    assert_eq!(ch.read(&mut second), vec![30, 40, 50]);
}

#[test]
fn reader_registered_after_pushes_sees_nothing_old() {
    let mut ch: EventChannel<i32> = EventChannel::with_capacity(4);
    ch.push(1);
    ch.push(2);
    let mut reader = ch.register_reader();
    assert_eq!(ch.read(&mut reader), Vec::<i32>::new());
    ch.push(3);
    assert_eq!(ch.read(&mut reader), vec![3]);
}

#[test]
fn overflow_keeps_newest_window() {
    let mut ch: EventChannel<i32> = EventChannel::with_capacity(4);
    let mut reader = ch.register_reader();
    for i in 1..=6 {
        ch.push(i);
    }
    let got = ch.read(&mut reader);
    // Capacity is four: the two oldest events were evicted, the cursor
    // skipped the gap, and what remains is in order with no duplicates.
    assert_eq!(got, vec![3, 4, 5, 6]);
}

#[test]
fn read_next_hands_out_each_event_once() {
    let mut ch: EventChannel<KeyboardEvent> = EventChannel::with_capacity(8);
    let mut reader = ch.register_reader();
    ch.push(KeyboardEvent { state: KeyState::DOWN, key: "w".to_string() });
    ch.push(KeyboardEvent { state: KeyState::UP, key: "w".to_string() });
    let first = ch.read_next(&mut reader).expect("first event");
    assert_eq!(first.state, KeyState::DOWN);
    assert_eq!(first.key, "w");
    let second = ch.read_next(&mut reader).expect("second event");
    assert_eq!(second.state, KeyState::UP);
    assert!(ch.read_next(&mut reader).is_none());
}
