//! Pollable values and sets.

use wamp_proto::pollable::{Poll, PollableSet, PollableValue};

#[test]
fn pollable_set_test() {
    let mut set = PollableSet::<u32>::new();
    assert_eq!(0, set.len());

    set.insert(6);
    assert_eq!(1, set.len());

    set.insert(4);
    set.insert(8);
    assert_eq!(3, set.len());

    set.insert(10);
    let odd_query = match set.poll_take(1, |x| x % 2 == 1) {
        Poll::Ready(_) => true,
        Poll::Pending => false,
    };
    let even_query = match set.poll_take(2, |x| x % 2 == 0) {
        Poll::Ready(_) => true,
        Poll::Pending => false,
    };
    assert_eq!(odd_query, false);
    assert_eq!(even_query, true);

    // 3 (before the queries are created), 10 is inserted, and the query consumes one value.
    assert_eq!(3, set.len());
}

fn taken(set: &mut PollableSet<u32>) -> Option<u32> {
    match set.poll_take_any(0) {
        Poll::Ready(value) => Some(value),
        Poll::Pending => None,
    }
}

#[test]
fn first_match_is_taken() {
    let mut set = PollableSet::new();
    for value in vec![5, 2, 4, 6] {
        set.insert(value);
    }
    assert!(matches!(set.poll_take(1, |x| x % 2 == 0), Poll::Ready(2)));
    assert_eq!(Some(5), taken(&mut set));
    assert_eq!(Some(4), taken(&mut set));
    assert_eq!(Some(6), taken(&mut set));
    assert_eq!(None, taken(&mut set));
    assert!(set.is_empty());
}

#[test]
fn waiting_tasks_are_notified_once() {
    let mut set = PollableSet::new();
    assert!(matches!(set.poll_take_any(7), Poll::Pending));
    assert!(matches!(set.poll_take_any(9), Poll::Pending));
    assert!(matches!(set.poll_take_any(7), Poll::Pending));
    assert_eq!(vec![7, 9], set.insert(1u32));
    assert!(set.insert(2).is_empty());
}

#[test]
fn taking_does_not_notify() {
    let mut set = PollableSet::new();
    set.insert(1u32);
    assert!(matches!(set.poll_take(3, |x| *x == 2), Poll::Pending));
    assert!(matches!(set.poll_take(4, |x| *x == 1), Poll::Ready(1)));
    assert_eq!(vec![3], set.insert(2));
}

#[test]
fn drained_items_are_gone() {
    let mut set = PollableSet::default();
    for value in 0..10u32 {
        set.insert(value);
    }
    set.drain(|x| x % 3 == 0);
    let mut left = Vec::new();
    while let Some(value) = taken(&mut set) {
        left.push(value);
    }
    assert_eq!(vec![1, 2, 4, 5, 7, 8], left);
    set.insert(1);
    set.clear();
    assert_eq!(0, set.len());
}

#[test]
fn readers_are_notified_of_writes() {
    let mut value = PollableValue::new(1u8);
    assert_eq!(1, value.read(None));
    assert!(value.write(2).is_empty());
    assert_eq!(2, value.read(Some(5)));
    assert_eq!(2, value.read(Some(6)));
    assert_eq!(2, value.read(Some(5)));
    assert_eq!(vec![5, 6], value.write(3));
    assert!(value.write(4).is_empty());
    assert_eq!(4, value.read(None));
}
