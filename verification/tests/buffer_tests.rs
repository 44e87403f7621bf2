use fifo_bounded_buffer::buffer::{Buffer, Role};

#[test]
fn new_buffer_is_empty_and_open() {
    let buffer = Buffer::<u32>::new(3);
    assert_eq!(buffer.len(), 0);
    assert_eq!(buffer.capacity(), 3);
    assert!(buffer.is_empty());
    assert!(!buffer.is_shutdown());
}

#[test]
fn put_stores_until_full_then_waits() {
    let mut buffer = Buffer::new(2);
    let mut slot = Some(1);
    assert!(!buffer.try_put(&mut slot));
    assert_eq!(slot, None);
    slot = Some(2);
    assert!(!buffer.try_put(&mut slot));
    assert_eq!(slot, None);
    assert_eq!(buffer.len(), 2);

    slot = Some(3);
    assert!(buffer.try_put(&mut slot));
    assert_eq!(slot, Some(3));
    assert_eq!(buffer.len(), 2);
}

#[test]
fn capacity_is_never_exceeded() {
    let mut buffer = Buffer::new(3);
    for i in 0..10 {
        let mut slot = Some(i);
        let waits = buffer.try_put(&mut slot);
        assert_eq!(waits, i >= 3);
        assert!(buffer.len() <= buffer.capacity());
    }
    assert_eq!(buffer.len(), 3);
    assert_eq!(buffer.capacity(), 3);
}

#[test]
fn take_waits_on_empty_open_buffer() {
    let mut buffer = Buffer::<u8>::new(1);
    let mut slot = None;
    assert!(buffer.try_take(&mut slot));
    assert_eq!(slot, None);
    assert!(buffer.is_empty());
}

#[test]
fn blocked_producer_gets_in_after_one_take() {
    let mut buffer = Buffer::new(1);
    let mut first = Some(1);
    assert!(!buffer.try_put(&mut first));
    let mut second = Some(2);
    assert!(buffer.try_put(&mut second));
    assert!(buffer.try_put(&mut second));
    assert_eq!(second, Some(2));

    let mut out = None;
    assert!(!buffer.try_take(&mut out));
    assert_eq!(out, Some(1));

    assert!(!buffer.try_put(&mut second));
    assert_eq!(second, None);
    assert!(!buffer.try_take(&mut out));
    assert_eq!(out, Some(2));
}

#[test]
fn blocked_consumer_is_served_by_one_put() {
    let mut buffer = Buffer::new(1);
    let mut out = None;
    assert!(buffer.try_take(&mut out));
    let mut slot = Some(42);
    assert!(!buffer.try_put(&mut slot));
    assert!(!buffer.try_take(&mut out));
    assert_eq!(out, Some(42));
}

#[test]
fn blocked_consumer_is_released_by_shutdown() {
    let mut buffer = Buffer::<usize>::new(1);
    let mut out = None;
    assert!(buffer.try_take(&mut out));
    buffer.shutdown();
    assert!(!buffer.try_take(&mut out));
    assert_eq!(out, None);
}

#[test]
fn blocked_producer_is_released_by_shutdown() {
    let mut buffer = Buffer::new(1);
    let mut slot = Some(1);
    assert!(!buffer.try_put(&mut slot));
    slot = Some(2);
    assert!(buffer.try_put(&mut slot));
    buffer.shutdown();
    assert!(!buffer.try_put(&mut slot));
    assert_eq!(slot, Some(2));
    assert_eq!(buffer.len(), 1);
}

#[test]
fn items_come_out_in_the_order_they_went_in() {
    let mut buffer = Buffer::new(5);
    for i in [3, 1, 4, 1, 5] {
        let mut slot = Some(i);
        assert!(!buffer.try_put(&mut slot));
    }
    let mut seen = Vec::new();
    for _ in 0..5 {
        let mut out = None;
        assert!(!buffer.try_take(&mut out));
        seen.push(out.unwrap());
    }
    assert_eq!(seen, vec![3, 1, 4, 1, 5]);
    assert!(buffer.is_empty());
}

#[test]
fn buffer_shutdown_drains_then_stops() {
    let mut buffer = Buffer::new(3);
    for c in ['a', 'b', 'c'] {
        let mut slot = Some(c);
        assert!(!buffer.try_put(&mut slot));
    }
    let mut out = None;
    assert!(!buffer.try_take(&mut out));
    assert_eq!(out, Some('a'));
    assert!(!buffer.try_take(&mut out));
    assert_eq!(out, Some('b'));
    buffer.shutdown();
    assert!(!buffer.try_take(&mut out));
    assert_eq!(out, Some('c'));
    assert!(!buffer.try_take(&mut out));
    assert_eq!(out, None);
    assert!(buffer.is_shutdown());
    assert!(buffer.is_empty());
}

#[test]
fn put_after_shutdown_keeps_the_item_out() {
    let mut buffer = Buffer::new(2);
    let mut slot = Some(10);
    assert!(!buffer.try_put(&mut slot));
    buffer.shutdown();
    slot = Some(20);
    assert!(!buffer.try_put(&mut slot));
    assert_eq!(slot, Some(20));
    assert_eq!(buffer.len(), 1);
    let mut out = None;
    assert!(!buffer.try_take(&mut out));
    assert_eq!(out, Some(10));
    assert!(!buffer.try_take(&mut out));
    assert_eq!(out, None);
}

#[test]
fn buffer_shutdown_is_idempotent() {
    let mut buffer = Buffer::new(2);
    let mut slot = Some(1);
    assert!(!buffer.try_put(&mut slot));
    buffer.shutdown();
    assert!(buffer.is_shutdown());
    assert_eq!(buffer.len(), 1);
    buffer.shutdown();
    buffer.shutdown();
    assert!(buffer.is_shutdown());
    assert_eq!(buffer.len(), 1);
    assert_eq!(buffer.capacity(), 2);
}

#[test]
fn put_with_empty_slot_does_nothing() {
    let mut buffer = Buffer::<u8>::new(1);
    let mut slot = None;
    assert!(!buffer.try_put(&mut slot));
    assert_eq!(slot, None);
    assert!(buffer.is_empty());
}

#[test]
fn take_replaces_what_the_slot_held() {
    let mut buffer = Buffer::new(1);
    let mut slot = Some(1);
    assert!(!buffer.try_put(&mut slot));
    let mut out = Some(99);
    assert!(!buffer.try_take(&mut out));
    assert_eq!(out, Some(1));
    out = Some(99);
    assert!(buffer.try_take(&mut out));
    assert_eq!(out, Some(99));
}

#[test]
fn attempt_goes_by_the_role() {
    let mut buffer = Buffer::new(1);
    let mut slot = Some(7);
    assert!(!buffer.attempt(Role::Producer, &mut slot));
    assert_eq!(slot, None);
    assert_eq!(buffer.len(), 1);

    let mut more = Some(8);
    assert!(buffer.attempt(Role::Producer, &mut more));
    assert_eq!(more, Some(8));

    let mut out = None;
    assert!(!buffer.attempt(Role::Consumer, &mut out));
    assert_eq!(out, Some(7));
    assert!(buffer.attempt(Role::Consumer, &mut out));
    assert_eq!(out, Some(7));
    assert!(buffer.is_empty());
}
