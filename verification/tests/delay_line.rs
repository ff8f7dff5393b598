use silly_delay::delay_line::{CapacityError, DelayLine};
use silly_delay::frame::Frame;
use silly_delay::ring::MAX_CAPACITY;

fn frame(left: u32, right: u32) -> Frame {
    Frame { left, right }
}

#[test]
fn push_pop_returns_the_fill_first() {
    let mut line = DelayLine::with_fill(2, frame(0, 0));
    assert_eq!(line.push_pop(frame(7, 9)), frame(0, 0));
    assert_eq!(line.push_pop(frame(1, 2)), frame(0, 0));
    assert_eq!(line.push_pop(frame(3, 4)), frame(7, 9));
    assert_eq!(line.capacity(), 2);
}

#[test]
fn frames_leave_in_the_order_they_entered() {
    let capacity: usize = 5;
    let mut line = DelayLine::with_fill(capacity, frame(0, 0));
    let mut popped = Vec::new();
    for k in 0..40u32 {
        popped.push(line.push_pop(frame(k + 1, 1000 + k)));
    }
    for k in capacity..40 {
        let entered = (k - capacity) as u32;
        assert_eq!(popped[k], frame(entered + 1, 1000 + entered));
    }
}

#[test]
fn the_line_keeps_its_length() {
    let mut line = DelayLine::with_fill(3, frame(0, 0));
    assert_eq!(line.capacity(), 3);
    for k in 0..10u32 {
        line.push_pop(frame(k, k));
        assert_eq!(line.capacity(), 3);
    }
}

#[test]
fn the_fill_leaves_first_whatever_enters() {
    let fill = frame(0xdead_beef, 0x1234_5678);
    let capacity: usize = 4;
    let mut line = DelayLine::with_fill(capacity, fill);
    for k in 0..capacity as u32 {
        assert_eq!(line.push_pop(frame(k, !k)), fill);
    }
    assert_eq!(line.push_pop(frame(99, 99)), frame(0, !0));
}

#[test]
fn a_line_of_one_frame_returns_the_frame_before() {
    let mut line = DelayLine::with_fill(1, frame(5, 6));
    assert_eq!(line.push_pop(frame(1, 1)), frame(5, 6));
    assert_eq!(line.push_pop(frame(2, 2)), frame(1, 1));
    assert_eq!(line.push_pop(frame(3, 3)), frame(2, 2));
    assert_eq!(line.capacity(), 1);
}

#[test]
fn the_channels_stay_paired() {
    let mut line = DelayLine::with_fill(2, frame(0, 0));
    line.push_pop(frame(10, 20));
    line.push_pop(frame(30, 40));
    let first = line.push_pop(frame(0, 0));
    let second = line.push_pop(frame(0, 0));
    assert_eq!((first.left, first.right), (10, 20));
    assert_eq!((second.left, second.right), (30, 40));
}

#[test]
fn new_makes_a_full_line() {
    let made = DelayLine::new(3, frame(8, 9));
    assert!(made.is_ok());
    let mut line = made.unwrap_or_else(|_| DelayLine::with_fill(1, frame(0, 0)));
    assert_eq!(line.capacity(), 3);
    assert_eq!(line.push_pop(frame(1, 1)), frame(8, 9));
}

#[test]
fn new_refuses_a_line_of_no_frames() {
    assert!(matches!(DelayLine::new(0, frame(0, 0)), Err(CapacityError::Zero)));
}

#[test]
fn new_refuses_a_line_that_is_too_long() {
    assert!(matches!(
        DelayLine::new(MAX_CAPACITY + 1, frame(0, 0)),
        Err(CapacityError::TooLarge)
    ));
    assert!(matches!(
        DelayLine::new(usize::MAX, frame(0, 0)),
        Err(CapacityError::TooLarge)
    ));
}
