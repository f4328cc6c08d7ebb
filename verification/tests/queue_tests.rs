use micromouse_control::{ControlError, Target, TargetQueue};

fn seg(n: u32) -> Target {
    Target { velocity: n, distance: n as i32 * 10 }
}

#[test]
fn new_queue_is_empty() {
    let queue = TargetQueue::new();
    assert_eq!(queue.len(), 0);
    assert!(queue.is_empty());
    assert!(!queue.is_full());
    assert_eq!(queue.front(), None);
    assert_eq!(queue.get(0), None);
}

#[test]
fn pop_on_empty_queue_gives_nothing() {
    let mut queue = TargetQueue::new();
    assert_eq!(queue.pop(), None);
    assert_eq!(queue.len(), 0);
}

#[test]
fn segments_leave_in_arrival_order() {
    let mut queue = TargetQueue::new();
    for n in 1..=8 {
        assert_eq!(queue.push(seg(n)), Ok(()));
        assert_eq!(queue.len(), n as usize);
    }
    assert!(queue.is_full());
    for n in 1..=8 {
        assert_eq!(queue.front(), Some(seg(n)));
        assert_eq!(queue.pop(), Some(seg(n)));
    }
    assert!(queue.is_empty());
    assert_eq!(queue.pop(), None);
}

#[test]
fn ninth_segment_is_turned_down_and_the_eight_stay() {
    let mut queue = TargetQueue::new();
    for n in 1..=8 {
        assert_eq!(queue.push(seg(n)), Ok(()));
    }
    assert_eq!(queue.push(seg(9)), Err(ControlError::CapacityExceeded));
    assert_eq!(queue.push(seg(10)), Err(ControlError::CapacityExceeded));
    assert_eq!(queue.len(), 8);
    for n in 1..=8 {
        assert_eq!(queue.get(n as usize - 1), Some(seg(n)));
    }
    assert_eq!(queue.get(8), None);
    for n in 1..=8 {
        assert_eq!(queue.pop(), Some(seg(n)));
    }
}

#[test]
fn order_survives_wrapping_around_the_ring() {
    let mut queue = TargetQueue::new();
    let mut next_in: u32 = 1;
    let mut next_out: u32 = 1;
    for _ in 0..5 {
        assert_eq!(queue.push(seg(next_in)), Ok(()));
        next_in += 1;
    }
    for round in 0..40 {
        let pops = 1 + round % 3;
        for _ in 0..pops {
            if queue.is_empty() {
                break;
            }
            assert_eq!(queue.pop(), Some(seg(next_out)));
            next_out += 1;
        }
        while !queue.is_full() {
            assert_eq!(queue.push(seg(next_in)), Ok(()));
            next_in += 1;
        }
        assert_eq!(queue.len(), 8);
        for k in 0..8 {
            assert_eq!(queue.get(k), Some(seg(next_out + k as u32)));
        }
    }
}

#[test]
fn get_reads_without_removing() {
    let mut queue = TargetQueue::new();
    assert_eq!(queue.push(Target { velocity: 3, distance: -7 }), Ok(()));
    assert_eq!(queue.push(Target { velocity: 0, distance: 0 }), Ok(()));
    assert_eq!(queue.get(0), Some(Target { velocity: 3, distance: -7 }));
    assert_eq!(queue.get(1), Some(Target { velocity: 0, distance: 0 }));
    assert_eq!(queue.get(2), None);
    assert_eq!(queue.get(usize::MAX), None);
    assert_eq!(queue.len(), 2);
}
