use discord2::queue::{LoopbackOverflow, SampleQueue};

#[test]
fn new_queue_is_empty() {
    let q = SampleQueue::new(4);
    assert_eq!(q.len(), 0);
}

#[test]
fn evicting_push_keeps_order_while_room() {
    let mut q = SampleQueue::new(8);
    q.push_evicting(&[1, 2, 3]);
    q.push_evicting(&[4]);
    assert_eq!(q.drain(), vec![1, 2, 3, 4]);
}

#[test]
fn evicting_push_on_full_drops_new_and_oldest() {
    let mut q = SampleQueue::new(3);
    q.push_evicting(&[1, 2, 3, 4]);
    assert_eq!(q.len(), 2);
    assert_eq!(q.drain(), vec![2, 3]);
}

#[test]
fn evicting_push_never_exceeds_capacity() {
    let mut q = SampleQueue::new(5);
    let many: Vec<u32> = (0..100).collect();
    q.push_evicting(&many);
    assert!(q.len() <= 5);
}

#[test]
fn frame_taken_only_when_enough() {
    let mut q = SampleQueue::new(10);
    q.push_evicting(&[1, 2, 3]);
    assert_eq!(q.take_frame(4), None);
    assert_eq!(q.len(), 3);
    q.push_evicting(&[4, 5]);
    assert_eq!(q.take_frame(4), Some(vec![1, 2, 3, 4]));
    assert_eq!(q.drain(), vec![5]);
}

#[test]
fn capture_frame_of_twenty_milliseconds() {
    let mut q = SampleQueue::new(96000);
    let period: Vec<u32> = (0..1000).collect();
    q.push_evicting(&period);
    assert_eq!(q.take_frame(1920), None);
    q.push_evicting(&period);
    let frame = q.take_frame(1920).unwrap();
    assert_eq!(frame.len(), 1920);
    assert_eq!(frame[0], 0);
    assert_eq!(frame[1000], 0);
    assert_eq!(frame[1919], 919);
    assert_eq!(q.len(), 80);
}

#[test]
fn lossy_push_refuses_what_does_not_fit() {
    let mut q = SampleQueue::new(3);
    assert_eq!(q.push_lossy(&[1, 2, 3, 4, 5]), 2);
    assert_eq!(q.pull(5), vec![1, 2, 3, 0, 0]);
    assert_eq!(q.len(), 0);
}

#[test]
fn pull_returns_what_was_pushed() {
    let mut q = SampleQueue::new(16);
    let xs = vec![5, 6, 7, 8, 9];
    assert_eq!(q.push_lossy(&xs), 0);
    assert_eq!(q.pull(xs.len()), xs);
    assert_eq!(q.len(), 0);
}

#[test]
fn pull_leaves_the_rest() {
    let mut q = SampleQueue::new(16);
    q.push_lossy(&[1, 2, 3, 4]);
    assert_eq!(q.pull(2), vec![1, 2]);
    assert_eq!(q.pull(3), vec![3, 4, 0]);
}

#[test]
fn drain_empties() {
    let mut q = SampleQueue::new(4);
    q.push_lossy(&[1, 2]);
    assert_eq!(q.drain(), vec![1, 2]);
    assert_eq!(q.drain(), Vec::<u32>::new());
    assert_eq!(q.pull(2), vec![0, 0]);
}

#[test]
fn loopback_stereo_stores_once_until_full() {
    let mut q = SampleQueue::new(3);
    assert_eq!(q.push_loopback(&[1, 2, 3, 4], false), Ok(()));
    assert_eq!(q.drain(), vec![1, 2, 3]);
}

#[test]
fn loopback_mono_stores_twice() {
    let mut q = SampleQueue::new(4);
    assert_eq!(q.push_loopback(&[1, 2, 3], true), Ok(()));
    assert_eq!(q.drain(), vec![1, 1, 2, 2]);
}

#[test]
fn loopback_mono_with_one_slot_left_overflows() {
    let mut q = SampleQueue::new(3);
    assert_eq!(q.push_loopback(&[9], true), Ok(()));
    assert_eq!(q.push_loopback(&[8], true), Err(LoopbackOverflow));
}

#[test]
fn loopback_mono_with_even_capacity_survives() {
    let mut q = SampleQueue::new(6);
    let many: Vec<u32> = (0..50).collect();
    assert_eq!(q.push_loopback(&many, true), Ok(()));
    assert_eq!(q.drain(), vec![0, 0, 1, 1, 2, 2]);
}
