use pingbar::fixed_size_deque::FixedSizeDeque;
use pingbar::fixed_size_queue::FixedSizeQueue;

#[test]
fn fresh_deque_has_n_empty_slots() {
    let d: FixedSizeDeque<1, u32> = FixedSizeDeque::new();
    assert_eq!(d.get(), vec![None]);
    let d: FixedSizeDeque<4, u32> = FixedSizeDeque::new();
    assert_eq!(d.get(), vec![None, None, None, None]);
    assert_eq!(d.len(), 4);
}

#[test]
fn deque_keeps_last_n_pushed() {
    let mut d: FixedSizeDeque<3, u32> = FixedSizeDeque::new();
    d.push(1);
    assert_eq!(d.get(), vec![None, None, Some(1)]);
    for i in 2..=7 {
        d.push(i);
    }
    assert_eq!(d.get(), vec![Some(5), Some(6), Some(7)]);
    assert_eq!(d.len(), 3);
}

#[test]
fn deque_with_strings_keeps_order() {
    let mut d: FixedSizeDeque<2, String> = FixedSizeDeque::new();
    d.push("a".to_string());
    d.push("b".to_string());
    d.push("c".to_string());
    assert_eq!(d.get(), vec![Some("b".to_string()), Some("c".to_string())]);
}

#[test]
fn deque_of_capacity_zero_stays_empty() {
    let mut d: FixedSizeDeque<0, u32> = FixedSizeDeque::new();
    d.push(9);
    assert_eq!(d.get(), Vec::<Option<u32>>::new());
    assert_eq!(d.len(), 0);
}

#[test]
fn fresh_queue_has_n_empty_slots() {
    let q: FixedSizeQueue<1, u32> = FixedSizeQueue::new();
    assert_eq!(q.get(), vec![None]);
    let q: FixedSizeQueue<5, u32> = FixedSizeQueue::new();
    assert_eq!(q.get(), vec![None; 5]);
}

#[test]
fn queue_keeps_last_n_pushed() {
    let mut q: FixedSizeQueue<3, u32> = FixedSizeQueue::new();
    q.push(10);
    q.push(20);
    assert_eq!(q.get(), vec![None, Some(10), Some(20)]);
    q.push(30);
    q.push(40);
    assert_eq!(q.get(), vec![Some(20), Some(30), Some(40)]);
}

#[test]
fn queue_of_capacity_zero_stays_empty() {
    let mut q: FixedSizeQueue<0, u32> = FixedSizeQueue::new();
    q.push(1);
    assert_eq!(q.get(), Vec::<Option<u32>>::new());
}
