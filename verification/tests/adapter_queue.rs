use xtp_connector::adapter::AdapterQueue;

#[test]
fn queue_is_fifo_and_bounded() {
    let mut q: AdapterQueue<u64> = AdapterQueue::new(2);
    assert_eq!(q.len(), 0);
    assert!(q.try_enqueue(1).is_ok());
    assert!(q.try_enqueue(2).is_ok());
    // The queue is at its bound: the event is handed back, not dropped.
    assert_eq!(q.try_enqueue(3), Err(3));
    assert_eq!(q.len(), 2);
    assert_eq!(q.dequeue(), Some(1));
    assert_eq!(q.dequeue(), Some(2));
    assert_eq!(q.dequeue(), None);
    // Arrival order is preserved across refills.
    assert!(q.try_enqueue(4).is_ok());
    assert_eq!(q.dequeue(), Some(4));
}
