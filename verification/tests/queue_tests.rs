use jvlauncher::queue::QueueManager;

#[test]
fn test_admission_cap_with_one_slot() {
    let mut qm = QueueManager::new(1);
    let id1 = qm.enqueue("first".to_string(), Some("a".to_string()), 10);
    let id2 = qm.enqueue("second".to_string(), Some("b".to_string()), 11);
    assert_ne!(id1, id2);

    assert!(qm.can_process());
    qm.start_processing(id1, 15);
    assert_eq!(qm.current_running, 1);
    assert!(!qm.can_process());

    // a third arrival while at capacity lands in the waiting FIFO
    let id3 = qm.enqueue("third".to_string(), None, 12);
    assert_eq!(qm.pending_queue, vec![id3]);
    assert!(qm.get_next_pending().is_none());

    qm.complete(id1, "done", 20);
    assert_eq!(qm.current_running, 0);
    assert!(qm.can_process());
    assert!(qm.current_running <= qm.max_concurrent);

    qm.start_processing(id2, 22);
    assert_eq!(qm.current_running, 1);
    assert!(qm.current_running <= qm.max_concurrent);
    qm.fail(id2, "boom", 21);
    assert_eq!(qm.current_running, 0);
}

#[test]
fn test_terminal_status_exclusivity() {
    let mut qm = QueueManager::new(2);
    let id1 = qm.enqueue("one".to_string(), None, 1);
    let id2 = qm.enqueue("two".to_string(), None, 2);

    let pending = qm.get_queue_item(id1).unwrap();
    assert_eq!(pending.status, "pending");
    assert!(pending.completed_at.is_none());
    assert!(pending.response.is_none());

    qm.start_processing(id1, 10);
    let processing = qm.get_queue_item(id1).unwrap();
    assert_eq!(processing.status, "processing");
    assert!(processing.completed_at.is_none());

    qm.complete(id1, "answer", 30);
    let completed = qm.get_queue_item(id1).unwrap();
    assert_eq!(completed.status, "completed");
    assert_eq!(completed.response.as_deref(), Some("answer"));
    assert_eq!(completed.completed_at, Some(30));

    qm.start_processing(id2, 11);
    qm.fail(id2, "no backend", 31);
    let failed = qm.get_queue_item(id2).unwrap();
    assert_eq!(failed.status, "failed");
    assert_eq!(failed.response.as_deref(), Some("no backend"));
    assert_eq!(failed.completed_at, Some(31));
}

#[test]
fn test_get_next_pending_pops_in_order() {
    let mut qm = QueueManager::new(0);
    let id1 = qm.enqueue("one".to_string(), None, 1);
    let id2 = qm.enqueue("two".to_string(), None, 2);
    assert_eq!(qm.pending_queue, vec![id1, id2]);
    // at capacity: nothing is handed out
    assert!(qm.get_next_pending().is_none());
    qm.set_max_concurrent(1);
    assert_eq!(qm.get_next_pending(), Some(id1));
    assert_eq!(qm.get_next_pending(), Some(id2));
    assert_eq!(qm.get_next_pending(), None);
}

#[test]
fn test_clear_finished_queue_items() {
    let mut qm = QueueManager::new(2);
    let id1 = qm.enqueue("one".to_string(), None, 1);
    let id2 = qm.enqueue("two".to_string(), None, 2);
    let id3 = qm.enqueue("three".to_string(), None, 3);
    qm.start_processing(id1, 3);
    qm.complete(id1, "done", 4);
    qm.start_processing(id2, 4);

    qm.clear_finished_queue_items();
    assert!(qm.get_queue_item(id1).is_none());
    assert_eq!(qm.get_queue_item(id2).unwrap().status, "processing");
    assert_eq!(qm.get_queue_item(id3).unwrap().status, "pending");
    assert_eq!(qm.queue_len(), 2);
}

#[test]
fn test_queue_item_snapshot_fields() {
    let mut qm = QueueManager::new(1);
    let id = qm.enqueue("[{\"role\":\"system\"}]".to_string(), Some("watcher".to_string()), 99);
    let item = qm.get_queue_item(id).unwrap();
    assert_eq!(item.id, id);
    assert_eq!(item.message, "[{\"role\":\"system\"}]");
    assert_eq!(item.agent_name.as_deref(), Some("watcher"));
    assert_eq!(item.created_at, 99);
    assert!(qm.get_queue_item(id + 1).is_none());
}

#[test]
fn test_reclaim_expired_processing_items() {
    let mut qm = QueueManager::new(2);
    let id1 = qm.enqueue("one".to_string(), None, 100);
    let id2 = qm.enqueue("two".to_string(), None, 100);
    qm.start_processing(id1, 100);
    qm.start_processing(id2, 1500);

    // only the item whose lease ran out is reclaimed
    let reclaimed = qm.reclaim_expired(2000, 1000);
    assert_eq!(reclaimed, vec![id1]);
    assert_eq!(qm.current_running, 1);
    let failed = qm.get_queue_item(id1).unwrap();
    assert_eq!(failed.status, "failed");
    assert_eq!(failed.response.as_deref(), Some("Processing expired"));
    assert_eq!(failed.completed_at, Some(2000));
    assert_eq!(qm.get_queue_item(id2).unwrap().status, "processing");

    // nothing left to reclaim at the same instant
    assert_eq!(qm.reclaim_expired(2000, 1000), Vec::<i64>::new());
}
