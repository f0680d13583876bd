use dunst_in_gtk::queue::{NotifyAction, Pending, QueueState};

fn pending(id: u32) -> Pending {
    Pending {
        id,
        app_name: "t".into(),
        app_icon: String::new(),
        summary: format!("s{id}"),
        body: String::new(),
        actions: vec![],
        client: None,
        expire_timeout: 5000,
        urgency: 1,
    }
}

#[test]
fn unlimited_by_default() {
    let mut q = QueueState::new(0);
    for i in 1..=5 {
        assert_eq!(q.notify(&pending(i)), NotifyAction::ShowNow);
    }
    assert_eq!(q.displayed_len(), 5);
    assert_eq!(q.waiting_len(), 0);
}

#[test]
fn limit_queues_excess_and_promotes_fifo() {
    let mut q = QueueState::new(2);
    assert_eq!(q.notify(&pending(1)), NotifyAction::ShowNow);
    assert_eq!(q.notify(&pending(2)), NotifyAction::ShowNow);
    assert_eq!(q.notify(&pending(3)), NotifyAction::Queue);
    assert_eq!(q.notify(&pending(4)), NotifyAction::Queue);
    assert_eq!(q.waiting_len(), 2);

    // Closing one displayed notification promotes the oldest waiter.
    let promoted = q.display_closed().expect("a waiter");
    assert_eq!(promoted.id, 3);
    q.display_started();
    assert_eq!(q.displayed_len(), 2);
    assert_eq!(q.waiting_len(), 1);

    let promoted = q.display_closed().expect("a waiter");
    assert_eq!(promoted.id, 4);
    q.display_started();
    assert!(q.display_closed().is_none(), "nothing waiting");
    assert_eq!(q.displayed_len(), 1);
}

#[test]
fn paused_queues_everything_and_unpause_promotes() {
    let mut q = QueueState::new(1);
    q.set_paused(true);
    assert!(q.paused());
    assert_eq!(q.notify(&pending(1)), NotifyAction::Queue);
    assert_eq!(q.notify(&pending(2)), NotifyAction::Queue);
    assert_eq!(q.waiting_len(), 2);

    let promote = q.set_paused(false);
    assert_eq!(promote.len(), 1, "limit 1: only one promoted");
    assert_eq!(promote[0].id, 1);
    q.display_started();
    assert_eq!(q.waiting_len(), 1);

    // While paused, closing displayed notifications does not promote.
    q.set_paused(true);
    assert!(q.display_closed().is_none());
}

#[test]
fn paused_displayed_count_stays_consistent() {
    let mut q = QueueState::new(0);
    q.notify(&pending(1));
    q.set_paused(true);
    q.notify(&pending(2));
    assert_eq!(q.displayed_len(), 1);
    assert_eq!(q.waiting_len(), 1);
    q.set_paused(false);
    assert_eq!(q.waiting_len(), 0);
    assert_eq!(q.displayed_len(), 2);
}

#[test]
fn replace_updates_waiting_in_place() {
    let mut q = QueueState::new(1);
    q.set_paused(true);
    q.notify(&pending(7));
    assert!(q.replace_waiting(7, pending(7)));
    assert_eq!(q.waiting_len(), 1);
    assert!(!q.replace_waiting(99, pending(99)));
}

#[test]
fn remove_waiting_by_id() {
    let mut q = QueueState::new(0);
    q.set_paused(true);
    q.notify(&pending(1));
    q.notify(&pending(2));
    let removed = q.remove_waiting(1).expect("found");
    assert_eq!(removed.id, 1);
    assert_eq!(q.waiting_len(), 1);
    assert!(q.remove_waiting(42).is_none());
}

// ---------------------------------------------------------------- additions

#[test]
fn queued_then_removed_gives_back_the_same_notification() {
    let mut q = QueueState::new(1);
    q.notify(&pending(1));
    let mut p = pending(5);
    p.actions = vec![("default".to_string(), "Open".to_string())];
    p.client = Some(":1.42".to_string());
    assert_eq!(q.notify(&p), NotifyAction::Queue);
    let back = q.remove_waiting(5).expect("queued");
    assert_eq!(back.id, 5);
    assert_eq!(back.summary, "s5");
    assert_eq!(back.actions, vec![("default".to_string(), "Open".to_string())]);
    assert_eq!(back.client.as_deref(), Some(":1.42"));
    assert_eq!(q.waiting_len(), 0);
    assert_eq!(q.displayed_len(), 1);
}

#[test]
fn replace_keeps_queue_order() {
    let mut q = QueueState::new(0);
    q.set_paused(true);
    for i in 1..=3 {
        q.notify(&pending(i));
    }
    let mut newer = pending(2);
    newer.summary = "updated".to_string();
    assert!(q.replace_waiting(2, newer));
    let out = q.set_paused(false);
    let ids: Vec<u32> = out.iter().map(|p| p.id).collect();
    assert_eq!(ids, vec![1, 2, 3]);
    assert_eq!(out[1].summary, "updated");
    assert_eq!(q.displayed_len(), 3);
}

#[test]
fn close_without_room_promotes_nothing() {
    let mut q = QueueState::new(1);
    q.notify(&pending(1));
    q.display_started();
    q.notify(&pending(2));
    // two displayed (one over the limit), one closes: still no room
    assert!(q.display_closed().is_none());
    assert_eq!(q.displayed_len(), 1);
    assert_eq!(q.waiting_len(), 1);
}

#[test]
fn closing_with_nothing_displayed_saturates_at_zero() {
    let mut q = QueueState::new(0);
    assert!(q.display_closed().is_none());
    assert_eq!(q.displayed_len(), 0);
}

#[test]
fn paused_is_what_the_last_set_paused_set() {
    let mut q = QueueState::new(1);
    assert!(!q.paused());
    let _ = q.notify(&pending(1));
    q.display_started();
    assert!(!q.paused());
    let _ = q.set_paused(true);
    let _ = q.notify(&pending(2));
    let _ = q.display_closed();
    let _ = q.replace_waiting(2, pending(2));
    assert!(q.paused());
    let _ = q.set_paused(false);
    let _ = q.remove_waiting(9);
    assert!(!q.paused());
}
