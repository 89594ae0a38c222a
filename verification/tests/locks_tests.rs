use orcascore::locks::LockTable;

#[test]
fn acquire_then_reacquire_reports_false() {
    let mut t = LockTable::new();
    let r1 = t.acquire_edit_lock(7, "user".to_string(), None, 1000).unwrap();
    assert!(r1);
    let r2 = t.acquire_edit_lock(7, "agent".to_string(), None, 1001).unwrap();
    assert!(!r2);
    assert_eq!(t.len(), 1);
}

#[test]
fn acquire_rejects_unknown_actor() {
    let mut t = LockTable::new();
    let r = t.acquire_edit_lock(1, "robot".to_string(), None, 0);
    assert_eq!(r.unwrap_err(), "locked_by must be 'agent' or 'user'");
    assert_eq!(t.len(), 0);
}

#[test]
fn release_then_acquire_succeeds() {
    let mut t = LockTable::new();
    assert!(t.acquire_edit_lock(3, "agent".to_string(), None, 10).unwrap());
    t.release_edit_lock(3).unwrap();
    assert!(t.acquire_edit_lock(3, "user".to_string(), None, 20).unwrap());
}

#[test]
fn release_of_unlocked_task_is_not_an_error() {
    let mut t = LockTable::new();
    assert!(t.release_edit_lock(42).is_ok());
}

#[test]
fn check_reports_holder() {
    let mut t = LockTable::new();
    assert!(t.acquire_edit_lock(7, "user".to_string(), None, 0).unwrap());
    let r2 = t.acquire_edit_lock(7, "agent".to_string(), None, 1).unwrap();
    assert!(!r2);
    let st = t.check_edit_lock(7).unwrap();
    assert!(st.is_locked);
    assert_eq!(st.locked_by.unwrap(), "user");
    let st2 = t.check_edit_lock(8).unwrap();
    assert!(!st2.is_locked);
    assert!(st2.locked_by.is_none());
}

#[test]
fn original_content_round_trip() {
    let mut t = LockTable::new();
    assert!(t
        .acquire_edit_lock(5, "agent".to_string(), Some("draft text".to_string()), 0)
        .unwrap());
    assert_eq!(t.get_original_content(5).unwrap().unwrap(), "draft text");
    assert!(t.get_original_content(6).unwrap().is_none());
    assert!(t.acquire_edit_lock(6, "user".to_string(), None, 0).unwrap());
    assert!(t.get_original_content(6).unwrap().is_none());
}

#[test]
fn force_release_all_counts() {
    let mut t = LockTable::new();
    assert!(t.acquire_edit_lock(1, "user".to_string(), None, 0).unwrap());
    assert!(t.acquire_edit_lock(2, "agent".to_string(), None, 0).unwrap());
    assert_eq!(t.force_release_all_locks().unwrap(), 2);
    assert_eq!(t.len(), 0);
    assert_eq!(t.force_release_all_locks().unwrap(), 0);
}

#[test]
fn cleanup_removes_exactly_the_stale_locks() {
    let mut t = LockTable::new();
    // ages at now=1000: 700, 300, 0 seconds
    assert!(t.acquire_edit_lock(1, "user".to_string(), None, 300).unwrap());
    assert!(t.acquire_edit_lock(2, "agent".to_string(), None, 700).unwrap());
    assert!(t.acquire_edit_lock(3, "user".to_string(), None, 1000).unwrap());
    // timeout 5 minutes: stale iff age > 300 s
    let removed = t.cleanup_stale_locks(5, 1000).unwrap();
    assert_eq!(removed, 1);
    assert!(!t.check_edit_lock(1).unwrap().is_locked);
    assert!(t.check_edit_lock(2).unwrap().is_locked);
    assert!(t.check_edit_lock(3).unwrap().is_locked);
}

#[test]
fn cleanup_boundary_is_strict() {
    let mut t = LockTable::new();
    assert!(t.acquire_edit_lock(1, "user".to_string(), None, 100).unwrap());
    // age exactly 5 minutes: kept
    assert_eq!(t.cleanup_stale_locks(5, 400).unwrap(), 0);
    assert!(t.check_edit_lock(1).unwrap().is_locked);
    // one second past the timeout: removed
    assert_eq!(t.cleanup_stale_locks(5, 401).unwrap(), 1);
    assert!(!t.check_edit_lock(1).unwrap().is_locked);
}

#[test]
fn cleanup_with_zero_timeout_keeps_only_fresh_locks() {
    let mut t = LockTable::new();
    assert!(t.acquire_edit_lock(1, "user".to_string(), None, 999).unwrap());
    assert!(t.acquire_edit_lock(2, "user".to_string(), None, 1000).unwrap());
    assert_eq!(t.cleanup_stale_locks(0, 1000).unwrap(), 1);
    assert!(!t.check_edit_lock(1).unwrap().is_locked);
    assert!(t.check_edit_lock(2).unwrap().is_locked);
}

#[test]
fn second_acquire_for_task_seven_keeps_first_holder() {
    let mut t = LockTable::new();
    assert!(t.acquire_edit_lock(7, "user".to_string(), None, 50).unwrap());
    let second = t.acquire_edit_lock(7, "agent".to_string(), None, 51).unwrap();
    assert!(!second);
    let st = t.check_edit_lock(7).unwrap();
    assert!(st.is_locked);
    assert_eq!(st.locked_by.unwrap(), "user");
}
