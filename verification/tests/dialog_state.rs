use native::dialog::state::{collect_present, SharedState};

#[test]
fn sent_result_is_polled_once() {
    let mut s: SharedState<&str, u8> = SharedState::new();
    assert_eq!(s.send_result("done"), None);
    assert_eq!(s.poll(1), Some("done"));
    assert_eq!(s.poll(2), None);
    assert_eq!(s.waker, Some(2));
}

#[test]
fn pending_poll_waker_is_woken() {
    let mut s: SharedState<u32, &str> = SharedState::new();
    assert_eq!(s.poll("task"), None);
    assert_eq!(s.send_result(4), Some("task"));
    assert_eq!(s.waker, None);
    assert_eq!(s.poll("again"), Some(4));
}

#[test]
fn last_sent_result_is_polled() {
    let mut s: SharedState<u32, u8> = SharedState::new();
    s.send_result(1);
    s.send_result(2);
    assert_eq!(s.poll(0), Some(2));
}

#[test]
fn ready_poll_keeps_waker() {
    let mut s: SharedState<u32, u8> = SharedState::new();
    s.poll(3);
    s.result = Some(5);
    assert_eq!(s.poll(4), Some(5));
    assert_eq!(s.waker, Some(3));
}

#[test]
fn collect_present_keeps_order() {
    let v = vec![None, Some("b".to_string()), None, Some("a".to_string())];
    assert_eq!(collect_present(&v), vec!["b".to_string(), "a".to_string()]);
    assert!(collect_present(&vec![]).is_empty());
}
