use notification_dispatcher::status::{Status, StatusEvent};

#[test]
fn status_texts_round_trip() {
    for status in [Status::Pending, Status::Running, Status::Done, Status::Failed] {
        let text = status.as_str().to_string();
        assert_eq!(Status::parse(&text), Some(status));
    }
    assert_eq!(Status::parse(&"sent".to_string()), None);
    assert_eq!(Status::parse(&"".to_string()), None);
    assert_eq!(Status::parse(&"Done".to_string()), None);
}

#[test]
fn status_steps_follow_the_lifecycle() {
    assert_eq!(Status::Pending.step(StatusEvent::Start), Some(Status::Running));
    assert_eq!(Status::Running.step(StatusEvent::Succeed), Some(Status::Done));
    assert_eq!(Status::Running.step(StatusEvent::Fail), Some(Status::Failed));
    assert_eq!(Status::Pending.step(StatusEvent::Succeed), None);
    assert_eq!(Status::Pending.step(StatusEvent::Fail), None);
    assert_eq!(Status::Running.step(StatusEvent::Start), None);
}

#[test]
fn terminal_statuses_accept_no_event() {
    for status in [Status::Done, Status::Failed] {
        assert!(status.is_terminal());
        for event in [StatusEvent::Start, StatusEvent::Succeed, StatusEvent::Fail] {
            assert_eq!(status.step(event), None);
        }
    }
    assert!(!Status::Pending.is_terminal());
    assert!(!Status::Running.is_terminal());
}
