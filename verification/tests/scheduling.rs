use weather_services::weather::fan_out::{FanOut, TaskState};

#[test]
fn tasks_start_created() {
    let f = FanOut::new(10, 3);
    assert_eq!(f.len(), 3);
    assert_eq!(f.in_flight(), 0);
    assert_eq!(f.state(0), Some(TaskState::Created));
    assert_eq!(f.state(2), Some(TaskState::Created));
    assert_eq!(f.state(3), None);
}

#[test]
fn a_task_runs_through_its_states() {
    let mut f = FanOut::new(10, 1);
    assert!(!f.grant(0));
    assert!(f.start(0, false));
    assert_eq!(f.state(0), Some(TaskState::Waiting));
    assert!(!f.start(0, false));
    assert!(!f.finish(0));
    assert!(f.grant(0));
    assert_eq!(f.state(0), Some(TaskState::Fetching));
    assert_eq!(f.in_flight(), 1);
    assert!(f.finish(0));
    assert_eq!(f.state(0), Some(TaskState::Done));
    assert_eq!(f.in_flight(), 0);
    assert!(!f.cancel(0));
    assert!(!f.grant(0));
}

#[test]
fn a_cancelled_request_ends_the_task_before_it_waits() {
    let mut f = FanOut::new(10, 2);
    assert!(f.start(0, true));
    assert_eq!(f.state(0), Some(TaskState::Cancelled));
    assert!(!f.grant(0));
    assert!(!f.cancel(0));
    assert!(f.cancel(1));
    assert_eq!(f.state(1), Some(TaskState::Cancelled));
}

#[test]
fn no_more_tasks_fetch_than_there_are_permits() {
    let mut f = FanOut::new(10, 20);
    for i in 0..20 {
        assert!(f.start(i, false));
    }
    for i in 0..20 {
        assert_eq!(f.grant(i), i < 10);
        assert!(f.in_flight() <= 10);
    }
    assert_eq!(f.in_flight(), 10);
    assert_eq!(f.state(10), Some(TaskState::Waiting));
    assert!(f.finish(4));
    assert_eq!(f.in_flight(), 9);
    assert!(f.grant(10));
    assert!(!f.grant(11));
    assert!(f.cancel(0));
    assert_eq!(f.state(0), Some(TaskState::Cancelled));
    assert_eq!(f.in_flight(), 9);
    assert!(f.grant(11));
    assert_eq!(f.in_flight(), 10);
    assert!(f.cancel(12));
    assert_eq!(f.in_flight(), 10);
}

#[test]
fn without_permits_nothing_fetches() {
    let mut f = FanOut::new(0, 2);
    assert!(f.start(0, false));
    assert!(!f.grant(0));
    assert_eq!(f.in_flight(), 0);
    assert!(!f.start(5, false));
    assert!(!f.cancel(5));
    assert!(!f.finish(5));
}
