use folio::duration::parse_duration_ms;
use folio::files::{expiry_removes, Entry};
use folio::uploads::{Upload, UploadAction, UploadEvent};
use folio::workflow::{
    backoff_ms, next_exec, ExpirationTask, FileExpirationInput, RetryPolicy, TaskAction, TaskEvent,
    TaskState,
};

fn task(ttl_ms: u64, created_ms: u64) -> ExpirationTask {
    ExpirationTask::new(FileExpirationInput { path: "/srv/up/a.txt".to_string(), ttl_ms }, created_ms)
}

#[test]
fn deadline_is_creation_plus_ttl() {
    let t = task(1_000, 5_000);
    assert_eq!(t.deadline_ms, 6_000);
    assert_eq!(t.state, TaskState::Scheduled);
    assert_eq!(task(10, u64::MAX - 3).deadline_ms, u64::MAX);
}

#[test]
fn waits_then_deletes_once() {
    let p = RetryPolicy::standard();
    let mut t = task(1_000, 0);
    assert_eq!(t.step(&p, TaskEvent::Resumed { now_ms: 0 }), TaskAction::Wait { until_ms: 1_000 });
    assert_eq!(t.state, TaskState::Waiting);
    assert_eq!(
        t.step(&p, TaskEvent::TimerFired { now_ms: 1_000 }),
        TaskAction::Delete { attempt: 1, timeout_ms: 10_000 }
    );
    assert_eq!(t.step(&p, TaskEvent::DeletionSucceeded), TaskAction::Finish);
    assert_eq!(t.state, TaskState::Completed);
    assert_eq!(t.step(&p, TaskEvent::TimerFired { now_ms: 9_999 }), TaskAction::Idle);
    assert_eq!(t.state, TaskState::Completed);
}

#[test]
fn restart_keeps_the_original_deadline() {
    let p = RetryPolicy::standard();
    let mut t = task(60_000, 1_000);
    t.step(&p, TaskEvent::Resumed { now_ms: 1_000 });
    // The process restarts half way through.
    assert_eq!(t.step(&p, TaskEvent::Resumed { now_ms: 30_000 }), TaskAction::Wait { until_ms: 61_000 });
    // After the deadline passed while the process was down, deletion starts at once.
    assert_eq!(
        t.step(&p, TaskEvent::Resumed { now_ms: 90_000 }),
        TaskAction::Delete { attempt: 1, timeout_ms: 10_000 }
    );
}

#[test]
fn early_timer_waits_again() {
    let p = RetryPolicy::standard();
    let mut t = task(1_000, 0);
    assert_eq!(t.step(&p, TaskEvent::TimerFired { now_ms: 999 }), TaskAction::Wait { until_ms: 1_000 });
}

#[test]
fn failures_back_off_and_retry() {
    let p = RetryPolicy::standard();
    let mut t = task(0, 0);
    t.step(&p, TaskEvent::Resumed { now_ms: 0 });
    assert_eq!(t.step(&p, TaskEvent::DeletionFailed { now_ms: 100 }), TaskAction::Wait { until_ms: 1_100 });
    assert_eq!(t.state, TaskState::Retrying { attempt: 1, retry_at_ms: 1_100 });
    assert_eq!(t.step(&p, TaskEvent::TimerFired { now_ms: 1_000 }), TaskAction::Wait { until_ms: 1_100 });
    assert_eq!(
        t.step(&p, TaskEvent::TimerFired { now_ms: 1_100 }),
        TaskAction::Delete { attempt: 2, timeout_ms: 10_000 }
    );
    assert_eq!(t.step(&p, TaskEvent::DeletionFailed { now_ms: 2_000 }), TaskAction::Wait { until_ms: 4_000 });
}

#[test]
fn crash_during_deletion_runs_the_same_try_again() {
    let p = RetryPolicy::standard();
    let mut t = task(0, 0);
    t.step(&p, TaskEvent::Resumed { now_ms: 0 });
    assert_eq!(
        t.step(&p, TaskEvent::Resumed { now_ms: 50 }),
        TaskAction::Delete { attempt: 1, timeout_ms: 10_000 }
    );
}

#[test]
fn gives_up_after_the_last_try() {
    let p = RetryPolicy { max_attempts: 2, attempt_timeout_ms: 5, initial_backoff_ms: 1, max_backoff_ms: 1 };
    let mut t = task(0, 0);
    t.step(&p, TaskEvent::Resumed { now_ms: 0 });
    assert_eq!(t.step(&p, TaskEvent::DeletionFailed { now_ms: 0 }), TaskAction::Wait { until_ms: 1 });
    assert_eq!(t.step(&p, TaskEvent::TimerFired { now_ms: 1 }), TaskAction::Delete { attempt: 2, timeout_ms: 5 });
    assert_eq!(t.step(&p, TaskEvent::DeletionFailed { now_ms: 2 }), TaskAction::GiveUp);
    assert_eq!(t.state, TaskState::Abandoned);
    assert_eq!(t.step(&p, TaskEvent::Resumed { now_ms: 3 }), TaskAction::Idle);
}

#[test]
fn backoff_doubles_up_to_the_cap() {
    let p = RetryPolicy::standard();
    assert_eq!(backoff_ms(&p, 1), 1_000);
    assert_eq!(backoff_ms(&p, 2), 2_000);
    assert_eq!(backoff_ms(&p, 3), 4_000);
    assert_eq!(backoff_ms(&p, 7), 64_000);
    assert_eq!(backoff_ms(&p, 8), 100_000);
    assert_eq!(backoff_ms(&p, 40), 100_000);
    let odd = RetryPolicy { max_attempts: 3, attempt_timeout_ms: 1, initial_backoff_ms: 7, max_backoff_ms: 5 };
    assert_eq!(backoff_ms(&odd, 1), 5);
}

#[test]
fn retry_time_saturates() {
    let p = RetryPolicy::standard();
    let (s, a) = next_exec(TaskState::Dispatching { attempt: 1 }, 0, &p, TaskEvent::DeletionFailed { now_ms: u64::MAX - 1 });
    assert_eq!(a, TaskAction::Wait { until_ms: u64::MAX });
    assert_eq!(s, TaskState::Retrying { attempt: 1, retry_at_ms: u64::MAX });
}

#[test]
fn stray_events_are_ignored() {
    let p = RetryPolicy::standard();
    let mut t = task(1_000, 0);
    assert_eq!(t.step(&p, TaskEvent::DeletionSucceeded), TaskAction::Idle);
    assert_eq!(t.state, TaskState::Scheduled);
}

#[test]
fn upload_then_expire_after_one_second() {
    let ttl = parse_duration_ms("1s").unwrap();
    let (mut upload, first) = Upload::start(Some("txt".to_string()), Some(ttl));
    let name = match first {
        UploadAction::CheckName { file_name } => file_name,
        _ => panic!("expected a name check"),
    };
    upload.on_event(UploadEvent::NameChecked { taken: false });
    let (file_name, ttl_ms) = match upload.on_event(UploadEvent::Stored { failure: None }) {
        UploadAction::RegisterExpiry { file_name, ttl_ms } => (file_name, ttl_ms),
        _ => panic!("expected an expiry"),
    };
    assert_eq!(file_name, name);
    let location = match upload.on_event(UploadEvent::ExpiryRegistered { failure: None }) {
        UploadAction::Respond { reply } => reply.location.unwrap(),
        _ => panic!("expected a reply"),
    };
    let id = location.strip_prefix("/files/").unwrap().strip_suffix(".txt").unwrap();
    assert_eq!(id.len(), 8);
    assert!(id.chars().all(|c| c.is_ascii_alphanumeric()));

    let p = RetryPolicy::standard();
    let mut t = ExpirationTask::new(FileExpirationInput { path: file_name, ttl_ms }, 10_000);
    assert_eq!(t.step(&p, TaskEvent::Resumed { now_ms: 10_000 }), TaskAction::Wait { until_ms: 11_000 });
    assert!(matches!(t.step(&p, TaskEvent::TimerFired { now_ms: 11_050 }), TaskAction::Delete { .. }));
    assert!(expiry_removes(Entry::File));
    assert_eq!(t.step(&p, TaskEvent::DeletionSucceeded), TaskAction::Finish);
}
