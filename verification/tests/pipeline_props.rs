use screengrab::clock::current_timestamp;
use screengrab::guard::{ensure_ready, ensure_ready_action, ensure_ready_verdict, DirAction, DirState};
use screengrab::hotkey::{capture_key, classify, InputEvent, KeyIdent, Platform, Verdict};
use screengrab::orchestrator::{
    plan_batch, plan_batch_now, summarize, BatchError, BatchStatus, FailureKind, StepOutcome,
};
use screengrab::resolve::resolve_target;

const TS: &str = "2024-01-02_03-04-05.678";

#[test]
fn ensure_ready_is_idempotent() {
    let start = DirState { present: false, creatable: true };
    let (after_first, ok_first) = ensure_ready(start);
    assert!(ok_first);
    assert!(after_first.present);
    let (after_second, ok_second) = ensure_ready(after_first);
    assert!(ok_second);
    assert_eq!(after_second, after_first);

    assert_eq!(ensure_ready_action(true), DirAction::AlreadyReady);
    assert_eq!(ensure_ready_action(false), DirAction::Create);
}

#[test]
fn ensure_ready_reports_creation_failure() {
    let (state, ok) = ensure_ready(DirState { present: false, creatable: false });
    assert!(!ok);
    assert!(!state.present);

    assert!(ensure_ready_verdict(true, None).is_ok());
    assert!(ensure_ready_verdict(false, None).is_ok());
    let err = ensure_ready_verdict(false, Some("permission denied".to_string()));
    match err {
        Err(e) => assert_eq!(e.cause, "permission denied"),
        Ok(()) => panic!("creation failure must be reported"),
    }
}

#[test]
fn zero_displays_is_an_error_and_writes_nothing() {
    let names: Vec<Option<String>> = Vec::new();
    match plan_batch(TS, &names) {
        Err(BatchError::NoDisplays) => {}
        _ => panic!("empty enumeration must yield NoDisplays"),
    }
    let report = summarize(&Vec::new());
    assert_eq!(report.written, 0);
    assert!(report.failures.is_empty());
}

#[test]
fn one_bad_display_does_not_hide_the_others() {
    let outcomes = vec![
        StepOutcome::Written,
        StepOutcome::CaptureFailed("grab failed".to_string()),
        StepOutcome::Written,
    ];
    let report = summarize(&outcomes);
    assert_eq!(report.written, 2);
    assert_eq!(report.failures.len(), 1);
    assert_eq!(report.failures[0].ordinal, 1);
    assert_eq!(report.failures[0].kind, FailureKind::Capture);
    assert_eq!(report.failures[0].cause, "grab failed");
    assert_eq!(report.status(), BatchStatus::PartialSuccess);
    match report.into_result() {
        Err(BatchError::DisplayFailures(fs)) => assert_eq!(fs.len(), 1),
        _ => panic!("a failing display must surface in the result"),
    }
}

#[test]
fn write_failures_are_reported_like_capture_failures() {
    let outcomes = vec![
        StepOutcome::WriteFailed("disk full".to_string()),
        StepOutcome::WriteFailed("disk full".to_string()),
    ];
    let report = summarize(&outcomes);
    assert_eq!(report.written, 0);
    assert_eq!(report.failures.len(), 2);
    assert_eq!(report.failures[0].kind, FailureKind::Write);
    assert_eq!(report.failures[1].ordinal, 1);
    assert_eq!(report.status(), BatchStatus::FullFailure);
}

#[test]
fn full_success_counts_every_display() {
    let outcomes = vec![StepOutcome::Written, StepOutcome::Written, StepOutcome::Written];
    let report = summarize(&outcomes);
    assert_eq!(report.written, 3);
    assert!(report.failures.is_empty());
    assert_eq!(report.status(), BatchStatus::FullSuccess);
    assert_eq!(report.into_result().unwrap(), 3);
}

#[test]
fn only_the_capture_press_is_consumed() {
    let events = [
        InputEvent::KeyPress(KeyIdent::OtherKey),
        InputEvent::KeyPress(KeyIdent::PrintScreen),
        InputEvent::KeyRelease(KeyIdent::PrintScreen),
        InputEvent::KeyPress(KeyIdent::F9),
        InputEvent::Other,
    ];
    let mut batches = 0;
    for e in &events {
        if classify(e, Platform::Mainstream) == Verdict::Consume {
            batches += 1;
            let names = vec![Some("Main".to_string())];
            assert!(plan_batch(TS, &names).is_ok());
        }
    }
    assert_eq!(batches, 1);

    assert_eq!(
        classify(&InputEvent::KeyPress(KeyIdent::F9), Platform::MacOs),
        Verdict::Consume
    );
    assert_eq!(
        classify(&InputEvent::KeyPress(KeyIdent::PrintScreen), Platform::MacOs),
        Verdict::PassThrough
    );
    assert_eq!(capture_key(Platform::MacOs), KeyIdent::F9);
    assert_eq!(capture_key(Platform::Mainstream), KeyIdent::PrintScreen);
}

#[test]
fn end_to_end_two_displays_one_missing_directory() {
    // The target directory does not exist yet; the guard creates it.
    let dir = DirState { present: false, creatable: true };
    assert_eq!(ensure_ready_action(dir.present), DirAction::Create);
    let (dir, ok) = ensure_ready(dir);
    assert!(ok && dir.present);

    // One press of the designated key starts exactly one batch.
    let press = InputEvent::KeyPress(KeyIdent::PrintScreen);
    assert_eq!(classify(&press, Platform::Mainstream), Verdict::Consume);

    // Two displays, named "Main" and "": two files, sharing the timestamp.
    let names = vec![Some("Main".to_string()), Some(String::new())];
    let files = plan_batch(TS, &names).expect("two displays plan");
    assert_eq!(
        files,
        vec![format!("{TS}-0-Main.png"), format!("{TS}-1-monitor1.png")]
    );

    let report = summarize(&vec![StepOutcome::Written, StepOutcome::Written]);
    assert_eq!(report.written, 2);
    assert_eq!(report.status(), BatchStatus::FullSuccess);
}

#[test]
fn timestamps_have_the_sortable_shape() {
    let ts = current_timestamp().expect("the clock reads after the epoch");
    let bytes = ts.as_bytes();
    assert_eq!(bytes.len(), 23, "unexpected timestamp {ts:?}");
    for (i, b) in bytes.iter().enumerate() {
        match i {
            4 | 7 | 13 | 16 => assert_eq!(*b, b'-', "in {ts:?}"),
            10 => assert_eq!(*b, b'_', "in {ts:?}"),
            19 => assert_eq!(*b, b'.', "in {ts:?}"),
            _ => assert!(b.is_ascii_digit(), "in {ts:?}"),
        }
    }
}

#[test]
fn planning_against_the_clock_shares_one_timestamp() {
    let names = vec![Some("Main".to_string()), None];
    let (ts, files) = plan_batch_now(&names).expect("two displays and a live clock");
    assert_eq!(files.len(), 2);
    assert_eq!(files[0], format!("{ts}-0-Main.png"));
    assert_eq!(files[1], format!("{ts}-1-monitor1.png"));

    let empty: Vec<Option<String>> = Vec::new();
    match plan_batch_now(&empty) {
        Err(BatchError::NoDisplays) => {}
        _ => panic!("empty enumeration must yield NoDisplays before the clock is read"),
    }
}

#[test]
fn target_path_resolution() {
    assert_eq!(resolve_target("/home/me", None), "/home/me/screens");
    assert_eq!(resolve_target("/home/me", Some("shots".to_string())), "/home/me/shots");
    assert_eq!(resolve_target("/home/me/", Some("shots".to_string())), "/home/me/shots");
    assert_eq!(resolve_target("/home/me", Some("/tmp/shots".to_string())), "/tmp/shots");
    assert_eq!(resolve_target("", None), "/screens");
}
