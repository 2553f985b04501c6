use quick_launcher::batch::{batch_failures, is_failure_code, reason_for_code, reason_message,
    shortcut_targets, BatchAction, BatchEnd, BatchEvent, BatchSession, FailureReason,
    LaunchFailure, ShellOpenResult};

fn outcome(path: &str, code: usize) -> ShellOpenResult {
    ShellOpenResult { path: String::from(path), code }
}

#[test]
fn only_shortcut_files_are_launched() {
    let files = vec![
        String::from("d\\a.lnk"),
        String::from("d\\b.lnk"),
        String::from("d\\c.txt"),
    ];
    let targets = shortcut_targets(&files);
    assert_eq!(targets, vec![String::from("d\\a.lnk"), String::from("d\\b.lnk")]);
}

#[test]
fn shortcut_filter_is_case_sensitive() {
    let files = vec![String::from("d\\a.LNK"), String::from("d\\b.lnk")];
    assert_eq!(shortcut_targets(&files), vec![String::from("d\\b.lnk")]);
}

#[test]
fn failure_threshold_is_thirty_two() {
    assert!(is_failure_code(0));
    assert!(is_failure_code(32));
    assert!(!is_failure_code(33));
    assert!(!is_failure_code(42));
}

#[test]
fn code_table_matches_the_fixed_mapping() {
    assert!(reason_for_code(0) == FailureReason::OutOfResources);
    assert!(reason_for_code(2) == FailureReason::FileNotFound);
    assert!(reason_for_code(3) == FailureReason::PathNotFound);
    assert!(reason_for_code(5) == FailureReason::AccessDenied);
    assert!(reason_for_code(8) == FailureReason::OutOfMemory);
    assert!(reason_for_code(11) == FailureReason::InvalidFormat);
    assert!(reason_for_code(26) == FailureReason::SharingViolation);
    assert!(reason_for_code(27) == FailureReason::IncompleteAssociation);
    assert!(reason_for_code(28) == FailureReason::DdeTimeout);
    assert!(reason_for_code(29) == FailureReason::DdeFailed);
    assert!(reason_for_code(30) == FailureReason::DdeBusy);
    assert!(reason_for_code(31) == FailureReason::DdeNoResponse);
    assert!(reason_for_code(32) == FailureReason::DdeAdviseTimeout);
    // The table is total: unmapped codes take the explicit default.
    assert!(reason_for_code(1) == FailureReason::Unknown);
    assert!(reason_for_code(4) == FailureReason::Unknown);
    assert!(reason_for_code(9999) == FailureReason::Unknown);
}

#[test]
fn reason_messages_name_the_condition() {
    assert_eq!(reason_message(FailureReason::FileNotFound), "file not found");
    assert_eq!(reason_message(FailureReason::AccessDenied), "access denied");
    assert_eq!(reason_message(FailureReason::Unknown), "unknown error");
}

#[test]
fn single_failing_worker_yields_one_attributed_failure() {
    let results = vec![
        outcome("d\\a.lnk", 42),
        outcome("d\\b.lnk", 2),
        outcome("d\\c.lnk", 42),
    ];
    let fails: Vec<LaunchFailure> = batch_failures(&results);
    assert_eq!(fails.len(), 1);
    assert_eq!(fails[0].path, "d\\b.lnk");
    assert_eq!(fails[0].code, 2);
    assert!(fails[0].reason == FailureReason::FileNotFound);
}

#[test]
fn all_successes_yield_no_failure() {
    let results = vec![outcome("d\\a.lnk", 42), outcome("d\\b.lnk", 33)];
    assert!(batch_failures(&results).is_empty());
}

#[test]
fn failures_keep_report_order_and_classification() {
    let results = vec![
        outcome("d\\a.lnk", 5),
        outcome("d\\b.lnk", 42),
        outcome("d\\c.lnk", 0),
    ];
    let fails = batch_failures(&results);
    assert_eq!(fails.len(), 2);
    assert_eq!(fails[0].path, "d\\a.lnk");
    assert!(fails[0].reason == FailureReason::AccessDenied);
    assert_eq!(fails[1].path, "d\\c.lnk");
    assert!(fails[1].reason == FailureReason::OutOfResources);
}

#[test]
fn stored_directory_is_used_as_is() {
    let mut s = BatchSession::new();
    assert!(matches!(s.current_action(), BatchAction::ReadDir));
    s.step(BatchEvent::Value(Some(String::from("  C:\\Shortcuts "))));
    match s.current_action() {
        BatchAction::CheckDir(d) => assert_eq!(d, "C:\\Shortcuts"),
        _ => panic!("expected the directory check"),
    }
    s.step(BatchEvent::DirIs(true));
    match s.current_action() {
        BatchAction::LaunchAll(d) => assert_eq!(d, "C:\\Shortcuts"),
        _ => panic!("expected the batch launch"),
    }
    s.step(BatchEvent::LaunchDone);
    match s.current_action() {
        BatchAction::Finish(e) => assert!(e == BatchEnd::Launched),
        _ => panic!("expected the run to be over"),
    }
}

#[test]
fn first_run_picks_saves_then_launches() {
    let mut s = BatchSession::new();
    s.step(BatchEvent::Value(None));
    assert!(matches!(s.current_action(), BatchAction::AskConfirm));
    s.step(BatchEvent::ConfirmIs(true));
    assert!(matches!(s.current_action(), BatchAction::AskPick));
    s.step(BatchEvent::Picked(Some(String::from("D:\\Links"))));
    match s.current_action() {
        BatchAction::SaveDir(d) => assert_eq!(d, "D:\\Links"),
        _ => panic!("expected the directory write"),
    }
    s.step(BatchEvent::SaveDone(true));
    match s.current_action() {
        BatchAction::LaunchAll(d) => assert_eq!(d, "D:\\Links"),
        _ => panic!("expected the batch launch"),
    }
}

#[test]
fn stale_stored_directory_falls_back_to_the_prompt() {
    let mut s = BatchSession::new();
    s.step(BatchEvent::Value(Some(String::from("C:\\gone"))));
    s.step(BatchEvent::DirIs(false));
    assert!(matches!(s.current_action(), BatchAction::AskConfirm));
}

#[test]
fn failed_directory_write_is_only_a_warning() {
    let mut s = BatchSession::new();
    s.step(BatchEvent::Value(None));
    s.step(BatchEvent::ConfirmIs(true));
    s.step(BatchEvent::Picked(Some(String::from("D:\\Links"))));
    s.step(BatchEvent::SaveDone(false));
    // The write failure does not end the run: the batch still launches
    // the in-memory directory.
    match s.current_action() {
        BatchAction::LaunchAll(d) => assert_eq!(d, "D:\\Links"),
        _ => panic!("expected the batch launch"),
    }
    s.step(BatchEvent::LaunchDone);
    match s.current_action() {
        BatchAction::Finish(e) => assert!(e == BatchEnd::Launched),
        _ => panic!("expected the run to be over"),
    }
}

#[test]
fn declined_prompt_chooses_no_directory() {
    let mut s = BatchSession::new();
    s.step(BatchEvent::Value(None));
    s.step(BatchEvent::ConfirmIs(false));
    match s.current_action() {
        BatchAction::Finish(e) => assert!(e == BatchEnd::NoDirChosen),
        _ => panic!("expected the run to be over"),
    }
}

#[test]
fn nothing_picked_chooses_no_directory() {
    let mut s = BatchSession::new();
    s.step(BatchEvent::Value(None));
    s.step(BatchEvent::ConfirmIs(true));
    s.step(BatchEvent::Picked(None));
    match s.current_action() {
        BatchAction::Finish(e) => assert!(e == BatchEnd::NoDirChosen),
        _ => panic!("expected the run to be over"),
    }
}
