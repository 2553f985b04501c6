use quick_launcher::launch::{exit_code, RunEnd};
use quick_launcher::session::{Action, Event, Session};

fn expect_read(s: &Session, want: usize) {
    match s.current_action() {
        Action::ReadSource(i) => assert_eq!(i, want),
        _ => panic!("expected a source read"),
    }
}

fn expect_check(s: &Session, want: &str) {
    match s.current_action() {
        Action::CheckFile(p) => assert_eq!(p, want),
        _ => panic!("expected a file check"),
    }
}

fn expect_finish(s: &Session, want: RunEnd) {
    match s.current_action() {
        Action::Finish(e) => assert!(e == want),
        _ => panic!("expected the run to be over"),
    }
}

#[test]
fn declined_manual_entry_exits_one_with_no_write() {
    // Empty persisted store, no registry entries present, user declines.
    let mut s = Session::new(2);
    for i in 0..7 {
        expect_read(&s, i);
        s.step(Event::Value(None));
    }
    assert!(matches!(s.current_action(), Action::AskConfirm));
    s.step(Event::ConfirmIs(false));
    expect_finish(&s, RunEnd::Declined);
    assert_eq!(exit_code(RunEnd::Declined), 1);
    // The attempt list still names every source, in order.
    assert_eq!(s.tried, vec![0, 1, 2, 3, 4, 5, 6]);
}

#[test]
fn first_hit_wins_and_later_sources_are_never_probed() {
    let mut s = Session::new(3);
    expect_read(&s, 0);
    s.step(Event::Value(None));
    expect_read(&s, 1);
    s.step(Event::Value(Some(String::from(" C:\\Tencent\\Weixin "))));
    expect_check(&s, "C:\\Tencent\\Weixin\\WeChat.exe");
    s.step(Event::FileIs(false));
    expect_check(&s, "C:\\Tencent\\Weixin\\weixin.exe");
    s.step(Event::FileIs(true));
    // The final re-check of the resolved path, then the launch.
    expect_check(&s, "C:\\Tencent\\Weixin\\weixin.exe");
    s.step(Event::FileIs(true));
    // Exactly three launches, one action each.
    for _ in 0..3 {
        match s.current_action() {
            Action::LaunchOne(p) => assert_eq!(p, "C:\\Tencent\\Weixin\\weixin.exe"),
            _ => panic!("expected a launch"),
        }
        s.step(Event::LaunchResult(true));
    }
    expect_finish(&s, RunEnd::Launched);
    // Sources 2..=6 were never read: the attempt list stops at the winner.
    assert_eq!(s.tried, vec![0, 1]);
}

#[test]
fn stale_override_is_skipped_without_deletion() {
    let mut s = Session::new(2);
    expect_read(&s, 0);
    s.step(Event::Value(Some(String::from("C:\\gone\\WeChat.exe"))));
    expect_check(&s, "C:\\gone\\WeChat.exe");
    s.step(Event::FileIs(false));
    // Probing continues with the next source; no store action was issued.
    expect_read(&s, 1);
}

#[test]
fn override_takes_absolute_priority() {
    let mut s = Session::new(2);
    expect_read(&s, 0);
    s.step(Event::Value(Some(String::from("  D:\\kept\\we.bin "))));
    // Trusted as-is: no naming-convention check on the override.
    expect_check(&s, "D:\\kept\\we.bin");
    s.step(Event::FileIs(true));
    expect_check(&s, "D:\\kept\\we.bin");
    s.step(Event::FileIs(true));
    match s.current_action() {
        Action::LaunchOne(p) => assert_eq!(p, "D:\\kept\\we.bin"),
        _ => panic!("expected a launch"),
    }
    assert_eq!(s.tried, vec![0]);
}

#[test]
fn successful_manual_resolution_persists_exactly_that_path() {
    let mut s = Session::new(2);
    for _ in 0..7 {
        s.step(Event::Value(None));
    }
    s.step(Event::ConfirmIs(true));
    assert!(matches!(s.current_action(), Action::AskPick));
    s.step(Event::Picked(Some(String::from("E:\\pick\\WeChat.exe"))));
    expect_check(&s, "E:\\pick\\WeChat.exe");
    s.step(Event::FileIs(true));
    match s.current_action() {
        Action::SaveOverride(p) => assert_eq!(p, "E:\\pick\\WeChat.exe"),
        _ => panic!("expected the override write"),
    }
    s.step(Event::SaveDone(true));
    expect_check(&s, "E:\\pick\\WeChat.exe");
    s.step(Event::FileIs(true));
    match s.current_action() {
        Action::LaunchOne(p) => assert_eq!(p, "E:\\pick\\WeChat.exe"),
        _ => panic!("expected a launch"),
    }
    s.step(Event::LaunchResult(true));
    s.step(Event::LaunchResult(true));
    expect_finish(&s, RunEnd::Launched);
}

#[test]
fn failed_launch_does_not_shorten_the_loop() {
    let mut s = Session::new(3);
    s.step(Event::Value(Some(String::from("C:\\x.exe"))));
    s.step(Event::FileIs(true));
    s.step(Event::FileIs(true));
    // The middle launch fails; the loop still performs all three.
    let mut launches = 0;
    for result in [true, false, true] {
        match s.current_action() {
            Action::LaunchOne(_) => launches += 1,
            _ => panic!("expected a launch"),
        }
        s.step(Event::LaunchResult(result));
    }
    assert_eq!(launches, 3);
    expect_finish(&s, RunEnd::Launched);
}

#[test]
fn failed_override_write_is_only_a_warning() {
    let mut s = Session::new(2);
    for _ in 0..7 {
        s.step(Event::Value(None));
    }
    s.step(Event::ConfirmIs(true));
    s.step(Event::Picked(Some(String::from("E:\\p\\we.exe"))));
    s.step(Event::FileIs(true));
    s.step(Event::SaveDone(false));
    // The run still proceeds to the final check and the launch.
    expect_check(&s, "E:\\p\\we.exe");
}

#[test]
fn invalid_manual_path_exits_three() {
    let mut s = Session::new(2);
    for _ in 0..7 {
        s.step(Event::Value(None));
    }
    s.step(Event::ConfirmIs(true));
    s.step(Event::Picked(Some(String::from("E:\\nothing.exe"))));
    s.step(Event::FileIs(false));
    expect_finish(&s, RunEnd::ManualInvalid);
    assert_eq!(exit_code(RunEnd::ManualInvalid), 3);
}

#[test]
fn no_manual_path_entered_exits_four() {
    let mut s = Session::new(2);
    for _ in 0..7 {
        s.step(Event::Value(None));
    }
    s.step(Event::ConfirmIs(true));
    s.step(Event::Picked(None));
    expect_finish(&s, RunEnd::ManualNone);
    assert_eq!(exit_code(RunEnd::ManualNone), 4);
}

#[test]
fn vanished_resolved_path_exits_two() {
    let mut s = Session::new(2);
    s.step(Event::Value(Some(String::from("C:\\x.exe"))));
    s.step(Event::FileIs(true));
    // Found a moment ago, gone at the final re-check.
    s.step(Event::FileIs(false));
    expect_finish(&s, RunEnd::ResolvedInvalid);
    assert_eq!(exit_code(RunEnd::ResolvedInvalid), 2);
}

#[test]
fn empty_source_values_are_skipped() {
    let mut s = Session::new(2);
    s.step(Event::Value(Some(String::from("   "))));
    // A blank override value yields no candidate at all.
    expect_read(&s, 1);
}
