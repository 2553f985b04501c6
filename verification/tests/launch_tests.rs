use quick_launcher::launch::{exit_code, repeat_count, RunEnd};

#[test]
fn count_of_zero_falls_back_to_default() {
    assert_eq!(repeat_count(&Some(String::from("0"))), 2);
}

#[test]
fn count_of_eleven_falls_back_to_default() {
    assert_eq!(repeat_count(&Some(String::from("11"))), 2);
}

#[test]
fn count_of_letters_falls_back_to_default() {
    assert_eq!(repeat_count(&Some(String::from("abc"))), 2);
}

#[test]
fn count_of_five_is_taken() {
    assert_eq!(repeat_count(&Some(String::from("5"))), 5);
}

#[test]
fn count_bounds_are_inclusive() {
    assert_eq!(repeat_count(&Some(String::from("1"))), 1);
    assert_eq!(repeat_count(&Some(String::from("10"))), 10);
}

#[test]
fn count_without_name_is_default() {
    assert_eq!(repeat_count(&None), 2);
}

#[test]
fn count_of_named_executable_is_default() {
    // A program file name normally carries its extension, which fails
    // the numeric parse.
    assert_eq!(repeat_count(&Some(String::from("5.exe"))), 2);
}

#[test]
fn exit_codes_follow_the_convention() {
    assert_eq!(exit_code(RunEnd::Launched), 0);
    assert_eq!(exit_code(RunEnd::Declined), 1);
    assert_eq!(exit_code(RunEnd::ResolvedInvalid), 2);
    assert_eq!(exit_code(RunEnd::ManualInvalid), 3);
    assert_eq!(exit_code(RunEnd::ManualNone), 4);
    assert_eq!(exit_code(RunEnd::NoResolution), 5);
}
