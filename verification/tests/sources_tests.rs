use quick_launcher::sources::{attempt_report, candidates_for, source_description, source_query,
    Hive, SOURCE_COUNT};

#[test]
fn source_table_is_the_fixed_order() {
    assert_eq!(SOURCE_COUNT, 7);

    let q0 = source_query(0);
    assert!(q0.hive == Hive::CurrentUser);
    assert_eq!(q0.subkey, "Software\\QuickLauncher\\Weixin");
    assert_eq!(q0.value_name, "UserSpecifiedPath");

    let q1 = source_query(1);
    assert!(q1.hive == Hive::CurrentUser);
    assert_eq!(q1.subkey, "Software\\Tencent\\Weixin");
    assert_eq!(q1.value_name, "InstallPath");

    let q2 = source_query(2);
    assert!(q2.hive == Hive::CurrentUser);
    assert_eq!(q2.subkey, "Software\\Tencent\\Weixin");
    assert_eq!(q2.value_name, "Path");

    let q3 = source_query(3);
    assert!(q3.hive == Hive::LocalMachine);
    assert_eq!(q3.subkey, "SOFTWARE\\Tencent\\WeChat");
    assert_eq!(q3.value_name, "InstallPath");

    let q4 = source_query(4);
    assert!(q4.hive == Hive::LocalMachine);
    assert_eq!(q4.subkey, "SOFTWARE\\WOW6432Node\\Tencent\\WeChat");
    assert_eq!(q4.value_name, "InstallPath");

    let q5 = source_query(5);
    assert!(q5.hive == Hive::LocalMachine);
    assert_eq!(q5.subkey, "SOFTWARE\\Tencent\\Weixin");
    assert_eq!(q5.value_name, "InstallPath");

    let q6 = source_query(6);
    assert!(q6.hive == Hive::LocalMachine);
    assert_eq!(q6.subkey, "SOFTWARE\\WOW6432Node\\Tencent\\Weixin");
    assert_eq!(q6.value_name, "InstallPath");
}

#[test]
fn source_descriptions_are_distinct() {
    let mut seen: Vec<String> = Vec::new();
    for i in 0..SOURCE_COUNT {
        let d = source_description(i);
        assert!(!seen.contains(&d));
        seen.push(d);
    }
}

#[test]
fn attempt_report_names_each_tried_source_in_order() {
    let report = attempt_report(&vec![0, 1]);
    let expected = format!(
        "The installation path was not found automatically.\nSources tried:\n{}\n{}\n",
        source_description(0),
        source_description(1)
    );
    assert_eq!(report, expected);
}

#[test]
fn missing_or_blank_value_yields_no_candidate() {
    assert!(candidates_for(1, &None).is_empty());
    assert!(candidates_for(1, &Some(String::from("   "))).is_empty());
    assert!(candidates_for(0, &Some(String::from(""))).is_empty());
}

#[test]
fn override_value_is_trusted_as_is() {
    let cs = candidates_for(0, &Some(String::from("  D:\\anything.bin  ")));
    assert_eq!(cs, vec![String::from("D:\\anything.bin")]);
}

#[test]
fn directory_value_tries_both_conventional_names() {
    let cs = candidates_for(1, &Some(String::from(" C:\\Program Files\\Tencent\\Weixin ")));
    assert_eq!(
        cs,
        vec![
            String::from("C:\\Program Files\\Tencent\\Weixin\\WeChat.exe"),
            String::from("C:\\Program Files\\Tencent\\Weixin\\weixin.exe"),
        ]
    );
}

#[test]
fn executable_value_is_tried_directly_first() {
    let cs = candidates_for(3, &Some(String::from("C:\\T\\WeChat.EXE")));
    assert_eq!(
        cs,
        vec![
            String::from("C:\\T\\WeChat.EXE"),
            String::from("C:\\T\\WeChat.EXE\\WeChat.exe"),
            String::from("C:\\T\\WeChat.EXE\\weixin.exe"),
        ]
    );
}

#[test]
fn trailing_separator_gets_no_second_separator() {
    let cs = candidates_for(1, &Some(String::from("C:\\T\\")));
    assert_eq!(
        cs,
        vec![String::from("C:\\T\\WeChat.exe"), String::from("C:\\T\\weixin.exe")]
    );
}
