use quick_launcher::text::{chars_of, join_path, parse_u32, path_has_exe_ext, path_has_lnk_ext,
    trim_spaces};

#[test]
fn trim_removes_surrounding_whitespace() {
    assert_eq!(trim_spaces("  C:\\a\\b.exe  "), "C:\\a\\b.exe");
    assert_eq!(trim_spaces("\t x \r\n"), "x");
    assert_eq!(trim_spaces("inner space kept  "), "inner space kept");
}

#[test]
fn trim_of_blank_is_empty() {
    assert_eq!(trim_spaces(""), "");
    assert_eq!(trim_spaces("   "), "");
    assert_eq!(trim_spaces("\t\r\n"), "");
}

#[test]
fn trim_handles_unicode_whitespace() {
    assert_eq!(trim_spaces("\u{00A0}path\u{3000}"), "path");
}

#[test]
fn join_inserts_separator_when_needed() {
    assert_eq!(join_path("C:\\dir", "WeChat.exe"), "C:\\dir\\WeChat.exe");
    assert_eq!(join_path("C:\\dir\\", "weixin.exe"), "C:\\dir\\weixin.exe");
    assert_eq!(join_path("C:/dir/", "weixin.exe"), "C:/dir/weixin.exe");
}

#[test]
fn exe_extension_ignores_ascii_case() {
    assert!(path_has_exe_ext(&chars_of("C:\\a\\b.exe")));
    assert!(path_has_exe_ext(&chars_of("C:\\a\\b.EXE")));
    assert!(path_has_exe_ext(&chars_of("b.Exe")));
    assert!(!path_has_exe_ext(&chars_of("C:\\a\\b.txt")));
    assert!(!path_has_exe_ext(&chars_of("C:\\a\\exe")));
    assert!(!path_has_exe_ext(&chars_of(".exe")));
    assert!(!path_has_exe_ext(&chars_of("C:\\a.exe\\")));
    assert!(!path_has_exe_ext(&chars_of("")));
}

#[test]
fn lnk_extension_is_case_sensitive() {
    assert!(path_has_lnk_ext(&chars_of("d\\a.lnk")));
    assert!(!path_has_lnk_ext(&chars_of("d\\a.LNK")));
    assert!(!path_has_lnk_ext(&chars_of("d\\c.txt")));
    assert!(!path_has_lnk_ext(&chars_of("d\\lnk")));
}

#[test]
fn parse_accepts_plain_and_signed_numerals() {
    assert_eq!(parse_u32("5"), Some(5));
    assert_eq!(parse_u32("0"), Some(0));
    assert_eq!(parse_u32("007"), Some(7));
    assert_eq!(parse_u32("+12"), Some(12));
    assert_eq!(parse_u32("4294967295"), Some(u32::MAX));
}

#[test]
fn parse_rejects_junk_and_overflow() {
    assert_eq!(parse_u32(""), None);
    assert_eq!(parse_u32("+"), None);
    assert_eq!(parse_u32("abc"), None);
    assert_eq!(parse_u32("5.exe"), None);
    assert_eq!(parse_u32("-5"), None);
    assert_eq!(parse_u32(" 5"), None);
    assert_eq!(parse_u32("4294967296"), None);
    assert_eq!(parse_u32("99999999999999999999"), None);
}
