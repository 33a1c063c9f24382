use clash_verge::path::{AppPath, Platform};
use clash_verge::text::{
    ascii_lower_char, decimal_string, icon_file_matches, starts_with, str_eq_ignore_ascii_case, str_equal,
    trim_matches_char,
};

#[test]
fn decimal_rendering() {
    assert_eq!(decimal_string(0), "0");
    assert_eq!(decimal_string(7), "7");
    assert_eq!(decimal_string(10), "10");
    assert_eq!(decimal_string(65535), "65535");
    assert_eq!(decimal_string(u64::MAX), u64::MAX.to_string());
}

#[test]
fn string_helpers() {
    assert!(starts_with("clash-verge", "clash"));
    assert!(starts_with("clash", ""));
    assert!(!starts_with("cl", "clash"));
    assert!(str_eq_ignore_ascii_case("PnG", "png"));
    assert!(!str_eq_ignore_ascii_case("pngs", "png"));
    assert!(!str_eq_ignore_ascii_case("ÄB", "äb"));
    assert_eq!(ascii_lower_char('Q'), 'q');
    assert_eq!(ascii_lower_char('é'), 'é');
    assert!(str_equal("a", "a"));
    assert!(!str_equal("a", "b"));
    assert_eq!(trim_matches_char("xxaxbxx", 'x'), "axb");
    assert_eq!(trim_matches_char("xxaxbxx", 'x'), "xxaxbxx".trim_matches('x'));
    assert_eq!(trim_matches_char("", 'x'), "");
}

#[test]
fn icon_names() {
    assert!(icon_file_matches("sys.ico", "sys"));
    assert!(icon_file_matches("system.Ico", "sys"));
    assert!(!icon_file_matches("sys.ico.bak", "sys"));
    assert!(!icon_file_matches("ico", "ico"));
    assert!(!icon_file_matches(".ico", ""));
    assert!(icon_file_matches("..ico", ""));
}

#[test]
fn paths() {
    let p = AppPath::from_root("/a").join("b").join("c");
    assert_eq!(p.len(), 3);
    assert_eq!(p.components(), vec!["/a".to_string(), "b".to_string(), "c".to_string()]);
    let q = p.parent().unwrap();
    assert_eq!(q.display(Platform::OtherUnix), "/a/b");
    assert!(AppPath::from_root("/a").parent().is_none());
    assert!(p.same_path(&p.clone()));
    assert!(!p.same_path(&q));
    assert_eq!(AppPath::from_components(vec!["C:\\".to_string(), "x".to_string()]).display(Platform::Windows), "C:\\x");
    assert_eq!(AppPath::from_root("C:/a").join("b").display(Platform::Windows), "C:/a\\b");
    assert_eq!(AppPath::from_root("").join("b").display(Platform::OtherUnix), "b");
}
