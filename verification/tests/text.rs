use menu::text::{find_first, same_text};

#[test]
fn same_text_compares_all_characters() {
    assert!(same_text("", ""));
    assert!(same_text("LibraV0", "LibraV0"));
    assert!(!same_text("LibraV0", "LibraV1"));
    assert!(!same_text("LibraV0", "LibraV"));
    assert!(!same_text("", "x"));
    assert!(same_text("caf\u{e9}", "caf\u{e9}"));
    assert!(!same_text("caf\u{e9}", "cafe"));
}

#[test]
fn find_first_counts_characters() {
    assert_eq!(find_first("LibraV0-Lib0", '-'), Some(7));
    assert_eq!(find_first("a-b-c", '-'), Some(1));
    assert_eq!(find_first("-", '-'), Some(0));
    assert_eq!(find_first("", '-'), None);
    assert_eq!(find_first("LibraV0", '-'), None);
    assert_eq!(find_first("\u{e9}\u{e9}-x", '-'), Some(2));
    assert_eq!(find_first("\u{1f600}-", '-'), Some(1));
}
