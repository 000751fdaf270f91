use aw_watcher_zed::text::decimal_text;
use aw_watcher_zed::text::starts_with;

#[test]
fn decimal_text_writes_numbers_as_std_does() {
    for n in [0u16, 1, 9, 10, 11, 99, 100, 101, 999, 1000, 5600, 9999, 10000, 65534, 65535] {
        assert_eq!(decimal_text(n), n.to_string());
    }
    assert_eq!(decimal_text(5600), "5600");
    assert_eq!(decimal_text(0), "0");
    assert_eq!(decimal_text(65535), "65535");
}

#[test]
fn starts_with_agrees_with_std() {
    let cases = [
        ("activitywatch-ls-v1", "activitywatch-ls"),
        ("activitywatch-ls", "activitywatch-ls"),
        ("activitywatch-l", "activitywatch-ls"),
        ("", "a"),
        ("a", ""),
        ("", ""),
        ("héllo", "hé"),
        ("héllo", "he"),
        ("日本語", "日本"),
        ("日本語", "本"),
    ];
    for (text, prefix) in cases {
        assert_eq!(starts_with(text, prefix), text.starts_with(prefix), "{text:?} {prefix:?}");
    }
    assert!(starts_with("abc", "ab"));
    assert!(!starts_with("abc", "bc"));
}
