use obs_relay::text::{normalize, str_eq};

#[test]
fn str_eq_equal_strings() {
    assert!(str_eq("", ""));
    assert!(str_eq("ko", "ko"));
    assert!(str_eq("신길", "신길"));
}

#[test]
fn str_eq_different_strings() {
    assert!(!str_eq("ko", "en"));
    assert!(!str_eq("ko", "kor"));
    assert!(!str_eq("", "a"));
    assert!(!str_eq("신길", "숭문"));
}

#[test]
fn normalize_replaces_every_occurrence() {
    assert_eq!(normalize("a\\nb\\nc\\nd"), "a\nb\nc\nd");
    assert_eq!(normalize("\\n\\n"), "\n\n");
}

#[test]
fn normalize_noop_without_escape_sequence() {
    assert_eq!(normalize(""), "");
    assert_eq!(normalize("plain text"), "plain text");
    assert_eq!(normalize("trailing backslash \\"), "trailing backslash \\");
    assert_eq!(normalize("\\t not a line break"), "\\t not a line break");
}

#[test]
fn normalize_idempotent_on_samples() {
    let samples = ["a\\nb\\nc", "\\n", "\\\\n", "no escapes", "", "x\\"];
    for s in samples {
        let once = normalize(s);
        let twice = normalize(&once);
        assert_eq!(twice, once);
    }
}

#[test]
fn normalize_keeps_preceding_backslash() {
    // Only the pair backslash-`n` is rewritten; the first of two
    // backslashes stays.
    assert_eq!(normalize("\\\\n"), "\\\n");
}
