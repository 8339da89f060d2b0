use clipboard_history::shortcodes::{
    entry_preview, expand_shortcodes, replace_shortcodes, shortcode_emojis,
};

#[test]
fn known_shortcode_becomes_emoji() {
    assert_eq!(replace_shortcodes(":smile:"), "😄");
    assert_eq!(replace_shortcodes("go :rocket: now"), "go 🚀 now");
    assert_eq!(replace_shortcodes(":+1:"), "👍");
}

#[test]
fn unknown_or_malformed_shortcodes_are_kept() {
    assert_eq!(replace_shortcodes(":no_such_emoji_here:"), ":no_such_emoji_here:");
    assert_eq!(replace_shortcodes(":smile"), ":smile");
    assert_eq!(replace_shortcodes("::"), "::");
    assert_eq!(replace_shortcodes(":smi le:"), ":smi le:");
    assert_eq!(replace_shortcodes("a:b"), "a:b");
}

#[test]
fn scan_resumes_after_replaced_shortcode() {
    assert_eq!(replace_shortcodes(":smile:smile:"), "😄smile:");
    assert_eq!(replace_shortcodes(":smile::rocket:"), "😄🚀");
}

#[test]
fn scan_reuses_closing_colon_of_unknown_shortcode() {
    assert_eq!(replace_shortcodes(":nope:smile:"), ":nope😄");
    assert_eq!(replace_shortcodes("time 10:30:smile:"), "time 10:30😄");
}

#[test]
fn text_without_colon_is_unchanged() {
    for s in ["", "plain text", "émoji-free ✓", "multi\nline"] {
        assert_eq!(replace_shortcodes(s), s);
    }
}

#[test]
fn shortcode_emojis_marks_candidate_positions() {
    let found = shortcode_emojis("a :smile: :x");
    assert_eq!(found.len(), 12);
    assert_eq!(found[2], Some("😄".to_string()));
    assert!(found.iter().enumerate().all(|(i, f)| i == 2 || f.is_none()));
}

#[test]
fn expand_shortcodes_uses_given_lookups() {
    let text = ":ab:c:";
    let mut found: Vec<Option<String>> = vec![None; 6];
    found[0] = Some("X".to_string());
    assert_eq!(expand_shortcodes(text, &found), "Xc:");
    let mut found2: Vec<Option<String>> = vec![None; 6];
    found2[3] = Some("Y".to_string());
    assert_eq!(expand_shortcodes(text, &found2), ":abY");
    assert_eq!(expand_shortcodes(text, &vec![None; 6]), text);
}

#[test]
fn expand_shortcodes_ignores_lookup_without_closing_colon() {
    let mut found: Vec<Option<String>> = vec![None; 4];
    found[0] = Some("Z".to_string());
    assert_eq!(expand_shortcodes(":abc", &found), ":abc");
    found[1] = Some("W".to_string());
    assert_eq!(expand_shortcodes(":abc", &found), ":abc");
}

#[test]
fn entry_preview_expands_then_cuts() {
    assert_eq!(entry_preview(":smile: hello", 3), "😄 h…");
    assert_eq!(entry_preview(":rocket:\nnext", 35), "🚀…");
}
