use clipboard_history::history::{capture_for, captured_text, matching_indices, History};

fn hist(items: &[&str]) -> History {
    History { entries: items.iter().map(|s| s.to_string()).collect() }
}

fn strings(items: &[&str]) -> Vec<String> {
    items.iter().map(|s| s.to_string()).collect()
}

#[test]
fn default_history_is_empty() {
    let h = History::default();
    assert!(h.entries.is_empty());
    assert_eq!(h.len(), 0);
}

#[test]
fn matching_indices_lists_newest_first() {
    let lowered = strings(&["apple", "banana", "grape", "pineapple"]);
    assert_eq!(matching_indices(&lowered, "apple", 10), vec![3, 0]);
    assert_eq!(matching_indices(&lowered, "", 10), vec![3, 2, 1, 0]);
    assert_eq!(matching_indices(&lowered, "kiwi", 10), Vec::<usize>::new());
}

#[test]
fn matching_indices_caps_the_list() {
    let lowered = strings(&["a1", "a2", "a3", "a4"]);
    assert_eq!(matching_indices(&lowered, "a", 2), vec![3, 2]);
    assert_eq!(matching_indices(&lowered, "", 0), Vec::<usize>::new());
}

#[test]
fn matching_ignores_case() {
    let h = hist(&["Hello World", "bye", "HELLO again"]);
    assert_eq!(h.matching("hello", 20), vec![2, 0]);
    assert_eq!(h.matching("HeLLo", 20), vec![2, 0]);
    assert_eq!(h.matching("ÉTÉ", 20), Vec::<usize>::new());
    let h2 = hist(&["Été", "ete"]);
    assert_eq!(h2.matching("été", 20), vec![0]);
}

#[test]
fn lowered_entries_lowercases_each() {
    let h = hist(&["ABC", "ÀÉ", "mixed Case"]);
    assert_eq!(h.lowered_entries(), strings(&["abc", "àé", "mixed case"]));
}

#[test]
fn captured_text_trims_and_rejects_blank() {
    assert_eq!(captured_text("  copied text\n"), Some("copied text".to_string()));
    assert_eq!(captured_text(" \n\t "), None);
    assert_eq!(captured_text(""), None);
}

#[test]
fn append_capture_skips_repeat_of_newest() {
    let mut h = hist(&["first"]);
    assert!(h.append_capture("second".to_string()));
    assert!(!h.append_capture("second".to_string()));
    assert!(h.append_capture("first".to_string()));
    assert_eq!(h.entries, strings(&["first", "second", "first"]));
}

#[test]
fn capture_sequence_never_repeats_adjacent() {
    let mut h = History::default();
    for t in ["a", "a", "b", "b", "a", "c", "c"] {
        h.append_capture(t.to_string());
    }
    assert_eq!(h.entries, strings(&["a", "b", "a", "c"]));
    assert!(h.entries.windows(2).all(|w| w[0] != w[1]));
}

#[test]
fn history_persists_multiple_captures_in_order() {
    let mut h = History { entries: vec![] };
    for text in ["first", "second", "third"] {
        h.append_capture(text.to_string());
    }
    assert_eq!(h.entries, vec!["first", "second", "third"]);
}

#[test]
fn private_mode_captures_nothing() {
    assert_eq!(capture_for(true, "secret"), None);
    assert_eq!(capture_for(false, " secret "), Some("secret".to_string()));
    assert_eq!(capture_for(false, "   "), None);
}

#[test]
fn empty_search_lists_newest_entries_up_to_max() {
    let h = hist(&["a", "b", "c", "d"]);
    assert_eq!(h.matching("", 3), vec![3, 2, 1]);
    assert_eq!(h.matching("", 10), vec![3, 2, 1, 0]);
    assert_eq!(History::default().matching("", 5), Vec::<usize>::new());
}
