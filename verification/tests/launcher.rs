use clipboard_history::effects::Command;
use clipboard_history::history::History;
use clipboard_history::input::{Event, Key, NamedKey};
use clipboard_history::launcher::{message_for_event, Launcher, Message};

fn launcher(items: &[&str]) -> Launcher {
    Launcher::new(History { entries: items.iter().map(|s| s.to_string()).collect() })
}

#[test]
fn launcher_lists_twenty_at_most() {
    let items: Vec<String> = (0..30).map(|i| format!("entry {i}")).collect();
    let l = Launcher::new(History { entries: items });
    let shown = l.filtered_entries();
    assert_eq!(shown.len(), 20);
    assert_eq!(shown[0].0, 29);
    assert_eq!(shown[19].0, 10);
}

#[test]
fn launcher_focus_and_hide() {
    let mut l = launcher(&["a"]);
    assert_eq!(l.update(Message::Focused).command, Command::FocusSearch);
    assert_eq!(l.update(Message::Hide).command, Command::Exit);
}

#[test]
fn launcher_copy_exits() {
    let mut l = launcher(&["a", "b"]);
    l.update(Message::KeyDown);
    assert_eq!(l.update(Message::KeyEnter).command, Command::CopyEntry(1));
    let r = l.update(Message::CopyEntry(1));
    assert_eq!(r.copy_text, Some("b".to_string()));
    assert_eq!(r.command, Command::Exit);
    let r = l.update(Message::CopyEntry(5));
    assert_eq!(r.copy_text, None);
    assert_eq!(r.command, Command::Exit);
}

#[test]
fn launcher_navigation_without_popup() {
    let mut l = launcher(&["a", "b"]);
    assert_eq!(l.update(Message::KeyDown).command, Command::ScrollAndReleaseFocus(Some((0, 1))));
    assert_eq!(l.update(Message::KeyDown).command, Command::ScrollAndReleaseFocus(Some((1, 1))));
    assert_eq!(l.update(Message::KeyDown).command, Command::ScrollAndReleaseFocus(Some((1, 1))));
    assert_eq!(l.update(Message::KeyUp).command, Command::Scroll(Some((0, 1))));
    assert_eq!(l.update(Message::KeyUp).command, Command::FocusSearch);
}

#[test]
fn launcher_delete_and_search() {
    let mut l = launcher(&["one", "two", "three"]);
    assert_eq!(l.update(Message::SearchChanged("t".to_string())).command, Command::FocusSearch);
    l.update(Message::KeyDown);
    let r = l.update(Message::DeleteSelected);
    assert!(r.save_history);
    assert_eq!(l.picker.history.entries, vec!["one", "two"]);
    assert_eq!(l.picker.selected_index, Some(0));
    assert_eq!(l.update(Message::QuickCopy(1)).command, Command::CopyEntry(1));
    assert_eq!(l.update(Message::QuickCopy(0)).command, Command::Nothing);
    let r = l.update(Message::DeleteEntry(1));
    assert!(r.save_history);
    assert_eq!(l.picker.selected_index, None);
    l.update(Message::SearchBackspace);
    assert_eq!(l.picker.search, "");
}

#[test]
fn launcher_quick_copy_one_copies_first_row() {
    let mut l = launcher(&["a", "b", "c"]);
    assert_eq!(l.update(Message::QuickCopy(1)).command, Command::CopyEntry(2));
    let r = l.update(Message::CopyEntry(2));
    assert_eq!(r.copy_text, Some("c".to_string()));
}

#[test]
fn launcher_key_bindings() {
    let named = |k| Event::KeyPressed { key: Key::Named(k), control: false };
    let ch = |c: &str, control| Event::KeyPressed { key: Key::Character(c.to_string()), control };
    assert_eq!(message_for_event(&named(NamedKey::Escape)), Some(Message::Hide));
    assert_eq!(message_for_event(&named(NamedKey::ArrowDown)), Some(Message::KeyDown));
    assert_eq!(message_for_event(&named(NamedKey::Other)), None);
    assert_eq!(message_for_event(&ch("9", true)), Some(Message::QuickCopy(9)));
    assert_eq!(message_for_event(&ch("d", false)), Some(Message::DeleteSelected));
    assert_eq!(message_for_event(&ch("dd", false)), None);
    assert_eq!(message_for_event(&Event::LayerUnfocused), Some(Message::Hide));
    assert_eq!(message_for_event(&Event::LayerFocused), Some(Message::Focused));
    assert_eq!(message_for_event(&Event::Other), None);
    assert_eq!(
        message_for_event(&Event::KeyPressed { key: Key::Unidentified, control: true }),
        None
    );
}
