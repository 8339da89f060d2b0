use clipboard_history::applet::{max_entries_setting, message_for_event, Message, Window};
use clipboard_history::effects::Command;
use clipboard_history::history::History;
use clipboard_history::input::{Event, Key, NamedKey};

fn opened(items: &[&str]) -> Window {
    let mut w = Window::new(20, false);
    let h = History { entries: items.iter().map(|s| s.to_string()).collect() };
    w.open_popup(h, 20, 7);
    w
}

fn key(c: &str, control: bool) -> Event {
    Event::KeyPressed { key: Key::Character(c.to_string()), control }
}

#[test]
fn max_entries_defaults_to_twenty() {
    assert_eq!(max_entries_setting(None), 20);
    assert_eq!(max_entries_setting(Some(5)), 5);
}

#[test]
fn new_window_is_closed_and_empty() {
    let w = Window::new(10, true);
    assert_eq!(w.popup, None);
    assert!(w.private_mode);
    assert!(w.picker.history.entries.is_empty());
    assert_eq!(w.picker.max_entries, 10);
    assert_eq!(w.popup_to_close(), None);
}

#[test]
fn keys_do_nothing_while_popup_closed() {
    let mut w = Window::new(20, false);
    assert_eq!(w.update(Message::KeyDown).command, Command::Nothing);
    assert_eq!(w.picker.selected_index, None);
    assert_eq!(w.update(Message::KeyUp).command, Command::Nothing);
    assert_eq!(w.update(Message::QuickCopy(0)).command, Command::Nothing);
}

#[test]
fn key_navigation_scrolls_and_moves_focus() {
    let mut w = opened(&["a", "b", "c"]);
    assert_eq!(w.popup_to_close(), Some(7));
    let r = w.update(Message::KeyDown);
    assert_eq!(r.command, Command::ScrollAndReleaseFocus(Some((0, 2))));
    w.update(Message::KeyDown);
    assert_eq!(w.picker.selected_index, Some(1));
    assert_eq!(w.update(Message::KeyUp).command, Command::Scroll(Some((0, 2))));
    assert_eq!(w.update(Message::KeyUp).command, Command::FocusSearch);
    assert_eq!(w.picker.selected_index, None);
}

#[test]
fn enter_copies_selected_entry() {
    let mut w = opened(&["old", "new"]);
    assert_eq!(w.update(Message::KeyEnter).command, Command::Nothing);
    w.update(Message::KeyDown);
    assert_eq!(w.update(Message::KeyEnter).command, Command::CopyEntry(1));
    let r = w.update(Message::CopyEntry(1));
    assert_eq!(r.copy_text, Some("new".to_string()));
    assert_eq!(r.command, Command::ClosePopup(7));
    assert_eq!(w.popup, None);
}

#[test]
fn copy_of_missing_entry_copies_nothing() {
    let mut w = opened(&["x"]);
    let r = w.update(Message::CopyEntry(3));
    assert_eq!(r.copy_text, None);
    assert_eq!(r.command, Command::ClosePopup(7));
}

#[test]
fn quick_copy_uses_row_number_from_one() {
    let mut w = opened(&["a", "b", "c"]);
    assert_eq!(w.update(Message::QuickCopy(1)).command, Command::CopyEntry(2));
    assert_eq!(w.update(Message::QuickCopy(3)).command, Command::CopyEntry(0));
    assert_eq!(w.update(Message::QuickCopy(4)).command, Command::Nothing);
    assert_eq!(w.update(Message::QuickCopy(0)).command, Command::Nothing);
}

#[test]
fn search_changes_focus_search_and_clear_selection() {
    let mut w = opened(&["apple", "berry"]);
    w.update(Message::KeyDown);
    let r = w.update(Message::SearchChanged("ap".to_string()));
    assert_eq!(r.command, Command::FocusSearch);
    assert_eq!(w.picker.selected_index, None);
    assert_eq!(w.filtered_entries().len(), 1);
    w.update(Message::SearchBackspace);
    assert_eq!(w.picker.search, "a");
}

#[test]
fn deletes_ask_to_save() {
    let mut w = opened(&["a", "b", "c"]);
    w.update(Message::KeyDown);
    let r = w.update(Message::DeleteSelected);
    assert!(r.save_history);
    assert_eq!(w.picker.history.entries, vec!["a", "b"]);
    let r2 = w.update(Message::DeleteEntry(9));
    assert!(!r2.save_history);
    let r3 = w.update(Message::DeleteEntry(0));
    assert!(r3.save_history);
    assert_eq!(w.picker.history.entries, vec!["b"]);
}

#[test]
fn delete_all_saves_and_closes_popup() {
    let mut w = opened(&["keep", "drop me", "DROP too"]);
    w.update(Message::SearchChanged("drop".to_string()));
    let r = w.update(Message::DeleteAll);
    assert!(r.save_history);
    assert_eq!(r.command, Command::ClosePopup(7));
    assert_eq!(w.picker.history.entries, vec!["keep"]);
    assert_eq!(w.picker.search, "");
    assert_eq!(w.popup, None);
}

#[test]
fn toggle_private_mode_writes_marker() {
    let mut w = opened(&[]);
    let r = w.update(Message::TogglePrivateMode(true));
    assert!(w.private_mode);
    assert_eq!(r.private_mode_file, Some(true));
    let r = w.update(Message::TogglePrivateMode(false));
    assert!(!w.private_mode);
    assert_eq!(r.private_mode_file, Some(false));
}

#[test]
fn popup_closed_resets_search_and_selection() {
    let mut w = opened(&["a"]);
    w.update(Message::SearchChanged("a".to_string()));
    w.update(Message::KeyDown);
    w.update(Message::PopupClosed(8));
    assert_eq!(w.popup, Some(7));
    assert_eq!(w.picker.search, "a");
    w.update(Message::PopupClosed(7));
    assert_eq!(w.popup, None);
    assert_eq!(w.picker.search, "");
    assert_eq!(w.picker.selected_index, None);
}

#[test]
fn surface_messages_are_forwarded() {
    let mut w = Window::new(20, false);
    assert_eq!(w.update(Message::Surface).command, Command::ForwardSurface);
}

#[test]
fn applet_key_bindings() {
    let named = |k| Event::KeyPressed { key: Key::Named(k), control: false };
    assert_eq!(message_for_event(&named(NamedKey::ArrowDown)), Some(Message::KeyDown));
    assert_eq!(message_for_event(&named(NamedKey::ArrowUp)), Some(Message::KeyUp));
    assert_eq!(message_for_event(&named(NamedKey::Enter)), Some(Message::KeyEnter));
    assert_eq!(message_for_event(&named(NamedKey::Backspace)), Some(Message::SearchBackspace));
    assert_eq!(message_for_event(&named(NamedKey::Escape)), None);
    assert_eq!(message_for_event(&key("j", true)), Some(Message::KeyDown));
    assert_eq!(message_for_event(&key("k", true)), Some(Message::KeyUp));
    assert_eq!(message_for_event(&key("3", true)), Some(Message::QuickCopy(3)));
    assert_eq!(message_for_event(&key("0", true)), None);
    assert_eq!(message_for_event(&key("d", true)), Some(Message::DeleteSelected));
    assert_eq!(message_for_event(&key("d", false)), Some(Message::DeleteSelected));
    assert_eq!(message_for_event(&key("j", false)), None);
    assert_eq!(message_for_event(&Event::LayerUnfocused), None);
}
