use clipboard_history::effects::{just, save_if, scroll_to_selected, Command, Reaction};

#[test]
fn scroll_to_selected_gives_position_and_last() {
    assert_eq!(scroll_to_selected(None, 5), None);
    assert_eq!(scroll_to_selected(Some(2), 1), None);
    assert_eq!(scroll_to_selected(Some(0), 0), None);
    assert_eq!(scroll_to_selected(Some(2), 5), Some((2, 4)));
}

#[test]
fn reaction_builders() {
    assert_eq!(
        just(Command::Exit),
        Reaction { copy_text: None, save_history: false, private_mode_file: None, command: Command::Exit }
    );
    assert!(save_if(true).save_history);
    assert_eq!(save_if(false).command, Command::Nothing);
}
