//! The floating launcher: a keyboard-driven window with the searchable
//! history list that copies an entry and quits.

use vstd::prelude::*;
use crate::effects::{
    just, only, save_if, saving, scroll_target, scroll_to_selected, Command, Reaction,
    ReactionModel,
};
use crate::history::History;
use crate::input::{digit_of, digit_position, is_char, single_char, Event, Key, NamedKey};
use crate::picker::{Picker, PickerModel};

verus! {

broadcast use vstd::string::group_string_axioms;

/// The number of entries the launcher lists.
pub const LAUNCHER_MAX_ENTRIES: usize = 20;

/// The launcher's messages.
#[derive(Debug, Clone, PartialEq, Eq)]
pub enum Message {
    Hide,
    Focused,
    SearchChanged(String),
    CopyEntry(usize),
    DeleteEntry(usize),
    KeyUp,
    KeyDown,
    KeyEnter,
    SearchBackspace,
    DeleteSelected,
    /// A row number in the list shown, counted from 1.
    QuickCopy(usize),
}

/// The launcher's state.
pub struct Launcher {
    pub picker: Picker,
}

impl View for Launcher {
    type V = PickerModel;

    open spec fn view(&self) -> PickerModel {
        self.picker@
    }
}

/// The message for an event: as in the applet, and besides Escape or losing
/// focus hides the launcher, gaining focus focuses the search.
pub open spec fn message_for(event: Event) -> Option<Message> {
    match event {
        Event::KeyPressed { key, control } => match key {
            Key::Named(NamedKey::Escape) => Some(Message::Hide),
            Key::Named(NamedKey::ArrowDown) => Some(Message::KeyDown),
            Key::Named(NamedKey::ArrowUp) => Some(Message::KeyUp),
            Key::Named(NamedKey::Enter) => Some(Message::KeyEnter),
            Key::Named(NamedKey::Backspace) => Some(Message::SearchBackspace),
            Key::Character(c) => if is_char(c@, 'j') && control {
                Some(Message::KeyDown)
            } else if is_char(c@, 'k') && control {
                Some(Message::KeyUp)
            } else if control {
                match digit_position(c@) {
                    Some(p) => Some(Message::QuickCopy(p)),
                    None => None,
                }
            } else if is_char(c@, 'd') {
                Some(Message::DeleteSelected)
            } else {
                None
            },
            _ => None,
        },
        Event::LayerUnfocused => Some(Message::Hide),
        Event::LayerFocused => Some(Message::Focused),
        Event::Other => None,
    }
}

/// Maps an event to the launcher's message, if it has one.
pub fn message_for_event(event: &Event) -> (m: Option<Message>)
    ensures
        m == message_for(*event),
{
    match event {
        Event::KeyPressed { key, control } => match key {
            Key::Named(NamedKey::Escape) => Some(Message::Hide),
            Key::Named(NamedKey::ArrowDown) => Some(Message::KeyDown),
            Key::Named(NamedKey::ArrowUp) => Some(Message::KeyUp),
            Key::Named(NamedKey::Enter) => Some(Message::KeyEnter),
            Key::Named(NamedKey::Backspace) => Some(Message::SearchBackspace),
            Key::Character(c) => {
                let ch = single_char(c.as_str());
                if ch == Some('j') && *control {
                    Some(Message::KeyDown)
                } else if ch == Some('k') && *control {
                    Some(Message::KeyUp)
                } else if *control {
                    match digit_of(c.as_str()) {
                        Some(p) => Some(Message::QuickCopy(p)),
                        None => None,
                    }
                } else if ch == Some('d') {
                    Some(Message::DeleteSelected)
                } else {
                    None
                }
            },
            _ => None,
        },
        Event::LayerUnfocused => Some(Message::Hide),
        Event::LayerFocused => Some(Message::Focused),
        Event::Other => None,
    }
}

/// How the launcher handles a message: the next state and the reaction.
pub open spec fn launcher_step(p: PickerModel, m: Message) -> (PickerModel, ReactionModel) {
    match m {
        Message::Focused => (p, only(Command::FocusSearch)),
        Message::Hide => (p, only(Command::Exit)),
        Message::SearchChanged(s) => (p.searched(s@), only(Command::FocusSearch)),
        Message::SearchBackspace => (p.backspaced(), only(Command::Nothing)),
        Message::KeyDown => {
            let q = p.moved_down();
            (q, only(Command::ScrollAndReleaseFocus(scroll_target(q.selected, p.count()))))
        },
        Message::KeyUp => {
            let q = p.moved_up();
            (
                q,
                only(
                    if q.selected is Some {
                        Command::Scroll(scroll_target(q.selected, p.count()))
                    } else {
                        Command::FocusSearch
                    },
                ),
            )
        },
        Message::KeyEnter => (
            p,
            only(
                match p.entry_at_selected() {
                    Some(idx) => Command::CopyEntry(idx as usize),
                    None => Command::Nothing,
                },
            ),
        ),
        Message::QuickCopy(pos) => (
            p,
            only(
                match p.entry_numbered(pos as int) {
                    Some(idx) => Command::CopyEntry(idx as usize),
                    None => Command::Nothing,
                },
            ),
        ),
        Message::DeleteSelected => (p.deleted_selected(), saving(p.entry_at_selected() is Some)),
        Message::DeleteEntry(idx) => (p.deleted_entry(idx as int), saving(idx < p.entries.len())),
        Message::CopyEntry(idx) => (
            p,
            ReactionModel {
                copy_text: if idx < p.entries.len() {
                    Some(p.entries[idx as int])
                } else {
                    None
                },
                save_history: false,
                private_mode_file: None,
                command: Command::Exit,
            },
        ),
    }
}

impl Launcher {
    /// A launcher over `history`, with an empty search and nothing selected.
    pub fn new(history: History) -> (l: Self)
        ensures
            l@ == (PickerModel {
                entries: history@,
                search: Seq::empty(),
                selected: None,
                max_entries: LAUNCHER_MAX_ENTRIES,
            }),
    {
        Launcher { picker: Picker::new(history, LAUNCHER_MAX_ENTRIES) }
    }

    /// The entries shown, newest first, each with its history index.
    pub fn filtered_entries(&self) -> (r: Vec<(usize, &String)>)
        ensures
            r@.len() == self@.count(),
            forall|k: int|
                0 <= k < r@.len() ==> {
                    &&& (#[trigger] r@[k]).0 as int == self@.listing()[k]
                    &&& r@[k].1@ == self@.entries[self@.listing()[k]]
                },
    {
        self.picker.filtered_entries()
    }

    /// Handles a message: updates the state and says what else to do.
    pub fn update(&mut self, message: Message) -> (r: Reaction)
        ensures
            (final(self)@, r@) == launcher_step(old(self)@, message),
    {
        match message {
            Message::Focused => just(Command::FocusSearch),
            Message::Hide => just(Command::Exit),
            Message::SearchChanged(s) => {
                self.picker.set_search(s);
                just(Command::FocusSearch)
            },
            Message::SearchBackspace => {
                self.picker.backspace();
                just(Command::Nothing)
            },
            Message::KeyDown => {
                let count = self.picker.move_down();
                just(Command::ScrollAndReleaseFocus(scroll_to_selected(self.picker.selected_index, count)))
            },
            Message::KeyUp => {
                let count = self.picker.move_up();
                if self.picker.selected_index.is_some() {
                    just(Command::Scroll(scroll_to_selected(self.picker.selected_index, count)))
                } else {
                    just(Command::FocusSearch)
                }
            },
            Message::KeyEnter => match self.picker.selected_entry() {
                Some(idx) => just(Command::CopyEntry(idx)),
                None => just(Command::Nothing),
            },
            Message::QuickCopy(pos) => match self.picker.entry_numbered(pos) {
                Some(idx) => just(Command::CopyEntry(idx)),
                None => just(Command::Nothing),
            },
            Message::DeleteSelected => {
                let deleted = self.picker.delete_selected();
                save_if(deleted)
            },
            Message::DeleteEntry(idx) => {
                let deleted = self.picker.delete_entry(idx);
                save_if(deleted)
            },
            Message::CopyEntry(idx) => {
                let text = self.picker.entry_text(idx);
                Reaction { copy_text: text, save_history: false, private_mode_file: None, command: Command::Exit }
            },
        }
    }
}

} // verus!
