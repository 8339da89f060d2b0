//! The panel applet: a button that opens a popup with the searchable history
//! list, a private-mode switch and a "clear" button.

use vstd::prelude::*;
use crate::effects::{
    just, only, save_if, saving, scroll_target, scroll_to_selected, Command, Reaction,
    ReactionModel,
};
use crate::history::History;
use crate::input::{digit_of, digit_position, is_char, single_char, Event, Key, NamedKey};
use crate::picker::{Picker, PickerModel};

verus! {

broadcast use vstd::string::group_string_axioms;

/// The number of entries listed when no setting says otherwise.
pub const DEFAULT_MAX_ENTRIES: usize = 20;

/// The applet's messages. Popups are named by the number that the program
/// gives each popup window.
#[derive(Debug, Clone, PartialEq, Eq)]
pub enum Message {
    PopupClosed(u64),
    Surface,
    CopyEntry(usize),
    DeleteEntry(usize),
    DeleteAll,
    TogglePrivateMode(bool),
    KeyUp,
    KeyDown,
    KeyEnter,
    SearchChanged(String),
    SearchBackspace,
    DeleteSelected,
    /// The row number, counted from 1.
    QuickCopy(usize),
}

/// The applet's state.
pub struct Window {
    pub picker: Picker,
    pub popup: Option<u64>,
    pub private_mode: bool,
}

/// The applet's state as the update rules see it.
pub struct WindowModel {
    pub picker: PickerModel,
    pub popup: Option<u64>,
    pub private_mode: bool,
}

impl View for Window {
    type V = WindowModel;

    open spec fn view(&self) -> WindowModel {
        WindowModel { picker: self.picker@, popup: self.popup, private_mode: self.private_mode }
    }
}

/// The number of entries to list: the configured number, or the default.
pub open spec fn max_entries_for(configured: Option<usize>) -> usize {
    match configured {
        Some(n) => n,
        None => DEFAULT_MAX_ENTRIES,
    }
}

/// The number of entries to list, given the configured value if one could be read.
pub fn max_entries_setting(configured: Option<usize>) -> (n: usize)
    ensures
        n == max_entries_for(configured),
{
    match configured {
        Some(n) => n,
        None => DEFAULT_MAX_ENTRIES,
    }
}

/// The message for an event: the arrow keys and Ctrl+J / Ctrl+K move the
/// selection, Enter copies the selected entry, Backspace shortens the
/// search, `d` deletes the selected entry whatever the modifiers (the panel
/// adds Ctrl and Logo to every key event), Ctrl with 1 to 9 quick-copies the
/// row with that number.
pub open spec fn message_for(event: Event) -> Option<Message> {
    match event {
        Event::KeyPressed { key, control } => match key {
            Key::Named(NamedKey::ArrowDown) => Some(Message::KeyDown),
            Key::Named(NamedKey::ArrowUp) => Some(Message::KeyUp),
            Key::Named(NamedKey::Enter) => Some(Message::KeyEnter),
            Key::Named(NamedKey::Backspace) => Some(Message::SearchBackspace),
            Key::Character(c) => if is_char(c@, 'j') && control {
                Some(Message::KeyDown)
            } else if is_char(c@, 'k') && control {
                Some(Message::KeyUp)
            } else if is_char(c@, 'd') {
                Some(Message::DeleteSelected)
            } else if control {
                match digit_position(c@) {
                    Some(p) => Some(Message::QuickCopy(p)),
                    None => None,
                }
            } else {
                None
            },
            _ => None,
        },
        _ => None,
    }
}

/// Maps an event to the applet's message, if it has one.
pub fn message_for_event(event: &Event) -> (m: Option<Message>)
    ensures
        m == message_for(*event),
{
    match event {
        Event::KeyPressed { key, control } => match key {
            Key::Named(NamedKey::ArrowDown) => Some(Message::KeyDown),
            Key::Named(NamedKey::ArrowUp) => Some(Message::KeyUp),
            Key::Named(NamedKey::Enter) => Some(Message::KeyEnter),
            Key::Named(NamedKey::Backspace) => Some(Message::SearchBackspace),
            Key::Character(c) => {
                let ch = single_char(c.as_str());
                if ch == Some('j') && *control {
                    Some(Message::KeyDown)
                } else if ch == Some('k') && *control {
                    Some(Message::KeyUp)
                } else if ch == Some('d') {
                    Some(Message::DeleteSelected)
                } else if *control {
                    match digit_of(c.as_str()) {
                        Some(p) => Some(Message::QuickCopy(p)),
                        None => None,
                    }
                } else {
                    None
                }
            },
            _ => None,
        },
        _ => None,
    }
}

/// The popup closed: with it go the search and the selection.
pub open spec fn after_popup_closed(w: WindowModel) -> WindowModel {
    WindowModel {
        popup: None,
        picker: PickerModel { search: Seq::empty(), selected: None, ..w.picker },
        ..w
    }
}

/// The text of the entry with history index `idx`, if there is one.
pub open spec fn entry_text_of(p: PickerModel, idx: int) -> Option<Seq<char>> {
    if 0 <= idx < p.entries.len() {
        Some(p.entries[idx])
    } else {
        None
    }
}

/// Closes the popup, if one is open.
pub open spec fn close_command(popup: Option<u64>) -> Command {
    match popup {
        Some(id) => Command::ClosePopup(id),
        None => Command::Nothing,
    }
}

/// How the applet handles a message: the next state and the reaction.
pub open spec fn applet_step(w: WindowModel, m: Message) -> (WindowModel, ReactionModel) {
    match m {
        Message::PopupClosed(id) => if w.popup == Some(id) {
            (after_popup_closed(w), only(Command::Nothing))
        } else {
            (w, only(Command::Nothing))
        },
        Message::Surface => (w, only(Command::ForwardSurface)),
        Message::SearchChanged(s) => (
            WindowModel { picker: w.picker.searched(s@), ..w },
            only(Command::FocusSearch),
        ),
        Message::SearchBackspace => (
            WindowModel { picker: w.picker.backspaced(), ..w },
            only(Command::Nothing),
        ),
        Message::CopyEntry(idx) => (
            WindowModel { popup: None, ..w },
            ReactionModel {
                copy_text: entry_text_of(w.picker, idx as int),
                save_history: false,
                private_mode_file: None,
                command: close_command(w.popup),
            },
        ),
        Message::DeleteEntry(idx) => (
            WindowModel { picker: w.picker.deleted_entry(idx as int), ..w },
            saving(idx < w.picker.entries.len()),
        ),
        Message::DeleteSelected => (
            WindowModel { picker: w.picker.deleted_selected(), ..w },
            saving(w.picker.entry_at_selected() is Some),
        ),
        Message::DeleteAll => (
            WindowModel { picker: w.picker.cleared(), popup: None, ..w },
            ReactionModel {
                copy_text: None,
                save_history: true,
                private_mode_file: None,
                command: close_command(w.popup),
            },
        ),
        Message::TogglePrivateMode(enabled) => (
            WindowModel { private_mode: enabled, ..w },
            ReactionModel {
                copy_text: None,
                save_history: false,
                private_mode_file: Some(enabled),
                command: Command::Nothing,
            },
        ),
        Message::KeyDown => if w.popup is Some {
            let p = w.picker.moved_down();
            (
                WindowModel { picker: p, ..w },
                only(Command::ScrollAndReleaseFocus(scroll_target(p.selected, w.picker.count()))),
            )
        } else {
            (w, only(Command::Nothing))
        },
        Message::KeyUp => if w.popup is Some {
            let p = w.picker.moved_up();
            (
                WindowModel { picker: p, ..w },
                only(
                    if p.selected is Some {
                        Command::Scroll(scroll_target(p.selected, w.picker.count()))
                    } else {
                        Command::FocusSearch
                    },
                ),
            )
        } else {
            (w, only(Command::Nothing))
        },
        Message::KeyEnter => (
            w,
            only(
                if w.popup is Some && w.picker.entry_at_selected() is Some {
                    Command::CopyEntry(w.picker.entry_at_selected()->0 as usize)
                } else {
                    Command::Nothing
                },
            ),
        ),
        Message::QuickCopy(pos) => (
            w,
            only(
                if w.popup is Some && w.picker.entry_numbered(pos as int) is Some {
                    Command::CopyEntry(w.picker.entry_numbered(pos as int)->0 as usize)
                } else {
                    Command::Nothing
                },
            ),
        ),
    }
}

impl Window {
    /// A closed applet listing at most `max_entries` entries, with private
    /// mode as found on disk.
    pub fn new(max_entries: usize, private_mode: bool) -> (w: Self)
        ensures
            w@ == (WindowModel {
                picker: PickerModel {
                    entries: Seq::empty(),
                    search: Seq::empty(),
                    selected: None,
                    max_entries: max_entries,
                },
                popup: None,
                private_mode: private_mode,
            }),
    {
        Window {
            picker: Picker::new(History::default(), max_entries),
            popup: None,
            private_mode,
        }
    }

    /// The entries shown, newest first, each with its history index.
    pub fn filtered_entries(&self) -> (r: Vec<(usize, &String)>)
        ensures
            r@.len() == self@.picker.count(),
            forall|k: int|
                0 <= k < r@.len() ==> {
                    &&& (#[trigger] r@[k]).0 as int == self@.picker.listing()[k]
                    &&& r@[k].1@ == self@.picker.entries[self@.picker.listing()[k]]
                },
    {
        self.picker.filtered_entries()
    }

    /// What the panel button does: close the open popup (its id), or open a
    /// new one (`None`).
    pub fn popup_to_close(&self) -> (r: Option<u64>)
        ensures
            r == self@.popup,
    {
        self.popup
    }

    /// Opens the popup `id` over a freshly read history and setting, with an
    /// empty search and nothing selected.
    pub fn open_popup(&mut self, history: History, max_entries: usize, id: u64)
        ensures
            final(self)@ == (WindowModel {
                picker: PickerModel {
                    entries: history@,
                    search: Seq::empty(),
                    selected: None,
                    max_entries: max_entries,
                },
                popup: Some(id),
                private_mode: old(self)@.private_mode,
            }),
    {
        self.picker = Picker::new(history, max_entries);
        self.popup = Some(id);
    }

    /// Handles a message: updates the state and says what else to do.
    pub fn update(&mut self, message: Message) -> (r: Reaction)
        ensures
            (final(self)@, r@) == applet_step(old(self)@, message),
    {
        match message {
            Message::PopupClosed(id) => {
                if self.popup == Some(id) {
                    self.popup = None;
                    self.picker.selected_index = None;
                    self.picker.search = String::new();
                }
                just(Command::Nothing)
            },
            Message::Surface => just(Command::ForwardSurface),
            Message::SearchChanged(s) => {
                self.picker.set_search(s);
                just(Command::FocusSearch)
            },
            Message::SearchBackspace => {
                self.picker.backspace();
                just(Command::Nothing)
            },
            Message::CopyEntry(idx) => {
                let text = self.picker.entry_text(idx);
                let command = match self.popup {
                    Some(id) => Command::ClosePopup(id),
                    None => Command::Nothing,
                };
                self.popup = None;
                Reaction { copy_text: text, save_history: false, private_mode_file: None, command }
            },
            Message::DeleteEntry(idx) => {
                let deleted = self.picker.delete_entry(idx);
                save_if(deleted)
            },
            Message::DeleteSelected => {
                let deleted = self.picker.delete_selected();
                save_if(deleted)
            },
            Message::DeleteAll => {
                self.picker.delete_all();
                let command = match self.popup {
                    Some(id) => Command::ClosePopup(id),
                    None => Command::Nothing,
                };
                self.popup = None;
                Reaction { copy_text: None, save_history: true, private_mode_file: None, command }
            },
            Message::TogglePrivateMode(enabled) => {
                self.private_mode = enabled;
                Reaction {
                    copy_text: None,
                    save_history: false,
                    private_mode_file: Some(enabled),
                    command: Command::Nothing,
                }
            },
            Message::KeyDown => {
                if self.popup.is_none() {
                    return just(Command::Nothing);
                }
                let count = self.picker.move_down();
                just(Command::ScrollAndReleaseFocus(scroll_to_selected(self.picker.selected_index, count)))
            },
            Message::KeyUp => {
                if self.popup.is_none() {
                    return just(Command::Nothing);
                }
                let count = self.picker.move_up();
                if self.picker.selected_index.is_some() {
                    just(Command::Scroll(scroll_to_selected(self.picker.selected_index, count)))
                } else {
                    just(Command::FocusSearch)
                }
            },
            Message::KeyEnter => {
                if self.popup.is_some() {
                    if let Some(idx) = self.picker.selected_entry() {
                        return just(Command::CopyEntry(idx));
                    }
                }
                just(Command::Nothing)
            },
            Message::QuickCopy(pos) => {
                if self.popup.is_some() {
                    if let Some(idx) = self.picker.entry_numbered(pos) {
                        return just(Command::CopyEntry(idx));
                    }
                }
                just(Command::Nothing)
            },
        }
    }
}

} // verus!
