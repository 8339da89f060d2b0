//! What handling a message asks of the program around the list: text to
//! put on the clipboard, files to write, and the follow-up command.

use vstd::prelude::*;

verus! {

/// The follow-up command for the user interface.
#[derive(Debug, Clone, Copy, PartialEq, Eq)]
pub enum Command {
    /// Nothing more to do.
    Nothing,
    /// Hand the surface action of the message on to the shell.
    ForwardSurface,
    /// Give keyboard focus to the search field.
    FocusSearch,
    /// Scroll the list (to `position / last` of its height, when given) and
    /// move keyboard focus off the search field.
    ScrollAndReleaseFocus(Option<(usize, usize)>),
    /// Scroll the list to `position / last` of its height, when given.
    Scroll(Option<(usize, usize)>),
    /// Handle a copy of the entry with this history index next.
    CopyEntry(usize),
    /// Close the popup with this id.
    ClosePopup(u64),
    /// Quit the program.
    Exit,
}

/// Everything that handling one message asks for, to be done in this order:
/// copy the text, write the history, create or remove the private-mode
/// marker, then run the command.
#[derive(Debug, Clone, PartialEq, Eq)]
pub struct Reaction {
    /// Text to put on the clipboard.
    pub copy_text: Option<String>,
    /// Whether the history must be written back to disk.
    pub save_history: bool,
    /// Create (`true`) or remove (`false`) the private-mode marker file.
    pub private_mode_file: Option<bool>,
    /// The follow-up command.
    pub command: Command,
}

/// A reaction with its text as a character sequence.
pub struct ReactionModel {
    pub copy_text: Option<Seq<char>>,
    pub save_history: bool,
    pub private_mode_file: Option<bool>,
    pub command: Command,
}

impl View for Reaction {
    type V = ReactionModel;

    open spec fn view(&self) -> ReactionModel {
        ReactionModel {
            copy_text: self.copy_text.deep_view(),
            save_history: self.save_history,
            private_mode_file: self.private_mode_file,
            command: self.command,
        }
    }
}

/// A reaction that only runs `command`.
pub open spec fn only(command: Command) -> ReactionModel {
    ReactionModel { copy_text: None, save_history: false, private_mode_file: None, command }
}

/// A reaction that writes the history when `save` holds.
pub open spec fn saving(save: bool) -> ReactionModel {
    ReactionModel { copy_text: None, save_history: save, private_mode_file: None, command: Command::Nothing }
}

/// Builds a reaction that only runs `command`.
pub fn just(command: Command) -> (r: Reaction)
    ensures
        r@ == only(command),
{
    Reaction { copy_text: None, save_history: false, private_mode_file: None, command }
}

/// Builds a reaction that writes the history when `save` holds.
pub fn save_if(save: bool) -> (r: Reaction)
    ensures
        r@ == saving(save),
{
    Reaction { copy_text: None, save_history: save, private_mode_file: None, command: Command::Nothing }
}

/// Where to scroll for a selection in a list of `count` entries: the
/// selected position and the last position; nothing without a selection or
/// with fewer than two entries.
pub open spec fn scroll_target(selected: Option<usize>, count: int) -> Option<(usize, usize)> {
    match selected {
        Some(i) => if count <= 1 {
            None
        } else {
            Some((i, (count - 1) as usize))
        },
        None => None,
    }
}

/// Where the list scrolls to show the selection: the selected position and
/// the last position, whose ratio is the relative offset.
pub fn scroll_to_selected(selected_index: Option<usize>, count: usize) -> (r: Option<(usize, usize)>)
    ensures
        r == scroll_target(selected_index, count as int),
{
    let idx = match selected_index {
        Some(i) => i,
        None => return None,
    };
    if count <= 1 {
        return None;
    }
    Some((idx, count - 1))
}

} // verus!
