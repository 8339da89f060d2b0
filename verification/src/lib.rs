//! Clipboard history: the verified core of a clipboard manager made of a
//! capture daemon, a panel applet and a launcher.
//!
//! - `text`: strings as character sequences (search, trimming, previews);
//! - `shortcodes`: `:name:` emoji shortcode expansion;
//! - `history`: the history, the case-insensitive search, capturing;
//! - `picker`: the searchable, selectable list shared by applet and launcher;
//! - `applet`, `launcher`: how each program reacts to its messages and keys;
//! - `effects`, `input`: what a reaction asks for, and the events handled;
//! - `paths`: where the history and the private-mode marker live;
//! - `laws`: properties that span several operations.

pub mod text;
pub mod shortcodes;
pub mod history;
pub mod picker;
pub mod laws;
pub mod effects;
pub mod input;
pub mod applet;
pub mod launcher;
pub mod paths;
