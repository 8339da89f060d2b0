//! Keyboard and window events, as far as the list reacts to them.

use vstd::prelude::*;
use crate::text::chars_of;

verus! {

/// The named keys that the list reacts to; any other named key is `Other`.
#[derive(Debug, Clone, Copy, PartialEq, Eq)]
pub enum NamedKey {
    Escape,
    ArrowDown,
    ArrowUp,
    Enter,
    Backspace,
    Other,
}

/// A pressed key: a named key, or the text of a character key.
#[derive(Debug, Clone, PartialEq, Eq)]
pub enum Key {
    Named(NamedKey),
    Character(String),
    Unidentified,
}

/// An event delivered to the program.
#[derive(Debug, Clone, PartialEq, Eq)]
pub enum Event {
    /// A key press; `control` tells whether Ctrl was held.
    KeyPressed { key: Key, control: bool },
    /// The launcher's layer surface got keyboard focus.
    LayerFocused,
    /// The launcher's layer surface lost keyboard focus.
    LayerUnfocused,
    /// Anything else.
    Other,
}

/// The key text is the single character `c`.
pub open spec fn is_char(s: Seq<char>, c: char) -> bool {
    s.len() == 1 && s[0] == c
}

/// The position that Ctrl with a digit key from 1 to 9 quick-copies.
pub open spec fn digit_position(s: Seq<char>) -> Option<usize> {
    if s.len() == 1 && '1' <= s[0] && s[0] <= '9' {
        Some((s[0] as int - '0' as int) as usize)
    } else {
        None
    }
}

/// The single character of a key's text, if it has exactly one.
pub fn single_char(s: &str) -> (r: Option<char>)
    ensures
        r == if s@.len() == 1 {
            Some(s@[0])
        } else {
            None
        },
{
    let v = chars_of(s);
    if v.len() == 1 {
        Some(v[0])
    } else {
        None
    }
}

/// The quick-copy position of Ctrl with a digit key.
pub fn digit_of(s: &str) -> (r: Option<usize>)
    ensures
        r == digit_position(s@),
{
    match single_char(s) {
        Some(c) => if '1' <= c && c <= '9' {
            let d = (c as u32) - 48;
            Some(d as usize)
        } else {
            None
        },
        None => None,
    }
}

} // verus!
