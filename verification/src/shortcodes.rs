//! Emoji shortcode expansion: `:smile:` becomes the emoji that GitHub names
//! `smile`.
//!
//! The scan looks at each `':'`. The text up to the next `':'` is a candidate
//! shortcode; when it is made of alphanumeric characters, `'_'`, `'-'` and
//! `'+'` and names an emoji, the emoji replaces the candidate with both colons
//! and the scan resumes after the closing colon. Otherwise the `':'` is kept
//! and the scan resumes at the next character.

use vstd::prelude::*;
use crate::text::{
    char_is_alphanumeric, chars_of, find_char, find_from, is_alphanumeric, lemma_find_from,
    preview_of, preview_text, push_char, string_from_range,
};

verus! {

broadcast use vstd::string::group_string_axioms;

/// The emoji (as text) that `emojis::get_by_shortcode` finds for a shortcode, if any.
pub uninterp spec fn emoji_by_shortcode(code: Seq<char>) -> Option<Seq<char>>;

/// `emojis::get_by_shortcode`, giving back the emoji's text; its result is
/// named `emoji_by_shortcode` (a lookup in the crate's fixed table).
#[verifier::external_body]
fn lookup_emoji(code: &str) -> (r: Option<String>)
    ensures
        r.deep_view() == emoji_by_shortcode(code@),
{
    match emojis::get_by_shortcode(code) {
        Some(emoji) => Some(emoji.as_str().to_string()),
        None => None,
    }
}

/// A character allowed in a shortcode.
pub open spec fn is_shortcode_char(c: char) -> bool {
    is_alphanumeric(c) || c == '_' || c == '-' || c == '+'
}

/// A non-empty run of shortcode characters.
pub open spec fn is_shortcode(code: Seq<char>) -> bool {
    code.len() > 0 && forall|k: int| 0 <= k < code.len() ==> is_shortcode_char(#[trigger] code[k])
}

/// The index of the `':'` that closes a candidate opened at `i` (`s.len()` if none).
pub open spec fn closing_colon(s: Seq<char>, i: int) -> int {
    find_from(s, ':', i + 1)
}

/// The candidate shortcode that the `':'` at `i` opens, if a later `':'` closes it.
pub open spec fn candidate_at(s: Seq<char>, i: int) -> Option<Seq<char>> {
    if 0 <= i < s.len() && s[i] == ':' && closing_colon(s, i) < s.len() {
        Some(s.subrange(i + 1, closing_colon(s, i)))
    } else {
        None
    }
}

/// The emoji that replaces the candidate opened at `i`, if there is one.
pub open spec fn emoji_at(s: Seq<char>, i: int) -> Option<Seq<char>> {
    match candidate_at(s, i) {
        Some(code) => if is_shortcode(code) {
            emoji_by_shortcode(code)
        } else {
            None
        },
        None => None,
    }
}

/// For each position of `s`, the emoji for the candidate opened there.
pub open spec fn emojis_of(s: Seq<char>) -> Seq<Option<Seq<char>>> {
    Seq::new(s.len(), |i: int| emoji_at(s, i))
}

/// The scan from position `i` of `s`, where `found[j]` is what replaces the
/// candidate opened at `j` (nothing when `None`).
pub open spec fn expanded(s: Seq<char>, found: Seq<Option<Seq<char>>>, i: int) -> Seq<char>
    decreases s.len() - i,
{
    if i < 0 || i >= s.len() {
        Seq::empty()
    } else if s[i] == ':' && closing_colon(s, i) < s.len() && found[i] is Some {
        proof {
            lemma_find_from(s, ':', i + 1);
        }
        found[i]->0 + expanded(s, found, closing_colon(s, i) + 1)
    } else {
        seq![s[i]] + expanded(s, found, i + 1)
    }
}

/// `s` with every shortcode that names an emoji replaced by that emoji.
pub open spec fn shortcodes_replaced(s: Seq<char>) -> Seq<char> {
    expanded(s, emojis_of(s), 0)
}

/// Runs the scan over `text`, taking `found[j]` as the emoji for the
/// candidate opened at position `j`.
pub fn expand_shortcodes(text: &str, found: &Vec<Option<String>>) -> (r: String)
    requires
        found@.len() == text@.len(),
    ensures
        r@ == expanded(text@, found.deep_view(), 0),
{
    let v = chars_of(text);
    let ghost s = v@;
    let ghost f = found.deep_view();
    let mut r = String::new();
    let mut i: usize = 0;
    while i < v.len()
        invariant
            s == v@,
            s == text@,
            f == found.deep_view(),
            f.len() == s.len(),
            i <= v.len(),
            r@ + expanded(s, f, i as int) == expanded(s, f, 0),
        decreases v.len() - i,
    {
        let c = v[i];
        if c == ':' {
            let end = find_char(&v, ':', i + 1);
            proof {
                lemma_find_from(s, ':', i + 1);
            }
            if end < v.len() {
                match &found[i] {
                    Some(emoji) => {
                        assert(f[i as int] == Some(emoji@));
                        let ghost before = r@;
                        r.append(emoji.as_str());
                        assert(r@ + expanded(s, f, end + 1) == before + expanded(s, f, i as int));
                        i = end + 1;
                        continue ;
                    },
                    None => {},
                }
            }
        }
        let ghost before = r@;
        push_char(&mut r, c);
        assert(r@ + expanded(s, f, i + 1) =~= before + expanded(s, f, i as int));
        i = i + 1;
    }
    r
}

/// Whether every character of `v[from..to]` may appear in a shortcode.
fn all_shortcode_chars(v: &Vec<char>, from: usize, to: usize) -> (r: bool)
    requires
        from <= to <= v.len(),
    ensures
        r == forall|k: int| from <= k < to ==> is_shortcode_char(#[trigger] v@[k]),
{
    let mut k = from;
    while k < to
        invariant
            from <= k <= to <= v.len(),
            forall|j: int| from <= j < k ==> is_shortcode_char(#[trigger] v@[j]),
        decreases to - k,
    {
        let c = v[k];
        if !(char_is_alphanumeric(c) || c == '_' || c == '-' || c == '+') {
            return false;
        }
        k = k + 1;
    }
    true
}

/// For every position of `text`, looks up the emoji for the candidate
/// shortcode opened there.
pub fn shortcode_emojis(text: &str) -> (found: Vec<Option<String>>)
    ensures
        found@.len() == text@.len(),
        found.deep_view() == emojis_of(text@),
{
    let v = chars_of(text);
    let ghost s = v@;
    let mut found: Vec<Option<String>> = Vec::new();
    let mut i: usize = 0;
    while i < v.len()
        invariant
            s == v@,
            s == text@,
            i <= v.len(),
            found@.len() == i,
            forall|j: int| 0 <= j < i ==> (#[trigger] found@[j]).deep_view() == emoji_at(s, j),
        decreases v.len() - i,
    {
        let mut hit: Option<String> = None;
        if v[i] == ':' {
            let end = find_char(&v, ':', i + 1);
            proof {
                lemma_find_from(s, ':', i + 1);
            }
            if end < v.len() && end > i + 1 && all_shortcode_chars(&v, i + 1, end) {
                let code = string_from_range(&v, i + 1, end);
                hit = lookup_emoji(code.as_str());
                proof {
                    let cand = s.subrange(i + 1, end as int);
                    assert(candidate_at(s, i as int) == Some(cand));
                    assert forall|k: int| 0 <= k < cand.len() implies is_shortcode_char(#[trigger] cand[k]) by {
                        assert(cand[k] == s[i + 1 + k]);
                    }
                }
            } else {
                proof {
                    if end < v.len() && end > i + 1 {
                        let cand = s.subrange(i + 1, end as int);
                        let k = choose|k: int| i + 1 <= k < end && !is_shortcode_char(#[trigger] v@[k]);
                        assert(cand[k - i - 1] == s[k]);
                    }
                }
            }
        }
        found.push(hit);
        i = i + 1;
    }
    proof {
        assert(found.deep_view() =~= emojis_of(s));
    }
    found
}

/// Replaces every `:shortcode:` that names an emoji with the emoji.
pub fn replace_shortcodes(text: &str) -> (r: String)
    ensures
        r@ == shortcodes_replaced(text@),
{
    let found = shortcode_emojis(text);
    expand_shortcodes(text, &found)
}

/// The preview shown for a history entry: shortcodes replaced, first line
/// only, at most `width` characters plus an ellipsis.
pub fn entry_preview(entry: &str, width: usize) -> (p: String)
    ensures
        p@ == preview_text(shortcodes_replaced(entry@), width as nat),
{
    let converted = replace_shortcodes(entry);
    preview_of(converted.as_str(), width)
}

/// With nothing found to replace, the scan copies `s` from `i` on.
proof fn lemma_expanded_copies(s: Seq<char>, found: Seq<Option<Seq<char>>>, i: int)
    requires
        0 <= i <= s.len(),
        forall|j: int| 0 <= j < s.len() && s[j] == ':' ==> (#[trigger] found[j]) is None,
    ensures
        expanded(s, found, i) == s.subrange(i, s.len() as int),
    decreases s.len() - i,
{
    if i < s.len() {
        lemma_expanded_copies(s, found, i + 1);
        assert(seq![s[i]] + s.subrange(i + 1, s.len() as int) =~= s.subrange(i, s.len() as int));
    } else {
        assert(s.subrange(i, s.len() as int) =~= Seq::<char>::empty());
    }
}

/// A text without any `':'` comes out of shortcode replacement unchanged.
pub proof fn law_text_without_colon_unchanged(s: Seq<char>)
    requires
        forall|j: int| 0 <= j < s.len() ==> s[j] != ':',
    ensures
        shortcodes_replaced(s) == s,
{
    lemma_expanded_copies(s, emojis_of(s), 0);
    assert(s.subrange(0, s.len() as int) =~= s);
}

/// When no candidate names an emoji, shortcode replacement leaves the text unchanged.
pub proof fn law_unknown_shortcodes_kept(s: Seq<char>)
    requires
        forall|j: int| 0 <= j < s.len() ==> (#[trigger] emoji_at(s, j)) is None,
    ensures
        shortcodes_replaced(s) == s,
{
    let f = emojis_of(s);
    assert forall|j: int| 0 <= j < s.len() && s[j] == ':' implies (#[trigger] f[j]) is None by {
        assert(f[j] == emoji_at(s, j));
    }
    lemma_expanded_copies(s, f, 0);
    assert(s.subrange(0, s.len() as int) =~= s);
}

} // verus!
