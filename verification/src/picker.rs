//! The searchable, keyboard-driven list of history entries that both the
//! panel applet and the launcher show: a search string, the entries that
//! match it (newest first, a bounded number of them) and an optional
//! selected position in that list.

use vstd::prelude::*;
use crate::history::{as_ints, listing, newest, History};
use crate::text::{contains_chars, chars_of, contains_seq, lowercase, pop_char, to_lowercase};

verus! {

broadcast use vstd::string::group_string_axioms;

/// The list state that the picker's operations act on.
pub struct PickerModel {
    pub entries: Seq<Seq<char>>,
    pub search: Seq<char>,
    pub selected: Option<usize>,
    pub max_entries: usize,
}

/// The first position at or after `k` that holds `x` in `list`.
pub open spec fn position_from(list: Seq<int>, x: int, k: int) -> Option<int>
    decreases list.len() - k,
{
    if k < 0 || k >= list.len() {
        None
    } else if list[k] == x {
        Some(k)
    } else {
        position_from(list, x, k + 1)
    }
}

/// The position of `x` in `list`, if it occurs.
pub open spec fn position_of(list: Seq<int>, x: int) -> Option<int> {
    position_from(list, x, 0)
}

/// `pos` moved back into a list of `count` positions: `None` for an empty
/// list, else the smaller of `pos` and the last position.
pub open spec fn clamped(pos: int, count: int) -> Option<usize> {
    if count == 0 {
        None
    } else if pos <= count - 1 {
        Some(pos as usize)
    } else {
        Some((count - 1) as usize)
    }
}

/// `n`, but at most `max`.
pub open spec fn capped_count(n: int, max: int) -> usize {
    if n < max {
        n as usize
    } else {
        max as usize
    }
}

/// The entries whose lower-cased text does not contain `q`, in order.
pub open spec fn unmatched(entries: Seq<Seq<char>>, q: Seq<char>) -> Seq<Seq<char>>
    decreases entries.len(),
{
    if entries.len() == 0 {
        Seq::empty()
    } else {
        let rest = unmatched(entries.drop_last(), q);
        if contains_seq(lowercase(entries.last()), q) {
            rest
        } else {
            rest.push(entries.last())
        }
    }
}

impl PickerModel {
    /// The history indices shown, newest first.
    pub open spec fn listing(self) -> Seq<int> {
        listing(self.entries, self.search, self.max_entries as nat)
    }

    /// The number of entries shown.
    pub open spec fn count(self) -> int {
        self.listing().len() as int
    }

    /// The history index shown at position `pos`, if there is one.
    pub open spec fn entry_at(self, pos: int) -> Option<int> {
        if 0 <= pos < self.count() {
            Some(self.listing()[pos])
        } else {
            None
        }
    }

    /// The history index shown in the row numbered `n`, counting rows from 1.
    pub open spec fn entry_numbered(self, n: int) -> Option<int> {
        if n >= 1 {
            self.entry_at(n - 1)
        } else {
            None
        }
    }

    /// The last position of the list (0 when it is empty).
    pub open spec fn last_position(self) -> int {
        if self.count() == 0 {
            0
        } else {
            self.count() - 1
        }
    }

    /// A new search: the selection is dropped.
    pub open spec fn searched(self, s: Seq<char>) -> Self {
        PickerModel { search: s, selected: None, ..self }
    }

    /// The last character of the search removed (if any); the selection is dropped.
    pub open spec fn backspaced(self) -> Self {
        PickerModel {
            search: if self.search.len() > 0 {
                self.search.drop_last()
            } else {
                self.search
            },
            selected: None,
            ..self
        }
    }

    /// Moving down: from no selection to the first position, else one
    /// position down but not past the last one.
    pub open spec fn moved_down(self) -> Self {
        PickerModel {
            selected: Some(
                match self.selected {
                    None => 0usize,
                    Some(i) => if i + 1 <= self.last_position() {
                        (i + 1) as usize
                    } else {
                        self.last_position() as usize
                    },
                },
            ),
            ..self
        }
    }

    /// Moving up: one position up, or back to no selection from the first
    /// position.
    pub open spec fn moved_up(self) -> Self {
        PickerModel {
            selected: match self.selected {
                Some(i) => if i > 0 {
                    Some((i - 1) as usize)
                } else {
                    None
                },
                None => None,
            },
            ..self
        }
    }

    /// The same list state over other entries.
    pub open spec fn with_entries(self, entries: Seq<Seq<char>>) -> Self {
        PickerModel { entries: entries, ..self }
    }

    /// Deleting the selected entry: the entry goes, and the selection stays
    /// at its position, or moves to the last position, or goes when the
    /// list is empty. Without a selected entry nothing changes.
    pub open spec fn deleted_selected(self) -> Self {
        match self.entry_at_selected() {
            Some(idx) => {
                let rest = self.with_entries(self.entries.remove(idx));
                PickerModel { selected: clamped(self.selected->0 as int, rest.count()), ..rest }
            },
            None => self,
        }
    }

    /// The history index at the selected position, if any.
    pub open spec fn entry_at_selected(self) -> Option<int> {
        match self.selected {
            Some(s) => self.entry_at(s as int),
            None => None,
        }
    }

    /// Deleting the entry with history index `idx`: when it was shown above
    /// the selection, the selection moves up one position; the selection is
    /// then kept within the list.
    pub open spec fn deleted_entry(self, idx: int) -> Self {
        if 0 <= idx < self.entries.len() {
            let rest = self.with_entries(self.entries.remove(idx));
            match (self.selected, position_of(self.listing(), idx)) {
                (Some(s), Some(d)) => PickerModel {
                    selected: if d < s {
                        clamped(s - 1, rest.count())
                    } else {
                        clamped(s as int, rest.count())
                    },
                    ..rest
                },
                _ => rest,
            }
        } else {
            self
        }
    }

    /// Deleting everything shown: with an empty search every entry goes;
    /// otherwise the entries that match go, and the search and selection
    /// are cleared.
    pub open spec fn cleared(self) -> Self {
        if self.search.len() == 0 {
            self.with_entries(Seq::empty())
        } else {
            PickerModel {
                entries: unmatched(self.entries, lowercase(self.search)),
                search: Seq::empty(),
                selected: None,
                ..self
            }
        }
    }
}

/// The list state of a picker.
pub struct Picker {
    pub history: History,
    pub search: String,
    pub selected_index: Option<usize>,
    pub max_entries: usize,
}

impl View for Picker {
    type V = PickerModel;

    open spec fn view(&self) -> PickerModel {
        PickerModel {
            entries: self.history@,
            search: self.search@,
            selected: self.selected_index,
            max_entries: self.max_entries,
        }
    }
}

/// The number shown in front of the row at `list_pos` (counted from 0):
/// the first nine rows show their row number 1 to 9, the digit key that
/// quick-copies them; the others show none.
pub fn position_label(list_pos: usize) -> (r: Option<usize>)
    ensures
        r == if list_pos < 9 {
            Some((list_pos + 1) as usize)
        } else {
            None
        },
{
    if list_pos < 9 {
        Some(list_pos + 1)
    } else {
        None
    }
}

impl Picker {
    /// An empty search over `history`, with nothing selected.
    pub fn new(history: History, max_entries: usize) -> (p: Self)
        ensures
            p@ == (PickerModel {
                entries: history@,
                search: Seq::empty(),
                selected: None,
                max_entries: max_entries,
            }),
    {
        Picker { history, search: String::new(), selected_index: None, max_entries }
    }

    /// The history indices shown, newest first.
    pub fn listing(&self) -> (r: Vec<usize>)
        ensures
            as_ints(r@) == self@.listing(),
            self@.search.len() == 0 ==> as_ints(r@) == newest(
                self@.entries.len() as int,
                self@.max_entries as nat,
            ),
    {
        self.history.matching(self.search.as_str(), self.max_entries)
    }

    /// The entries shown, newest first, each with its history index.
    pub fn filtered_entries(&self) -> (r: Vec<(usize, &String)>)
        ensures
            r@.len() == self@.count(),
            forall|k: int|
                0 <= k < r@.len() ==> {
                    &&& (#[trigger] r@[k]).0 as int == self@.listing()[k]
                    &&& r@[k].1@ == self@.entries[self@.listing()[k]]
                },
    {
        let indices = self.listing();
        proof {
            crate::laws::lemma_listing_in_range(self@.entries, self@.search, self@.max_entries as nat);
        }
        let mut r: Vec<(usize, &String)> = Vec::new();
        let mut k: usize = 0;
        while k < indices.len()
            invariant
                as_ints(indices@) == self@.listing(),
                forall|j: int|
                    0 <= j < indices@.len() ==> 0 <= #[trigger] self@.listing()[j]
                        < self@.entries.len(),
                k <= indices.len(),
                r@.len() == k,
                forall|j: int|
                    0 <= j < k ==> {
                        &&& (#[trigger] r@[j]).0 as int == self@.listing()[j]
                        &&& r@[j].1@ == self@.entries[self@.listing()[j]]
                    },
            decreases indices.len() - k,
        {
            let idx = indices[k];
            assert(self@.listing()[k as int] == idx as int);
            r.push((idx, &self.history.entries[idx]));
            k = k + 1;
        }
        r
    }

    /// The number of entries shown.
    pub fn count(&self) -> (n: usize)
        ensures
            n == self@.count(),
    {
        self.listing().len()
    }

    /// The history index shown at position `pos`, if any.
    pub fn entry_at(&self, pos: usize) -> (r: Option<usize>)
        ensures
            match r {
                Some(i) => self@.entry_at(pos as int) == Some(i as int),
                None => self@.entry_at(pos as int) is None,
            },
    {
        let indices = self.listing();
        if pos < indices.len() {
            assert(self@.listing()[pos as int] == indices@[pos as int] as int);
            Some(indices[pos])
        } else {
            None
        }
    }

    /// The history index shown in the row numbered `n` (counting from 1), if any.
    pub fn entry_numbered(&self, n: usize) -> (r: Option<usize>)
        ensures
            match r {
                Some(i) => self@.entry_numbered(n as int) == Some(i as int),
                None => self@.entry_numbered(n as int) is None,
            },
    {
        if n >= 1 {
            self.entry_at(n - 1)
        } else {
            None
        }
    }

    /// Replaces the search; the selection is dropped.
    pub fn set_search(&mut self, s: String)
        ensures
            final(self)@ == old(self)@.searched(s@),
    {
        self.search = s;
        self.selected_index = None;
    }

    /// Removes the last character of the search; the selection is dropped.
    pub fn backspace(&mut self)
        ensures
            final(self)@ == old(self)@.backspaced(),
    {
        let _ = pop_char(&mut self.search);
        self.selected_index = None;
    }

    /// Moves the selection down; returns the number of entries shown.
    pub fn move_down(&mut self) -> (count: usize)
        ensures
            final(self)@ == old(self)@.moved_down(),
            count == old(self)@.count(),
    {
        let count = self.count();
        let last = if count == 0 {
            0
        } else {
            count - 1
        };
        self.selected_index = Some(
            match self.selected_index {
                None => 0,
                Some(i) => if i < last {
                    i + 1
                } else {
                    last
                },
            },
        );
        count
    }

    /// Moves the selection up; returns the number of entries shown.
    pub fn move_up(&mut self) -> (count: usize)
        ensures
            final(self)@ == old(self)@.moved_up(),
            count == old(self)@.count(),
    {
        let count = self.count();
        self.selected_index = match self.selected_index {
            Some(i) => if i > 0 {
                Some(i - 1)
            } else {
                None
            },
            None => None,
        };
        count
    }

    /// The history index at the selected position, if any.
    pub fn selected_entry(&self) -> (r: Option<usize>)
        ensures
            match r {
                Some(i) => self@.entry_at_selected() == Some(i as int),
                None => self@.entry_at_selected() is None,
            },
    {
        match self.selected_index {
            Some(s) => self.entry_at(s),
            None => None,
        }
    }

    /// A copy of the entry with history index `idx`, if there is one.
    pub fn entry_text(&self, idx: usize) -> (r: Option<String>)
        ensures
            r.deep_view() == if idx < self@.entries.len() {
                Some(self@.entries[idx as int])
            } else {
                None
            },
    {
        if idx < self.history.entries.len() {
            Some(self.history.entries[idx].clone())
        } else {
            None
        }
    }

    /// Removes the entry with history index `idx` (which must exist).
    fn remove_entry(&mut self, idx: usize)
        requires
            idx < old(self)@.entries.len(),
        ensures
            final(self)@ == old(self)@.with_entries(old(self)@.entries.remove(idx as int)),
    {
        let ghost before = self.history@;
        self.history.entries.remove(idx);
        assert(self.history@ =~= before.remove(idx as int));
    }

    /// Deletes the selected entry. Returns whether an entry was deleted.
    pub fn delete_selected(&mut self) -> (deleted: bool)
        ensures
            final(self)@ == old(self)@.deleted_selected(),
            deleted == old(self)@.entry_at_selected() is Some,
    {
        let sel = match self.selected_index {
            Some(s) => s,
            None => return false,
        };
        let idx = match self.entry_at(sel) {
            Some(i) => i,
            None => return false,
        };
        proof {
            crate::laws::lemma_listing_in_range(self@.entries, self@.search, self@.max_entries as nat);
        }
        self.remove_entry(idx);
        let count = self.count();
        self.selected_index = if count == 0 {
            None
        } else if sel <= count - 1 {
            Some(sel)
        } else {
            Some(count - 1)
        };
        true
    }

    /// The position of history index `idx` in the list shown, if it is shown.
    fn position_in_listing(&self, idx: usize) -> (r: Option<usize>)
        ensures
            match r {
                Some(d) => position_of(self@.listing(), idx as int) == Some(d as int),
                None => position_of(self@.listing(), idx as int) is None,
            },
    {
        let indices = self.listing();
        let ghost l = self@.listing();
        let mut k: usize = 0;
        while k < indices.len()
            invariant
                l == self@.listing(),
                as_ints(indices@) == l,
                k <= indices.len(),
                position_of(l, idx as int) == position_from(l, idx as int, k as int),
            decreases indices.len() - k,
        {
            assert(l[k as int] == indices@[k as int] as int);
            assert(l.len() == indices@.len());
            if indices[k] == idx {
                assert(position_from(l, idx as int, k as int) == Some(k as int));
                return Some(k);
            }
            k = k + 1;
        }
        None
    }

    /// Deletes the entry with history index `idx`, if there is one, keeping
    /// the selection on the same position of the list where the entry was
    /// shown below it, and moving it up one position where it was shown
    /// above. Returns whether an entry was deleted.
    pub fn delete_entry(&mut self, idx: usize) -> (deleted: bool)
        ensures
            final(self)@ == old(self)@.deleted_entry(idx as int),
            deleted == (idx < old(self)@.entries.len()),
    {
        if idx >= self.history.entries.len() {
            return false;
        }
        let ghost before = self@;
        let deleted_pos = self.position_in_listing(idx);
        self.remove_entry(idx);
        match (self.selected_index, deleted_pos) {
            (Some(sel), Some(del)) => {
                let count = self.count();
                self.selected_index = if count == 0 {
                    None
                } else if del < sel {
                    if sel - 1 <= count - 1 {
                        Some(sel - 1)
                    } else {
                        Some(count - 1)
                    }
                } else if sel <= count - 1 {
                    Some(sel)
                } else {
                    Some(count - 1)
                };
            },
            _ => {},
        }
        true
    }

    /// Deletes what the list shows: every entry when the search is empty;
    /// otherwise the entries that match the search, and then the search and
    /// the selection are cleared.
    pub fn delete_all(&mut self)
        ensures
            final(self)@ == old(self)@.cleared(),
    {
        if self.search.as_str().is_empty() {
            self.history.entries.clear();
            assert(self.history@ =~= Seq::<Seq<char>>::empty());
            return ;
        }
        let query_lower = to_lowercase(self.search.as_str());
        let q = chars_of(query_lower.as_str());
        let ghost entries = self.history@;
        let mut kept: Vec<String> = Vec::new();
        let mut i: usize = 0;
        while i < self.history.entries.len()
            invariant
                entries == self.history@,
                q@ == lowercase(self.search@),
                i <= self.history.entries.len(),
                kept.deep_view() == unmatched(entries.take(i as int), q@),
            decreases self.history.entries.len() - i,
        {
            let e = to_lowercase(self.history.entries[i].as_str());
            let ev = chars_of(e.as_str());
            let hit = contains_chars(&ev, &q);
            assert(entries.take(i + 1).drop_last() =~= entries.take(i as int));
            assert(entries.take(i + 1).last() == self.history.entries@[i as int]@);
            if !hit {
                let ghost before = kept.deep_view();
                kept.push(self.history.entries[i].clone());
                assert(kept.deep_view() =~= before.push(self.history.entries@[i as int]@));
            }
            i = i + 1;
        }
        assert(entries.take(entries.len() as int) =~= entries);
        self.history.entries = kept;
        self.search = String::new();
        self.selected_index = None;
    }

    /// How many entries "clear" would delete when a search is typed: the
    /// entries whose lower-cased text contains the lower-cased search, at
    /// most the number shown. `None` when the search is empty, where every
    /// entry goes.
    pub fn clear_count(&self) -> (r: Option<usize>)
        ensures
            self@.search.len() == 0 ==> r is None,
            self@.search.len() > 0 ==> r == Some(
                capped_count(
                    self@.entries.len() - unmatched(self@.entries, lowercase(self@.search)).len(),
                    self@.max_entries as int,
                ),
            ),
    {
        if self.search.as_str().is_empty() {
            return None;
        }
        let query_lower = to_lowercase(self.search.as_str());
        let q = chars_of(query_lower.as_str());
        let ghost entries = self.history@;
        let mut matched: usize = 0;
        let mut i: usize = 0;
        while i < self.history.entries.len()
            invariant
                entries == self.history@,
                q@ == lowercase(self.search@),
                i <= self.history.entries.len(),
                matched <= i,
                matched == i - unmatched(entries.take(i as int), q@).len(),
            decreases self.history.entries.len() - i,
        {
            let e = to_lowercase(self.history.entries[i].as_str());
            let ev = chars_of(e.as_str());
            assert(entries.take(i + 1).drop_last() =~= entries.take(i as int));
            assert(entries.take(i + 1).last() == self.history.entries@[i as int]@);
            if contains_chars(&ev, &q) {
                matched = matched + 1;
            }
            i = i + 1;
        }
        assert(entries.take(entries.len() as int) =~= entries);
        Some(
            if matched < self.max_entries {
                matched
            } else {
                self.max_entries
            },
        )
    }
}

} // verus!
