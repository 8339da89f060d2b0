//! The clipboard history (oldest entry first) and the search over it.

use vstd::prelude::*;
use crate::text::{chars_of, contains_chars, contains_seq, lowercase, to_lowercase, trim, trimmed};

verus! {

broadcast use vstd::string::group_string_axioms;

/// The clipboard history, oldest entry first, as it is kept on disk.
#[derive(Debug, Clone, PartialEq, Eq)]
pub struct History {
    pub entries: Vec<String>,
}

impl View for History {
    type V = Seq<Seq<char>>;

    open spec fn view(&self) -> Seq<Seq<char>> {
        self.entries.deep_view()
    }
}

impl Default for History {
    fn default() -> (h: Self)
        ensures
            h@ == Seq::<Seq<char>>::empty(),
    {
        History { entries: Vec::new() }
    }
}

// ---------------------------------------------------------------------------
// Search
// ---------------------------------------------------------------------------

/// Each entry lower-cased, as `str::to_lowercase` does.
pub open spec fn lowered(entries: Seq<Seq<char>>) -> Seq<Seq<char>> {
    entries.map_values(|e: Seq<char>| lowercase(e))
}

/// A lower-cased entry matches a lower-cased query when the query is empty
/// or occurs in it.
pub open spec fn matches_query(lowered_entry: Seq<char>, query: Seq<char>) -> bool {
    query.len() == 0 || contains_seq(lowered_entry, query)
}

/// The indices in `[lo, hi)` of the entries that match, highest first.
pub open spec fn matching_between(l: Seq<Seq<char>>, q: Seq<char>, lo: int, hi: int) -> Seq<int>
    decreases hi - lo,
{
    if lo >= hi {
        Seq::empty()
    } else {
        matching_between(l, q, lo + 1, hi) + if matches_query(l[lo], q) {
            seq![lo]
        } else {
            Seq::empty()
        }
    }
}

/// The first `max` elements of `s` (all of them if there are fewer).
pub open spec fn capped(s: Seq<int>, max: nat) -> Seq<int> {
    if s.len() > max {
        s.take(max as int)
    } else {
        s
    }
}

/// The indices of the lower-cased entries `l` that match `q`, newest first,
/// at most `max` of them.
pub open spec fn listed(l: Seq<Seq<char>>, q: Seq<char>, max: nat) -> Seq<int> {
    capped(matching_between(l, q, 0, l.len() as int), max)
}

/// The indices that the search shows: the entries whose lower-cased text
/// contains the lower-cased search, newest first, at most `max` of them.
pub open spec fn listing(entries: Seq<Seq<char>>, search: Seq<char>, max: nat) -> Seq<int> {
    listed(lowered(entries), lowercase(search), max)
}

/// The indices of the newest `max` of `n` entries (all of them if there are
/// fewer), newest first.
pub open spec fn newest(n: int, max: nat) -> Seq<int> {
    Seq::new(if n > max { max } else { n as nat }, |k: int| n - 1 - k)
}

/// With an empty query every entry matches: the indices in `[lo, hi)`,
/// highest first.
proof fn lemma_all_match(l: Seq<Seq<char>>, q: Seq<char>, lo: int, hi: int)
    requires
        q.len() == 0,
        lo <= hi,
    ensures
        matching_between(l, q, lo, hi) == Seq::new((hi - lo) as nat, |k: int| hi - 1 - k),
    decreases hi - lo,
{
    if lo < hi {
        lemma_all_match(l, q, lo + 1, hi);
        assert(matching_between(l, q, lo, hi) =~= Seq::new((hi - lo) as nat, |k: int| hi - 1 - k));
    } else {
        assert(matching_between(l, q, lo, hi) =~= Seq::new((hi - lo) as nat, |k: int| hi - 1 - k));
    }
}

/// Indices as mathematical integers.
pub open spec fn as_ints(s: Seq<usize>) -> Seq<int> {
    s.map_values(|i: usize| i as int)
}

/// Given the lower-cased entries and the lower-cased query, lists the
/// matching indices, newest first, at most `max` of them.
pub fn matching_indices(lowered_entries: &Vec<String>, query: &str, max: usize) -> (r: Vec<usize>)
    ensures
        as_ints(r@) == listed(lowered_entries.deep_view(), query@, max as nat),
        query@.len() == 0 ==> as_ints(r@) == newest(lowered_entries@.len() as int, max as nat),
{
    let ghost l = lowered_entries.deep_view();
    let q = chars_of(query);
    let mut r: Vec<usize> = Vec::new();
    let mut i: usize = lowered_entries.len();
    while i > 0
        invariant
            l == lowered_entries.deep_view(),
            q@ == query@,
            i <= lowered_entries.len(),
            as_ints(r@) == matching_between(l, query@, i as int, l.len() as int),
        decreases i,
    {
        let e = chars_of(lowered_entries[i - 1].as_str());
        let hit = q.len() == 0 || contains_chars(&e, &q);
        assert(l[i - 1] == lowered_entries@[i - 1]@);
        let ghost before = r@;
        if hit {
            r.push(i - 1);
        }
        assert(as_ints(r@) =~= as_ints(before) + if matches_query(l[i - 1], query@) {
            seq![i - 1]
        } else {
            Seq::<int>::empty()
        });
        i = i - 1;
    }
    if r.len() > max {
        r.truncate(max);
        assert(as_ints(r@) =~= matching_between(l, query@, 0, l.len() as int).take(max as int));
    }
    proof {
        if query@.len() == 0 {
            let n = l.len() as int;
            lemma_all_match(l, query@, 0, n);
            assert(as_ints(r@) =~= newest(n, max as nat));
        }
    }
    r
}

impl History {
    /// The number of entries.
    pub fn len(&self) -> (n: usize)
        ensures
            n == self@.len(),
    {
        self.entries.len()
    }

    /// Every entry lower-cased.
    pub fn lowered_entries(&self) -> (r: Vec<String>)
        ensures
            r.deep_view() == lowered(self@),
    {
        let mut r: Vec<String> = Vec::new();
        let mut i: usize = 0;
        while i < self.entries.len()
            invariant
                i <= self.entries.len(),
                r@.len() == i,
                forall|j: int| 0 <= j < i ==> (#[trigger] r@[j])@ == lowercase(self.entries@[j]@),
            decreases self.entries.len() - i,
        {
            r.push(to_lowercase(self.entries[i].as_str()));
            i = i + 1;
        }
        assert(r.deep_view() =~= lowered(self@));
        r
    }

    /// The indices of the entries that match `search` (case-insensitively),
    /// newest first, at most `max` of them.
    pub fn matching(&self, search: &str, max: usize) -> (r: Vec<usize>)
        ensures
            as_ints(r@) == listing(self@, search@, max as nat),
            search@.len() == 0 ==> as_ints(r@) == newest(self@.len() as int, max as nat),
    {
        let lowered_entries = self.lowered_entries();
        let query = to_lowercase(search);
        matching_indices(&lowered_entries, query.as_str(), max)
    }
}

// ---------------------------------------------------------------------------
// Capturing
// ---------------------------------------------------------------------------

/// The text that a clipboard change yields: the copied text trimmed, or
/// nothing when that is empty.
pub open spec fn capture_of(raw: Seq<char>) -> Option<Seq<char>> {
    if trimmed(raw).len() > 0 {
        Some(trimmed(raw))
    } else {
        None
    }
}

/// Trims copied text; `None` when nothing but white space was copied.
pub fn captured_text(raw: &str) -> (r: Option<String>)
    ensures
        r.deep_view() == capture_of(raw@),
{
    let t = trim(raw);
    if t.as_str().is_empty() {
        None
    } else {
        Some(t)
    }
}

/// What a clipboard change yields to record: nothing while private mode is
/// on, else the trimmed copied text if it is not blank.
pub fn capture_for(private_mode: bool, raw: &str) -> (r: Option<String>)
    ensures
        private_mode ==> r is None,
        !private_mode ==> r.deep_view() == capture_of(raw@),
{
    if private_mode {
        None
    } else {
        captured_text(raw)
    }
}

/// Whether capturing `text` adds it: it is not already the newest entry.
pub open spec fn adds_capture(entries: Seq<Seq<char>>, text: Seq<char>) -> bool {
    entries.len() == 0 || entries.last() != text
}

/// No entry equals the one right after it.
pub open spec fn no_repeats(entries: Seq<Seq<char>>) -> bool {
    forall|i: int| 0 <= i < entries.len() - 1 ==> entries[i] != #[trigger] entries[i + 1]
}

impl History {
    /// Records a captured text as the newest entry, unless it already is the
    /// newest entry. Returns whether the history changed.
    pub fn append_capture(&mut self, text: String) -> (added: bool)
        ensures
            added == adds_capture(old(self)@, text@),
            final(self)@ == if added {
                old(self)@.push(text@)
            } else {
                old(self)@
            },
            no_repeats(old(self)@) ==> no_repeats(final(self)@),
    {
        let n = self.entries.len();
        if n > 0 && self.entries[n - 1] == text {
            assert(self@.last() == text@);
            return false;
        }
        let ghost before = self@;
        self.entries.push(text);
        assert(self@ =~= before.push(text@));
        true
    }
}

} // verus!
