//! Properties of the search listing and of the list operations that span
//! several calls.

use vstd::prelude::*;
use crate::history::{capped, listing, lowered, matches_query, matching_between};
use crate::picker::{clamped, position_from, position_of, unmatched, PickerModel};
use crate::text::{
    contains_seq, find_from, is_alphanumeric, is_white_space, lemma_find_from, lowercase,
    strip_leading, strip_trailing,
};
use crate::history::capture_of;
use crate::shortcodes::{emoji_by_shortcode, emojis_of, expanded, shortcodes_replaced};
use crate::applet::{applet_step, Message as AppletMessage, WindowModel};
use crate::launcher::{launcher_step, Message as LauncherMessage};
use crate::effects::Command;
use crate::input::{Event, Key};

verus! {

/// The indices that `matching_between` lists lie in `[lo, hi)`, strictly
/// decrease, and are exactly the matching ones.
pub proof fn lemma_between(l: Seq<Seq<char>>, q: Seq<char>, lo: int, hi: int)
    requires
        lo <= hi,
    ensures
        matching_between(l, q, lo, hi).len() <= hi - lo,
        forall|j: int|
            0 <= j < matching_between(l, q, lo, hi).len() ==> lo <= #[trigger] matching_between(
                l,
                q,
                lo,
                hi,
            )[j] < hi,
        forall|a: int, b: int|
            0 <= a < b < matching_between(l, q, lo, hi).len() ==> #[trigger] matching_between(
                l,
                q,
                lo,
                hi,
            )[a] > #[trigger] matching_between(l, q, lo, hi)[b],
        forall|j: int|
            0 <= j < matching_between(l, q, lo, hi).len() ==> matches_query(
                l[#[trigger] matching_between(l, q, lo, hi)[j]],
                q,
            ),
        forall|x: int|
            lo <= x < hi && matches_query(l[x], q) ==> #[trigger] matching_between(
                l,
                q,
                lo,
                hi,
            ).contains(x),
    decreases hi - lo,
{
    if lo < hi {
        lemma_between(l, q, lo + 1, hi);
        let rest = matching_between(l, q, lo + 1, hi);
        let m = matching_between(l, q, lo, hi);
        assert forall|x: int| lo <= x < hi && matches_query(l[x], q) implies #[trigger] m.contains(x) by {
            if x == lo {
                assert(m[m.len() - 1] == lo);
            } else {
                assert(rest.contains(x));
                let k = choose|k: int| 0 <= k < rest.len() && rest[k] == x;
                assert(m[k] == x);
            }
        }
    }
}

/// Every index that the search lists is an index of the history.
pub proof fn lemma_listing_in_range(entries: Seq<Seq<char>>, search: Seq<char>, max: nat)
    ensures
        forall|j: int|
            0 <= j < listing(entries, search, max).len() ==> 0 <= #[trigger] listing(
                entries,
                search,
                max,
            )[j] < entries.len(),
{
    let l = lowered(entries);
    lemma_between(l, crate::text::lowercase(search), 0, l.len() as int);
}

/// `matching_between` over `[lo, hi)` is the part over `[mid, hi)`
/// followed by the part over `[lo, mid)`.
proof fn lemma_between_split(l: Seq<Seq<char>>, q: Seq<char>, lo: int, mid: int, hi: int)
    requires
        lo <= mid <= hi,
    ensures
        matching_between(l, q, lo, hi) == matching_between(l, q, mid, hi) + matching_between(
            l,
            q,
            lo,
            mid,
        ),
    decreases mid - lo,
{
    if lo < mid {
        lemma_between_split(l, q, lo + 1, mid, hi);
        let x = if matches_query(l[lo], q) {
            seq![lo]
        } else {
            Seq::<int>::empty()
        };
        assert(matching_between(l, q, lo, hi) =~= matching_between(l, q, mid, hi) + (
        matching_between(l, q, lo + 1, mid) + x));
    } else {
        assert(matching_between(l, q, mid, hi) + matching_between(l, q, lo, mid) =~= matching_between(
            l,
            q,
            mid,
            hi,
        ));
    }
}

/// `matching_between` only looks at the entries in `[lo, hi)`.
proof fn lemma_between_same(l: Seq<Seq<char>>, l2: Seq<Seq<char>>, q: Seq<char>, lo: int, hi: int)
    requires
        forall|x: int| lo <= x < hi ==> l[x] == l2[x],
    ensures
        matching_between(l, q, lo, hi) == matching_between(l2, q, lo, hi),
    decreases hi - lo,
{
    if lo < hi {
        lemma_between_same(l, l2, q, lo + 1, hi);
    }
}

/// Every index, one down.
pub open spec fn shifted_down(s: Seq<int>) -> Seq<int> {
    s.map_values(|x: int| x - 1)
}

/// Over entries moved one index down, the same entries match, one index down.
proof fn lemma_between_shift(l: Seq<Seq<char>>, l2: Seq<Seq<char>>, q: Seq<char>, lo: int, hi: int)
    requires
        forall|x: int| lo <= x < hi ==> l2[x] == l[x + 1],
    ensures
        matching_between(l2, q, lo, hi) == shifted_down(matching_between(l, q, lo + 1, hi + 1)),
    decreases hi - lo,
{
    if lo < hi {
        lemma_between_shift(l, l2, q, lo + 1, hi);
        assert(matching_between(l2, q, lo, hi) =~= shifted_down(
            matching_between(l, q, lo + 1, hi + 1),
        ));
    } else {
        assert(matching_between(l2, q, lo, hi) =~= shifted_down(
            matching_between(l, q, lo + 1, hi + 1),
        ));
    }
}

/// How the matches change when the entry `idx` is removed: those above it
/// move one index down, the entry itself goes, those below stay.
proof fn lemma_between_remove(l: Seq<Seq<char>>, q: Seq<char>, idx: int)
    requires
        0 <= idx < l.len(),
    ensures
        matching_between(l, q, 0, l.len() as int) == matching_between(l, q, idx + 1, l.len() as int)
            + (if matches_query(l[idx], q) {
            seq![idx]
        } else {
            Seq::<int>::empty()
        }) + matching_between(l, q, 0, idx),
        matching_between(l.remove(idx), q, 0, l.len() - 1) == shifted_down(
            matching_between(l, q, idx + 1, l.len() as int),
        ) + matching_between(l, q, 0, idx),
{
    let n = l.len() as int;
    let l2 = l.remove(idx);
    lemma_between_split(l, q, 0, idx, n);
    lemma_between_split(l2, q, 0, idx, n - 1);
    lemma_between_same(l, l2, q, 0, idx);
    lemma_between_shift(l, l2, q, idx, n - 1);
}

/// What `position_from` finds: the first position at or after `k` that holds `x`.
proof fn lemma_position_from(list: Seq<int>, x: int, k: int)
    requires
        0 <= k,
    ensures
        match position_from(list, x, k) {
            Some(d) => k <= d < list.len() && list[d] == x && forall|j: int|
                k <= j < d ==> list[j] != x,
            None => forall|j: int| k <= j < list.len() ==> list[j] != x,
        },
    decreases list.len() - k,
{
    if k < list.len() && list[k] != x {
        lemma_position_from(list, x, k + 1);
    }
}

/// The search lists at most `max` entries, newest first; each listed entry
/// matches the search; and no unlisted entry that matches is newer than a
/// listed one, so with fewer than `max` listed, every match is listed.
pub proof fn law_listing_shape(entries: Seq<Seq<char>>, search: Seq<char>, max: nat)
    ensures
        listing(entries, search, max).len() <= max,
        forall|k: int|
            0 <= k < listing(entries, search, max).len() ==> {
                let i = #[trigger] listing(entries, search, max)[k];
                &&& 0 <= i < entries.len()
                &&& matches_query(lowercase(entries[i]), lowercase(search))
            },
        forall|a: int, b: int|
            0 <= a < b < listing(entries, search, max).len() ==> #[trigger] listing(
                entries,
                search,
                max,
            )[a] > #[trigger] listing(entries, search, max)[b],
        forall|x: int|
            0 <= x < entries.len() && matches_query(lowercase(entries[x]), lowercase(search))
                && !listing(entries, search, max).contains(x) ==> {
                &&& listing(entries, search, max).len() == max
                &&& forall|k: int|
                    0 <= k < listing(entries, search, max).len() ==> x < #[trigger] listing(
                        entries,
                        search,
                        max,
                    )[k]
            },
{
    let l = lowered(entries);
    let q = lowercase(search);
    let full = matching_between(l, q, 0, l.len() as int);
    let lst = listing(entries, search, max);
    lemma_between(l, q, 0, l.len() as int);
    assert forall|x: int|
        0 <= x < entries.len() && matches_query(lowercase(entries[x]), lowercase(search))
            && !lst.contains(x) implies {
        &&& lst.len() == max
        &&& forall|k: int| 0 <= k < lst.len() ==> x < #[trigger] lst[k]
    } by {
        assert(l[x] == lowercase(entries[x]));
        assert(full.contains(x));
        let p = choose|p: int| 0 <= p < full.len() && full[p] == x;
        if full.len() <= max {
            assert(lst[p] == x);
        } else {
            if p < max {
                assert(lst[p] == x);
            }
            assert forall|k: int| 0 <= k < lst.len() implies x < #[trigger] lst[k] by {
                assert(lst[k] == full[k]);
            }
        }
    }
}

/// Moving down and then up restores the selection, unless the selection
/// was already at the last position.
pub proof fn law_down_then_up(p: PickerModel)
    requires
        match p.selected {
            Some(i) => i < p.last_position(),
            None => true,
        },
    ensures
        p.moved_down().moved_up().selected == p.selected,
{
}

/// Moving up and then down restores a selection that is not at the first
/// position and lies within the list.
pub proof fn law_up_then_down(p: PickerModel)
    requires
        p.selected is Some,
        0 < p.selected->0 <= p.last_position(),
    ensures
        p.moved_up().moved_down().selected == p.selected,
{
}

/// Deleting an entry other than the selected one keeps the same entry
/// selected (the selection follows it to its new position).
pub proof fn law_delete_other_keeps_selected_entry(p: PickerModel, idx: int)
    requires
        0 <= idx < p.entries.len(),
        p.entry_at_selected() is Some,
        p.entry_at_selected()->0 != idx,
    ensures
        p.deleted_entry(idx).entry_at_selected() is Some,
        p.deleted_entry(idx).entries[p.deleted_entry(idx).entry_at_selected()->0] == p.entries[p.entry_at_selected()->0],
{
    let entries = p.entries;
    let e2 = entries.remove(idx);
    let l = lowered(entries);
    let l2 = lowered(e2);
    assert(l2 =~= l.remove(idx));
    let q = lowercase(p.search);
    let n = l.len() as int;
    let max = p.max_entries as nat;
    lemma_between_remove(l, q, idx);
    lemma_between(l, q, idx + 1, n);
    lemma_between(l, q, 0, idx);
    let a_part = matching_between(l, q, idx + 1, n);
    let b_part = matching_between(l, q, 0, idx);
    let hit = matches_query(l[idx], q);
    let x_part = if hit {
        seq![idx]
    } else {
        Seq::<int>::empty()
    };
    let full = matching_between(l, q, 0, n);
    let full2 = matching_between(l2, q, 0, n - 1);
    assert(full == a_part + x_part + b_part);
    assert(full2 == shifted_down(a_part) + b_part);
    let lst = p.listing();
    let after = p.deleted_entry(idx);
    let lst2 = after.listing();
    assert(lst == capped(full, max));
    assert(lst2 == capped(full2, max));
    let s = p.selected->0 as int;
    let j = lst[s];
    let a = a_part.len() as int;
    assert(lst[s] == full[s]);
    lemma_position_from(lst, idx, 0);
    if s < a {
        assert(full[s] == a_part[s]);
        assert(full2[s] == a_part[s] - 1);
        assert(lst2[s] == full2[s]);
        match position_of(lst, idx) {
            Some(d) => {
                assert forall|k: int| 0 <= k < a && k < lst.len() implies lst[k] != idx by {
                    assert(lst[k] == full[k]);
                    assert(full[k] == a_part[k]);
                }
                if d < a {
                    assert(lst[d] == full[d]);
                    assert(full[d] == a_part[d]);
                }
                assert(d >= a);
                assert(d > s);
            },
            None => {},
        }
        assert(after.selected == Some(s as usize));
        assert(e2[j - 1] == entries[j]);
    } else if hit {
        assert(full[a] == idx);
        assert(s != a);
        assert(s > a);
        assert(full[s] == b_part[s - a - 1]);
        assert(full2[s - 1] == b_part[s - 1 - a]);
        assert(lst2[s - 1] == full2[s - 1]);
        assert(lst[a] == idx);
        match position_of(lst, idx) {
            Some(d) => {
                assert forall|k: int| 0 <= k < a implies lst[k] != idx by {
                    assert(lst[k] == full[k]);
                    assert(full[k] == a_part[k]);
                }
                assert(d == a);
            },
            None => {
                assert(false);
            },
        }
        assert(after.selected == Some((s - 1) as usize));
        assert(e2[j] == entries[j]);
    } else {
        assert(full[s] == b_part[s - a]);
        assert(full2[s] == b_part[s - a]);
        assert(lst2[s] == full2[s]);
        match position_of(lst, idx) {
            Some(d) => {
                assert(lst[d] == full[d]);
                if d < a {
                    assert(full[d] == a_part[d]);
                } else {
                    assert(full[d] == b_part[d - a]);
                }
                assert(false);
            },
            None => {},
        }
        assert(after.selected == Some(s as usize));
        assert(e2[j] == entries[j]);
    }
}

/// After "clear" with a search typed, no entry left contains the search
/// (compared lower-cased).
pub proof fn law_clear_leaves_no_match(p: PickerModel)
    requires
        p.search.len() > 0,
    ensures
        forall|i: int|
            0 <= i < p.cleared().entries.len() ==> !contains_seq(
                lowercase(#[trigger] p.cleared().entries[i]),
                lowercase(p.search),
            ),
{
    lemma_unmatched(p.entries, lowercase(p.search));
}

/// Every entry that `unmatched` keeps does not contain `q`.
proof fn lemma_unmatched(entries: Seq<Seq<char>>, q: Seq<char>)
    ensures
        forall|i: int|
            0 <= i < unmatched(entries, q).len() ==> !contains_seq(
                lowercase(#[trigger] unmatched(entries, q)[i]),
                q,
            ),
    decreases entries.len(),
{
    if entries.len() > 0 {
        lemma_unmatched(entries.drop_last(), q);
        let rest = unmatched(entries.drop_last(), q);
        let u = unmatched(entries, q);
        assert forall|i: int| 0 <= i < u.len() implies !contains_seq(lowercase(#[trigger] u[i]), q) by {
            if i < rest.len() {
                assert(u[i] == rest[i]);
            }
        }
    }
}

/// The selection points at a listed row, or is the first position (which
/// moving down selects even in an empty list).
pub open spec fn selection_in_list(p: PickerModel) -> bool {
    match p.selected {
        Some(i) => i < p.count() || i == 0,
        None => true,
    }
}

/// Deleting an entry that the list does not show leaves at least as many
/// rows listed.
proof fn lemma_unlisted_delete_keeps_count(p: PickerModel, idx: int)
    requires
        0 <= idx < p.entries.len(),
        position_of(p.listing(), idx) is None,
    ensures
        p.with_entries(p.entries.remove(idx)).count() >= p.count(),
{
    let entries = p.entries;
    let e2 = entries.remove(idx);
    let l = lowered(entries);
    let l2 = lowered(e2);
    assert(l2 =~= l.remove(idx));
    let q = lowercase(p.search);
    let n = l.len() as int;
    let max = p.max_entries as nat;
    lemma_between_remove(l, q, idx);
    let a_part = matching_between(l, q, idx + 1, n);
    let b_part = matching_between(l, q, 0, idx);
    let full = matching_between(l, q, 0, n);
    let full2 = matching_between(l2, q, 0, n - 1);
    let lst = p.listing();
    assert(lst == capped(full, max));
    assert(p.with_entries(e2).listing() == capped(full2, max));
    lemma_position_from(lst, idx, 0);
    if matches_query(l[idx], q) {
        let a = a_part.len() as int;
        assert(full[a] == idx);
        if a < lst.len() {
            assert(lst[a] == full[a]);
            assert(false);
        }
        assert(full2.len() == full.len() - 1);
    } else {
        assert(full2.len() == full.len());
    }
}

/// Deleting an entry keeps the selection on a listed row (or the first position).
proof fn lemma_deleted_entry_in_list(p: PickerModel, idx: int)
    requires
        selection_in_list(p),
    ensures
        selection_in_list(p.deleted_entry(idx)),
{
    if 0 <= idx < p.entries.len() {
        let rest = p.with_entries(p.entries.remove(idx));
        let after = p.deleted_entry(idx);
        assert(after.listing() == rest.listing());
        let c = rest.count();
        match (p.selected, position_of(p.listing(), idx)) {
            (Some(s), Some(d)) => {
                let pos = if d < s {
                    s - 1
                } else {
                    s as int
                };
                assert(after.selected == clamped(pos, c));
                lemma_position_from(p.listing(), idx, 0);
                assert(pos >= 0);
            },
            (Some(s), None) => {
                lemma_unlisted_delete_keeps_count(p, idx);
                assert(after.selected == Some(s));
            },
            _ => {},
        }
    }
}

/// While the applet's popup is open, its selection points at a listed row
/// (or is the first position): every message keeps this so.
pub proof fn law_applet_selection_in_list(w: WindowModel, m: AppletMessage)
    requires
        w.popup is Some ==> selection_in_list(w.picker),
    ensures
        applet_step(w, m).0.popup is Some ==> selection_in_list(applet_step(w, m).0.picker),
{
    match m {
        AppletMessage::DeleteEntry(idx) => {
            if w.popup is Some {
                lemma_deleted_entry_in_list(w.picker, idx as int);
            }
        },
        _ => {},
    }
}

/// The launcher's selection points at a listed row (or is the first
/// position): every message keeps this so.
pub proof fn law_launcher_selection_in_list(p: PickerModel, m: LauncherMessage)
    requires
        selection_in_list(p),
    ensures
        selection_in_list(launcher_step(p, m).0),
{
    match m {
        LauncherMessage::DeleteEntry(idx) => {
            lemma_deleted_entry_in_list(p, idx as int);
        },
        _ => {},
    }
}

/// Deleting the selected entry removes exactly the entry shown in the
/// selected row of the filtered list (an entry that matches the search),
/// and leaves every other entry in its order.
pub proof fn law_delete_selected_removes_shown_entry(p: PickerModel)
    requires
        p.selected is Some,
        p.selected->0 < p.count(),
    ensures
        0 <= p.listing()[p.selected->0 as int] < p.entries.len(),
        matches_query(
            lowercase(p.entries[p.listing()[p.selected->0 as int]]),
            lowercase(p.search),
        ),
        p.deleted_selected().entries == p.entries.remove(p.listing()[p.selected->0 as int]),
{
    law_listing_shape(p.entries, p.search, p.max_entries as nat);
    let s = p.selected->0 as int;
    assert(p.entry_at_selected() == Some(p.listing()[s]));
}

/// "Clear all" with no search typed empties the history.
pub proof fn law_clear_with_empty_search_empties(p: PickerModel)
    requires
        p.search.len() == 0,
    ensures
        p.cleared().entries.len() == 0,
{
}

/// "Clear" with a search typed keeps exactly the entries that do not
/// contain the search (compared lower-cased), in their order.
pub proof fn law_clear_keeps_exactly_unmatched(p: PickerModel)
    requires
        p.search.len() > 0,
    ensures
        p.cleared().entries == p.entries.filter(
            |e: Seq<char>| !contains_seq(lowercase(e), lowercase(p.search)),
        ),
{
    lemma_unmatched_is_filter(p.entries, lowercase(p.search));
}

/// `unmatched` keeps what `Seq::filter` keeps for "does not contain `q`".
proof fn lemma_unmatched_is_filter(entries: Seq<Seq<char>>, q: Seq<char>)
    ensures
        unmatched(entries, q) == entries.filter(|e: Seq<char>| !contains_seq(lowercase(e), q)),
    decreases entries.len(),
{
    reveal(Seq::filter);
    if entries.len() > 0 {
        lemma_unmatched_is_filter(entries.drop_last(), q);
    }
}

/// `strip_leading` drops the white space before the first other character.
proof fn lemma_strip_leading(s: Seq<char>) -> (k: int)
    ensures
        0 <= k <= s.len(),
        strip_leading(s) == s.subrange(k, s.len() as int),
        forall|j: int| 0 <= j < k ==> is_white_space(s[j]),
        k < s.len() ==> !is_white_space(s[k]),
    decreases s.len(),
{
    if s.len() > 0 && is_white_space(s[0]) {
        let k1 = lemma_strip_leading(s.drop_first());
        assert(s.drop_first().subrange(k1, s.len() - 1) =~= s.subrange(k1 + 1, s.len() as int));
        assert forall|j: int| 0 <= j < k1 + 1 implies is_white_space(s[j]) by {
            if j > 0 {
                assert(s[j] == s.drop_first()[j - 1]);
            }
        }
        if k1 + 1 < s.len() {
            assert(s[k1 + 1] == s.drop_first()[k1]);
        }
        k1 + 1
    } else {
        assert(s.subrange(0, s.len() as int) =~= s);
        0
    }
}

/// `strip_trailing` drops the white space after the last other character.
proof fn lemma_strip_trailing(s: Seq<char>) -> (m: int)
    ensures
        0 <= m <= s.len(),
        strip_trailing(s) == s.subrange(0, m),
        forall|j: int| m <= j < s.len() ==> is_white_space(s[j]),
        m > 0 ==> !is_white_space(s[m - 1]),
    decreases s.len(),
{
    if s.len() > 0 && is_white_space(s.last()) {
        let m1 = lemma_strip_trailing(s.drop_last());
        assert(s.drop_last().subrange(0, m1) =~= s.subrange(0, m1));
        assert forall|j: int| m1 <= j < s.len() implies is_white_space(s[j]) by {
            if j < s.len() - 1 {
                assert(s[j] == s.drop_last()[j]);
            }
        }
        if m1 > 0 {
            assert(s[m1 - 1] == s.drop_last()[m1 - 1]);
        }
        m1
    } else {
        assert(s.subrange(0, s.len() as int) =~= s);
        s.len() as int
    }
}

/// A clipboard change records nothing exactly when only white space was
/// copied; otherwise it records the copied text from its first to its last
/// character that is not white space, all lines included.
pub proof fn law_capture_is_trimmed_copy(raw: Seq<char>)
    ensures
        capture_of(raw) is None <==> (forall|k: int| 0 <= k < raw.len() ==> is_white_space(raw[k])),
        capture_of(raw) is Some ==> exists|i: int, j: int|
            #![trigger raw.subrange(i, j)]
            {
                &&& 0 <= i < j <= raw.len()
                &&& capture_of(raw)->0 == raw.subrange(i, j)
                &&& forall|k: int| 0 <= k < i ==> is_white_space(raw[k])
                &&& forall|k: int| j <= k < raw.len() ==> is_white_space(raw[k])
                &&& !is_white_space(raw[i])
                &&& !is_white_space(raw[j - 1])
            },
{
    let k = lemma_strip_leading(raw);
    let lead = raw.subrange(k, raw.len() as int);
    let m = lemma_strip_trailing(lead);
    let t = lead.subrange(0, m);
    assert(t =~= raw.subrange(k, k + m));
    assert forall|j: int| k <= j < raw.len() && (j - k >= m) implies is_white_space(raw[j]) by {
        assert(raw[j] == lead[j - k]);
    }
    if m > 0 {
        assert(raw[k] == lead[0]);
        assert(!is_white_space(raw[k])) by {
            if is_white_space(raw[k]) {
                assert(k < raw.len());
            }
        }
        assert(raw[k + m - 1] == lead[m - 1]);
        assert(raw.subrange(k, k + m) == raw.subrange(k, k + m));
    } else {
        if k < raw.len() {
            assert(lead[0] == raw[k]);
            assert(is_white_space(lead[0]));
        }
    }
}

/// A shortcode written between two colons, made of alphanumeric characters,
/// `'_'`, `'-'` and `'+'`, is replaced by the emoji it names.
pub proof fn law_named_shortcode_is_replaced(code: Seq<char>, emoji: Seq<char>)
    requires
        code.len() > 0,
        forall|k: int|
            0 <= k < code.len() ==> #[trigger] code[k] != ':' && (is_alphanumeric(code[k])
                || code[k] == '_' || code[k] == '-' || code[k] == '+'),
        emoji_by_shortcode(code) == Some(emoji),
    ensures
        shortcodes_replaced(seq![':'] + code + seq![':']) == emoji,
{
    let s = seq![':'] + code + seq![':'];
    let n = s.len() as int;
    lemma_find_from(s, ':', 1);
    let close = find_from(s, ':', 1);
    assert(s[n - 1] == ':');
    if close < n - 1 {
        assert(s[close] == code[close - 1]);
    }
    assert(close == n - 1);
    assert(s.subrange(1, n - 1) =~= code);
    let f = emojis_of(s);
    assert(f[0] == Some(emoji));
    assert(expanded(s, f, n) == Seq::<char>::empty());
    assert(expanded(s, f, 0) == emoji + expanded(s, f, n));
    assert(emoji + Seq::<char>::empty() =~= emoji);
}

/// Deleting the entry with history index `idx` takes out that entry alone:
/// the entries before it stay where they are, those after it move one place
/// down, in their order.
pub proof fn law_delete_entry_removes_that_entry(p: PickerModel, idx: int)
    requires
        0 <= idx < p.entries.len(),
    ensures
        p.deleted_entry(idx).entries.len() == p.entries.len() - 1,
        forall|j: int| 0 <= j < idx ==> #[trigger] p.deleted_entry(idx).entries[j] == p.entries[j],
        forall|j: int|
            idx < j < p.entries.len() ==> p.deleted_entry(idx).entries[j - 1] == #[trigger] p.entries[j],
{
    assert(p.deleted_entry(idx).entries == p.entries.remove(idx));
}

/// In the applet, `d` deletes the selection whether or not Ctrl is reported
/// with it (the panel reports Ctrl and Logo with every key).
pub proof fn law_applet_d_deletes(c: String, control: bool)
    requires
        c@ == seq!['d'],
    ensures
        crate::applet::message_for(Event::KeyPressed { key: Key::Character(c), control })
            == Some(AppletMessage::DeleteSelected),
{
}

/// In the open applet, Ctrl with the digit `n` (1 to 9) copies the entry in
/// row `n` of the list, counting rows from 1, when there is such a row.
pub proof fn law_applet_digit_copies_row(w: WindowModel, c: String, n: int)
    requires
        w.popup is Some,
        1 <= n <= 9,
        c@.len() == 1,
        c@[0] as int == '0' as int + n,
    ensures
        crate::applet::message_for(Event::KeyPressed { key: Key::Character(c), control: true })
            == Some(AppletMessage::QuickCopy(n as usize)),
        applet_step(w, AppletMessage::QuickCopy(n as usize)).1.command == if n <= w.picker.count() {
            Command::CopyEntry(w.picker.listing()[n - 1] as usize)
        } else {
            Command::Nothing
        },
{
    assert(c@ != seq!['j'] && c@ != seq!['k'] && c@ != seq!['d']) by {
        assert(seq!['j'][0] == 'j');
        assert(seq!['k'][0] == 'k');
        assert(seq!['d'][0] == 'd');
    }
}

/// In the launcher, Ctrl with the digit `n` (1 to 9) copies the entry in
/// row `n` of the list, counting rows from 1, when there is such a row.
pub proof fn law_launcher_digit_copies_row(p: PickerModel, c: String, n: int)
    requires
        1 <= n <= 9,
        c@.len() == 1,
        c@[0] as int == '0' as int + n,
    ensures
        crate::launcher::message_for(Event::KeyPressed { key: Key::Character(c), control: true })
            == Some(LauncherMessage::QuickCopy(n as usize)),
        launcher_step(p, LauncherMessage::QuickCopy(n as usize)).1.command == if n <= p.count() {
            Command::CopyEntry(p.listing()[n - 1] as usize)
        } else {
            Command::Nothing
        },
{
    assert(c@ != seq!['j'] && c@ != seq!['k'] && c@ != seq!['d']) by {
        assert(seq!['j'][0] == 'j');
        assert(seq!['k'][0] == 'k');
        assert(seq!['d'][0] == 'd');
    }
}

} // verus!
