use std::cmp::Ordering;
use vstd::prelude::*;

use crate::song::{
    compare_songs, lemma_precedes_total, lemma_precedes_trans, precedes, Song, SortingMethod,
};

verus! {

/// The songs on display: indices into a backing list, filtered and sorted,
/// and a cursor into those indices.
#[derive(Debug)]
pub struct FilteredList {
    /// Backing indices in display order.
    pub items: Vec<usize>,
    /// Position of the selected row within `items`.
    pub selected: Option<usize>,
    pub sorting_method: SortingMethod,
}

/// `items` holds exactly the backing indices whose outcome in `keep` is true,
/// each once, ordered by `precedes`.
pub open spec fn is_view_of(
    items: Seq<usize>,
    songs: Seq<Song>,
    keep: Seq<bool>,
    m: SortingMethod,
) -> bool {
    &&& forall|k: int| 0 <= k < items.len() ==> #[trigger] items[k] < songs.len() && keep[items[k] as int]
    &&& forall|i: int| 0 <= i < songs.len() && keep[i] ==> #[trigger] items.contains(i as usize)
    &&& forall|a: int, b: int|
        0 <= a < b < items.len() ==> precedes(songs, m, #[trigger] items[a] as int, #[trigger] items[b] as int)
}

/// Where the cursor goes when the rows change from `old_items` to `items`: it
/// follows the backing index it was on while that index is still shown, and
/// falls back to the first row (or to nothing when no row is left).
pub open spec fn cursor_follows(
    old_items: Seq<usize>,
    old_sel: Option<usize>,
    items: Seq<usize>,
    sel: Option<usize>,
) -> bool {
    if old_sel is Some && old_sel->0 < old_items.len() && items.contains(old_items[old_sel->0 as int]) {
        sel is Some && sel->0 < items.len() && items[sel->0 as int] == old_items[old_sel->0 as int]
    } else if items.len() == 0 {
        sel is None
    } else {
        sel == Some(0usize)
    }
}

/// What a refresh from `before` with `songs` and filter outcomes `keep` yields.
pub open spec fn refreshed(
    before: FilteredList,
    after: FilteredList,
    songs: Seq<Song>,
    keep: Seq<bool>,
) -> bool {
    &&& after.sorting_method == before.sorting_method
    &&& is_view_of(after.items@, songs, keep, before.sorting_method)
    &&& cursor_follows(before.items@, before.selected, after.items@, after.selected)
}

pub open spec fn next_selection(sel: Option<usize>, len: nat) -> Option<usize> {
    if len == 0 {
        sel
    } else {
        match sel {
            None => Some(0usize),
            Some(c) => if c + 1 < len {
                Some((c + 1) as usize)
            } else {
                Some((len - 1) as usize)
            },
        }
    }
}

pub open spec fn prev_selection(sel: Option<usize>, len: nat) -> Option<usize> {
    if len == 0 {
        sel
    } else {
        match sel {
            None => Some(0usize),
            Some(c) => if c == 0 {
                Some(0usize)
            } else {
                Some((c - 1) as usize)
            },
        }
    }
}

/// Two sequences ordered by `precedes` that hold the same indices are equal.
proof fn lemma_sorted_unique(s: Seq<usize>, t: Seq<usize>, songs: Seq<Song>, m: SortingMethod)
    requires
        forall|x: usize| s.contains(x) <==> t.contains(x),
        forall|a: int, b: int|
            0 <= a < b < s.len() ==> precedes(songs, m, #[trigger] s[a] as int, #[trigger] s[b] as int),
        forall|a: int, b: int|
            0 <= a < b < t.len() ==> precedes(songs, m, #[trigger] t[a] as int, #[trigger] t[b] as int),
    ensures
        s == t,
    decreases s.len(),
{
    if s.len() == 0 {
        if t.len() > 0 {
            assert(t.contains(t[0]));
        }
        assert(s =~= t);
    } else {
        assert(s.contains(s[0]));
        let j = choose|j: int| 0 <= j < t.len() && t[j] == s[0];
        assert(t.contains(t[0]));
        let i = choose|i: int| 0 <= i < s.len() && s[i] == t[0];
        lemma_precedes_total(songs, m, s[0] as int, t[0] as int);
        if j > 0 {
            assert(precedes(songs, m, t[0] as int, t[j] as int));
            if i > 0 {
                assert(precedes(songs, m, s[0] as int, s[i] as int));
            }
        }
        assert(s[0] == t[0]);
        let (s1, t1) = (s.drop_first(), t.drop_first());
        assert forall|x: usize| s1.contains(x) <==> t1.contains(x) by {
            if s1.contains(x) {
                let k = choose|k: int| 0 <= k < s1.len() && s1[k] == x;
                assert(s[k + 1] == x);
                assert(s.contains(x));
                let l = choose|l: int| 0 <= l < t.len() && t[l] == x;
                assert(precedes(songs, m, s[0] as int, s[k + 1] as int));
                lemma_precedes_total(songs, m, s[0] as int, s[0] as int);
                assert(l != 0);
                assert(t1[l - 1] == x);
            }
            if t1.contains(x) {
                let k = choose|k: int| 0 <= k < t1.len() && t1[k] == x;
                assert(t[k + 1] == x);
                assert(t.contains(x));
                let l = choose|l: int| 0 <= l < s.len() && s[l] == x;
                assert(precedes(songs, m, t[0] as int, t[k + 1] as int));
                lemma_precedes_total(songs, m, t[0] as int, t[0] as int);
                assert(l != 0);
                assert(s1[l - 1] == x);
            }
        }
        assert forall|a: int, b: int| 0 <= a < b < s1.len() implies precedes(
            songs,
            m,
            #[trigger] s1[a] as int,
            #[trigger] s1[b] as int,
        ) by {
            assert(s1[a] == s[a + 1] && s1[b] == s[b + 1]);
        }
        assert forall|a: int, b: int| 0 <= a < b < t1.len() implies precedes(
            songs,
            m,
            #[trigger] t1[a] as int,
            #[trigger] t1[b] as int,
        ) by {
            assert(t1[a] == t[a + 1] && t1[b] == t[b + 1]);
        }
        lemma_sorted_unique(s1, t1, songs, m);
        assert(s =~= seq![s[0]] + s1);
        assert(t =~= seq![t[0]] + t1);
    }
}

/// For given songs, filter outcomes and sorting method there is only one
/// sequence of rows.
pub proof fn lemma_view_unique(
    s: Seq<usize>,
    t: Seq<usize>,
    songs: Seq<Song>,
    keep: Seq<bool>,
    m: SortingMethod,
)
    requires
        is_view_of(s, songs, keep, m),
        is_view_of(t, songs, keep, m),
    ensures
        s == t,
{
    assert forall|x: usize| s.contains(x) <==> t.contains(x) by {
        if s.contains(x) {
            let k = choose|k: int| 0 <= k < s.len() && s[k] == x;
            assert(keep[s[k] as int]);
            assert(t.contains(x as int as usize));
        }
        if t.contains(x) {
            let k = choose|k: int| 0 <= k < t.len() && t[k] == x;
            assert(keep[t[k] as int]);
            assert(s.contains(x as int as usize));
        }
    }
    lemma_sorted_unique(s, t, songs, m);
}

/// Refreshing a second time with the same songs and filter outcomes yields
/// the same rows and leaves the cursor where it was.
pub proof fn lemma_refresh_idempotent(
    a: FilteredList,
    b: FilteredList,
    c: FilteredList,
    songs: Seq<Song>,
    keep: Seq<bool>,
)
    requires
        refreshed(a, b, songs, keep),
        refreshed(b, c, songs, keep),
    ensures
        c.items@ == b.items@,
        c.selected == b.selected,
        c.sorting_method == b.sorting_method,
{
    lemma_view_unique(b.items@, c.items@, songs, keep, b.sorting_method);
    let items = b.items@;
    if b.selected is Some {
        let p = b.selected->0 as int;
        assert(items.contains(items[p]));
        let q = c.selected->0 as int;
        if q < p {
            assert(precedes(songs, b.sorting_method, items[q] as int, items[p] as int));
            lemma_precedes_total(songs, b.sorting_method, items[p] as int, items[p] as int);
        } else if q > p {
            assert(precedes(songs, b.sorting_method, items[p] as int, items[q] as int));
            lemma_precedes_total(songs, b.sorting_method, items[p] as int, items[p] as int);
        }
    }
}

/// Whether row `i` of `songs` comes before row `j` under `m`.
fn song_precedes(songs: &Vec<Song>, m: SortingMethod, i: usize, j: usize) -> (r: bool)
    requires
        i < songs@.len(),
        j < songs@.len(),
    ensures
        r == precedes(songs@, m, i as int, j as int),
{
    match m {
        SortingMethod::Index => i < j,
        _ => match compare_songs(&songs[i], &songs[j], m) {
            Ordering::Less => true,
            Ordering::Equal => i < j,
            Ordering::Greater => false,
        },
    }
}

impl FilteredList {
    /// The cursor, when there is one, is on a row.
    pub open spec fn wf(&self) -> bool {
        self.selected is Some ==> self.selected->0 < self.items@.len()
    }

    pub fn new() -> (r: FilteredList)
        ensures
            r.items@.len() == 0,
            r.selected is None,
            r.sorting_method == SortingMethod::Index,
            r.wf(),
    {
        FilteredList { items: Vec::new(), selected: None, sorting_method: SortingMethod::Index }
    }

    /// Recomputes the rows from `songs` and the filter outcome of each song,
    /// sorted stably by the current method, and moves the cursor along.
    pub fn refresh(&mut self, songs: &Vec<Song>, keep: &Vec<bool>)
        requires
            keep@.len() == songs@.len(),
        ensures
            refreshed(*old(self), *final(self), songs@, keep@),
            final(self).wf(),
    {
        let prev: Option<usize> = match self.selected {
            Some(c) => if c < self.items.len() {
                Some(self.items[c])
            } else {
                None
            },
            None => None,
        };
        let m = self.sorting_method;
        let mut items: Vec<usize> = Vec::new();
        let mut i: usize = 0;
        while i < songs.len()
            invariant
                i <= songs@.len(),
                keep@.len() == songs@.len(),
                forall|k: int| 0 <= k < items@.len() ==> #[trigger] items@[k] < i && keep@[items@[k] as int],
                forall|j: int| 0 <= j < i && keep@[j] ==> #[trigger] items@.contains(j as usize),
                forall|a: int, b: int|
                    0 <= a < b < items@.len() ==> precedes(
                        songs@,
                        m,
                        #[trigger] items@[a] as int,
                        #[trigger] items@[b] as int,
                    ),
            decreases songs@.len() - i,
        {
            if keep[i] {
                let mut p: usize = 0;
                while p < items.len() && !song_precedes(songs, m, i, items[p])
                    invariant
                        p <= items@.len(),
                        i < songs@.len(),
                        forall|k: int| 0 <= k < items@.len() ==> items@[k] < i,
                        forall|q: int| 0 <= q < p ==> !precedes(songs@, m, i as int, #[trigger] items@[q] as int),
                    decreases items@.len() - p,
                {
                    p = p + 1;
                }
                let ghost old_items = items@;
                items.insert(p, i);
                proof {
                    let n = items@;
                    assert forall|a: int, b: int| 0 <= a < b < n.len() implies precedes(
                        songs@,
                        m,
                        #[trigger] n[a] as int,
                        #[trigger] n[b] as int,
                    ) by {
                        if b < p {
                            assert(n[a] == old_items[a] && n[b] == old_items[b]);
                        } else if a < p && b == p {
                            lemma_precedes_total(songs@, m, i as int, old_items[a] as int);
                        } else if a < p {
                            assert(n[a] == old_items[a] && n[b] == old_items[b - 1]);
                        } else if a == p {
                            if b - 1 > p {
                                assert(precedes(songs@, m, old_items[p as int] as int, old_items[b - 1] as int));
                                lemma_precedes_trans(
                                    songs@,
                                    m,
                                    i as int,
                                    old_items[p as int] as int,
                                    old_items[b - 1] as int,
                                );
                            }
                        } else {
                            assert(n[a] == old_items[a - 1] && n[b] == old_items[b - 1]);
                        }
                    }
                    assert forall|j: int| 0 <= j < i + 1 && keep@[j] implies #[trigger] n.contains(j as usize) by {
                        if j < i {
                            assert(old_items.contains(j as usize));
                            let k = choose|k: int| 0 <= k < old_items.len() && old_items[k] == j as usize;
                            if k < p {
                                assert(n[k] == j as usize);
                            } else {
                                assert(n[k + 1] == j as usize);
                            }
                        } else {
                            assert(n[p as int] == i);
                        }
                    }
                    assert forall|k: int| 0 <= k < n.len() implies #[trigger] n[k] < i + 1 && keep@[n[k] as int] by {
                        if k < p {
                            assert(n[k] == old_items[k]);
                        } else if k > p {
                            assert(n[k] == old_items[k - 1]);
                        }
                    }
                }
            } else {
                proof {
                    assert forall|j: int| 0 <= j < i + 1 && keep@[j] implies #[trigger] items@.contains(j as usize) by {
                        assert(j < i);
                    }
                }
            }
            i = i + 1;
        }
        let ghost old_items = self.items@;
        self.items = items;
        let mut sel: Option<usize> = None;
        if let Some(k) = prev {
            let mut p: usize = 0;
            while p < self.items.len() && sel.is_none()
                invariant
                    p <= self.items@.len(),
                    sel.is_none() ==> forall|q: int| 0 <= q < p ==> self.items@[q] != k,
                    sel.is_some() ==> sel->0 < self.items@.len() && self.items@[sel->0 as int] == k,
                decreases self.items@.len() - p,
            {
                if self.items[p] == k {
                    sel = Some(p);
                }
                p = p + 1;
            }
            if sel.is_none() {
                assert(!self.items@.contains(k));
            }
        }
        if sel.is_none() && self.items.len() > 0 {
            sel = Some(0);
        }
        self.selected = sel;
    }

    /// Moves the cursor one row down, stopping at the last row.
    pub fn select_next(&mut self)
        requires
            old(self).wf(),
        ensures
            final(self).items@ == old(self).items@,
            final(self).sorting_method == old(self).sorting_method,
            final(self).selected == next_selection(old(self).selected, old(self).items@.len()),
            final(self).items == old(self).items,
            final(self).wf(),
    {
        let len = self.items.len();
        if len > 0 {
            self.selected = match self.selected {
                None => Some(0),
                Some(c) => if c + 1 < len {
                    Some(c + 1)
                } else {
                    Some(len - 1)
                },
            };
        }
    }

    /// Moves the cursor one row up, stopping at the first row.
    pub fn select_prev(&mut self)
        requires
            old(self).wf(),
        ensures
            final(self).items@ == old(self).items@,
            final(self).sorting_method == old(self).sorting_method,
            final(self).selected == prev_selection(old(self).selected, old(self).items@.len()),
            final(self).items == old(self).items,
            final(self).wf(),
    {
        if self.items.len() > 0 {
            self.selected = match self.selected {
                None => Some(0),
                Some(c) => if c == 0 {
                    Some(0)
                } else {
                    Some(c - 1)
                },
            };
        }
    }

    /// The backing index of the selected row.
    pub fn selected_item(&self) -> (r: Option<usize>)
        requires
            self.wf(),
        ensures
            r == (match self.selected {
                Some(c) => Some(self.items@[c as int]),
                None => None,
            }),
    {
        match self.selected {
            Some(c) => Some(self.items[c]),
            None => None,
        }
    }

    /// Moves on to the next sorting method; the rows are recomputed by the
    /// next refresh.
    pub fn next_sorting_method(&mut self)
        ensures
            final(self).sorting_method == old(self).sorting_method.spec_next(),
            final(self).items == old(self).items,
            final(self).selected == old(self).selected,
    {
        self.sorting_method = self.sorting_method.next();
    }
}

} // verus!
