//! Reference Manager palette state: the list of external references, the
//! multi-selection and its details anchor, the list/tree presentation and
//! the rows it renders.
use std::collections::{HashMap, HashSet};

use vstd::prelude::*;
use vstd::std_specs::iter::IteratorSpec;

use crate::path_spec::lexical_path;
use crate::xref_model::{normalize_lexical, RefKind, RefStatus, RefType, ReferenceEntry};

verus! {

broadcast use vstd::std_specs::hash::group_hash_axioms;


/// One visible row in [`XrefManagerPanel::display_rows`].
#[derive(Clone, Copy, Debug, PartialEq, Eq)]
pub struct DisplayRow {
    /// Index into [`XrefManagerPanel::entries`].
    pub index: usize,
    /// Tree depth (0 in list mode and for roots).
    pub depth: u32,
    /// True for entries enumerated from a nested file (never rendered).
    pub is_nested: bool,
}

/// Display state for the Reference Manager palette.
///
/// `unloaded_keys` is the session unloaded set.
pub struct XrefManagerPanel {
    /// The references of the active drawing, in scan order.
    pub entries: Vec<ReferenceEntry>,
    /// Block-record / definition handles treated as unloaded.
    pub unloaded_keys: HashSet<u64>,
    /// Multi-selected entry indices.
    pub selected: HashSet<usize>,
    /// Anchor entry driving the details pane (last row clicked).
    pub anchor: Option<usize>,
    /// List (`false`) vs tree (`true`) presentation.
    pub tree: bool,
    /// Parent keys expanded in tree mode. Empty by default = collapsed.
    pub expanded: HashSet<u64>,
    /// Parent key → child entry indices, rebuilt on every refresh.
    pub children: HashMap<u64, Vec<usize>>,
    /// Entry indices enumerated from nested files (not the host drawing).
    pub nested: HashSet<usize>,
    /// Document tab id that produced `entries` (stale check).
    pub source_tab_id: Option<u64>,
}

impl Default for XrefManagerPanel {
    fn default() -> (r: Self)
        ensures
            r.entries@.len() == 0,
            r.unloaded_keys@ == Set::<u64>::empty(),
            r.selected@ == Set::<usize>::empty(),
            r.anchor is None,
            !r.tree,
            r.expanded@ == Set::<u64>::empty(),
            r.children@ == Map::<u64, Vec<usize>>::empty(),
            r.nested@ == Set::<usize>::empty(),
            r.source_tab_id is None,
    {
        XrefManagerPanel {
            entries: Vec::new(),
            unloaded_keys: HashSet::new(),
            selected: HashSet::new(),
            anchor: Option::None,
            tree: false,
            expanded: HashSet::new(),
            children: HashMap::new(),
            nested: HashSet::new(),
            source_tab_id: Option::None,
        }
    }
}

/// `m` is the largest element of `s`.
pub open spec fn is_max_of(s: Set<usize>, m: usize) -> bool {
    s.contains(m) && forall|x: usize| s.contains(x) ==> x <= m
}

/// `a` is the largest element of `s`, or `None` exactly when `s` is empty.
pub open spec fn is_max_option(s: Set<usize>, a: Option<usize>) -> bool {
    match a {
        Option::Some(m) => is_max_of(s, m),
        Option::None => s.is_empty(),
    }
}

/// The largest element of a set of indices.
fn max_index(s: &HashSet<usize>) -> (r: Option<usize>)
    ensures
        is_max_option(s@, r),
{
    let mut best: Option<usize> = Option::None;
    let ghost mut processed: Set<usize> = Set::empty();
    let iter = s.iter();
    proof {
        let rem = IteratorSpec::remaining(&iter);
        assert forall|k: int| 0 <= k < rem.len() implies s@.contains(*rem[k]) by {
            assert(rem.unref()[k] == *rem[k]);
            assert(rem.unref().contains(*rem[k]));
        }
    }
    for x in it: iter
        invariant
            processed.subset_of(s@),
            forall|y: usize|
                s@.contains(y) ==> processed.contains(y) || exists|k: int|
                    it.index() <= k < it.seq().len() && *it.seq()[k] == y,
            forall|k: int| 0 <= k < it.seq().len() ==> s@.contains(*it.seq()[k]),
            match best {
                Option::Some(m) => is_max_of(processed, m),
                Option::None => processed.is_empty(),
            },
    {
        let v = *x;
        proof {
            processed = processed.insert(v);
        }
        match best {
            Option::None => {
                best = Option::Some(v);
            },
            Option::Some(m) => {
                if v > m {
                    best = Option::Some(v);
                }
            },
        }
    }
    proof {
        assert(processed =~= s@);
    }
    best
}

impl XrefManagerPanel {
    /// Click toggles membership in the multi-selection set; selecting sets
    /// the details anchor, deselecting the anchor falls back to the largest
    /// surviving selection. An index past the entries changes nothing.
    pub fn toggle_select(&mut self, index: usize)
        ensures
            final(self).entries == old(self).entries,
            final(self).tree == old(self).tree,
            final(self).expanded@ == old(self).expanded@,
            final(self).children@ == old(self).children@,
            final(self).nested@ == old(self).nested@,
            final(self).unloaded_keys@ == old(self).unloaded_keys@,
            final(self).source_tab_id == old(self).source_tab_id,
            index >= old(self).entries@.len() ==> final(self).selected@ == old(self).selected@
                && final(self).anchor == old(self).anchor,
            index < old(self).entries@.len() && !old(self).selected@.contains(index) ==> {
                &&& final(self).selected@ == old(self).selected@.insert(index)
                &&& final(self).anchor == Option::Some(index)
            },
            index < old(self).entries@.len() && old(self).selected@.contains(index) ==> {
                &&& final(self).selected@ == old(self).selected@.remove(index)
                &&& old(self).anchor == Option::Some(index) ==> is_max_option(
                    final(self).selected@,
                    final(self).anchor,
                )
                &&& old(self).anchor != Option::Some(index) ==> final(self).anchor == old(
                    self,
                ).anchor
            },
    {
        if index >= self.entries.len() {
            return ;
        }
        if !self.selected.remove(&index) {
            self.selected.insert(index);
            self.anchor = Option::Some(index);
        } else if self.anchor == Option::Some(index) {
            self.anchor = max_index(&self.selected);
        }
    }

    /// Flip list/tree presentation.
    pub fn toggle_tree(&mut self)
        ensures
            final(self).tree == !old(self).tree,
            final(self).entries == old(self).entries,
            final(self).selected@ == old(self).selected@,
            final(self).anchor == old(self).anchor,
            final(self).expanded@ == old(self).expanded@,
            final(self).children@ == old(self).children@,
            final(self).nested@ == old(self).nested@,
            final(self).unloaded_keys@ == old(self).unloaded_keys@,
            final(self).source_tab_id == old(self).source_tab_id,
    {
        self.tree = !self.tree;
    }

    /// Expand/collapse one tree parent: an expanded key collapses, a
    /// collapsed key expands only when it has children (no-op for unknown
    /// keys).
    pub fn toggle_expand(&mut self, parent_key: u64)
        ensures
            old(self).expanded@.contains(parent_key) ==> final(self).expanded@ == old(
                self,
            ).expanded@.remove(parent_key),
            !old(self).expanded@.contains(parent_key) && old(self).children@.contains_key(
                parent_key,
            ) ==> final(self).expanded@ == old(self).expanded@.insert(parent_key),
            !old(self).expanded@.contains(parent_key) && !old(self).children@.contains_key(
                parent_key,
            ) ==> final(self).expanded@ == old(self).expanded@,
            final(self).entries == old(self).entries,
            final(self).tree == old(self).tree,
            final(self).selected@ == old(self).selected@,
            final(self).anchor == old(self).anchor,
            final(self).children@ == old(self).children@,
            final(self).nested@ == old(self).nested@,
            final(self).unloaded_keys@ == old(self).unloaded_keys@,
            final(self).source_tab_id == old(self).source_tab_id,
    {
        if !self.expanded.remove(&parent_key) && self.children.contains_key(&parent_key) {
            self.expanded.insert(parent_key);
        }
    }
}


/// Claiming a saved path for display: empty paths always pass; otherwise the
/// path's lexical identity passes once and is remembered.
pub open spec fn claim(seen: Seq<Seq<char>>, saved: Seq<char>) -> (bool, Seq<Seq<char>>) {
    if saved.len() == 0 {
        (true, seen)
    } else if seen.contains(lexical_path(saved)) {
        (false, seen)
    } else {
        (true, seen.push(lexical_path(saved)))
    }
}

/// The characters of each string.
pub open spec fn string_views(v: Seq<String>) -> Seq<Seq<char>> {
    v.map_values(|s: String| s@)
}

/// Claim a normalized saved path for display; empty paths always pass,
/// repeats are skipped (cycle guard).
pub fn claim_path(seen: &mut Vec<String>, saved_path: &str) -> (r: bool)
    ensures
        (r, string_views(final(seen)@)) == claim(string_views(old(seen)@), saved_path@),
{
    if saved_path.is_empty() {
        return true;
    }
    let key = normalize_lexical(saved_path);
    let mut i: usize = 0;
    while i < seen.len()
        invariant
            i <= seen@.len(),
            seen@ == old(seen)@,
            saved_path@.len() != 0,
            key@ == lexical_path(saved_path@),
            forall|k: int| 0 <= k < i ==> string_views(seen@)[k] != key@,
        decreases seen.len() - i,
    {
        if seen[i] == key {
            assert(string_views(seen@)[i as int] == key@);
            assert(string_views(seen@).contains(lexical_path(saved_path@)));
            return false;
        }
        i += 1;
    }
    let ghost before = string_views(seen@);
    assert(!before.contains(key@));
    seen.push(key);
    assert(string_views(seen@) =~= before.push(lexical_path(saved_path@)));
    true
}

/// The saved paths of the entries.
pub open spec fn saved_paths(entries: Seq<ReferenceEntry>) -> Seq<Seq<char>> {
    entries.map_values(|e: ReferenceEntry| e.saved_path@)
}

/// Rows shown for the children `kids` of an expanded parent: every child
/// that exists and whose path is claimed, at depth 1, marked nested.
pub open spec fn child_rows(paths: Seq<Seq<char>>, kids: Seq<usize>, seen: Seq<Seq<char>>) -> (Seq<DisplayRow>, Seq<Seq<char>>)
    decreases kids.len(),
{
    if kids.len() == 0 {
        (Seq::empty(), seen)
    } else {
        let (rows, seen1) = child_rows(paths, kids.drop_last(), seen);
        let ci = kids.last();
        if ci >= paths.len() {
            (rows, seen1)
        } else {
            let (ok, seen2) = claim(seen1, paths[ci as int]);
            if ok {
                (rows.push(DisplayRow { index: ci, depth: 1, is_nested: true }), seen2)
            } else {
                (rows, seen2)
            }
        }
    }
}

/// Entry `i` is listed as a child of some parent.
pub open spec fn is_some_child(children: Map<u64, Vec<usize>>, i: usize) -> bool {
    exists|k: u64| children.contains_key(k) && (#[trigger] children[k])@.contains(i)
}

/// Tree-mode rows for the first `n` entries, with the paths claimed so
/// far: roots (direct entries and unclaimed nested ones) in entry order,
/// each followed by its children when expanded; repeated paths are shown
/// once.
pub open spec fn tree_rows(
    entries: Seq<ReferenceEntry>,
    nested: Set<usize>,
    expanded: Set<u64>,
    children: Map<u64, Vec<usize>>,
    n: nat,
) -> (Seq<DisplayRow>, Seq<Seq<char>>)
    decreases n,
{
    if n == 0 {
        (Seq::empty(), Seq::empty())
    } else {
        let (rows, seen) = tree_rows(entries, nested, expanded, children, (n - 1) as nat);
        let i = (n - 1) as usize;
        if nested.contains(i) && is_some_child(children, i) {
            (rows, seen)
        } else {
            let (ok, seen1) = claim(seen, entries[i as int].saved_path@);
            if !ok {
                (rows, seen1)
            } else {
                let rows1 = rows.push(DisplayRow { index: i, depth: 0, is_nested: nested.contains(i) });
                let key = entries[i as int].key;
                if expanded.contains(key) && children.contains_key(key) {
                    let (kid_rows, seen2) = child_rows(saved_paths(entries), children[key]@, seen1);
                    (rows1 + kid_rows, seen2)
                } else {
                    (rows1, seen1)
                }
            }
        }
    }
}

/// The lexical identities of the rows that have a saved path, in row
/// order.
pub open spec fn row_ids(paths: Seq<Seq<char>>, rows: Seq<DisplayRow>) -> Seq<Seq<char>>
    decreases rows.len(),
{
    if rows.len() == 0 {
        Seq::empty()
    } else {
        let prev = row_ids(paths, rows.drop_last());
        let p = paths[rows.last().index as int];
        if p.len() == 0 {
            prev
        } else {
            prev.push(lexical_path(p))
        }
    }
}

proof fn lemma_row_ids_concat(paths: Seq<Seq<char>>, a: Seq<DisplayRow>, b: Seq<DisplayRow>)
    ensures
        row_ids(paths, a + b) == row_ids(paths, a) + row_ids(paths, b),
    decreases b.len(),
{
    if b.len() == 0 {
        assert(a + b =~= a);
        assert(row_ids(paths, a) + row_ids(paths, b) =~= row_ids(paths, a));
    } else {
        lemma_row_ids_concat(paths, a, b.drop_last());
        assert((a + b).drop_last() =~= a + b.drop_last());
        assert((a + b).last() == b.last());
        let p = paths[b.last().index as int];
        if p.len() != 0 {
            assert(row_ids(paths, a) + row_ids(paths, b.drop_last()).push(lexical_path(p)) =~= (row_ids(paths, a)
                + row_ids(paths, b.drop_last())).push(lexical_path(p)));
        }
    }
}

proof fn lemma_child_rows(paths: Seq<Seq<char>>, kids: Seq<usize>, seen: Seq<Seq<char>>)
    requires
        seen.no_duplicates(),
    ensures
        ({
            let (rows, seen2) = child_rows(paths, kids, seen);
            &&& seen2 == seen + row_ids(paths, rows)
            &&& seen2.no_duplicates()
            &&& forall|p: int| 0 <= p < rows.len() ==> (#[trigger] rows[p]).index < paths.len() && rows[p].depth == 1
        }),
    decreases kids.len(),
{
    if kids.len() == 0 {
        assert(seen + Seq::<Seq<char>>::empty() =~= seen);
    } else {
        lemma_child_rows(paths, kids.drop_last(), seen);
        let (rows, seen1) = child_rows(paths, kids.drop_last(), seen);
        let ci = kids.last();
        if ci < paths.len() {
            let row = DisplayRow { index: ci, depth: 1, is_nested: true };
            let s = paths[ci as int];
            assert(rows.push(row).drop_last() =~= rows);
            if s.len() != 0 && !seen1.contains(lexical_path(s)) {
                assert(seen1.push(lexical_path(s)) =~= seen + row_ids(paths, rows).push(lexical_path(s)));
            }
            let (rows2, seen2) = child_rows(paths, kids, seen);
            assert forall|p: int| 0 <= p < rows2.len() implies (#[trigger] rows2[p]).index < paths.len()
                && rows2[p].depth == 1 by {
                if p < rows.len() {
                    assert(rows2[p] == rows[p]);
                }
            }
        }
    }
}

proof fn lemma_tree_rows(
    entries: Seq<ReferenceEntry>,
    nested: Set<usize>,
    expanded: Set<u64>,
    children: Map<u64, Vec<usize>>,
    n: nat,
)
    requires
        n <= entries.len(),
    ensures
        ({
            let (rows, seen) = tree_rows(entries, nested, expanded, children, n);
            &&& seen == row_ids(saved_paths(entries), rows)
            &&& seen.no_duplicates()
            &&& forall|p: int| 0 <= p < rows.len() ==> (#[trigger] rows[p]).index < entries.len() && rows[p].depth <= 1
        }),
    decreases n,
{
    let paths = saved_paths(entries);
    if n > 0 {
        lemma_tree_rows(entries, nested, expanded, children, (n - 1) as nat);
        let (rows, seen) = tree_rows(entries, nested, expanded, children, (n - 1) as nat);
        let i = (n - 1) as usize;
        if !(nested.contains(i) && is_some_child(children, i)) {
            let s = entries[i as int].saved_path@;
            assert(paths[i as int] == s);
            let (ok, seen1) = claim(seen, s);
            if ok {
                let row = DisplayRow { index: i, depth: 0, is_nested: nested.contains(i) };
                let rows1 = rows.push(row);
                assert(rows1.drop_last() =~= rows);
                assert(seen1 == row_ids(paths, rows1));
                assert(seen1.no_duplicates());
                let key = entries[i as int].key;
                if expanded.contains(key) && children.contains_key(key) {
                    lemma_child_rows(paths, children[key]@, seen1);
                    let (kid_rows, seen2) = child_rows(paths, children[key]@, seen1);
                    lemma_row_ids_concat(paths, rows1, kid_rows);
                    let all = rows1 + kid_rows;
                    assert forall|p: int| 0 <= p < all.len() implies (#[trigger] all[p]).index < entries.len()
                        && all[p].depth <= 1 by {
                        if p < rows.len() {
                            assert(all[p] == rows[p]);
                        } else if p == rows.len() {
                            assert(all[p] == row);
                        } else {
                            assert(all[p] == kid_rows[p - rows1.len()]);
                        }
                    }
                } else {
                    assert forall|p: int| 0 <= p < rows1.len() implies (#[trigger] rows1[p]).index < entries.len()
                        && rows1[p].depth <= 1 by {
                        if p < rows.len() {
                            assert(rows1[p] == rows[p]);
                        }
                    }
                }
            }
        }
    }
}

/// Some row shows entry `i` at depth `d`.
pub open spec fn shows(rows: Seq<DisplayRow>, i: usize, d: u32) -> bool {
    exists|p: int| 0 <= p < rows.len() && (#[trigger] rows[p]).index == i && rows[p].depth == d
}

proof fn lemma_child_rows_complete(paths: Seq<Seq<char>>, kids: Seq<usize>, seen: Seq<Seq<char>>)
    ensures
        ({
            let (rows, seen2) = child_rows(paths, kids, seen);
            &&& forall|x: Seq<char>| seen.contains(x) ==> #[trigger] seen2.contains(x)
            &&& forall|q: int|
                0 <= q < kids.len() && #[trigger] kids[q] < paths.len() ==> shows(rows, kids[q], 1) || (
                paths[kids[q] as int].len() > 0 && seen2.contains(lexical_path(paths[kids[q] as int])))
        }),
    decreases kids.len(),
{
    if kids.len() > 0 {
        let front = kids.drop_last();
        lemma_child_rows_complete(paths, front, seen);
        let (rows, seen1) = child_rows(paths, front, seen);
        let (rows2, seen2) = child_rows(paths, kids, seen);
        let ci = kids.last();
        assert forall|x: Seq<char>| seen1.contains(x) implies #[trigger] seen2.contains(x) by {
            if ci < paths.len() {
                let (ok, s2) = claim(seen1, paths[ci as int]);
                if s2 != seen1 {
                    assert(s2[seen1.len() as int] == lexical_path(paths[ci as int]));
                    let i = choose|i: int| 0 <= i < seen1.len() && seen1[i] == x;
                    assert(s2[i] == x);
                }
            }
        }
        assert forall|q: int|
            0 <= q < kids.len() && #[trigger] kids[q] < paths.len() implies shows(rows2, kids[q], 1) || (
            paths[kids[q] as int].len() > 0 && seen2.contains(lexical_path(paths[kids[q] as int]))) by {
            if q < front.len() {
                assert(front[q] == kids[q]);
                if shows(rows, kids[q], 1) {
                    let p = choose|p: int| 0 <= p < rows.len() && (#[trigger] rows[p]).index == kids[q] && rows[p].depth == 1;
                    assert(rows2[p] == rows[p]);
                }
            } else {
                let (ok, s2) = claim(seen1, paths[ci as int]);
                if ok {
                    assert(rows2[rows.len() as int].index == ci);
                } else {
                    assert(seen1.contains(lexical_path(paths[ci as int])));
                }
            }
        }
    }
}

proof fn lemma_tree_rows_complete(
    entries: Seq<ReferenceEntry>,
    nested: Set<usize>,
    expanded: Set<u64>,
    children: Map<u64, Vec<usize>>,
    n: nat,
)
    requires
        n <= entries.len(),
    ensures
        ({
            let (rows, seen) = tree_rows(entries, nested, expanded, children, n);
            forall|p: int, q: int|
                0 <= p < rows.len() && rows[p].depth == 0 && expanded.contains(entries[rows[p].index as int].key)
                    && children.contains_key(entries[rows[p].index as int].key)
                    && 0 <= q < children[entries[rows[p].index as int].key]@.len()
                    && #[trigger] children[entries[(#[trigger] rows[p]).index as int].key]@[q] < entries.len() ==> shows(
                    rows,
                    children[entries[rows[p].index as int].key]@[q],
                    1,
                ) || (entries[children[entries[rows[p].index as int].key]@[q] as int].saved_path@.len() > 0
                    && seen.contains(
                    lexical_path(entries[children[entries[rows[p].index as int].key]@[q] as int].saved_path@),
                ))
        }),
    decreases n,
{
    let paths = saved_paths(entries);
    if n > 0 {
        lemma_tree_rows_complete(entries, nested, expanded, children, (n - 1) as nat);
        lemma_tree_rows(entries, nested, expanded, children, (n - 1) as nat);
        let (rows, seen) = tree_rows(entries, nested, expanded, children, (n - 1) as nat);
        let (rows_n, seen_n) = tree_rows(entries, nested, expanded, children, n);
        let i = (n - 1) as usize;
        if !(nested.contains(i) && is_some_child(children, i)) {
            let s0 = entries[i as int].saved_path@;
            let (ok, seen1) = claim(seen, s0);
            assert forall|x: Seq<char>| seen.contains(x) implies #[trigger] seen1.contains(x) by {
                if seen1 != seen {
                    let j = choose|j: int| 0 <= j < seen.len() && seen[j] == x;
                    assert(seen1[j] == x);
                }
            }
            if ok {
                let row = DisplayRow { index: i, depth: 0, is_nested: nested.contains(i) };
                let rows1 = rows.push(row);
                let key = entries[i as int].key;
                if expanded.contains(key) && children.contains_key(key) {
                    let kids = children[key]@;
                    lemma_child_rows_complete(paths, kids, seen1);
                    lemma_child_rows(paths, kids, seen1);
                    let (kid_rows, seen2) = child_rows(paths, kids, seen1);
                    assert(rows_n == rows1 + kid_rows);
                    assert(seen_n == seen2);
                    assert forall|p: int, q: int|
                        0 <= p < rows_n.len() && rows_n[p].depth == 0 && expanded.contains(entries[rows_n[p].index as int].key)
                            && children.contains_key(entries[rows_n[p].index as int].key)
                            && 0 <= q < children[entries[rows_n[p].index as int].key]@.len()
                            && #[trigger] children[entries[(#[trigger] rows_n[p]).index as int].key]@[q] < entries.len()
                            implies shows(rows_n, children[entries[rows_n[p].index as int].key]@[q], 1) || (
                            entries[children[entries[rows_n[p].index as int].key]@[q] as int].saved_path@.len() > 0
                                && seen_n.contains(
                                lexical_path(entries[children[entries[rows_n[p].index as int].key]@[q] as int].saved_path@),
                            )) by {
                        let c = children[entries[rows_n[p].index as int].key]@[q];
                        assert(paths[c as int] == entries[c as int].saved_path@);
                        if p < rows.len() {
                            assert(rows_n[p] == rows[p]);
                            if shows(rows, c, 1) {
                                let p2 = choose|p2: int| 0 <= p2 < rows.len() && (#[trigger] rows[p2]).index == c && rows[p2].depth == 1;
                                assert(rows_n[p2] == rows[p2]);
                            }
                        } else if p == rows.len() {
                            assert(rows_n[p] == row);
                            assert(kids[q] == c);
                            if shows(kid_rows, c, 1) {
                                let p2 = choose|p2: int| 0 <= p2 < kid_rows.len() && (#[trigger] kid_rows[p2]).index == c && kid_rows[p2].depth == 1;
                                assert(rows_n[rows1.len() + p2] == kid_rows[p2]);
                            }
                        } else {
                            assert(rows_n[p] == kid_rows[p - rows1.len()]);
                        }
                    }
                } else {
                    assert(rows_n == rows1);
                    assert forall|p: int, q: int|
                        0 <= p < rows_n.len() && rows_n[p].depth == 0 && expanded.contains(entries[rows_n[p].index as int].key)
                            && children.contains_key(entries[rows_n[p].index as int].key)
                            && 0 <= q < children[entries[rows_n[p].index as int].key]@.len()
                            && #[trigger] children[entries[(#[trigger] rows_n[p]).index as int].key]@[q] < entries.len()
                            implies shows(rows_n, children[entries[rows_n[p].index as int].key]@[q], 1) || (
                            entries[children[entries[rows_n[p].index as int].key]@[q] as int].saved_path@.len() > 0
                                && seen_n.contains(
                                lexical_path(entries[children[entries[rows_n[p].index as int].key]@[q] as int].saved_path@),
                            )) by {
                        let c = children[entries[rows_n[p].index as int].key]@[q];
                        assert(rows_n[p] == rows[p]);
                        if shows(rows, c, 1) {
                            let p2 = choose|p2: int| 0 <= p2 < rows.len() && (#[trigger] rows[p2]).index == c && rows[p2].depth == 1;
                            assert(rows_n[p2] == rows[p2]);
                        }
                    }
                }
            }
        }
    }
}

/// In tree mode every child of an expanded root that is shown appears as a
/// row of depth 1, unless its path (by lexical identity) is already that of
/// a row shown: a root's expansion leaves out no child with a fresh path.
pub proof fn lemma_expanded_children_are_shown(
    entries: Seq<ReferenceEntry>,
    nested: Set<usize>,
    expanded: Set<u64>,
    children: Map<u64, Vec<usize>>,
    p: int,
    q: int,
)
    requires
        ({
            let rows = tree_rows(entries, nested, expanded, children, entries.len()).0;
            &&& 0 <= p < rows.len()
            &&& rows[p].depth == 0
            &&& expanded.contains(entries[rows[p].index as int].key)
            &&& children.contains_key(entries[rows[p].index as int].key)
            &&& 0 <= q < children[entries[rows[p].index as int].key]@.len()
            &&& children[entries[rows[p].index as int].key]@[q] < entries.len()
        }),
    ensures
        ({
            let rows = tree_rows(entries, nested, expanded, children, entries.len()).0;
            let c = children[entries[rows[p].index as int].key]@[q];
            shows(rows, c, 1) || (entries[c as int].saved_path@.len() > 0 && row_ids(saved_paths(entries), rows).contains(
                lexical_path(entries[c as int].saved_path@),
            ))
        }),
{
    lemma_tree_rows_complete(entries, nested, expanded, children, entries.len());
    lemma_tree_rows(entries, nested, expanded, children, entries.len());
    let rows = tree_rows(entries, nested, expanded, children, entries.len()).0;
    let c = children[entries[rows[p].index as int].key]@[q];
    assert(children[entries[rows[p].index as int].key]@[q] == c);
}

/// Tree mode shows each reference path once, so a cyclic chain of
/// references can never repeat on screen: the lexical identities of the
/// rows that have a saved path are distinct, and every row is an entry,
/// at depth 0 (a root) or 1 (a child of an expanded root).
pub proof fn lemma_tree_rows_show_each_path_once(
    entries: Seq<ReferenceEntry>,
    nested: Set<usize>,
    expanded: Set<u64>,
    children: Map<u64, Vec<usize>>,
)
    ensures
        ({
            let rows = tree_rows(entries, nested, expanded, children, entries.len()).0;
            &&& row_ids(saved_paths(entries), rows).no_duplicates()
            &&& forall|p: int| 0 <= p < rows.len() ==> (#[trigger] rows[p]).index < entries.len() && rows[p].depth <= 1
        }),
{
    lemma_tree_rows(entries, nested, expanded, children, entries.len());
}

/// List-mode rows: every entry at depth 0, in order.
pub open spec fn list_rows(len: nat, nested: Set<usize>) -> Seq<DisplayRow> {
    Seq::new(len, |i: int| DisplayRow { index: i as usize, depth: 0, is_nested: nested.contains(i as usize) })
}

/// Whether `v` holds `x`.
fn vec_contains(v: &Vec<usize>, x: usize) -> (r: bool)
    ensures
        r == v@.contains(x),
{
    let mut i: usize = 0;
    while i < v.len()
        invariant
            i <= v@.len(),
            forall|k: int| 0 <= k < i ==> v@[k] != x,
        decreases v.len() - i,
    {
        if v[i] == x {
            assert(v@[i as int] == x);
            return true;
        }
        i += 1;
    }
    false
}

/// Whether any parent lists `index` among its children.
fn listed_as_child(children: &HashMap<u64, Vec<usize>>, index: usize) -> (r: bool)
    ensures
        r == is_some_child(children@, index),
{
    let iter = children.values();
    proof {
        let rem = IteratorSpec::remaining(&iter);
        assert forall|k: int| 0 <= k < rem.len() implies children@.values().contains(*rem[k]) by {
            assert(rem.unref()[k] == *rem[k]);
            assert(rem.unref().contains(*rem[k]));
        }
    }
    for kids in it: iter
        invariant
            forall|k: int| 0 <= k < it.seq().len() ==> children@.values().contains(*it.seq()[k]),
            forall|v: Vec<usize>|
                children@.values().contains(v) ==> !v@.contains(index) || exists|k: int|
                    it.index() <= k < it.seq().len() && *it.seq()[k] == v,
    {
        if vec_contains(kids, index) {
            proof {
                let v = *kids;
                assert(children@.values().contains(v));
                let key = choose|key: u64| children@.contains_key(key) && children@[key] == v;
                assert(children@[key]@.contains(index));
            }
            return true;
        }
    }
    proof {
        assert forall|key: u64| children@.contains_key(key) implies !(#[trigger] children@[key])@.contains(index) by {
            assert(children@.values().contains(children@[key]));
        }
    }
    false
}

impl XrefManagerPanel {
    /// Flat render order for the current mode. Tree mode emits roots
    /// (direct entries plus unclaimed nested ones) with expanded children
    /// inline, skipping repeats by normalized saved path so a cyclic closure
    /// can never recurse on screen.
    pub fn display_rows(&self) -> (rows: Vec<DisplayRow>)
        ensures
            !self.tree ==> rows@ == list_rows(self.entries@.len(), self.nested@),
            self.tree ==> rows@ == tree_rows(
                self.entries@,
                self.nested@,
                self.expanded@,
                self.children@,
                self.entries@.len(),
            ).0,
    {
        let n = self.entries.len();
        if !self.tree {
            let mut rows: Vec<DisplayRow> = Vec::new();
            let mut index: usize = 0;
            while index < n
                invariant
                    n == self.entries@.len(),
                    index <= n,
                    rows@ == list_rows(index as nat, self.nested@),
                decreases n - index,
            {
                let is_nested = self.nested.contains(&index);
                rows.push(DisplayRow { index, depth: 0, is_nested });
                index += 1;
                assert(rows@ =~= list_rows(index as nat, self.nested@));
            }
            return rows;
        }
        let ghost entries = self.entries@;
        let ghost paths = saved_paths(entries);
        let mut rows: Vec<DisplayRow> = Vec::new();
        let mut seen: Vec<String> = Vec::new();
        let mut index: usize = 0;
        while index < n
            invariant
                n == self.entries@.len(),
                entries == self.entries@,
                paths == saved_paths(entries),
                index <= n,
                (rows@, string_views(seen@)) == tree_rows(
                    entries,
                    self.nested@,
                    self.expanded@,
                    self.children@,
                    index as nat,
                ),
            decreases n - index,
        {
            let entry = &self.entries[index];
            let is_nested = self.nested.contains(&index);
            if is_nested && listed_as_child(&self.children, index) {
                index += 1;
                continue;
            }
            if !claim_path(&mut seen, entry.saved_path.as_str()) {
                index += 1;
                continue;
            }
            rows.push(DisplayRow { index, depth: 0, is_nested });
            let ghost rows1 = rows@;
            let ghost seen1 = string_views(seen@);
            if self.expanded.contains(&entry.key) {
                match self.children.get(&entry.key) {
                    Option::Some(kids) => {
                        let mut j: usize = 0;
                        while j < kids.len()
                            invariant
                                n == self.entries@.len(),
                                entries == self.entries@,
                                paths == saved_paths(entries),
                                j <= kids@.len(),
                                ({
                                    let (kr, ks) = child_rows(paths, kids@.take(j as int), seen1);
                                    rows@ == rows1 + kr && string_views(seen@) == ks
                                }),
                            decreases kids.len() - j,
                        {
                            let ci = kids[j];
                            assert(kids@.take(j + 1).drop_last() =~= kids@.take(j as int));
                            let ghost before = rows@;
                            if ci < n {
                                let child = &self.entries[ci];
                                if claim_path(&mut seen, child.saved_path.as_str()) {
                                    rows.push(DisplayRow { index: ci, depth: 1, is_nested: true });
                                }
                            }
                            j += 1;
                            proof {
                                let (kr, ks) = child_rows(paths, kids@.take(j as int).drop_last(), seen1);
                                assert(before == rows1 + kr);
                                if ci < n {
                                    assert(paths[ci as int] == entries[ci as int].saved_path@);
                                }
                                assert(rows@ =~= rows1 + child_rows(paths, kids@.take(j as int), seen1).0);
                            }
                        }
                        assert(kids@.take(j as int) =~= kids@);
                    },
                    Option::None => {},
                }
            }
            index += 1;
        }
        rows
    }
}


/// The Status column text.
pub fn status_text(status: RefStatus) -> (r: &'static str)
    ensures
        r@ == match status {
            RefStatus::Loaded => "Loaded"@,
            RefStatus::Unloaded => "Unloaded"@,
            RefStatus::NotFound => "Not found"@,
            RefStatus::Failed => "Failed"@,
            RefStatus::Stale => "Stale"@,
            RefStatus::Orphaned => "Orphaned"@,
        },
{
    match status {
        RefStatus::Loaded => "Loaded",
        RefStatus::Unloaded => "Unloaded",
        RefStatus::NotFound => "Not found",
        RefStatus::Failed => "Failed",
        RefStatus::Stale => "Stale",
        RefStatus::Orphaned => "Orphaned",
    }
}

/// The Type column text: the attachment kind of a DWG xref, otherwise the
/// file kind.
pub fn type_text(entry: &ReferenceEntry) -> (r: &'static str)
    ensures
        r@ == match entry.kind {
            RefKind::DwgXref => match entry.ref_type {
                RefType::Attach => "Attach"@,
                RefType::Overlay => "Overlay"@,
            },
            RefKind::Image => "Image"@,
            RefKind::Pdf => "PDF"@,
        },
{
    match entry.kind {
        RefKind::DwgXref => match entry.ref_type {
            RefType::Attach => "Attach",
            RefType::Overlay => "Overlay",
        },
        RefKind::Image => "Image",
        RefKind::Pdf => "PDF",
    }
}

} // verus!
