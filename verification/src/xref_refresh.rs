//! Rebuilding the Reference Manager after a new reference scan: which
//! entries are nested, which loaded drawing claims each nested entry, and
//! how the selection, anchor and expanded parents carry over.
use std::collections::{HashMap, HashSet};

use vstd::prelude::*;
use vstd::std_specs::iter::IteratorSpec;

use crate::path_spec::lexical_path;
use crate::xref_manager::{string_views, XrefManagerPanel};
use crate::xref_model::{normalize_lexical, RefKind, RefStatus, ReferenceEntry};

verus! {

broadcast use vstd::std_specs::hash::group_hash_axioms;

/// The identity that survives a rescan: handle and saved path.
pub open spec fn entry_id(e: ReferenceEntry) -> (u64, Seq<char>) {
    (e.key, e.saved_path@)
}

/// Identities given as `(handle, saved path)` pairs.
pub open spec fn id_views(ids: Seq<(u64, String)>) -> Seq<(u64, Seq<char>)> {
    ids.map_values(|p: (u64, String)| (p.0, p.1@))
}

/// Entries that the host drawing does not hold directly.
pub open spec fn nested_indices(entries: Seq<ReferenceEntry>, direct: Seq<(u64, Seq<char>)>) -> Set<
    usize,
> {
    Set::new(|i: usize| i < entries.len() && !direct.contains(entry_id(entries[i as int])))
}

/// A direct entry that can own nested entries: a loaded DWG xref that was
/// found on disk.
pub open spec fn can_parent(e: ReferenceEntry) -> bool {
    e.kind == RefKind::DwgXref && e.status == RefStatus::Loaded && e.found_at is Some
}

/// The lexical identities of the references a parent's own file holds, when
/// that file could be read.
pub open spec fn parent_paths(reads: Seq<Option<Vec<String>>>, i: int) -> Option<Seq<Seq<char>>> {
    if 0 <= i < reads.len() {
        match reads[i] {
            Option::Some(v) => Option::Some(
                string_views(v@).map_values(|p: Seq<char>| lexical_path(p)),
            ),
            Option::None => Option::None,
        }
    } else {
        Option::None
    }
}

/// The children list of `key` in `m`, empty when absent.
pub open spec fn kids_of(m: Map<u64, Seq<usize>>, key: u64) -> Seq<usize> {
    if m.contains_key(key) {
        m[key]
    } else {
        Seq::empty()
    }
}

/// The first `c` entries considered as children of the parent `key` whose
/// file references `paths`: an unclaimed nested entry whose saved path has
/// one of those identities joins the parent and is claimed.
pub open spec fn link_children(
    entries: Seq<ReferenceEntry>,
    nested: Set<usize>,
    paths: Seq<Seq<char>>,
    key: u64,
    start: (Map<u64, Seq<usize>>, Set<usize>),
    c: nat,
) -> (Map<u64, Seq<usize>>, Set<usize>)
    decreases c,
{
    if c == 0 {
        start
    } else {
        let (ch, cl) = link_children(entries, nested, paths, key, start, (c - 1) as nat);
        let ci = (c - 1) as usize;
        if nested.contains(ci) && !cl.contains(ci) && paths.contains(
            lexical_path(entries[ci as int].saved_path@),
        ) {
            (ch.insert(key, kids_of(ch, key).push(ci)), cl.insert(ci))
        } else {
            (ch, cl)
        }
    }
}

/// Parent linkage after the first `p` entries were considered as parents,
/// first parent wins.
pub open spec fn link_parents(
    entries: Seq<ReferenceEntry>,
    nested: Set<usize>,
    reads: Seq<Option<Vec<String>>>,
    p: nat,
) -> (Map<u64, Seq<usize>>, Set<usize>)
    decreases p,
{
    if p == 0 {
        (Map::empty(), Set::empty())
    } else {
        let prev = link_parents(entries, nested, reads, (p - 1) as nat);
        let pi = (p - 1) as usize;
        if nested.contains(pi) || !can_parent(entries[pi as int]) || parent_paths(
            reads,
            pi as int,
        ) is None {
            prev
        } else {
            link_children(
                entries,
                nested,
                parent_paths(reads, pi as int)->0,
                entries[pi as int].key,
                prev,
                entries.len(),
            )
        }
    }
}

/// Children lists as index sequences.
pub open spec fn kid_views(m: Map<u64, Vec<usize>>) -> Map<u64, Seq<usize>> {
    Map::new(|k: u64| m.contains_key(k), |k: u64| m[k]@)
}

/// The children lists `m`, with the claimed entries `cl`: every child is a
/// claimed nested entry, and no entry is listed twice, under one parent or
/// two.
pub open spec fn links_wf(len: int, nested: Set<usize>, m: Map<u64, Seq<usize>>, cl: Set<usize>) -> bool {
    &&& forall|k: u64, q: int|
        m.contains_key(k) && 0 <= q < m[k].len() ==> cl.contains(#[trigger] m[k][q]) && nested.contains(m[k][q])
            && m[k][q] < len
    &&& forall|k1: u64, k2: u64, q1: int, q2: int|
        m.contains_key(k1) && m.contains_key(k2) && 0 <= q1 < m[k1].len() && 0 <= q2 < m[k2].len()
            && #[trigger] m[k1][q1] == #[trigger] m[k2][q2] ==> k1 == k2 && q1 == q2
}

proof fn lemma_link_children(
    entries: Seq<ReferenceEntry>,
    nested: Set<usize>,
    paths: Seq<Seq<char>>,
    key: u64,
    start: (Map<u64, Seq<usize>>, Set<usize>),
    c: nat,
)
    requires
        c <= entries.len(),
        links_wf(entries.len() as int, nested, start.0, start.1),
    ensures
        ({
            let (m, cl) = link_children(entries, nested, paths, key, start, c);
            links_wf(entries.len() as int, nested, m, cl)
        }),
    decreases c,
{
    if c > 0 {
        lemma_link_children(entries, nested, paths, key, start, (c - 1) as nat);
        let (ch, cl) = link_children(entries, nested, paths, key, start, (c - 1) as nat);
        let ci = (c - 1) as usize;
        if nested.contains(ci) && !cl.contains(ci) && paths.contains(lexical_path(entries[ci as int].saved_path@)) {
            let old_kids = kids_of(ch, key);
            let m = ch.insert(key, old_kids.push(ci));
            let cl2 = cl.insert(ci);
            assert forall|k: u64, q: int| m.contains_key(k) && 0 <= q < m[k].len() implies cl2.contains(
                #[trigger] m[k][q],
            ) && nested.contains(m[k][q]) && m[k][q] < entries.len() by {
                if k == key {
                    if q < old_kids.len() {
                        assert(ch.contains_key(key) && ch[key][q] == m[k][q]);
                    }
                } else {
                    assert(m[k] == ch[k]);
                }
            }
            assert forall|k1: u64, k2: u64, q1: int, q2: int|
                m.contains_key(k1) && m.contains_key(k2) && 0 <= q1 < m[k1].len() && 0 <= q2 < m[k2].len()
                    && #[trigger] m[k1][q1] == #[trigger] m[k2][q2] implies k1 == k2 && q1 == q2 by {
                let new1 = k1 == key && q1 == old_kids.len();
                let new2 = k2 == key && q2 == old_kids.len();
                if !new1 {
                    if k1 == key {
                        assert(ch.contains_key(key) && ch[key][q1] == m[k1][q1]);
                        assert(cl.contains(ch[key][q1]));
                    } else {
                        assert(ch[k1][q1] == m[k1][q1]);
                        assert(cl.contains(ch[k1][q1]));
                    }
                }
                if !new2 {
                    if k2 == key {
                        assert(ch.contains_key(key) && ch[key][q2] == m[k2][q2]);
                        assert(cl.contains(ch[key][q2]));
                    } else {
                        assert(ch[k2][q2] == m[k2][q2]);
                        assert(cl.contains(ch[k2][q2]));
                    }
                }
                if !new1 && !new2 {
                    let a = if k1 == key { ch[key][q1] } else { ch[k1][q1] };
                    let b = if k2 == key { ch[key][q2] } else { ch[k2][q2] };
                    assert(ch[k1][q1] == a);
                    assert(ch[k2][q2] == b);
                }
            }
        }
    }
}

proof fn lemma_link_parents(entries: Seq<ReferenceEntry>, nested: Set<usize>, reads: Seq<Option<Vec<String>>>, p: nat)
    ensures
        ({
            let (m, cl) = link_parents(entries, nested, reads, p);
            links_wf(entries.len() as int, nested, m, cl)
        }),
    decreases p,
{
    if p > 0 {
        lemma_link_parents(entries, nested, reads, (p - 1) as nat);
        let pi = (p - 1) as usize;
        let prev = link_parents(entries, nested, reads, (p - 1) as nat);
        if !(nested.contains(pi) || !can_parent(entries[pi as int]) || parent_paths(reads, pi as int) is None) {
            lemma_link_children(
                entries,
                nested,
                parent_paths(reads, pi as int)->0,
                entries[pi as int].key,
                prev,
                entries.len(),
            );
        }
    }
}

/// Every claimed entry is listed as a child of some parent.
pub open spec fn claimed_are_listed(m: Map<u64, Seq<usize>>, cl: Set<usize>) -> bool {
    forall|x: usize| #[trigger] cl.contains(x) ==> exists|k: u64| m.contains_key(k) && (#[trigger] m[k]).contains(x)
}

proof fn lemma_link_children_complete(
    entries: Seq<ReferenceEntry>,
    nested: Set<usize>,
    paths: Seq<Seq<char>>,
    key: u64,
    start: (Map<u64, Seq<usize>>, Set<usize>),
    c: nat,
)
    requires
        c <= entries.len(),
        claimed_are_listed(start.0, start.1),
    ensures
        ({
            let (m, cl) = link_children(entries, nested, paths, key, start, c);
            &&& claimed_are_listed(m, cl)
            &&& start.1.subset_of(cl)
            &&& forall|ci: usize|
                ci < c && nested.contains(ci) && paths.contains(lexical_path(entries[ci as int].saved_path@))
                    ==> #[trigger] cl.contains(ci)
        }),
    decreases c,
{
    if c > 0 {
        lemma_link_children_complete(entries, nested, paths, key, start, (c - 1) as nat);
        let (ch, cl) = link_children(entries, nested, paths, key, start, (c - 1) as nat);
        let ci = (c - 1) as usize;
        if nested.contains(ci) && !cl.contains(ci) && paths.contains(lexical_path(entries[ci as int].saved_path@)) {
            let old_kids = kids_of(ch, key);
            let m = ch.insert(key, old_kids.push(ci));
            let cl2 = cl.insert(ci);
            assert forall|x: usize| #[trigger] cl2.contains(x) implies exists|k: u64| m.contains_key(k) && (#[trigger] m[k]).contains(x) by {
                if x == ci {
                    assert(m[key][old_kids.len() as int] == ci);
                    assert(m.contains_key(key) && m[key].contains(x));
                } else {
                    assert(cl.contains(x));
                    let k = choose|k: u64| ch.contains_key(k) && (#[trigger] ch[k]).contains(x);
                    let q = choose|q: int| 0 <= q < ch[k].len() && ch[k][q] == x;
                    if k == key {
                        assert(m[key][q] == x);
                        assert(m[key].contains(x));
                    } else {
                        assert(m[k] == ch[k]);
                        assert(m.contains_key(k) && m[k].contains(x));
                    }
                }
            }
        }
    }
}

proof fn lemma_link_parents_complete(entries: Seq<ReferenceEntry>, nested: Set<usize>, reads: Seq<Option<Vec<String>>>, p: nat)
    ensures
        ({
            let (m, cl) = link_parents(entries, nested, reads, p);
            &&& claimed_are_listed(m, cl)
            &&& forall|pi: usize, ci: usize|
                pi < p && ci < entries.len() && !nested.contains(pi) && can_parent(entries[pi as int])
                    && #[trigger] parent_paths(reads, pi as int) is Some && nested.contains(ci)
                    && parent_paths(reads, pi as int)->0.contains(lexical_path(entries[ci as int].saved_path@))
                    ==> #[trigger] cl.contains(ci)
        }),
    decreases p,
{
    if p > 0 {
        lemma_link_parents_complete(entries, nested, reads, (p - 1) as nat);
        let pi = (p - 1) as usize;
        let prev = link_parents(entries, nested, reads, (p - 1) as nat);
        if !(nested.contains(pi) || !can_parent(entries[pi as int]) || parent_paths(reads, pi as int) is None) {
            lemma_link_children_complete(
                entries,
                nested,
                parent_paths(reads, pi as int)->0,
                entries[pi as int].key,
                prev,
                entries.len(),
            );
        }
    }
}

/// A refresh links every nested reference it can: a nested entry whose
/// saved path (by lexical identity) is among the references read from a
/// direct, loaded, found DWG parent's own file is listed as the child of
/// some parent.
pub proof fn lemma_referenced_nested_entries_are_children(
    entries: Seq<ReferenceEntry>,
    nested: Set<usize>,
    reads: Seq<Option<Vec<String>>>,
    parent: usize,
    child: usize,
)
    requires
        parent < entries.len(),
        child < entries.len(),
        !nested.contains(parent),
        can_parent(entries[parent as int]),
        parent_paths(reads, parent as int) is Some,
        parent_paths(reads, parent as int)->0.contains(lexical_path(entries[child as int].saved_path@)),
        nested.contains(child),
    ensures
        ({
            let m = link_parents(entries, nested, reads, entries.len()).0;
            exists|k: u64| m.contains_key(k) && (#[trigger] m[k]).contains(child)
        }),
{
    lemma_link_parents_complete(entries, nested, reads, entries.len());
    let cl = link_parents(entries, nested, reads, entries.len()).1;
    assert(cl.contains(child));
}

/// After a refresh every child is a nested entry, and no entry is listed as
/// a child twice, under one parent or two: the first parent claims it.
pub proof fn lemma_children_are_claimed_once(
    entries: Seq<ReferenceEntry>,
    nested: Set<usize>,
    reads: Seq<Option<Vec<String>>>,
)
    ensures
        ({
            let m = link_parents(entries, nested, reads, entries.len()).0;
            &&& forall|k: u64, q: int|
                m.contains_key(k) && 0 <= q < m[k].len() ==> #[trigger] m[k][q] < entries.len() && nested.contains(m[k][q])
            &&& forall|k1: u64, k2: u64, q1: int, q2: int|
                m.contains_key(k1) && m.contains_key(k2) && 0 <= q1 < m[k1].len() && 0 <= q2 < m[k2].len()
                    && #[trigger] m[k1][q1] == #[trigger] m[k2][q2] ==> k1 == k2 && q1 == q2
        }),
{
    lemma_link_parents(entries, nested, reads, entries.len());
}

/// The identities of the selected entries of a previous list.
pub open spec fn selected_ids(entries: Seq<ReferenceEntry>, selected: Set<usize>) -> Set<
    (u64, Seq<char>),
> {
    Set::new(
        |id: (u64, Seq<char>)|
            exists|j: usize|
                selected.contains(j) && j < entries.len() && #[trigger] entry_id(entries[j as int])
                    == id,
    )
}

/// The first entry with identity `id`.
pub open spec fn first_with_id(entries: Seq<ReferenceEntry>, id: (u64, Seq<char>)) -> Option<usize>
    decreases entries.len(),
{
    if entries.len() == 0 {
        Option::None
    } else {
        match first_with_id(entries.drop_last(), id) {
            Option::Some(i) => Option::Some(i),
            Option::None => if entry_id(entries.last()) == id {
                Option::Some((entries.len() - 1) as usize)
            } else {
                Option::None
            },
        }
    }
}

/// The key of some entry.
pub open spec fn is_live_key(entries: Seq<ReferenceEntry>, k: u64) -> bool {
    exists|i: int| 0 <= i < entries.len() && (#[trigger] entries[i]).key == k
}


/// Whether `(key, path)` is one of `ids`.
fn ids_contain(ids: &Vec<(u64, String)>, key: u64, path: &String) -> (r: bool)
    ensures
        r == id_views(ids@).contains((key, path@)),
{
    let mut i: usize = 0;
    while i < ids.len()
        invariant
            i <= ids@.len(),
            forall|k: int| 0 <= k < i ==> id_views(ids@)[k] != (key, path@),
        decreases ids.len() - i,
    {
        if ids[i].0 == key && ids[i].1 == *path {
            assert(id_views(ids@)[i as int] == (key, path@));
            return true;
        }
        i += 1;
    }
    false
}

/// Whether `s` is one of `v`.
fn strings_contain(v: &Vec<String>, s: &String) -> (r: bool)
    ensures
        r == string_views(v@).contains(s@),
{
    let mut i: usize = 0;
    while i < v.len()
        invariant
            i <= v@.len(),
            forall|k: int| 0 <= k < i ==> string_views(v@)[k] != s@,
        decreases v.len() - i,
    {
        if v[i] == *s {
            assert(string_views(v@)[i as int] == s@);
            return true;
        }
        i += 1;
    }
    false
}

/// Whether some entry has key `k`.
fn key_is_live(entries: &Vec<ReferenceEntry>, k: u64) -> (r: bool)
    ensures
        r == is_live_key(entries@, k),
{
    let mut i: usize = 0;
    while i < entries.len()
        invariant
            i <= entries@.len(),
            forall|j: int| 0 <= j < i ==> (#[trigger] entries@[j]).key != k,
        decreases entries.len() - i,
    {
        if entries[i].key == k {
            assert(entries@[i as int].key == k);
            return true;
        }
        i += 1;
    }
    false
}

/// The lexical identities of raw reference paths.
fn lexical_all(raw: &Vec<String>) -> (r: Vec<String>)
    ensures
        string_views(r@) == string_views(raw@).map_values(|p: Seq<char>| lexical_path(p)),
{
    let mut r: Vec<String> = Vec::new();
    let mut i: usize = 0;
    while i < raw.len()
        invariant
            i <= raw@.len(),
            string_views(r@) == string_views(raw@).take(i as int).map_values(
                |p: Seq<char>| lexical_path(p),
            ),
        decreases raw.len() - i,
    {
        let ghost before = string_views(r@);
        r.push(normalize_lexical(raw[i].as_str()));
        assert(string_views(r@) =~= before.push(lexical_path(raw@[i as int]@)));
        i += 1;
        assert(string_views(r@) =~= string_views(raw@).take(i as int).map_values(
            |p: Seq<char>| lexical_path(p),
        ));
    }
    assert(string_views(raw@).take(i as int) =~= string_views(raw@));
    r
}

/// Appends `ci` to the children of `key`.
fn push_child(children: &mut HashMap<u64, Vec<usize>>, key: u64, ci: usize)
    ensures
        kid_views(final(children)@) == kid_views(old(children)@).insert(
            key,
            kids_of(kid_views(old(children)@), key).push(ci),
        ),
{
    let mut v = match children.remove(&key) {
        Option::Some(v) => v,
        Option::None => Vec::new(),
    };
    v.push(ci);
    children.insert(key, v);
    assert(kid_views(children@) =~= kid_views(old(children)@).insert(
        key,
        kids_of(kid_views(old(children)@), key).push(ci),
    ));
}

/// A copy of `s`.
fn copy_string(s: &String) -> (r: String)
    ensures
        r@ == s@,
{
    s.clone()
}

/// The identities of the selected entries of `entries`.
fn collect_selected_ids(entries: &Vec<ReferenceEntry>, selected: &HashSet<usize>) -> (r: Vec<
    (u64, String),
>)
    ensures
        id_views(r@).to_set() == selected_ids(entries@, selected@),
{
    let mut out: Vec<(u64, String)> = Vec::new();
    let iter = selected.iter();
    proof {
        let rem = IteratorSpec::remaining(&iter);
        assert forall|k: int| 0 <= k < rem.len() implies selected@.contains(*rem[k]) by {
            assert(rem.unref()[k] == *rem[k]);
            assert(rem.unref().contains(*rem[k]));
        }
    }
    for x in it: iter
        invariant
            forall|k: int| 0 <= k < it.seq().len() ==> selected@.contains(*it.seq()[k]),
            forall|id: (u64, Seq<char>)|
                id_views(out@).contains(id) ==> selected_ids(entries@, selected@).contains(id),
            forall|j: usize|
                selected@.contains(j) && j < entries@.len() ==> id_views(out@).contains(
                    entry_id(entries@[j as int]),
                ) || exists|k: int| it.index() <= k < it.seq().len() && *it.seq()[k] == j,
    {
        let j = *x;
        if j < entries.len() {
            let ghost before = id_views(out@);
            out.push((entries[j].key, copy_string(&entries[j].saved_path)));
            proof {
                assert(id_views(out@) =~= before.push(entry_id(entries@[j as int])));
                assert(id_views(out@)[before.len() as int] == entry_id(entries@[j as int]));
                assert forall|id: (u64, Seq<char>)| id_views(out@).contains(id) implies selected_ids(
                    entries@,
                    selected@,
                ).contains(id) by {
                    let k = choose|k: int| 0 <= k < id_views(out@).len() && id_views(out@)[k] == id;
                    if k < before.len() {
                        assert(before[k] == id);
                        assert(before.contains(id));
                    } else {
                        assert(entry_id(entries@[j as int]) == id);
                    }
                }
                assert forall|i: usize| selected@.contains(i) && i < entries@.len() implies id_views(
                    out@,
                ).contains(entry_id(entries@[i as int])) || exists|k: int|
                    it.index() + 1 <= k < it.seq().len() && *it.seq()[k] == i by {
                    if before.contains(entry_id(entries@[i as int])) {
                        let k = choose|k: int| 0 <= k < before.len() && before[k] == entry_id(
                            entries@[i as int],
                        );
                        assert(id_views(out@)[k] == before[k]);
                    }
                }
            }
        }
    }
    proof {
        assert forall|id: (u64, Seq<char>)| #[trigger] id_views(out@).to_set().contains(id) == selected_ids(
            entries@,
            selected@,
        ).contains(id) by {
            if selected_ids(entries@, selected@).contains(id) {
                let j = choose|j: usize|
                    selected@.contains(j) && j < entries@.len() && #[trigger] entry_id(
                        entries@[j as int],
                    ) == id;
                assert(id_views(out@).contains(id));
            }
        }
        assert(id_views(out@).to_set() =~= selected_ids(entries@, selected@));
    }
    out
}


/// The entries that are not held directly by the host drawing.
fn nested_of(entries: &Vec<ReferenceEntry>, direct_ids: &Vec<(u64, String)>) -> (r: HashSet<usize>)
    ensures
        r@ == nested_indices(entries@, id_views(direct_ids@)),
{
    let mut nested: HashSet<usize> = HashSet::new();
    let mut i: usize = 0;
    while i < entries.len()
        invariant
            i <= entries@.len(),
            nested@ == Set::new(
                |k: usize|
                    k < i && !id_views(direct_ids@).contains(entry_id(entries@[k as int])),
            ),
        decreases entries.len() - i,
    {
        if !ids_contain(direct_ids, entries[i].key, &entries[i].saved_path) {
            nested.insert(i);
        }
        i += 1;
        assert(nested@ =~= Set::new(
            |k: usize| k < i && !id_views(direct_ids@).contains(entry_id(entries@[k as int])),
        ));
    }
    assert(nested@ =~= nested_indices(entries@, id_views(direct_ids@)));
    nested
}

/// Parent linkage for a fresh list of entries.
fn link_all(
    entries: &Vec<ReferenceEntry>,
    nested: &HashSet<usize>,
    reads: &Vec<Option<Vec<String>>>,
) -> (r: HashMap<u64, Vec<usize>>)
    ensures
        kid_views(r@) == link_parents(entries@, nested@, reads@, entries@.len()).0,
{
    let n = entries.len();
    let mut children: HashMap<u64, Vec<usize>> = HashMap::new();
    let mut claimed: HashSet<usize> = HashSet::new();
    let mut pi: usize = 0;
    assert(kid_views(children@) =~= Map::<u64, Seq<usize>>::empty());
    while pi < n
        invariant
            n == entries@.len(),
            pi <= n,
            (kid_views(children@), claimed@) == link_parents(
                entries@,
                nested@,
                reads@,
                pi as nat,
            ),
        decreases n - pi,
    {
        let parent = &entries[pi];
        let usable = !nested.contains(&pi) && parent.kind == RefKind::DwgXref && parent.status
            == RefStatus::Loaded && parent.found_at.is_some() && pi < reads.len();
        if usable {
            match &reads[pi] {
                Option::Some(raw) => {
                    let paths = lexical_all(raw);
                    let ghost start = (kid_views(children@), claimed@);
                    let ghost pv = string_views(paths@);
                    let key = parent.key;
                    let mut ci: usize = 0;
                    while ci < n
                        invariant
                            n == entries@.len(),
                            ci <= n,
                            pi < n,
                            pv == string_views(paths@),
                            key == entries@[pi as int].key,
                            (kid_views(children@), claimed@) == link_children(
                                entries@,
                                nested@,
                                pv,
                                key,
                                start,
                                ci as nat,
                            ),
                        decreases n - ci,
                    {
                        let ghost prev = link_children(
                            entries@,
                            nested@,
                            pv,
                            key,
                            start,
                            ci as nat,
                        );
                        let ghost hit = nested@.contains(ci) && !prev.1.contains(ci)
                            && pv.contains(lexical_path(entries@[ci as int].saved_path@));
                        assert(link_children(entries@, nested@, pv, key, start, (ci + 1) as nat)
                            == if hit {
                            (prev.0.insert(key, kids_of(prev.0, key).push(ci)), prev.1.insert(ci))
                        } else {
                            prev
                        });
                        if nested.contains(&ci) && !claimed.contains(&ci) {
                            let id = normalize_lexical(entries[ci].saved_path.as_str());
                            if strings_contain(&paths, &id) {
                                push_child(&mut children, key, ci);
                                claimed.insert(ci);
                            }
                        }
                        ci += 1;
                    }
                },
                Option::None => {},
            }
        }
        pi += 1;
    }
    children
}

/// The first entry with the given identity.
fn find_id(entries: &Vec<ReferenceEntry>, key: u64, path: &String) -> (r: Option<usize>)
    ensures
        r == first_with_id(entries@, (key, path@)),
{
    let mut i: usize = 0;
    while i < entries.len()
        invariant
            i <= entries@.len(),
            first_with_id(entries@.take(i as int), (key, path@)) is None,
        decreases entries.len() - i,
    {
        assert(entries@.take(i + 1).drop_last() =~= entries@.take(i as int));
        if entries[i].key == key && entries[i].saved_path == *path {
            assert(entries@.take(i + 1).last() == entries@[i as int]);
            proof {
                lemma_first_with_id_prefix(entries@, (key, path@), i as int);
            }
            return Option::Some(i);
        }
        i += 1;
    }
    assert(entries@.take(i as int) =~= entries@);
    Option::None
}

/// A match at `i` with none before it is the first match.
proof fn lemma_first_with_id_prefix(entries: Seq<ReferenceEntry>, id: (u64, Seq<char>), i: int)
    requires
        0 <= i < entries.len(),
        entry_id(entries[i]) == id,
        first_with_id(entries.take(i), id) is None,
    ensures
        first_with_id(entries, id) == Option::Some(i as usize),
    decreases entries.len(),
{
    assert(entries.take(i + 1).drop_last() =~= entries.take(i));
    if i + 1 < entries.len() {
        assert(entries.drop_last().take(i) =~= entries.take(i));
        lemma_first_with_id_prefix(entries.drop_last(), id, i);
    } else {
        assert(entries.take(i + 1) =~= entries);
        assert(entries.drop_last() =~= entries.take(i));
    }
}

impl XrefManagerPanel {
    /// Installs a fresh reference scan. `direct_ids` are the
    /// `(handle, saved path)` identities the host drawing holds directly;
    /// `reads[i]`, for a direct loaded DWG entry `i` that was found, holds
    /// the raw reference paths its own file stores (`None` when that file
    /// could not be read). Entries without a direct identity are nested; a
    /// nested entry joins the first parent whose file references its
    /// saved path (by lexical identity), and unmatched ones stay roots.
    /// Selection and anchor survive by identity; dead indices are dropped,
    /// and expanded parents whose key vanished are forgotten.
    pub fn refresh_with(
        &mut self,
        entries: Vec<ReferenceEntry>,
        direct_ids: &Vec<(u64, String)>,
        reads: &Vec<Option<Vec<String>>>,
    )
        ensures
            final(self).entries@ == entries@,
            final(self).nested@ == nested_indices(entries@, id_views(direct_ids@)),
            kid_views(final(self).children@) == link_parents(
                entries@,
                nested_indices(entries@, id_views(direct_ids@)),
                reads@,
                entries@.len(),
            ).0,
            final(self).selected@ == Set::new(
                |i: usize|
                    i < entries@.len() && selected_ids(old(self).entries@, old(self).selected@).contains(
                        entry_id(entries@[i as int]),
                    ),
            ),
            final(self).anchor == match old(self).anchor {
                Option::Some(a) => if a < old(self).entries@.len() {
                    first_with_id(entries@, entry_id(old(self).entries@[a as int]))
                } else {
                    Option::None
                },
                Option::None => Option::None,
            },
            final(self).expanded@ == old(self).expanded@.filter(|k: u64| is_live_key(entries@, k)),
            final(self).tree == old(self).tree,
            final(self).unloaded_keys@ == old(self).unloaded_keys@,
            final(self).source_tab_id == old(self).source_tab_id,
    {
        let sel_ids = collect_selected_ids(&self.entries, &self.selected);
        let anchor_id: Option<(u64, String)> = match self.anchor {
            Option::Some(a) => if a < self.entries.len() {
                Option::Some((self.entries[a].key, copy_string(&self.entries[a].saved_path)))
            } else {
                Option::None
            },
            Option::None => Option::None,
        };
        let nested = nested_of(&entries, direct_ids);
        let children = link_all(&entries, &nested, reads);

        let mut selected: HashSet<usize> = HashSet::new();
        let mut i: usize = 0;
        while i < entries.len()
            invariant
                i <= entries@.len(),
                id_views(sel_ids@).to_set() == selected_ids(old(self).entries@, old(self).selected@),
                selected@ == Set::new(
                    |k: usize|
                        k < i && selected_ids(old(self).entries@, old(self).selected@).contains(
                            entry_id(entries@[k as int]),
                        ),
                ),
            decreases entries.len() - i,
        {
            if ids_contain(&sel_ids, entries[i].key, &entries[i].saved_path) {
                selected.insert(i);
            }
            i += 1;
            assert(selected@ =~= Set::new(
                |k: usize|
                    k < i && selected_ids(old(self).entries@, old(self).selected@).contains(
                        entry_id(entries@[k as int]),
                    ),
            ));
        }

        let anchor = match anchor_id {
            Option::Some((k, p)) => find_id(&entries, k, &p),
            Option::None => Option::None,
        };

        let mut keys: Vec<u64> = Vec::new();
        let iter = self.expanded.iter();
        proof {
            let rem = IteratorSpec::remaining(&iter);
            assert forall|k: int| 0 <= k < rem.len() implies self.expanded@.contains(*rem[k]) by {
                assert(rem.unref()[k] == *rem[k]);
                assert(rem.unref().contains(*rem[k]));
            }
        }
        for x in it: iter
            invariant
                forall|k: int| 0 <= k < it.seq().len() ==> self.expanded@.contains(*it.seq()[k]),
                forall|k: int| 0 <= k < keys@.len() ==> self.expanded@.contains(keys@[k]),
                forall|key: u64|
                    self.expanded@.contains(key) ==> keys@.contains(key) || exists|k: int|
                        it.index() <= k < it.seq().len() && *it.seq()[k] == key,
        {
            let ghost before = keys@;
            keys.push(*x);
            proof {
                assert forall|key: u64| self.expanded@.contains(key) implies keys@.contains(key)
                    || exists|k: int| it.index() + 1 <= k < it.seq().len() && *it.seq()[k] == key by {
                    if before.contains(key) {
                        let k = choose|k: int| 0 <= k < before.len() && before[k] == key;
                        assert(keys@[k] == key);
                    }
                    if key == *x {
                        assert(keys@[before.len() as int] == key);
                    }
                }
            }
        }
        let ghost old_expanded = self.expanded@;
        let mut expanded = HashSet::new();
        let mut j: usize = 0;
        while j < keys.len()
            invariant
                j <= keys@.len(),
                forall|k: int| 0 <= k < keys@.len() ==> old_expanded.contains(keys@[k]),
                forall|key: u64| old_expanded.contains(key) ==> keys@.contains(key),
                forall|key: u64|
                    expanded@.contains(key) <==> (exists|k: int| 0 <= k < j && keys@[k] == key)
                        && is_live_key(entries@, key),
            decreases keys.len() - j,
        {
            let k = keys[j];
            if key_is_live(&entries, k) {
                expanded.insert(k);
            }
            j += 1;
            proof {
                assert forall|key: u64| expanded@.contains(key) <==> (exists|kk: int|
                    0 <= kk < j && keys@[kk] == key) && is_live_key(entries@, key) by {
                    if key == k {
                        assert(keys@[j - 1] == key);
                    }
                }
            }
        }
        proof {
            assert forall|key: u64| #[trigger] expanded@.contains(key) == old_expanded.filter(
                |k: u64| is_live_key(entries@, k),
            ).contains(key) by {
                if old_expanded.contains(key) {
                    assert(keys@.contains(key));
                }
            }
            assert(expanded@ =~= old_expanded.filter(|k: u64| is_live_key(entries@, k)));
        }

        self.entries = entries;
        self.nested = nested;
        self.children = children;
        self.selected = selected;
        self.anchor = anchor;
        self.expanded = expanded;
    }
}

} // verus!
