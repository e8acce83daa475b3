//! Mathematical model of lexical XREF paths: separator unification, root
//! prefixes, component cleanup and rejoining, all over character sequences.
use vstd::prelude::*;

use crate::text::{ascii_lower, ascii_lower_seq, is_ascii_alpha, str_lowercase};

verus! {

/// `\` replaced by `/` everywhere.
pub open spec fn slashed(s: Seq<char>) -> Seq<char> {
    s.map_values(|c: char| if c == '\\' { '/' } else { c })
}

/// `s` starts with a drive designator such as `C:`.
pub open spec fn has_drive(s: Seq<char>) -> bool {
    s.len() >= 2 && is_ascii_alpha(s[0]) && s[1] == ':'
}

/// `s` starts with the UNC marker `//`.
pub open spec fn starts_unc(s: Seq<char>) -> bool {
    s.len() >= 2 && s[0] == '/' && s[1] == '/'
}

/// `s` starts with `/`.
pub open spec fn starts_slash(s: Seq<char>) -> bool {
    s.len() >= 1 && s[0] == '/'
}

/// `s` with every leading `/` removed.
pub open spec fn trim_leading_slashes(s: Seq<char>) -> Seq<char>
    decreases s.len(),
{
    if s.len() > 0 && s[0] == '/' {
        trim_leading_slashes(s.drop_first())
    } else {
        s
    }
}

/// The root prefix of an already slashed path: the drive (its letter ASCII
/// lowercased when `fold` holds), `//` for UNC, or nothing.
pub open spec fn root_prefix(s: Seq<char>, fold: bool) -> Seq<char> {
    if has_drive(s) {
        if fold {
            seq![ascii_lower(s[0]), ':']
        } else {
            s.take(2)
        }
    } else if starts_unc(s) {
        seq!['/', '/']
    } else {
        Seq::empty()
    }
}

/// What follows the root prefix of an already slashed path.
pub open spec fn after_prefix(s: Seq<char>) -> Seq<char> {
    if has_drive(s) {
        s.skip(2)
    } else if starts_unc(s) {
        trim_leading_slashes(s.skip(2))
    } else {
        s
    }
}

/// Left-to-right split state: the finished pieces and the piece in progress.
pub open spec fn split_state(s: Seq<char>, sep: char) -> (Seq<Seq<char>>, Seq<char>)
    decreases s.len(),
{
    if s.len() == 0 {
        (Seq::empty(), Seq::empty())
    } else {
        let (done, cur) = split_state(s.drop_last(), sep);
        if s.last() == sep {
            (done.push(cur), Seq::empty())
        } else {
            (done, cur.push(s.last()))
        }
    }
}

/// `str::split(sep)`: the pieces between separators, empty ones included.
pub open spec fn split(s: Seq<char>, sep: char) -> Seq<Seq<char>> {
    let (done, cur) = split_state(s, sep);
    done.push(cur)
}

/// The pieces that are not empty, in order.
pub open spec fn nonempty(parts: Seq<Seq<char>>) -> Seq<Seq<char>>
    decreases parts.len(),
{
    if parts.len() == 0 {
        Seq::empty()
    } else if parts.last().len() == 0 {
        nonempty(parts.drop_last())
    } else {
        nonempty(parts.drop_last()).push(parts.last())
    }
}

/// The component `..`.
pub open spec fn dotdot() -> Seq<char> {
    seq!['.', '.']
}

/// One component of the lexical cleanup: empty and `.` components vanish,
/// `..` pops the previous component (a relative path that climbs past its
/// start keeps a `..`, an absolute one stays at its root), anything else is
/// pushed.
pub open spec fn clean_step(stack: Seq<Seq<char>>, comp: Seq<char>, absolute: bool) -> Seq<
    Seq<char>,
> {
    if comp.len() == 0 || comp == seq!['.'] {
        stack
    } else if comp == dotdot() {
        if stack.len() > 0 {
            stack.drop_last()
        } else if !absolute {
            stack.push(dotdot())
        } else {
            stack
        }
    } else {
        stack.push(comp)
    }
}

/// The cleanup applied to every component in order.
pub open spec fn clean_all(comps: Seq<Seq<char>>, absolute: bool) -> Seq<Seq<char>>
    decreases comps.len(),
{
    if comps.len() == 0 {
        Seq::empty()
    } else {
        clean_step(clean_all(comps.drop_last(), absolute), comps.last(), absolute)
    }
}

/// `parts` joined with `sep` between neighbours.
pub open spec fn join(parts: Seq<Seq<char>>, sep: char) -> Seq<char>
    decreases parts.len(),
{
    if parts.len() == 0 {
        Seq::empty()
    } else if parts.len() == 1 {
        parts[0]
    } else {
        join(parts.drop_last(), sep).push(sep) + parts.last()
    }
}

/// The cleaned components of a raw path.
pub open spec fn clean_components(raw: Seq<char>) -> Seq<Seq<char>> {
    let rest = after_prefix(slashed(raw));
    clean_all(split(rest, '/'), starts_slash(rest))
}

/// Whether the part after the root prefix of a raw path is rooted.
pub open spec fn is_rooted(raw: Seq<char>) -> bool {
    starts_slash(after_prefix(slashed(raw)))
}

/// The cleaned components joined again, `/` first when rooted.
pub open spec fn rooted_join(joined: Seq<char>, absolute: bool) -> Seq<char> {
    if absolute {
        seq!['/'] + joined
    } else {
        joined
    }
}

/// Separator-normalized path that keeps the case of every character.
pub open spec fn display_path(raw: Seq<char>) -> Seq<char> {
    root_prefix(slashed(raw), false) + rooted_join(
        join(clean_components(raw), '/'),
        is_rooted(raw),
    )
}

/// Lexical identity of a path: as [`display_path`], with the drive letter
/// ASCII-lowercased and the components lowercased by `str::to_lowercase`.
pub open spec fn lexical_path(raw: Seq<char>) -> Seq<char> {
    root_prefix(slashed(raw), true) + rooted_join(
        str_lowercase(join(clean_components(raw), '/')),
        is_rooted(raw),
    )
}

/// The key that decides whether two normalized paths share a root: the
/// drive, `//server/share`, `/`, or nothing for a relative path.
pub open spec fn root_key(n: Seq<char>) -> Seq<char> {
    let lower = ascii_lower_seq(n);
    if has_drive(lower) {
        lower.take(2)
    } else if starts_unc(lower) {
        let parts = nonempty(split(lower.skip(2), '/'));
        if parts.len() >= 2 {
            seq!['/', '/'] + parts[0] + seq!['/'] + parts[1]
        } else {
            lower
        }
    } else if starts_slash(lower) {
        seq!['/']
    } else {
        Seq::empty()
    }
}

/// A normalized path with neither drive nor leading `/`.
pub open spec fn is_relative(n: Seq<char>) -> bool {
    !has_drive(n) && !starts_slash(n)
}

/// The non-empty components of a normalized path after its root (a UNC
/// path's server and share belong to the root).
pub open spec fn comps_after_root(p: Seq<char>) -> Seq<Seq<char>> {
    if has_drive(p) {
        nonempty(split(p.skip(2), '/'))
    } else if starts_unc(p) {
        let all = nonempty(split(p.skip(2), '/'));
        if all.len() >= 2 {
            all.skip(2)
        } else {
            Seq::empty()
        }
    } else {
        nonempty(split(p, '/'))
    }
}

/// The last component of the display form, without a drive designator.
pub open spec fn file_name(raw: Seq<char>) -> Seq<char> {
    let d = display_path(raw);
    if d.len() == 0 {
        Seq::empty()
    } else {
        let base = split(d, '/').last();
        if has_drive(base) {
            base.skip(2)
        } else {
            base
        }
    }
}

/// Number of leading positions at which `a` and `b` agree.
pub open spec fn common_prefix_len(a: Seq<Seq<char>>, b: Seq<Seq<char>>) -> nat
    decreases a.len(),
{
    if a.len() == 0 || b.len() == 0 || a[0] != b[0] {
        0
    } else {
        1 + common_prefix_len(a.drop_first(), b.drop_first())
    }
}

/// `n` copies of `..`.
pub open spec fn dotdots(n: nat) -> Seq<Seq<char>> {
    Seq::new(n, |i: int| dotdot())
}

} // verus!

verus! {

/// The character sequences held by a vector of character vectors.
pub open spec fn views(v: Seq<Vec<char>>) -> Seq<Seq<char>> {
    v.map_values(|x: Vec<char>| x@)
}

} // verus!

verus! {

/// `common_prefix_len` is the first position where the sequences differ or
/// one of them ends.
pub proof fn lemma_common_prefix_len(a: Seq<Seq<char>>, b: Seq<Seq<char>>, k: int)
    requires
        0 <= k <= a.len(),
        k <= b.len(),
        forall|i: int| 0 <= i < k ==> a[i] == b[i],
        k == a.len() || k == b.len() || a[k] != b[k],
    ensures
        common_prefix_len(a, b) == k,
    decreases k,
{
    if k > 0 {
        assert(a[0] == b[0]);
        let a1 = a.drop_first();
        let b1 = b.drop_first();
        assert forall|i: int| 0 <= i < k - 1 implies a1[i] == b1[i] by {
            assert(a1[i] == a[i + 1] && b1[i] == b[i + 1]);
        }
        if k < a.len() && k < b.len() {
            assert(a1[k - 1] == a[k] && b1[k - 1] == b[k]);
        }
        lemma_common_prefix_len(a1, b1, k - 1);
    }
}

/// Backslashes and slashes are the same separator: replacing every `\\`
/// by `/` changes neither the lexical identity nor the display form.
pub proof fn lemma_backslashes_are_slashes(raw: Seq<char>)
    ensures
        lexical_path(slashed(raw)) == lexical_path(raw),
        display_path(slashed(raw)) == display_path(raw),
{
    assert(slashed(slashed(raw)) =~= slashed(raw));
}

/// The case of a drive letter does not change the lexical identity:
/// `C:/x` and `c:/x` are one reference.
pub proof fn lemma_drive_letter_case(raw: Seq<char>, c: char)
    requires
        has_drive(raw),
        is_ascii_alpha(c),
        ascii_lower(c) == ascii_lower(raw[0]),
    ensures
        lexical_path(raw.update(0, c)) == lexical_path(raw),
{
    let other = raw.update(0, c);
    assert(slashed(other) =~= slashed(raw).update(0, c));
    assert(slashed(other).skip(2) =~= slashed(raw).skip(2));
    assert(has_drive(slashed(other)) && has_drive(slashed(raw)));
    assert(root_prefix(slashed(other), true) =~= root_prefix(slashed(raw), true));
    assert(after_prefix(slashed(other)) =~= after_prefix(slashed(raw)));
}

/// Characters without a separator extend the last piece of a split.
proof fn lemma_split_state_append(s: Seq<char>, y: Seq<char>, sep: char)
    requires
        !y.contains(sep),
    ensures
        split_state(s + y, sep) == (split_state(s, sep).0, split_state(s, sep).1 + y),
    decreases y.len(),
{
    if y.len() == 0 {
        assert(s + y =~= s);
        assert(split_state(s, sep).1 + y =~= split_state(s, sep).1);
    } else {
        let y1 = y.drop_last();
        assert(!y1.contains(sep)) by {
            if y1.contains(sep) {
                let i = choose|i: int| 0 <= i < y1.len() && y1[i] == sep;
                assert(y[i] == sep);
            }
        }
        lemma_split_state_append(s, y1, sep);
        assert((s + y).drop_last() =~= s + y1);
        assert((s + y).last() == y.last());
        assert(y.last() != sep) by {
            assert(y[y.len() - 1] == y.last());
        }
        assert((split_state(s, sep).1 + y1).push(y.last()) =~= split_state(s, sep).1 + y);
    }
}

/// Joining pieces without separators and splitting again gives them back.
pub proof fn lemma_split_join(parts: Seq<Seq<char>>, sep: char)
    requires
        parts.len() >= 1,
        forall|i: int| 0 <= i < parts.len() ==> !(#[trigger] parts[i]).contains(sep),
    ensures
        split(join(parts, sep), sep) == parts,
    decreases parts.len(),
{
    if parts.len() == 1 {
        lemma_split_state_append(Seq::empty(), parts[0], sep);
        assert(Seq::<char>::empty() + parts[0] =~= parts[0]);
        assert(Seq::<Seq<char>>::empty().push(parts[0]) =~= parts);
    } else {
        let front = parts.drop_last();
        assert forall|i: int| 0 <= i < front.len() implies !(#[trigger] front[i]).contains(sep) by {
            assert(front[i] == parts[i]);
        }
        lemma_split_join(front, sep);
        let x = join(front, sep).push(sep);
        assert(x.drop_last() =~= join(front, sep));
        let (d, c) = split_state(join(front, sep), sep);
        assert(d.push(c) == front);
        assert(split_state(x, sep) == (d.push(c), Seq::<char>::empty()));
        assert(!parts.last().contains(sep)) by {
            assert(parts[parts.len() - 1] == parts.last());
        }
        lemma_split_state_append(x, parts.last(), sep);
        assert(Seq::<char>::empty() + parts.last() =~= parts.last());
        assert(front.push(parts.last()) =~= parts);
    }
}

/// No piece of a split holds the separator.
proof fn lemma_split_state_no_sep(s: Seq<char>, sep: char)
    ensures
        forall|i: int| 0 <= i < split_state(s, sep).0.len() ==> !(#[trigger] split_state(s, sep).0[i]).contains(sep),
        !split_state(s, sep).1.contains(sep),
    decreases s.len(),
{
    if s.len() > 0 {
        lemma_split_state_no_sep(s.drop_last(), sep);
        let (done, cur) = split_state(s.drop_last(), sep);
        if s.last() != sep {
            assert(!cur.push(s.last()).contains(sep)) by {
                if cur.push(s.last()).contains(sep) {
                    let i = choose|i: int| 0 <= i < cur.push(s.last()).len() && cur.push(s.last())[i] == sep;
                    if i < cur.len() {
                        assert(cur[i] == sep);
                    }
                }
            }
        } else {
            assert forall|i: int| 0 <= i < done.push(cur).len() implies !(#[trigger] done.push(cur)[i]).contains(sep) by {
                if i < done.len() {
                    assert(done.push(cur)[i] == done[i]);
                }
            }
        }
    }
}

/// The non-empty pieces are pieces of the original, and not empty.
proof fn lemma_nonempty_pieces(parts: Seq<Seq<char>>)
    ensures
        forall|i: int| 0 <= i < nonempty(parts).len() ==> (#[trigger] nonempty(parts)[i]).len() > 0 && parts.contains(
            nonempty(parts)[i],
        ),
    decreases parts.len(),
{
    if parts.len() > 0 {
        lemma_nonempty_pieces(parts.drop_last());
        let prev = nonempty(parts.drop_last());
        assert forall|i: int| 0 <= i < nonempty(parts).len() implies (#[trigger] nonempty(parts)[i]).len() > 0
            && parts.contains(nonempty(parts)[i]) by {
            if i < prev.len() {
                assert(nonempty(parts)[i] == prev[i]);
                let j = choose|j: int| 0 <= j < parts.drop_last().len() && parts.drop_last()[j] == prev[i];
                assert(parts[j] == prev[i]);
            } else {
                assert(nonempty(parts)[i] == parts.last());
                assert(parts[parts.len() - 1] == parts.last());
            }
        }
    }
}

/// The non-empty pieces of a split hold no separator and are not empty.
proof fn lemma_split_pieces(s: Seq<char>, sep: char)
    ensures
        forall|i: int| 0 <= i < nonempty(split(s, sep)).len() ==> (#[trigger] nonempty(split(s, sep))[i]).len() > 0
            && !nonempty(split(s, sep))[i].contains(sep),
{
    lemma_split_state_no_sep(s, sep);
    lemma_nonempty_pieces(split(s, sep));
    let sp = split(s, sep);
    assert forall|i: int| 0 <= i < nonempty(sp).len() implies (#[trigger] nonempty(sp)[i]).len() > 0 && !nonempty(
        sp,
    )[i].contains(sep) by {
        let j = choose|j: int| 0 <= j < sp.len() && sp[j] == nonempty(sp)[i];
        let (d, c) = split_state(s, sep);
        if j < d.len() {
            assert(sp[j] == d[j]);
        } else {
            assert(sp[j] == c);
        }
    }
}

/// The components of a path after its root are not empty and hold no `/`.
pub proof fn lemma_components_are_names(p: Seq<char>)
    ensures
        forall|i: int| 0 <= i < comps_after_root(p).len() ==> (#[trigger] comps_after_root(p)[i]).len() > 0
            && !comps_after_root(p)[i].contains('/'),
{
    if has_drive(p) {
        lemma_split_pieces(p.skip(2), '/');
    } else if starts_unc(p) {
        lemma_split_pieces(p.skip(2), '/');
        let all = nonempty(split(p.skip(2), '/'));
        if all.len() >= 2 {
            assert forall|i: int| 0 <= i < all.skip(2).len() implies (#[trigger] all.skip(2)[i]).len() > 0
                && !all.skip(2)[i].contains('/') by {
                assert(all.skip(2)[i] == all[i + 2]);
            }
        }
    } else {
        lemma_split_pieces(p, '/');
    }
}

/// The length of the common prefix: the two agree on it and differ right
/// after it, unless one of them ends there.
pub proof fn lemma_common_prefix_facts(a: Seq<Seq<char>>, b: Seq<Seq<char>>)
    ensures
        common_prefix_len(a, b) <= a.len(),
        common_prefix_len(a, b) <= b.len(),
        a.take(common_prefix_len(a, b) as int) == b.take(common_prefix_len(a, b) as int),
        common_prefix_len(a, b) == a.len() || common_prefix_len(a, b) == b.len() || a[common_prefix_len(a, b) as int]
            != b[common_prefix_len(a, b) as int],
    decreases a.len(),
{
    if !(a.len() == 0 || b.len() == 0 || a[0] != b[0]) {
        let a1 = a.drop_first();
        let b1 = b.drop_first();
        lemma_common_prefix_facts(a1, b1);
        let k = common_prefix_len(a1, b1) as int;
        assert(a.take(k + 1) =~= seq![a[0]] + a1.take(k));
        assert(b.take(k + 1) =~= seq![b[0]] + b1.take(k));
        if k < a1.len() && k < b1.len() {
            assert(a[k + 1] == a1[k] && b[k + 1] == b1[k]);
        }
    } else {
        assert(a.take(0) =~= b.take(0));
    }
}

} // verus!
