//! XREF path model: lexical identity for external references, stored-path
//! conversions, name matching and the entries of the reference list.
use vstd::prelude::*;

use crate::path_spec::{
    after_prefix, clean_all, common_prefix_len, comps_after_root, dotdots,
    file_name, is_relative, lemma_common_prefix_facts, lemma_common_prefix_len, lemma_components_are_names, lemma_split_join, nonempty, root_key, clean_components, clean_step, display_path, dotdot, has_drive,
    is_rooted, join, lexical_path, root_prefix, slashed, split, split_state,
    starts_unc, trim_leading_slashes, views,
};
use crate::text::{
    chars_eq_str, decimal, decimal_chars, lemma_decimal_injective,
    ascii_lower_seq, chars_eq, ascii_alpha, ascii_lower, chars_of, extend_chars, lower_ascii_char,
    str_to_lowercase, string_of,
};

verus! {

/// Replaces every `\` by `/`.
fn slash_chars(raw: &str) -> (s: Vec<char>)
    ensures
        s@ == slashed(raw@),
{
    let cs = chars_of(raw);
    let mut s: Vec<char> = Vec::new();
    let mut i: usize = 0;
    while i < cs.len()
        invariant
            i <= cs.len(),
            cs@ == raw@,
            s@ == slashed(cs@.take(i as int)),
        decreases cs.len() - i,
    {
        let c = cs[i];
        s.push(if c == '\\' { '/' } else { c });
        assert(s@ =~= slashed(cs@.take(i + 1)));
        i += 1;
    }
    assert(cs@.take(i as int) =~= cs@);
    s
}

/// Applies one cleanup step to the component stack.
fn apply_clean(stack: &mut Vec<Vec<char>>, comp: Vec<char>, absolute: bool)
    ensures
        views(final(stack)@) == clean_step(views(old(stack)@), comp@, absolute),
{
    let n = comp.len();
    if n == 0 || (n == 1 && comp[0] == '.') {
        assert(n == 1 ==> comp@ =~= seq!['.']);
        return;
    }
    assert(comp@ != seq!['.']) by {
        if comp@ == seq!['.'] {
            assert(comp@[0] == '.');
        }
    }
    if n == 2 && comp[0] == '.' && comp[1] == '.' {
        assert(comp@ =~= dotdot());
        if stack.len() > 0 {
            stack.pop();
            assert(views(stack@) =~= views(old(stack)@).drop_last());
        } else if !absolute {
            stack.push(vec!['.', '.']);
            assert(views(stack@) =~= views(old(stack)@).push(dotdot()));
        }
    } else {
        assert(comp@ != dotdot()) by {
            if comp@ == dotdot() {
                assert(comp@[0] == '.' && comp@[1] == '.');
            }
        }
        let ghost c = comp@;
        stack.push(comp);
        assert(views(stack@) =~= views(old(stack)@).push(c));
    }
}


/// The root prefix of a slashed path and where the rest starts.
fn split_root(s: &Vec<char>, fold: bool) -> (r: (Vec<char>, usize))
    ensures
        r.0@ == root_prefix(s@, fold),
        r.1 <= s@.len(),
        s@.skip(r.1 as int) == after_prefix(s@),
{
    let n = s.len();
    if n >= 2 && ascii_alpha(s[0]) && s[1] == ':' {
        let first = if fold { lower_ascii_char(s[0]) } else { s[0] };
        let p = vec![first, ':'];
        assert(fold ==> p@ =~= seq![ascii_lower(s@[0]), ':']);
        assert(!fold ==> p@ =~= s@.take(2));
        (p, 2)
    } else if n >= 2 && s[0] == '/' && s[1] == '/' {
        let mut j: usize = 2;
        while j < n && s[j] == '/'
            invariant
                2 <= j <= n,
                n == s@.len(),
                trim_leading_slashes(s@.skip(2)) == trim_leading_slashes(s@.skip(j as int)),
            decreases n - j,
        {
            assert(s@.skip(j as int).drop_first() =~= s@.skip(j + 1));
            j += 1;
        }
        let p = vec!['/', '/'];
        assert(p@ =~= seq!['/', '/']);
        (p, j)
    } else {
        assert(s@.skip(0) =~= s@);
        (Vec::new(), 0)
    }
}

/// Root prefix, rootedness and cleaned components of a raw path.
fn normalize_parts(raw: &str, fold: bool) -> (r: (Vec<char>, bool, Vec<Vec<char>>))
    ensures
        r.0@ == root_prefix(slashed(raw@), fold),
        r.1 == is_rooted(raw@),
        views(r.2@) == clean_components(raw@),
{
    let s = slash_chars(raw);
    let (prefix, start) = split_root(&s, fold);
    let ghost rest = s@.skip(start as int);
    let n = s.len();
    let absolute = start < n && s[start] == '/';
    let mut stack: Vec<Vec<char>> = Vec::new();
    let mut cur: Vec<char> = Vec::new();
    let ghost mut done: Seq<Seq<char>> = Seq::empty();
    let mut i: usize = start;
    assert(rest.take(0) =~= Seq::<char>::empty());
    while i < n
        invariant
            start <= i <= n,
            n == s@.len(),
            rest == s@.skip(start as int),
            split_state(rest.take(i - start), '/') == (done, cur@),
            views(stack@) == clean_all(done, absolute),
        decreases n - i,
    {
        let c = s[i];
        assert(rest.take(i - start + 1).drop_last() =~= rest.take(i - start));
        assert(rest.take(i - start + 1).last() == c);
        if c == '/' {
            let piece = cur;
            cur = Vec::new();
            proof {
                assert(done.push(piece@).drop_last() =~= done);
                done = done.push(piece@);
            }
            apply_clean(&mut stack, piece, absolute);
        } else {
            cur.push(c);
        }
        i += 1;
    }
    assert(rest.take(n - start) =~= rest);
    assert(done.push(cur@).drop_last() =~= done);
    apply_clean(&mut stack, cur, absolute);
    (prefix, absolute, stack)
}

/// The parts joined with `sep` between neighbours.
fn join_chars(parts: &Vec<Vec<char>>, sep: char) -> (r: Vec<char>)
    ensures
        r@ == join(views(parts@), sep),
{
    let mut r: Vec<char> = Vec::new();
    let mut i: usize = 0;
    assert(views(parts@).take(0) =~= Seq::<Seq<char>>::empty());
    while i < parts.len()
        invariant
            i <= parts.len(),
            r@ == join(views(parts@).take(i as int), sep),
        decreases parts.len() - i,
    {
        let ghost t = views(parts@).take(i + 1);
        assert(t.drop_last() =~= views(parts@).take(i as int));
        assert(t.last() == parts@[i as int]@);
        if i > 0 {
            r.push(sep);
        } else {
            assert(r@ =~= Seq::<char>::empty());
        }
        extend_chars(&mut r, &parts[i]);
        i += 1;
    }
    assert(views(parts@).take(i as int) =~= views(parts@));
    r
}

/// Separator-normalized form of `raw` that keeps its case: `\` becomes
/// `/`, `.` and empty components vanish, `..` pops, and the root prefix
/// (drive, UNC or nothing) and rootedness are kept.
pub fn normalize_display(raw: &str) -> (r: String)
    ensures
        r@ == display_path(raw@),
{
    let (prefix, absolute, stack) = normalize_parts(raw, false);
    let joined = join_chars(&stack, '/');
    let mut out = prefix;
    if absolute {
        out.push('/');
    }
    extend_chars(&mut out, &joined);
    assert(out@ =~= display_path(raw@));
    string_of(&out)
}

/// Lexical path normalization for reference identity. Never touches the
/// filesystem: `\` becomes `/`, `.`/`..` components are cleaned up, the
/// drive letter is lowercased and the components are case-folded, so that
/// `C:\Host\PLAN.dwg` and `c:/host/./plan.dwg` share one identity.
pub fn normalize_lexical(raw: &str) -> (r: String)
    ensures
        r@ == lexical_path(raw@),
{
    let (prefix, absolute, stack) = normalize_parts(raw, true);
    let joined = string_of(&join_chars(&stack, '/'));
    let folded = str_to_lowercase(joined.as_str());
    let mut head = prefix;
    if absolute {
        head.push('/');
    }
    let mut out = string_of(&head);
    out.append(folded.as_str());
    assert(out@ =~= lexical_path(raw@));
    out
}


/// How an XREF path is stored relative to its host drawing.
#[derive(Debug, Clone, Copy, PartialEq, Eq)]
pub enum Pathtype {
    Full,
    Relative,
    NoPath,
}

/// Why a [`Pathtype::Relative`] conversion cannot be expressed.
#[derive(Debug, Clone, Copy, PartialEq, Eq)]
pub enum PathtypeError {
    AcrossDrives,
    UnsavedHost,
}

/// The relative form of `path` against a host directory whose root matches.
pub open spec fn relative_within_root(path: Seq<char>, t: Seq<char>, h: Seq<char>) -> Seq<char> {
    let tc = comps_after_root(t);
    let hc = comps_after_root(h);
    let k = common_prefix_len(tc, hc);
    let td = comps_after_root(display_path(path));
    let tail = if td.len() == tc.len() {
        td.skip(k as int)
    } else {
        tc.skip(k as int)
    };
    let parts = dotdots((hc.len() - k) as nat) + tail;
    if parts.len() == 0 {
        file_name(path)
    } else {
        join(parts, '/')
    }
}

/// The `Relative` conversion of `path` for a host whose directory is
/// `host_dir` (`None` when the host has no directory).
pub open spec fn relative_path(path: Seq<char>, host_dir: Option<Seq<char>>) -> Result<
    Seq<char>,
    PathtypeError,
> {
    match host_dir {
        Option::None => Err(PathtypeError::UnsavedHost),
        Option::Some(dir) => {
            let h = lexical_path(dir);
            let t = lexical_path(path);
            if h.len() == 0 {
                Err(PathtypeError::UnsavedHost)
            } else if t.len() == 0 {
                Ok(Seq::empty())
            } else if root_key(t) != root_key(h) {
                if is_relative(t) {
                    Ok(display_path(path))
                } else {
                    Err(PathtypeError::AcrossDrives)
                }
            } else {
                Ok(relative_within_root(path, t, h))
            }
        },
    }
}

/// A relative form climbs from the host's directory to the deepest
/// directory it shares with the target, then descends to the target: its
/// pieces are one `..` for each host component below that common ancestor
/// (the returned depth `a`, where the two component lists agree on the
/// first `a` and part right after), followed by one piece for each target
/// component below it.
pub proof fn lemma_relative_climbs_to_common_ancestor(path: Seq<char>, dir: Seq<char>) -> (a: nat)
    requires
        lexical_path(dir).len() > 0,
        lexical_path(path).len() > 0,
        root_key(lexical_path(path)) == root_key(lexical_path(dir)),
        comps_after_root(lexical_path(path)) != comps_after_root(lexical_path(dir)),
    ensures
        ({
            let hc = comps_after_root(lexical_path(dir));
            let tc = comps_after_root(lexical_path(path));
            &&& a <= hc.len() && a <= tc.len()
            &&& hc.take(a as int) == tc.take(a as int)
            &&& (a == hc.len() || a == tc.len() || hc[a as int] != tc[a as int])
            &&& match relative_path(path, Option::Some(dir)) {
                Ok(r) => {
                    let parts = split(r, '/');
                    &&& parts.len() == (hc.len() - a) + (tc.len() - a)
                    &&& forall|i: int| 0 <= i < hc.len() - a ==> #[trigger] parts[i] == seq!['.', '.']
                },
                Err(_) => false,
            }
        }),
{
    let h = lexical_path(dir);
    let t = lexical_path(path);
    let hc = comps_after_root(h);
    let tc = comps_after_root(t);
    let td = comps_after_root(display_path(path));
    lemma_common_prefix_facts(tc, hc);
    let k = common_prefix_len(tc, hc);
    let tail = if td.len() == tc.len() {
        td.skip(k as int)
    } else {
        tc.skip(k as int)
    };
    let ups = dotdots((hc.len() - k) as nat);
    let parts = ups + tail;
    assert(tail.len() == tc.len() - k);
    if parts.len() == 0 {
        assert(hc.len() == k && tc.len() == k);
        assert(hc =~= hc.take(k as int));
        assert(tc =~= tc.take(k as int));
        assert(false);
    }
    lemma_components_are_names(t);
    lemma_components_are_names(display_path(path));
    assert forall|i: int| 0 <= i < parts.len() implies !(#[trigger] parts[i]).contains('/') by {
        if i < ups.len() {
            assert(parts[i] == seq!['.', '.']);
            if parts[i].contains('/') {
                let j = choose|j: int| 0 <= j < parts[i].len() && parts[i][j] == '/';
                assert(j == 0 || j == 1);
            }
        } else {
            let j = i - ups.len();
            assert(parts[i] == tail[j]);
            if td.len() == tc.len() {
                assert(tail[j] == td[k + j]);
            } else {
                assert(tail[j] == tc[k + j]);
            }
        }
    }
    lemma_split_join(parts, '/');
    assert(relative_path(path, Option::Some(dir)) == Ok::<Seq<char>, PathtypeError>(join(parts, '/')));
    assert forall|i: int| 0 <= i < hc.len() - k implies #[trigger] parts[i] == seq!['.', '.'] by {
        assert(parts[i] == ups[i]);
    }
    assert(tc.take(k as int) == hc.take(k as int));
    k
}

/// The stored form of `path` under `pathtype`, for a host directory.
pub open spec fn pathtype_path(path: Seq<char>, host_dir: Option<Seq<char>>, pathtype: Pathtype) -> Result<
    Seq<char>,
    PathtypeError,
> {
    match pathtype {
        Pathtype::Full => Ok(display_path(path)),
        Pathtype::NoPath => Ok(file_name(path)),
        Pathtype::Relative => relative_path(path, host_dir),
    }
}

/// A string result holds the characters of a modelled result.
pub open spec fn holds<E>(r: Result<String, E>, m: Result<Seq<char>, E>) -> bool {
    match (r, m) {
        (Ok(s), Ok(t)) => s@ == t,
        (Err(e), Err(f)) => e == f,
        _ => false,
    }
}

/// The pieces of `s` from `from` on, split at `/`, empty ones dropped.
fn split_nonempty(s: &Vec<char>, from: usize) -> (r: Vec<Vec<char>>)
    requires
        from <= s@.len(),
    ensures
        views(r@) == nonempty(split(s@.skip(from as int), '/')),
{
    let ghost rest = s@.skip(from as int);
    let n = s.len();
    let mut out: Vec<Vec<char>> = Vec::new();
    let mut cur: Vec<char> = Vec::new();
    let ghost mut done: Seq<Seq<char>> = Seq::empty();
    let mut i: usize = from;
    assert(rest.take(0) =~= Seq::<char>::empty());
    while i < n
        invariant
            from <= i <= n,
            n == s@.len(),
            rest == s@.skip(from as int),
            split_state(rest.take(i - from), '/') == (done, cur@),
            views(out@) == nonempty(done),
        decreases n - i,
    {
        let c = s[i];
        assert(rest.take(i - from + 1).drop_last() =~= rest.take(i - from));
        assert(rest.take(i - from + 1).last() == c);
        if c == '/' {
            let piece = cur;
            cur = Vec::new();
            let ghost pv = piece@;
            proof {
                assert(done.push(pv).drop_last() =~= done);
                done = done.push(pv);
            }
            if piece.len() > 0 {
                out.push(piece);
                assert(views(out@) =~= nonempty(done.drop_last()).push(pv));
            }
        } else {
            cur.push(c);
        }
        i += 1;
    }
    assert(rest.take(n - from) =~= rest);
    assert(done.push(cur@).drop_last() =~= done);
    if cur.len() > 0 {
        let ghost cv = cur@;
        out.push(cur);
        assert(views(out@) =~= nonempty(done).push(cv));
    }
    out
}

/// A copy of `v`.
fn copy_chars(v: &Vec<char>) -> (r: Vec<char>)
    ensures
        r@ == v@,
{
    let mut r: Vec<char> = Vec::new();
    extend_chars(&mut r, v);
    assert(r@ =~= v@);
    r
}

/// ASCII-lowercase copy.
fn ascii_lower_chars(s: &Vec<char>) -> (r: Vec<char>)
    ensures
        r@ == ascii_lower_seq(s@),
{
    let mut r: Vec<char> = Vec::new();
    let mut i: usize = 0;
    while i < s.len()
        invariant
            i <= s.len(),
            r@ == ascii_lower_seq(s@.take(i as int)),
        decreases s.len() - i,
    {
        r.push(lower_ascii_char(s[i]));
        i += 1;
        assert(r@ =~= ascii_lower_seq(s@.take(i as int)));
    }
    assert(s@.take(i as int) =~= s@);
    r
}

fn has_drive_chars(s: &Vec<char>) -> (r: bool)
    ensures
        r == has_drive(s@),
{
    s.len() >= 2 && ascii_alpha(s[0]) && s[1] == ':'
}

fn starts_unc_chars(s: &Vec<char>) -> (r: bool)
    ensures
        r == starts_unc(s@),
{
    s.len() >= 2 && s[0] == '/' && s[1] == '/'
}

/// The root key of a normalized path: drive, `//server/share`, `/` or
/// nothing.
fn root_key_chars(n: &Vec<char>) -> (r: Vec<char>)
    ensures
        r@ == root_key(n@),
{
    let lower = ascii_lower_chars(n);
    if has_drive_chars(&lower) {
        let r = vec![lower[0], lower[1]];
        assert(r@ =~= lower@.take(2));
        r
    } else if starts_unc_chars(&lower) {
        let parts = split_nonempty(&lower, 2);
        if parts.len() >= 2 {
            let mut r = vec!['/', '/'];
            extend_chars(&mut r, &parts[0]);
            r.push('/');
            extend_chars(&mut r, &parts[1]);
            assert(r@ =~= seq!['/', '/'] + views(parts@)[0] + seq!['/'] + views(parts@)[1]);
            r
        } else {
            lower
        }
    } else if lower.len() >= 1 && lower[0] == '/' {
        let r = vec!['/'];
        assert(r@ =~= seq!['/']);
        r
    } else {
        Vec::new()
    }
}

/// A normalized path with neither drive nor leading `/`.
fn is_relative_chars(n: &Vec<char>) -> (r: bool)
    ensures
        r == is_relative(n@),
{
    !has_drive_chars(n) && !(n.len() >= 1 && n[0] == '/')
}

/// The non-empty components after the root of a normalized path.
fn comps_after_root_chars(p: &Vec<char>) -> (r: Vec<Vec<char>>)
    ensures
        views(r@) == comps_after_root(p@),
{
    if has_drive_chars(p) {
        split_nonempty(p, 2)
    } else if starts_unc_chars(p) {
        let all = split_nonempty(p, 2);
        if all.len() >= 2 {
            let mut r: Vec<Vec<char>> = Vec::new();
            let mut i: usize = 2;
            while i < all.len()
                invariant
                    2 <= i <= all.len(),
                    views(r@) == views(all@).subrange(2, i as int),
                decreases all.len() - i,
            {
                let ghost before = views(r@);
                r.push(copy_chars(&all[i]));
                assert(views(r@) =~= before.push(views(all@)[i as int]));
                i += 1;
                assert(views(r@) =~= views(all@).subrange(2, i as int));
            }
            assert(views(all@).subrange(2, i as int) =~= views(all@).skip(2));
            r
        } else {
            Vec::new()
        }
    } else {
        assert(p@.skip(0) =~= p@);
        split_nonempty(p, 0)
    }
}

/// The characters after the last `/` of `s`.
fn last_piece(s: &Vec<char>) -> (r: Vec<char>)
    ensures
        r@ == split(s@, '/').last(),
{
    let mut cur: Vec<char> = Vec::new();
    let ghost mut done: Seq<Seq<char>> = Seq::empty();
    let mut i: usize = 0;
    assert(s@.take(0) =~= Seq::<char>::empty());
    while i < s.len()
        invariant
            i <= s.len(),
            split_state(s@.take(i as int), '/') == (done, cur@),
        decreases s.len() - i,
    {
        let c = s[i];
        assert(s@.take(i + 1).drop_last() =~= s@.take(i as int));
        assert(s@.take(i + 1).last() == c);
        if c == '/' {
            proof {
                done = done.push(cur@);
            }
            cur = Vec::new();
        } else {
            cur.push(c);
        }
        i += 1;
    }
    assert(s@.take(i as int) =~= s@);
    cur
}

/// The bare file name of a stored path: the last component of its display
/// form, without a drive designator.
pub fn file_name_only(path: &str) -> (r: String)
    ensures
        r@ == file_name(path@),
{
    let disp = normalize_display(path);
    let d = chars_of(disp.as_str());
    if d.len() == 0 {
        return String::new();
    }
    let base = last_piece(&d);
    if has_drive_chars(&base) {
        let mut rest: Vec<char> = Vec::new();
        let mut i: usize = 2;
        while i < base.len()
            invariant
                2 <= i <= base.len(),
                rest@ == base@.subrange(2, i as int),
            decreases base.len() - i,
        {
            rest.push(base[i]);
            i += 1;
            assert(rest@ =~= base@.subrange(2, i as int));
        }
        assert(base@.subrange(2, i as int) =~= base@.skip(2));
        string_of(&rest)
    } else {
        string_of(&base)
    }
}

/// Number of leading components on which `a` and `b` agree.
fn common_prefix(a: &Vec<Vec<char>>, b: &Vec<Vec<char>>) -> (k: usize)
    ensures
        k == common_prefix_len(views(a@), views(b@)),
        k <= a@.len(),
        k <= b@.len(),
{
    let mut k: usize = 0;
    while k < a.len() && k < b.len() && chars_eq(&a[k], &b[k])
        invariant
            k <= a@.len(),
            k <= b@.len(),
            forall|i: int| 0 <= i < k ==> views(a@)[i] == views(b@)[i],
        decreases a.len() - k,
    {
        k += 1;
    }
    proof {
        lemma_common_prefix_len(views(a@), views(b@), k as int);
    }
    k
}

/// The `Relative` conversion for a host directory given as a string.
fn relative_in_dir(path: &str, host_dir: Option<&str>) -> (r: Result<String, PathtypeError>)
    ensures
        holds(r, relative_path(path@, match host_dir {
            Option::Some(d) => Option::Some(d@),
            Option::None => Option::None,
        })),
{
    let dir = match host_dir {
        Option::None => return Err(PathtypeError::UnsavedHost),
        Option::Some(d) => d,
    };
    let h = chars_of(normalize_lexical(dir).as_str());
    if h.len() == 0 {
        return Err(PathtypeError::UnsavedHost);
    }
    let t = chars_of(normalize_lexical(path).as_str());
    if t.len() == 0 {
        return Ok(String::new());
    }
    let tr = root_key_chars(&t);
    let hr = root_key_chars(&h);
    if !chars_eq(&tr, &hr) {
        if is_relative_chars(&t) {
            return Ok(normalize_display(path));
        }
        return Err(PathtypeError::AcrossDrives);
    }
    let tc = comps_after_root_chars(&t);
    let hc = comps_after_root_chars(&h);
    let k = common_prefix(&tc, &hc);
    let td = comps_after_root_chars(&chars_of(normalize_display(path).as_str()));
    let mut parts: Vec<Vec<char>> = Vec::new();
    let ups = hc.len() - k;
    let mut j: usize = 0;
    while j < ups
        invariant
            j <= ups,
            views(parts@) == dotdots(j as nat),
        decreases ups - j,
    {
        let dd = vec!['.', '.'];
        assert(dd@ =~= dotdot());
        let ghost before = views(parts@);
        parts.push(dd);
        assert(views(parts@) =~= before.push(dotdot()));
        j += 1;
        assert(views(parts@) =~= dotdots(j as nat));
    }
    let ghost base = views(parts@);
    let src = if td.len() == tc.len() { &td } else { &tc };
    let mut i: usize = k;
    while i < src.len()
        invariant
            k <= i <= src@.len(),
            k <= src@.len(),
            views(parts@) == base + views(src@).subrange(k as int, i as int),
        decreases src.len() - i,
    {
        let ghost before = views(parts@);
        parts.push(copy_chars(&src[i]));
        assert(views(parts@) =~= before.push(views(src@)[i as int]));
        i += 1;
        assert(views(parts@) =~= base + views(src@).subrange(k as int, i as int));
    }
    assert(views(src@).subrange(k as int, i as int) =~= views(src@).skip(k as int));
    if parts.len() == 0 {
        return Ok(file_name_only(path));
    }
    Ok(string_of(&join_chars(&parts, '/')))
}

/// Fallible pathtype conversion for a host directory given as a string
/// (`None` when the host drawing has no directory). `Full` and `None`
/// always succeed; `Relative` fails with [`PathtypeError::AcrossDrives`]
/// when drive letters or UNC hosts differ and with
/// [`PathtypeError::UnsavedHost`] when there is no host directory.
pub fn to_pathtype_result_in_dir(path: &str, host_dir: Option<&str>, pathtype: Pathtype) -> (r: Result<
    String,
    PathtypeError,
>)
    ensures
        holds(r, pathtype_path(path@, match host_dir {
            Option::Some(d) => Option::Some(d@),
            Option::None => Option::None,
        }, pathtype)),
{
    match pathtype {
        Pathtype::Full => Ok(normalize_display(path)),
        Pathtype::NoPath => Ok(file_name_only(path)),
        Pathtype::Relative => relative_in_dir(path, host_dir),
    }
}



/// A single plain path component: non-empty, with no separator of any
/// platform (`/`, `\\`), no drive colon, and neither `.` nor `..`.
pub open spec fn plain_name(s: Seq<char>) -> bool {
    &&& s.len() > 0
    &&& !s.contains('/')
    &&& !s.contains('\\')
    &&& !s.contains(':')
    &&& s != seq!['.']
    &&& s != seq!['.', '.']
}

/// Plain names joined by single `/`s: no leading or trailing `/`, no empty,
/// `.` or `..` piece, and no `\\` or `:` anywhere.
pub open spec fn plain_segments(d: Seq<char>) -> bool {
    &&& d.len() > 0
    &&& d[0] != '/'
    &&& d[d.len() - 1] != '/'
    &&& forall|i: int| 0 <= i < d.len() ==> #[trigger] d[i] != '\\' && d[i] != ':'
    &&& forall|i: int| 0 <= i < d.len() - 1 && #[trigger] d[i] == '/' ==> d[i + 1] != '/'
    &&& forall|i: int|
        0 <= i < d.len() && #[trigger] d[i] == '.' && (i == 0 || d[i - 1] == '/') ==> {
            &&& !(i + 1 == d.len() || d[i + 1] == '/')
            &&& !(i + 1 < d.len() && d[i + 1] == '.' && (i + 2 == d.len() || d[i + 2] == '/'))
        }
}

/// A directory that splits into the same components on every platform:
/// plain names, after nothing, after a root `/`, or after a drive root
/// `X:/`.
pub open spec fn simple_dir(d: Seq<char>) -> bool {
    ||| plain_segments(d)
    ||| (d.len() > 1 && d[0] == '/' && plain_segments(d.skip(1)))
    ||| (d.len() > 3 && is_ascii_letter(d[0]) && d[1] == ':' && d[2] == '/' && plain_segments(d.skip(3)))
}

/// An ASCII letter.
pub open spec fn is_ascii_letter(c: char) -> bool {
    ('a' <= c && c <= 'z') || ('A' <= c && c <= 'Z')
}

/// The directory of a host `dir/name`, where `name` is a plain name and
/// `dir` a [`simple_dir`]; `None` for any other host.
pub open spec fn host_dir_of(host: Seq<char>) -> Option<Seq<char>> {
    if exists|k: int|
        0 <= k < host.len() && host[k] == '/' && simple_dir(#[trigger] host.take(k)) && plain_name(
            host.skip(k + 1),
        ) {
        let k = choose|k: int|
            0 <= k < host.len() && host[k] == '/' && simple_dir(#[trigger] host.take(k)) && plain_name(
                host.skip(k + 1),
            );
        Option::Some(host.take(k))
    } else {
        Option::None
    }
}

/// `Path::parent` of the host path, as a lossy string (`Path::to_string_lossy`).
/// What its documentation shows is stated: the empty path has no parent, a
/// relative path of one component has the empty parent, and a path without
/// its final component is its parent; here only for paths that split into
/// the same components on every platform (see [`host_dir_of`]). How other
/// paths split depends on the platform's separators and prefixes, and is
/// left unsaid.
#[verifier::external_body]
fn host_parent(host: &str) -> (r: Option<String>)
    ensures
        host@.len() == 0 ==> r.is_none(),
        plain_name(host@) ==> r.is_some() && r.unwrap()@.len() == 0,
        host_dir_of(host@).is_some() ==> r.is_some() && r.unwrap()@ == host_dir_of(host@).unwrap(),
{
    match std::path::Path::new(host).parent() {
        Option::Some(p) => Option::Some(p.to_string_lossy().into_owned()),
        Option::None => Option::None,
    }
}

/// The directory of a host drawing as a string, `None` when the host has no
/// (non-empty) parent directory: the empty host and a bare file name have
/// none, and `dir/name` has `dir` (see [`host_dir_of`]).
fn host_directory(host: &str) -> (r: Option<String>)
    ensures
        r matches Option::Some(d) ==> d@.len() > 0,
        host@.len() == 0 ==> r is None,
        plain_name(host@) ==> r is None,
        host_dir_of(host@) matches Option::Some(d) ==> (r matches Option::Some(p) && p@ == d),
{
    match host_parent(host) {
        Option::None => Option::None,
        Option::Some(parent) => {
            if parent.as_str().is_empty() {
                Option::None
            } else {
                Option::Some(parent)
            }
        },
    }
}

/// `host_dir` as a sequence of characters.
pub open spec fn dir_view(host_dir: Option<&str>) -> Option<Seq<char>> {
    match host_dir {
        Option::Some(d) => Option::Some(d@),
        Option::None => Option::None,
    }
}

/// Fallible pathtype conversion. `Full` and `NoPath` always succeed;
/// `Relative` fails with [`PathtypeError::AcrossDrives`] when drive letters
/// or UNC hosts differ (UNC vs drive-letter counts as different), and with
/// [`PathtypeError::UnsavedHost`] when `host` has no parent directory.
/// Drive comparison is case-insensitive; all comparisons use
/// [`normalize_lexical`].
pub fn to_pathtype_result(path: &str, host: &str, pathtype: Pathtype) -> (r: Result<
    String,
    PathtypeError,
>)
    ensures
        pathtype != Pathtype::Relative ==> holds(
            r,
            pathtype_path(path@, Option::None, pathtype),
        ),
        pathtype == Pathtype::Relative && (host@.len() == 0 || plain_name(host@)) ==> r == Err::<
            String,
            PathtypeError,
        >(PathtypeError::UnsavedHost),
        pathtype == Pathtype::Relative && host_dir_of(host@) is Some ==> holds(
            r,
            relative_path(path@, host_dir_of(host@)),
        ),
        pathtype == Pathtype::Relative ==> r == Err::<String, PathtypeError>(
            PathtypeError::UnsavedHost,
        ) || exists|dir: Seq<char>|
            dir.len() > 0 && holds(r, #[trigger] relative_path(path@, Option::Some(dir))),
{
    match pathtype {
        Pathtype::Relative => {
            let dir = host_directory(host);
            match dir {
                Option::None => Err(PathtypeError::UnsavedHost),
                Option::Some(d) => {
                    let r = to_pathtype_result_in_dir(path, Option::Some(d.as_str()), pathtype);
                    assert(holds(r, relative_path(path@, Option::Some(d@))));
                    r
                },
            }
        },
        _ => to_pathtype_result_in_dir(path, Option::None, pathtype),
    }
}

/// The conversion of [`to_pathtype_result_in_dir`] with every error falling
/// back to the `Full` form.
pub open spec fn pathtype_or_full(path: Seq<char>, host_dir: Option<Seq<char>>, pathtype: Pathtype) -> Seq<char> {
    match pathtype_path(path, host_dir, pathtype) {
        Ok(s) => s,
        Err(_) => display_path(path),
    }
}

/// Panic-free pathtype conversion for a host directory given as a string:
/// errors fall back to [`Pathtype::Full`] (absolute, separator-normalized).
pub fn to_pathtype_in_dir(path: &str, host_dir: Option<&str>, pathtype: Pathtype) -> (r: String)
    ensures
        r@ == pathtype_or_full(path@, dir_view(host_dir), pathtype),
{
    match to_pathtype_result_in_dir(path, host_dir, pathtype) {
        Ok(s) => s,
        Err(_) => normalize_display(path),
    }
}

/// Panic-free pathtype conversion. [`PathtypeError::AcrossDrives`] and
/// [`PathtypeError::UnsavedHost`] fall back to [`Pathtype::Full`]
/// (absolute, separator-normalized) so callers always get a usable path.
pub fn to_pathtype(path: &str, host: &str, pathtype: Pathtype) -> (r: String)
    ensures
        pathtype != Pathtype::Relative ==> r@ == pathtype_or_full(path@, Option::None, pathtype),
        pathtype == Pathtype::Relative && (host@.len() == 0 || plain_name(host@)) ==> r@
            == display_path(path@),
        pathtype == Pathtype::Relative && host_dir_of(host@) is Some ==> r@ == pathtype_or_full(
            path@,
            host_dir_of(host@),
            pathtype,
        ),
        pathtype == Pathtype::Relative ==> r@ == display_path(path@) || exists|dir: Seq<char>|
            dir.len() > 0 && #[trigger] relative_path(path@, Option::Some(dir)) == Ok::<
                Seq<char>,
                PathtypeError,
            >(r@),
{
    match to_pathtype_result(path, host, pathtype) {
        Ok(s) => s,
        Err(_) => normalize_display(path),
    }
}

/// What kind of external file a [`ReferenceEntry`] points at.
#[derive(Debug, Clone, Copy, PartialEq, Eq, Structural)]
pub enum RefKind {
    DwgXref,
    Image,
    Pdf,
}

/// Lifecycle state of a [`ReferenceEntry`]. `Stale` (file changed since
/// load) and `Orphaned` (definition with no referencing entity) are not
/// produced by the reference scan yet.
#[derive(Debug, Clone, Copy, PartialEq, Eq, Structural)]
pub enum RefStatus {
    Loaded,
    Unloaded,
    NotFound,
    Failed,
    Stale,
    Orphaned,
}

/// How a DWG xref attaches: full re-export (`Attach`) vs local-only
/// (`Overlay`).
#[derive(Debug, Clone, Copy, PartialEq, Eq, Structural)]
pub enum RefType {
    Attach,
    Overlay,
}

/// One external reference in the XREF manager's unified list.
///
/// `key` is the block-record handle (DWG xref) or definition-object handle
/// (image / PDF) — stable across renames, so [`renamed`](Self::renamed)
/// keeps it. `saved_path` is the raw stored string verbatim, never
/// synthesized; `found_at` is where it actually resolved, if anywhere.
#[derive(Debug, Clone, PartialEq)]
pub struct ReferenceEntry {
    pub key: u64,
    pub name: String,
    pub kind: RefKind,
    pub ref_type: RefType,
    pub status: RefStatus,
    pub size_bytes: Option<u64>,
    /// Modification time of the found file, in whole seconds since the
    /// Unix epoch (0 for a time before it).
    pub modified: Option<i64>,
    pub saved_path: String,
    pub found_at: Option<String>,
    pub loaded: bool,
}

/// A copy of an optional string.
fn copy_opt_string(s: &Option<String>) -> (r: Option<String>)
    ensures
        r == *s,
{
    match s {
        Option::Some(v) => Option::Some(v.clone()),
        Option::None => Option::None,
    }
}

impl ReferenceEntry {
    /// A fresh entry: attached, not found yet, loaded, with no size, date or
    /// paths.
    pub fn new(key: u64, name: &str, kind: RefKind) -> (r: Self)
        ensures
            r.key == key,
            r.name@ == name@,
            r.kind == kind,
            r.ref_type == RefType::Attach,
            r.status == RefStatus::NotFound,
            r.size_bytes is None,
            r.modified is None,
            r.saved_path@ == Seq::<char>::empty(),
            r.found_at is None,
            r.loaded,
    {
        ReferenceEntry {
            key,
            name: name.to_owned(),
            kind,
            ref_type: RefType::Attach,
            status: RefStatus::NotFound,
            size_bytes: Option::None,
            modified: Option::None,
            saved_path: String::new(),
            found_at: Option::None,
            loaded: true,
        }
    }

    /// Same entry under a new name — the key and every other field are
    /// untouched.
    pub fn renamed(&self, name: &str) -> (r: Self)
        ensures
            r.key == self.key,
            r.name@ == name@,
            r.kind == self.kind,
            r.ref_type == self.ref_type,
            r.status == self.status,
            r.size_bytes == self.size_bytes,
            r.modified == self.modified,
            r.saved_path == self.saved_path,
            r.found_at == self.found_at,
            r.loaded == self.loaded,
    {
        ReferenceEntry {
            key: self.key,
            name: name.to_owned(),
            kind: self.kind,
            ref_type: self.ref_type,
            status: self.status,
            size_bytes: self.size_bytes,
            modified: self.modified,
            saved_path: self.saved_path.clone(),
            found_at: copy_opt_string(&self.found_at),
            loaded: self.loaded,
        }
    }
}

/// The characters of a string literal of the bind separator `$0$`.
pub open spec fn bind_sep() -> Seq<char> {
    seq!['$', '0', '$']
}

/// `parent$0$child$0$sym`.
pub open spec fn bind_symbol_spec(parent: Seq<char>, child: Seq<char>, sym: Seq<char>) -> Seq<char> {
    parent + bind_sep() + child + bind_sep() + sym
}

/// `parent$n$sym`.
pub open spec fn bind_candidate(parent: Seq<char>, sym: Seq<char>, n: nat) -> Seq<char> {
    parent + seq!['$'] + decimal(n) + seq!['$'] + sym
}

/// Bind-style symbol name for a nested xref block: AutoCAD's `BIND` inserts
/// `$0$` separators, so `PLAN` → `DETAIL` → `WALLS` reads transitively.
pub fn bind_symbol(parent: &str, child: &str, sym: &str) -> (r: String)
    ensures
        r@ == bind_symbol_spec(parent@, child@, sym@),
{
    let mut v = chars_of(parent);
    let sep = vec!['$', '0', '$'];
    extend_chars(&mut v, &sep);
    extend_chars(&mut v, &chars_of(child));
    extend_chars(&mut v, &sep);
    extend_chars(&mut v, &chars_of(sym));
    assert(v@ =~= bind_symbol_spec(parent@, child@, sym@));
    string_of(&v)
}

/// The strings of `taken` as character sequences.
pub open spec fn str_views(taken: Seq<&str>) -> Seq<Seq<char>> {
    taken.map_values(|t: &str| t@)
}

proof fn lemma_bind_candidate_injective(parent: Seq<char>, sym: Seq<char>, a: nat, b: nat)
    requires
        bind_candidate(parent, sym, a) == bind_candidate(parent, sym, b),
    ensures
        a == b,
{
    let ca = bind_candidate(parent, sym, a);
    let cb = bind_candidate(parent, sym, b);
    assert(ca.len() == cb.len());
    let lo: int = parent.len() + 1int;
    assert(decimal(a).len() == decimal(b).len());
    assert(ca.subrange(lo, lo + decimal(a).len()) =~= decimal(a));
    assert(cb.subrange(lo, lo + decimal(b).len()) =~= decimal(b));
    lemma_decimal_injective(a, b);
}

/// `n` distinct candidates that all occur in `t` need `n` places of `t`.
proof fn lemma_pigeonhole(t: Seq<Seq<char>>, parent: Seq<char>, sym: Seq<char>, n: nat)
    requires
        forall|j: nat| j < n ==> t.contains(#[trigger] bind_candidate(parent, sym, j)),
    ensures
        n <= t.len(),
    decreases n,
{
    if n > 0 {
        let last = bind_candidate(parent, sym, (n - 1) as nat);
        assert(t.contains(last));
        let k = choose|k: int| 0 <= k < t.len() && t[k] == last;
        let rest = t.remove(k);
        assert forall|j: nat| j < (n - 1) as nat implies rest.contains(
            #[trigger] bind_candidate(parent, sym, j),
        ) by {
            let c = bind_candidate(parent, sym, j);
            assert(t.contains(c));
            let i = choose|i: int| 0 <= i < t.len() && t[i] == c;
            if i == k {
                lemma_bind_candidate_injective(parent, sym, j, (n - 1) as nat);
            }
            if i < k {
                assert(rest[i] == c);
            } else {
                assert(rest[i - 1] == c);
            }
        }
        lemma_pigeonhole(rest, parent, sym, (n - 1) as nat);
    }
}

/// Whether `cand` is one of `taken`.
fn is_taken(taken: &[&str], cand: &Vec<char>) -> (r: bool)
    ensures
        r == str_views(taken@).contains(cand@),
{
    let mut i: usize = 0;
    while i < taken.len()
        invariant
            i <= taken@.len(),
            forall|k: int| 0 <= k < i ==> str_views(taken@)[k] != cand@,
        decreases taken.len() - i,
    {
        if chars_eq_str(cand, taken[i]) {
            assert(str_views(taken@)[i as int] == cand@);
            return true;
        }
        i += 1;
    }
    false
}

/// [`bind_symbol`] for the two-level case, bumping the `$N$` counter past
/// every collision in `taken` (`PLAN$0$WALLS` taken → `PLAN$1$WALLS`).
pub fn bind_symbol_taken(parent: &str, sym: &str, taken: &[&str]) -> (r: String)
    requires
        taken@.len() <= u32::MAX,
    ensures
        exists|n: nat|
            {
                &&& r@ == #[trigger] bind_candidate(parent@, sym@, n)
                &&& !str_views(taken@).contains(r@)
                &&& forall|j: nat|
                    j < n ==> str_views(taken@).contains(#[trigger] bind_candidate(parent@, sym@, j))
            },
{
    let p = chars_of(parent);
    let sy = chars_of(sym);
    let mut n: u32 = 0;
    loop
        invariant
            p@ == parent@,
            sy@ == sym@,
            taken@.len() <= u32::MAX,
            n <= taken@.len(),
            forall|j: nat|
                j < n ==> str_views(taken@).contains(#[trigger] bind_candidate(parent@, sym@, j)),
        decreases taken@.len() - n,
    {
        let mut cand = copy_chars(&p);
        cand.push('$');
        extend_chars(&mut cand, &decimal_chars(n as u128));
        cand.push('$');
        extend_chars(&mut cand, &sy);
        assert(cand@ =~= bind_candidate(parent@, sym@, n as nat));
        if !is_taken(taken, &cand) {
            return string_of(&cand);
        }
        proof {
            assert forall|j: nat| j < n + 1 implies str_views(taken@).contains(
                #[trigger] bind_candidate(parent@, sym@, j),
            ) by {
                if j == n as nat {
                    assert(cand@ == bind_candidate(parent@, sym@, j));
                }
            }
            lemma_pigeonhole(str_views(taken@), parent@, sym@, (n + 1) as nat);
        }
        n += 1;
    }
}

} // verus!
