//! Case-insensitive wildcard name matching: `*` matches any run of
//! characters (including none), `?` matches exactly one.
use vstd::prelude::*;

use crate::text::{lower_flat, lowercase_flat};

verus! {

/// `n[i..]` matches `p[j..]` as a glob pattern.
pub open spec fn glob_at(n: Seq<char>, p: Seq<char>, i: int, j: int) -> bool
    decreases (n.len() - i) + (p.len() - j),
{
    if i < 0 || j < 0 || i > n.len() || j > p.len() {
        false
    } else if j == p.len() {
        i == n.len()
    } else if p[j] == '*' {
        glob_at(n, p, i, j + 1) || (i < n.len() && glob_at(n, p, i + 1, j))
    } else {
        i < n.len() && (p[j] == '?' || p[j] == n[i]) && glob_at(n, p, i + 1, j + 1)
    }
}

/// The whole of `n` matches the glob pattern `p`.
pub open spec fn glob(n: Seq<char>, p: Seq<char>) -> bool {
    glob_at(n, p, 0, 0)
}

/// Every character of `p` from `j` on is `*`.
pub open spec fn only_stars_from(p: Seq<char>, j: int) -> bool {
    forall|k: int| j <= k < p.len() ==> p[k] == '*'
}

/// First component of the scan's termination measure.
pub open spec fn scan_rank(n: Seq<char>, star: Option<int>, mi: int) -> int {
    match star {
        Option::None => n.len() + 1int,
        Option::Some(_) => n.len() - mi,
    }
}

/// The left-to-right scan with one backtracking point (the last `*` seen):
/// a `*` of the pattern is recorded as the backtracking point; a pattern
/// character that is `?` or equal to the name character is consumed with
/// it; otherwise the scan resumes after the recorded `*` one name character
/// later, or fails when none was recorded. At the end of the name only
/// `*`s may remain in the pattern.
pub open spec fn scan(n: Seq<char>, p: Seq<char>, si: int, pi: int, star: Option<int>, mi: int) -> bool
    decreases scan_rank(n, star, mi), n.len() - si, p.len() - pi,
{
    if !(0 <= mi <= si <= n.len() && 0 <= pi <= p.len()) {
        false
    } else if star is Some && !(0 <= star->0 < p.len()) {
        false
    } else if si < n.len() {
        if pi < p.len() && p[pi] == '*' {
            scan(n, p, si, pi + 1, Option::Some(pi), si)
        } else if pi < p.len() && (p[pi] == '?' || p[pi] == n[si]) {
            scan(n, p, si + 1, pi + 1, star, mi)
        } else {
            match star {
                Option::Some(s) => scan(n, p, mi + 1, s + 1, star, mi + 1),
                Option::None => false,
            }
        }
    } else {
        only_stars_from(p, pi)
    }
}

/// Case-insensitive name match: `*` matches any run (including empty),
/// `?` matches exactly one character. Name and pattern are compared after
/// `char::to_lowercase`.
pub fn wildcard_match(name: &str, pattern: &str) -> (r: bool)
    ensures
        r == glob(lower_flat(name@), lower_flat(pattern@)),
{
    let n = lowercase_flat(name);
    let p = lowercase_flat(pattern);
    let mut si: usize = 0;
    let mut pi: usize = 0;
    let mut star: Option<usize> = None;
    let mut match_idx: usize = 0;
    let ghost start = scan(n@, p@, 0, 0, Option::None, 0);
    proof {
        lemma_scan_is_glob(n@, p@);
    }
    while si < n.len()
        invariant
            n@ == lower_flat(name@),
            p@ == lower_flat(pattern@),
            start == scan(n@, p@, 0, 0, Option::None, 0),
            start == glob(n@, p@),
            0 <= match_idx <= si <= n@.len(),
            pi <= p@.len(),
            star is Some ==> star->0 < p@.len(),
            scan(n@, p@, si as int, pi as int, match star {
                Option::Some(s) => Option::Some(s as int),
                Option::None => Option::None,
            }, match_idx as int) == start,
        decreases scan_rank(n@, match star {
                Option::Some(s) => Option::Some(s as int),
                Option::None => Option::None,
            }, match_idx as int), n@.len() - si, p@.len() - pi,
    {
        if pi < p.len() && p[pi] == '*' {
            star = Some(pi);
            match_idx = si;
            pi += 1;
        } else if pi < p.len() && (p[pi] == '?' || p[pi] == n[si]) {
            si += 1;
            pi += 1;
        } else if let Some(s) = star {
            pi = s + 1;
            match_idx += 1;
            si = match_idx;
        } else {
            assert(star is None);
            assert(!scan(n@, p@, si as int, pi as int, Option::None, match_idx as int));
            return false;
        }
    }
    while pi < p.len() && p[pi] == '*'
        invariant
            pi <= p@.len(),
            only_stars_from(p@, pi as int) == start,
        decreases p@.len() - pi,
    {
        pi += 1;
    }
    pi == p.len()
}


/// Some suffix of `n` starting at or after `lo` matches `p[j..]`.
pub open spec fn some_match_from(n: Seq<char>, p: Seq<char>, lo: int, j: int) -> bool {
    exists|m: int| lo <= m <= n.len() && #[trigger] glob_at(n, p, m, j)
}

/// `p[j..j + len]` holds no `*` and matches `n[i..i + len]` character by
/// character.
pub open spec fn literal_run(n: Seq<char>, p: Seq<char>, i: int, j: int, len: int) -> bool {
    &&& 0 <= len
    &&& 0 <= i && i + len <= n.len()
    &&& 0 <= j && j + len <= p.len()
    &&& forall|k: int|
        j <= k < j + len ==> #[trigger] p[k] != '*' && (p[k] == '?' || p[k] == n[i + (k - j)])
}

/// What holds of every state the scan passes through, relative to the
/// answer `a` for the whole name and pattern.
pub open spec fn scan_inv(n: Seq<char>, p: Seq<char>, si: int, pi: int, star: Option<int>, mi: int, a: bool) -> bool {
    &&& 0 <= mi <= si <= n.len()
    &&& 0 <= pi <= p.len()
    &&& match star {
        Option::None => a == glob_at(n, p, si, pi),
        Option::Some(s) => {
            &&& 0 <= s < pi
            &&& p[s] == '*'
            &&& literal_run(n, p, mi, s + 1, si - mi)
            &&& pi - (s + 1) == si - mi
            &&& a == some_match_from(n, p, mi, s + 1)
        },
    }
}

proof fn lemma_glob_literal_step(n: Seq<char>, p: Seq<char>, i: int, j: int)
    requires
        0 <= i < n.len(),
        0 <= j < p.len(),
        p[j] != '*',
        p[j] == '?' || p[j] == n[i],
    ensures
        glob_at(n, p, i, j) == glob_at(n, p, i + 1, j + 1),
{
}

proof fn lemma_glob_literal_run(n: Seq<char>, p: Seq<char>, i: int, j: int, len: int)
    requires
        literal_run(n, p, i, j, len),
    ensures
        glob_at(n, p, i, j) == glob_at(n, p, i + len, j + len),
    decreases len,
{
    if len > 0 {
        assert(p[j] != '*' && (p[j] == '?' || p[j] == n[i + (j - j)]));
        lemma_glob_literal_step(n, p, i, j);
        assert(literal_run(n, p, i + 1, j + 1, len - 1));
        lemma_glob_literal_run(n, p, i + 1, j + 1, len - 1);
    }
}

proof fn lemma_glob_star_free_run(n: Seq<char>, p: Seq<char>, m: int, j: int, len: int)
    requires
        0 <= len,
        0 <= m <= n.len(),
        0 <= j,
        j + len <= p.len(),
        forall|k: int| j <= k < j + len ==> #[trigger] p[k] != '*',
        glob_at(n, p, m, j),
    ensures
        m + len <= n.len(),
        glob_at(n, p, m + len, j + len),
    decreases len,
{
    if len > 0 {
        assert(p[j] != '*');
        lemma_glob_star_free_run(n, p, m + 1, j + 1, len - 1);
    }
}

proof fn lemma_glob_star(n: Seq<char>, p: Seq<char>, i: int, j: int)
    requires
        0 <= i <= n.len(),
        0 <= j < p.len(),
        p[j] == '*',
    ensures
        glob_at(n, p, i, j) == some_match_from(n, p, i, j + 1),
    decreases n.len() - i,
{
    if i < n.len() {
        lemma_glob_star(n, p, i + 1, j);
        if glob_at(n, p, i, j) {
            if glob_at(n, p, i, j + 1) {
                assert(glob_at(n, p, i, j + 1));
            } else {
                let m = choose|m: int| i + 1 <= m <= n.len() && #[trigger] glob_at(n, p, m, j + 1);
                assert(glob_at(n, p, m, j + 1));
            }
        }
        if some_match_from(n, p, i, j + 1) {
            let m = choose|m: int| i <= m <= n.len() && #[trigger] glob_at(n, p, m, j + 1);
            if m > i {
                assert(some_match_from(n, p, i + 1, j + 1));
            }
        }
    } else {
        if some_match_from(n, p, i, j + 1) {
            let m = choose|m: int| i <= m <= n.len() && #[trigger] glob_at(n, p, m, j + 1);
            assert(m == i);
        }
        if glob_at(n, p, i, j) {
            assert(glob_at(n, p, i, j + 1));
        }
    }
}

proof fn lemma_glob_at_end(n: Seq<char>, p: Seq<char>, j: int)
    requires
        0 <= j <= p.len(),
    ensures
        glob_at(n, p, n.len() as int, j) == only_stars_from(p, j),
    decreases p.len() - j,
{
    if j < p.len() {
        lemma_glob_at_end(n, p, j + 1);
        if p[j] == '*' {
            assert(only_stars_from(p, j + 1) ==> only_stars_from(p, j));
        } else {
            assert(!only_stars_from(p, j));
        }
    }
}

/// A scan state that cannot advance at `(si, pi)` has no match there.
proof fn lemma_glob_stuck(n: Seq<char>, p: Seq<char>, si: int, pi: int)
    requires
        0 <= si < n.len(),
        0 <= pi <= p.len(),
        !(pi < p.len() && (p[pi] == '?' || p[pi] == n[si])),
        !(pi < p.len() && p[pi] == '*'),
    ensures
        !glob_at(n, p, si, pi),
{
}

proof fn lemma_scan_state(n: Seq<char>, p: Seq<char>, si: int, pi: int, star: Option<int>, mi: int, a: bool)
    requires
        scan_inv(n, p, si, pi, star, mi, a),
    ensures
        scan(n, p, si, pi, star, mi) == a,
    decreases scan_rank(n, star, mi), n.len() - si, p.len() - pi,
{
    if si < n.len() {
        if pi < p.len() && p[pi] == '*' {
            lemma_glob_star(n, p, si, pi);
            match star {
                Option::None => {},
                Option::Some(s) => {
                    let len = si - mi;
                    lemma_glob_literal_run(n, p, mi, s + 1, len);
                    if some_match_from(n, p, mi, s + 1) {
                        let m = choose|m: int| mi <= m <= n.len() && #[trigger] glob_at(n, p, m, s + 1);
                        lemma_glob_star_free_run(n, p, m, s + 1, len);
                        lemma_glob_star(n, p, m + len, pi);
                        let x = choose|x: int| m + len <= x <= n.len() && #[trigger] glob_at(n, p, x, pi + 1);
                        assert(glob_at(n, p, x, pi + 1));
                        assert(some_match_from(n, p, si, pi + 1));
                    }
                    if glob_at(n, p, si, pi) {
                        assert(glob_at(n, p, mi, s + 1));
                    }
                },
            }
            assert(literal_run(n, p, si, pi + 1, 0));
            lemma_scan_state(n, p, si, pi + 1, Option::Some(pi), si, a);
        } else if pi < p.len() && (p[pi] == '?' || p[pi] == n[si]) {
            match star {
                Option::None => {
                    lemma_glob_literal_step(n, p, si, pi);
                },
                Option::Some(s) => {
                    let len = si - mi;
                    assert(pi == s + 1 + len);
                    assert(literal_run(n, p, mi, s + 1, len + 1));
                },
            }
            lemma_scan_state(n, p, si + 1, pi + 1, star, mi, a);
        } else {
            lemma_glob_stuck(n, p, si, pi);
            match star {
                Option::None => {},
                Option::Some(s) => {
                    let len = si - mi;
                    lemma_glob_literal_run(n, p, mi, s + 1, len);
                    if some_match_from(n, p, mi, s + 1) {
                        let m = choose|m: int| mi <= m <= n.len() && #[trigger] glob_at(n, p, m, s + 1);
                        assert(m != mi);
                        assert(some_match_from(n, p, mi + 1, s + 1));
                    }
                    if some_match_from(n, p, mi + 1, s + 1) {
                        let m = choose|m: int| mi + 1 <= m <= n.len() && #[trigger] glob_at(n, p, m, s + 1);
                        assert(some_match_from(n, p, mi, s + 1));
                    }
                    assert(literal_run(n, p, mi + 1, s + 1, 0));
                    lemma_scan_state(n, p, mi + 1, s + 1, star, mi + 1, a);
                },
            }
        }
    } else {
        lemma_glob_at_end(n, p, pi);
        match star {
            Option::None => {},
            Option::Some(s) => {
                let len = si - mi;
                lemma_glob_literal_run(n, p, mi, s + 1, len);
                if some_match_from(n, p, mi, s + 1) {
                    let m = choose|m: int| mi <= m <= n.len() && #[trigger] glob_at(n, p, m, s + 1);
                    lemma_glob_star_free_run(n, p, m, s + 1, len);
                    assert(m == mi);
                }
                if glob_at(n, p, si, pi) {
                    assert(glob_at(n, p, mi, s + 1));
                }
            },
        }
    }
}

/// The scan decides glob matching.
pub proof fn lemma_scan_is_glob(n: Seq<char>, p: Seq<char>)
    ensures
        scan(n, p, 0, 0, Option::None, 0) == glob(n, p),
{
    lemma_scan_state(n, p, 0, 0, Option::None, 0, glob(n, p));
}

} // verus!
