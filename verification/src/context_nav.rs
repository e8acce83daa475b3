//! Keyboard navigation of the viewport's right-click menu while it is open:
//! arrow keys move the highlight over the enabled rows (wrapping around),
//! Enter picks the highlighted row (or the default one), a mnemonic letter
//! picks its row or, when several rows share it, moves the highlight.
use vstd::prelude::*;

use crate::text::{chars_of, is_ascii_alnum};

verus! {

/// The row `steps` rows away from `from`, wrapping around `n` rows.
pub open spec fn wrapped(from: int, steps: int, n: int) -> int {
    (from + steps) % n
}

/// The position `k` rows from `from`, forward or backward.
pub open spec fn step_from(from: int, k: int, forward: bool, n: int) -> int {
    if forward { wrapped(from, k, n) } else { wrapped(from, -k, n) }
}

/// The next enabled row from `from`, forward or backward, wrapping around;
/// `from` itself when no row is enabled.
pub open spec fn next_enabled_spec(enabled: Seq<bool>, from: int, forward: bool) -> int {
    let n = enabled.len() as int;
    if exists|k: int| 1 <= k <= n && enabled[step_from(from, k, forward, n)] {
        let k = choose|k: int| 1 <= k <= n && enabled[step_from(from, k, forward, n)]
            && forall|j: int| 1 <= j < k ==> !enabled[step_from(from, j, forward, n)];
        step_from(from, k, forward, n)
    } else {
        from
    }
}

/// The row `k` steps from `from`, wrapped by hand, is the spec's.
proof fn lemma_step_index(from: int, k: int, n: int, forward: bool, idx: int)
    requires
        0 <= from < n,
        1 <= k <= n,
        idx == (if forward {
            if from + k < n { from + k } else { from + k - n }
        } else {
            if k <= from { from - k } else { from + n - k }
        }),
    ensures
        idx == step_from(from, k, forward, n),
{
    if forward {
        if from + k < n {
            vstd::arithmetic::div_mod::lemma_small_mod((from + k) as nat, n as nat);
        } else {
            vstd::arithmetic::div_mod::lemma_mod_sub_multiples_vanish(from + k, n);
            vstd::arithmetic::div_mod::lemma_small_mod((from + k - n) as nat, n as nat);
        }
    } else {
        if k <= from {
            vstd::arithmetic::div_mod::lemma_small_mod((from - k) as nat, n as nat);
        } else {
            vstd::arithmetic::div_mod::lemma_mod_add_multiples_vanish(from - k, n);
            vstd::arithmetic::div_mod::lemma_small_mod((from - k + n) as nat, n as nat);
        }
    }
}

/// The next enabled row after (or before) `from`.
pub fn next_enabled(enabled: &Vec<bool>, from: usize, forward: bool) -> (r: usize)
    requires
        enabled@.len() > 0,
        from < enabled@.len(),
        enabled@.len() <= isize::MAX,
    ensures
        r == next_enabled_spec(enabled@, from as int, forward),
        r < enabled@.len(),
{
    let n = enabled.len();
    let mut k: usize = 1;
    while k <= n
        invariant
            1 <= k <= n + 1,
            n == enabled@.len(),
            from < n,
            n <= isize::MAX,
            forall|j: int| 1 <= j < k ==> !enabled@[step_from(from as int, j, forward, n as int)],
        decreases n + 1 - k,
    {
        let idx: usize = if forward {
            if from + k < n { from + k } else { from + k - n }
        } else {
            if k <= from { from - k } else { from + n - k }
        };
        proof {
            lemma_step_index(from as int, k as int, n as int, forward, idx as int);
        }
        if enabled[idx] {
            proof {
                let kk = k as int;
                assert(1 <= kk <= n && enabled@[step_from(from as int, kk, forward, n as int)]);
                let chosen = choose|c: int| 1 <= c <= n && enabled@[step_from(from as int, c, forward, n as int)]
                    && forall|j: int| 1 <= j < c ==> !enabled@[step_from(from as int, j, forward, n as int)];
                if chosen < kk {
                } else if chosen > kk {
                }
            }
            return idx;
        }
        k += 1;
    }
    from
}

/// Step `m` is the first of the steps from `from` to reach an enabled row.
spec fn first_enabled_step(enabled: Seq<bool>, from: int, forward: bool, m: int) -> bool {
    &&& 1 <= m <= enabled.len()
    &&& enabled[step_from(from, m, forward, enabled.len() as int)]
    &&& forall|j: int| 1 <= j < m ==> !enabled[#[trigger] step_from(from, j, forward, enabled.len() as int)]
}

/// Some step from 1 to `k` reaches an enabled row, so a first such step
/// exists.
proof fn lemma_first_enabled_step(enabled: Seq<bool>, from: int, forward: bool, k: int) -> (m: int)
    requires
        1 <= k <= enabled.len(),
        enabled[step_from(from, k, forward, enabled.len() as int)],
    ensures
        first_enabled_step(enabled, from, forward, m),
    decreases k,
{
    let n = enabled.len() as int;
    if exists|j: int| 1 <= j < k && enabled[#[trigger] step_from(from, j, forward, n)] {
        let j = choose|j: int| 1 <= j < k && enabled[#[trigger] step_from(from, j, forward, n)];
        lemma_first_enabled_step(enabled, from, forward, j)
    } else {
        k
    }
}

/// An arrow key always lands on an enabled row when the menu has one: the
/// nearest enabled row in its direction, wrapping around.
pub proof fn lemma_arrow_lands_on_enabled_row(enabled: Seq<bool>, from: int, forward: bool, row: int)
    requires
        0 <= from < enabled.len(),
        0 <= row < enabled.len(),
        enabled[row],
    ensures
        0 <= next_enabled_spec(enabled, from, forward) < enabled.len(),
        enabled[next_enabled_spec(enabled, from, forward)],
        exists|k: int|
            1 <= k <= enabled.len() && next_enabled_spec(enabled, from, forward) == step_from(
                from,
                k,
                forward,
                enabled.len() as int,
            ) && forall|j: int| 1 <= j < k ==> !enabled[step_from(from, j, forward, enabled.len() as int)],
{
    let n = enabled.len() as int;
    let k = if forward {
        if row > from { row - from } else { row - from + n }
    } else {
        if row < from { from - row } else { from - row + n }
    };
    if forward {
        if row <= from {
            vstd::arithmetic::div_mod::lemma_mod_add_multiples_vanish(row, n);
        }
    } else {
        if row >= from {
            vstd::arithmetic::div_mod::lemma_mod_add_multiples_vanish(row - n, n);
        }
    }
    vstd::arithmetic::div_mod::lemma_small_mod(row as nat, n as nat);
    assert(step_from(from, k, forward, n) == row);
    let m = lemma_first_enabled_step(enabled, from, forward, k);
    assert(1 <= m <= n && enabled[step_from(from, m, forward, n)] && forall|j: int|
        1 <= j < m ==> !enabled[step_from(from, j, forward, n)]);
    let chosen = choose|c: int| 1 <= c <= n && enabled[step_from(from, c, forward, n)]
        && forall|j: int| 1 <= j < c ==> !enabled[step_from(from, j, forward, n)];
    assert(1 <= chosen <= n && enabled[step_from(from, chosen, forward, n)]);
    vstd::arithmetic::div_mod::lemma_mod_bound(if forward { from + chosen } else { from - chosen }, n);
}

/// A key pressed while the menu is open.
#[derive(Clone, Copy, Debug, PartialEq, Eq, Structural)]
pub enum NavKey {
    Down,
    Up,
    Enter,
    /// A mnemonic letter: the row it names from the current highlight, if
    /// any, and whether that row is the only one with the letter.
    Mnemonic { found: Option<usize>, unique: bool },
}

/// What a key does to the menu.
#[derive(Clone, Copy, Debug, PartialEq, Eq, Structural)]
pub enum NavOutcome {
    Nothing,
    /// Move the highlight to this row.
    Highlight(usize),
    /// Pick this row (the menu closes and its action runs).
    Pick(usize),
}

/// What a key does, for a menu with rows `enabled`, the highlighted row
/// `current` and the default row `default_index`: the first arrow press
/// lands on the default row, later ones move to the next enabled row;
/// Enter picks the highlighted or default row when it is enabled.
pub open spec fn navigate_spec(enabled: Seq<bool>, current: Option<usize>, default_index: usize, key: NavKey) -> NavOutcome {
    if enabled.len() == 0 {
        NavOutcome::Nothing
    } else {
        match key {
            NavKey::Down => match current {
                None => NavOutcome::Highlight(default_index),
                Some(cur) => NavOutcome::Highlight(next_enabled_spec(enabled, cur as int, true) as usize),
            },
            NavKey::Up => match current {
                None => NavOutcome::Highlight(default_index),
                Some(cur) => NavOutcome::Highlight(next_enabled_spec(enabled, cur as int, false) as usize),
            },
            NavKey::Enter => {
                let idx = match current {
                    Some(cur) => cur,
                    None => default_index,
                };
                if enabled[idx as int] {
                    NavOutcome::Pick(idx)
                } else {
                    NavOutcome::Nothing
                }
            },
            NavKey::Mnemonic { found, unique } => match found {
                Some(idx) => if unique {
                    NavOutcome::Pick(idx)
                } else {
                    NavOutcome::Highlight(idx)
                },
                None => NavOutcome::Nothing,
            },
        }
    }
}

/// Enter picks the highlighted row, or the default row when nothing is
/// highlighted, provided that row is enabled; on a disabled row it does
/// nothing.
pub proof fn lemma_enter_picks_highlight_or_default(enabled: Seq<bool>, current: Option<usize>, default_index: usize)
    requires
        enabled.len() > 0,
    ensures
        current is None && default_index < enabled.len() && enabled[default_index as int] ==> navigate_spec(
            enabled,
            current,
            default_index,
            NavKey::Enter,
        ) == NavOutcome::Pick(default_index),
        forall|c: usize|
            current == Some(c) && c < enabled.len() && enabled[c as int] ==> navigate_spec(
                enabled,
                current,
                default_index,
                NavKey::Enter,
            ) == NavOutcome::Pick(c),
        forall|row: usize|
            navigate_spec(enabled, current, default_index, NavKey::Enter) == NavOutcome::Pick(row) ==> row == (
            match current {
                Some(c) => c,
                None => default_index,
            }),
        navigate_spec(enabled, current, default_index, NavKey::Enter) is Highlight ==> false,
{
}

/// What a key does to the open menu.
pub fn navigate(enabled: &Vec<bool>, current: Option<usize>, default_index: usize, key: NavKey) -> (r: NavOutcome)
    requires
        enabled@.len() <= isize::MAX,
        enabled@.len() > 0 ==> default_index < enabled@.len(),
        current matches Some(c) ==> c < enabled@.len(),
    ensures
        r == navigate_spec(enabled@, current, default_index, key),
{
    if enabled.len() == 0 {
        return NavOutcome::Nothing;
    }
    match key {
        NavKey::Down => match current {
            None => NavOutcome::Highlight(default_index),
            Some(cur) => NavOutcome::Highlight(next_enabled(enabled, cur, true)),
        },
        NavKey::Up => match current {
            None => NavOutcome::Highlight(default_index),
            Some(cur) => NavOutcome::Highlight(next_enabled(enabled, cur, false)),
        },
        NavKey::Enter => {
            let idx = match current {
                Some(cur) => cur,
                None => default_index,
            };
            if enabled[idx] {
                NavOutcome::Pick(idx)
            } else {
                NavOutcome::Nothing
            }
        },
        NavKey::Mnemonic { found, unique } => match found {
            Some(idx) => if unique {
                NavOutcome::Pick(idx)
            } else {
                NavOutcome::Highlight(idx)
            },
            None => NavOutcome::Nothing,
        },
    }
}

/// Opening a submenu that is open closes it; any other opens.
pub fn toggle_submenu(open: Option<u64>, id: u64) -> (r: Option<u64>)
    ensures
        r == (if open == Some(id) { None::<u64> } else { Some(id) }),
{
    if open == Some(id) {
        None
    } else {
        Some(id)
    }
}

/// The submenu a left or right arrow toggles: the one whose header is
/// highlighted, when right would open it or left would close it.
pub fn arrow_toggle(open: Option<u64>, header: Option<u64>, right: bool) -> (r: Option<u64>)
    ensures
        r == (match header {
            Some(id) => if (open == Some(id)) != right { Some(id) } else { None },
            None => None,
        }),
{
    match header {
        Some(id) => if (open == Some(id)) != right {
            Some(id)
        } else {
            None
        },
        None => None,
    }
}

/// After a submenu is toggled, the highlight stays on its header: the row
/// whose header is `id`, when a row was highlighted at all.
pub fn header_highlight(headers: &Vec<Option<u64>>, id: u64, highlighted: Option<usize>) -> (r: Option<usize>)
    ensures
        highlighted is None ==> r is None,
        highlighted is Some ==> match r {
            Some(k) => k < headers@.len() && headers@[k as int] == Some(id) && forall|j: int| 0 <= j < k ==> headers@[j] != Some(id),
            None => forall|j: int| 0 <= j < headers@.len() ==> headers@[j] != Some(id),
        },
{
    if highlighted.is_none() {
        return None;
    }
    let mut k: usize = 0;
    while k < headers.len()
        invariant
            k <= headers@.len(),
            highlighted is Some,
            forall|j: int| 0 <= j < k ==> headers@[j] != Some(id),
        decreases headers.len() - k,
    {
        if headers[k] == Some(id) {
            return Some(k);
        }
        k += 1;
    }
    None
}

/// Whether a command step takes a point pick (possibly with keywords) and
/// not an entity pick, so that the menu offers point overrides.
pub fn has_point_step(wants_text: bool, point_step_accepts_keywords: bool, needs_entity_pick: bool) -> (r: bool)
    ensures
        r == ((!wants_text || point_step_accepts_keywords) && !needs_entity_pick),
{
    (!wants_text || point_step_accepts_keywords) && !needs_entity_pick
}

/// Whether a typed character goes to the menu as a mnemonic: an ASCII
/// letter or digit that some row has as its mnemonic. Anything else closes
/// the menu and is typed into the command line.
pub fn typed_is_mnemonic(ch: char, has_mnemonic: bool) -> (r: bool)
    ensures
        r == (is_ascii_alnum(ch) && has_mnemonic),
{
    (('a' <= ch && ch <= 'z') || ('A' <= ch && ch <= 'Z') || ('0' <= ch && ch <= '9')) && has_mnemonic
}

/// The single character the command line's new contents `buffer` adds to
/// its old contents `input`; `None` when `buffer` does not extend `input` by
/// exactly one character.
pub fn appended_char(buffer: &str, input: &str) -> (r: Option<char>)
    ensures
        r == (if buffer@.len() == input@.len() + 1 && buffer@.take(input@.len() as int) == input@ {
            Some(buffer@.last())
        } else {
            None::<char>
        }),
{
    let b = chars_of(buffer);
    let a = chars_of(input);
    if b.len() == 0 || b.len() - 1 != a.len() {
        return None;
    }
    let mut i: usize = 0;
    while i < a.len()
        invariant
            i <= a@.len(),
            a@ == input@,
            b@ == buffer@,
            b@.len() == a@.len() + 1,
            forall|j: int| 0 <= j < i ==> b@[j] == a@[j],
        decreases a.len() - i,
    {
        if b[i] != a[i] {
            assert(b@.take(a@.len() as int)[i as int] != a@[i as int]);
            assert(b@.take(a@.len() as int) != a@);
            return None;
        }
        i += 1;
    }
    assert(b@.take(a@.len() as int) =~= a@);
    Some(b[a.len()])
}

/// The most recent `limit` entries of a history kept oldest first, most
/// recent first (the menu's recent commands and inputs).
pub fn latest_first(history: &Vec<String>, limit: usize) -> (r: Vec<String>)
    ensures
        r@.len() == (if limit < history@.len() { limit as int } else { history@.len() as int }),
        forall|k: int| 0 <= k < r@.len() ==> (#[trigger] r@[k])@ == history@[history@.len() - 1 - k]@,
{
    let mut r: Vec<String> = Vec::new();
    let n = history.len();
    let mut k: usize = 0;
    while k < limit && k < n
        invariant
            n == history@.len(),
            k <= n,
            k <= limit,
            r@.len() == k,
            forall|j: int| 0 <= j < k ==> (#[trigger] r@[j])@ == history@[n - 1 - j]@,
        decreases n - k,
    {
        r.push(history[n - 1 - k].clone());
        k += 1;
    }
    r
}

} // verus!
