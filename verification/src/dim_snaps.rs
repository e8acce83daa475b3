//! Snaps accepted by a dimension command's point steps, and how a pending
//! dimension is measured from them: plainly, through one viewport (with the
//! viewport's scale compensated), or from a mix of spaces (refused, with a
//! warning).
use vstd::prelude::*;

use crate::text::{ascii_lower_seq, chars_eq_str, chars_of, eq_ignore_ascii_case, str_trim, trimmed};

verus! {

/// Bound on the retained accepted-snap history.
pub const MAX_ACCEPTED_SNAPS: usize = 64;

/// The history after accepting one more snap: the oldest one leaves when the
/// history is full.
pub open spec fn pushed_bounded<T>(snaps: Seq<T>, accepted: T) -> Seq<T> {
    if snaps.len() >= MAX_ACCEPTED_SNAPS {
        snaps.subrange(1, snaps.len() as int).push(accepted)
    } else {
        snaps.push(accepted)
    }
}

/// Retains a bounded history of accepted snaps, oldest first.
pub fn push_accepted_snap<T>(snaps: &mut Vec<T>, accepted: T)
    ensures
        final(snaps)@ == pushed_bounded(old(snaps)@, accepted),
        old(snaps)@.len() <= MAX_ACCEPTED_SNAPS ==> final(snaps)@.len() <= MAX_ACCEPTED_SNAPS,
        final(snaps)@.last() == accepted,
{
    if snaps.len() >= MAX_ACCEPTED_SNAPS {
        snaps.remove(0);
    }
    snaps.push(accepted);
}

/// An object pick supplies both extension origins at once, so it is
/// recorded twice.
pub fn record_viewport_pick<T: Copy>(snaps: &mut Vec<T>, accepted: T)
    ensures
        final(snaps)@ == old(snaps)@.push(accepted).push(accepted),
{
    snaps.push(accepted);
    snaps.push(accepted);
}

/// The accepted snap of the `idx`-th collected point, when one was recorded.
pub fn accepted_snap_for_point<T>(snaps: &Vec<T>, idx: usize) -> (r: Option<&T>)
    ensures
        match r {
            Some(s) => idx < snaps@.len() && *s == snaps@[idx as int],
            None => idx >= snaps@.len(),
        },
{
    if idx < snaps.len() {
        Some(&snaps[idx])
    } else {
        None
    }
}

/// The command the recorded snaps belong to.
pub open spec fn owner_view(owner: Option<String>) -> Option<Seq<char>> {
    match owner {
        Some(s) => Some(s@),
        None => None,
    }
}

/// The active command's name as a value.
pub open spec fn name_view(name: Option<&str>) -> Option<Seq<char>> {
    match name {
        Some(s) => Some(s@),
        None => None,
    }
}

/// Drops the recorded snaps when the active command (`name`) is not the one
/// they were recorded for, so that one command never sees another's points.
pub fn sync_snap_owner<T>(snaps: &mut Vec<T>, owner: &mut Option<String>, name: Option<&str>)
    ensures
        owner_view(*final(owner)) == name_view(name),
        final(snaps)@ == (if owner_view(*old(owner)) == name_view(name) { old(snaps)@ } else { Seq::empty() }),
{
    let same = match (&*owner, name) {
        (Some(current), Some(n)) => chars_eq_str(&chars_of(current.as_str()), n),
        (None, None) => true,
        _ => false,
    };
    if !same {
        snaps.clear();
        *owner = match name {
            Some(n) => Some(n.to_string()),
            None => None,
        };
    }
}

/// How a pending dimension is measured.
#[derive(Clone, Copy, Debug, PartialEq, Eq, Structural)]
pub enum MeasureSpace {
    /// Plainly, in the space its definition points live in.
    Direct,
    /// Every measuring point came through one viewport; `snap` is the first
    /// measuring snap, whose frame is that viewport's.
    Viewport { viewport: u64, snap: usize },
    /// The points came from different viewports, or from a viewport and the
    /// bare sheet.
    Mixed,
}

/// The measuring snaps: all but the last (the placement click), when there
/// are at least two.
pub open spec fn measuring<T>(snaps: Seq<T>) -> Seq<T> {
    if snaps.len() <= 1 {
        snaps
    } else {
        snaps.take(snaps.len() - 1)
    }
}

/// How a dimension is measured from the viewports its snaps came through
/// (`None` for a snap on the sheet). Only a dimension created on a sheet
/// (`on_sheet`) can measure through a viewport.
pub open spec fn measure_space_spec(on_sheet: bool, frames: Seq<Option<u64>>) -> MeasureSpace {
    let m = measuring(frames);
    if !on_sheet || forall|j: int| 0 <= j < m.len() ==> m[j] is None {
        MeasureSpace::Direct
    } else {
        let first = choose|i: int| 0 <= i < m.len() && m[i] is Some && forall|j: int| 0 <= j < i ==> m[j] is None;
        if forall|j: int| 0 <= j < m.len() ==> m[j] == m[first] {
            MeasureSpace::Viewport { viewport: m[first]->0, snap: first as usize }
        } else {
            MeasureSpace::Mixed
        }
    }
}

/// Placement does not change the measurement's space: once a measuring
/// point is recorded, whatever the last (placement) click hit, the
/// dimension is measured the same way.
pub proof fn lemma_placement_keeps_measure_space(on_sheet: bool, frames: Seq<Option<u64>>, a: Option<u64>, b: Option<u64>)
    requires
        frames.len() >= 1,
    ensures
        measure_space_spec(on_sheet, frames.push(a)) == measure_space_spec(on_sheet, frames.push(b)),
{
    assert(measuring(frames.push(a)) =~= frames);
    assert(measuring(frames.push(b)) =~= frames);
}

/// Free or typed sheet points measure paper units: a dimension whose
/// measuring points all lie on the sheet is measured directly.
pub proof fn lemma_sheet_points_measure_paper(frames: Seq<Option<u64>>)
    requires
        forall|k: int| 0 <= k < measuring(frames).len() ==> measuring(frames)[k] is None,
    ensures
        measure_space_spec(true, frames) == MeasureSpace::Direct,
{
}

/// A sheet point among points measured through a viewport is refused as
/// mixed.
pub proof fn lemma_sheet_and_viewport_are_mixed(frames: Seq<Option<u64>>, i: int, j: int)
    requires
        0 <= i < measuring(frames).len(),
        0 <= j < measuring(frames).len(),
        measuring(frames)[i] is None,
        measuring(frames)[j] is Some,
    ensures
        measure_space_spec(true, frames) == MeasureSpace::Mixed,
{
    let m = measuring(frames);
    assert(!(forall|k: int| 0 <= k < m.len() ==> m[k] is None));
    let first = choose|f: int| 0 <= f < m.len() && m[f] is Some && forall|k: int| 0 <= k < f ==> m[k] is None;
    if forall|k: int| 0 <= k < m.len() ==> m[k] == m[first] {
        assert(m[i] == m[first]);
    }
}

/// Points measured through different viewports are refused as mixed.
pub proof fn lemma_two_viewports_are_mixed(frames: Seq<Option<u64>>, i: int, j: int)
    requires
        0 <= i < measuring(frames).len(),
        0 <= j < measuring(frames).len(),
        measuring(frames)[i] is Some,
        measuring(frames)[j] is Some,
        measuring(frames)[i] != measuring(frames)[j],
    ensures
        measure_space_spec(true, frames) == MeasureSpace::Mixed,
{
    let m = measuring(frames);
    assert(!(forall|k: int| 0 <= k < m.len() ==> m[k] is None));
    let first = choose|f: int| 0 <= f < m.len() && m[f] is Some && forall|k: int| 0 <= k < f ==> m[k] is None;
    if forall|k: int| 0 <= k < m.len() ==> m[k] == m[first] {
        assert(m[i] == m[first]);
        assert(m[j] == m[first]);
    }
}

/// Whether a layout is the model layout (or a viewport is active inside a
/// sheet), where measurement is always direct.
pub fn in_model_space(current_layout: &str, active_viewport: bool) -> (r: bool)
    ensures
        r == (current_layout@ == "Model"@ || active_viewport),
{
    chars_eq_str(&chars_of(current_layout), "Model") || active_viewport
}

/// The first snap through a viewport is the one `measure_space_spec`
/// names.
proof fn lemma_first_frame(m: Seq<Option<u64>>, f: int)
    requires
        0 <= f < m.len(),
        m[f] is Some,
        forall|j: int| 0 <= j < f ==> m[j] is None,
    ensures
        (choose|i: int| 0 <= i < m.len() && m[i] is Some && forall|j: int| 0 <= j < i ==> m[j] is None) == f,
{
    let chosen = choose|i: int| 0 <= i < m.len() && m[i] is Some && forall|j: int| 0 <= j < i ==> m[j] is None;
    assert(0 <= chosen < m.len() && m[chosen] is Some && forall|j: int| 0 <= j < chosen ==> m[j] is None);
    if chosen < f {
        assert(m[chosen] is None);
    }
    if chosen > f {
        assert(m[f] is None);
    }
}

/// Classifies how the pending dimension is measured from the viewport of
/// each accepted snap.
pub fn measure_space(current_layout: &str, active_viewport: bool, frames: &Vec<Option<u64>>) -> (r: MeasureSpace)
    ensures
        r == measure_space_spec(!(current_layout@ == "Model"@ || active_viewport), frames@),
{
    if in_model_space(current_layout, active_viewport) {
        return MeasureSpace::Direct;
    }
    let count = if frames.len() <= 1 { frames.len() } else { frames.len() - 1 };
    let ghost m = measuring(frames@);
    assert(m.len() == count);
    assert(forall|j: int| 0 <= j < count ==> m[j] == frames@[j]);
    let mut first: Option<(u64, usize)> = None;
    let mut uniform = true;
    let mut i: usize = 0;
    while i < count
        invariant
            i <= count,
            count <= frames@.len(),
            m.len() == count,
            forall|j: int| 0 <= j < count ==> m[j] == frames@[j],
            match first {
                None => forall|j: int| 0 <= j < i ==> m[j] is None,
                Some((v, f)) => f < i && m[f as int] == Some(v) && (forall|j: int| 0 <= j < f ==> m[j] is None)
                    && (uniform <==> forall|j: int| 0 <= j < i ==> m[j] == Some(v)),
            },
        decreases count - i,
    {
        assert(m[i as int] == frames@[i as int]);
        match frames[i] {
            Some(v) => match first {
                None => {
                    assert(forall|j: int| 0 <= j < i ==> m[j] is None);
                    first = Some((v, i));
                    uniform = i == 0;
                    assert(i > 0 ==> m[0] != Some(v));
                },
                Some((existing, _)) => {
                    uniform = uniform && existing == v;
                },
            },
            None => {
                uniform = false;
                assert(m[i as int] is None);
            },
        }
        i += 1;
    }
    match first {
        None => MeasureSpace::Direct,
        Some((v, f)) => {
            proof {
                lemma_first_frame(m, f as int);
            }
            if uniform {
                MeasureSpace::Viewport { viewport: v, snap: f }
            } else {
                MeasureSpace::Mixed
            }
        },
    }
}

/// Whether the dimension can use ordinary associations in the active
/// space: only when it measures directly.
pub fn association_allowed(space: MeasureSpace) -> (r: bool)
    ensures
        r == (space is Direct),
{
    matches!(space, MeasureSpace::Direct)
}

/// What committing a dimension does about its measurement space.
#[derive(Clone, Copy, Debug, PartialEq, Eq, Structural)]
pub enum MeasureAction {
    /// Measure plainly; associations may be inferred.
    Plain,
    /// Measure plainly and warn that mixed-space measurement is refused.
    WarnMixed,
    /// An angle through a viewport: no compensation (a similarity keeps
    /// angles), but no association inference either.
    KeepAngle,
    /// Compensate the length by the scale of the viewport of snap `snap`.
    Compensate { snap: usize },
}

/// What committing a dimension does: nothing special for a direct one, a
/// warning for a mixed one, and for one measured through a viewport a
/// length compensation unless it is angular.
pub fn measurement_action(space: MeasureSpace, angular: bool) -> (a: MeasureAction)
    ensures
        a == match space {
            MeasureSpace::Direct => MeasureAction::Plain,
            MeasureSpace::Mixed => MeasureAction::WarnMixed,
            MeasureSpace::Viewport { snap, .. } => if angular {
                MeasureAction::KeepAngle
            } else {
                MeasureAction::Compensate { snap }
            },
        },
{
    match space {
        MeasureSpace::Direct => MeasureAction::Plain,
        MeasureSpace::Mixed => MeasureAction::WarnMixed,
        MeasureSpace::Viewport { snap, .. } => if angular {
            MeasureAction::KeepAngle
        } else {
            MeasureAction::Compensate { snap }
        },
    }
}

/// What recording a point step's snap does.
#[derive(Clone, Copy, Debug, PartialEq, Eq, Structural)]
pub enum RecordAction {
    /// Keep the snap in the history; the step is accepted.
    Record,
    /// The step is accepted without keeping the snap (a dimension's
    /// placement click).
    AcceptOnly,
    /// The step is refused.
    Refuse,
}

/// Whether a point step's snap is kept: for a command that measures through
/// viewports, its placement click is accepted without being kept, and a
/// measuring point is refused where acquisition is not allowed.
pub fn record_action(measures_through_viewports: bool, placement_pending: bool, acquisition_allowed: bool) -> (a: RecordAction)
    ensures
        a == (if measures_through_viewports && placement_pending {
            RecordAction::AcceptOnly
        } else if measures_through_viewports && !acquisition_allowed {
            RecordAction::Refuse
        } else {
            RecordAction::Record
        }),
{
    if measures_through_viewports {
        if placement_pending {
            return RecordAction::AcceptOnly;
        }
        if !acquisition_allowed {
            return RecordAction::Refuse;
        }
    }
    RecordAction::Record
}

/// Whether a dimension style named `style` is the one a dimension that
/// names `name` uses: the same name, ASCII case ignored, or Standard for a
/// blank name.
pub open spec fn style_matches(style: Seq<char>, name: Seq<char>) -> bool {
    ascii_lower_seq(style) == ascii_lower_seq(name) || (str_trim(name).len() == 0 && ascii_lower_seq(style)
        == ascii_lower_seq("Standard"@))
}

/// The first of the drawing's dimension styles that a pending dimension
/// naming `name` uses, whose length factor it inherits.
pub fn dimension_style_index(style_names: &Vec<String>, name: &str) -> (r: Option<usize>)
    ensures
        match r {
            Some(i) => i < style_names@.len() && style_matches(style_names@[i as int]@, name@) && forall|j: int|
                0 <= j < i ==> !style_matches(#[trigger] style_names@[j]@, name@),
            None => forall|j: int| 0 <= j < style_names@.len() ==> !style_matches(#[trigger] style_names@[j]@, name@),
        },
{
    let blank = chars_of(trimmed(name)).len() == 0;
    let mut i: usize = 0;
    while i < style_names.len()
        invariant
            i <= style_names@.len(),
            blank == (str_trim(name@).len() == 0),
            forall|j: int| 0 <= j < i ==> !style_matches(#[trigger] style_names@[j]@, name@),
        decreases style_names.len() - i,
    {
        let style = style_names[i].as_str();
        if eq_ignore_ascii_case(style, name) || (blank && eq_ignore_ascii_case(style, "Standard")) {
            return Some(i);
        }
        i += 1;
    }
    None
}

} // verus!
