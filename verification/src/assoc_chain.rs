//! Reference chains of associative dimensions: the osnap codes a reference
//! stores, which live snap modes they come from, which features can be
//! evaluated again, and how a chain of handles
//! (`dimension -> [viewport] -> [insert ...] -> entity`) is walked.
use vstd::prelude::*;

verus! {

/// No osnap: the reference resolves by marker or parameter alone.
pub const OSNAP_NONE: u8 = 0;
pub const OSNAP_END: u8 = 1;
pub const OSNAP_MID: u8 = 2;
pub const OSNAP_CEN: u8 = 3;
pub const OSNAP_NODE: u8 = 4;
pub const OSNAP_QUAD: u8 = 5;
pub const OSNAP_INTERSEC: u8 = 6;
pub const OSNAP_INS: u8 = 7;
pub const OSNAP_PERP: u8 = 8;
pub const OSNAP_TAN: u8 = 9;
pub const OSNAP_NEAR: u8 = 10;
pub const OSNAP_APPARENT_INT: u8 = 11;
pub const OSNAP_PARA: u8 = 12;
pub const OSNAP_START_POINT: u8 = 13;

/// A live object-snap mode.
#[derive(Clone, Copy, Debug, PartialEq, Eq, Structural)]
pub enum SnapType {
    Endpoint,
    Midpoint,
    Center,
    Node,
    Quadrant,
    Intersection,
    Insertion,
    Perpendicular,
    Tangent,
    Nearest,
    Extension,
    ApparentIntersection,
    Parallel,
    Grid,
    ObjectPick,
}

/// The osnap code a reference stores for a live snap mode.
pub open spec fn osnap_code(snap: SnapType) -> u8 {
    match snap {
        SnapType::Endpoint => OSNAP_END,
        SnapType::Midpoint => OSNAP_MID,
        SnapType::Center => OSNAP_CEN,
        SnapType::Node => OSNAP_NODE,
        SnapType::Quadrant => OSNAP_QUAD,
        SnapType::Intersection => OSNAP_INTERSEC,
        SnapType::Insertion => OSNAP_INS,
        SnapType::Perpendicular => OSNAP_PERP,
        SnapType::Tangent => OSNAP_TAN,
        SnapType::Nearest | SnapType::Extension => OSNAP_NEAR,
        SnapType::ApparentIntersection => OSNAP_APPARENT_INT,
        SnapType::Parallel => OSNAP_PARA,
        SnapType::Grid | SnapType::ObjectPick => OSNAP_NONE,
    }
}

/// Translates a live snap mode into the osnap code that is persisted;
/// modes with no code of their own (grid, object pick) store none.
pub fn osnap_type_for(snap: SnapType) -> (code: u8)
    ensures
        code == osnap_code(snap),
{
    match snap {
        SnapType::Endpoint => OSNAP_END,
        SnapType::Midpoint => OSNAP_MID,
        SnapType::Center => OSNAP_CEN,
        SnapType::Node => OSNAP_NODE,
        SnapType::Quadrant => OSNAP_QUAD,
        SnapType::Intersection => OSNAP_INTERSEC,
        SnapType::Insertion => OSNAP_INS,
        SnapType::Perpendicular => OSNAP_PERP,
        SnapType::Tangent => OSNAP_TAN,
        SnapType::Nearest | SnapType::Extension => OSNAP_NEAR,
        SnapType::ApparentIntersection => OSNAP_APPARENT_INT,
        SnapType::Parallel => OSNAP_PARA,
        SnapType::Grid | SnapType::ObjectPick => OSNAP_NONE,
    }
}

/// The osnap codes whose feature is evaluated again from the geometry.
pub open spec fn evaluated_code(code: u8) -> bool {
    code == OSNAP_CEN || code == OSNAP_MID || code == OSNAP_QUAD || code == OSNAP_NODE || code == OSNAP_INS
        || code == OSNAP_INTERSEC || code == OSNAP_APPARENT_INT || code == OSNAP_PERP || code == OSNAP_TAN
        || code == OSNAP_NEAR
}

/// Whether the feature of this osnap code is evaluated from the geometry;
/// a code that is not keeps its stored data and stays unresolved.
pub fn evaluates(code: u8) -> (r: bool)
    ensures
        r == evaluated_code(code),
{
    code == OSNAP_CEN || code == OSNAP_MID || code == OSNAP_QUAD || code == OSNAP_NODE || code == OSNAP_INS
        || code == OSNAP_INTERSEC || code == OSNAP_APPARENT_INT || code == OSNAP_PERP || code == OSNAP_TAN
        || code == OSNAP_NEAR
}

/// Whether the feature of this osnap code is measured from the other
/// definition point (perpendicular foot, tangent touch point).
pub fn needs_from_point(code: u8) -> (r: bool)
    ensures
        r == (code == OSNAP_PERP || code == OSNAP_TAN),
{
    code == OSNAP_PERP || code == OSNAP_TAN
}

/// A two-point feature is one that is evaluated: every code that needs the
/// other definition point is among the evaluated ones.
pub proof fn lemma_from_point_features_are_evaluated(code: u8)
    requires
        code == OSNAP_PERP || code == OSNAP_TAN,
    ensures
        evaluated_code(code),
{
}

/// Every code a live snap mode is stored as is a known code, and the
/// evaluated ones come from snap modes whose point can be found again.
pub proof fn lemma_osnap_code_known(snap: SnapType)
    ensures
        osnap_code(snap) <= OSNAP_PARA,
        evaluated_code(osnap_code(snap)) <==> !(snap is Endpoint || snap is Parallel || snap is Grid || snap is ObjectPick),
{
}

/// Which evaluation a feature takes, with the point that picks among
/// several candidates or that a two-point feature is measured from.
#[derive(Clone, Copy, Debug, PartialEq, Eq, Structural)]
pub enum Feature {
    Center,
    Mid,
    /// The quadrant nearest the stored point.
    Quadrant,
    /// The node or insertion point.
    Node,
    /// The crossing nearest the stored point; `apparent` also crosses the
    /// extensions of the nearest segments.
    Intersection { apparent: bool },
    /// The foot from the other definition point (`from_other`), else from
    /// the stored point.
    Perpendicular { from_other: bool },
    Tangent,
    Nearest,
}

/// The evaluation of a feature with osnap `code`, given whether the stored
/// point (`has_hint`) and the other definition point (`has_from`) are
/// known. `None` for a code that is not evaluated, and for a quadrant,
/// intersection or perpendicular that lacks the point it needs.
pub open spec fn feature_spec(code: u8, has_hint: bool, has_from: bool) -> Option<Feature> {
    if code == OSNAP_CEN {
        Some(Feature::Center)
    } else if code == OSNAP_MID {
        Some(Feature::Mid)
    } else if code == OSNAP_QUAD {
        if has_hint { Some(Feature::Quadrant) } else { None }
    } else if code == OSNAP_NODE || code == OSNAP_INS {
        Some(Feature::Node)
    } else if code == OSNAP_INTERSEC || code == OSNAP_APPARENT_INT {
        if has_hint { Some(Feature::Intersection { apparent: code == OSNAP_APPARENT_INT }) } else { None }
    } else if code == OSNAP_PERP {
        if has_from || has_hint { Some(Feature::Perpendicular { from_other: has_from }) } else { None }
    } else if code == OSNAP_TAN {
        Some(Feature::Tangent)
    } else if code == OSNAP_NEAR {
        Some(Feature::Nearest)
    } else {
        None
    }
}

/// Which evaluation the feature a reference names takes.
pub fn feature_for(code: u8, has_hint: bool, has_from: bool) -> (f: Option<Feature>)
    ensures
        f == feature_spec(code, has_hint, has_from),
{
    if code == OSNAP_CEN {
        Some(Feature::Center)
    } else if code == OSNAP_MID {
        Some(Feature::Mid)
    } else if code == OSNAP_QUAD {
        if has_hint { Some(Feature::Quadrant) } else { None }
    } else if code == OSNAP_NODE || code == OSNAP_INS {
        Some(Feature::Node)
    } else if code == OSNAP_INTERSEC || code == OSNAP_APPARENT_INT {
        if has_hint { Some(Feature::Intersection { apparent: code == OSNAP_APPARENT_INT }) } else { None }
    } else if code == OSNAP_PERP {
        if has_from || has_hint { Some(Feature::Perpendicular { from_other: has_from }) } else { None }
    } else if code == OSNAP_TAN {
        Some(Feature::Tangent)
    } else if code == OSNAP_NEAR {
        Some(Feature::Nearest)
    } else {
        None
    }
}

/// Only evaluated codes have a feature evaluation.
pub proof fn lemma_feature_only_when_evaluated(code: u8, has_hint: bool, has_from: bool)
    ensures
        feature_spec(code, has_hint, has_from) is Some ==> evaluated_code(code),
        evaluated_code(code) && has_hint ==> feature_spec(code, has_hint, has_from) is Some,
{
}

/// What a handle of a reference chain names in the drawing.
#[derive(Clone, Copy, Debug, PartialEq, Eq, Structural)]
pub enum LinkKind {
    /// No object of the drawing has the handle.
    Missing,
    /// A layout viewport.
    Viewport,
    /// A block reference.
    Insert,
    /// Any other entity.
    Other,
}

/// One handle of a chain and what it names; handle 0 is the null handle.
#[derive(Clone, Copy, Debug, PartialEq, Eq, Structural)]
pub struct ChainLink {
    pub handle: u64,
    pub kind: LinkKind,
}

/// A walked chain: the viewport it is seen through when it starts with
/// one, the block references from the outermost down to the one holding
/// the entity, and the entity.
pub struct ReferenceChain {
    pub viewport: Option<u64>,
    pub block_path: Vec<u64>,
    pub entity: u64,
}

/// Why a chain could not be walked.
#[derive(Clone, Copy, Debug, PartialEq, Eq, Structural)]
pub enum ChainError {
    /// Nothing to resolve.
    Empty,
    /// A handle names no object of the drawing.
    Missing(u64),
}

/// Walks `links[i..]` with the viewport and path found so far: null
/// handles are skipped, a missing object stops with its handle, a viewport
/// in first position is the viewport hop, a block reference extends the
/// path, and anything else is the entity.
pub open spec fn walk_from(links: Seq<ChainLink>, i: int, viewport: Option<u64>, path: Seq<u64>) -> Result<(Option<u64>, Seq<u64>, Option<u64>), u64>
    decreases links.len() - i,
{
    if i < 0 || i >= links.len() {
        Ok((viewport, path, None))
    } else {
        let link = links[i];
        if link.handle == 0 {
            walk_from(links, i + 1, viewport, path)
        } else {
            match link.kind {
                LinkKind::Missing => Err(link.handle),
                LinkKind::Viewport if i == 0 && viewport is None => walk_from(links, i + 1, Some(link.handle), path),
                LinkKind::Insert => walk_from(links, i + 1, viewport, path.push(link.handle)),
                _ => Ok((viewport, path, Some(link.handle))),
            }
        }
    }
}

/// The walked chain as values: viewport, block path and entity. A chain of
/// nothing but block references ends on the innermost one, which leaves the
/// path.
pub open spec fn walk_spec(links: Seq<ChainLink>) -> Result<(Option<u64>, Seq<u64>, u64), ChainError> {
    match walk_from(links, 0, None, Seq::empty()) {
        Err(h) => Err(ChainError::Missing(h)),
        Ok((viewport, path, Some(entity))) => Ok((viewport, path, entity)),
        Ok((viewport, path, None)) => if path.len() > 0 {
            Ok((viewport, path.drop_last(), path.last()))
        } else {
            Err(ChainError::Empty)
        },
    }
}

/// Link `j` ends the walk: a non-null handle that is not a block reference
/// and not the leading viewport.
pub open spec fn stops_at(links: Seq<ChainLink>, j: int) -> bool {
    links[j].handle != 0 && !(links[j].kind is Insert) && !(j == 0 && links[j].kind is Viewport)
}

/// The first link from `i` on that ends the walk; `links.len()` when none
/// does.
pub open spec fn first_stop(links: Seq<ChainLink>, i: int) -> int
    decreases links.len() - i,
{
    if i < 0 || i >= links.len() {
        links.len() as int
    } else if stops_at(links, i) {
        i
    } else {
        first_stop(links, i + 1)
    }
}

/// The handles of the non-null block references among `links[i..j]`, in
/// chain order.
pub open spec fn inserts_between(links: Seq<ChainLink>, i: int, j: int) -> Seq<u64>
    decreases j - i,
{
    if j <= i {
        Seq::empty()
    } else {
        let prev = inserts_between(links, i, j - 1);
        if links[j - 1].handle != 0 && links[j - 1].kind is Insert {
            prev.push(links[j - 1].handle)
        } else {
            prev
        }
    }
}

/// The viewport a chain is seen through: its first link, when that is a
/// viewport.
pub open spec fn chain_viewport(links: Seq<ChainLink>) -> Option<u64> {
    if links.len() > 0 && links[0].handle != 0 && links[0].kind is Viewport {
        Some(links[0].handle)
    } else {
        None
    }
}

proof fn lemma_first_stop_bounds(links: Seq<ChainLink>, i: int)
    requires
        0 <= i <= links.len(),
    ensures
        i <= first_stop(links, i) <= links.len(),
        first_stop(links, i) < links.len() ==> stops_at(links, first_stop(links, i)),
    decreases links.len() - i,
{
    if i < links.len() && !stops_at(links, i) {
        lemma_first_stop_bounds(links, i + 1);
    }
}

proof fn lemma_inserts_first(links: Seq<ChainLink>, i: int, j: int)
    requires
        0 <= i < j <= links.len(),
    ensures
        inserts_between(links, i, j) == (if links[i].handle != 0 && links[i].kind is Insert {
            seq![links[i].handle]
        } else {
            Seq::empty()
        }) + inserts_between(links, i + 1, j),
    decreases j - i,
{
    let head = if links[i].handle != 0 && links[i].kind is Insert {
        seq![links[i].handle]
    } else {
        Seq::<u64>::empty()
    };
    if j > i + 1 {
        lemma_inserts_first(links, i, j - 1);
        if links[j - 1].handle != 0 && links[j - 1].kind is Insert {
            assert(head + inserts_between(links, i + 1, j) =~= (head + inserts_between(links, i + 1, j - 1)).push(
                links[j - 1].handle,
            ));
        }
    } else {
        assert(inserts_between(links, i + 1, j) =~= Seq::<u64>::empty());
        assert(inserts_between(links, i, i) =~= Seq::<u64>::empty());
        assert(inserts_between(links, i, j) =~= head + inserts_between(links, i + 1, j));
    }
}

proof fn lemma_walk_from(links: Seq<ChainLink>, i: int, viewport: Option<u64>, path: Seq<u64>)
    requires
        1 <= i <= links.len(),
    ensures
        ({
            let j = first_stop(links, i);
            walk_from(links, i, viewport, path) == (if j < links.len() {
                if links[j].kind is Missing {
                    Err::<(Option<u64>, Seq<u64>, Option<u64>), u64>(links[j].handle)
                } else {
                    Ok((viewport, path + inserts_between(links, i, j), Some(links[j].handle)))
                }
            } else {
                Ok((viewport, path + inserts_between(links, i, links.len() as int), None))
            })
        }),
    decreases links.len() - i,
{
    if i == links.len() {
        assert(path + Seq::<u64>::empty() =~= path);
    } else {
        let link = links[i];
        let j = first_stop(links, i);
        lemma_first_stop_bounds(links, i + 1);
        if !stops_at(links, i) {
            lemma_walk_from(links, i + 1, viewport, if link.kind is Insert && link.handle != 0 {
                path.push(link.handle)
            } else {
                path
            });
            let end = if j < links.len() { j } else { links.len() as int };
            lemma_inserts_first(links, i, end);
            if link.handle != 0 && link.kind is Insert {
                assert(path.push(link.handle) + inserts_between(links, i + 1, end) =~= path + inserts_between(links, i, end));
            } else {
                assert(Seq::<u64>::empty() + inserts_between(links, i + 1, end) =~= inserts_between(links, i + 1, end));
            }
        } else {
            assert(inserts_between(links, i, i) =~= Seq::<u64>::empty());
            assert(path + Seq::<u64>::empty() =~= path);
        }
    }
}

/// The walk in chain order: the entity is the first link that is neither
/// null, nor a block reference, nor the leading viewport (a missing object
/// there is an error), and the block path lists the block references
/// before it, outermost first. A chain with no such link ends on its
/// innermost block reference.
pub proof fn lemma_chain_lists_inserts_in_order(links: Seq<ChainLink>)
    ensures
        ({
            let j = first_stop(links, 0);
            let ins = inserts_between(links, 0, j);
            walk_spec(links) == (if j < links.len() {
                if links[j].kind is Missing {
                    Err::<(Option<u64>, Seq<u64>, u64), ChainError>(ChainError::Missing(links[j].handle))
                } else {
                    Ok((chain_viewport(links), ins, links[j].handle))
                }
            } else if ins.len() > 0 {
                Ok((chain_viewport(links), ins.drop_last(), ins.last()))
            } else {
                Err(ChainError::Empty)
            })
        }),
{
    if links.len() > 0 {
        let l = links[0];
        let j = first_stop(links, 0);
        if !stops_at(links, 0) {
            let vp = if l.handle != 0 && l.kind is Viewport { Some(l.handle) } else { None::<u64> };
            let p0 = if l.handle != 0 && l.kind is Insert { seq![l.handle] } else { Seq::<u64>::empty() };
            assert(walk_from(links, 0, None, Seq::empty()) == walk_from(links, 1, vp, p0)) by {
                if l.handle != 0 && l.kind is Insert {
                    assert(Seq::<u64>::empty().push(l.handle) =~= p0);
                }
            }
            lemma_walk_from(links, 1, vp, p0);
            lemma_first_stop_bounds(links, 1);
            assert(first_stop(links, 0) == first_stop(links, 1));
            assert(chain_viewport(links) == vp);
            let end = if j < links.len() { j } else { links.len() as int };
            assert(1 <= end <= links.len());
            lemma_inserts_first(links, 0, end);
            assert(p0 + inserts_between(links, 1, end) == inserts_between(links, 0, end));
        } else {
            assert(inserts_between(links, 0, 0) =~= Seq::<u64>::empty());
        }
    } else {
        assert(inserts_between(links, 0, 0) =~= Seq::<u64>::empty());
    }
}

/// Walks a reference chain, outermost handle first.
pub fn walk_chain(links: &Vec<ChainLink>) -> (r: Result<ReferenceChain, ChainError>)
    ensures
        match r {
            Ok(chain) => walk_spec(links@) == Ok::<(Option<u64>, Seq<u64>, u64), ChainError>(
                (chain.viewport, chain.block_path@, chain.entity),
            ),
            Err(e) => walk_spec(links@) == Err::<(Option<u64>, Seq<u64>, u64), ChainError>(e),
        },
{
    let mut viewport: Option<u64> = None;
    let mut block_path: Vec<u64> = Vec::new();
    let mut entity: Option<u64> = None;
    let mut i: usize = 0;
    while i < links.len()
        invariant_except_break
            i <= links@.len(),
            entity is None,
            walk_from(links@, 0, None, Seq::empty()) == walk_from(links@, i as int, viewport, block_path@),
            i > 0 ==> (viewport is Some || !(links@[0].handle != 0 && links@[0].kind is Viewport)),
        ensures
            match entity {
                Some(e) => walk_from(links@, 0, None, Seq::empty()) == Ok::<(Option<u64>, Seq<u64>, Option<u64>), u64>((viewport, block_path@, Some(e))),
                None => walk_from(links@, 0, None, Seq::empty()) == Ok::<(Option<u64>, Seq<u64>, Option<u64>), u64>((viewport, block_path@, None)),
            },
        decreases links.len() - i,
    {
        let link = links[i];
        if link.handle != 0 {
            match link.kind {
                LinkKind::Missing => {
                    return Err(ChainError::Missing(link.handle));
                },
                LinkKind::Viewport if i == 0 && viewport.is_none() => {
                    viewport = Some(link.handle);
                },
                LinkKind::Insert => {
                    block_path.push(link.handle);
                },
                _ => {
                    entity = Some(link.handle);
                    break;
                },
            }
        }
        i += 1;
    }
    match entity {
        Some(e) => Ok(ReferenceChain { viewport, block_path, entity: e }),
        None => match block_path.pop() {
            Some(innermost) => Ok(ReferenceChain { viewport, block_path, entity: innermost }),
            None => Err(ChainError::Empty),
        },
    }
}

} // verus!
