//! Reading a native constraint group back as sketch constraints: the
//! references its geometry and implicit-point nodes stand for, the
//! constraints its constraint nodes stand for, and whether the group holds
//! anything this application cannot rebuild (so that a save keeps it).
use std::collections::HashMap;

use rustc_hash::FxBuildHasher;
use vstd::prelude::*;

use crate::constraint_graph::{CENTER_MARKER, POINT_CENTER, POINT_END, POINT_START, RefPart, SketchRef};
use crate::native_constraints::{ConstraintKind, NodeShape, constraint_kind_for, kind_for_class};
use crate::text::{ascii_upper_seq, chars_of, upper_ascii_char};

verus! {

/// The data of a native node, as far as reading constraints needs it.
pub enum ReadData {
    /// A geometry node. `dependent`: it names a geometry dependency;
    /// `entity`: the entity that dependency resolves to, when it is an
    /// entity of the node's kind; `point`: it is a point node; `segment`: the
    /// polyline segment a bounded-line node lies on, when its entity is a
    /// polyline; `point_count`: the number of points of the entity.
    Geometry { dependent: bool, entity: Option<u64>, point: bool, segment: Option<usize>, point_count: usize },
    /// An implicit point of type `point_type` on node `curve_id`.
    ImplicitPoint { point_type: u8, curve_id: i32 },
    /// A constraint node: its owner, whether it is active, its data shape
    /// and whether it carries a value dependency (angle, distance,
    /// radius/diameter data).
    Constraint { owner_id: i32, is_active: bool, shape: NodeShape, valued: bool },
    /// A rigid set.
    RigidSet,
    /// Any other node.
    Other,
}

/// A node of a native group.
pub struct ReadNode {
    pub node_id: i32,
    pub class_name: String,
    pub data: ReadData,
    pub connections: Vec<i32>,
}

/// A node of a native group as a value.
pub struct ReadView {
    pub node_id: i32,
    pub class_name: Seq<char>,
    pub data: ReadData,
    pub connections: Seq<i32>,
}

impl View for ReadNode {
    type V = ReadView;

    open spec fn view(&self) -> ReadView {
        ReadView { node_id: self.node_id, class_name: self.class_name@, data: self.data, connections: self.connections@ }
    }
}

/// The nodes of a group as values.
pub open spec fn read_views(nodes: Seq<ReadNode>) -> Seq<ReadView> {
    nodes.map_values(|n: ReadNode| n@)
}

/// A constraint read back from a node, before its driving value is known:
/// its kind, its references, the index of its node, and whether the node
/// carries a value dependency to read the driving value from.
pub struct ReadConstraint {
    pub kind: ConstraintKind,
    pub targets: Vec<SketchRef>,
    pub node_index: usize,
    pub valued: bool,
}

/// The reference each node of a group stands for, as an
/// `FxHashMap<i32, SketchRef>` holds it.
pub uninterp spec fn fx_refs(m: HashMap<i32, SketchRef, FxBuildHasher>) -> Map<i32, SketchRef>;

/// `FxHashMap::default()`: an empty map.
#[verifier::external_body]
fn fx_refs_new() -> (r: HashMap<i32, SketchRef, FxBuildHasher>)
    ensures
        (fx_refs(r) == Map::<i32, SketchRef>::empty()),
{
    HashMap::default()
}

/// `HashMap::get` on the reference map: the reference stored under the node
/// id, if any.
#[verifier::external_body]
fn fx_refs_get(m: &HashMap<i32, SketchRef, FxBuildHasher>, k: i32) -> (r: Option<SketchRef>)
    ensures
        r == (if fx_refs(*m).contains_key(k) { Some(fx_refs(*m)[k]) } else { None }),
{
    m.get(&k).copied()
}

/// `HashMap::insert` on the reference map: the node id now maps to the
/// reference.
#[verifier::external_body]
fn fx_refs_insert(m: &mut HashMap<i32, SketchRef, FxBuildHasher>, k: i32, v: SketchRef)
    ensures
        fx_refs(*final(m)) == fx_refs(*old(m)).insert(k, v),
{
    m.insert(k, v);
}

/// The reference a resolved geometry node stands for: its polyline
/// segment, point 0 of a point entity, or the whole entity.
pub open spec fn geometry_reference(entity: u64, point: bool, segment: Option<usize>) -> SketchRef {
    match segment {
        Some(index) => SketchRef { entity, part: RefPart::Segment(index) },
        None => if point {
            SketchRef { entity, part: RefPart::Point(0) }
        } else {
            SketchRef { entity, part: RefPart::Whole }
        },
    }
}

/// The references of the resolved geometry nodes among `nodes`, added to
/// `m` in order.
pub open spec fn geometry_refs(m: Map<i32, SketchRef>, nodes: Seq<ReadView>) -> Map<i32, SketchRef>
    decreases nodes.len(),
{
    if nodes.len() == 0 {
        m
    } else {
        let m1 = geometry_refs(m, nodes.drop_last());
        let node = nodes.last();
        match node.data {
            ReadData::Geometry { dependent, entity, point, segment, point_count } => match entity {
                Some(e) => if dependent {
                    m1.insert(node.node_id, geometry_reference(e, point, segment))
                } else {
                    m1
                },
                None => m1,
            },
            _ => m1,
        }
    }
}

/// The marker of an implicit point of type `point_type` on the curve
/// reference `curve`: on a segment, its start or end vertex (the end wraps
/// to the first vertex); on another curve 0, 1 or -3 for start, end and
/// center.
pub open spec fn point_marker(curve: SketchRef, point_type: u8, point_count: int) -> Option<i32> {
    match curve.part {
        RefPart::Segment(segment) => if point_type == POINT_START {
            Some(segment as i32)
        } else if point_type == POINT_END && point_count > 0 {
            Some(((segment + 1) % point_count) as i32)
        } else {
            None
        },
        _ => if point_type == POINT_START {
            Some(0)
        } else if point_type == POINT_END {
            Some(1)
        } else if point_type == POINT_CENTER {
            Some(CENTER_MARKER)
        } else {
            None
        },
    }
}

/// The number of points of the entity of the first resolved geometry node
/// for `entity` among `nodes`; 0 when there is none.
pub open spec fn entity_point_count(nodes: Seq<ReadView>, entity: u64) -> int
    decreases nodes.len(),
{
    if nodes.len() == 0 {
        0
    } else {
        match nodes[0].data {
            ReadData::Geometry { dependent, entity: Some(e), point, segment, point_count } if dependent && e == entity => point_count as int,
            _ => entity_point_count(nodes.drop_first(), entity),
        }
    }
}

/// The references of the implicit points among `nodes[..k]`, added to `m`
/// in order: each on the curve its curve node stands for at that moment.
pub open spec fn point_refs(m: Map<i32, SketchRef>, all: Seq<ReadView>, nodes: Seq<ReadView>) -> Map<i32, SketchRef>
    decreases nodes.len(),
{
    if nodes.len() == 0 {
        m
    } else {
        let m1 = point_refs(m, all, nodes.drop_last());
        let node = nodes.last();
        match node.data {
            ReadData::ImplicitPoint { point_type, curve_id } => if m1.contains_key(curve_id) {
                let curve = m1[curve_id];
                match point_marker(curve, point_type, entity_point_count(all, curve.entity)) {
                    Some(marker) => m1.insert(node.node_id, SketchRef { entity: curve.entity, part: RefPart::Point(marker) }),
                    None => m1,
                }
            } else {
                m1
            },
            _ => m1,
        }
    }
}

/// The reference each node of a group stands for.
pub open spec fn node_refs(nodes: Seq<ReadView>) -> Map<i32, SketchRef> {
    point_refs(geometry_refs(Map::empty(), nodes), nodes, nodes)
}

/// The kind a node stands for: its class name, upper-cased, with its data
/// shape (a node without constraint data reads as a geometrical one).
pub open spec fn node_kind(node: ReadView) -> Option<ConstraintKind> {
    kind_for_class(
        ascii_upper_seq(node.class_name),
        match node.data {
            ReadData::Constraint { shape, .. } => shape,
            _ => NodeShape::Geometrical,
        },
    )
}

/// Whether a node is active: constraint data says so, other nodes are.
pub open spec fn node_active(node: ReadView) -> bool {
    match node.data {
        ReadData::Constraint { is_active, .. } => is_active,
        _ => true,
    }
}

/// Whether a node carries a value dependency.
pub open spec fn node_valued(node: ReadView) -> bool {
    match node.data {
        ReadData::Constraint { valued, .. } => valued,
        _ => false,
    }
}

/// The references of the connections that stand for nodes, in order.
pub open spec fn connected_refs(refs: Map<i32, SketchRef>, connections: Seq<i32>) -> Seq<SketchRef>
    decreases connections.len(),
{
    if connections.len() == 0 {
        Seq::empty()
    } else {
        let rest = connected_refs(refs, connections.drop_last());
        if refs.contains_key(connections.last()) {
            rest.push(refs[connections.last()])
        } else {
            rest
        }
    }
}

/// The references of a constraint node: those of its connections, with
/// its owner's put first when the connections do not already hold it.
pub open spec fn node_targets(refs: Map<i32, SketchRef>, node: ReadView) -> Seq<SketchRef> {
    let targets = connected_refs(refs, node.connections);
    match node.data {
        ReadData::Constraint { owner_id, .. } => if refs.contains_key(owner_id) && !targets.contains(refs[owner_id]) {
            seq![refs[owner_id]] + targets
        } else {
            targets
        },
        _ => targets,
    }
}

/// The constraint a node stands for, before its driving value and its
/// number of references are checked: `None` for a node of no constraint
/// kind, an inactive one, and a point-on-curve or center-point relation
/// between a point and its own curve.
pub open spec fn node_constraint(refs: Map<i32, SketchRef>, node: ReadView) -> Option<(ConstraintKind, Seq<SketchRef>)> {
    match node_kind(node) {
        Some(kind) => if !node_active(node) {
            None
        } else {
            let targets = node_targets(refs, node);
            if (kind == ConstraintKind::PointOnCurve || kind == ConstraintKind::CenterPoint) && targets.len() == 2
                && targets[0].entity == targets[1].entity {
                None
            } else {
                Some((kind, targets))
            }
        },
        None => None,
    }
}

/// The constraints the nodes stand for, in node order, as (kind,
/// references, node index, valued).
pub open spec fn read_spec(nodes: Seq<ReadView>, refs: Map<i32, SketchRef>, k: int) -> Seq<(ConstraintKind, Seq<SketchRef>, usize, bool)>
    decreases k,
{
    if k <= 0 {
        Seq::empty()
    } else {
        let rest = read_spec(nodes, refs, k - 1);
        match node_constraint(refs, nodes[k - 1]) {
            Some((kind, targets)) => rest.push((kind, targets, (k - 1) as usize, node_valued(nodes[k - 1]))),
            None => rest,
        }
    }
}

/// A constraint as a value.
pub open spec fn read_view(c: ReadConstraint) -> (ConstraintKind, Seq<SketchRef>, usize, bool) {
    (c.kind, c.targets@, c.node_index, c.valued)
}

/// The number of references a read-back constraint of `kind` must have:
/// one for fixed, radius and diameter, three for symmetric, four for equal
/// distance, two otherwise; horizontal and vertical take one or two.
pub open spec fn reference_count_fits(kind: ConstraintKind, count: int) -> bool {
    match kind {
        ConstraintKind::Horizontal | ConstraintKind::Vertical => count == 1 || count == 2,
        ConstraintKind::Fixed | ConstraintKind::Radius | ConstraintKind::Diameter => count == 1,
        ConstraintKind::Symmetric => count == 3,
        ConstraintKind::EqualDistance => count == 4,
        _ => count == 2,
    }
}

/// Whether the constraint kind needs a driving value.
pub open spec fn needs_driving(kind: ConstraintKind) -> bool {
    match kind {
        ConstraintKind::Distance | ConstraintKind::DistanceX | ConstraintKind::DistanceY | ConstraintKind::Angle
        | ConstraintKind::Radius | ConstraintKind::Diameter => true,
        _ => false,
    }
}

/// Whether a read-back constraint is kept: its number of references fits
/// its kind, and a dimensional one has a driving value.
pub fn accepts_constraint(kind: ConstraintKind, count: usize, has_driving: bool) -> (r: bool)
    ensures
        r == (reference_count_fits(kind, count as int) && (needs_driving(kind) ==> has_driving)),
{
    let expected: usize = match kind {
        ConstraintKind::Fixed | ConstraintKind::Radius | ConstraintKind::Diameter => 1,
        ConstraintKind::Symmetric => 3,
        ConstraintKind::EqualDistance => 4,
        _ => 2,
    };
    let horizontal_or_vertical = matches!(kind, ConstraintKind::Horizontal | ConstraintKind::Vertical);
    if (horizontal_or_vertical && count != 1 && count != 2) || (!horizontal_or_vertical && count != expected) {
        return false;
    }
    if matches!(
        kind,
        ConstraintKind::Distance | ConstraintKind::DistanceX | ConstraintKind::DistanceY | ConstraintKind::Angle
            | ConstraintKind::Radius | ConstraintKind::Diameter
    ) && !has_driving {
        return false;
    }
    true
}

/// The number of points of the entity of the first resolved geometry node
/// for `entity`.
fn point_count_of(nodes: &Vec<ReadNode>, entity: u64) -> (r: usize)
    ensures
        r == entity_point_count(read_views(nodes@), entity),
{
    let ghost v = read_views(nodes@);
    let mut i: usize = 0;
    assert(v.skip(0) =~= v);
    while i < nodes.len()
        invariant
            i <= nodes@.len(),
            v == read_views(nodes@),
            entity_point_count(v, entity) == entity_point_count(v.skip(i as int), entity),
        decreases nodes.len() - i,
    {
        assert(v.skip(i as int)[0] == nodes@[i as int]@);
        match &nodes[i].data {
            ReadData::Geometry { dependent, entity: Some(e), point_count, .. } => {
                if *dependent && *e == entity {
                    return *point_count;
                }
            },
            _ => {},
        }
        assert(v.skip(i as int).drop_first() =~= v.skip(i as int + 1));
        i += 1;
    }
    0
}

/// The reference each node of a group stands for: first the resolved
/// geometry nodes, then the implicit points on them, in node order.
fn reference_map(nodes: &Vec<ReadNode>) -> (m: HashMap<i32, SketchRef, FxBuildHasher>)
    ensures
        fx_refs(m) == node_refs(read_views(nodes@)),
{
    let ghost v = read_views(nodes@);
    let mut m = fx_refs_new();
    let mut i: usize = 0;
    assert(v.take(0) =~= Seq::<ReadView>::empty());
    while i < nodes.len()
        invariant
            i <= nodes@.len(),
            v == read_views(nodes@),
            fx_refs(m) == geometry_refs(Map::empty(), v.take(i as int)),
        decreases nodes.len() - i,
    {
        assert(v.take(i as int + 1).drop_last() =~= v.take(i as int));
        assert(v[i as int] == nodes@[i as int]@);
        let node = &nodes[i];
        match &node.data {
            ReadData::Geometry { dependent, entity: Some(e), point, segment, .. } => {
                if *dependent {
                    let reference = match segment {
                        Some(index) => SketchRef { entity: *e, part: RefPart::Segment(*index) },
                        None => if *point {
                            SketchRef { entity: *e, part: RefPart::Point(0) }
                        } else {
                            SketchRef { entity: *e, part: RefPart::Whole }
                        },
                    };
                    fx_refs_insert(&mut m, node.node_id, reference);
                }
            },
            _ => {},
        }
        i += 1;
    }
    assert(v.take(i as int) =~= v);
    let ghost base = fx_refs(m);
    let mut i: usize = 0;
    assert(v.take(0) =~= Seq::<ReadView>::empty());
    while i < nodes.len()
        invariant
            i <= nodes@.len(),
            v == read_views(nodes@),
            base == geometry_refs(Map::empty(), v),
            fx_refs(m) == point_refs(base, v, v.take(i as int)),
        decreases nodes.len() - i,
    {
        assert(v.take(i as int + 1).drop_last() =~= v.take(i as int));
        assert(v[i as int] == nodes@[i as int]@);
        let node = &nodes[i];
        match &node.data {
            ReadData::ImplicitPoint { point_type, curve_id } => {
                if let Some(curve) = fx_refs_get(&m, *curve_id) {
                    let count = point_count_of(nodes, curve.entity);
                    let marker: Option<i32> = match curve.part {
                        RefPart::Segment(segment) => if *point_type == POINT_START {
                            Some(segment as i32)
                        } else if *point_type == POINT_END && count > 0 {
                            Some(((segment as u128 + 1) % (count as u128)) as i32)
                        } else {
                            None
                        },
                        _ => if *point_type == POINT_START {
                            Some(0)
                        } else if *point_type == POINT_END {
                            Some(1)
                        } else if *point_type == POINT_CENTER {
                            Some(CENTER_MARKER)
                        } else {
                            None
                        },
                    };
                    if let Some(marker) = marker {
                        fx_refs_insert(&mut m, node.node_id, SketchRef { entity: curve.entity, part: RefPart::Point(marker) });
                    }
                }
            },
            _ => {},
        }
        i += 1;
    }
    assert(v.take(i as int) =~= v);
    m
}

/// The kind a node stands for.
fn read_node_kind(node: &ReadNode) -> (r: Option<ConstraintKind>)
    ensures
        r == node_kind(node@),
{
    let shape = match &node.data {
        ReadData::Constraint { shape, .. } => *shape,
        _ => NodeShape::Geometrical,
    };
    constraint_kind_for(node.class_name.as_str(), shape)
}

/// Whether `targets` holds `r`.
fn holds_ref(targets: &Vec<SketchRef>, r: SketchRef) -> (b: bool)
    ensures
        b == targets@.contains(r),
{
    let mut i: usize = 0;
    while i < targets.len()
        invariant
            i <= targets@.len(),
            forall|k: int| 0 <= k < i ==> targets@[k] != r,
        decreases targets.len() - i,
    {
        if targets[i] == r {
            return true;
        }
        i += 1;
    }
    false
}

/// The references of a constraint node.
fn read_targets(refs: &HashMap<i32, SketchRef, FxBuildHasher>, node: &ReadNode) -> (targets: Vec<SketchRef>)
    ensures
        targets@ == node_targets(fx_refs(*refs), node@),
{
    let mut targets: Vec<SketchRef> = Vec::new();
    let mut i: usize = 0;
    assert(node.connections@.take(0) =~= Seq::<i32>::empty());
    while i < node.connections.len()
        invariant
            i <= node.connections@.len(),
            targets@ == connected_refs(fx_refs(*refs), node.connections@.take(i as int)),
        decreases node.connections.len() - i,
    {
        assert(node.connections@.take(i as int + 1).drop_last() =~= node.connections@.take(i as int));
        if let Some(r) = fx_refs_get(refs, node.connections[i]) {
            targets.push(r);
        }
        i += 1;
    }
    assert(node.connections@.take(i as int) =~= node.connections@);
    if let ReadData::Constraint { owner_id, .. } = &node.data {
        if let Some(owner) = fx_refs_get(refs, *owner_id) {
            if !holds_ref(&targets, owner) {
                targets.insert(0, owner);
                assert(targets@ =~= seq![owner] + connected_refs(fx_refs(*refs), node.connections@));
            }
        }
    }
    targets
}

/// The constraints a native group's nodes stand for, in node order, before
/// their driving values are read: each with its kind, its references, its
/// node's index and whether that node carries a value dependency. Nodes of
/// no constraint kind, inactive ones, and point-on-curve or center-point
/// relations between a point and its own curve give none.
pub fn read_constraints(nodes: &Vec<ReadNode>) -> (r: Vec<ReadConstraint>)
    ensures
        r@.map_values(|c: ReadConstraint| read_view(c)) == read_spec(read_views(nodes@), node_refs(read_views(nodes@)), nodes@.len() as int),
{
    let refs = reference_map(nodes);
    let ghost v = read_views(nodes@);
    let ghost m = node_refs(v);
    let mut out: Vec<ReadConstraint> = Vec::new();
    let mut i: usize = 0;
    while i < nodes.len()
        invariant
            i <= nodes@.len(),
            fx_refs(refs) == m,
            v == read_views(nodes@),
            out@.map_values(|c: ReadConstraint| read_view(c)) == read_spec(v, m, i as int),
        decreases nodes.len() - i,
    {
        let node = &nodes[i];
        assert(v[i as int] == nodes@[i as int]@);
        let ghost before = out@;
        if let Some(kind) = read_node_kind(node) {
            let active = match &node.data {
                ReadData::Constraint { is_active, .. } => *is_active,
                _ => true,
            };
            if active {
                let targets = read_targets(&refs, node);
                let same_entity_relation = (kind == ConstraintKind::PointOnCurve || kind == ConstraintKind::CenterPoint)
                    && targets.len() == 2 && targets[0].entity == targets[1].entity;
                if !same_entity_relation {
                    let valued = match &node.data {
                        ReadData::Constraint { valued, .. } => *valued,
                        _ => false,
                    };
                    out.push(ReadConstraint { kind, targets, node_index: i, valued });
                    assert(out@.map_values(|c: ReadConstraint| read_view(c)) =~= before.map_values(|c: ReadConstraint| read_view(c)).push(
                        read_view(out@.last()),
                    ));
                }
            }
        }
        i += 1;
    }
    out
}

/// Whether a class name, upper-cased, ends with `CONSTRAINT`.
pub open spec fn names_a_constraint(class_name: Seq<char>) -> bool {
    let upper = ascii_upper_seq(class_name);
    upper.len() >= 10 && upper.subrange(upper.len() - 10, upper.len() as int) == "CONSTRAINT"@
}

/// Whether a node keeps its group from being rebuilt: a rigid set, a
/// geometry node whose dependency does not resolve to an entity of its
/// kind, or a node whose class names a constraint this application does
/// not know.
pub open spec fn node_requires_preservation(node: ReadView) -> bool {
    ||| node.data is RigidSet
    ||| (node.data matches ReadData::Geometry { dependent, entity, .. } && dependent && entity is None)
    ||| (names_a_constraint(node.class_name) && node_kind(node) is None)
}

/// Whether the class name ends with `CONSTRAINT`, in any ASCII case.
fn ends_with_constraint(class_name: &str) -> (r: bool)
    ensures
        r == names_a_constraint(class_name@),
{
    proof {
        reveal_strlit("CONSTRAINT");
    }
    let chars = chars_of(class_name);
    let suffix = chars_of("CONSTRAINT");
    if chars.len() < 10 {
        return false;
    }
    let start = chars.len() - 10;
    let mut k: usize = 0;
    while k < 10
        invariant
            k <= 10,
            chars@ == class_name@,
            suffix@ == "CONSTRAINT"@,
            suffix@.len() == 10,
            chars@.len() >= 10,
            start + 10 == chars@.len(),
            start + 10 == chars.len(),
            forall|j: int| 0 <= j < k ==> ascii_upper_seq(class_name@)[start + j] == suffix@[j],
        decreases 10 - k,
    {
        if upper_ascii_char(chars[start + k]) != suffix[k] {
            assert(ascii_upper_seq(class_name@).subrange(start as int, chars@.len() as int)[k as int] != "CONSTRAINT"@[k as int]);
            return false;
        }
        k += 1;
    }
    assert(ascii_upper_seq(class_name@).subrange(start as int, chars@.len() as int) =~= "CONSTRAINT"@);
    true
}

/// Whether a native group must be kept as it is rather than rebuilt from
/// this application's constraints: some node holds what cannot be
/// rebuilt.
pub fn requires_preservation(nodes: &Vec<ReadNode>) -> (r: bool)
    ensures
        r == exists|i: int| 0 <= i < nodes@.len() && node_requires_preservation(#[trigger] nodes@[i]@),
{
    let mut i: usize = 0;
    while i < nodes.len()
        invariant
            i <= nodes@.len(),
            forall|j: int| 0 <= j < i ==> !node_requires_preservation(#[trigger] nodes@[j]@),
        decreases nodes.len() - i,
    {
        let node = &nodes[i];
        let preserved = match &node.data {
            ReadData::RigidSet => true,
            ReadData::Geometry { dependent, entity, .. } => *dependent && entity.is_none(),
            _ => false,
        } || (ends_with_constraint(node.class_name.as_str()) && read_node_kind(node).is_none());
        if preserved {
            assert(node_requires_preservation(nodes@[i as int]@));
            return true;
        }
        i += 1;
    }
    false
}

} // verus!
