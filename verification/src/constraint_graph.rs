//! The native constraint group of one sketch scope as a graph: a geometry
//! node per constrained entity, implicit-point nodes for the points the
//! constraints name, segment nodes for polyline segments, datum lines for
//! horizontal and vertical constraints, one node per constraint, and
//! undirected edges between them. Node ids start at 1; id 0 stays reserved
//! as "no node".
use std::collections::HashMap;

use rustc_hash::FxBuildHasher;
use vstd::prelude::*;

use crate::native_constraints::{ConstraintKind, NodeShape, native_node, native_node_spec};

verus! {

/// Implicit-point type of a curve's start point.
pub const POINT_START: u8 = 0;

/// Implicit-point type of a curve's end point.
pub const POINT_END: u8 = 1;

/// Implicit-point type of a curve's center.
pub const POINT_CENTER: u8 = 3;

/// Marker of a center point in a sketch reference.
pub const CENTER_MARKER: i32 = -3;

/// What the graph needs to know of a drawing entity.
pub enum EntityShape {
    /// An entity located by one point: a point, a block reference, a text,
    /// a multiline text, an attribute definition, an attribute or a table.
    PointLike,
    Line,
    Circle,
    Arc,
    /// An ellipse, full or bounded by a start and an end parameter.
    Ellipse { full: bool },
    /// A lightweight or 2D polyline: whether it is closed, and for each
    /// vertex whether the segment that starts there is straight.
    Polyline { closed: bool, straight: Vec<bool> },
    /// Any other entity; it never becomes a node.
    Other,
}

/// A drawing entity by handle.
pub struct DrawingEntity {
    pub handle: u64,
    pub shape: EntityShape,
}

/// Which part of an entity a sketch constraint refers to.
#[derive(Clone, Copy, Debug, PartialEq, Eq, Structural)]
pub enum RefPart {
    /// The whole entity.
    Whole,
    /// A named point: 0 start, 1 end, -3 center; on a polyline the index
    /// of a vertex.
    Point(i32),
    /// A segment of a polyline, by the index of its start vertex.
    Segment(usize),
}

/// A sketch constraint's reference to (part of) an entity.
#[derive(Clone, Copy, Debug, PartialEq, Eq, Structural)]
pub struct SketchRef {
    pub entity: u64,
    pub part: RefPart,
}

/// A persistent sketch constraint, as far as its native node depends on it.
pub struct SketchConstraint {
    pub kind: ConstraintKind,
    pub refs: Vec<SketchRef>,
    pub enabled: bool,
}

/// What a node of the group stands for.
#[derive(Clone, Copy, Debug, PartialEq, Eq, Structural)]
pub enum NodeRole {
    /// The whole geometry of an entity.
    Geometry { entity: u64 },
    /// A straight segment of a polyline.
    Segment { entity: u64, index: usize },
    /// A point of a curve node: point `marker` of entity `entity`.
    ImplicitPoint { point_type: u8, curve_id: i32, entity: u64, marker: i32 },
    /// The relation that ties an implicit point to its curve.
    PointRelation,
    /// The horizontal or the vertical datum line.
    Datum { horizontal: bool },
    /// A constraint of kind `kind`: its owner node, its data shape and, for
    /// horizontal and vertical constraints, its datum line.
    Constraint { kind: ConstraintKind, owner_id: i32, shape: NodeShape, datum: Option<i32> },
}

/// One node of the group.
pub struct GraphNode {
    pub node_id: i32,
    pub class_name: &'static str,
    pub role: NodeRole,
    pub connections: Vec<i32>,
}

/// A node as a value: its connections as a sequence.
pub struct NodeView {
    pub node_id: i32,
    pub class_name: &'static str,
    pub role: NodeRole,
    pub connections: Seq<i32>,
}

impl View for GraphNode {
    type V = NodeView;

    open spec fn view(&self) -> NodeView {
        NodeView {
            node_id: self.node_id,
            class_name: self.class_name,
            role: self.role,
            connections: self.connections@,
        }
    }
}

/// The group under construction: its nodes, the node of each entity's
/// geometry, of each named point and of each polyline segment, the entities
/// that got a geometry or segment node (in first-touch order) and the two
/// datum lines.
pub struct GraphState {
    pub graph: Seq<NodeView>,
    pub geometry: Map<u64, i32>,
    pub points: Map<(u64, i32), i32>,
    pub segments: Map<(u64, usize), i32>,
    pub referenced: Seq<u64>,
    pub horizontal_datum: Option<i32>,
    pub vertical_datum: Option<i32>,
}

/// The shape of the first entity with handle `h`.
pub open spec fn shape_of(entities: Seq<DrawingEntity>, h: u64) -> Option<EntityShape>
    decreases entities.len(),
{
    if entities.len() == 0 {
        None
    } else if entities[0].handle == h {
        Some(entities[0].shape)
    } else {
        shape_of(entities.drop_first(), h)
    }
}

/// The class of the whole-geometry node of an entity, when it has one.
pub open spec fn geometry_class(shape: EntityShape) -> Option<&'static str> {
    match shape {
        EntityShape::PointLike => Some("AcConstrainedPoint"),
        EntityShape::Line => Some("AcConstrainedBoundedLine"),
        EntityShape::Circle => Some("AcConstrainedCircle"),
        EntityShape::Arc => Some("AcConstrainedArc"),
        EntityShape::Ellipse { full } => if full {
            Some("AcConstrainedEllipse")
        } else {
            Some("AcConstrainedBoundedEllipse")
        },
        _ => None,
    }
}

/// The empty group.
pub open spec fn empty_state() -> GraphState {
    GraphState {
        graph: Seq::empty(),
        geometry: Map::empty(),
        points: Map::empty(),
        segments: Map::empty(),
        referenced: Seq::empty(),
        horizontal_datum: None,
        vertical_datum: None,
    }
}

/// The id the next node gets.
pub open spec fn next_id(s: GraphState) -> int {
    s.graph.len() as int + 1
}

/// A node without connections.
pub open spec fn new_node(id: int, class_name: &'static str, role: NodeRole) -> NodeView {
    NodeView { node_id: id as i32, class_name, role, connections: Seq::empty() }
}

/// `node` with one more connection, to `to`.
pub open spec fn linked(node: NodeView, to: i32) -> NodeView {
    NodeView {
        node_id: node.node_id,
        class_name: node.class_name,
        role: node.role,
        connections: node.connections.push(to),
    }
}

/// The undirected edge between nodes `a` and `b`, recorded on both.
pub open spec fn with_edge(g: Seq<NodeView>, a: i32, b: i32) -> Seq<NodeView> {
    let g1 = g.update(a - 1, linked(g[a - 1], b));
    g1.update(b - 1, linked(g1[b - 1], a))
}

/// Edges from node `id` to each of `targets`, in order.
pub open spec fn with_edges(g: Seq<NodeView>, id: i32, targets: Seq<i32>) -> Seq<NodeView>
    decreases targets.len(),
{
    if targets.len() == 0 {
        g
    } else {
        with_edge(with_edges(g, id, targets.drop_last()), id, targets.last())
    }
}

/// `h` appended to the referenced entities unless already there.
pub open spec fn touched(referenced: Seq<u64>, h: u64) -> Seq<u64> {
    if referenced.contains(h) {
        referenced
    } else {
        referenced.push(h)
    }
}

/// The whole-geometry node of entity `h`: the one it already has, or a new
/// one when the entity has a geometry class; `None` otherwise.
pub open spec fn geometry_step(s: GraphState, entities: Seq<DrawingEntity>, h: u64) -> (GraphState, Option<i32>) {
    if s.geometry.contains_key(h) {
        (s, Some(s.geometry[h]))
    } else {
        match shape_of(entities, h) {
            Some(shape) => match geometry_class(shape) {
                Some(class_name) => {
                    let id = next_id(s);
                    (
                        GraphState {
                            graph: s.graph.push(new_node(id, class_name, NodeRole::Geometry { entity: h })),
                            geometry: s.geometry.insert(h, id as i32),
                            referenced: touched(s.referenced, h),
                            ..s
                        },
                        Some(id as i32),
                    )
                },
                None => (s, None),
            },
            None => (s, None),
        }
    }
}

/// Whether segment `index` of a polyline exists and is straight: its start
/// vertex exists with no bulge, and it has an end vertex (the next one, or
/// the first for a closed polyline).
pub open spec fn straight_segment(closed: bool, straight: Seq<bool>, index: int) -> bool {
    &&& 0 <= index < straight.len()
    &&& straight[index]
    &&& (index + 1 < straight.len() || closed)
}

/// The node of segment `index` of polyline `h`: the one it already has, or
/// a new bounded-line node when the segment is a straight one.
pub open spec fn segment_step(s: GraphState, entities: Seq<DrawingEntity>, h: u64, index: usize) -> (GraphState, Option<i32>) {
    if s.segments.contains_key((h, index)) {
        (s, Some(s.segments[(h, index)]))
    } else {
        match shape_of(entities, h) {
            Some(EntityShape::Polyline { closed, straight }) => if straight_segment(closed, straight@, index as int) {
                let id = next_id(s);
                (
                    GraphState {
                        graph: s.graph.push(new_node(id, "AcConstrainedBoundedLine", NodeRole::Segment { entity: h, index })),
                        segments: s.segments.insert((h, index), id as i32),
                        referenced: touched(s.referenced, h),
                        ..s
                    },
                    Some(id as i32),
                )
            } else {
                (s, None)
            },
            _ => (s, None),
        }
    }
}

/// A new implicit point of type `point_type` on node `curve`, for marker
/// `marker` of entity `h`, with its point-curve (or center-point) relation
/// node connected to both.
pub open spec fn add_point(s: GraphState, h: u64, marker: i32, curve: i32, point_type: u8) -> GraphState {
    let id = next_id(s);
    let relation = id + 1;
    let g = s.graph.push(new_node(id, "AcConstrainedImplicitPoint", NodeRole::ImplicitPoint { point_type, curve_id: curve, entity: h, marker })).push(
        new_node(
            relation,
            if point_type == POINT_CENTER { "AcCenterPointConstraint" } else { "AcPointCurveConstraint" },
            NodeRole::PointRelation,
        ),
    );
    GraphState {
        graph: with_edge(with_edge(g, relation as i32, id as i32), relation as i32, curve),
        points: s.points.insert((h, marker), id as i32),
        ..s
    }
}

/// The implicit-point type of a marker on a curve that is not a polyline.
pub open spec fn curve_point_type(marker: i32) -> Option<u8> {
    if marker == 0 {
        Some(POINT_START)
    } else if marker == 1 {
        Some(POINT_END)
    } else if marker == CENTER_MARKER {
        Some(POINT_CENTER)
    } else {
        None
    }
}

/// The node of point `marker` of entity `h`. On a polyline, a vertex is the
/// start of the segment that begins there, or, for the last vertex of an
/// open polyline, the end of the segment before it. On another curve the
/// marker names its start, end or center. The curve's own node is made
/// first, even when the marker then turns out to name no point.
pub open spec fn point_step(s: GraphState, entities: Seq<DrawingEntity>, h: u64, marker: i32) -> (GraphState, Option<i32>) {
    if s.points.contains_key((h, marker)) {
        (s, Some(s.points[(h, marker)]))
    } else {
        match shape_of(entities, h) {
            Some(EntityShape::Polyline { closed, straight }) if marker >= 0 => {
                let n = straight@.len();
                let vertex = marker as int;
                if vertex >= n {
                    (s, None)
                } else if vertex + 1 < n || closed {
                    let (s1, curve) = segment_step(s, entities, h, vertex as usize);
                    match curve {
                        Some(c) => (add_point(s1, h, marker, c, POINT_START), Some(next_id(s1) as i32)),
                        None => (s1, None),
                    }
                } else if vertex >= 1 {
                    let (s1, curve) = segment_step(s, entities, h, (vertex - 1) as usize);
                    match curve {
                        Some(c) => (add_point(s1, h, marker, c, POINT_END), Some(next_id(s1) as i32)),
                        None => (s1, None),
                    }
                } else {
                    (s, None)
                }
            },
            _ => {
                let (s1, curve) = geometry_step(s, entities, h);
                match curve {
                    Some(c) => match curve_point_type(marker) {
                        Some(t) => (add_point(s1, h, marker, c, t), Some(next_id(s1) as i32)),
                        None => (s1, None),
                    },
                    None => (s1, None),
                }
            },
        }
    }
}

/// Whether `shape` is located by a single point.
pub open spec fn is_point_like(shape: Option<EntityShape>) -> bool {
    shape matches Some(EntityShape::PointLike)
}

/// The node a reference resolves to: a segment node for a segment, the
/// geometry node for the whole entity or for point 0 of a point-like
/// entity, an implicit-point node for another named point.
pub open spec fn ref_step(s: GraphState, entities: Seq<DrawingEntity>, r: SketchRef) -> (GraphState, Option<i32>) {
    match r.part {
        RefPart::Segment(index) => segment_step(s, entities, r.entity, index),
        RefPart::Point(marker) => if marker == 0 && is_point_like(shape_of(entities, r.entity)) {
            geometry_step(s, entities, r.entity)
        } else {
            point_step(s, entities, r.entity, marker)
        },
        RefPart::Whole => geometry_step(s, entities, r.entity),
    }
}

/// Resolves every reference in order, keeping the nodes of those that
/// resolve.
pub open spec fn resolve_each(s: GraphState, entities: Seq<DrawingEntity>, refs: Seq<SketchRef>) -> (GraphState, Seq<i32>)
    decreases refs.len(),
{
    if refs.len() == 0 {
        (s, Seq::empty())
    } else {
        let (s1, ids) = resolve_each(s, entities, refs.drop_last());
        let (s2, r) = ref_step(s1, entities, refs.last());
        (s2, match r { Some(id) => ids.push(id), None => ids })
    }
}

/// Resolves the references in order up to the first that does not resolve;
/// `None` when one does not.
pub open spec fn resolve_all(s: GraphState, entities: Seq<DrawingEntity>, refs: Seq<SketchRef>) -> (GraphState, Option<Seq<i32>>)
    decreases refs.len(),
{
    if refs.len() == 0 {
        (s, Some(Seq::empty()))
    } else {
        let (s1, ids) = resolve_all(s, entities, refs.drop_last());
        match ids {
            Some(ids) => {
                let (s2, r) = ref_step(s1, entities, refs.last());
                match r {
                    Some(id) => (s2, Some(ids.push(id))),
                    None => (s2, None),
                }
            },
            None => (s1, None),
        }
    }
}

/// The horizontal or vertical datum line: the one already made, or a new
/// one.
pub open spec fn datum_step(s: GraphState, horizontal: bool) -> (GraphState, i32) {
    let cached = if horizontal { s.horizontal_datum } else { s.vertical_datum };
    match cached {
        Some(id) => (s, id),
        None => {
            let id = next_id(s);
            let g = s.graph.push(new_node(id, "AcConstrainedDatumLine", NodeRole::Datum { horizontal }));
            if horizontal {
                (GraphState { graph: g, horizontal_datum: Some(id as i32), ..s }, id as i32)
            } else {
                (GraphState { graph: g, vertical_datum: Some(id as i32), ..s }, id as i32)
            }
        },
    }
}

/// A new constraint node connected to each of `targets`, owned by the first.
pub open spec fn add_constraint(s: GraphState, kind: ConstraintKind, class_name: &'static str, shape: NodeShape, datum: Option<i32>, targets: Seq<i32>) -> GraphState {
    let id = next_id(s);
    let g = s.graph.push(new_node(id, class_name, NodeRole::Constraint { kind, owner_id: targets[0], shape, datum }));
    GraphState { graph: with_edges(g, id as i32, targets), ..s }
}

/// Whether a reference names a straight piece of geometry: a line, or a
/// segment of a polyline.
pub open spec fn is_straight(entities: Seq<DrawingEntity>, r: SketchRef) -> bool {
    match shape_of(entities, r.entity) {
        Some(EntityShape::Line) => true,
        Some(EntityShape::Polyline { .. }) => r.part is Segment,
        _ => false,
    }
}

/// Whether the constraint kind carries a driving value.
pub open spec fn is_dimensional(kind: ConstraintKind) -> bool {
    match kind {
        ConstraintKind::Distance | ConstraintKind::DistanceX | ConstraintKind::DistanceY | ConstraintKind::Angle
        | ConstraintKind::Radius | ConstraintKind::Diameter => true,
        _ => false,
    }
}

/// The node of one constraint, added after the nodes of its references.
/// A geometrical constraint resolves every reference and needs all of them;
/// the others stop at the first reference that does not resolve. Radius and
/// diameter use the first reference only; the other two-place kinds need
/// exactly two references, horizontal and vertical one or two (and then get
/// their datum line). `None`, with the nodes made so far kept, when the
/// constraint has no native node or a reference does not resolve.
pub open spec fn constraint_step(s: GraphState, entities: Seq<DrawingEntity>, kind: ConstraintKind, refs: Seq<SketchRef>) -> (GraphState, Option<i32>) {
    let native = native_node_spec(kind, refs.len(), refs.len() == 2 && is_straight(entities, refs[0]) && is_straight(entities, refs[1]));
    match kind {
        ConstraintKind::Horizontal | ConstraintKind::Vertical => if refs.len() == 1 || refs.len() == 2 {
            let (s1, ids) = resolve_all(s, entities, refs);
            match ids {
                Some(targets) => {
                    let (s2, datum) = datum_step(s1, kind == ConstraintKind::Horizontal);
                    (add_constraint(s2, kind, native->0.class_name, native->0.shape, Some(datum), targets), Some(next_id(s2) as i32))
                },
                None => (s1, None),
            }
        } else {
            (s, None)
        },
        ConstraintKind::Radius | ConstraintKind::Diameter => if refs.len() >= 1 {
            let (s1, ids) = resolve_all(s, entities, refs.take(1));
            match ids {
                Some(targets) => (add_constraint(s1, kind, native->0.class_name, native->0.shape, None, targets), Some(next_id(s1) as i32)),
                None => (s1, None),
            }
        } else {
            (s, None)
        },
        ConstraintKind::Parallel | ConstraintKind::Equal | ConstraintKind::Distance | ConstraintKind::DistanceX
        | ConstraintKind::DistanceY | ConstraintKind::Angle => if refs.len() == 2 {
            let (s1, ids) = resolve_all(s, entities, refs);
            match ids {
                Some(targets) => (add_constraint(s1, kind, native->0.class_name, native->0.shape, None, targets), Some(next_id(s1) as i32)),
                None => (s1, None),
            }
        } else {
            (s, None)
        },
        ConstraintKind::ArcLength => (s, None),
        _ => {
            let (s1, targets) = resolve_each(s, entities, refs);
            if targets.len() == refs.len() && refs.len() > 0 {
                (add_constraint(s1, kind, native->0.class_name, native->0.shape, None, targets), Some(next_id(s1) as i32))
            } else {
                (s1, None)
            }
        },
    }
}

/// Node `i` (counting from 0) has id `i + 1`.
pub open spec fn ids_in_order(g: Seq<NodeView>) -> bool {
    forall|i: int| 0 <= i < g.len() ==> #[trigger] g[i].node_id == i + 1
}

/// `id` names a node of `g`.
pub open spec fn valid_id(g: Seq<NodeView>, id: i32) -> bool {
    1 <= id <= g.len()
}

/// Every connection names a node.
pub open spec fn edges_valid(g: Seq<NodeView>) -> bool {
    forall|i: int, k: int| 0 <= i < g.len() && 0 <= k < g[i].connections.len() ==> valid_id(g, #[trigger] g[i].connections[k])
}

/// Every edge is recorded on both of its nodes, as often on one as on the
/// other.
pub open spec fn edges_symmetric(g: Seq<NodeView>) -> bool {
    forall|i: int, j: int|
        0 <= i < g.len() && 0 <= j < g.len() ==> #[trigger] g[i].connections.to_multiset().count((j + 1) as i32)
            == #[trigger] g[j].connections.to_multiset().count((i + 1) as i32)
}

/// The graph's own well-formedness: ids in order, connections valid and
/// undirected.
pub open spec fn graph_wf(g: Seq<NodeView>) -> bool {
    &&& ids_in_order(g)
    &&& edges_valid(g)
    &&& edges_symmetric(g)
}

/// A well-formed group: a well-formed graph, and the per-entity, per-point
/// and per-segment nodes and the datum lines recorded consistently with the
/// nodes, so that each entity, segment and datum line has exactly one node.
pub open spec fn state_wf(s: GraphState) -> bool {
    let g = s.graph;
    &&& graph_wf(g)
    &&& forall|h: u64| #[trigger] s.geometry.contains_key(h) ==> valid_id(g, s.geometry[h])
        && g[s.geometry[h] - 1].role == (NodeRole::Geometry { entity: h })
    &&& forall|k: (u64, i32)| #[trigger] s.points.contains_key(k) ==> valid_id(g, s.points[k])
        && g[s.points[k] - 1].role is ImplicitPoint
    &&& forall|k: (u64, usize)| #[trigger] s.segments.contains_key(k) ==> valid_id(g, s.segments[k])
        && g[s.segments[k] - 1].role == (NodeRole::Segment { entity: k.0, index: k.1 })
    &&& forall|i: int| 0 <= i < g.len() ==> match #[trigger] g[i].role {
        NodeRole::Geometry { entity } => s.geometry.contains_key(entity) && s.geometry[entity] == i + 1,
        NodeRole::Segment { entity, index } => s.segments.contains_key((entity, index)) && s.segments[(entity, index)] == i + 1,
        NodeRole::Datum { horizontal } => (if horizontal { s.horizontal_datum } else { s.vertical_datum }) == Some((i + 1) as i32),
        _ => true,
    }
    &&& (s.horizontal_datum matches Some(d) ==> valid_id(g, d) && g[d - 1].role == (NodeRole::Datum { horizontal: true }))
    &&& (s.vertical_datum matches Some(d) ==> valid_id(g, d) && g[d - 1].role == (NodeRole::Datum { horizontal: false }))
    &&& s.referenced.no_duplicates()
    &&& forall|h: u64| #[trigger] s.referenced.contains(h) <==> (s.geometry.contains_key(h) || exists|x: usize| #[trigger] s.segments.contains_key((h, x)))
}

/// Adding a node without connections keeps the graph well-formed.
proof fn lemma_push_node(g: Seq<NodeView>, class_name: &'static str, role: NodeRole)
    requires
        graph_wf(g),
        g.len() + 1 <= i32::MAX,
    ensures
        graph_wf(g.push(new_node(g.len() as int + 1, class_name, role))),
{
    let n = g.len() as int;
    let g2 = g.push(new_node(n + 1, class_name, role));
    assert(g2[n].connections =~= Seq::<i32>::empty());
    assert forall|i: int| 0 <= i < g2.len() implies #[trigger] g2[i].node_id == i + 1 by {
        if i < n {
            assert(g2[i] == g[i]);
        }
    }
    assert forall|i: int, k: int| 0 <= i < g2.len() && 0 <= k < g2[i].connections.len() implies valid_id(g2, #[trigger] g2[i].connections[k]) by {
        assert(i < n);
        assert(g2[i] == g[i]);
        assert(valid_id(g, g[i].connections[k]));
    }
    assert forall|i: int, j: int| 0 <= i < g2.len() && 0 <= j < g2.len() implies
        #[trigger] g2[i].connections.to_multiset().count((j + 1) as i32) == #[trigger] g2[j].connections.to_multiset().count((i + 1) as i32) by {
        broadcast use vstd::seq_lib::group_to_multiset_ensures;
        if i < n && j < n {
            assert(g2[i] == g[i]);
            assert(g2[j] == g[j]);
        } else if i == n && j == n {
        } else if i == n {
            assert(g2[j] == g[j]);
            assert(!g[j].connections.contains((n + 1) as i32)) by {
                if g[j].connections.contains((n + 1) as i32) {
                    let k = choose|k: int| 0 <= k < g[j].connections.len() && g[j].connections[k] == (n + 1) as i32;
                    assert(valid_id(g, g[j].connections[k]));
                }
            }
            assert(g2[i].connections.to_multiset().count((j + 1) as i32) == 0);
        } else {
            assert(g2[i] == g[i]);
            assert(!g[i].connections.contains((n + 1) as i32)) by {
                if g[i].connections.contains((n + 1) as i32) {
                    let k = choose|k: int| 0 <= k < g[i].connections.len() && g[i].connections[k] == (n + 1) as i32;
                    assert(valid_id(g, g[i].connections[k]));
                }
            }
            assert(g2[j].connections.to_multiset().count((i + 1) as i32) == 0);
        }
    }
}

/// Adding an edge between two nodes keeps the graph well-formed and leaves
/// every node's id, class and role as it was.
pub(crate) proof fn lemma_with_edge(g: Seq<NodeView>, a: i32, b: i32)
    requires
        graph_wf(g),
        g.len() <= i32::MAX,
        valid_id(g, a),
        valid_id(g, b),
    ensures
        graph_wf(with_edge(g, a, b)),
        with_edge(g, a, b).len() == g.len(),
        forall|i: int| 0 <= i < g.len() ==> (#[trigger] with_edge(g, a, b)[i]).role == g[i].role
            && with_edge(g, a, b)[i].class_name == g[i].class_name && with_edge(g, a, b)[i].node_id == g[i].node_id,
{
    broadcast use vstd::seq_lib::group_to_multiset_ensures;
    let g2 = with_edge(g, a, b);
    let ia = a - 1;
    let ib = b - 1;
    assert forall|i: int, k: int| 0 <= i < g2.len() && 0 <= k < g2[i].connections.len() implies valid_id(g2, #[trigger] g2[i].connections[k]) by {
        if i == ia && i == ib {
            if k >= g[i].connections.len() {
            } else {
                assert(g2[i].connections[k] == g[i].connections[k]);
            }
        } else if i == ia {
            if k < g[i].connections.len() {
                assert(g2[i].connections[k] == g[i].connections[k]);
            }
        } else if i == ib {
            if k < g[i].connections.len() {
                assert(g2[i].connections[k] == g[i].connections[k]);
            }
        } else {
            assert(g2[i] == g[i]);
        }
    }
    assert forall|i: int, j: int| 0 <= i < g2.len() && 0 <= j < g2.len() implies
        #[trigger] g2[i].connections.to_multiset().count((j + 1) as i32) == #[trigger] g2[j].connections.to_multiset().count((i + 1) as i32) by {
        broadcast use vstd::multiset::group_multiset_axioms;
        let x = (j + 1) as i32;
        let y = (i + 1) as i32;
        assert(g[i].connections.to_multiset().count(x) == g[j].connections.to_multiset().count(y));
        assert(g2[i].connections.to_multiset().count(x) == g[i].connections.to_multiset().count(x)
            + (if i == ia && x == b { 1int } else { 0int }) + (if i == ib && x == a { 1int } else { 0int })) by {
            if ia == ib && i == ia {
                assert(g2[i].connections == g[i].connections.push(b).push(a));
            } else if i == ia {
                assert(g2[i].connections == g[i].connections.push(b));
            } else if i == ib {
                assert(g2[i].connections == g[i].connections.push(a));
            } else {
                assert(g2[i] == g[i]);
            }
        }
        assert(g2[j].connections.to_multiset().count(y) == g[j].connections.to_multiset().count(y)
            + (if j == ia && y == b { 1int } else { 0int }) + (if j == ib && y == a { 1int } else { 0int })) by {
            if ia == ib && j == ia {
                assert(g2[j].connections == g[j].connections.push(b).push(a));
            } else if j == ia {
                assert(g2[j].connections == g[j].connections.push(b));
            } else if j == ib {
                assert(g2[j].connections == g[j].connections.push(a));
            } else {
                assert(g2[j] == g[j]);
            }
        }
    }
}

/// Edges from one node to several keep the graph well-formed and leave
/// every node's id, class and role as it was.
pub(crate) proof fn lemma_with_edges(g: Seq<NodeView>, id: i32, targets: Seq<i32>)
    requires
        graph_wf(g),
        g.len() <= i32::MAX,
        valid_id(g, id),
        forall|k: int| 0 <= k < targets.len() ==> valid_id(g, #[trigger] targets[k]),
    ensures
        graph_wf(with_edges(g, id, targets)),
        with_edges(g, id, targets).len() == g.len(),
        forall|i: int| 0 <= i < g.len() ==> (#[trigger] with_edges(g, id, targets)[i]).role == g[i].role
            && with_edges(g, id, targets)[i].class_name == g[i].class_name && with_edges(g, id, targets)[i].node_id == g[i].node_id,
    decreases targets.len(),
{
    if targets.len() > 0 {
        let rest = targets.drop_last();
        lemma_with_edges(g, id, rest);
        lemma_with_edge(with_edges(g, id, rest), id, targets.last());
    }
}

/// A node pushed onto a well-formed group with its memo updated: the
/// facts every step needs about the enlarged graph.
pub(crate) proof fn lemma_push_keeps(g: Seq<NodeView>, class_name: &'static str, role: NodeRole)
    requires
        graph_wf(g),
        g.len() + 1 <= i32::MAX,
    ensures
        ({
            let g2 = g.push(new_node(g.len() as int + 1, class_name, role));
            &&& graph_wf(g2)
            &&& g2.len() == g.len() + 1
            &&& forall|i: int| 0 <= i < g.len() ==> #[trigger] g2[i] == g[i]
            &&& g2[g.len() as int].role == role
        }),
{
    lemma_push_node(g, class_name, role);
}

/// The geometry step keeps the group well-formed, adds at most one node and
/// answers with a node of the group.
pub(crate) proof fn lemma_geometry_step(s: GraphState, entities: Seq<DrawingEntity>, h: u64)
    requires
        state_wf(s),
        s.graph.len() + 1 <= i32::MAX,
    ensures
        ({
            let (s2, r) = geometry_step(s, entities, h);
            &&& state_wf(s2)
            &&& s.graph.len() <= s2.graph.len() <= s.graph.len() + 1
            &&& r matches Some(id) ==> valid_id(s2.graph, id)
        }),
{
    let (s2, r) = geometry_step(s, entities, h);
    if !s.geometry.contains_key(h) && r is Some {
        let class_name = geometry_class(shape_of(entities, h)->0)->0;
        let role = NodeRole::Geometry { entity: h };
        lemma_push_keeps(s.graph, class_name, role);
        let n = s.graph.len() as int;
        assert forall|i: int| 0 <= i < s2.graph.len() implies match #[trigger] s2.graph[i].role {
            NodeRole::Geometry { entity } => s2.geometry.contains_key(entity) && s2.geometry[entity] == i + 1,
            NodeRole::Segment { entity, index } => s2.segments.contains_key((entity, index)) && s2.segments[(entity, index)] == i + 1,
            NodeRole::Datum { horizontal } => (if horizontal { s2.horizontal_datum } else { s2.vertical_datum }) == Some((i + 1) as i32),
            _ => true,
        } by {
            if i < n {
                assert(s2.graph[i] == s.graph[i]);
                match s.graph[i].role {
                    NodeRole::Geometry { entity } => {
                        assert(entity != h);
                    },
                    _ => {},
                }
            }
        }
        assert forall|x: u64| #[trigger] s2.referenced.contains(x) <==> (s2.geometry.contains_key(x) || exists|y: usize| #[trigger] s2.segments.contains_key((x, y))) by {
            broadcast use vstd::seq_lib::group_seq_properties;
            assert(s2.referenced == touched(s.referenced, h));
            if x != h {
                assert(s2.referenced.contains(x) <==> s.referenced.contains(x));
            }
        }
        assert(s2.referenced.no_duplicates()) by {
            broadcast use vstd::seq_lib::group_seq_properties;
        }
    }
}

/// The segment step keeps the group well-formed, adds at most one node and
/// answers with a node of the group.
pub(crate) proof fn lemma_segment_step(s: GraphState, entities: Seq<DrawingEntity>, h: u64, index: usize)
    requires
        state_wf(s),
        s.graph.len() + 1 <= i32::MAX,
    ensures
        ({
            let (s2, r) = segment_step(s, entities, h, index);
            &&& state_wf(s2)
            &&& s.graph.len() <= s2.graph.len() <= s.graph.len() + 1
            &&& r matches Some(id) ==> valid_id(s2.graph, id)
        }),
{
    let (s2, r) = segment_step(s, entities, h, index);
    if !s.segments.contains_key((h, index)) && r is Some {
        let role = NodeRole::Segment { entity: h, index };
        lemma_push_keeps(s.graph, "AcConstrainedBoundedLine", role);
        let n = s.graph.len() as int;
        assert forall|i: int| 0 <= i < s2.graph.len() implies match #[trigger] s2.graph[i].role {
            NodeRole::Geometry { entity } => s2.geometry.contains_key(entity) && s2.geometry[entity] == i + 1,
            NodeRole::Segment { entity, index } => s2.segments.contains_key((entity, index)) && s2.segments[(entity, index)] == i + 1,
            NodeRole::Datum { horizontal } => (if horizontal { s2.horizontal_datum } else { s2.vertical_datum }) == Some((i + 1) as i32),
            _ => true,
        } by {
            if i < n {
                assert(s2.graph[i] == s.graph[i]);
                match s.graph[i].role {
                    NodeRole::Segment { entity, index: x } => {
                        assert((entity, x) != (h, index));
                    },
                    _ => {},
                }
            }
        }
        assert forall|x: u64| #[trigger] s2.referenced.contains(x) <==> (s2.geometry.contains_key(x) || exists|y: usize| #[trigger] s2.segments.contains_key((x, y))) by {
            broadcast use vstd::seq_lib::group_seq_properties;
            assert(s2.referenced == touched(s.referenced, h));
            if x != h {
                assert(s2.referenced.contains(x) <==> s.referenced.contains(x));
                if exists|y: usize| #[trigger] s2.segments.contains_key((x, y)) {
                    let y = choose|y: usize| #[trigger] s2.segments.contains_key((x, y));
                    assert(s.segments.contains_key((x, y)));
                }
                if exists|y: usize| #[trigger] s.segments.contains_key((x, y)) {
                    let y = choose|y: usize| #[trigger] s.segments.contains_key((x, y));
                    assert(s2.segments.contains_key((x, y)));
                }
            } else {
                assert(s2.segments.contains_key((h, index)));
            }
        }
        assert(s2.referenced.no_duplicates()) by {
            broadcast use vstd::seq_lib::group_seq_properties;
        }
    }
}

/// Adding an implicit point and its relation keeps the group well-formed.
pub(crate) proof fn lemma_add_point(s: GraphState, h: u64, marker: i32, curve: i32, point_type: u8)
    requires
        state_wf(s),
        s.graph.len() + 2 <= i32::MAX,
        valid_id(s.graph, curve),
    ensures
        state_wf(add_point(s, h, marker, curve, point_type)),
        add_point(s, h, marker, curve, point_type).graph.len() == s.graph.len() + 2,
        valid_id(add_point(s, h, marker, curve, point_type).graph, next_id(s) as i32),
{
    let id = next_id(s);
    let relation = id + 1;
    let rel_class = if point_type == POINT_CENTER { "AcCenterPointConstraint" } else { "AcPointCurveConstraint" };
    let g1 = s.graph.push(new_node(id, "AcConstrainedImplicitPoint", NodeRole::ImplicitPoint { point_type, curve_id: curve, entity: h, marker }));
    lemma_push_keeps(s.graph, "AcConstrainedImplicitPoint", NodeRole::ImplicitPoint { point_type, curve_id: curve, entity: h, marker });
    let g2 = g1.push(new_node(relation, rel_class, NodeRole::PointRelation));
    lemma_push_keeps(g1, rel_class, NodeRole::PointRelation);
    lemma_with_edge(g2, relation as i32, id as i32);
    let g3 = with_edge(g2, relation as i32, id as i32);
    lemma_with_edge(g3, relation as i32, curve);
    let g4 = with_edge(g3, relation as i32, curve);
    let s2 = add_point(s, h, marker, curve, point_type);
    assert(s2.graph == g4);
    let n = s.graph.len() as int;
    assert forall|i: int| 0 <= i < n implies (#[trigger] g4[i]).role == s.graph[i].role by {
        assert(g2[i] == s.graph[i]);
    }
    assert(g4[n].role is ImplicitPoint);
    assert(g4[n + 1].role is PointRelation);
    assert forall|k: (u64, i32)| #[trigger] s2.points.contains_key(k) implies valid_id(g4, s2.points[k]) && g4[s2.points[k] - 1].role is ImplicitPoint by {
        if k != (h, marker) {
            assert(s.points.contains_key(k));
        }
    }
    assert forall|i: int| 0 <= i < g4.len() implies match #[trigger] g4[i].role {
        NodeRole::Geometry { entity } => s2.geometry.contains_key(entity) && s2.geometry[entity] == i + 1,
        NodeRole::Segment { entity, index } => s2.segments.contains_key((entity, index)) && s2.segments[(entity, index)] == i + 1,
        NodeRole::Datum { horizontal } => (if horizontal { s2.horizontal_datum } else { s2.vertical_datum }) == Some((i + 1) as i32),
        _ => true,
    } by {
        if i < n {
            assert(g4[i].role == s.graph[i].role);
        }
    }
}

/// The point step keeps the group well-formed, adds at most three nodes and
/// answers with a node of the group.
pub(crate) proof fn lemma_point_step(s: GraphState, entities: Seq<DrawingEntity>, h: u64, marker: i32)
    requires
        state_wf(s),
        s.graph.len() + 3 <= i32::MAX,
    ensures
        ({
            let (s2, r) = point_step(s, entities, h, marker);
            &&& state_wf(s2)
            &&& s.graph.len() <= s2.graph.len() <= s.graph.len() + 3
            &&& r matches Some(id) ==> valid_id(s2.graph, id)
        }),
{
    if !s.points.contains_key((h, marker)) {
        match shape_of(entities, h) {
            Some(EntityShape::Polyline { closed, straight }) if marker >= 0 => {
                let n = straight@.len();
                let vertex = marker as int;
                if vertex >= n {
                } else if vertex + 1 < n || closed {
                    lemma_segment_step(s, entities, h, vertex as usize);
                    let (s1, curve) = segment_step(s, entities, h, vertex as usize);
                    if let Some(c) = curve {
                        lemma_add_point(s1, h, marker, c, POINT_START);
                    }
                } else if vertex >= 1 {
                    lemma_segment_step(s, entities, h, (vertex - 1) as usize);
                    let (s1, curve) = segment_step(s, entities, h, (vertex - 1) as usize);
                    if let Some(c) = curve {
                        lemma_add_point(s1, h, marker, c, POINT_END);
                    }
                }
            },
            _ => {
                lemma_geometry_step(s, entities, h);
                let (s1, curve) = geometry_step(s, entities, h);
                if let Some(c) = curve {
                    if let Some(t) = curve_point_type(marker) {
                        lemma_add_point(s1, h, marker, c, t);
                    }
                }
            },
        }
    }
}

/// The reference step keeps the group well-formed, adds at most three nodes
/// and answers with a node of the group.
pub(crate) proof fn lemma_ref_step(s: GraphState, entities: Seq<DrawingEntity>, r: SketchRef)
    requires
        state_wf(s),
        s.graph.len() + 3 <= i32::MAX,
    ensures
        ({
            let (s2, id) = ref_step(s, entities, r);
            &&& state_wf(s2)
            &&& s.graph.len() <= s2.graph.len() <= s.graph.len() + 3
            &&& id matches Some(id) ==> valid_id(s2.graph, id)
        }),
{
    match r.part {
        RefPart::Segment(index) => lemma_segment_step(s, entities, r.entity, index),
        RefPart::Point(marker) => {
            lemma_geometry_step(s, entities, r.entity);
            lemma_point_step(s, entities, r.entity, marker);
        },
        RefPart::Whole => lemma_geometry_step(s, entities, r.entity),
    }
}

/// Resolving references one by one keeps the group well-formed, adds at
/// most three nodes per reference and gives nodes of the group.
pub(crate) proof fn lemma_resolve_each(s: GraphState, entities: Seq<DrawingEntity>, refs: Seq<SketchRef>)
    requires
        state_wf(s),
        s.graph.len() + 3 * refs.len() <= i32::MAX,
    ensures
        ({
            let (s2, ids) = resolve_each(s, entities, refs);
            &&& state_wf(s2)
            &&& s.graph.len() <= s2.graph.len() <= s.graph.len() + 3 * refs.len()
            &&& ids.len() <= refs.len()
            &&& forall|k: int| 0 <= k < ids.len() ==> valid_id(s2.graph, #[trigger] ids[k])
        }),
    decreases refs.len(),
{
    if refs.len() > 0 {
        lemma_resolve_each(s, entities, refs.drop_last());
        let (s1, ids) = resolve_each(s, entities, refs.drop_last());
        lemma_ref_step(s1, entities, refs.last());
    }
}

/// Resolving references up to the first failure keeps the group
/// well-formed, adds at most three nodes per reference and gives one node
/// of the group per reference when all resolve.
pub(crate) proof fn lemma_resolve_all(s: GraphState, entities: Seq<DrawingEntity>, refs: Seq<SketchRef>)
    requires
        state_wf(s),
        s.graph.len() + 3 * refs.len() <= i32::MAX,
    ensures
        ({
            let (s2, ids) = resolve_all(s, entities, refs);
            &&& state_wf(s2)
            &&& s.graph.len() <= s2.graph.len() <= s.graph.len() + 3 * refs.len()
            &&& ids matches Some(ids) ==> ids.len() == refs.len()
                && forall|k: int| 0 <= k < ids.len() ==> valid_id(s2.graph, #[trigger] ids[k])
        }),
    decreases refs.len(),
{
    if refs.len() > 0 {
        lemma_resolve_all(s, entities, refs.drop_last());
        let (s1, ids) = resolve_all(s, entities, refs.drop_last());
        if ids is Some {
            lemma_ref_step(s1, entities, refs.last());
        }
    }
}

/// The datum step keeps the group well-formed and adds at most one node.
pub(crate) proof fn lemma_datum_step(s: GraphState, horizontal: bool)
    requires
        state_wf(s),
        s.graph.len() + 1 <= i32::MAX,
    ensures
        ({
            let (s2, id) = datum_step(s, horizontal);
            &&& state_wf(s2)
            &&& s.graph.len() <= s2.graph.len() <= s.graph.len() + 1
            &&& valid_id(s2.graph, id)
        }),
{
    let cached = if horizontal { s.horizontal_datum } else { s.vertical_datum };
    if cached is None {
        let (s2, id) = datum_step(s, horizontal);
        lemma_push_keeps(s.graph, "AcConstrainedDatumLine", NodeRole::Datum { horizontal });
        let n = s.graph.len() as int;
        assert forall|i: int| 0 <= i < s2.graph.len() implies match #[trigger] s2.graph[i].role {
            NodeRole::Geometry { entity } => s2.geometry.contains_key(entity) && s2.geometry[entity] == i + 1,
            NodeRole::Segment { entity, index } => s2.segments.contains_key((entity, index)) && s2.segments[(entity, index)] == i + 1,
            NodeRole::Datum { horizontal } => (if horizontal { s2.horizontal_datum } else { s2.vertical_datum }) == Some((i + 1) as i32),
            _ => true,
        } by {
            if i < n {
                assert(s2.graph[i] == s.graph[i]);
            }
        }
    }
}

/// Adding a constraint node keeps the group well-formed.
pub(crate) proof fn lemma_add_constraint(s: GraphState, kind: ConstraintKind, class_name: &'static str, shape: NodeShape, datum: Option<i32>, targets: Seq<i32>)
    requires
        state_wf(s),
        s.graph.len() + 1 <= i32::MAX,
        targets.len() > 0,
        forall|k: int| 0 <= k < targets.len() ==> valid_id(s.graph, #[trigger] targets[k]),
    ensures
        state_wf(add_constraint(s, kind, class_name, shape, datum, targets)),
        add_constraint(s, kind, class_name, shape, datum, targets).graph.len() == s.graph.len() + 1,
{
    let id = next_id(s);
    let role = NodeRole::Constraint { kind, owner_id: targets[0], shape, datum };
    let g = s.graph.push(new_node(id, class_name, role));
    lemma_push_keeps(s.graph, class_name, role);
    lemma_with_edges(g, id as i32, targets);
    let s2 = add_constraint(s, kind, class_name, shape, datum, targets);
    let n = s.graph.len() as int;
    assert forall|i: int| 0 <= i < s2.graph.len() implies match #[trigger] s2.graph[i].role {
        NodeRole::Geometry { entity } => s2.geometry.contains_key(entity) && s2.geometry[entity] == i + 1,
        NodeRole::Segment { entity, index } => s2.segments.contains_key((entity, index)) && s2.segments[(entity, index)] == i + 1,
        NodeRole::Datum { horizontal } => (if horizontal { s2.horizontal_datum } else { s2.vertical_datum }) == Some((i + 1) as i32),
        _ => true,
    } by {
        assert(s2.graph[i].role == g[i].role);
        if i < n {
            assert(g[i] == s.graph[i]);
        }
    }
}

/// The constraint step keeps the group well-formed and adds at most three
/// nodes per reference and two more.
pub(crate) proof fn lemma_constraint_step(s: GraphState, entities: Seq<DrawingEntity>, kind: ConstraintKind, refs: Seq<SketchRef>)
    requires
        state_wf(s),
        s.graph.len() + 3 * refs.len() + 2 <= i32::MAX,
    ensures
        ({
            let (s2, r) = constraint_step(s, entities, kind, refs);
            &&& state_wf(s2)
            &&& s.graph.len() <= s2.graph.len() <= s.graph.len() + 3 * refs.len() + 2
            &&& r matches Some(id) ==> valid_id(s2.graph, id)
        }),
{
    match kind {
        ConstraintKind::Horizontal | ConstraintKind::Vertical => if refs.len() == 1 || refs.len() == 2 {
            lemma_resolve_all(s, entities, refs);
            let (s1, ids) = resolve_all(s, entities, refs);
            if let Some(targets) = ids {
                lemma_datum_step(s1, kind == ConstraintKind::Horizontal);
                let (s2, datum) = datum_step(s1, kind == ConstraintKind::Horizontal);
                let native = native_node_spec(kind, refs.len(), refs.len() == 2 && is_straight(entities, refs[0]) && is_straight(entities, refs[1]));
                lemma_add_constraint(s2, kind, native->0.class_name, native->0.shape, Some(datum), targets);
            }
        },
        ConstraintKind::Radius | ConstraintKind::Diameter => if refs.len() >= 1 {
            lemma_resolve_all(s, entities, refs.take(1));
            let (s1, ids) = resolve_all(s, entities, refs.take(1));
            if let Some(targets) = ids {
                let native = native_node_spec(kind, refs.len(), refs.len() == 2 && is_straight(entities, refs[0]) && is_straight(entities, refs[1]));
                lemma_add_constraint(s1, kind, native->0.class_name, native->0.shape, None, targets);
            }
        },
        ConstraintKind::Parallel | ConstraintKind::Equal | ConstraintKind::Distance | ConstraintKind::DistanceX
        | ConstraintKind::DistanceY | ConstraintKind::Angle => if refs.len() == 2 {
            lemma_resolve_all(s, entities, refs);
            let (s1, ids) = resolve_all(s, entities, refs);
            if let Some(targets) = ids {
                let native = native_node_spec(kind, refs.len(), refs.len() == 2 && is_straight(entities, refs[0]) && is_straight(entities, refs[1]));
                lemma_add_constraint(s1, kind, native->0.class_name, native->0.shape, None, targets);
            }
        },
        ConstraintKind::ArcLength => {},
        _ => {
            lemma_resolve_each(s, entities, refs);
            let (s1, targets) = resolve_each(s, entities, refs);
            if targets.len() == refs.len() && refs.len() > 0 {
                let native = native_node_spec(kind, refs.len(), refs.len() == 2 && is_straight(entities, refs[0]) && is_straight(entities, refs[1]));
                lemma_add_constraint(s1, kind, native->0.class_name, native->0.shape, None, targets);
            }
        },
    }
}

/// Once a reference fails to resolve, resolving more references changes
/// nothing.
pub(crate) proof fn lemma_resolve_all_stops(s: GraphState, entities: Seq<DrawingEntity>, refs: Seq<SketchRef>, k: int)
    requires
        0 <= k <= refs.len(),
        resolve_all(s, entities, refs.take(k)).1 is None,
    ensures
        resolve_all(s, entities, refs) == resolve_all(s, entities, refs.take(k)),
    decreases refs.len() - k,
{
    if k < refs.len() {
        assert(refs.take(k + 1).drop_last() =~= refs.take(k));
        lemma_resolve_all_stops(s, entities, refs, k + 1);
    } else {
        assert(refs.take(k) =~= refs);
    }
}

/// The geometry node of each entity, as an `FxHashMap<u64, i32>` holds it.
pub uninterp spec fn fx_entity_nodes(m: HashMap<u64, i32, FxBuildHasher>) -> Map<u64, i32>;

/// The implicit-point node of each (entity, marker), as an
/// `FxHashMap<(u64, i32), i32>` holds it.
pub uninterp spec fn fx_point_nodes(m: HashMap<(u64, i32), i32, FxBuildHasher>) -> Map<(u64, i32), i32>;

/// The segment node of each (entity, segment index), as an
/// `FxHashMap<(u64, usize), i32>` holds it.
pub uninterp spec fn fx_segment_nodes(m: HashMap<(u64, usize), i32, FxBuildHasher>) -> Map<(u64, usize), i32>;

/// `FxHashMap::default()`: an empty map.
#[verifier::external_body]
fn fx_entity_map_new() -> (r: HashMap<u64, i32, FxBuildHasher>)
    ensures
        (fx_entity_nodes(r) == Map::<u64, i32>::empty()),
{
    HashMap::default()
}

/// `HashMap::get` on the entity map: the value stored under the key, if any.
#[verifier::external_body]
fn fx_entity_get(m: &HashMap<u64, i32, FxBuildHasher>, k: u64) -> (r: Option<i32>)
    ensures
        r == (if fx_entity_nodes(*m).contains_key(k) { Some(fx_entity_nodes(*m)[k]) } else { None }),
{
    m.get(&k).copied()
}

/// `HashMap::insert` on the entity map: the key now maps to the value.
#[verifier::external_body]
fn fx_entity_insert(m: &mut HashMap<u64, i32, FxBuildHasher>, k: u64, v: i32)
    ensures
        fx_entity_nodes(*final(m)) == fx_entity_nodes(*old(m)).insert(k, v),
{
    m.insert(k, v);
}

/// `FxHashMap::default()`: an empty map.
#[verifier::external_body]
fn fx_point_map_new() -> (r: HashMap<(u64, i32), i32, FxBuildHasher>)
    ensures
        (fx_point_nodes(r) == Map::<(u64, i32), i32>::empty()),
{
    HashMap::default()
}

/// `HashMap::get` on the point map: the value stored under the key, if any.
#[verifier::external_body]
fn fx_point_get(m: &HashMap<(u64, i32), i32, FxBuildHasher>, k: (u64, i32)) -> (r: Option<i32>)
    ensures
        r == (if fx_point_nodes(*m).contains_key(k) { Some(fx_point_nodes(*m)[k]) } else { None }),
{
    m.get(&k).copied()
}

/// `HashMap::insert` on the point map: the key now maps to the value.
#[verifier::external_body]
fn fx_point_insert(m: &mut HashMap<(u64, i32), i32, FxBuildHasher>, k: (u64, i32), v: i32)
    ensures
        fx_point_nodes(*final(m)) == fx_point_nodes(*old(m)).insert(k, v),
{
    m.insert(k, v);
}

/// `FxHashMap::default()`: an empty map.
#[verifier::external_body]
fn fx_segment_map_new() -> (r: HashMap<(u64, usize), i32, FxBuildHasher>)
    ensures
        (fx_segment_nodes(r) == Map::<(u64, usize), i32>::empty()),
{
    HashMap::default()
}

/// `HashMap::get` on the segment map: the value stored under the key, if any.
#[verifier::external_body]
fn fx_segment_get(m: &HashMap<(u64, usize), i32, FxBuildHasher>, k: (u64, usize)) -> (r: Option<i32>)
    ensures
        r == (if fx_segment_nodes(*m).contains_key(k) { Some(fx_segment_nodes(*m)[k]) } else { None }),
{
    m.get(&k).copied()
}

/// `HashMap::insert` on the segment map: the key now maps to the value.
#[verifier::external_body]
fn fx_segment_insert(m: &mut HashMap<(u64, usize), i32, FxBuildHasher>, k: (u64, usize), v: i32)
    ensures
        fx_segment_nodes(*final(m)) == fx_segment_nodes(*old(m)).insert(k, v),
{
    m.insert(k, v);
}

/// The node ids of an optional list, as a sequence.
pub open spec fn ids_view(ids: Option<Vec<i32>>) -> Option<Seq<i32>> {
    match ids {
        Some(v) => Some(v@),
        None => None,
    }
}

/// Builds one scope's group incrementally, allocating node ids and keeping
/// one geometry, point or segment node per entity, point or segment.
struct GroupBuilder {
    entities: Vec<DrawingEntity>,
    nodes: Vec<GraphNode>,
    next_node_id: i32,
    geometry: HashMap<u64, i32, FxBuildHasher>,
    points: HashMap<(u64, i32), i32, FxBuildHasher>,
    segments: HashMap<(u64, usize), i32, FxBuildHasher>,
    referenced: Vec<u64>,
    horizontal_datum: Option<i32>,
    vertical_datum: Option<i32>,
}

/// The nodes of `nodes` as values.
pub open spec fn node_views(nodes: Seq<GraphNode>) -> Seq<NodeView> {
    nodes.map_values(|n: GraphNode| n@)
}

impl GroupBuilder {
    spec fn state(&self) -> GraphState {
        GraphState {
            graph: node_views(self.nodes@),
            geometry: fx_entity_nodes(self.geometry),
            points: fx_point_nodes(self.points),
            segments: fx_segment_nodes(self.segments),
            referenced: self.referenced@,
            horizontal_datum: self.horizontal_datum,
            vertical_datum: self.vertical_datum,
        }
    }

    spec fn wf(&self) -> bool {
        &&& state_wf(self.state())
        &&& self.next_node_id == self.nodes@.len() + 1
    }

    fn new(entities: Vec<DrawingEntity>) -> (b: Self)
        ensures
            b.wf(),
            b.state() == empty_state(),
            b.entities@ == entities@,
    {
        let b = GroupBuilder {
            entities,
            nodes: Vec::new(),
            next_node_id: 1,
            geometry: fx_entity_map_new(),
            points: fx_point_map_new(),
            segments: fx_segment_map_new(),
            referenced: Vec::new(),
            horizontal_datum: None,
            vertical_datum: None,
        };
        assert(b.state().graph =~= Seq::<NodeView>::empty());
        assert(b.state().referenced =~= Seq::<u64>::empty());
        b
    }

    /// The index of the first entity with handle `h`.
    fn find_entity(&self, h: u64) -> (r: Option<usize>)
        ensures
            match r {
                Some(i) => i < self.entities@.len() && shape_of(self.entities@, h) == Some(self.entities@[i as int].shape),
                None => shape_of(self.entities@, h) is None,
            },
    {
        let mut i: usize = 0;
        assert(self.entities@.skip(0) =~= self.entities@);
        while i < self.entities.len()
            invariant
                i <= self.entities@.len(),
                shape_of(self.entities@, h) == shape_of(self.entities@.skip(i as int), h),
            decreases self.entities.len() - i,
        {
            if self.entities[i].handle == h {
                return Some(i);
            }
            assert(self.entities@.skip(i as int).drop_first() =~= self.entities@.skip(i as int + 1));
            i += 1;
        }
        None
    }

    /// Allocates the next node id and adds a node without connections.
    fn push_node(&mut self, class_name: &'static str, role: NodeRole) -> (id: i32)
        requires
            graph_wf(old(self).state().graph),
            old(self).next_node_id == old(self).nodes@.len() + 1,
            old(self).nodes@.len() + 2 <= i32::MAX,
        ensures
            graph_wf(final(self).state().graph),
            id == next_id(old(self).state()),
            final(self).state() == (GraphState {
                graph: old(self).state().graph.push(new_node(id as int, class_name, role)),
                ..old(self).state()
            }),
            final(self).next_node_id == final(self).nodes@.len() + 1,
            final(self).entities@ == old(self).entities@,
    {
        proof {
            lemma_push_keeps(self.state().graph, class_name, role);
        }
        let id = self.next_node_id;
        self.next_node_id = id + 1;
        self.nodes.push(GraphNode { node_id: id, class_name, role, connections: Vec::new() });
        assert(node_views(self.nodes@) =~= node_views(old(self).nodes@).push(new_node(id as int, class_name, role)));
        id
    }

    /// Records an undirected edge on both nodes.
    fn connect(&mut self, a: i32, b: i32)
        requires
            old(self).nodes@.len() <= i32::MAX,
            ids_in_order(old(self).state().graph),
            valid_id(old(self).state().graph, a),
            valid_id(old(self).state().graph, b),
        ensures
            final(self).state() == (GraphState { graph: with_edge(old(self).state().graph, a, b), ..old(self).state() }),
            final(self).next_node_id == old(self).next_node_id,
            final(self).nodes@.len() == old(self).nodes@.len(),
            final(self).entities@ == old(self).entities@,
    {
        let ia = (a - 1) as usize;
        self.nodes[ia].connections.push(b);
        let ib = (b - 1) as usize;
        self.nodes[ib].connections.push(a);
        assert(node_views(self.nodes@) =~= with_edge(node_views(old(self).nodes@), a, b));
    }

    /// Whether entity `h` is already among the referenced entities.
    fn is_referenced(&self, h: u64) -> (r: bool)
        ensures
            r == self.referenced@.contains(h),
    {
        let mut i: usize = 0;
        while i < self.referenced.len()
            invariant
                i <= self.referenced@.len(),
                forall|k: int| 0 <= k < i ==> self.referenced@[k] != h,
            decreases self.referenced.len() - i,
        {
            if self.referenced[i] == h {
                return true;
            }
            i += 1;
        }
        false
    }

    /// Appends `h` to the referenced entities unless it is there already.
    fn touch(&mut self, h: u64)
        ensures
            final(self).referenced@ == touched(old(self).referenced@, h),
            final(self).nodes == old(self).nodes,
            final(self).next_node_id == old(self).next_node_id,
            final(self).geometry == old(self).geometry,
            final(self).points == old(self).points,
            final(self).segments == old(self).segments,
            final(self).horizontal_datum == old(self).horizontal_datum,
            final(self).vertical_datum == old(self).vertical_datum,
            final(self).entities == old(self).entities,
    {
        if !self.is_referenced(h) {
            self.referenced.push(h);
        }
    }

    /// The whole-geometry node of entity `h`, created once.
    fn geometry_node(&mut self, h: u64) -> (r: Option<i32>)
        requires
            old(self).wf(),
            old(self).nodes@.len() + 2 <= i32::MAX,
        ensures
            final(self).wf(),
            final(self).entities@ == old(self).entities@,
            (final(self).state(), r) == geometry_step(old(self).state(), old(self).entities@, h),
    {
        proof {
            lemma_geometry_step(self.state(), self.entities@, h);
        }
        if let Some(existing) = fx_entity_get(&self.geometry, h) {
            return Some(existing);
        }
        let index = match self.find_entity(h) {
            Some(i) => i,
            None => return None,
        };
        let class_name = match &self.entities[index].shape {
            EntityShape::PointLike => "AcConstrainedPoint",
            EntityShape::Line => "AcConstrainedBoundedLine",
            EntityShape::Circle => "AcConstrainedCircle",
            EntityShape::Arc => "AcConstrainedArc",
            EntityShape::Ellipse { full } => if *full {
                "AcConstrainedEllipse"
            } else {
                "AcConstrainedBoundedEllipse"
            },
            _ => return None,
        };
        let node_id = self.push_node(class_name, NodeRole::Geometry { entity: h });
        fx_entity_insert(&mut self.geometry, h, node_id);
        self.touch(h);
        Some(node_id)
    }

    /// The node of segment `index` of polyline `h`, created once, when that
    /// segment is a straight one.
    fn segment_node(&mut self, h: u64, index: usize) -> (r: Option<i32>)
        requires
            old(self).wf(),
            old(self).nodes@.len() + 2 <= i32::MAX,
        ensures
            final(self).wf(),
            final(self).entities@ == old(self).entities@,
            (final(self).state(), r) == segment_step(old(self).state(), old(self).entities@, h, index),
    {
        proof {
            lemma_segment_step(self.state(), self.entities@, h, index);
        }
        if let Some(existing) = fx_segment_get(&self.segments, (h, index)) {
            return Some(existing);
        }
        let position = match self.find_entity(h) {
            Some(i) => i,
            None => return None,
        };
        let straight_segment = match &self.entities[position].shape {
            EntityShape::Polyline { closed, straight } => index < straight.len() && straight[index] && (index + 1
                < straight.len() || *closed),
            _ => false,
        };
        if !straight_segment {
            return None;
        }
        let node_id = self.push_node("AcConstrainedBoundedLine", NodeRole::Segment { entity: h, index });
        fx_segment_insert(&mut self.segments, (h, index), node_id);
        self.touch(h);
        Some(node_id)
    }

    /// The point node of marker `marker` on entity `h`, created once, with
    /// the curve node it lies on.
    fn point_node(&mut self, h: u64, marker: i32) -> (r: Option<i32>)
        requires
            old(self).wf(),
            old(self).nodes@.len() + 4 <= i32::MAX,
        ensures
            final(self).wf(),
            final(self).entities@ == old(self).entities@,
            (final(self).state(), r) == point_step(old(self).state(), old(self).entities@, h, marker),
    {
        proof {
            lemma_point_step(self.state(), self.entities@, h, marker);
        }
        if let Some(existing) = fx_point_get(&self.points, (h, marker)) {
            return Some(existing);
        }
        let polyline: Option<(bool, usize)> = match self.find_entity(h) {
            Some(i) => match &self.entities[i].shape {
                EntityShape::Polyline { closed, straight } => Some((*closed, straight.len())),
                _ => None,
            },
            None => None,
        };
        let (curve_id, point_type) = match polyline {
            Some((closed, count)) if marker >= 0 => {
                let vertex = marker as usize;
                if vertex >= count {
                    return None;
                }
                let (segment, point_type) = if vertex + 1 < count || closed {
                    (vertex, POINT_START)
                } else {
                    if vertex == 0 {
                        return None;
                    }
                    (vertex - 1, POINT_END)
                };
                match self.segment_node(h, segment) {
                    Some(curve) => (curve, point_type),
                    None => return None,
                }
            },
            _ => {
                let curve = match self.geometry_node(h) {
                    Some(curve) => curve,
                    None => return None,
                };
                let point_type = if marker == 0 {
                    POINT_START
                } else if marker == 1 {
                    POINT_END
                } else if marker == CENTER_MARKER {
                    POINT_CENTER
                } else {
                    return None;
                };
                (curve, point_type)
            },
        };
        Some(self.add_point_nodes(h, marker, curve_id, point_type))
    }

    /// A new implicit point of type `point_type` on node `curve_id`, for
    /// marker `marker` of entity `h`, with its relation node.
    fn add_point_nodes(&mut self, h: u64, marker: i32, curve_id: i32, point_type: u8) -> (id: i32)
        requires
            old(self).wf(),
            old(self).nodes@.len() + 3 <= i32::MAX,
            valid_id(old(self).state().graph, curve_id),
        ensures
            final(self).wf(),
            final(self).entities@ == old(self).entities@,
            final(self).state() == add_point(old(self).state(), h, marker, curve_id, point_type),
            id == next_id(old(self).state()),
    {
        let ghost s1 = self.state();
        proof {
            lemma_add_point(s1, h, marker, curve_id, point_type);
        }
        let node_id = self.push_node("AcConstrainedImplicitPoint", NodeRole::ImplicitPoint { point_type, curve_id, entity: h, marker });
        let relation_id = self.push_node(
            if point_type == POINT_CENTER { "AcCenterPointConstraint" } else { "AcPointCurveConstraint" },
            NodeRole::PointRelation,
        );
        proof {
            lemma_with_edge(self.state().graph, relation_id, node_id);
        }
        self.connect(relation_id, node_id);
        self.connect(relation_id, curve_id);
        fx_point_insert(&mut self.points, (h, marker), node_id);
        assert(self.state() == add_point(s1, h, marker, curve_id, point_type));
        node_id
    }

    /// The node a reference resolves to.
    fn ref_node(&mut self, r: SketchRef) -> (id: Option<i32>)
        requires
            old(self).wf(),
            old(self).nodes@.len() + 4 <= i32::MAX,
        ensures
            final(self).wf(),
            final(self).entities@ == old(self).entities@,
            (final(self).state(), id) == ref_step(old(self).state(), old(self).entities@, r),
    {
        match r.part {
            RefPart::Segment(index) => self.segment_node(r.entity, index),
            RefPart::Point(marker) => {
                let point_like = marker == 0 && match self.find_entity(r.entity) {
                    Some(i) => matches!(self.entities[i].shape, EntityShape::PointLike),
                    None => false,
                };
                if point_like {
                    self.geometry_node(r.entity)
                } else {
                    self.point_node(r.entity, marker)
                }
            },
            RefPart::Whole => self.geometry_node(r.entity),
        }
    }

    /// The horizontal or vertical datum line, created once.
    fn datum_line(&mut self, horizontal: bool) -> (id: i32)
        requires
            old(self).wf(),
            old(self).nodes@.len() + 2 <= i32::MAX,
        ensures
            final(self).wf(),
            final(self).entities@ == old(self).entities@,
            (final(self).state(), id) == datum_step(old(self).state(), horizontal),
    {
        proof {
            lemma_datum_step(self.state(), horizontal);
        }
        let cached = if horizontal { self.horizontal_datum } else { self.vertical_datum };
        if let Some(node_id) = cached {
            return node_id;
        }
        let node_id = self.push_node("AcConstrainedDatumLine", NodeRole::Datum { horizontal });
        if horizontal {
            self.horizontal_datum = Some(node_id);
        } else {
            self.vertical_datum = Some(node_id);
        }
        node_id
    }

    /// Resolves every reference in order, keeping the nodes of those that
    /// resolve.
    fn resolve_each(&mut self, refs: &Vec<SketchRef>) -> (ids: Vec<i32>)
        requires
            old(self).wf(),
            old(self).nodes@.len() + 3 * refs@.len() + 1 <= i32::MAX,
        ensures
            final(self).wf(),
            final(self).entities@ == old(self).entities@,
            (final(self).state(), ids@) == resolve_each(old(self).state(), old(self).entities@, refs@),
    {
        let ghost s0 = self.state();
        let mut ids: Vec<i32> = Vec::new();
        let mut i: usize = 0;
        assert(refs@.take(0) =~= Seq::<SketchRef>::empty());
        while i < refs.len()
            invariant
                i <= refs@.len(),
                self.wf(),
                self.entities@ == old(self).entities@,
                s0 == old(self).state(),
                state_wf(s0),
                s0.graph.len() + 3 * refs@.len() + 1 <= i32::MAX,
                (self.state(), ids@) == resolve_each(s0, self.entities@, refs@.take(i as int)),
            decreases refs.len() - i,
        {
            proof {
                lemma_resolve_each(s0, self.entities@, refs@.take(i as int));
            }
            let r = self.ref_node(refs[i]);
            if let Some(id) = r {
                ids.push(id);
            }
            assert(refs@.take(i as int + 1).drop_last() =~= refs@.take(i as int));
            i += 1;
        }
        assert(refs@.take(i as int) =~= refs@);
        ids
    }

    /// Resolves the first `count` references in order, up to the first that
    /// does not resolve; `None` when one does not.
    fn resolve_all(&mut self, refs: &Vec<SketchRef>, count: usize) -> (ids: Option<Vec<i32>>)
        requires
            old(self).wf(),
            count <= refs@.len(),
            old(self).nodes@.len() + 3 * count + 1 <= i32::MAX,
        ensures
            final(self).wf(),
            final(self).entities@ == old(self).entities@,
            (final(self).state(), ids_view(ids)) == resolve_all(old(self).state(), old(self).entities@, refs@.take(count as int)),
    {
        let ghost s0 = self.state();
        let ghost wanted = refs@.take(count as int);
        let mut ids: Vec<i32> = Vec::new();
        let mut i: usize = 0;
        assert(wanted.take(0) =~= Seq::<SketchRef>::empty());
        while i < count
            invariant
                i <= count <= refs@.len(),
                wanted == refs@.take(count as int),
                self.wf(),
                self.entities@ == old(self).entities@,
                s0 == old(self).state(),
                state_wf(s0),
                s0.graph.len() + 3 * count + 1 <= i32::MAX,
                (self.state(), Some(ids@)) == resolve_all(s0, self.entities@, wanted.take(i as int)),
            decreases count - i,
        {
            proof {
                lemma_resolve_all(s0, self.entities@, wanted.take(i as int));
            }
            assert(wanted.take(i as int + 1).drop_last() =~= wanted.take(i as int));
            assert(wanted[i as int] == refs@[i as int]);
            match self.ref_node(refs[i]) {
                Some(id) => ids.push(id),
                None => {
                    proof {
                        lemma_resolve_all_stops(s0, self.entities@, wanted, i as int + 1);
                    }
                    return None;
                },
            }
            i += 1;
        }
        assert(wanted.take(i as int) =~= wanted);
        Some(ids)
    }

    /// Whether a reference names a line, or a segment of a polyline.
    fn is_straight(&self, r: SketchRef) -> (b: bool)
        ensures
            b == is_straight(self.entities@, r),
    {
        match self.find_entity(r.entity) {
            Some(i) => match &self.entities[i].shape {
                EntityShape::Line => true,
                EntityShape::Polyline { .. } => matches!(r.part, RefPart::Segment(_)),
                _ => false,
            },
            None => false,
        }
    }

    /// A new constraint node, owned by the first target and connected to
    /// each target in order.
    fn add_constraint_node(&mut self, kind: ConstraintKind, class_name: &'static str, shape: NodeShape, datum: Option<i32>, targets: &Vec<i32>) -> (id: i32)
        requires
            old(self).wf(),
            old(self).nodes@.len() + 2 <= i32::MAX,
            targets@.len() > 0,
            forall|k: int| 0 <= k < targets@.len() ==> valid_id(old(self).state().graph, #[trigger] targets@[k]),
        ensures
            final(self).wf(),
            final(self).entities@ == old(self).entities@,
            final(self).state() == add_constraint(old(self).state(), kind, class_name, shape, datum, targets@),
            id == next_id(old(self).state()),
    {
        let ghost s0 = self.state();
        proof {
            lemma_add_constraint(s0, kind, class_name, shape, datum, targets@);
        }
        let node_id = self.push_node(class_name, NodeRole::Constraint { kind, owner_id: targets[0], shape, datum });
        let ghost g0 = self.state().graph;
        let mut k: usize = 0;
        assert(targets@.take(0) =~= Seq::<i32>::empty());
        while k < targets.len()
            invariant
                k <= targets@.len(),
                g0 == s0.graph.push(new_node(node_id as int, class_name, NodeRole::Constraint { kind, owner_id: targets@[0], shape, datum })),
                graph_wf(g0),
                g0.len() <= i32::MAX,
                valid_id(g0, node_id),
                forall|j: int| 0 <= j < targets@.len() ==> valid_id(g0, #[trigger] targets@[j]),
                self.state() == (GraphState { graph: with_edges(g0, node_id, targets@.take(k as int)), ..s0 }),
                self.next_node_id == self.nodes@.len() + 1,
                self.nodes@.len() == g0.len(),
                self.entities@ == old(self).entities@,
            decreases targets.len() - k,
        {
            proof {
                lemma_with_edges(g0, node_id, targets@.take(k as int));
            }
            self.connect(node_id, targets[k]);
            assert(targets@.take(k as int + 1).drop_last() =~= targets@.take(k as int));
            k += 1;
        }
        assert(targets@.take(k as int) =~= targets@);
        node_id
    }

    /// The node of one constraint, after the nodes of its references.
    fn constraint_node(&mut self, kind: ConstraintKind, refs: &Vec<SketchRef>) -> (r: Option<i32>)
        requires
            old(self).wf(),
            old(self).nodes@.len() + 3 * refs@.len() + 3 <= i32::MAX,
        ensures
            final(self).wf(),
            final(self).entities@ == old(self).entities@,
            (final(self).state(), r) == constraint_step(old(self).state(), old(self).entities@, kind, refs@),
    {
        let ghost s0 = self.state();
        proof {
            lemma_constraint_step(s0, self.entities@, kind, refs@);
        }
        let both_straight = refs.len() == 2 && self.is_straight(refs[0]) && self.is_straight(refs[1]);
        let native = match native_node(kind, refs.len(), both_straight) {
            Some(node) => node,
            None => return None,
        };
        assert(refs@.take(refs@.len() as int) =~= refs@);
        match kind {
            ConstraintKind::Horizontal | ConstraintKind::Vertical => {
                proof {
                    lemma_resolve_all(s0, self.entities@, refs@);
                }
                let targets = match self.resolve_all(refs, refs.len()) {
                    Some(targets) => targets,
                    None => return None,
                };
                let datum = self.datum_line(kind == ConstraintKind::Horizontal);
                Some(self.add_constraint_node(kind, native.class_name, native.shape, Some(datum), &targets))
            },
            ConstraintKind::Radius | ConstraintKind::Diameter => {
                proof {
                    lemma_resolve_all(s0, self.entities@, refs@.take(1));
                }
                let targets = match self.resolve_all(refs, 1) {
                    Some(targets) => targets,
                    None => return None,
                };
                Some(self.add_constraint_node(kind, native.class_name, native.shape, None, &targets))
            },
            ConstraintKind::Parallel | ConstraintKind::Equal | ConstraintKind::Distance | ConstraintKind::DistanceX
            | ConstraintKind::DistanceY | ConstraintKind::Angle => {
                proof {
                    lemma_resolve_all(s0, self.entities@, refs@);
                }
                let targets = match self.resolve_all(refs, refs.len()) {
                    Some(targets) => targets,
                    None => return None,
                };
                Some(self.add_constraint_node(kind, native.class_name, native.shape, None, &targets))
            },
            _ => {
                proof {
                    lemma_resolve_each(s0, self.entities@, refs@);
                }
                let targets = self.resolve_each(refs);
                if targets.len() != refs.len() || targets.len() == 0 {
                    return None;
                }
                Some(self.add_constraint_node(kind, native.class_name, native.shape, None, &targets))
            },
        }
    }
}

/// The group of one scope with its dimensional constraint nodes: each
/// dimensional constraint that got a node, as (node id, index of the
/// constraint), waiting for its value dependency.
pub struct ConstraintGroup {
    pub nodes: Vec<GraphNode>,
    pub referenced: Vec<u64>,
    pub value_nodes: Vec<(i32, usize)>,
}

/// The most nodes the constraints can add: three per reference and two per
/// constraint.
pub open spec fn node_budget(constraints: Seq<SketchConstraint>) -> int
    decreases constraints.len(),
{
    if constraints.len() == 0 {
        0
    } else {
        node_budget(constraints.drop_last()) + 3 * constraints.last().refs@.len() + 2
    }
}

/// The group built from the enabled constraints in order, and the
/// dimensional ones among them that got a node.
pub open spec fn build_state(entities: Seq<DrawingEntity>, constraints: Seq<SketchConstraint>) -> (GraphState, Seq<(i32, usize)>)
    decreases constraints.len(),
{
    if constraints.len() == 0 {
        (empty_state(), Seq::empty())
    } else {
        let (s, values) = build_state(entities, constraints.drop_last());
        let c = constraints.last();
        if !c.enabled {
            (s, values)
        } else {
            let (s2, r) = constraint_step(s, entities, c.kind, c.refs@);
            match r {
                Some(id) => if is_dimensional(c.kind) {
                    (s2, values.push((id, (constraints.len() - 1) as usize)))
                } else {
                    (s2, values)
                },
                None => (s2, values),
            }
        }
    }
}

/// Building the group keeps it well-formed and within the node budget.
pub(crate) proof fn lemma_build_state(entities: Seq<DrawingEntity>, constraints: Seq<SketchConstraint>)
    requires
        node_budget(constraints) + 2 <= i32::MAX,
    ensures
        state_wf(build_state(entities, constraints).0),
        build_state(entities, constraints).0.graph.len() <= node_budget(constraints),
    decreases constraints.len(),
{
    if constraints.len() > 0 {
        lemma_build_state(entities, constraints.drop_last());
        let (s, values) = build_state(entities, constraints.drop_last());
        let c = constraints.last();
        if c.enabled {
            lemma_constraint_step(s, entities, c.kind, c.refs@);
        }
    } else {
        let s = empty_state();
        assert(state_wf(s));
    }
}

/// A geometry node is made once per entity: once asked for, the entity's
/// node is there, asking again gives the same node and adds nothing, and an
/// entity without a geometry class gets no node and changes nothing.
pub proof fn lemma_geometry_node_once(s: GraphState, entities: Seq<DrawingEntity>, h: u64)
    requires
        state_wf(s),
        s.graph.len() + 1 <= i32::MAX,
    ensures
        ({
            let (s1, r) = geometry_step(s, entities, h);
            &&& r matches Some(id) ==> {
                &&& valid_id(s1.graph, id)
                &&& s1.graph[id - 1].role == (NodeRole::Geometry { entity: h })
                &&& geometry_step(s1, entities, h) == (s1, Some(id))
            }
            &&& r is None ==> s1 == s
            &&& s1.graph.len() == s.graph.len() + (if r is Some && !s.geometry.contains_key(h) { 1int } else { 0int })
        }),
{
    lemma_geometry_step(s, entities, h);
    let (s1, r) = geometry_step(s, entities, h);
    if let Some(id) = r {
        assert(s1.geometry.contains_key(h));
        assert(s1.geometry[h] == id);
    }
}

/// In a built group no two nodes stand for the whole of one entity, nor for
/// one segment of it.
pub proof fn lemma_one_node_per_entity(entities: Seq<DrawingEntity>, constraints: Seq<SketchConstraint>, i: int, j: int)
    requires
        node_budget(constraints) + 2 <= i32::MAX,
        0 <= i < j < build_state(entities, constraints).0.graph.len(),
    ensures
        ({
            let g = build_state(entities, constraints).0.graph;
            (g[i].role is Geometry || g[i].role is Segment) ==> g[i].role != g[j].role
        }),
{
    lemma_build_state(entities, constraints);
}

/// The native constraint group of a scope: the nodes of every enabled
/// constraint in order, after the nodes of the entities, points and
/// segments it refers to, each of those made once; the entities that got a
/// geometry or segment node, in the order they were first referred to; and
/// the dimensional constraint nodes with the index of their constraint.
pub fn build_group(entities: Vec<DrawingEntity>, constraints: &Vec<SketchConstraint>) -> (group: ConstraintGroup)
    requires
        node_budget(constraints@) + 2 <= i32::MAX,
    ensures
        ({
            let (s, values) = build_state(entities@, constraints@);
            &&& node_views(group.nodes@) == s.graph
            &&& group.referenced@ == s.referenced
            &&& group.value_nodes@ == values
            &&& state_wf(s)
        }),
{
    let ghost drawing = entities@;
    let mut builder = GroupBuilder::new(entities);
    let mut value_nodes: Vec<(i32, usize)> = Vec::new();
    let mut i: usize = 0;
    assert(constraints@.take(0) =~= Seq::<SketchConstraint>::empty());
    while i < constraints.len()
        invariant
            i <= constraints@.len(),
            builder.wf(),
            builder.entities@ == drawing,
            node_budget(constraints@) + 2 <= i32::MAX,
            (builder.state(), value_nodes@) == build_state(drawing, constraints@.take(i as int)),
        decreases constraints.len() - i,
    {
        let ghost before = constraints@.take(i as int);
        assert(constraints@.take(i as int + 1).drop_last() =~= before);
        proof {
            lemma_budget_prefix(constraints@, i as int);
            lemma_budget_prefix(constraints@, i as int + 1);
            lemma_build_state(drawing, before);
        }
        let constraint = &constraints[i];
        if constraint.enabled {
            let r = builder.constraint_node(constraint.kind, &constraint.refs);
            if let Some(node_id) = r {
                if matches!(
                    constraint.kind,
                    ConstraintKind::Distance | ConstraintKind::DistanceX | ConstraintKind::DistanceY | ConstraintKind::Angle
                        | ConstraintKind::Radius | ConstraintKind::Diameter
                ) {
                    value_nodes.push((node_id, i));
                }
            }
        }
        i += 1;
    }
    assert(constraints@.take(i as int) =~= constraints@);
    proof {
        lemma_build_state(drawing, constraints@);
    }
    ConstraintGroup { nodes: builder.nodes, referenced: builder.referenced, value_nodes }
}

/// Whether the constraints' nodes fit the format's 32-bit node ids, as
/// `build_group` needs.
pub fn fits_node_budget(constraints: &Vec<SketchConstraint>) -> (r: bool)
    ensures
        r == (node_budget(constraints@) + 2 <= i32::MAX),
{
    let mut total: u64 = 0;
    let mut i: usize = 0;
    assert(constraints@.take(0) =~= Seq::<SketchConstraint>::empty());
    while i < constraints.len()
        invariant
            i <= constraints@.len(),
            total == node_budget(constraints@.take(i as int)),
            total + 2 <= i32::MAX,
        decreases constraints.len() - i,
    {
        assert(constraints@.take(i as int + 1).drop_last() =~= constraints@.take(i as int));
        let refs = constraints[i].refs.len();
        if refs > (i32::MAX as usize) {
            proof {
                lemma_budget_prefix(constraints@, i as int + 1);
            }
            return false;
        }
        let next = total + 3 * (refs as u64) + 2;
        if next + 2 > i32::MAX as u64 {
            proof {
                lemma_budget_prefix(constraints@, i as int + 1);
            }
            return false;
        }
        total = next;
        i += 1;
    }
    assert(constraints@.take(i as int) =~= constraints@);
    true
}

/// The budget of a prefix is at most the budget of the whole.
pub(crate) proof fn lemma_budget_prefix(constraints: Seq<SketchConstraint>, k: int)
    requires
        0 <= k <= constraints.len(),
    ensures
        k > 0 ==> node_budget(constraints.take(k - 1)) + 3 * constraints[k - 1].refs@.len() + 2 == node_budget(constraints.take(k)),
        node_budget(constraints.take(k)) <= node_budget(constraints),
    decreases constraints.len() - k,
{
    if k > 0 {
        assert(constraints.take(k).drop_last() =~= constraints.take(k - 1));
    }
    if k < constraints.len() {
        lemma_budget_prefix(constraints, k + 1);
        assert(constraints.take(k + 1).drop_last() =~= constraints.take(k));
    } else {
        assert(constraints.take(k) =~= constraints);
    }
}

/// The entity a geometry or segment node depends on.
pub open spec fn node_entity(role: NodeRole) -> Option<u64> {
    match role {
        NodeRole::Geometry { entity } => Some(entity),
        NodeRole::Segment { entity, .. } => Some(entity),
        _ => None,
    }
}

/// The first position of `e` in `v`.
fn position_of(v: &Vec<u64>, e: u64) -> (r: Option<usize>)
    ensures
        match r {
            Some(k) => k < v@.len() && v@[k as int] == e,
            None => !v@.contains(e),
        },
{
    let mut k: usize = 0;
    while k < v.len()
        invariant
            k <= v@.len(),
            forall|j: int| 0 <= j < k ==> v@[j] != e,
        decreases v.len() - k,
    {
        if v[k] == e {
            return Some(k);
        }
        k += 1;
    }
    None
}

/// For each node of a group, the position among the referenced entities of
/// the entity it depends on (its geometry dependency is that entity's), or
/// `None` for a node that depends on no entity.
pub fn dependency_slots(group: &ConstraintGroup) -> (slots: Vec<Option<usize>>)
    ensures
        slots@.len() == group.nodes@.len(),
        forall|i: int| 0 <= i < group.nodes@.len() ==> (#[trigger] slots@[i] matches Some(k) ==> (
            k < group.referenced@.len() && node_entity(group.nodes@[i].role) == Some(group.referenced@[k as int]))),
        forall|i: int| 0 <= i < group.nodes@.len() ==> ((#[trigger] slots@[i] is None) ==> (node_entity(group.nodes@[i].role) is None
            || !group.referenced@.contains(node_entity(group.nodes@[i].role)->0))),
{
    let mut slots: Vec<Option<usize>> = Vec::new();
    let mut i: usize = 0;
    while i < group.nodes.len()
        invariant
            i <= group.nodes@.len(),
            slots@.len() == i,
            forall|j: int| 0 <= j < i ==> (#[trigger] slots@[j] matches Some(k) ==> (
                k < group.referenced@.len() && node_entity(group.nodes@[j].role) == Some(group.referenced@[k as int]))),
            forall|j: int| 0 <= j < i ==> ((#[trigger] slots@[j] is None) ==> (node_entity(group.nodes@[j].role) is None
                || !group.referenced@.contains(node_entity(group.nodes@[j].role)->0))),
        decreases group.nodes.len() - i,
    {
        let entity = match group.nodes[i].role {
            NodeRole::Geometry { entity } => Some(entity),
            NodeRole::Segment { entity, .. } => Some(entity),
            _ => None,
        };
        let slot = match entity {
            Some(e) => position_of(&group.referenced, e),
            None => None,
        };
        slots.push(slot);
        i += 1;
    }
    slots
}

/// What a save does with one sketch scope's native graph.
#[derive(Clone, Copy, Debug, PartialEq, Eq, Structural)]
pub enum ScopeAction {
    /// Leave the scope without a native graph.
    Skip,
    /// Keep the native graph the scope already has, untouched.
    Preserve,
    /// Rebuild the scope's native graph from its constraints.
    Rebuild,
}

/// What a save does with a scope, as [`scope_action`] decides it.
pub open spec fn scope_action_of(enabled: bool, has_network: bool, requires_preservation: bool) -> ScopeAction {
    if !enabled && !has_network {
        ScopeAction::Skip
    } else if requires_preservation {
        ScopeAction::Preserve
    } else {
        ScopeAction::Rebuild
    }
}

/// What a save knows of one sketch scope of the drawing.
#[derive(Clone, Copy, Debug, PartialEq, Eq, Structural)]
pub struct ScopeFacts {
    /// The scope's owner (model space or a layout block) exists.
    pub has_owner: bool,
    /// The owner already holds a native constraint network.
    pub has_network: bool,
    /// That network holds what cannot be rebuilt.
    pub requires_preservation: bool,
    /// The handle of the owner's network, when it has one.
    pub network: Option<u64>,
}

/// The scopes a save rebuilds, by index in scan order, and the networks it
/// keeps untouched, after the first `facts.len()` scopes.
pub open spec fn save_plan_spec(enabled: bool, facts: Seq<ScopeFacts>) -> (Seq<usize>, Seq<u64>)
    decreases facts.len(),
{
    if facts.len() == 0 {
        (Seq::empty(), Seq::empty())
    } else {
        let (rebuild, preserved) = save_plan_spec(enabled, facts.drop_last());
        let f = facts.last();
        if !f.has_owner {
            (rebuild, preserved)
        } else {
            match scope_action_of(enabled, f.has_network, f.requires_preservation) {
                ScopeAction::Skip => (rebuild, preserved),
                ScopeAction::Preserve => match f.network {
                    Option::Some(h) => (rebuild, preserved.push(h)),
                    Option::None => (rebuild, preserved),
                },
                ScopeAction::Rebuild => (rebuild.push((facts.len() - 1) as usize), preserved),
            }
        }
    }
}

/// What a save does over all scopes: the scopes to rebuild and the networks
/// to keep. When nothing is to be rebuilt the drawing's networks are left
/// as they are.
pub struct SavePlan {
    /// Indices of the scopes whose native graph is rebuilt, in order.
    pub rebuild: Vec<usize>,
    /// Networks of preserved scopes, kept as children of the new root.
    pub preserved: Vec<u64>,
}

/// Plans a save over the drawing's sketch scopes: a scope without an owner
/// is passed over, and each other one is skipped, preserved or rebuilt as
/// [`scope_action`] decides.
pub fn save_plan(enabled: bool, facts: &Vec<ScopeFacts>) -> (p: SavePlan)
    ensures
        (p.rebuild@, p.preserved@) == save_plan_spec(enabled, facts@),
{
    let mut rebuild: Vec<usize> = Vec::new();
    let mut preserved: Vec<u64> = Vec::new();
    let mut i: usize = 0;
    while i < facts.len()
        invariant
            i <= facts@.len(),
            (rebuild@, preserved@) == save_plan_spec(enabled, facts@.take(i as int)),
        decreases facts.len() - i,
    {
        let f = facts[i];
        assert(facts@.take(i + 1).drop_last() =~= facts@.take(i as int));
        assert(facts@.take(i + 1).last() == f);
        if f.has_owner {
            match scope_action(enabled, f.has_network, f.requires_preservation) {
                ScopeAction::Skip => {},
                ScopeAction::Preserve => {
                    if let Option::Some(h) = f.network {
                        preserved.push(h);
                    }
                },
                ScopeAction::Rebuild => {
                    rebuild.push(i);
                },
            }
        }
        i += 1;
    }
    assert(facts@.take(i as int) =~= facts@);
    SavePlan { rebuild, preserved }
}

/// The children of the new root network: the preserved networks, then the
/// network of each rebuilt scope that produced one. No root is written when
/// this is empty.
pub fn root_children(preserved: &Vec<u64>, built: &Vec<Option<u64>>) -> (c: Vec<u64>)
    ensures
        c@ == preserved@ + somes(built@),
{
    let mut c: Vec<u64> = Vec::new();
    let mut i: usize = 0;
    while i < preserved.len()
        invariant
            i <= preserved@.len(),
            c@ == preserved@.take(i as int),
        decreases preserved.len() - i,
    {
        c.push(preserved[i]);
        i += 1;
        assert(c@ =~= preserved@.take(i as int));
    }
    assert(preserved@.take(i as int) =~= preserved@);
    let mut j: usize = 0;
    while j < built.len()
        invariant
            j <= built@.len(),
            c@ == preserved@ + somes(built@.take(j as int)),
        decreases built.len() - j,
    {
        assert(built@.take(j + 1).drop_last() =~= built@.take(j as int));
        if let Option::Some(h) = built[j] {
            c.push(h);
        }
        j += 1;
        assert(c@ =~= preserved@ + somes(built@.take(j as int)));
    }
    assert(built@.take(j as int) =~= built@);
    c
}

/// The values inside the `Some`s of `s`, in order.
pub open spec fn somes(s: Seq<Option<u64>>) -> Seq<u64>
    decreases s.len(),
{
    if s.len() == 0 {
        Seq::empty()
    } else {
        match s.last() {
            Option::Some(h) => somes(s.drop_last()).push(h),
            Option::None => somes(s.drop_last()),
        }
    }
}

/// What a save does with a scope: writing native graphs is `enabled` by the
/// user's setting, but a scope that already has one (`has_network`) is
/// kept in sync whatever the setting; a graph holding what cannot be
/// rebuilt (`requires_preservation`) is kept as it is.
pub fn scope_action(enabled: bool, has_network: bool, requires_preservation: bool) -> (a: ScopeAction)
    ensures
        a == scope_action_of(enabled, has_network, requires_preservation),
{
    if !enabled && !has_network {
        ScopeAction::Skip
    } else if requires_preservation {
        ScopeAction::Preserve
    } else {
        ScopeAction::Rebuild
    }
}

} // verus!
