//! Writing sketch constraints as a native group and reading the group back
//! gives the constraints again: each constraint that got a node reads back
//! with its own kind and its references (a whole point-like entity reads
//! back as its point 0), in the order the nodes were written.
use vstd::prelude::*;

use crate::constraint_graph::{
    DrawingEntity, EntityShape, GraphState, NodeRole, NodeView, RefPart, SketchRef, geometry_class, ids_in_order,
    is_dimensional, is_point_like, shape_of, state_wf, with_edge, with_edges, geometry_step, segment_step,
    add_point, point_step, ref_step, resolve_each, resolve_all, datum_step, add_constraint, constraint_step, valid_id,
    new_node, next_id, curve_point_type, lemma_geometry_step, lemma_segment_step, lemma_add_point,
    lemma_point_step, lemma_resolve_each, lemma_resolve_all, lemma_datum_step, lemma_add_constraint,
    lemma_constraint_step, POINT_START, POINT_END, POINT_CENTER, is_straight,
    SketchConstraint, build_state, empty_state, node_budget,
};
use crate::constraint_import::{
    ReadData, ReadView, connected_refs, entity_point_count, geometry_refs, node_constraint, node_kind, node_refs, node_targets,
    point_marker, point_refs, read_spec,
};
use crate::native_constraints::{ConstraintKind, NodeShape, kind_for_class, lemma_geometry_classes_name_no_constraint, lemma_native_node_round_trip, native_node_spec};
use crate::text::ascii_upper_seq;

verus! {

/// The data shape a constraint node reads back with: parallel-shaped data
/// keeps no datum flag.
pub open spec fn read_back_shape(shape: NodeShape) -> NodeShape {
    match shape {
        NodeShape::Parallel { .. } => NodeShape::Parallel { datum: None },
        _ => shape,
    }
}

/// Whether a constraint node's data carries a value dependency.
pub open spec fn has_value(shape: NodeShape) -> bool {
    shape is Distance || shape is Angle || shape is RadiusDiameter
}

/// The number of points of a polyline entity; 0 for other entities.
pub open spec fn point_count_of(entities: Seq<DrawingEntity>, e: u64) -> usize {
    match shape_of(entities, e) {
        Some(EntityShape::Polyline { straight, .. }) => straight@.len() as usize,
        _ => 0,
    }
}

/// How a written node reads back: geometry and segment nodes depend on
/// their entity (a segment node is found on its segment again), implicit
/// points keep their type and curve, relation and constraint nodes keep
/// their owner and shape (a dimensional node carrying the value dependency
/// it is written with when its driving value resolves), and the datum
/// lines depend on nothing.
pub open spec fn written_view(entities: Seq<DrawingEntity>, n: NodeView) -> ReadView {
    ReadView {
        node_id: n.node_id,
        class_name: n.class_name@,
        data: match n.role {
            NodeRole::Geometry { entity } => ReadData::Geometry {
                dependent: true,
                entity: Some(entity),
                point: is_point_like(shape_of(entities, entity)),
                segment: None,
                point_count: point_count_of(entities, entity),
            },
            NodeRole::Segment { entity, index } => ReadData::Geometry {
                dependent: true,
                entity: Some(entity),
                point: false,
                segment: Some(index),
                point_count: point_count_of(entities, entity),
            },
            NodeRole::ImplicitPoint { point_type, curve_id, .. } => ReadData::ImplicitPoint { point_type, curve_id },
            NodeRole::PointRelation => ReadData::Constraint {
                owner_id: 0,
                is_active: true,
                shape: NodeShape::Geometrical,
                valued: false,
            },
            NodeRole::Datum { .. } => ReadData::Geometry {
                dependent: false,
                entity: None,
                point: false,
                segment: None,
                point_count: 0,
            },
            NodeRole::Constraint { owner_id, shape, .. } => ReadData::Constraint {
                owner_id,
                is_active: true,
                shape: read_back_shape(shape),
                valued: has_value(shape),
            },
        },
        connections: n.connections,
    }
}

/// The written nodes of a group as they read back.
pub open spec fn written_views(entities: Seq<DrawingEntity>, g: Seq<NodeView>) -> Seq<ReadView> {
    g.map_values(|n: NodeView| written_view(entities, n))
}

/// The reference a geometry, segment or implicit-point node stands for.
pub open spec fn stands_for(entities: Seq<DrawingEntity>, g: Seq<NodeView>, id: i32) -> SketchRef {
    match g[id - 1].role {
        NodeRole::Geometry { entity } => if is_point_like(shape_of(entities, entity)) {
            SketchRef { entity, part: RefPart::Point(0) }
        } else {
            SketchRef { entity, part: RefPart::Whole }
        },
        NodeRole::Segment { entity, index } => SketchRef { entity, part: RefPart::Segment(index) },
        NodeRole::ImplicitPoint { entity, marker, .. } => SketchRef { entity, part: RefPart::Point(marker) },
        _ => SketchRef { entity: 0, part: RefPart::Whole },
    }
}

/// The references the ids of `targets` stand for.
pub open spec fn targets_stand_for(entities: Seq<DrawingEntity>, g: Seq<NodeView>, targets: Seq<i32>) -> Seq<SketchRef> {
    targets.map_values(|id: i32| stands_for(entities, g, id))
}

/// The constraints of the first `k` nodes of a graph, in node order: kind,
/// the references its connections stand for, node index, and whether it
/// carries a value.
pub open spec fn graph_constraints(entities: Seq<DrawingEntity>, g: Seq<NodeView>, k: int) -> Seq<(ConstraintKind, Seq<SketchRef>, usize, bool)>
    decreases k,
{
    if k <= 0 {
        Seq::empty()
    } else {
        let rest = graph_constraints(entities, g, k - 1);
        match g[k - 1].role {
            NodeRole::Constraint { kind, shape, .. } => rest.push(
                (kind, targets_stand_for(entities, g, g[k - 1].connections), (k - 1) as usize, has_value(shape)),
            ),
            _ => rest,
        }
    }
}

/// Whether a node is one a constraint can refer to.
pub open spec fn target_role(role: NodeRole) -> bool {
    role is Geometry || role is Segment || role is ImplicitPoint
}

/// Whether `id` names an earlier node (before index `i`) that a constraint
/// can refer to.
pub open spec fn earlier_target(g: Seq<NodeView>, i: int, id: i32) -> bool {
    1 <= id <= i && target_role(g[id - 1].role)
}

/// A point-on-curve or center-point relation between two references to the
/// same entity.
pub open spec fn same_entity_relation(kind: ConstraintKind, targets: Seq<SketchRef>) -> bool {
    (kind == ConstraintKind::PointOnCurve || kind == ConstraintKind::CenterPoint) && targets.len() == 2
        && targets[0].entity == targets[1].entity
}

/// What each written node satisfies so that it reads back as written.
pub open spec fn node_ok(entities: Seq<DrawingEntity>, g: Seq<NodeView>, i: int) -> bool {
    let n = g[i];
    match n.role {
        NodeRole::Geometry { entity } => shape_of(entities, entity) is Some && geometry_class(shape_of(entities, entity)->0) == Some(n.class_name),
        NodeRole::Segment { entity, index } => n.class_name == "AcConstrainedBoundedLine" && (shape_of(entities, entity) matches Some(
            EntityShape::Polyline { straight, .. },
        ) && index < straight@.len()),
        NodeRole::ImplicitPoint { point_type, curve_id, entity, marker } => {
            &&& n.class_name == "AcConstrainedImplicitPoint"
            &&& 1 <= curve_id <= i
            &&& (g[curve_id - 1].role matches NodeRole::Geometry { entity: e } && e == entity)
                || (g[curve_id - 1].role matches NodeRole::Segment { entity: e, .. } && e == entity)
            &&& point_marker(stands_for(entities, g, curve_id), point_type, point_count_of(entities, entity) as int) == Some(
                marker,
            )
        },
        NodeRole::PointRelation => {
            &&& n.class_name == "AcPointCurveConstraint" || n.class_name == "AcCenterPointConstraint"
            &&& n.connections.len() == 2
            &&& earlier_target(g, i, n.connections[0])
            &&& earlier_target(g, i, n.connections[1])
            &&& stands_for(entities, g, n.connections[0]).entity == stands_for(entities, g, n.connections[1]).entity
        },
        NodeRole::Datum { .. } => n.class_name == "AcConstrainedDatumLine",
        NodeRole::Constraint { kind, owner_id, shape, .. } => {
            &&& kind_for_class(ascii_upper_seq(n.class_name@), shape) == Some(kind)
            &&& has_value(shape) == is_dimensional(kind)
            &&& n.connections.len() > 0
            &&& owner_id == n.connections[0]
            &&& forall|k: int| 0 <= k < n.connections.len() ==> earlier_target(g, i, #[trigger] n.connections[k])
            &&& !same_entity_relation(kind, targets_stand_for(entities, g, n.connections))
        },
    }
}

/// The invariant of a group that reads back as written.
pub open spec fn round_trip_inv(entities: Seq<DrawingEntity>, s: GraphState) -> bool {
    &&& state_wf(s)
    &&& s.graph.len() < i32::MAX
    &&& forall|i: int| 0 <= i < s.graph.len() ==> node_ok(entities, s.graph, i)
    &&& forall|k: (u64, i32)| #[trigger] s.points.contains_key(k) ==> (s.graph[s.points[k] - 1].role matches NodeRole::ImplicitPoint {
        entity,
        marker,
        ..
    } && entity == k.0 && marker == k.1)
}

/// `g2` grows `g`: nodes are only added, existing nodes keep their id,
/// class and role, and relation and constraint nodes their connections.
pub open spec fn extends(g: Seq<NodeView>, g2: Seq<NodeView>) -> bool {
    &&& g.len() <= g2.len()
    &&& forall|i: int| 0 <= i < g.len() ==> {
        &&& (#[trigger] g2[i]).role == g[i].role
        &&& g2[i].class_name == g[i].class_name
        &&& g2[i].node_id == g[i].node_id
        &&& (g[i].role is Constraint || g[i].role is PointRelation) ==> g2[i].connections == g[i].connections
    }
}

/// Growing is transitive.
proof fn lemma_extends_trans(g1: Seq<NodeView>, g2: Seq<NodeView>, g3: Seq<NodeView>)
    requires
        extends(g1, g2),
        extends(g2, g3),
    ensures
        extends(g1, g3),
{
    assert forall|i: int| 0 <= i < g1.len() implies {
        &&& (#[trigger] g3[i]).role == g1[i].role
        &&& g3[i].class_name == g1[i].class_name
        &&& g3[i].node_id == g1[i].node_id
        &&& (g1[i].role is Constraint || g1[i].role is PointRelation) ==> g3[i].connections == g1[i].connections
    } by {
        assert(g2[i].role == g1[i].role);
    }
}

/// What a node stands for stays as the graph grows.
proof fn lemma_stands_for_stays(entities: Seq<DrawingEntity>, g: Seq<NodeView>, g2: Seq<NodeView>, id: i32)
    requires
        extends(g, g2),
        1 <= id <= g.len(),
    ensures
        stands_for(entities, g2, id) == stands_for(entities, g, id),
{
    assert(g2[id - 1].role == g[id - 1].role);
}

/// Node `id` is a geometry or segment node.
pub open spec fn curve_node(g: Seq<NodeView>, id: int) -> bool {
    1 <= id <= g.len() && (g[id - 1].role is Geometry || g[id - 1].role is Segment)
}

/// The geometry and segment nodes among the first `k` read back as the
/// references they stand for, and nothing else does.
proof fn lemma_written_geometry_refs(entities: Seq<DrawingEntity>, g: Seq<NodeView>, k: int)
    requires
        ids_in_order(g),
        0 <= k <= g.len(),
    ensures
        ({
            let m = geometry_refs(Map::empty(), written_views(entities, g).take(k));
            &&& forall|id: i32| #[trigger] m.contains_key(id) <==> (curve_node(g, id as int) && id <= k)
            &&& forall|id: i32| #[trigger] m.contains_key(id) ==> m[id] == stands_for(entities, g, id)
        }),
    decreases k,
{
    let v = written_views(entities, g);
    if k > 0 {
        lemma_written_geometry_refs(entities, g, k - 1);
        assert(v.take(k).drop_last() =~= v.take(k - 1));
        assert(v.take(k).last() == written_view(entities, g[k - 1]));
        assert(g[k - 1].node_id == k);
    } else {
        assert(v.take(k) =~= Seq::<ReadView>::empty());
    }
}

/// Whether read-back data is a geometry node resolved to entity `e`.
pub open spec fn resolved_on(d: ReadData, e: u64) -> bool {
    d matches ReadData::Geometry { dependent, entity: Some(x), .. } && dependent && x == e
}

/// The point count of read-back data.
pub open spec fn data_point_count(d: ReadData) -> int {
    match d {
        ReadData::Geometry { point_count, .. } => point_count as int,
        _ => 0,
    }
}

/// Every resolved geometry or segment node of an entity has the entity's
/// point count, so the first one found gives it.
proof fn lemma_written_point_count(entities: Seq<DrawingEntity>, v: Seq<ReadView>, e: u64)
    requires
        forall|i: int| 0 <= i < v.len() && resolved_on(#[trigger] v[i].data, e) ==> data_point_count(v[i].data)
            == point_count_of(entities, e) as int,
        exists|i: int| 0 <= i < v.len() && resolved_on(#[trigger] v[i].data, e),
    ensures
        entity_point_count(v, e) == point_count_of(entities, e) as int,
    decreases v.len(),
{
    if v.len() > 0 {
        if !resolved_on(v[0].data, e) {
            let w = choose|i: int| 0 <= i < v.len() && resolved_on(#[trigger] v[i].data, e);
            assert(w > 0);
            assert(v.drop_first()[w - 1] == v[w]);
            assert forall|i: int| 0 <= i < v.drop_first().len() && resolved_on(#[trigger] v.drop_first()[i].data, e) implies data_point_count(
                v.drop_first()[i].data,
            ) == point_count_of(entities, e) as int by {
                assert(v.drop_first()[i] == v[i + 1]);
            }
            lemma_written_point_count(entities, v.drop_first(), e);
        }
    }
}

/// The point count every written node of an entity carries is the
/// entity's.
proof fn lemma_written_count_of(entities: Seq<DrawingEntity>, g: Seq<NodeView>, c: int, e: u64)
    requires
        curve_node(g, c),
        (g[c - 1].role matches NodeRole::Geometry { entity } && entity == e) || (g[c - 1].role matches NodeRole::Segment { entity, .. } && entity == e),
    ensures
        entity_point_count(written_views(entities, g), e) == point_count_of(entities, e) as int,
{
    let v = written_views(entities, g);
    assert(resolved_on(v[c - 1].data, e));
    lemma_written_point_count(entities, v, e);
}

/// After the implicit points among the first `k` nodes, the nodes that read
/// back as references are the geometry and segment nodes and those
/// implicit points, each as the reference it stands for.
proof fn lemma_written_point_refs(entities: Seq<DrawingEntity>, s: GraphState, k: int)
    requires
        round_trip_inv(entities, s),
        0 <= k <= s.graph.len(),
    ensures
        ({
            let g = s.graph;
            let v = written_views(entities, g);
            let m = point_refs(geometry_refs(Map::empty(), v), v, v.take(k));
            &&& forall|id: i32| #[trigger] m.contains_key(id) <==> (curve_node(g, id as int) || (1 <= id <= k && g[id - 1].role is ImplicitPoint))
            &&& forall|id: i32| #[trigger] m.contains_key(id) ==> m[id] == stands_for(entities, g, id)
        }),
    decreases k,
{
    let g = s.graph;
    let v = written_views(entities, g);
    lemma_written_geometry_refs(entities, g, g.len() as int);
    assert(v.take(g.len() as int) =~= v);
    if k > 0 {
        lemma_written_point_refs(entities, s, k - 1);
        assert(v.take(k).drop_last() =~= v.take(k - 1));
        assert(v.take(k).last() == written_view(entities, g[k - 1]));
        assert(g[k - 1].node_id == k);
        assert(node_ok(entities, g, k - 1));
        match g[k - 1].role {
            NodeRole::ImplicitPoint { point_type, curve_id, entity, marker } => {
                lemma_written_count_of(entities, g, curve_id as int, entity);
            },
            _ => {},
        }
    } else {
        assert(v.take(k) =~= Seq::<ReadView>::empty());
    }
}

/// Connections whose nodes all read back as the references they stand for
/// read back as those references.
proof fn lemma_connected_refs(entities: Seq<DrawingEntity>, g: Seq<NodeView>, refs: Map<i32, SketchRef>, conns: Seq<i32>)
    requires
        forall|k: int| 0 <= k < conns.len() ==> refs.contains_key(#[trigger] conns[k]) && refs[conns[k]] == stands_for(
            entities,
            g,
            conns[k],
        ),
    ensures
        connected_refs(refs, conns) == targets_stand_for(entities, g, conns),
    decreases conns.len(),
{
    if conns.len() > 0 {
        let rest = conns.drop_last();
        assert forall|k: int| 0 <= k < rest.len() implies refs.contains_key(#[trigger] rest[k]) && refs[rest[k]] == stands_for(
            entities,
            g,
            rest[k],
        ) by {
            assert(rest[k] == conns[k]);
        }
        lemma_connected_refs(entities, g, refs, rest);
        assert(refs.contains_key(conns.last()));
        assert(targets_stand_for(entities, g, conns) =~= targets_stand_for(entities, g, rest).push(
            stands_for(entities, g, conns.last()),
        ));
    } else {
        assert(targets_stand_for(entities, g, conns) =~= Seq::<SketchRef>::empty());
    }
}

/// Reading back with a datum-less parallel shape names the same kind.
proof fn lemma_read_back_shape(upper: Seq<char>, shape: NodeShape)
    ensures
        kind_for_class(upper, read_back_shape(shape)) == kind_for_class(upper, shape),
{
}

/// A written graph reads back, node by node, as its constraint nodes.
proof fn lemma_read_written(entities: Seq<DrawingEntity>, s: GraphState, k: int)
    requires
        round_trip_inv(entities, s),
        0 <= k <= s.graph.len(),
    ensures
        ({
            let v = written_views(entities, s.graph);
            read_spec(v, node_refs(v), k) == graph_constraints(entities, s.graph, k)
        }),
    decreases k,
{
    let g = s.graph;
    let v = written_views(entities, g);
    let refs = node_refs(v);
    if k > 0 {
        lemma_read_written(entities, s, k - 1);
        lemma_written_point_refs(entities, s, g.len() as int);
        assert(v.take(g.len() as int) =~= v);
        let n = g[k - 1];
        let view = v[k - 1];
        assert(view == written_view(entities, n));
        assert(node_ok(entities, g, k - 1));
        match n.role {
            NodeRole::Geometry { entity } => {
                let shape = shape_of(entities, entity)->0;
                assert(n.class_name == "AcConstrainedPoint" || n.class_name == "AcConstrainedBoundedLine" || n.class_name
                    == "AcConstrainedCircle" || n.class_name == "AcConstrainedArc" || n.class_name == "AcConstrainedEllipse"
                    || n.class_name == "AcConstrainedBoundedEllipse");
                lemma_geometry_classes_name_no_constraint(n.class_name, NodeShape::Geometrical);
                assert(node_kind(view) is None);
            },
            NodeRole::Segment { .. } => {
                lemma_geometry_classes_name_no_constraint(n.class_name, NodeShape::Geometrical);
                assert(node_kind(view) is None);
            },
            NodeRole::ImplicitPoint { .. } => {
                lemma_geometry_classes_name_no_constraint(n.class_name, NodeShape::Geometrical);
                assert(node_kind(view) is None);
            },
            NodeRole::Datum { .. } => {
                lemma_geometry_classes_name_no_constraint(n.class_name, NodeShape::Geometrical);
                assert(node_kind(view) is None);
            },
            NodeRole::PointRelation => {
                if n.class_name == "AcPointCurveConstraint" {
                    lemma_native_node_round_trip(ConstraintKind::PointOnCurve, 1, false);
                } else {
                    lemma_native_node_round_trip(ConstraintKind::CenterPoint, 1, false);
                }
                let conns = n.connections;
                assert forall|j: int| 0 <= j < conns.len() implies refs.contains_key(#[trigger] conns[j]) && refs[conns[j]]
                    == stands_for(entities, g, conns[j]) by {
                    assert(j == 0 || j == 1);
                }
                lemma_connected_refs(entities, g, refs, conns);
                assert(!refs.contains_key(0i32));
                assert(node_targets(refs, view) == targets_stand_for(entities, g, conns));
                assert(node_constraint(refs, view) is None);
            },
            NodeRole::Constraint { kind, owner_id, shape, datum } => {
                lemma_read_back_shape(ascii_upper_seq(n.class_name@), shape);
                let conns = n.connections;
                assert forall|j: int| 0 <= j < conns.len() implies refs.contains_key(#[trigger] conns[j]) && refs[conns[j]]
                    == stands_for(entities, g, conns[j]) by {
                    assert(earlier_target(g, k - 1, conns[j]));
                }
                lemma_connected_refs(entities, g, refs, conns);
                let targets = targets_stand_for(entities, g, conns);
                assert(targets[0] == stands_for(entities, g, conns[0]));
                assert(targets.contains(refs[owner_id]));
                assert(node_targets(refs, view) == targets);
                assert(node_constraint(refs, view) == Some((kind, targets)));
            },
        }
    }
}

/// A node that is not at either end of a new edge keeps its connections.
proof fn lemma_with_edge_others(g: Seq<NodeView>, a: i32, b: i32, j: int)
    requires
        1 <= a <= g.len(),
        1 <= b <= g.len(),
        0 <= j < g.len(),
        j != a - 1,
        j != b - 1,
    ensures
        with_edge(g, a, b)[j] == g[j],
{
}

/// Edges from a node to targets all different from it: the node's
/// connections grow by the targets in order, and a node that is neither it
/// nor a target is left as it was.
proof fn lemma_with_edges_shape(g: Seq<NodeView>, id: i32, targets: Seq<i32>)
    requires
        1 <= id <= g.len(),
        forall|k: int| 0 <= k < targets.len() ==> 1 <= #[trigger] targets[k] <= g.len() && targets[k] != id,
    ensures
        with_edges(g, id, targets).len() == g.len(),
        with_edges(g, id, targets)[id - 1].connections == g[id - 1].connections + targets,
        forall|j: int| 0 <= j < g.len() && j != id - 1 && !targets.contains((j + 1) as i32) ==> #[trigger] with_edges(g, id, targets)[j] == g[j],
        forall|j: int| 0 <= j < g.len() ==> (#[trigger] with_edges(g, id, targets)[j]).role == g[j].role
            && with_edges(g, id, targets)[j].class_name == g[j].class_name && with_edges(g, id, targets)[j].node_id == g[j].node_id,
    decreases targets.len(),
{
    if targets.len() > 0 {
        let rest = targets.drop_last();
        lemma_with_edges_shape(g, id, rest);
        let g1 = with_edges(g, id, rest);
        let t = targets.last();
        assert(g1[id - 1].connections == g[id - 1].connections + rest);
        assert(with_edge(g1, id, t)[id - 1].connections == g1[id - 1].connections.push(t));
        assert(g[id - 1].connections + targets =~= (g[id - 1].connections + rest).push(t));
        assert forall|j: int| 0 <= j < g.len() && j != id - 1 && !targets.contains((j + 1) as i32) implies #[trigger] with_edges(g, id, targets)[j] == g[j] by {
            assert(!rest.contains((j + 1) as i32)) by {
                if rest.contains((j + 1) as i32) {
                    let w = choose|w: int| 0 <= w < rest.len() && rest[w] == (j + 1) as i32;
                    assert(targets[w] == rest[w]);
                }
            }
            assert(t != (j + 1) as i32) by {
                assert(targets[targets.len() - 1] == t);
            }
            lemma_with_edge_others(g1, id, t, j);
        }
    }
}

/// A node that reads back as written keeps doing so as the graph grows.
proof fn lemma_node_ok_stays(entities: Seq<DrawingEntity>, g: Seq<NodeView>, g2: Seq<NodeView>, i: int)
    requires
        extends(g, g2),
        0 <= i < g.len(),
        node_ok(entities, g, i),
    ensures
        node_ok(entities, g2, i),
{
    let n = g[i];
    assert(g2[i].role == n.role);
    match n.role {
        NodeRole::ImplicitPoint { point_type, curve_id, entity, marker } => {
            lemma_stands_for_stays(entities, g, g2, curve_id);
            assert(g2[curve_id - 1].role == g[curve_id - 1].role);
        },
        NodeRole::PointRelation => {
            assert(g2[i].connections == n.connections);
            lemma_stands_for_stays(entities, g, g2, n.connections[0]);
            lemma_stands_for_stays(entities, g, g2, n.connections[1]);
            assert(g2[n.connections[0] - 1].role == g[n.connections[0] - 1].role);
            assert(g2[n.connections[1] - 1].role == g[n.connections[1] - 1].role);
        },
        NodeRole::Constraint { kind, owner_id, shape, datum } => {
            let conns = n.connections;
            assert(g2[i].connections == conns);
            assert forall|k: int| 0 <= k < conns.len() implies earlier_target(g2, i, #[trigger] conns[k]) by {
                assert(earlier_target(g, i, conns[k]));
                assert(g2[conns[k] - 1].role == g[conns[k] - 1].role);
            }
            assert(targets_stand_for(entities, g2, conns) =~= targets_stand_for(entities, g, conns)) by {
                assert forall|k: int| 0 <= k < conns.len() implies stands_for(entities, g2, conns[k]) == stands_for(entities, g, conns[k]) by {
                    assert(earlier_target(g, i, conns[k]));
                    lemma_stands_for_stays(entities, g, g2, conns[k]);
                }
            }
        },
        _ => {},
    }
}

/// The constraints of the first `k` nodes stay as the graph grows.
proof fn lemma_graph_constraints_stay(entities: Seq<DrawingEntity>, g: Seq<NodeView>, g2: Seq<NodeView>, k: int)
    requires
        extends(g, g2),
        0 <= k <= g.len(),
        forall|i: int| 0 <= i < g.len() ==> node_ok(entities, g, i),
    ensures
        graph_constraints(entities, g2, k) == graph_constraints(entities, g, k),
    decreases k,
{
    if k > 0 {
        lemma_graph_constraints_stay(entities, g, g2, k - 1);
        let n = g[k - 1];
        assert(g2[k - 1].role == n.role);
        if let NodeRole::Constraint { kind, owner_id, shape, datum } = n.role {
            assert(node_ok(entities, g, k - 1));
            let conns = n.connections;
            assert(g2[k - 1].connections == conns);
            assert(targets_stand_for(entities, g2, conns) =~= targets_stand_for(entities, g, conns)) by {
                assert forall|j: int| 0 <= j < conns.len() implies stands_for(entities, g2, conns[j]) == stands_for(entities, g, conns[j]) by {
                    assert(earlier_target(g, k - 1, conns[j]));
                    lemma_stands_for_stays(entities, g, g2, conns[j]);
                }
            }
        }
    }
}

/// Nodes that are no constraints add no constraints.
proof fn lemma_graph_constraints_plain(entities: Seq<DrawingEntity>, g: Seq<NodeView>, k1: int, k2: int)
    requires
        0 <= k1 <= k2 <= g.len(),
        forall|i: int| k1 <= i < k2 ==> !(#[trigger] g[i].role is Constraint),
    ensures
        graph_constraints(entities, g, k2) == graph_constraints(entities, g, k1),
    decreases k2 - k1,
{
    if k2 > k1 {
        lemma_graph_constraints_plain(entities, g, k1, k2 - 1);
    }
}

/// Adding one node that is no constraint, and reads back as written, keeps
/// the group reading back as written and adds no constraint.
proof fn lemma_rt_push(entities: Seq<DrawingEntity>, s: GraphState, s2: GraphState, node: NodeView)
    requires
        round_trip_inv(entities, s),
        state_wf(s2),
        s2.graph == s.graph.push(node),
        s2.points == s.points,
        !(node.role is Constraint),
        !(node.role is PointRelation),
        s2.graph.len() < i32::MAX,
        node_ok(entities, s2.graph, s.graph.len() as int),
    ensures
        round_trip_inv(entities, s2),
        extends(s.graph, s2.graph),
        graph_constraints(entities, s2.graph, s2.graph.len() as int) == graph_constraints(entities, s.graph, s.graph.len() as int),
{
    let g = s.graph;
    let g2 = s2.graph;
    assert forall|i: int| 0 <= i < g.len() implies {
        &&& (#[trigger] g2[i]).role == g[i].role
        &&& g2[i].class_name == g[i].class_name
        &&& g2[i].node_id == g[i].node_id
        &&& (g[i].role is Constraint || g[i].role is PointRelation) ==> g2[i].connections == g[i].connections
    } by {
        assert(g2[i] == g[i]);
    }
    assert(extends(g, g2));
    assert forall|i: int| 0 <= i < g2.len() implies node_ok(entities, g2, i) by {
        if i < g.len() {
            lemma_node_ok_stays(entities, g, g2, i);
        }
    }
    assert forall|k: (u64, i32)| #[trigger] s2.points.contains_key(k) implies (s2.graph[s2.points[k] - 1].role matches NodeRole::ImplicitPoint {
        entity,
        marker,
        ..
    } && entity == k.0 && marker == k.1) by {
        assert(g2[s.points[k] - 1] == g[s.points[k] - 1]);
    }
    lemma_graph_constraints_stay(entities, g, g2, g.len() as int);
    lemma_graph_constraints_plain(entities, g2, g.len() as int, g2.len() as int);
}

/// The geometry step keeps the group reading back as written, adds no
/// constraint, and its node is the entity's geometry node.
pub(crate) proof fn lemma_rt_geometry_step(entities: Seq<DrawingEntity>, s: GraphState, h: u64)
    requires
        round_trip_inv(entities, s),
        s.graph.len() + 2 < i32::MAX,
    ensures
        ({
            let (s2, r) = geometry_step(s, entities, h);
            &&& round_trip_inv(entities, s2)
            &&& extends(s.graph, s2.graph)
            &&& graph_constraints(entities, s2.graph, s2.graph.len() as int) == graph_constraints(entities, s.graph, s.graph.len() as int)
            &&& r matches Some(id) ==> valid_id(s2.graph, id) && s2.graph[id - 1].role == (NodeRole::Geometry { entity: h })
        }),
{
    lemma_geometry_step(s, entities, h);
    let (s2, r) = geometry_step(s, entities, h);
    if s.geometry.contains_key(h) {
        assert(extends(s.graph, s2.graph));
    } else if r is Some {
        let node = s2.graph.last();
        assert(s2.graph == s.graph.push(node));
        lemma_rt_push(entities, s, s2, node);
    } else {
        assert(extends(s.graph, s2.graph));
    }
}

/// The segment step keeps the group reading back as written, adds no
/// constraint, and its node is the segment's node.
pub(crate) proof fn lemma_rt_segment_step(entities: Seq<DrawingEntity>, s: GraphState, h: u64, index: usize)
    requires
        round_trip_inv(entities, s),
        s.graph.len() + 2 < i32::MAX,
    ensures
        ({
            let (s2, r) = segment_step(s, entities, h, index);
            &&& round_trip_inv(entities, s2)
            &&& extends(s.graph, s2.graph)
            &&& graph_constraints(entities, s2.graph, s2.graph.len() as int) == graph_constraints(entities, s.graph, s.graph.len() as int)
            &&& r matches Some(id) ==> valid_id(s2.graph, id) && s2.graph[id - 1].role == (NodeRole::Segment { entity: h, index })
        }),
{
    lemma_segment_step(s, entities, h, index);
    let (s2, r) = segment_step(s, entities, h, index);
    if s.segments.contains_key((h, index)) {
        assert(extends(s.graph, s2.graph));
    } else if r is Some {
        let node = s2.graph.last();
        assert(s2.graph == s.graph.push(node));
        lemma_rt_push(entities, s, s2, node);
    } else {
        assert(extends(s.graph, s2.graph));
    }
}

/// The datum step keeps the group reading back as written and adds no
/// constraint.
pub(crate) proof fn lemma_rt_datum_step(entities: Seq<DrawingEntity>, s: GraphState, horizontal: bool)
    requires
        round_trip_inv(entities, s),
        s.graph.len() + 2 < i32::MAX,
    ensures
        ({
            let (s2, id) = datum_step(s, horizontal);
            &&& round_trip_inv(entities, s2)
            &&& extends(s.graph, s2.graph)
            &&& graph_constraints(entities, s2.graph, s2.graph.len() as int) == graph_constraints(entities, s.graph, s.graph.len() as int)
        }),
{
    lemma_datum_step(s, horizontal);
    let (s2, id) = datum_step(s, horizontal);
    let cached = if horizontal { s.horizontal_datum } else { s.vertical_datum };
    if cached is None {
        let node = s2.graph.last();
        assert(s2.graph == s.graph.push(node));
        lemma_rt_push(entities, s, s2, node);
    } else {
        assert(extends(s.graph, s2.graph));
    }
}

/// The node entity `h` has as a curve: its geometry node or one of its
/// segment nodes.
pub open spec fn curve_of(g: Seq<NodeView>, c: int, h: u64) -> bool {
    curve_node(g, c) && ((g[c - 1].role matches NodeRole::Geometry { entity } && entity == h) || (g[c - 1].role matches NodeRole::Segment {
        entity,
        ..
    } && entity == h))
}

/// Adding an implicit point whose marker reads back from its curve keeps
/// the group reading back as written and adds no constraint.
pub(crate) proof fn lemma_rt_add_point(entities: Seq<DrawingEntity>, s: GraphState, h: u64, marker: i32, c: i32, t: u8)
    requires
        round_trip_inv(entities, s),
        s.graph.len() + 3 < i32::MAX,
        curve_of(s.graph, c as int, h),
        point_marker(stands_for(entities, s.graph, c), t, point_count_of(entities, h) as int) == Some(marker),
    ensures
        ({
            let s2 = add_point(s, h, marker, c, t);
            &&& round_trip_inv(entities, s2)
            &&& extends(s.graph, s2.graph)
            &&& graph_constraints(entities, s2.graph, s2.graph.len() as int) == graph_constraints(entities, s.graph, s.graph.len() as int)
            &&& s2.graph[next_id(s) - 1].role == (NodeRole::ImplicitPoint { point_type: t, curve_id: c, entity: h, marker })
        }),
{
    lemma_add_point(s, h, marker, c, t);
    let g = s.graph;
    let n = g.len() as int;
    let id = n + 1;
    let rel = n + 2;
    let rel_class = if t == POINT_CENTER { "AcCenterPointConstraint" } else { "AcPointCurveConstraint" };
    let gp = g.push(new_node(id, "AcConstrainedImplicitPoint", NodeRole::ImplicitPoint { point_type: t, curve_id: c, entity: h, marker })).push(
        new_node(rel, rel_class, NodeRole::PointRelation),
    );
    let g3 = with_edge(gp, rel as i32, id as i32);
    let g4 = with_edge(g3, rel as i32, c);
    let s2 = add_point(s, h, marker, c, t);
    assert(s2.graph == g4);
    assert forall|i: int| 0 <= i < n implies {
        &&& (#[trigger] g4[i]).role == g[i].role
        &&& g4[i].class_name == g[i].class_name
        &&& g4[i].node_id == g[i].node_id
        &&& (g[i].role is Constraint || g[i].role is PointRelation) ==> g4[i].connections == g[i].connections
    } by {
        assert(gp[i] == g[i]);
        if i != c - 1 {
            lemma_with_edge_others(gp, rel as i32, id as i32, i);
            lemma_with_edge_others(g3, rel as i32, c, i);
        }
    }
    assert(extends(g, g4));
    assert(g4[n].role == gp[n].role);
    assert(g4[n + 1].role == gp[n + 1].role);
    assert(g4[n + 1].connections == seq![id as i32, c]);
    assert forall|i: int| 0 <= i < g4.len() implies node_ok(entities, g4, i) by {
        if i < n {
            lemma_node_ok_stays(entities, g, g4, i);
        } else if i == n {
            lemma_stands_for_stays(entities, g, g4, c);
        } else {
            assert(g4[c - 1].role == g[c - 1].role);
        }
    }
    assert forall|k: (u64, i32)| #[trigger] s2.points.contains_key(k) implies (s2.graph[s2.points[k] - 1].role matches NodeRole::ImplicitPoint {
        entity,
        marker,
        ..
    } && entity == k.0 && marker == k.1) by {
        if k != (h, marker) {
            assert(s.points.contains_key(k));
            assert(g4[s.points[k] - 1].role == g[s.points[k] - 1].role);
        }
    }
    lemma_graph_constraints_stay(entities, g, g4, n);
    lemma_graph_constraints_plain(entities, g4, n, n + 2);
}

/// The point step keeps the group reading back as written, adds no
/// constraint, and its node is the implicit point of the marker.
pub(crate) proof fn lemma_rt_point_step(entities: Seq<DrawingEntity>, s: GraphState, h: u64, marker: i32)
    requires
        round_trip_inv(entities, s),
        s.graph.len() + 4 < i32::MAX,
    ensures
        ({
            let (s2, r) = point_step(s, entities, h, marker);
            &&& round_trip_inv(entities, s2)
            &&& extends(s.graph, s2.graph)
            &&& graph_constraints(entities, s2.graph, s2.graph.len() as int) == graph_constraints(entities, s.graph, s.graph.len() as int)
            &&& r matches Some(id) ==> valid_id(s2.graph, id) && (s2.graph[id - 1].role matches NodeRole::ImplicitPoint {
                entity,
                marker: m,
                ..
            } && entity == h && m == marker)
        }),
{
    lemma_point_step(s, entities, h, marker);
    let (s2, r) = point_step(s, entities, h, marker);
    if s.points.contains_key((h, marker)) {
        assert(extends(s.graph, s2.graph));
        return;
    }
    match shape_of(entities, h) {
        Some(EntityShape::Polyline { closed, straight }) if marker >= 0 => {
            let n = straight@.len();
            assert(straight.len() == n);
            assert(point_count_of(entities, h) as int == n);
            let vertex = marker as int;
            if vertex >= n {
                assert(extends(s.graph, s2.graph));
            } else if vertex + 1 < n || closed {
                lemma_rt_segment_step(entities, s, h, vertex as usize);
                let (s1, curve) = segment_step(s, entities, h, vertex as usize);
                if let Some(c) = curve {
                    assert(stands_for(entities, s1.graph, c) == SketchRef { entity: h, part: RefPart::Segment(vertex as usize) });
                    lemma_rt_add_point(entities, s1, h, marker, c, POINT_START);
                    lemma_extends_trans(s.graph, s1.graph, s2.graph);
                }
            } else if vertex >= 1 {
                lemma_rt_segment_step(entities, s, h, (vertex - 1) as usize);
                let (s1, curve) = segment_step(s, entities, h, (vertex - 1) as usize);
                if let Some(c) = curve {
                    assert(stands_for(entities, s1.graph, c) == SketchRef { entity: h, part: RefPart::Segment((vertex - 1) as usize) });
                    assert(((vertex - 1) + 1) % (n as int) == vertex) by {
                        vstd::arithmetic::div_mod::lemma_small_mod(vertex as nat, n as nat);
                    }
                    lemma_rt_add_point(entities, s1, h, marker, c, POINT_END);
                    lemma_extends_trans(s.graph, s1.graph, s2.graph);
                }
            } else {
                assert(extends(s.graph, s2.graph));
            }
        },
        _ => {
            lemma_rt_geometry_step(entities, s, h);
            let (s1, curve) = geometry_step(s, entities, h);
            if let Some(c) = curve {
                if let Some(t) = curve_point_type(marker) {
                    assert(!(stands_for(entities, s1.graph, c).part is Segment));
                    lemma_rt_add_point(entities, s1, h, marker, c, t);
                    lemma_extends_trans(s.graph, s1.graph, s2.graph);
                }
            }
        },
    }
}

/// The reference a written reference reads back as: a whole point-like
/// entity reads back as its point 0, any other reference as itself.
pub open spec fn canonical(entities: Seq<DrawingEntity>, r: SketchRef) -> SketchRef {
    if r.part is Whole && is_point_like(shape_of(entities, r.entity)) {
        SketchRef { entity: r.entity, part: RefPart::Point(0) }
    } else {
        r
    }
}

/// The reference step keeps the group reading back as written, adds no
/// constraint, and its node stands for the reference.
pub(crate) proof fn lemma_rt_ref_step(entities: Seq<DrawingEntity>, s: GraphState, r: SketchRef)
    requires
        round_trip_inv(entities, s),
        s.graph.len() + 4 < i32::MAX,
    ensures
        ({
            let (s2, res) = ref_step(s, entities, r);
            &&& round_trip_inv(entities, s2)
            &&& extends(s.graph, s2.graph)
            &&& graph_constraints(entities, s2.graph, s2.graph.len() as int) == graph_constraints(entities, s.graph, s.graph.len() as int)
            &&& res matches Some(id) ==> valid_id(s2.graph, id) && target_role(s2.graph[id - 1].role) && stands_for(
                entities,
                s2.graph,
                id,
            ) == canonical(entities, r)
        }),
{
    match r.part {
        RefPart::Segment(index) => lemma_rt_segment_step(entities, s, r.entity, index),
        RefPart::Point(marker) => {
            if marker == 0 && is_point_like(shape_of(entities, r.entity)) {
                lemma_rt_geometry_step(entities, s, r.entity);
            } else {
                lemma_rt_point_step(entities, s, r.entity, marker);
            }
        },
        RefPart::Whole => lemma_rt_geometry_step(entities, s, r.entity),
    }
}

/// Resolving references one by one keeps the group reading back as
/// written and adds no constraint; when every reference resolves, each node
/// stands for its reference.
pub(crate) proof fn lemma_rt_resolve_each(entities: Seq<DrawingEntity>, s: GraphState, refs: Seq<SketchRef>)
    requires
        round_trip_inv(entities, s),
        s.graph.len() + 3 * refs.len() + 2 < i32::MAX,
    ensures
        ({
            let (s2, ids) = resolve_each(s, entities, refs);
            &&& round_trip_inv(entities, s2)
            &&& extends(s.graph, s2.graph)
            &&& s2.graph.len() <= s.graph.len() + 3 * refs.len()
            &&& graph_constraints(entities, s2.graph, s2.graph.len() as int) == graph_constraints(entities, s.graph, s.graph.len() as int)
            &&& ids.len() <= refs.len()
            &&& forall|k: int| 0 <= k < ids.len() ==> valid_id(s2.graph, #[trigger] ids[k]) && target_role(s2.graph[ids[k] - 1].role)
            &&& ids.len() == refs.len() ==> forall|k: int| 0 <= k < ids.len() ==> stands_for(entities, s2.graph, #[trigger] ids[k])
                == canonical(entities, refs[k])
        }),
    decreases refs.len(),
{
    lemma_resolve_each(s, entities, refs);
    if refs.len() == 0 {
        assert(extends(s.graph, s.graph));
    } else {
        let rest = refs.drop_last();
        lemma_rt_resolve_each(entities, s, rest);
        let (s1, ids1) = resolve_each(s, entities, rest);
        lemma_rt_ref_step(entities, s1, refs.last());
        let (s2, res) = ref_step(s1, entities, refs.last());
        lemma_extends_trans(s.graph, s1.graph, s2.graph);
        let ids = resolve_each(s, entities, refs).1;
        assert forall|k: int| 0 <= k < ids1.len() implies valid_id(s2.graph, #[trigger] ids1[k]) && target_role(s2.graph[ids1[k] - 1].role)
            && stands_for(entities, s2.graph, ids1[k]) == stands_for(entities, s1.graph, ids1[k]) by {
            lemma_stands_for_stays(entities, s1.graph, s2.graph, ids1[k]);
        }
        if ids.len() == refs.len() {
            assert(ids1.len() == rest.len());
            assert(res is Some);
            assert forall|k: int| 0 <= k < ids.len() implies stands_for(entities, s2.graph, #[trigger] ids[k]) == canonical(entities, refs[k]) by {
                if k < ids1.len() {
                    assert(ids[k] == ids1[k]);
                    assert(rest[k] == refs[k]);
                }
            }
        }
    }
}

/// Resolving references up to the first failure keeps the group reading
/// back as written and adds no constraint; when all resolve, each node
/// stands for its reference.
pub(crate) proof fn lemma_rt_resolve_all(entities: Seq<DrawingEntity>, s: GraphState, refs: Seq<SketchRef>)
    requires
        round_trip_inv(entities, s),
        s.graph.len() + 3 * refs.len() + 2 < i32::MAX,
    ensures
        ({
            let (s2, ids) = resolve_all(s, entities, refs);
            &&& round_trip_inv(entities, s2)
            &&& extends(s.graph, s2.graph)
            &&& s2.graph.len() <= s.graph.len() + 3 * refs.len()
            &&& graph_constraints(entities, s2.graph, s2.graph.len() as int) == graph_constraints(entities, s.graph, s.graph.len() as int)
            &&& ids matches Some(ids) ==> ids.len() == refs.len() && forall|k: int| 0 <= k < ids.len() ==> valid_id(s2.graph, #[trigger] ids[k])
                && target_role(s2.graph[ids[k] - 1].role) && stands_for(entities, s2.graph, ids[k]) == canonical(entities, refs[k])
        }),
    decreases refs.len(),
{
    lemma_resolve_all(s, entities, refs);
    if refs.len() == 0 {
        assert(extends(s.graph, s.graph));
    } else {
        let rest = refs.drop_last();
        lemma_rt_resolve_all(entities, s, rest);
        let (s1, ids1) = resolve_all(s, entities, rest);
        if let Some(ids1) = ids1 {
            lemma_rt_ref_step(entities, s1, refs.last());
            let (s2, res) = ref_step(s1, entities, refs.last());
            lemma_extends_trans(s.graph, s1.graph, s2.graph);
            if let Some(id) = res {
                let ids = ids1.push(id);
                assert forall|k: int| 0 <= k < ids.len() implies valid_id(s2.graph, #[trigger] ids[k]) && target_role(
                    s2.graph[ids[k] - 1].role,
                ) && stands_for(entities, s2.graph, ids[k]) == canonical(entities, refs[k]) by {
                    if k < ids1.len() {
                        assert(ids[k] == ids1[k]);
                        assert(rest[k] == refs[k]);
                        lemma_stands_for_stays(entities, s1.graph, s2.graph, ids1[k]);
                    }
                }
            }
        }
    }
}

/// The targets' references stay as the graph grows.
proof fn lemma_targets_stay(entities: Seq<DrawingEntity>, g: Seq<NodeView>, g2: Seq<NodeView>, targets: Seq<i32>)
    requires
        extends(g, g2),
        forall|k: int| 0 <= k < targets.len() ==> 1 <= #[trigger] targets[k] <= g.len(),
    ensures
        targets_stand_for(entities, g2, targets) == targets_stand_for(entities, g, targets),
{
    assert forall|k: int| 0 <= k < targets.len() implies stands_for(entities, g2, targets[k]) == stands_for(entities, g, targets[k]) by {
        lemma_stands_for_stays(entities, g, g2, targets[k]);
    }
    assert(targets_stand_for(entities, g2, targets) =~= targets_stand_for(entities, g, targets));
}

/// Adding a constraint node over nodes a constraint can refer to keeps the
/// group reading back as written, and adds exactly that constraint.
pub(crate) proof fn lemma_rt_add_constraint(
    entities: Seq<DrawingEntity>,
    s: GraphState,
    kind: ConstraintKind,
    class_name: &'static str,
    shape: NodeShape,
    datum: Option<i32>,
    targets: Seq<i32>,
)
    requires
        round_trip_inv(entities, s),
        s.graph.len() + 2 < i32::MAX,
        targets.len() > 0,
        forall|k: int| 0 <= k < targets.len() ==> valid_id(s.graph, #[trigger] targets[k]) && target_role(s.graph[targets[k] - 1].role),
        kind_for_class(ascii_upper_seq(class_name@), shape) == Some(kind),
        has_value(shape) == is_dimensional(kind),
        !same_entity_relation(kind, targets_stand_for(entities, s.graph, targets)),
    ensures
        ({
            let s2 = add_constraint(s, kind, class_name, shape, datum, targets);
            &&& round_trip_inv(entities, s2)
            &&& extends(s.graph, s2.graph)
            &&& graph_constraints(entities, s2.graph, s2.graph.len() as int) == graph_constraints(entities, s.graph, s.graph.len() as int).push(
                (kind, targets_stand_for(entities, s.graph, targets), s.graph.len() as usize, has_value(shape)),
            )
        }),
{
    lemma_add_constraint(s, kind, class_name, shape, datum, targets);
    let g = s.graph;
    let n = g.len() as int;
    let id = n + 1;
    let role = NodeRole::Constraint { kind, owner_id: targets[0], shape, datum };
    let gp = g.push(new_node(id, class_name, role));
    let g2 = with_edges(gp, id as i32, targets);
    let s2 = add_constraint(s, kind, class_name, shape, datum, targets);
    assert(s2.graph == g2);
    lemma_with_edges_shape(gp, id as i32, targets);
    assert(gp[n].connections =~= Seq::<i32>::empty());
    assert(g2[n].connections =~= targets);
    assert forall|i: int| 0 <= i < n implies {
        &&& (#[trigger] g2[i]).role == g[i].role
        &&& g2[i].class_name == g[i].class_name
        &&& g2[i].node_id == g[i].node_id
        &&& (g[i].role is Constraint || g[i].role is PointRelation) ==> g2[i].connections == g[i].connections
    } by {
        assert(gp[i] == g[i]);
        if g[i].role is Constraint || g[i].role is PointRelation {
            assert(!targets.contains((i + 1) as i32)) by {
                if targets.contains((i + 1) as i32) {
                    let w = choose|w: int| 0 <= w < targets.len() && targets[w] == (i + 1) as i32;
                    assert(target_role(g[targets[w] - 1].role));
                }
            }
        }
    }
    assert(extends(g, g2));
    lemma_targets_stay(entities, g, g2, targets);
    assert forall|i: int| 0 <= i < g2.len() implies node_ok(entities, g2, i) by {
        if i < n {
            lemma_node_ok_stays(entities, g, g2, i);
        } else {
            assert(g2[n].role == role);
            assert forall|k: int| 0 <= k < targets.len() implies earlier_target(g2, n, #[trigger] targets[k]) by {
                assert(g2[targets[k] - 1].role == g[targets[k] - 1].role);
            }
        }
    }
    assert forall|k: (u64, i32)| #[trigger] s2.points.contains_key(k) implies (s2.graph[s2.points[k] - 1].role matches NodeRole::ImplicitPoint {
        entity,
        marker,
        ..
    } && entity == k.0 && marker == k.1) by {
        assert(g2[s.points[k] - 1].role == g[s.points[k] - 1].role);
    }
    lemma_graph_constraints_stay(entities, g, g2, n);
}

/// The references a constraint of `kind` uses: radius and diameter only
/// their first.
pub open spec fn used_refs(kind: ConstraintKind, refs: Seq<SketchRef>) -> Seq<SketchRef> {
    if kind == ConstraintKind::Radius || kind == ConstraintKind::Diameter {
        refs.take(1)
    } else {
        refs
    }
}

/// The references that written references read back as.
pub open spec fn canonical_refs(entities: Seq<DrawingEntity>, refs: Seq<SketchRef>) -> Seq<SketchRef> {
    refs.map_values(|r: SketchRef| canonical(entities, r))
}

/// A point-on-curve or center-point constraint between two references to
/// the same entity.
pub open spec fn self_relation(kind: ConstraintKind, refs: Seq<SketchRef>) -> bool {
    (kind == ConstraintKind::PointOnCurve || kind == ConstraintKind::CenterPoint) && refs.len() == 2 && refs[0].entity
        == refs[1].entity
}

/// Nodes that stand for the references read back as their canonical form.
proof fn lemma_targets_canonical(entities: Seq<DrawingEntity>, g: Seq<NodeView>, targets: Seq<i32>, refs: Seq<SketchRef>)
    requires
        targets.len() == refs.len(),
        forall|k: int| 0 <= k < targets.len() ==> stands_for(entities, g, #[trigger] targets[k]) == canonical(entities, refs[k]),
    ensures
        targets_stand_for(entities, g, targets) == canonical_refs(entities, refs),
{
    assert(targets_stand_for(entities, g, targets) =~= canonical_refs(entities, refs));
}

/// The constraint step keeps the group reading back as written and adds
/// the constraint's node, which reads back as the constraint over the
/// canonical form of the references it uses.
#[verifier::spinoff_prover]
#[verifier::rlimit(40)]
pub(crate) proof fn lemma_rt_constraint_step(entities: Seq<DrawingEntity>, s: GraphState, kind: ConstraintKind, refs: Seq<SketchRef>)
    requires
        round_trip_inv(entities, s),
        s.graph.len() + 3 * refs.len() + 3 < i32::MAX,
        !self_relation(kind, refs),
    ensures
        ({
            let (s2, r) = constraint_step(s, entities, kind, refs);
            &&& round_trip_inv(entities, s2)
            &&& extends(s.graph, s2.graph)
            &&& s2.graph.len() <= s.graph.len() + 3 * refs.len() + 2
            &&& graph_constraints(entities, s2.graph, s2.graph.len() as int) == match r {
                Some(id) => graph_constraints(entities, s.graph, s.graph.len() as int).push(
                    (kind, canonical_refs(entities, used_refs(kind, refs)), (id - 1) as usize, is_dimensional(kind)),
                ),
                None => graph_constraints(entities, s.graph, s.graph.len() as int),
            }
        }),
{
    lemma_constraint_step(s, entities, kind, refs);
    let both = refs.len() == 2 && is_straight(entities, refs[0]) && is_straight(entities, refs[1]);
    let native = native_node_spec(kind, refs.len(), both);
    if native is Some {
        lemma_native_node_round_trip(kind, refs.len(), both);
    }
    let (s2, r) = constraint_step(s, entities, kind, refs);
    match kind {
        ConstraintKind::Horizontal | ConstraintKind::Vertical => {
            if refs.len() == 1 || refs.len() == 2 {
                lemma_rt_resolve_all(entities, s, refs);
                let (s1, ids) = resolve_all(s, entities, refs);
                if let Some(targets) = ids {
                    lemma_rt_datum_step(entities, s1, kind == ConstraintKind::Horizontal);
                    let (sd, datum) = datum_step(s1, kind == ConstraintKind::Horizontal);
                    lemma_extends_trans(s.graph, s1.graph, sd.graph);
                    lemma_targets_canonical(entities, s1.graph, targets, refs);
                    lemma_targets_stay(entities, s1.graph, sd.graph, targets);
                    assert forall|k: int| 0 <= k < targets.len() implies valid_id(sd.graph, #[trigger] targets[k]) && target_role(
                        sd.graph[targets[k] - 1].role,
                    ) by {
                        assert(sd.graph[targets[k] - 1].role == s1.graph[targets[k] - 1].role);
                    }
                    lemma_rt_add_constraint(entities, sd, kind, native->0.class_name, native->0.shape, Some(datum), targets);
                    lemma_extends_trans(s.graph, sd.graph, s2.graph);
                } else {
                    assert(s2 == s1);
                }
            } else {
                assert(extends(s.graph, s2.graph));
            }
        },
        ConstraintKind::Radius | ConstraintKind::Diameter => {
            if refs.len() >= 1 {
                lemma_rt_resolve_all(entities, s, refs.take(1));
                let (s1, ids) = resolve_all(s, entities, refs.take(1));
                if let Some(targets) = ids {
                    lemma_targets_canonical(entities, s1.graph, targets, refs.take(1));
                    lemma_rt_add_constraint(entities, s1, kind, native->0.class_name, native->0.shape, None, targets);
                    lemma_extends_trans(s.graph, s1.graph, s2.graph);
                }
            } else {
                assert(extends(s.graph, s2.graph));
            }
        },
        ConstraintKind::Parallel | ConstraintKind::Equal | ConstraintKind::Distance | ConstraintKind::DistanceX
        | ConstraintKind::DistanceY | ConstraintKind::Angle => {
            if refs.len() == 2 {
                lemma_rt_resolve_all(entities, s, refs);
                let (s1, ids) = resolve_all(s, entities, refs);
                if let Some(targets) = ids {
                    lemma_targets_canonical(entities, s1.graph, targets, refs);
                    lemma_rt_add_constraint(entities, s1, kind, native->0.class_name, native->0.shape, None, targets);
                    lemma_extends_trans(s.graph, s1.graph, s2.graph);
                }
            } else {
                assert(extends(s.graph, s2.graph));
            }
        },
        ConstraintKind::ArcLength => {
            assert(extends(s.graph, s2.graph));
        },
        _ => {
            lemma_rt_resolve_each(entities, s, refs);
            let (s1, targets) = resolve_each(s, entities, refs);
            if targets.len() == refs.len() && refs.len() > 0 {
                lemma_targets_canonical(entities, s1.graph, targets, refs);
                assert(!same_entity_relation(kind, targets_stand_for(entities, s1.graph, targets))) by {
                    if targets.len() == 2 {
                        assert(canonical(entities, refs[0]).entity == refs[0].entity);
                        assert(canonical(entities, refs[1]).entity == refs[1].entity);
                    }
                }
                lemma_rt_add_constraint(entities, s1, kind, native->0.class_name, native->0.shape, None, targets);
                lemma_extends_trans(s.graph, s1.graph, s2.graph);
            }
        },
    }
}

/// The constraints that get a node when `constraints` are written, in
/// order, as they read back: kind, the canonical form of the references
/// they use, node index, and whether they carry a value.
pub open spec fn written_constraints(entities: Seq<DrawingEntity>, constraints: Seq<SketchConstraint>) -> Seq<(ConstraintKind, Seq<SketchRef>, usize, bool)>
    decreases constraints.len(),
{
    if constraints.len() == 0 {
        Seq::empty()
    } else {
        let rest = written_constraints(entities, constraints.drop_last());
        let c = constraints.last();
        if !c.enabled {
            rest
        } else {
            let s = build_state(entities, constraints.drop_last()).0;
            match constraint_step(s, entities, c.kind, c.refs@).1 {
                Some(id) => rest.push(
                    (c.kind, canonical_refs(entities, used_refs(c.kind, c.refs@)), (id - 1) as usize, is_dimensional(c.kind)),
                ),
                None => rest,
            }
        }
    }
}

/// Building a group keeps it reading back as written, and its constraint
/// nodes are the written constraints.
proof fn lemma_rt_build(entities: Seq<DrawingEntity>, constraints: Seq<SketchConstraint>)
    requires
        node_budget(constraints) + 2 <= i32::MAX,
        forall|i: int| 0 <= i < constraints.len() && (#[trigger] constraints[i]).enabled ==> !self_relation(constraints[i].kind, constraints[i].refs@),
    ensures
        ({
            let s = build_state(entities, constraints).0;
            &&& round_trip_inv(entities, s)
            &&& s.graph.len() <= node_budget(constraints)
            &&& graph_constraints(entities, s.graph, s.graph.len() as int) == written_constraints(entities, constraints)
        }),
    decreases constraints.len(),
{
    if constraints.len() == 0 {
        let s = empty_state();
        assert(round_trip_inv(entities, s));
    } else {
        let rest = constraints.drop_last();
        assert forall|i: int| 0 <= i < rest.len() && (#[trigger] rest[i]).enabled implies !self_relation(rest[i].kind, rest[i].refs@) by {
            assert(rest[i] == constraints[i]);
        }
        lemma_rt_build(entities, rest);
        let c = constraints.last();
        let s = build_state(entities, rest).0;
        if c.enabled {
            assert(constraints[constraints.len() - 1] == c);
            lemma_rt_constraint_step(entities, s, c.kind, c.refs@);
        }
    }
}

/// Writing constraints as a native group and reading it back gives every
/// constraint that got a node, in order, with its own kind, the references
/// it uses (radius and diameter use their first; a whole point-like entity
/// reads back as its point 0), its node's index and whether it carries a
/// value. Point-on-curve and center-point constraints between two
/// references to one entity are left out: they read back as the relation
/// every implicit point has with its own curve.
pub proof fn lemma_written_constraints_read_back(entities: Seq<DrawingEntity>, constraints: Seq<SketchConstraint>)
    requires
        node_budget(constraints) + 2 <= i32::MAX,
        forall|i: int| 0 <= i < constraints.len() && (#[trigger] constraints[i]).enabled ==> !self_relation(constraints[i].kind, constraints[i].refs@),
    ensures
        ({
            let g = build_state(entities, constraints).0.graph;
            let v = written_views(entities, g);
            read_spec(v, node_refs(v), g.len() as int) == written_constraints(entities, constraints)
        }),
{
    lemma_rt_build(entities, constraints);
    let s = build_state(entities, constraints).0;
    lemma_read_written(entities, s, s.graph.len() as int);
}

} // verus!
