use opencad_xref::constraint_write::{scope_write_plan, DrivingName};
use opencad_xref::constraint_graph::{
    build_group, dependency_slots, fits_node_budget, root_children, save_plan, scope_action, ScopeFacts, DrawingEntity, EntityShape, GraphNode, NodeRole, RefPart,
    ScopeAction, SketchConstraint, SketchRef, POINT_CENTER, POINT_END, POINT_START,
};
use opencad_xref::constraint_import::{
    accepts_constraint, read_constraints, requires_preservation, ReadData, ReadNode,
};
use opencad_xref::native_constraints::{
    constraint_kind_for, dimensional_class_name, geometrical_class_name, native_node, ConstraintKind, NodeShape,
};
use opencad_xref::ribbon::{tool, IconKind, ModuleEvent, ParametricModule, RibbonItem};

fn item_id(item: &RibbonItem) -> &'static str {
    match item {
        RibbonItem::Tool(tool) | RibbonItem::LargeTool(tool) => tool.id,
        RibbonItem::Dropdown { id, .. } | RibbonItem::LargeDropdown { id, .. } => id,
    }
}

#[test]
fn ribbon_uses_geometry_dimension_and_manage_panels() {
    let groups = ParametricModule.ribbon_groups();

    assert_eq!(
        groups.iter().map(|group| group.title).collect::<Vec<_>>(),
        ["Geometry", "Dimension", "Manage"]
    );
    assert_eq!(
        groups[0].tools.iter().map(item_id).collect::<Vec<_>>(),
        [
            "CCONSTRAINT",
            "PCONSTRAINT",
            "TCONSTRAINT",
            "LCONSTRAINT",
            "QCONSTRAINT",
            "PARAMETRIC_MORE",
            "NCONSTRAINT",
            "HCONSTRAINT",
            "SYCONSTRAINT",
            "FXCONSTRAINT",
            "VCONSTRAINT",
            "ECONSTRAINT",
        ]
    );
    assert_eq!(
        groups[1].tools.iter().map(item_id).collect::<Vec<_>>(),
        ["DCONSTRAINT", "ACONSTRAINT"]
    );
    assert_eq!(item_id(&groups[2].tools[0]), "PARAMETERS");

    let RibbonItem::Dropdown { items, .. } = &groups[0].tools[5] else {
        panic!("additional geometric constraints must stay in a dropdown");
    };
    assert_eq!(
        items.iter().map(|(id, _, _)| *id).collect::<Vec<_>>(),
        [
            "NRCONSTRAINT",
            "CPCONSTRAINT",
            "MPCONSTRAINT",
            "OCCONSTRAINT",
            "EDCONSTRAINT",
        ]
    );
}

#[test]
fn module_identity_and_jog_tool() {
    assert_eq!(ParametricModule.id(), "parametric");
    assert_eq!(ParametricModule.title(), "Parametric");
    let t = tool();
    assert_eq!(t.id, "DIMJOGLINE");
    assert_eq!(t.label, "Jog Line");
    assert_eq!(t.icon, IconKind::Svg("dim_jog.svg"));
    assert_eq!(t.event, ModuleEvent::Command("DIMJOGLINE".to_string()));
}

const ALL_KINDS: [ConstraintKind; 24] = [
    ConstraintKind::Coincident,
    ConstraintKind::Horizontal,
    ConstraintKind::Vertical,
    ConstraintKind::Parallel,
    ConstraintKind::Perpendicular,
    ConstraintKind::Tangent,
    ConstraintKind::Smooth,
    ConstraintKind::Equal,
    ConstraintKind::Concentric,
    ConstraintKind::CenterPoint,
    ConstraintKind::Colinear,
    ConstraintKind::Fixed,
    ConstraintKind::Midpoint,
    ConstraintKind::PointOnCurve,
    ConstraintKind::Symmetric,
    ConstraintKind::Normal,
    ConstraintKind::EqualDistance,
    ConstraintKind::Distance,
    ConstraintKind::Angle,
    ConstraintKind::Radius,
    ConstraintKind::Diameter,
    ConstraintKind::DistanceX,
    ConstraintKind::DistanceY,
    ConstraintKind::ArcLength,
];

#[test]
fn every_native_node_reads_back_as_its_kind() {
    for kind in ALL_KINDS {
        for both_straight in [false, true] {
            match native_node(kind, 2, both_straight) {
                Some(node) => {
                    assert_eq!(constraint_kind_for(node.class_name, node.shape), Some(kind), "{kind:?}");
                    let lower = node.class_name.to_ascii_lowercase();
                    assert_eq!(constraint_kind_for(&lower, node.shape), Some(kind), "{kind:?}");
                }
                None => assert_eq!(kind, ConstraintKind::ArcLength),
            }
        }
    }
}

#[test]
fn class_names_of_the_constraint_kinds() {
    assert_eq!(geometrical_class_name(ConstraintKind::Coincident), Some("AcPointCoincidenceConstraint"));
    assert_eq!(geometrical_class_name(ConstraintKind::Smooth), Some("AcG2SmoothConstraint"));
    assert_eq!(geometrical_class_name(ConstraintKind::Equal), None);
    assert_eq!(geometrical_class_name(ConstraintKind::ArcLength), None);
    assert_eq!(dimensional_class_name(ConstraintKind::DistanceY), "AcDistanceConstraint");
    assert_eq!(dimensional_class_name(ConstraintKind::Diameter), "AcRadiusDiameterConstraint");
    assert_eq!(dimensional_class_name(ConstraintKind::Tangent), "");
    assert_eq!(native_node(ConstraintKind::Equal, 2, true).unwrap().class_name, "AcEqualLengthConstraint");
    assert_eq!(native_node(ConstraintKind::Equal, 2, false).unwrap().class_name, "AcEqualRadiusConstraint");
    assert_eq!(native_node(ConstraintKind::Horizontal, 3, false), None);
    assert_eq!(native_node(ConstraintKind::Parallel, 1, false), None);
    assert_eq!(native_node(ConstraintKind::Radius, 3, false).unwrap().shape, NodeShape::RadiusDiameter { mode: 0 });
    assert_eq!(native_node(ConstraintKind::Coincident, 0, false), None);
}

#[test]
fn distance_and_radius_nodes_read_back_by_their_data() {
    let d = NodeShape::Distance { direction_type: 0, x_dominant: None };
    assert_eq!(constraint_kind_for("AcDistanceConstraint", d), Some(ConstraintKind::Distance));
    let x = NodeShape::Distance { direction_type: 1, x_dominant: Some(true) };
    assert_eq!(constraint_kind_for("AcDistanceConstraint", x), Some(ConstraintKind::DistanceX));
    let y = NodeShape::Distance { direction_type: 1, x_dominant: None };
    assert_eq!(constraint_kind_for("AcDistanceConstraint", y), Some(ConstraintKind::DistanceY));
    assert_eq!(constraint_kind_for("AcDistanceConstraint", NodeShape::Angle), None);
    let dia = NodeShape::RadiusDiameter { mode: 1 };
    assert_eq!(constraint_kind_for("ACRADIUSDIAMETERCONSTRAINT", dia), Some(ConstraintKind::Diameter));
    assert_eq!(constraint_kind_for("Ac3PointAngleConstraint", NodeShape::Angle), Some(ConstraintKind::Angle));
    assert_eq!(constraint_kind_for("AcFooConstraint", NodeShape::Geometrical), None);
}

fn r(entity: u64, part: RefPart) -> SketchRef {
    SketchRef { entity, part }
}

fn constraint(kind: ConstraintKind, refs: Vec<SketchRef>) -> SketchConstraint {
    SketchConstraint { kind, refs, enabled: true }
}

fn drawing() -> Vec<DrawingEntity> {
    vec![
        DrawingEntity { handle: 10, shape: EntityShape::Line },
        DrawingEntity { handle: 20, shape: EntityShape::Circle },
        DrawingEntity { handle: 30, shape: EntityShape::Polyline { closed: false, straight: vec![true, false, true] } },
        DrawingEntity { handle: 40, shape: EntityShape::PointLike },
        DrawingEntity { handle: 50, shape: EntityShape::Other },
    ]
}

fn node<'a>(nodes: &'a [GraphNode], id: i32) -> &'a GraphNode {
    &nodes[(id - 1) as usize]
}

#[test]
fn group_nodes_are_made_once_and_connected_both_ways() {
    let mut disabled = constraint(ConstraintKind::Fixed, vec![r(40, RefPart::Whole)]);
    disabled.enabled = false;
    let constraints = vec![
        constraint(ConstraintKind::Coincident, vec![r(10, RefPart::Point(1)), r(20, RefPart::Point(-3))]),
        constraint(ConstraintKind::Horizontal, vec![r(10, RefPart::Whole)]),
        constraint(ConstraintKind::Distance, vec![r(10, RefPart::Point(0)), r(10, RefPart::Point(1))]),
        disabled,
        constraint(ConstraintKind::Radius, vec![r(20, RefPart::Whole)]),
    ];
    let group = build_group(drawing(), &constraints);
    let nodes = &group.nodes;
    assert_eq!(nodes.len(), 13);
    for (i, n) in nodes.iter().enumerate() {
        assert_eq!(n.node_id, i as i32 + 1);
    }
    assert_eq!(node(nodes, 1).class_name, "AcConstrainedBoundedLine");
    assert_eq!(node(nodes, 1).role, NodeRole::Geometry { entity: 10 });
    assert_eq!(node(nodes, 2).role, NodeRole::ImplicitPoint { point_type: POINT_END, curve_id: 1, entity: 10, marker: 1 });
    assert_eq!(node(nodes, 3).class_name, "AcPointCurveConstraint");
    assert_eq!(node(nodes, 4).class_name, "AcConstrainedCircle");
    assert_eq!(node(nodes, 5).role, NodeRole::ImplicitPoint { point_type: POINT_CENTER, curve_id: 4, entity: 20, marker: -3 });
    assert_eq!(node(nodes, 6).class_name, "AcCenterPointConstraint");
    assert_eq!(node(nodes, 7).class_name, "AcPointCoincidenceConstraint");
    assert_eq!(
        node(nodes, 7).role,
        NodeRole::Constraint { kind: ConstraintKind::Coincident, owner_id: 2, shape: NodeShape::Geometrical, datum: None }
    );
    assert_eq!(node(nodes, 8).role, NodeRole::Datum { horizontal: true });
    assert_eq!(node(nodes, 8).class_name, "AcConstrainedDatumLine");
    assert_eq!(
        node(nodes, 9).role,
        NodeRole::Constraint {
            kind: ConstraintKind::Horizontal,
            owner_id: 1,
            shape: NodeShape::Parallel { datum: Some(true) },
            datum: Some(8),
        }
    );
    assert_eq!(node(nodes, 9).class_name, "AcHorizontalConstraint");
    assert_eq!(node(nodes, 10).role, NodeRole::ImplicitPoint { point_type: POINT_START, curve_id: 1, entity: 10, marker: 0 });
    assert_eq!(node(nodes, 12).class_name, "AcDistanceConstraint");
    assert_eq!(node(nodes, 13).class_name, "AcRadiusDiameterConstraint");

    assert_eq!(node(nodes, 1).connections, vec![3, 9, 11]);
    assert_eq!(node(nodes, 2).connections, vec![3, 7, 12]);
    assert_eq!(node(nodes, 3).connections, vec![2, 1]);
    assert_eq!(node(nodes, 4).connections, vec![6, 13]);
    assert_eq!(node(nodes, 5).connections, vec![6, 7]);
    assert_eq!(node(nodes, 7).connections, vec![2, 5]);
    assert_eq!(node(nodes, 8).connections, Vec::<i32>::new());
    assert_eq!(node(nodes, 12).connections, vec![10, 2]);
    for a in nodes {
        for &b in &a.connections {
            let back = node(nodes, b).connections.iter().filter(|&&c| c == a.node_id).count();
            let forth = a.connections.iter().filter(|&&c| c == b).count();
            assert_eq!(back, forth);
        }
    }

    assert_eq!(group.referenced, vec![10, 20]);
    assert_eq!(group.value_nodes, vec![(12, 2), (13, 4)]);
    let slots = dependency_slots(&group);
    assert_eq!(slots[0], Some(0));
    assert_eq!(slots[3], Some(1));
    assert_eq!(slots[1], None);
    assert_eq!(slots[6], None);
}

#[test]
fn polyline_segments_and_unresolvable_references() {
    let constraints = vec![
        constraint(ConstraintKind::Equal, vec![r(30, RefPart::Segment(0)), r(10, RefPart::Whole)]),
        constraint(ConstraintKind::Parallel, vec![r(30, RefPart::Segment(1)), r(10, RefPart::Whole)]),
        constraint(ConstraintKind::Coincident, vec![r(30, RefPart::Point(2)), r(50, RefPart::Whole)]),
        constraint(ConstraintKind::Fixed, vec![r(40, RefPart::Point(0))]),
        constraint(ConstraintKind::Equal, vec![r(20, RefPart::Whole), r(10, RefPart::Whole)]),
        constraint(ConstraintKind::ArcLength, vec![r(20, RefPart::Whole)]),
    ];
    let group = build_group(drawing(), &constraints);
    let nodes = &group.nodes;
    assert_eq!(node(nodes, 1).role, NodeRole::Segment { entity: 30, index: 0 });
    assert_eq!(node(nodes, 1).class_name, "AcConstrainedBoundedLine");
    assert_eq!(node(nodes, 2).role, NodeRole::Geometry { entity: 10 });
    assert_eq!(node(nodes, 3).class_name, "AcEqualLengthConstraint");
    // Segment 1 bulges, so the parallel constraint and the point on its end
    // get no node; the point-like entity's point 0 is its geometry node.
    assert_eq!(node(nodes, 4).role, NodeRole::Geometry { entity: 40 });
    assert_eq!(node(nodes, 4).class_name, "AcConstrainedPoint");
    assert_eq!(node(nodes, 5).class_name, "AcFixedConstraint");
    assert_eq!(node(nodes, 6).role, NodeRole::Geometry { entity: 20 });
    assert_eq!(node(nodes, 7).class_name, "AcEqualRadiusConstraint");
    assert_eq!(nodes.len(), 7);
    assert_eq!(group.referenced, vec![30, 10, 40, 20]);
    assert!(group.value_nodes.is_empty());
}

#[test]
fn open_polyline_last_vertex_is_the_end_of_the_segment_before_it() {
    let entities = vec![DrawingEntity {
        handle: 7,
        shape: EntityShape::Polyline { closed: false, straight: vec![true, true] },
    }];
    let constraints = vec![constraint(ConstraintKind::Fixed, vec![r(7, RefPart::Point(1))])];
    let group = build_group(entities, &constraints);
    assert_eq!(group.nodes[0].role, NodeRole::Segment { entity: 7, index: 0 });
    assert_eq!(group.nodes[1].role, NodeRole::ImplicitPoint { point_type: POINT_END, curve_id: 1, entity: 7, marker: 1 });
    assert_eq!(group.nodes.len(), 4);
}

#[test]
fn save_actions_per_scope() {
    assert_eq!(scope_action(false, false, false), ScopeAction::Skip);
    assert_eq!(scope_action(false, false, true), ScopeAction::Skip);
    assert_eq!(scope_action(false, true, false), ScopeAction::Rebuild);
    assert_eq!(scope_action(true, false, true), ScopeAction::Preserve);
    assert_eq!(scope_action(true, true, false), ScopeAction::Rebuild);
}

fn geometry(id: i32, class: &str, entity: u64, point: bool, connections: Vec<i32>) -> ReadNode {
    ReadNode {
        node_id: id,
        class_name: class.to_string(),
        data: ReadData::Geometry { dependent: true, entity: Some(entity), point, segment: None, point_count: 2 },
        connections,
    }
}

fn relation(id: i32, class: &str, owner: i32, shape: NodeShape, valued: bool, connections: Vec<i32>) -> ReadNode {
    ReadNode {
        node_id: id,
        class_name: class.to_string(),
        data: ReadData::Constraint { owner_id: owner, is_active: true, shape, valued },
        connections,
    }
}

#[test]
fn a_native_group_reads_back_as_constraints() {
    let nodes = vec![
        geometry(1, "AcConstrainedBoundedLine", 10, false, vec![3, 9]),
        ReadNode {
            node_id: 2,
            class_name: "AcConstrainedImplicitPoint".to_string(),
            data: ReadData::ImplicitPoint { point_type: POINT_END, curve_id: 1 },
            connections: vec![3, 7],
        },
        relation(3, "AcPointCurveConstraint", 0, NodeShape::Geometrical, false, vec![2, 1]),
        geometry(4, "AcConstrainedCircle", 20, false, vec![6, 7, 10]),
        ReadNode {
            node_id: 5,
            class_name: "AcConstrainedImplicitPoint".to_string(),
            data: ReadData::ImplicitPoint { point_type: POINT_CENTER, curve_id: 4 },
            connections: vec![6, 7],
        },
        relation(6, "AcCenterPointConstraint", 0, NodeShape::Geometrical, false, vec![5, 4]),
        relation(7, "AcPointCoincidenceConstraint", 2, NodeShape::Geometrical, false, vec![2, 5]),
        relation(9, "AcHorizontalConstraint", 1, NodeShape::Parallel { datum: Some(true) }, false, vec![]),
        relation(10, "AcRadiusDiameterConstraint", 4, NodeShape::RadiusDiameter { mode: 1 }, true, vec![4]),
        ReadNode {
            node_id: 11,
            class_name: "AcVerticalConstraint".to_string(),
            data: ReadData::Constraint {
                owner_id: 1,
                is_active: false,
                shape: NodeShape::Parallel { datum: Some(false) },
                valued: false,
            },
            connections: vec![1],
        },
    ];
    let read = read_constraints(&nodes);
    assert_eq!(read.len(), 3);
    assert_eq!(read[0].kind, ConstraintKind::Coincident);
    assert_eq!(read[0].targets, vec![r(10, RefPart::Point(1)), r(20, RefPart::Point(-3))]);
    assert_eq!(read[0].node_index, 6);
    assert!(!read[0].valued);
    assert_eq!(read[1].kind, ConstraintKind::Horizontal);
    assert_eq!(read[1].targets, vec![r(10, RefPart::Whole)]);
    assert_eq!(read[2].kind, ConstraintKind::Diameter);
    assert_eq!(read[2].targets, vec![r(20, RefPart::Whole)]);
    assert!(read[2].valued);
    assert!(!requires_preservation(&nodes));
}

#[test]
fn segment_points_read_back_as_vertex_markers() {
    let nodes = vec![
        ReadNode {
            node_id: 1,
            class_name: "AcConstrainedBoundedLine".to_string(),
            data: ReadData::Geometry { dependent: true, entity: Some(30), point: false, segment: Some(2), point_count: 3 },
            connections: vec![],
        },
        ReadNode {
            node_id: 2,
            class_name: "AcConstrainedImplicitPoint".to_string(),
            data: ReadData::ImplicitPoint { point_type: POINT_END, curve_id: 1 },
            connections: vec![],
        },
        ReadNode {
            node_id: 3,
            class_name: "AcConstrainedPoint".to_string(),
            data: ReadData::Geometry { dependent: true, entity: Some(40), point: true, segment: None, point_count: 1 },
            connections: vec![],
        },
        relation(4, "AcPointCoincidenceConstraint", 2, NodeShape::Geometrical, false, vec![3]),
    ];
    let read = read_constraints(&nodes);
    assert_eq!(read.len(), 1);
    assert_eq!(read[0].targets, vec![r(30, RefPart::Point(0)), r(40, RefPart::Point(0))]);
}

#[test]
fn read_constraints_are_kept_by_count_and_driving_value() {
    assert!(accepts_constraint(ConstraintKind::Horizontal, 1, false));
    assert!(accepts_constraint(ConstraintKind::Vertical, 2, false));
    assert!(!accepts_constraint(ConstraintKind::Horizontal, 3, false));
    assert!(accepts_constraint(ConstraintKind::Symmetric, 3, false));
    assert!(!accepts_constraint(ConstraintKind::Symmetric, 2, false));
    assert!(accepts_constraint(ConstraintKind::EqualDistance, 4, false));
    assert!(accepts_constraint(ConstraintKind::Fixed, 1, false));
    assert!(!accepts_constraint(ConstraintKind::Radius, 1, false));
    assert!(accepts_constraint(ConstraintKind::Radius, 1, true));
    assert!(!accepts_constraint(ConstraintKind::Distance, 1, true));
    assert!(accepts_constraint(ConstraintKind::Distance, 2, true));
    assert!(accepts_constraint(ConstraintKind::Coincident, 2, false));
}

#[test]
fn groups_with_unknown_content_are_preserved() {
    let rigid = vec![ReadNode { node_id: 1, class_name: "AcRigidSet".to_string(), data: ReadData::RigidSet, connections: vec![] }];
    assert!(requires_preservation(&rigid));
    let dangling = vec![ReadNode {
        node_id: 1,
        class_name: "AcConstrainedCircle".to_string(),
        data: ReadData::Geometry { dependent: true, entity: None, point: false, segment: None, point_count: 0 },
        connections: vec![],
    }];
    assert!(requires_preservation(&dangling));
    let unknown = vec![relation(1, "acspecialconstraint", 0, NodeShape::Geometrical, false, vec![])];
    assert!(requires_preservation(&unknown));
    let known = vec![relation(1, "acparallelconstraint", 0, NodeShape::Geometrical, false, vec![])];
    assert!(!requires_preservation(&known));
    let other = vec![ReadNode { node_id: 1, class_name: "AcConstrainedDatumLine".to_string(), data: ReadData::Other, connections: vec![] }];
    assert!(!requires_preservation(&other));
}

#[test]
fn node_budget_check() {
    let small = vec![constraint(ConstraintKind::Fixed, vec![r(40, RefPart::Whole)])];
    assert!(fits_node_budget(&small));
    assert!(fits_node_budget(&vec![]));
}

fn written(entities: &[DrawingEntity], n: &GraphNode) -> ReadNode {
    let shape_of = |h: u64| entities.iter().find(|e| e.handle == h).map(|e| &e.shape);
    let count = |h: u64| match shape_of(h) {
        Some(EntityShape::Polyline { straight, .. }) => straight.len(),
        _ => 0,
    };
    let data = match n.role {
        NodeRole::Geometry { entity } => ReadData::Geometry {
            dependent: true,
            entity: Some(entity),
            point: matches!(shape_of(entity), Some(EntityShape::PointLike)),
            segment: None,
            point_count: count(entity),
        },
        NodeRole::Segment { entity, index } => {
            ReadData::Geometry { dependent: true, entity: Some(entity), point: false, segment: Some(index), point_count: count(entity) }
        }
        NodeRole::ImplicitPoint { point_type, curve_id, .. } => ReadData::ImplicitPoint { point_type, curve_id },
        NodeRole::PointRelation => {
            ReadData::Constraint { owner_id: 0, is_active: true, shape: NodeShape::Geometrical, valued: false }
        }
        NodeRole::Datum { .. } => {
            ReadData::Geometry { dependent: false, entity: None, point: false, segment: None, point_count: 0 }
        }
        NodeRole::Constraint { owner_id, shape, .. } => ReadData::Constraint {
            owner_id,
            is_active: true,
            shape: match shape {
                NodeShape::Parallel { .. } => NodeShape::Parallel { datum: None },
                other => other,
            },
            valued: matches!(shape, NodeShape::Distance { .. } | NodeShape::Angle | NodeShape::RadiusDiameter { .. }),
        },
    };
    ReadNode { node_id: n.node_id, class_name: n.class_name.to_string(), data, connections: n.connections.clone() }
}

#[test]
fn written_constraints_read_back_as_written() {
    let entities = drawing();
    let constraints = vec![
        constraint(ConstraintKind::Coincident, vec![r(10, RefPart::Point(1)), r(20, RefPart::Point(-3))]),
        constraint(ConstraintKind::Vertical, vec![r(30, RefPart::Segment(0)), r(10, RefPart::Whole)]),
        constraint(ConstraintKind::Fixed, vec![r(40, RefPart::Whole)]),
        constraint(ConstraintKind::Diameter, vec![r(20, RefPart::Whole), r(10, RefPart::Whole)]),
        constraint(ConstraintKind::PointOnCurve, vec![r(30, RefPart::Point(1)), r(20, RefPart::Whole)]),
        constraint(ConstraintKind::DistanceX, vec![r(10, RefPart::Point(0)), r(40, RefPart::Point(0))]),
    ];
    let group = build_group(drawing(), &constraints);
    let nodes: Vec<ReadNode> = group.nodes.iter().map(|n| written(&entities, n)).collect();
    let read = read_constraints(&nodes);
    let got: Vec<(ConstraintKind, Vec<SketchRef>)> = read.iter().map(|c| (c.kind, c.targets.clone())).collect();
    assert_eq!(
        got,
        vec![
            (ConstraintKind::Coincident, vec![r(10, RefPart::Point(1)), r(20, RefPart::Point(-3))]),
            (ConstraintKind::Vertical, vec![r(30, RefPart::Segment(0)), r(10, RefPart::Whole)]),
            (ConstraintKind::Fixed, vec![r(40, RefPart::Point(0))]),
            (ConstraintKind::Diameter, vec![r(20, RefPart::Whole)]),
            (ConstraintKind::DistanceX, vec![r(10, RefPart::Point(0)), r(40, RefPart::Point(0))]),
        ]
    );
    assert_eq!(read.iter().map(|c| c.valued).collect::<Vec<_>>(), vec![false, false, false, true, true]);
}

#[test]
fn horizontal_and_vertical_lines_get_geometry_datum_and_constraint_nodes() {
    let entities = vec![
        DrawingEntity { handle: 1, shape: EntityShape::Line },
        DrawingEntity { handle: 2, shape: EntityShape::Line },
    ];
    let constraints = vec![
        constraint(ConstraintKind::Horizontal, vec![r(1, RefPart::Whole)]),
        constraint(ConstraintKind::Vertical, vec![r(2, RefPart::Whole)]),
    ];
    let group = build_group(entities, &constraints);
    // Two geometry nodes, two datums and two constraints; the format's root
    // node comes on top of these when the group is written.
    assert_eq!(group.nodes.len(), 6);
    let names: Vec<&str> = group.nodes.iter().map(|n| n.class_name).collect();
    assert!(names.contains(&"AcHorizontalConstraint"));
    assert!(names.contains(&"AcVerticalConstraint"));
    assert_eq!(names.iter().filter(|&&n| n == "AcConstrainedBoundedLine").count(), 2);
    let datums: Vec<i32> = group
        .nodes
        .iter()
        .filter_map(|n| match n.role {
            NodeRole::Constraint { datum: Some(d), .. } => Some(d),
            _ => None,
        })
        .collect();
    assert_eq!(datums.len(), 2);
    assert!(datums.iter().all(|&d| node(&group.nodes, d).class_name == "AcConstrainedDatumLine"));
}

#[test]
fn an_empty_constraint_set_leaves_no_native_network() {
    let entities = vec![DrawingEntity { handle: 1, shape: EntityShape::Line }];
    let group = build_group(entities, &vec![]);
    assert!(group.nodes.is_empty());
    let mut disabled = constraint(ConstraintKind::Horizontal, vec![r(1, RefPart::Whole)]);
    disabled.enabled = false;
    let group = build_group(vec![DrawingEntity { handle: 1, shape: EntityShape::Line }], &vec![disabled]);
    assert!(group.nodes.is_empty());
}

#[test]
fn the_setting_off_skips_a_scope_with_no_existing_native_graph() {
    assert_eq!(scope_action(false, false, false), ScopeAction::Skip);
}

#[test]
fn the_setting_off_still_resyncs_a_scope_that_already_has_a_native_graph() {
    assert_eq!(scope_action(true, false, false), ScopeAction::Rebuild);
    assert_eq!(scope_action(false, true, false), ScopeAction::Rebuild);
}

#[test]
fn the_setting_off_does_not_remove_an_existing_native_graph() {
    assert_ne!(scope_action(false, true, false), ScopeAction::Skip);
}

#[test]
fn resaving_preserves_a_native_group_with_uneditable_geometry() {
    let nodes = vec![
        geometry(1, "AcConstrainedBoundedLine", 10, false, vec![2]),
        relation(2, "AcHorizontalConstraint", 1, NodeShape::Parallel { datum: None }, false, vec![1]),
        ReadNode { node_id: 99, class_name: "AcConstrainedRigidSet".to_string(), data: ReadData::RigidSet, connections: vec![] },
    ];
    assert!(requires_preservation(&nodes));
    assert_eq!(scope_action(true, true, requires_preservation(&nodes)), ScopeAction::Preserve);
}

fn facts(has_owner: bool, has_network: bool, requires_preservation: bool, network: Option<u64>) -> ScopeFacts {
    ScopeFacts { has_owner, has_network, requires_preservation, network }
}

#[test]
fn a_save_plans_each_scope_in_order() {
    let scopes = vec![
        facts(true, false, false, None),
        facts(false, true, false, Some(5)),
        facts(true, true, true, Some(7)),
        facts(true, true, false, Some(9)),
        facts(true, true, true, None),
    ];
    let on = save_plan(true, &scopes);
    assert_eq!(on.rebuild, vec![0, 3]);
    assert_eq!(on.preserved, vec![7]);
    let off = save_plan(false, &scopes);
    assert_eq!(off.rebuild, vec![3]);
    assert_eq!(off.preserved, vec![7]);
    assert!(save_plan(false, &vec![facts(true, false, false, None)]).rebuild.is_empty());
    assert_eq!(root_children(&vec![7], &vec![None, Some(11), Some(12)]), vec![7, 11, 12]);
    assert!(root_children(&vec![], &vec![None]).is_empty());
}

fn dimensioned_group() -> opencad_xref::constraint_graph::ConstraintGroup {
    let constraints = vec![
        constraint(ConstraintKind::Coincident, vec![r(10, RefPart::Point(1)), r(20, RefPart::Point(-3))]),
        constraint(ConstraintKind::Horizontal, vec![r(10, RefPart::Whole)]),
        constraint(ConstraintKind::Distance, vec![r(10, RefPart::Point(0)), r(10, RefPart::Point(1))]),
        constraint(ConstraintKind::Radius, vec![r(20, RefPart::Whole)]),
    ];
    build_group(drawing(), &constraints)
}

#[test]
fn a_scope_write_plans_dependencies_variables_and_indexes() {
    let group = dimensioned_group();
    assert_eq!(group.referenced, vec![10, 20]);
    assert_eq!(group.value_nodes, vec![(12, 2), (13, 3)]);

    let plan = scope_write_plan(&group, &vec![Some(DrivingName::Named("gap".to_string())), Some(DrivingName::Literal)]);
    let geometry: Vec<(u64, i32, Vec<i32>)> = plan.geometry.iter().map(|w| (w.entity, w.index, w.nodes.clone())).collect();
    assert_eq!(geometry, vec![(10, 1, vec![1]), (20, 2, vec![4])]);
    let values: Vec<(i32, String, usize, i32)> =
        plan.values.iter().map(|w| (w.node_id, w.name.clone(), w.variable, w.dependency_id)).collect();
    assert_eq!(values, vec![(12, "gap".to_string(), 0, 3), (13, "d13".to_string(), 1, 4)]);
    assert_eq!(plan.variables, vec!["gap".to_string(), "d13".to_string()]);
    assert_eq!((plan.group_action_index, plan.max_dependency_index, plan.network_action_index), (3, 5, 3));

    // One parameter driving two constraints is one shared variable.
    let shared = scope_write_plan(
        &group,
        &vec![Some(DrivingName::Named("gap".to_string())), Some(DrivingName::Named("gap".to_string()))],
    );
    assert_eq!(shared.variables, vec!["gap".to_string()]);
    assert_eq!(shared.values.iter().map(|w| w.variable).collect::<Vec<_>>(), vec![0, 0]);
    assert_eq!((shared.group_action_index, shared.max_dependency_index, shared.network_action_index), (2, 5, 2));

    // A value that did not resolve gets no dependency.
    let partial = scope_write_plan(&group, &vec![None, Some(DrivingName::Literal)]);
    let values: Vec<(i32, String, i32)> = partial.values.iter().map(|w| (w.node_id, w.name.clone(), w.dependency_id)).collect();
    assert_eq!(values, vec![(13, "d13".to_string(), 3)]);
    assert_eq!((partial.group_action_index, partial.max_dependency_index), (2, 4));
}
