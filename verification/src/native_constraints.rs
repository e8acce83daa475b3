//! Native (DWG associative-network) class names for sketch constraints,
//! both directions: the node a constraint is written as, and the constraint
//! a native node reads back as.
use vstd::prelude::*;

use crate::text::{ascii_upper_seq, chars_eq_str, chars_of, upper_ascii_char};

verus! {

/// The kinds of persistent sketch constraints.
#[derive(Clone, Copy, Debug, PartialEq, Eq, Structural)]
pub enum ConstraintKind {
    Coincident,
    Horizontal,
    Vertical,
    Parallel,
    Perpendicular,
    Tangent,
    Smooth,
    Equal,
    Concentric,
    CenterPoint,
    Colinear,
    Fixed,
    Midpoint,
    PointOnCurve,
    Symmetric,
    Normal,
    EqualDistance,
    Distance,
    Angle,
    Radius,
    Diameter,
    DistanceX,
    DistanceY,
    ArcLength,
}

/// Class name for a plain `Geometrical`-shaped constraint; `None` for
/// kinds with another node shape, for `Equal` (whose class depends on the
/// referenced entities) and for `ArcLength` (no native class at all).
pub fn geometrical_class_name(kind: ConstraintKind) -> (r: Option<&'static str>)
    ensures
        r == geometrical_class_spec(kind),
{
    match kind {
        ConstraintKind::Coincident => Some("AcPointCoincidenceConstraint"),
        ConstraintKind::Perpendicular => Some("AcPerpendicularConstraint"),
        ConstraintKind::Tangent => Some("AcTangentConstraint"),
        ConstraintKind::Smooth => Some("AcG2SmoothConstraint"),
        ConstraintKind::Normal => Some("AcNormalConstraint"),
        ConstraintKind::Concentric => Some("AcConcentricConstraint"),
        ConstraintKind::CenterPoint => Some("AcCenterPointConstraint"),
        ConstraintKind::Colinear => Some("AcColinearConstraint"),
        ConstraintKind::Fixed => Some("AcFixedConstraint"),
        ConstraintKind::Midpoint => Some("AcMidPointConstraint"),
        ConstraintKind::PointOnCurve => Some("AcPointCurveConstraint"),
        ConstraintKind::Symmetric => Some("AcSymmetricConstraint"),
        ConstraintKind::EqualDistance => Some("AcEqualDistanceConstraint"),
        _ => None,
    }
}

/// The geometrical class names as a specification.
pub open spec fn geometrical_class_spec(kind: ConstraintKind) -> Option<&'static str> {
    match kind {
        ConstraintKind::Coincident => Some("AcPointCoincidenceConstraint"),
        ConstraintKind::Perpendicular => Some("AcPerpendicularConstraint"),
        ConstraintKind::Tangent => Some("AcTangentConstraint"),
        ConstraintKind::Smooth => Some("AcG2SmoothConstraint"),
        ConstraintKind::Normal => Some("AcNormalConstraint"),
        ConstraintKind::Concentric => Some("AcConcentricConstraint"),
        ConstraintKind::CenterPoint => Some("AcCenterPointConstraint"),
        ConstraintKind::Colinear => Some("AcColinearConstraint"),
        ConstraintKind::Fixed => Some("AcFixedConstraint"),
        ConstraintKind::Midpoint => Some("AcMidPointConstraint"),
        ConstraintKind::PointOnCurve => Some("AcPointCurveConstraint"),
        ConstraintKind::Symmetric => Some("AcSymmetricConstraint"),
        ConstraintKind::EqualDistance => Some("AcEqualDistanceConstraint"),
        _ => None,
    }
}

/// `Diameter`/`DistanceX`/`DistanceY` reuse `Radius`'/`Distance`'s own
/// class (the node's mode byte tells them apart); kinds without a
/// dimensional class give the empty name.
pub fn dimensional_class_name(kind: ConstraintKind) -> (r: &'static str)
    ensures
        r == dimensional_class_spec(kind),
{
    match kind {
        ConstraintKind::Distance | ConstraintKind::DistanceX | ConstraintKind::DistanceY => {
            "AcDistanceConstraint"
        },
        ConstraintKind::Angle => "AcAngleConstraint",
        ConstraintKind::Radius | ConstraintKind::Diameter => "AcRadiusDiameterConstraint",
        _ => "",
    }
}

/// The dimensional class names as a specification.
pub open spec fn dimensional_class_spec(kind: ConstraintKind) -> &'static str {
    match kind {
        ConstraintKind::Distance | ConstraintKind::DistanceX | ConstraintKind::DistanceY => {
            "AcDistanceConstraint"
        },
        ConstraintKind::Angle => "AcAngleConstraint",
        ConstraintKind::Radius | ConstraintKind::Diameter => "AcRadiusDiameterConstraint",
        _ => "",
    }
}

/// The shape of a native constraint node's data, as far as reading a
/// constraint back needs it.
#[derive(Clone, Copy, Debug, PartialEq, Eq, Structural)]
pub enum NodeShape {
    /// A plain geometrical node.
    Geometrical,
    /// A parallel-shaped node; `datum` holds whether its datum line is the
    /// horizontal one, when it has a datum line.
    Parallel { datum: Option<bool> },
    /// A distance node: direction type (0 = undirected) and, for a fixed
    /// direction, whether its X component dominates (`|x| >= |y|`).
    Distance { direction_type: u8, x_dominant: Option<bool> },
    /// An angle node.
    Angle,
    /// A radius/diameter node (mode 1 = diameter).
    RadiusDiameter { mode: u8 },
}

/// A native constraint node: class name and data shape.
#[derive(Clone, Copy, Debug, PartialEq, Eq)]
pub struct NativeNode {
    pub class_name: &'static str,
    pub shape: NodeShape,
}

/// The node a constraint of `kind` over `ref_count` references is written
/// as (`both_straight`: an `Equal` constraint's two references are both
/// straight segments). `None` when the kind has no native node or the
/// reference count does not fit it.
pub open spec fn native_node_spec(kind: ConstraintKind, ref_count: nat, both_straight: bool) -> Option<NativeNode> {
    if geometrical_class_spec(kind) is Some {
        if ref_count == 0 {
            None
        } else {
            Some(NativeNode { class_name: geometrical_class_spec(kind)->0, shape: NodeShape::Geometrical })
        }
    } else {
        match kind {
            ConstraintKind::Horizontal => if ref_count == 1 || ref_count == 2 {
                Some(NativeNode { class_name: "AcHorizontalConstraint", shape: NodeShape::Parallel { datum: Some(true) } })
            } else {
                None
            },
            ConstraintKind::Vertical => if ref_count == 1 || ref_count == 2 {
                Some(NativeNode { class_name: "AcVerticalConstraint", shape: NodeShape::Parallel { datum: Some(false) } })
            } else {
                None
            },
            ConstraintKind::Parallel => if ref_count == 2 {
                Some(NativeNode { class_name: "AcParallelConstraint", shape: NodeShape::Parallel { datum: None } })
            } else {
                None
            },
            ConstraintKind::Equal => if ref_count == 2 {
                Some(NativeNode {
                    class_name: if both_straight { "AcEqualLengthConstraint" } else { "AcEqualRadiusConstraint" },
                    shape: NodeShape::Geometrical,
                })
            } else {
                None
            },
            ConstraintKind::Distance => if ref_count == 2 {
                Some(NativeNode { class_name: "AcDistanceConstraint", shape: NodeShape::Distance { direction_type: 0, x_dominant: None } })
            } else {
                None
            },
            ConstraintKind::DistanceX => if ref_count == 2 {
                Some(NativeNode { class_name: "AcDistanceConstraint", shape: NodeShape::Distance { direction_type: 1, x_dominant: Some(true) } })
            } else {
                None
            },
            ConstraintKind::DistanceY => if ref_count == 2 {
                Some(NativeNode { class_name: "AcDistanceConstraint", shape: NodeShape::Distance { direction_type: 1, x_dominant: Some(false) } })
            } else {
                None
            },
            ConstraintKind::Angle => if ref_count == 2 {
                Some(NativeNode { class_name: "AcAngleConstraint", shape: NodeShape::Angle })
            } else {
                None
            },
            ConstraintKind::Radius => if ref_count >= 1 {
                Some(NativeNode { class_name: "AcRadiusDiameterConstraint", shape: NodeShape::RadiusDiameter { mode: 0 } })
            } else {
                None
            },
            ConstraintKind::Diameter => if ref_count >= 1 {
                Some(NativeNode { class_name: "AcRadiusDiameterConstraint", shape: NodeShape::RadiusDiameter { mode: 1 } })
            } else {
                None
            },
            _ => None,
        }
    }
}

/// The native node for a constraint: its class name and data shape.
pub fn native_node(kind: ConstraintKind, ref_count: usize, both_straight: bool) -> (r: Option<NativeNode>)
    ensures
        r == native_node_spec(kind, ref_count as nat, both_straight),
{
    if let Some(class_name) = geometrical_class_name(kind) {
        if ref_count == 0 {
            return None;
        }
        return Some(NativeNode { class_name, shape: NodeShape::Geometrical });
    }
    match kind {
        ConstraintKind::Horizontal | ConstraintKind::Vertical => {
            if ref_count != 1 && ref_count != 2 {
                return None;
            }
            let horizontal = kind == ConstraintKind::Horizontal;
            Some(NativeNode {
                class_name: if horizontal { "AcHorizontalConstraint" } else { "AcVerticalConstraint" },
                shape: NodeShape::Parallel { datum: Some(horizontal) },
            })
        },
        ConstraintKind::Parallel => if ref_count == 2 {
            Some(NativeNode { class_name: "AcParallelConstraint", shape: NodeShape::Parallel { datum: None } })
        } else {
            None
        },
        ConstraintKind::Equal => if ref_count == 2 {
            Some(NativeNode {
                class_name: if both_straight { "AcEqualLengthConstraint" } else { "AcEqualRadiusConstraint" },
                shape: NodeShape::Geometrical,
            })
        } else {
            None
        },
        ConstraintKind::Distance
        | ConstraintKind::DistanceX
        | ConstraintKind::DistanceY
        | ConstraintKind::Angle
        | ConstraintKind::Radius
        | ConstraintKind::Diameter => {
            let fits = match kind {
                ConstraintKind::Radius | ConstraintKind::Diameter => ref_count >= 1,
                _ => ref_count == 2,
            };
            if !fits {
                return None;
            }
            let shape = match kind {
                ConstraintKind::Distance => NodeShape::Distance { direction_type: 0, x_dominant: None },
                ConstraintKind::DistanceX => NodeShape::Distance { direction_type: 1, x_dominant: Some(true) },
                ConstraintKind::DistanceY => NodeShape::Distance { direction_type: 1, x_dominant: Some(false) },
                ConstraintKind::Angle => NodeShape::Angle,
                ConstraintKind::Radius => NodeShape::RadiusDiameter { mode: 0 },
                _ => NodeShape::RadiusDiameter { mode: 1 },
            };
            Some(NativeNode { class_name: dimensional_class_name(kind), shape })
        },
        _ => None,
    }
}


/// The constraint a native node reads back as, from its ASCII-uppercased
/// class name and data shape.
pub open spec fn kind_for_class(upper: Seq<char>, shape: NodeShape) -> Option<ConstraintKind> {
    if upper == "ACPOINTCOINCIDENCECONSTRAINT"@ {
        Some(ConstraintKind::Coincident)
    } else if upper == "ACHORIZONTALCONSTRAINT"@ {
        Some(ConstraintKind::Horizontal)
    } else if upper == "ACVERTICALCONSTRAINT"@ {
        Some(ConstraintKind::Vertical)
    } else if upper == "ACPARALLELCONSTRAINT"@ {
        Some(ConstraintKind::Parallel)
    } else if upper == "ACPERPENDICULARCONSTRAINT"@ {
        Some(ConstraintKind::Perpendicular)
    } else if upper == "ACEQUALLENGTHCONSTRAINT"@ {
        Some(ConstraintKind::Equal)
    } else if upper == "ACEQUALRADIUSCONSTRAINT"@ {
        Some(ConstraintKind::Equal)
    } else if upper == "ACANGLECONSTRAINT"@ {
        Some(ConstraintKind::Angle)
    } else if upper == "AC3POINTANGLECONSTRAINT"@ {
        Some(ConstraintKind::Angle)
    } else if upper == "ACTANGENTCONSTRAINT"@ {
        Some(ConstraintKind::Tangent)
    } else if upper == "ACG2SMOOTHCONSTRAINT"@ {
        Some(ConstraintKind::Smooth)
    } else if upper == "ACCONCENTRICCONSTRAINT"@ {
        Some(ConstraintKind::Concentric)
    } else if upper == "ACCENTERPOINTCONSTRAINT"@ {
        Some(ConstraintKind::CenterPoint)
    } else if upper == "ACCOLINEARCONSTRAINT"@ {
        Some(ConstraintKind::Colinear)
    } else if upper == "ACMIDPOINTCONSTRAINT"@ {
        Some(ConstraintKind::Midpoint)
    } else if upper == "ACFIXEDCONSTRAINT"@ {
        Some(ConstraintKind::Fixed)
    } else if upper == "ACPOINTCURVECONSTRAINT"@ {
        Some(ConstraintKind::PointOnCurve)
    } else if upper == "ACEQUALDISTANCECONSTRAINT"@ {
        Some(ConstraintKind::EqualDistance)
    } else if upper == "ACSYMMETRICCONSTRAINT"@ {
        Some(ConstraintKind::Symmetric)
    } else if upper == "ACNORMALCONSTRAINT"@ {
        Some(ConstraintKind::Normal)
    } else if upper == "ACRADIUSDIAMETERCONSTRAINT"@ {
        match shape {
            NodeShape::RadiusDiameter { mode } => if mode == 1 {
                Some(ConstraintKind::Diameter)
            } else {
                Some(ConstraintKind::Radius)
            },
            _ => None,
        }
    } else if upper == "ACDISTANCECONSTRAINT"@ {
        match shape {
            NodeShape::Distance { direction_type, x_dominant } => if direction_type == 0 {
                Some(ConstraintKind::Distance)
            } else if x_dominant == Some(true) {
                Some(ConstraintKind::DistanceX)
            } else {
                Some(ConstraintKind::DistanceY)
            },
            _ => None,
        }
    } else {
        None
    }
}

/// The constraint a native node stands for: its class name is compared
/// case-insensitively (ASCII); radius/diameter and distance nodes are told
/// apart by their mode byte and direction. `None` for classes that are not
/// constraints of this application, or whose data does not have the shape
/// the class needs.
pub fn constraint_kind_for(class_name: &str, shape: NodeShape) -> (r: Option<ConstraintKind>)
    ensures
        r == kind_for_class(ascii_upper_seq(class_name@), shape),
{
    let raw = chars_of(class_name);
    let mut upper: Vec<char> = Vec::new();
    let mut i: usize = 0;
    while i < raw.len()
        invariant
            i <= raw@.len(),
            raw@ == class_name@,
            upper@ == ascii_upper_seq(raw@.take(i as int)),
        decreases raw.len() - i,
    {
        upper.push(upper_ascii_char(raw[i]));
        i += 1;
        assert(upper@ =~= ascii_upper_seq(raw@.take(i as int)));
    }
    assert(raw@.take(i as int) =~= raw@);
    if chars_eq_str(&upper, "ACPOINTCOINCIDENCECONSTRAINT") {
        return Some(ConstraintKind::Coincident);
    }
    if chars_eq_str(&upper, "ACHORIZONTALCONSTRAINT") {
        return Some(ConstraintKind::Horizontal);
    }
    if chars_eq_str(&upper, "ACVERTICALCONSTRAINT") {
        return Some(ConstraintKind::Vertical);
    }
    if chars_eq_str(&upper, "ACPARALLELCONSTRAINT") {
        return Some(ConstraintKind::Parallel);
    }
    if chars_eq_str(&upper, "ACPERPENDICULARCONSTRAINT") {
        return Some(ConstraintKind::Perpendicular);
    }
    if chars_eq_str(&upper, "ACEQUALLENGTHCONSTRAINT") {
        return Some(ConstraintKind::Equal);
    }
    if chars_eq_str(&upper, "ACEQUALRADIUSCONSTRAINT") {
        return Some(ConstraintKind::Equal);
    }
    if chars_eq_str(&upper, "ACANGLECONSTRAINT") {
        return Some(ConstraintKind::Angle);
    }
    if chars_eq_str(&upper, "AC3POINTANGLECONSTRAINT") {
        return Some(ConstraintKind::Angle);
    }
    if chars_eq_str(&upper, "ACTANGENTCONSTRAINT") {
        return Some(ConstraintKind::Tangent);
    }
    if chars_eq_str(&upper, "ACG2SMOOTHCONSTRAINT") {
        return Some(ConstraintKind::Smooth);
    }
    if chars_eq_str(&upper, "ACCONCENTRICCONSTRAINT") {
        return Some(ConstraintKind::Concentric);
    }
    if chars_eq_str(&upper, "ACCENTERPOINTCONSTRAINT") {
        return Some(ConstraintKind::CenterPoint);
    }
    if chars_eq_str(&upper, "ACCOLINEARCONSTRAINT") {
        return Some(ConstraintKind::Colinear);
    }
    if chars_eq_str(&upper, "ACMIDPOINTCONSTRAINT") {
        return Some(ConstraintKind::Midpoint);
    }
    if chars_eq_str(&upper, "ACFIXEDCONSTRAINT") {
        return Some(ConstraintKind::Fixed);
    }
    if chars_eq_str(&upper, "ACPOINTCURVECONSTRAINT") {
        return Some(ConstraintKind::PointOnCurve);
    }
    if chars_eq_str(&upper, "ACEQUALDISTANCECONSTRAINT") {
        return Some(ConstraintKind::EqualDistance);
    }
    if chars_eq_str(&upper, "ACSYMMETRICCONSTRAINT") {
        return Some(ConstraintKind::Symmetric);
    }
    if chars_eq_str(&upper, "ACNORMALCONSTRAINT") {
        return Some(ConstraintKind::Normal);
    }
    if chars_eq_str(&upper, "ACRADIUSDIAMETERCONSTRAINT") {
        return match shape {
            NodeShape::RadiusDiameter { mode } => if mode == 1 {
                Some(ConstraintKind::Diameter)
            } else {
                Some(ConstraintKind::Radius)
            },
            _ => None,
        };
    }
    if chars_eq_str(&upper, "ACDISTANCECONSTRAINT") {
        return match shape {
            NodeShape::Distance { direction_type, x_dominant } => if direction_type == 0 {
                Some(ConstraintKind::Distance)
            } else if x_dominant == Some(true) {
                Some(ConstraintKind::DistanceX)
            } else {
                Some(ConstraintKind::DistanceY)
            },
            _ => None,
        };
    }
    None
}

} // verus!

verus! {

/// Reading back the node a constraint is written as gives the constraint's
/// own kind: the written class name, upper-cased, together with the node's
/// data shape names the kind again, for every kind that has a native node.
pub proof fn lemma_native_node_round_trip(kind: ConstraintKind, ref_count: nat, both_straight: bool)
    requires
        native_node_spec(kind, ref_count, both_straight) is Some,
    ensures
        ({
            let node = native_node_spec(kind, ref_count, both_straight)->0;
            kind_for_class(ascii_upper_seq(node.class_name@), node.shape) == Some(kind)
        }),
{
    let node = native_node_spec(kind, ref_count, both_straight)->0;
    match kind {
        ConstraintKind::Coincident => {
            lemma_reads_back_pointcoincidenceconstraint();
        },
        ConstraintKind::Horizontal => {
            lemma_reads_back_horizontalconstraint();
        },
        ConstraintKind::Vertical => {
            lemma_reads_back_verticalconstraint();
        },
        ConstraintKind::Parallel => {
            lemma_reads_back_parallelconstraint();
        },
        ConstraintKind::Perpendicular => {
            lemma_reads_back_perpendicularconstraint();
        },
        ConstraintKind::Tangent => {
            lemma_reads_back_tangentconstraint();
        },
        ConstraintKind::Smooth => {
            lemma_reads_back_g2smoothconstraint();
        },
        ConstraintKind::Equal => {
            if both_straight {
                lemma_reads_back_equallengthconstraint();
            } else {
                lemma_reads_back_equalradiusconstraint();
            }
        },
        ConstraintKind::Concentric => {
            lemma_reads_back_concentricconstraint();
        },
        ConstraintKind::CenterPoint => {
            lemma_reads_back_centerpointconstraint();
        },
        ConstraintKind::Colinear => {
            lemma_reads_back_colinearconstraint();
        },
        ConstraintKind::Fixed => {
            lemma_reads_back_fixedconstraint();
        },
        ConstraintKind::Midpoint => {
            lemma_reads_back_midpointconstraint();
        },
        ConstraintKind::PointOnCurve => {
            lemma_reads_back_pointcurveconstraint();
        },
        ConstraintKind::Symmetric => {
            lemma_reads_back_symmetricconstraint();
        },
        ConstraintKind::Normal => {
            lemma_reads_back_normalconstraint();
        },
        ConstraintKind::EqualDistance => {
            lemma_reads_back_equaldistanceconstraint();
        },
        ConstraintKind::Distance => {
            lemma_reads_back_distanceconstraint();
        },
        ConstraintKind::DistanceX => {
            lemma_reads_back_distanceconstraint();
        },
        ConstraintKind::DistanceY => {
            lemma_reads_back_distanceconstraint();
        },
        ConstraintKind::Angle => {
            lemma_reads_back_angleconstraint();
        },
        ConstraintKind::Radius => {
            lemma_reads_back_radiusdiameterconstraint();
        },
        ConstraintKind::Diameter => {
            lemma_reads_back_radiusdiameterconstraint();
        },
        ConstraintKind::ArcLength => {
        },
    }
}

proof fn lemma_reads_back_pointcoincidenceconstraint()
    ensures
        ascii_upper_seq("AcPointCoincidenceConstraint"@) == "ACPOINTCOINCIDENCECONSTRAINT"@,
{
    reveal_strlit("AcPointCoincidenceConstraint");
    reveal_strlit("ACPOINTCOINCIDENCECONSTRAINT");
    assert(ascii_upper_seq("AcPointCoincidenceConstraint"@) =~= "ACPOINTCOINCIDENCECONSTRAINT"@);
}

proof fn lemma_reads_back_horizontalconstraint()
    ensures
        ascii_upper_seq("AcHorizontalConstraint"@) == "ACHORIZONTALCONSTRAINT"@,
        "ACHORIZONTALCONSTRAINT"@ != "ACPOINTCOINCIDENCECONSTRAINT"@,
{
    reveal_strlit("AcHorizontalConstraint");
    reveal_strlit("ACHORIZONTALCONSTRAINT");
    reveal_strlit("ACPOINTCOINCIDENCECONSTRAINT");
    assert("ACHORIZONTALCONSTRAINT"@.len() != "ACPOINTCOINCIDENCECONSTRAINT"@.len());
    assert(ascii_upper_seq("AcHorizontalConstraint"@) =~= "ACHORIZONTALCONSTRAINT"@);
}

proof fn lemma_reads_back_verticalconstraint()
    ensures
        ascii_upper_seq("AcVerticalConstraint"@) == "ACVERTICALCONSTRAINT"@,
        "ACVERTICALCONSTRAINT"@ != "ACPOINTCOINCIDENCECONSTRAINT"@,
        "ACVERTICALCONSTRAINT"@ != "ACHORIZONTALCONSTRAINT"@,
{
    reveal_strlit("AcVerticalConstraint");
    reveal_strlit("ACVERTICALCONSTRAINT");
    reveal_strlit("ACPOINTCOINCIDENCECONSTRAINT");
    assert("ACVERTICALCONSTRAINT"@.len() != "ACPOINTCOINCIDENCECONSTRAINT"@.len());
    reveal_strlit("ACHORIZONTALCONSTRAINT");
    assert("ACVERTICALCONSTRAINT"@.len() != "ACHORIZONTALCONSTRAINT"@.len());
    assert(ascii_upper_seq("AcVerticalConstraint"@) =~= "ACVERTICALCONSTRAINT"@);
}

proof fn lemma_reads_back_parallelconstraint()
    ensures
        ascii_upper_seq("AcParallelConstraint"@) == "ACPARALLELCONSTRAINT"@,
        "ACPARALLELCONSTRAINT"@ != "ACPOINTCOINCIDENCECONSTRAINT"@,
        "ACPARALLELCONSTRAINT"@ != "ACHORIZONTALCONSTRAINT"@,
        "ACPARALLELCONSTRAINT"@ != "ACVERTICALCONSTRAINT"@,
{
    reveal_strlit("AcParallelConstraint");
    reveal_strlit("ACPARALLELCONSTRAINT");
    reveal_strlit("ACPOINTCOINCIDENCECONSTRAINT");
    assert("ACPARALLELCONSTRAINT"@.len() != "ACPOINTCOINCIDENCECONSTRAINT"@.len());
    reveal_strlit("ACHORIZONTALCONSTRAINT");
    assert("ACPARALLELCONSTRAINT"@.len() != "ACHORIZONTALCONSTRAINT"@.len());
    reveal_strlit("ACVERTICALCONSTRAINT");
    assert("ACPARALLELCONSTRAINT"@[2] != "ACVERTICALCONSTRAINT"@[2]);
    assert(ascii_upper_seq("AcParallelConstraint"@) =~= "ACPARALLELCONSTRAINT"@);
}

proof fn lemma_reads_back_perpendicularconstraint()
    ensures
        ascii_upper_seq("AcPerpendicularConstraint"@) == "ACPERPENDICULARCONSTRAINT"@,
        "ACPERPENDICULARCONSTRAINT"@ != "ACPOINTCOINCIDENCECONSTRAINT"@,
        "ACPERPENDICULARCONSTRAINT"@ != "ACHORIZONTALCONSTRAINT"@,
        "ACPERPENDICULARCONSTRAINT"@ != "ACVERTICALCONSTRAINT"@,
        "ACPERPENDICULARCONSTRAINT"@ != "ACPARALLELCONSTRAINT"@,
{
    reveal_strlit("AcPerpendicularConstraint");
    reveal_strlit("ACPERPENDICULARCONSTRAINT");
    reveal_strlit("ACPOINTCOINCIDENCECONSTRAINT");
    assert("ACPERPENDICULARCONSTRAINT"@.len() != "ACPOINTCOINCIDENCECONSTRAINT"@.len());
    reveal_strlit("ACHORIZONTALCONSTRAINT");
    assert("ACPERPENDICULARCONSTRAINT"@.len() != "ACHORIZONTALCONSTRAINT"@.len());
    reveal_strlit("ACVERTICALCONSTRAINT");
    assert("ACPERPENDICULARCONSTRAINT"@.len() != "ACVERTICALCONSTRAINT"@.len());
    reveal_strlit("ACPARALLELCONSTRAINT");
    assert("ACPERPENDICULARCONSTRAINT"@.len() != "ACPARALLELCONSTRAINT"@.len());
    assert(ascii_upper_seq("AcPerpendicularConstraint"@) =~= "ACPERPENDICULARCONSTRAINT"@);
}

proof fn lemma_reads_back_tangentconstraint()
    ensures
        ascii_upper_seq("AcTangentConstraint"@) == "ACTANGENTCONSTRAINT"@,
        "ACTANGENTCONSTRAINT"@ != "ACPOINTCOINCIDENCECONSTRAINT"@,
        "ACTANGENTCONSTRAINT"@ != "ACHORIZONTALCONSTRAINT"@,
        "ACTANGENTCONSTRAINT"@ != "ACVERTICALCONSTRAINT"@,
        "ACTANGENTCONSTRAINT"@ != "ACPARALLELCONSTRAINT"@,
        "ACTANGENTCONSTRAINT"@ != "ACPERPENDICULARCONSTRAINT"@,
        "ACTANGENTCONSTRAINT"@ != "ACEQUALLENGTHCONSTRAINT"@,
        "ACTANGENTCONSTRAINT"@ != "ACEQUALRADIUSCONSTRAINT"@,
        "ACTANGENTCONSTRAINT"@ != "ACANGLECONSTRAINT"@,
        "ACTANGENTCONSTRAINT"@ != "AC3POINTANGLECONSTRAINT"@,
{
    reveal_strlit("AcTangentConstraint");
    reveal_strlit("ACTANGENTCONSTRAINT");
    reveal_strlit("ACPOINTCOINCIDENCECONSTRAINT");
    assert("ACTANGENTCONSTRAINT"@.len() != "ACPOINTCOINCIDENCECONSTRAINT"@.len());
    reveal_strlit("ACHORIZONTALCONSTRAINT");
    assert("ACTANGENTCONSTRAINT"@.len() != "ACHORIZONTALCONSTRAINT"@.len());
    reveal_strlit("ACVERTICALCONSTRAINT");
    assert("ACTANGENTCONSTRAINT"@.len() != "ACVERTICALCONSTRAINT"@.len());
    reveal_strlit("ACPARALLELCONSTRAINT");
    assert("ACTANGENTCONSTRAINT"@.len() != "ACPARALLELCONSTRAINT"@.len());
    reveal_strlit("ACPERPENDICULARCONSTRAINT");
    assert("ACTANGENTCONSTRAINT"@.len() != "ACPERPENDICULARCONSTRAINT"@.len());
    reveal_strlit("ACEQUALLENGTHCONSTRAINT");
    assert("ACTANGENTCONSTRAINT"@.len() != "ACEQUALLENGTHCONSTRAINT"@.len());
    reveal_strlit("ACEQUALRADIUSCONSTRAINT");
    assert("ACTANGENTCONSTRAINT"@.len() != "ACEQUALRADIUSCONSTRAINT"@.len());
    reveal_strlit("ACANGLECONSTRAINT");
    assert("ACTANGENTCONSTRAINT"@.len() != "ACANGLECONSTRAINT"@.len());
    reveal_strlit("AC3POINTANGLECONSTRAINT");
    assert("ACTANGENTCONSTRAINT"@.len() != "AC3POINTANGLECONSTRAINT"@.len());
    assert(ascii_upper_seq("AcTangentConstraint"@) =~= "ACTANGENTCONSTRAINT"@);
}

proof fn lemma_reads_back_g2smoothconstraint()
    ensures
        ascii_upper_seq("AcG2SmoothConstraint"@) == "ACG2SMOOTHCONSTRAINT"@,
        "ACG2SMOOTHCONSTRAINT"@ != "ACPOINTCOINCIDENCECONSTRAINT"@,
        "ACG2SMOOTHCONSTRAINT"@ != "ACHORIZONTALCONSTRAINT"@,
        "ACG2SMOOTHCONSTRAINT"@ != "ACVERTICALCONSTRAINT"@,
        "ACG2SMOOTHCONSTRAINT"@ != "ACPARALLELCONSTRAINT"@,
        "ACG2SMOOTHCONSTRAINT"@ != "ACPERPENDICULARCONSTRAINT"@,
        "ACG2SMOOTHCONSTRAINT"@ != "ACEQUALLENGTHCONSTRAINT"@,
        "ACG2SMOOTHCONSTRAINT"@ != "ACEQUALRADIUSCONSTRAINT"@,
        "ACG2SMOOTHCONSTRAINT"@ != "ACANGLECONSTRAINT"@,
        "ACG2SMOOTHCONSTRAINT"@ != "AC3POINTANGLECONSTRAINT"@,
        "ACG2SMOOTHCONSTRAINT"@ != "ACTANGENTCONSTRAINT"@,
{
    reveal_strlit("AcG2SmoothConstraint");
    reveal_strlit("ACG2SMOOTHCONSTRAINT");
    reveal_strlit("ACPOINTCOINCIDENCECONSTRAINT");
    assert("ACG2SMOOTHCONSTRAINT"@.len() != "ACPOINTCOINCIDENCECONSTRAINT"@.len());
    reveal_strlit("ACHORIZONTALCONSTRAINT");
    assert("ACG2SMOOTHCONSTRAINT"@.len() != "ACHORIZONTALCONSTRAINT"@.len());
    reveal_strlit("ACVERTICALCONSTRAINT");
    assert("ACG2SMOOTHCONSTRAINT"@[2] != "ACVERTICALCONSTRAINT"@[2]);
    reveal_strlit("ACPARALLELCONSTRAINT");
    assert("ACG2SMOOTHCONSTRAINT"@[2] != "ACPARALLELCONSTRAINT"@[2]);
    reveal_strlit("ACPERPENDICULARCONSTRAINT");
    assert("ACG2SMOOTHCONSTRAINT"@.len() != "ACPERPENDICULARCONSTRAINT"@.len());
    reveal_strlit("ACEQUALLENGTHCONSTRAINT");
    assert("ACG2SMOOTHCONSTRAINT"@.len() != "ACEQUALLENGTHCONSTRAINT"@.len());
    reveal_strlit("ACEQUALRADIUSCONSTRAINT");
    assert("ACG2SMOOTHCONSTRAINT"@.len() != "ACEQUALRADIUSCONSTRAINT"@.len());
    reveal_strlit("ACANGLECONSTRAINT");
    assert("ACG2SMOOTHCONSTRAINT"@.len() != "ACANGLECONSTRAINT"@.len());
    reveal_strlit("AC3POINTANGLECONSTRAINT");
    assert("ACG2SMOOTHCONSTRAINT"@.len() != "AC3POINTANGLECONSTRAINT"@.len());
    reveal_strlit("ACTANGENTCONSTRAINT");
    assert("ACG2SMOOTHCONSTRAINT"@.len() != "ACTANGENTCONSTRAINT"@.len());
    assert(ascii_upper_seq("AcG2SmoothConstraint"@) =~= "ACG2SMOOTHCONSTRAINT"@);
}

proof fn lemma_reads_back_equallengthconstraint()
    ensures
        ascii_upper_seq("AcEqualLengthConstraint"@) == "ACEQUALLENGTHCONSTRAINT"@,
        "ACEQUALLENGTHCONSTRAINT"@ != "ACPOINTCOINCIDENCECONSTRAINT"@,
        "ACEQUALLENGTHCONSTRAINT"@ != "ACHORIZONTALCONSTRAINT"@,
        "ACEQUALLENGTHCONSTRAINT"@ != "ACVERTICALCONSTRAINT"@,
        "ACEQUALLENGTHCONSTRAINT"@ != "ACPARALLELCONSTRAINT"@,
        "ACEQUALLENGTHCONSTRAINT"@ != "ACPERPENDICULARCONSTRAINT"@,
{
    reveal_strlit("AcEqualLengthConstraint");
    reveal_strlit("ACEQUALLENGTHCONSTRAINT");
    reveal_strlit("ACPOINTCOINCIDENCECONSTRAINT");
    assert("ACEQUALLENGTHCONSTRAINT"@.len() != "ACPOINTCOINCIDENCECONSTRAINT"@.len());
    reveal_strlit("ACHORIZONTALCONSTRAINT");
    assert("ACEQUALLENGTHCONSTRAINT"@.len() != "ACHORIZONTALCONSTRAINT"@.len());
    reveal_strlit("ACVERTICALCONSTRAINT");
    assert("ACEQUALLENGTHCONSTRAINT"@.len() != "ACVERTICALCONSTRAINT"@.len());
    reveal_strlit("ACPARALLELCONSTRAINT");
    assert("ACEQUALLENGTHCONSTRAINT"@.len() != "ACPARALLELCONSTRAINT"@.len());
    reveal_strlit("ACPERPENDICULARCONSTRAINT");
    assert("ACEQUALLENGTHCONSTRAINT"@.len() != "ACPERPENDICULARCONSTRAINT"@.len());
    assert(ascii_upper_seq("AcEqualLengthConstraint"@) =~= "ACEQUALLENGTHCONSTRAINT"@);
}

proof fn lemma_reads_back_equalradiusconstraint()
    ensures
        ascii_upper_seq("AcEqualRadiusConstraint"@) == "ACEQUALRADIUSCONSTRAINT"@,
        "ACEQUALRADIUSCONSTRAINT"@ != "ACPOINTCOINCIDENCECONSTRAINT"@,
        "ACEQUALRADIUSCONSTRAINT"@ != "ACHORIZONTALCONSTRAINT"@,
        "ACEQUALRADIUSCONSTRAINT"@ != "ACVERTICALCONSTRAINT"@,
        "ACEQUALRADIUSCONSTRAINT"@ != "ACPARALLELCONSTRAINT"@,
        "ACEQUALRADIUSCONSTRAINT"@ != "ACPERPENDICULARCONSTRAINT"@,
        "ACEQUALRADIUSCONSTRAINT"@ != "ACEQUALLENGTHCONSTRAINT"@,
{
    reveal_strlit("AcEqualRadiusConstraint");
    reveal_strlit("ACEQUALRADIUSCONSTRAINT");
    reveal_strlit("ACPOINTCOINCIDENCECONSTRAINT");
    assert("ACEQUALRADIUSCONSTRAINT"@.len() != "ACPOINTCOINCIDENCECONSTRAINT"@.len());
    reveal_strlit("ACHORIZONTALCONSTRAINT");
    assert("ACEQUALRADIUSCONSTRAINT"@.len() != "ACHORIZONTALCONSTRAINT"@.len());
    reveal_strlit("ACVERTICALCONSTRAINT");
    assert("ACEQUALRADIUSCONSTRAINT"@.len() != "ACVERTICALCONSTRAINT"@.len());
    reveal_strlit("ACPARALLELCONSTRAINT");
    assert("ACEQUALRADIUSCONSTRAINT"@.len() != "ACPARALLELCONSTRAINT"@.len());
    reveal_strlit("ACPERPENDICULARCONSTRAINT");
    assert("ACEQUALRADIUSCONSTRAINT"@.len() != "ACPERPENDICULARCONSTRAINT"@.len());
    reveal_strlit("ACEQUALLENGTHCONSTRAINT");
    assert("ACEQUALRADIUSCONSTRAINT"@[7] != "ACEQUALLENGTHCONSTRAINT"@[7]);
    assert(ascii_upper_seq("AcEqualRadiusConstraint"@) =~= "ACEQUALRADIUSCONSTRAINT"@);
}

proof fn lemma_reads_back_concentricconstraint()
    ensures
        ascii_upper_seq("AcConcentricConstraint"@) == "ACCONCENTRICCONSTRAINT"@,
        "ACCONCENTRICCONSTRAINT"@ != "ACPOINTCOINCIDENCECONSTRAINT"@,
        "ACCONCENTRICCONSTRAINT"@ != "ACHORIZONTALCONSTRAINT"@,
        "ACCONCENTRICCONSTRAINT"@ != "ACVERTICALCONSTRAINT"@,
        "ACCONCENTRICCONSTRAINT"@ != "ACPARALLELCONSTRAINT"@,
        "ACCONCENTRICCONSTRAINT"@ != "ACPERPENDICULARCONSTRAINT"@,
        "ACCONCENTRICCONSTRAINT"@ != "ACEQUALLENGTHCONSTRAINT"@,
        "ACCONCENTRICCONSTRAINT"@ != "ACEQUALRADIUSCONSTRAINT"@,
        "ACCONCENTRICCONSTRAINT"@ != "ACANGLECONSTRAINT"@,
        "ACCONCENTRICCONSTRAINT"@ != "AC3POINTANGLECONSTRAINT"@,
        "ACCONCENTRICCONSTRAINT"@ != "ACTANGENTCONSTRAINT"@,
        "ACCONCENTRICCONSTRAINT"@ != "ACG2SMOOTHCONSTRAINT"@,
{
    reveal_strlit("AcConcentricConstraint");
    reveal_strlit("ACCONCENTRICCONSTRAINT");
    reveal_strlit("ACPOINTCOINCIDENCECONSTRAINT");
    assert("ACCONCENTRICCONSTRAINT"@.len() != "ACPOINTCOINCIDENCECONSTRAINT"@.len());
    reveal_strlit("ACHORIZONTALCONSTRAINT");
    assert("ACCONCENTRICCONSTRAINT"@[2] != "ACHORIZONTALCONSTRAINT"@[2]);
    reveal_strlit("ACVERTICALCONSTRAINT");
    assert("ACCONCENTRICCONSTRAINT"@.len() != "ACVERTICALCONSTRAINT"@.len());
    reveal_strlit("ACPARALLELCONSTRAINT");
    assert("ACCONCENTRICCONSTRAINT"@.len() != "ACPARALLELCONSTRAINT"@.len());
    reveal_strlit("ACPERPENDICULARCONSTRAINT");
    assert("ACCONCENTRICCONSTRAINT"@.len() != "ACPERPENDICULARCONSTRAINT"@.len());
    reveal_strlit("ACEQUALLENGTHCONSTRAINT");
    assert("ACCONCENTRICCONSTRAINT"@.len() != "ACEQUALLENGTHCONSTRAINT"@.len());
    reveal_strlit("ACEQUALRADIUSCONSTRAINT");
    assert("ACCONCENTRICCONSTRAINT"@.len() != "ACEQUALRADIUSCONSTRAINT"@.len());
    reveal_strlit("ACANGLECONSTRAINT");
    assert("ACCONCENTRICCONSTRAINT"@.len() != "ACANGLECONSTRAINT"@.len());
    reveal_strlit("AC3POINTANGLECONSTRAINT");
    assert("ACCONCENTRICCONSTRAINT"@.len() != "AC3POINTANGLECONSTRAINT"@.len());
    reveal_strlit("ACTANGENTCONSTRAINT");
    assert("ACCONCENTRICCONSTRAINT"@.len() != "ACTANGENTCONSTRAINT"@.len());
    reveal_strlit("ACG2SMOOTHCONSTRAINT");
    assert("ACCONCENTRICCONSTRAINT"@.len() != "ACG2SMOOTHCONSTRAINT"@.len());
    assert(ascii_upper_seq("AcConcentricConstraint"@) =~= "ACCONCENTRICCONSTRAINT"@);
}

proof fn lemma_reads_back_centerpointconstraint()
    ensures
        ascii_upper_seq("AcCenterPointConstraint"@) == "ACCENTERPOINTCONSTRAINT"@,
        "ACCENTERPOINTCONSTRAINT"@ != "ACPOINTCOINCIDENCECONSTRAINT"@,
        "ACCENTERPOINTCONSTRAINT"@ != "ACHORIZONTALCONSTRAINT"@,
        "ACCENTERPOINTCONSTRAINT"@ != "ACVERTICALCONSTRAINT"@,
        "ACCENTERPOINTCONSTRAINT"@ != "ACPARALLELCONSTRAINT"@,
        "ACCENTERPOINTCONSTRAINT"@ != "ACPERPENDICULARCONSTRAINT"@,
        "ACCENTERPOINTCONSTRAINT"@ != "ACEQUALLENGTHCONSTRAINT"@,
        "ACCENTERPOINTCONSTRAINT"@ != "ACEQUALRADIUSCONSTRAINT"@,
        "ACCENTERPOINTCONSTRAINT"@ != "ACANGLECONSTRAINT"@,
        "ACCENTERPOINTCONSTRAINT"@ != "AC3POINTANGLECONSTRAINT"@,
        "ACCENTERPOINTCONSTRAINT"@ != "ACTANGENTCONSTRAINT"@,
        "ACCENTERPOINTCONSTRAINT"@ != "ACG2SMOOTHCONSTRAINT"@,
        "ACCENTERPOINTCONSTRAINT"@ != "ACCONCENTRICCONSTRAINT"@,
{
    reveal_strlit("AcCenterPointConstraint");
    reveal_strlit("ACCENTERPOINTCONSTRAINT");
    reveal_strlit("ACPOINTCOINCIDENCECONSTRAINT");
    assert("ACCENTERPOINTCONSTRAINT"@.len() != "ACPOINTCOINCIDENCECONSTRAINT"@.len());
    reveal_strlit("ACHORIZONTALCONSTRAINT");
    assert("ACCENTERPOINTCONSTRAINT"@.len() != "ACHORIZONTALCONSTRAINT"@.len());
    reveal_strlit("ACVERTICALCONSTRAINT");
    assert("ACCENTERPOINTCONSTRAINT"@.len() != "ACVERTICALCONSTRAINT"@.len());
    reveal_strlit("ACPARALLELCONSTRAINT");
    assert("ACCENTERPOINTCONSTRAINT"@.len() != "ACPARALLELCONSTRAINT"@.len());
    reveal_strlit("ACPERPENDICULARCONSTRAINT");
    assert("ACCENTERPOINTCONSTRAINT"@.len() != "ACPERPENDICULARCONSTRAINT"@.len());
    reveal_strlit("ACEQUALLENGTHCONSTRAINT");
    assert("ACCENTERPOINTCONSTRAINT"@[2] != "ACEQUALLENGTHCONSTRAINT"@[2]);
    reveal_strlit("ACEQUALRADIUSCONSTRAINT");
    assert("ACCENTERPOINTCONSTRAINT"@[2] != "ACEQUALRADIUSCONSTRAINT"@[2]);
    reveal_strlit("ACANGLECONSTRAINT");
    assert("ACCENTERPOINTCONSTRAINT"@.len() != "ACANGLECONSTRAINT"@.len());
    reveal_strlit("AC3POINTANGLECONSTRAINT");
    assert("ACCENTERPOINTCONSTRAINT"@[2] != "AC3POINTANGLECONSTRAINT"@[2]);
    reveal_strlit("ACTANGENTCONSTRAINT");
    assert("ACCENTERPOINTCONSTRAINT"@.len() != "ACTANGENTCONSTRAINT"@.len());
    reveal_strlit("ACG2SMOOTHCONSTRAINT");
    assert("ACCENTERPOINTCONSTRAINT"@.len() != "ACG2SMOOTHCONSTRAINT"@.len());
    reveal_strlit("ACCONCENTRICCONSTRAINT");
    assert("ACCENTERPOINTCONSTRAINT"@.len() != "ACCONCENTRICCONSTRAINT"@.len());
    assert(ascii_upper_seq("AcCenterPointConstraint"@) =~= "ACCENTERPOINTCONSTRAINT"@);
}

proof fn lemma_reads_back_colinearconstraint()
    ensures
        ascii_upper_seq("AcColinearConstraint"@) == "ACCOLINEARCONSTRAINT"@,
        "ACCOLINEARCONSTRAINT"@ != "ACPOINTCOINCIDENCECONSTRAINT"@,
        "ACCOLINEARCONSTRAINT"@ != "ACHORIZONTALCONSTRAINT"@,
        "ACCOLINEARCONSTRAINT"@ != "ACVERTICALCONSTRAINT"@,
        "ACCOLINEARCONSTRAINT"@ != "ACPARALLELCONSTRAINT"@,
        "ACCOLINEARCONSTRAINT"@ != "ACPERPENDICULARCONSTRAINT"@,
        "ACCOLINEARCONSTRAINT"@ != "ACEQUALLENGTHCONSTRAINT"@,
        "ACCOLINEARCONSTRAINT"@ != "ACEQUALRADIUSCONSTRAINT"@,
        "ACCOLINEARCONSTRAINT"@ != "ACANGLECONSTRAINT"@,
        "ACCOLINEARCONSTRAINT"@ != "AC3POINTANGLECONSTRAINT"@,
        "ACCOLINEARCONSTRAINT"@ != "ACTANGENTCONSTRAINT"@,
        "ACCOLINEARCONSTRAINT"@ != "ACG2SMOOTHCONSTRAINT"@,
        "ACCOLINEARCONSTRAINT"@ != "ACCONCENTRICCONSTRAINT"@,
        "ACCOLINEARCONSTRAINT"@ != "ACCENTERPOINTCONSTRAINT"@,
{
    reveal_strlit("AcColinearConstraint");
    reveal_strlit("ACCOLINEARCONSTRAINT");
    reveal_strlit("ACPOINTCOINCIDENCECONSTRAINT");
    assert("ACCOLINEARCONSTRAINT"@.len() != "ACPOINTCOINCIDENCECONSTRAINT"@.len());
    reveal_strlit("ACHORIZONTALCONSTRAINT");
    assert("ACCOLINEARCONSTRAINT"@.len() != "ACHORIZONTALCONSTRAINT"@.len());
    reveal_strlit("ACVERTICALCONSTRAINT");
    assert("ACCOLINEARCONSTRAINT"@[2] != "ACVERTICALCONSTRAINT"@[2]);
    reveal_strlit("ACPARALLELCONSTRAINT");
    assert("ACCOLINEARCONSTRAINT"@[2] != "ACPARALLELCONSTRAINT"@[2]);
    reveal_strlit("ACPERPENDICULARCONSTRAINT");
    assert("ACCOLINEARCONSTRAINT"@.len() != "ACPERPENDICULARCONSTRAINT"@.len());
    reveal_strlit("ACEQUALLENGTHCONSTRAINT");
    assert("ACCOLINEARCONSTRAINT"@.len() != "ACEQUALLENGTHCONSTRAINT"@.len());
    reveal_strlit("ACEQUALRADIUSCONSTRAINT");
    assert("ACCOLINEARCONSTRAINT"@.len() != "ACEQUALRADIUSCONSTRAINT"@.len());
    reveal_strlit("ACANGLECONSTRAINT");
    assert("ACCOLINEARCONSTRAINT"@.len() != "ACANGLECONSTRAINT"@.len());
    reveal_strlit("AC3POINTANGLECONSTRAINT");
    assert("ACCOLINEARCONSTRAINT"@.len() != "AC3POINTANGLECONSTRAINT"@.len());
    reveal_strlit("ACTANGENTCONSTRAINT");
    assert("ACCOLINEARCONSTRAINT"@.len() != "ACTANGENTCONSTRAINT"@.len());
    reveal_strlit("ACG2SMOOTHCONSTRAINT");
    assert("ACCOLINEARCONSTRAINT"@[2] != "ACG2SMOOTHCONSTRAINT"@[2]);
    reveal_strlit("ACCONCENTRICCONSTRAINT");
    assert("ACCOLINEARCONSTRAINT"@.len() != "ACCONCENTRICCONSTRAINT"@.len());
    reveal_strlit("ACCENTERPOINTCONSTRAINT");
    assert("ACCOLINEARCONSTRAINT"@.len() != "ACCENTERPOINTCONSTRAINT"@.len());
    assert(ascii_upper_seq("AcColinearConstraint"@) =~= "ACCOLINEARCONSTRAINT"@);
}

proof fn lemma_reads_back_fixedconstraint()
    ensures
        ascii_upper_seq("AcFixedConstraint"@) == "ACFIXEDCONSTRAINT"@,
        "ACFIXEDCONSTRAINT"@ != "ACPOINTCOINCIDENCECONSTRAINT"@,
        "ACFIXEDCONSTRAINT"@ != "ACHORIZONTALCONSTRAINT"@,
        "ACFIXEDCONSTRAINT"@ != "ACVERTICALCONSTRAINT"@,
        "ACFIXEDCONSTRAINT"@ != "ACPARALLELCONSTRAINT"@,
        "ACFIXEDCONSTRAINT"@ != "ACPERPENDICULARCONSTRAINT"@,
        "ACFIXEDCONSTRAINT"@ != "ACEQUALLENGTHCONSTRAINT"@,
        "ACFIXEDCONSTRAINT"@ != "ACEQUALRADIUSCONSTRAINT"@,
        "ACFIXEDCONSTRAINT"@ != "ACANGLECONSTRAINT"@,
        "ACFIXEDCONSTRAINT"@ != "AC3POINTANGLECONSTRAINT"@,
        "ACFIXEDCONSTRAINT"@ != "ACTANGENTCONSTRAINT"@,
        "ACFIXEDCONSTRAINT"@ != "ACG2SMOOTHCONSTRAINT"@,
        "ACFIXEDCONSTRAINT"@ != "ACCONCENTRICCONSTRAINT"@,
        "ACFIXEDCONSTRAINT"@ != "ACCENTERPOINTCONSTRAINT"@,
        "ACFIXEDCONSTRAINT"@ != "ACCOLINEARCONSTRAINT"@,
        "ACFIXEDCONSTRAINT"@ != "ACMIDPOINTCONSTRAINT"@,
{
    reveal_strlit("AcFixedConstraint");
    reveal_strlit("ACFIXEDCONSTRAINT");
    reveal_strlit("ACPOINTCOINCIDENCECONSTRAINT");
    assert("ACFIXEDCONSTRAINT"@.len() != "ACPOINTCOINCIDENCECONSTRAINT"@.len());
    reveal_strlit("ACHORIZONTALCONSTRAINT");
    assert("ACFIXEDCONSTRAINT"@.len() != "ACHORIZONTALCONSTRAINT"@.len());
    reveal_strlit("ACVERTICALCONSTRAINT");
    assert("ACFIXEDCONSTRAINT"@.len() != "ACVERTICALCONSTRAINT"@.len());
    reveal_strlit("ACPARALLELCONSTRAINT");
    assert("ACFIXEDCONSTRAINT"@.len() != "ACPARALLELCONSTRAINT"@.len());
    reveal_strlit("ACPERPENDICULARCONSTRAINT");
    assert("ACFIXEDCONSTRAINT"@.len() != "ACPERPENDICULARCONSTRAINT"@.len());
    reveal_strlit("ACEQUALLENGTHCONSTRAINT");
    assert("ACFIXEDCONSTRAINT"@.len() != "ACEQUALLENGTHCONSTRAINT"@.len());
    reveal_strlit("ACEQUALRADIUSCONSTRAINT");
    assert("ACFIXEDCONSTRAINT"@.len() != "ACEQUALRADIUSCONSTRAINT"@.len());
    reveal_strlit("ACANGLECONSTRAINT");
    assert("ACFIXEDCONSTRAINT"@[2] != "ACANGLECONSTRAINT"@[2]);
    reveal_strlit("AC3POINTANGLECONSTRAINT");
    assert("ACFIXEDCONSTRAINT"@.len() != "AC3POINTANGLECONSTRAINT"@.len());
    reveal_strlit("ACTANGENTCONSTRAINT");
    assert("ACFIXEDCONSTRAINT"@.len() != "ACTANGENTCONSTRAINT"@.len());
    reveal_strlit("ACG2SMOOTHCONSTRAINT");
    assert("ACFIXEDCONSTRAINT"@.len() != "ACG2SMOOTHCONSTRAINT"@.len());
    reveal_strlit("ACCONCENTRICCONSTRAINT");
    assert("ACFIXEDCONSTRAINT"@.len() != "ACCONCENTRICCONSTRAINT"@.len());
    reveal_strlit("ACCENTERPOINTCONSTRAINT");
    assert("ACFIXEDCONSTRAINT"@.len() != "ACCENTERPOINTCONSTRAINT"@.len());
    reveal_strlit("ACCOLINEARCONSTRAINT");
    assert("ACFIXEDCONSTRAINT"@.len() != "ACCOLINEARCONSTRAINT"@.len());
    reveal_strlit("ACMIDPOINTCONSTRAINT");
    assert("ACFIXEDCONSTRAINT"@.len() != "ACMIDPOINTCONSTRAINT"@.len());
    assert(ascii_upper_seq("AcFixedConstraint"@) =~= "ACFIXEDCONSTRAINT"@);
}

proof fn lemma_reads_back_midpointconstraint()
    ensures
        ascii_upper_seq("AcMidPointConstraint"@) == "ACMIDPOINTCONSTRAINT"@,
        "ACMIDPOINTCONSTRAINT"@ != "ACPOINTCOINCIDENCECONSTRAINT"@,
        "ACMIDPOINTCONSTRAINT"@ != "ACHORIZONTALCONSTRAINT"@,
        "ACMIDPOINTCONSTRAINT"@ != "ACVERTICALCONSTRAINT"@,
        "ACMIDPOINTCONSTRAINT"@ != "ACPARALLELCONSTRAINT"@,
        "ACMIDPOINTCONSTRAINT"@ != "ACPERPENDICULARCONSTRAINT"@,
        "ACMIDPOINTCONSTRAINT"@ != "ACEQUALLENGTHCONSTRAINT"@,
        "ACMIDPOINTCONSTRAINT"@ != "ACEQUALRADIUSCONSTRAINT"@,
        "ACMIDPOINTCONSTRAINT"@ != "ACANGLECONSTRAINT"@,
        "ACMIDPOINTCONSTRAINT"@ != "AC3POINTANGLECONSTRAINT"@,
        "ACMIDPOINTCONSTRAINT"@ != "ACTANGENTCONSTRAINT"@,
        "ACMIDPOINTCONSTRAINT"@ != "ACG2SMOOTHCONSTRAINT"@,
        "ACMIDPOINTCONSTRAINT"@ != "ACCONCENTRICCONSTRAINT"@,
        "ACMIDPOINTCONSTRAINT"@ != "ACCENTERPOINTCONSTRAINT"@,
        "ACMIDPOINTCONSTRAINT"@ != "ACCOLINEARCONSTRAINT"@,
{
    reveal_strlit("AcMidPointConstraint");
    reveal_strlit("ACMIDPOINTCONSTRAINT");
    reveal_strlit("ACPOINTCOINCIDENCECONSTRAINT");
    assert("ACMIDPOINTCONSTRAINT"@.len() != "ACPOINTCOINCIDENCECONSTRAINT"@.len());
    reveal_strlit("ACHORIZONTALCONSTRAINT");
    assert("ACMIDPOINTCONSTRAINT"@.len() != "ACHORIZONTALCONSTRAINT"@.len());
    reveal_strlit("ACVERTICALCONSTRAINT");
    assert("ACMIDPOINTCONSTRAINT"@[2] != "ACVERTICALCONSTRAINT"@[2]);
    reveal_strlit("ACPARALLELCONSTRAINT");
    assert("ACMIDPOINTCONSTRAINT"@[2] != "ACPARALLELCONSTRAINT"@[2]);
    reveal_strlit("ACPERPENDICULARCONSTRAINT");
    assert("ACMIDPOINTCONSTRAINT"@.len() != "ACPERPENDICULARCONSTRAINT"@.len());
    reveal_strlit("ACEQUALLENGTHCONSTRAINT");
    assert("ACMIDPOINTCONSTRAINT"@.len() != "ACEQUALLENGTHCONSTRAINT"@.len());
    reveal_strlit("ACEQUALRADIUSCONSTRAINT");
    assert("ACMIDPOINTCONSTRAINT"@.len() != "ACEQUALRADIUSCONSTRAINT"@.len());
    reveal_strlit("ACANGLECONSTRAINT");
    assert("ACMIDPOINTCONSTRAINT"@.len() != "ACANGLECONSTRAINT"@.len());
    reveal_strlit("AC3POINTANGLECONSTRAINT");
    assert("ACMIDPOINTCONSTRAINT"@.len() != "AC3POINTANGLECONSTRAINT"@.len());
    reveal_strlit("ACTANGENTCONSTRAINT");
    assert("ACMIDPOINTCONSTRAINT"@.len() != "ACTANGENTCONSTRAINT"@.len());
    reveal_strlit("ACG2SMOOTHCONSTRAINT");
    assert("ACMIDPOINTCONSTRAINT"@[2] != "ACG2SMOOTHCONSTRAINT"@[2]);
    reveal_strlit("ACCONCENTRICCONSTRAINT");
    assert("ACMIDPOINTCONSTRAINT"@.len() != "ACCONCENTRICCONSTRAINT"@.len());
    reveal_strlit("ACCENTERPOINTCONSTRAINT");
    assert("ACMIDPOINTCONSTRAINT"@.len() != "ACCENTERPOINTCONSTRAINT"@.len());
    reveal_strlit("ACCOLINEARCONSTRAINT");
    assert("ACMIDPOINTCONSTRAINT"@[2] != "ACCOLINEARCONSTRAINT"@[2]);
    assert(ascii_upper_seq("AcMidPointConstraint"@) =~= "ACMIDPOINTCONSTRAINT"@);
}

proof fn lemma_reads_back_pointcurveconstraint()
    ensures
        ascii_upper_seq("AcPointCurveConstraint"@) == "ACPOINTCURVECONSTRAINT"@,
        "ACPOINTCURVECONSTRAINT"@ != "ACPOINTCOINCIDENCECONSTRAINT"@,
        "ACPOINTCURVECONSTRAINT"@ != "ACHORIZONTALCONSTRAINT"@,
        "ACPOINTCURVECONSTRAINT"@ != "ACVERTICALCONSTRAINT"@,
        "ACPOINTCURVECONSTRAINT"@ != "ACPARALLELCONSTRAINT"@,
        "ACPOINTCURVECONSTRAINT"@ != "ACPERPENDICULARCONSTRAINT"@,
        "ACPOINTCURVECONSTRAINT"@ != "ACEQUALLENGTHCONSTRAINT"@,
        "ACPOINTCURVECONSTRAINT"@ != "ACEQUALRADIUSCONSTRAINT"@,
        "ACPOINTCURVECONSTRAINT"@ != "ACANGLECONSTRAINT"@,
        "ACPOINTCURVECONSTRAINT"@ != "AC3POINTANGLECONSTRAINT"@,
        "ACPOINTCURVECONSTRAINT"@ != "ACTANGENTCONSTRAINT"@,
        "ACPOINTCURVECONSTRAINT"@ != "ACG2SMOOTHCONSTRAINT"@,
        "ACPOINTCURVECONSTRAINT"@ != "ACCONCENTRICCONSTRAINT"@,
        "ACPOINTCURVECONSTRAINT"@ != "ACCENTERPOINTCONSTRAINT"@,
        "ACPOINTCURVECONSTRAINT"@ != "ACCOLINEARCONSTRAINT"@,
        "ACPOINTCURVECONSTRAINT"@ != "ACMIDPOINTCONSTRAINT"@,
        "ACPOINTCURVECONSTRAINT"@ != "ACFIXEDCONSTRAINT"@,
{
    reveal_strlit("AcPointCurveConstraint");
    reveal_strlit("ACPOINTCURVECONSTRAINT");
    reveal_strlit("ACPOINTCOINCIDENCECONSTRAINT");
    assert("ACPOINTCURVECONSTRAINT"@.len() != "ACPOINTCOINCIDENCECONSTRAINT"@.len());
    reveal_strlit("ACHORIZONTALCONSTRAINT");
    assert("ACPOINTCURVECONSTRAINT"@[2] != "ACHORIZONTALCONSTRAINT"@[2]);
    reveal_strlit("ACVERTICALCONSTRAINT");
    assert("ACPOINTCURVECONSTRAINT"@.len() != "ACVERTICALCONSTRAINT"@.len());
    reveal_strlit("ACPARALLELCONSTRAINT");
    assert("ACPOINTCURVECONSTRAINT"@.len() != "ACPARALLELCONSTRAINT"@.len());
    reveal_strlit("ACPERPENDICULARCONSTRAINT");
    assert("ACPOINTCURVECONSTRAINT"@.len() != "ACPERPENDICULARCONSTRAINT"@.len());
    reveal_strlit("ACEQUALLENGTHCONSTRAINT");
    assert("ACPOINTCURVECONSTRAINT"@.len() != "ACEQUALLENGTHCONSTRAINT"@.len());
    reveal_strlit("ACEQUALRADIUSCONSTRAINT");
    assert("ACPOINTCURVECONSTRAINT"@.len() != "ACEQUALRADIUSCONSTRAINT"@.len());
    reveal_strlit("ACANGLECONSTRAINT");
    assert("ACPOINTCURVECONSTRAINT"@.len() != "ACANGLECONSTRAINT"@.len());
    reveal_strlit("AC3POINTANGLECONSTRAINT");
    assert("ACPOINTCURVECONSTRAINT"@.len() != "AC3POINTANGLECONSTRAINT"@.len());
    reveal_strlit("ACTANGENTCONSTRAINT");
    assert("ACPOINTCURVECONSTRAINT"@.len() != "ACTANGENTCONSTRAINT"@.len());
    reveal_strlit("ACG2SMOOTHCONSTRAINT");
    assert("ACPOINTCURVECONSTRAINT"@.len() != "ACG2SMOOTHCONSTRAINT"@.len());
    reveal_strlit("ACCONCENTRICCONSTRAINT");
    assert("ACPOINTCURVECONSTRAINT"@[2] != "ACCONCENTRICCONSTRAINT"@[2]);
    reveal_strlit("ACCENTERPOINTCONSTRAINT");
    assert("ACPOINTCURVECONSTRAINT"@.len() != "ACCENTERPOINTCONSTRAINT"@.len());
    reveal_strlit("ACCOLINEARCONSTRAINT");
    assert("ACPOINTCURVECONSTRAINT"@.len() != "ACCOLINEARCONSTRAINT"@.len());
    reveal_strlit("ACMIDPOINTCONSTRAINT");
    assert("ACPOINTCURVECONSTRAINT"@.len() != "ACMIDPOINTCONSTRAINT"@.len());
    reveal_strlit("ACFIXEDCONSTRAINT");
    assert("ACPOINTCURVECONSTRAINT"@.len() != "ACFIXEDCONSTRAINT"@.len());
    assert(ascii_upper_seq("AcPointCurveConstraint"@) =~= "ACPOINTCURVECONSTRAINT"@);
}

proof fn lemma_reads_back_symmetricconstraint()
    ensures
        ascii_upper_seq("AcSymmetricConstraint"@) == "ACSYMMETRICCONSTRAINT"@,
        "ACSYMMETRICCONSTRAINT"@ != "ACPOINTCOINCIDENCECONSTRAINT"@,
        "ACSYMMETRICCONSTRAINT"@ != "ACHORIZONTALCONSTRAINT"@,
        "ACSYMMETRICCONSTRAINT"@ != "ACVERTICALCONSTRAINT"@,
        "ACSYMMETRICCONSTRAINT"@ != "ACPARALLELCONSTRAINT"@,
        "ACSYMMETRICCONSTRAINT"@ != "ACPERPENDICULARCONSTRAINT"@,
        "ACSYMMETRICCONSTRAINT"@ != "ACEQUALLENGTHCONSTRAINT"@,
        "ACSYMMETRICCONSTRAINT"@ != "ACEQUALRADIUSCONSTRAINT"@,
        "ACSYMMETRICCONSTRAINT"@ != "ACANGLECONSTRAINT"@,
        "ACSYMMETRICCONSTRAINT"@ != "AC3POINTANGLECONSTRAINT"@,
        "ACSYMMETRICCONSTRAINT"@ != "ACTANGENTCONSTRAINT"@,
        "ACSYMMETRICCONSTRAINT"@ != "ACG2SMOOTHCONSTRAINT"@,
        "ACSYMMETRICCONSTRAINT"@ != "ACCONCENTRICCONSTRAINT"@,
        "ACSYMMETRICCONSTRAINT"@ != "ACCENTERPOINTCONSTRAINT"@,
        "ACSYMMETRICCONSTRAINT"@ != "ACCOLINEARCONSTRAINT"@,
        "ACSYMMETRICCONSTRAINT"@ != "ACMIDPOINTCONSTRAINT"@,
        "ACSYMMETRICCONSTRAINT"@ != "ACFIXEDCONSTRAINT"@,
        "ACSYMMETRICCONSTRAINT"@ != "ACPOINTCURVECONSTRAINT"@,
        "ACSYMMETRICCONSTRAINT"@ != "ACEQUALDISTANCECONSTRAINT"@,
{
    reveal_strlit("AcSymmetricConstraint");
    reveal_strlit("ACSYMMETRICCONSTRAINT");
    reveal_strlit("ACPOINTCOINCIDENCECONSTRAINT");
    assert("ACSYMMETRICCONSTRAINT"@.len() != "ACPOINTCOINCIDENCECONSTRAINT"@.len());
    reveal_strlit("ACHORIZONTALCONSTRAINT");
    assert("ACSYMMETRICCONSTRAINT"@.len() != "ACHORIZONTALCONSTRAINT"@.len());
    reveal_strlit("ACVERTICALCONSTRAINT");
    assert("ACSYMMETRICCONSTRAINT"@.len() != "ACVERTICALCONSTRAINT"@.len());
    reveal_strlit("ACPARALLELCONSTRAINT");
    assert("ACSYMMETRICCONSTRAINT"@.len() != "ACPARALLELCONSTRAINT"@.len());
    reveal_strlit("ACPERPENDICULARCONSTRAINT");
    assert("ACSYMMETRICCONSTRAINT"@.len() != "ACPERPENDICULARCONSTRAINT"@.len());
    reveal_strlit("ACEQUALLENGTHCONSTRAINT");
    assert("ACSYMMETRICCONSTRAINT"@.len() != "ACEQUALLENGTHCONSTRAINT"@.len());
    reveal_strlit("ACEQUALRADIUSCONSTRAINT");
    assert("ACSYMMETRICCONSTRAINT"@.len() != "ACEQUALRADIUSCONSTRAINT"@.len());
    reveal_strlit("ACANGLECONSTRAINT");
    assert("ACSYMMETRICCONSTRAINT"@.len() != "ACANGLECONSTRAINT"@.len());
    reveal_strlit("AC3POINTANGLECONSTRAINT");
    assert("ACSYMMETRICCONSTRAINT"@.len() != "AC3POINTANGLECONSTRAINT"@.len());
    reveal_strlit("ACTANGENTCONSTRAINT");
    assert("ACSYMMETRICCONSTRAINT"@.len() != "ACTANGENTCONSTRAINT"@.len());
    reveal_strlit("ACG2SMOOTHCONSTRAINT");
    assert("ACSYMMETRICCONSTRAINT"@.len() != "ACG2SMOOTHCONSTRAINT"@.len());
    reveal_strlit("ACCONCENTRICCONSTRAINT");
    assert("ACSYMMETRICCONSTRAINT"@.len() != "ACCONCENTRICCONSTRAINT"@.len());
    reveal_strlit("ACCENTERPOINTCONSTRAINT");
    assert("ACSYMMETRICCONSTRAINT"@.len() != "ACCENTERPOINTCONSTRAINT"@.len());
    reveal_strlit("ACCOLINEARCONSTRAINT");
    assert("ACSYMMETRICCONSTRAINT"@.len() != "ACCOLINEARCONSTRAINT"@.len());
    reveal_strlit("ACMIDPOINTCONSTRAINT");
    assert("ACSYMMETRICCONSTRAINT"@.len() != "ACMIDPOINTCONSTRAINT"@.len());
    reveal_strlit("ACFIXEDCONSTRAINT");
    assert("ACSYMMETRICCONSTRAINT"@.len() != "ACFIXEDCONSTRAINT"@.len());
    reveal_strlit("ACPOINTCURVECONSTRAINT");
    assert("ACSYMMETRICCONSTRAINT"@.len() != "ACPOINTCURVECONSTRAINT"@.len());
    reveal_strlit("ACEQUALDISTANCECONSTRAINT");
    assert("ACSYMMETRICCONSTRAINT"@.len() != "ACEQUALDISTANCECONSTRAINT"@.len());
    assert(ascii_upper_seq("AcSymmetricConstraint"@) =~= "ACSYMMETRICCONSTRAINT"@);
}

proof fn lemma_reads_back_normalconstraint()
    ensures
        ascii_upper_seq("AcNormalConstraint"@) == "ACNORMALCONSTRAINT"@,
        "ACNORMALCONSTRAINT"@ != "ACPOINTCOINCIDENCECONSTRAINT"@,
        "ACNORMALCONSTRAINT"@ != "ACHORIZONTALCONSTRAINT"@,
        "ACNORMALCONSTRAINT"@ != "ACVERTICALCONSTRAINT"@,
        "ACNORMALCONSTRAINT"@ != "ACPARALLELCONSTRAINT"@,
        "ACNORMALCONSTRAINT"@ != "ACPERPENDICULARCONSTRAINT"@,
        "ACNORMALCONSTRAINT"@ != "ACEQUALLENGTHCONSTRAINT"@,
        "ACNORMALCONSTRAINT"@ != "ACEQUALRADIUSCONSTRAINT"@,
        "ACNORMALCONSTRAINT"@ != "ACANGLECONSTRAINT"@,
        "ACNORMALCONSTRAINT"@ != "AC3POINTANGLECONSTRAINT"@,
        "ACNORMALCONSTRAINT"@ != "ACTANGENTCONSTRAINT"@,
        "ACNORMALCONSTRAINT"@ != "ACG2SMOOTHCONSTRAINT"@,
        "ACNORMALCONSTRAINT"@ != "ACCONCENTRICCONSTRAINT"@,
        "ACNORMALCONSTRAINT"@ != "ACCENTERPOINTCONSTRAINT"@,
        "ACNORMALCONSTRAINT"@ != "ACCOLINEARCONSTRAINT"@,
        "ACNORMALCONSTRAINT"@ != "ACMIDPOINTCONSTRAINT"@,
        "ACNORMALCONSTRAINT"@ != "ACFIXEDCONSTRAINT"@,
        "ACNORMALCONSTRAINT"@ != "ACPOINTCURVECONSTRAINT"@,
        "ACNORMALCONSTRAINT"@ != "ACEQUALDISTANCECONSTRAINT"@,
        "ACNORMALCONSTRAINT"@ != "ACSYMMETRICCONSTRAINT"@,
{
    reveal_strlit("AcNormalConstraint");
    reveal_strlit("ACNORMALCONSTRAINT");
    reveal_strlit("ACPOINTCOINCIDENCECONSTRAINT");
    assert("ACNORMALCONSTRAINT"@.len() != "ACPOINTCOINCIDENCECONSTRAINT"@.len());
    reveal_strlit("ACHORIZONTALCONSTRAINT");
    assert("ACNORMALCONSTRAINT"@.len() != "ACHORIZONTALCONSTRAINT"@.len());
    reveal_strlit("ACVERTICALCONSTRAINT");
    assert("ACNORMALCONSTRAINT"@.len() != "ACVERTICALCONSTRAINT"@.len());
    reveal_strlit("ACPARALLELCONSTRAINT");
    assert("ACNORMALCONSTRAINT"@.len() != "ACPARALLELCONSTRAINT"@.len());
    reveal_strlit("ACPERPENDICULARCONSTRAINT");
    assert("ACNORMALCONSTRAINT"@.len() != "ACPERPENDICULARCONSTRAINT"@.len());
    reveal_strlit("ACEQUALLENGTHCONSTRAINT");
    assert("ACNORMALCONSTRAINT"@.len() != "ACEQUALLENGTHCONSTRAINT"@.len());
    reveal_strlit("ACEQUALRADIUSCONSTRAINT");
    assert("ACNORMALCONSTRAINT"@.len() != "ACEQUALRADIUSCONSTRAINT"@.len());
    reveal_strlit("ACANGLECONSTRAINT");
    assert("ACNORMALCONSTRAINT"@.len() != "ACANGLECONSTRAINT"@.len());
    reveal_strlit("AC3POINTANGLECONSTRAINT");
    assert("ACNORMALCONSTRAINT"@.len() != "AC3POINTANGLECONSTRAINT"@.len());
    reveal_strlit("ACTANGENTCONSTRAINT");
    assert("ACNORMALCONSTRAINT"@.len() != "ACTANGENTCONSTRAINT"@.len());
    reveal_strlit("ACG2SMOOTHCONSTRAINT");
    assert("ACNORMALCONSTRAINT"@.len() != "ACG2SMOOTHCONSTRAINT"@.len());
    reveal_strlit("ACCONCENTRICCONSTRAINT");
    assert("ACNORMALCONSTRAINT"@.len() != "ACCONCENTRICCONSTRAINT"@.len());
    reveal_strlit("ACCENTERPOINTCONSTRAINT");
    assert("ACNORMALCONSTRAINT"@.len() != "ACCENTERPOINTCONSTRAINT"@.len());
    reveal_strlit("ACCOLINEARCONSTRAINT");
    assert("ACNORMALCONSTRAINT"@.len() != "ACCOLINEARCONSTRAINT"@.len());
    reveal_strlit("ACMIDPOINTCONSTRAINT");
    assert("ACNORMALCONSTRAINT"@.len() != "ACMIDPOINTCONSTRAINT"@.len());
    reveal_strlit("ACFIXEDCONSTRAINT");
    assert("ACNORMALCONSTRAINT"@.len() != "ACFIXEDCONSTRAINT"@.len());
    reveal_strlit("ACPOINTCURVECONSTRAINT");
    assert("ACNORMALCONSTRAINT"@.len() != "ACPOINTCURVECONSTRAINT"@.len());
    reveal_strlit("ACEQUALDISTANCECONSTRAINT");
    assert("ACNORMALCONSTRAINT"@.len() != "ACEQUALDISTANCECONSTRAINT"@.len());
    reveal_strlit("ACSYMMETRICCONSTRAINT");
    assert("ACNORMALCONSTRAINT"@.len() != "ACSYMMETRICCONSTRAINT"@.len());
    assert(ascii_upper_seq("AcNormalConstraint"@) =~= "ACNORMALCONSTRAINT"@);
}

proof fn lemma_reads_back_equaldistanceconstraint()
    ensures
        ascii_upper_seq("AcEqualDistanceConstraint"@) == "ACEQUALDISTANCECONSTRAINT"@,
        "ACEQUALDISTANCECONSTRAINT"@ != "ACPOINTCOINCIDENCECONSTRAINT"@,
        "ACEQUALDISTANCECONSTRAINT"@ != "ACHORIZONTALCONSTRAINT"@,
        "ACEQUALDISTANCECONSTRAINT"@ != "ACVERTICALCONSTRAINT"@,
        "ACEQUALDISTANCECONSTRAINT"@ != "ACPARALLELCONSTRAINT"@,
        "ACEQUALDISTANCECONSTRAINT"@ != "ACPERPENDICULARCONSTRAINT"@,
        "ACEQUALDISTANCECONSTRAINT"@ != "ACEQUALLENGTHCONSTRAINT"@,
        "ACEQUALDISTANCECONSTRAINT"@ != "ACEQUALRADIUSCONSTRAINT"@,
        "ACEQUALDISTANCECONSTRAINT"@ != "ACANGLECONSTRAINT"@,
        "ACEQUALDISTANCECONSTRAINT"@ != "AC3POINTANGLECONSTRAINT"@,
        "ACEQUALDISTANCECONSTRAINT"@ != "ACTANGENTCONSTRAINT"@,
        "ACEQUALDISTANCECONSTRAINT"@ != "ACG2SMOOTHCONSTRAINT"@,
        "ACEQUALDISTANCECONSTRAINT"@ != "ACCONCENTRICCONSTRAINT"@,
        "ACEQUALDISTANCECONSTRAINT"@ != "ACCENTERPOINTCONSTRAINT"@,
        "ACEQUALDISTANCECONSTRAINT"@ != "ACCOLINEARCONSTRAINT"@,
        "ACEQUALDISTANCECONSTRAINT"@ != "ACMIDPOINTCONSTRAINT"@,
        "ACEQUALDISTANCECONSTRAINT"@ != "ACFIXEDCONSTRAINT"@,
        "ACEQUALDISTANCECONSTRAINT"@ != "ACPOINTCURVECONSTRAINT"@,
{
    reveal_strlit("AcEqualDistanceConstraint");
    reveal_strlit("ACEQUALDISTANCECONSTRAINT");
    reveal_strlit("ACPOINTCOINCIDENCECONSTRAINT");
    assert("ACEQUALDISTANCECONSTRAINT"@.len() != "ACPOINTCOINCIDENCECONSTRAINT"@.len());
    reveal_strlit("ACHORIZONTALCONSTRAINT");
    assert("ACEQUALDISTANCECONSTRAINT"@.len() != "ACHORIZONTALCONSTRAINT"@.len());
    reveal_strlit("ACVERTICALCONSTRAINT");
    assert("ACEQUALDISTANCECONSTRAINT"@.len() != "ACVERTICALCONSTRAINT"@.len());
    reveal_strlit("ACPARALLELCONSTRAINT");
    assert("ACEQUALDISTANCECONSTRAINT"@.len() != "ACPARALLELCONSTRAINT"@.len());
    reveal_strlit("ACPERPENDICULARCONSTRAINT");
    assert("ACEQUALDISTANCECONSTRAINT"@[2] != "ACPERPENDICULARCONSTRAINT"@[2]);
    reveal_strlit("ACEQUALLENGTHCONSTRAINT");
    assert("ACEQUALDISTANCECONSTRAINT"@.len() != "ACEQUALLENGTHCONSTRAINT"@.len());
    reveal_strlit("ACEQUALRADIUSCONSTRAINT");
    assert("ACEQUALDISTANCECONSTRAINT"@.len() != "ACEQUALRADIUSCONSTRAINT"@.len());
    reveal_strlit("ACANGLECONSTRAINT");
    assert("ACEQUALDISTANCECONSTRAINT"@.len() != "ACANGLECONSTRAINT"@.len());
    reveal_strlit("AC3POINTANGLECONSTRAINT");
    assert("ACEQUALDISTANCECONSTRAINT"@.len() != "AC3POINTANGLECONSTRAINT"@.len());
    reveal_strlit("ACTANGENTCONSTRAINT");
    assert("ACEQUALDISTANCECONSTRAINT"@.len() != "ACTANGENTCONSTRAINT"@.len());
    reveal_strlit("ACG2SMOOTHCONSTRAINT");
    assert("ACEQUALDISTANCECONSTRAINT"@.len() != "ACG2SMOOTHCONSTRAINT"@.len());
    reveal_strlit("ACCONCENTRICCONSTRAINT");
    assert("ACEQUALDISTANCECONSTRAINT"@.len() != "ACCONCENTRICCONSTRAINT"@.len());
    reveal_strlit("ACCENTERPOINTCONSTRAINT");
    assert("ACEQUALDISTANCECONSTRAINT"@.len() != "ACCENTERPOINTCONSTRAINT"@.len());
    reveal_strlit("ACCOLINEARCONSTRAINT");
    assert("ACEQUALDISTANCECONSTRAINT"@.len() != "ACCOLINEARCONSTRAINT"@.len());
    reveal_strlit("ACMIDPOINTCONSTRAINT");
    assert("ACEQUALDISTANCECONSTRAINT"@.len() != "ACMIDPOINTCONSTRAINT"@.len());
    reveal_strlit("ACFIXEDCONSTRAINT");
    assert("ACEQUALDISTANCECONSTRAINT"@.len() != "ACFIXEDCONSTRAINT"@.len());
    reveal_strlit("ACPOINTCURVECONSTRAINT");
    assert("ACEQUALDISTANCECONSTRAINT"@.len() != "ACPOINTCURVECONSTRAINT"@.len());
    assert(ascii_upper_seq("AcEqualDistanceConstraint"@) =~= "ACEQUALDISTANCECONSTRAINT"@);
}

proof fn lemma_reads_back_distanceconstraint()
    ensures
        ascii_upper_seq("AcDistanceConstraint"@) == "ACDISTANCECONSTRAINT"@,
        "ACDISTANCECONSTRAINT"@ != "ACPOINTCOINCIDENCECONSTRAINT"@,
        "ACDISTANCECONSTRAINT"@ != "ACHORIZONTALCONSTRAINT"@,
        "ACDISTANCECONSTRAINT"@ != "ACVERTICALCONSTRAINT"@,
        "ACDISTANCECONSTRAINT"@ != "ACPARALLELCONSTRAINT"@,
        "ACDISTANCECONSTRAINT"@ != "ACPERPENDICULARCONSTRAINT"@,
        "ACDISTANCECONSTRAINT"@ != "ACEQUALLENGTHCONSTRAINT"@,
        "ACDISTANCECONSTRAINT"@ != "ACEQUALRADIUSCONSTRAINT"@,
        "ACDISTANCECONSTRAINT"@ != "ACANGLECONSTRAINT"@,
        "ACDISTANCECONSTRAINT"@ != "AC3POINTANGLECONSTRAINT"@,
        "ACDISTANCECONSTRAINT"@ != "ACTANGENTCONSTRAINT"@,
        "ACDISTANCECONSTRAINT"@ != "ACG2SMOOTHCONSTRAINT"@,
        "ACDISTANCECONSTRAINT"@ != "ACCONCENTRICCONSTRAINT"@,
        "ACDISTANCECONSTRAINT"@ != "ACCENTERPOINTCONSTRAINT"@,
        "ACDISTANCECONSTRAINT"@ != "ACCOLINEARCONSTRAINT"@,
        "ACDISTANCECONSTRAINT"@ != "ACMIDPOINTCONSTRAINT"@,
        "ACDISTANCECONSTRAINT"@ != "ACFIXEDCONSTRAINT"@,
        "ACDISTANCECONSTRAINT"@ != "ACPOINTCURVECONSTRAINT"@,
        "ACDISTANCECONSTRAINT"@ != "ACEQUALDISTANCECONSTRAINT"@,
        "ACDISTANCECONSTRAINT"@ != "ACSYMMETRICCONSTRAINT"@,
        "ACDISTANCECONSTRAINT"@ != "ACNORMALCONSTRAINT"@,
        "ACDISTANCECONSTRAINT"@ != "ACRADIUSDIAMETERCONSTRAINT"@,
{
    reveal_strlit("AcDistanceConstraint");
    reveal_strlit("ACDISTANCECONSTRAINT");
    reveal_strlit("ACPOINTCOINCIDENCECONSTRAINT");
    assert("ACDISTANCECONSTRAINT"@.len() != "ACPOINTCOINCIDENCECONSTRAINT"@.len());
    reveal_strlit("ACHORIZONTALCONSTRAINT");
    assert("ACDISTANCECONSTRAINT"@.len() != "ACHORIZONTALCONSTRAINT"@.len());
    reveal_strlit("ACVERTICALCONSTRAINT");
    assert("ACDISTANCECONSTRAINT"@[2] != "ACVERTICALCONSTRAINT"@[2]);
    reveal_strlit("ACPARALLELCONSTRAINT");
    assert("ACDISTANCECONSTRAINT"@[2] != "ACPARALLELCONSTRAINT"@[2]);
    reveal_strlit("ACPERPENDICULARCONSTRAINT");
    assert("ACDISTANCECONSTRAINT"@.len() != "ACPERPENDICULARCONSTRAINT"@.len());
    reveal_strlit("ACEQUALLENGTHCONSTRAINT");
    assert("ACDISTANCECONSTRAINT"@.len() != "ACEQUALLENGTHCONSTRAINT"@.len());
    reveal_strlit("ACEQUALRADIUSCONSTRAINT");
    assert("ACDISTANCECONSTRAINT"@.len() != "ACEQUALRADIUSCONSTRAINT"@.len());
    reveal_strlit("ACANGLECONSTRAINT");
    assert("ACDISTANCECONSTRAINT"@.len() != "ACANGLECONSTRAINT"@.len());
    reveal_strlit("AC3POINTANGLECONSTRAINT");
    assert("ACDISTANCECONSTRAINT"@.len() != "AC3POINTANGLECONSTRAINT"@.len());
    reveal_strlit("ACTANGENTCONSTRAINT");
    assert("ACDISTANCECONSTRAINT"@.len() != "ACTANGENTCONSTRAINT"@.len());
    reveal_strlit("ACG2SMOOTHCONSTRAINT");
    assert("ACDISTANCECONSTRAINT"@[2] != "ACG2SMOOTHCONSTRAINT"@[2]);
    reveal_strlit("ACCONCENTRICCONSTRAINT");
    assert("ACDISTANCECONSTRAINT"@.len() != "ACCONCENTRICCONSTRAINT"@.len());
    reveal_strlit("ACCENTERPOINTCONSTRAINT");
    assert("ACDISTANCECONSTRAINT"@.len() != "ACCENTERPOINTCONSTRAINT"@.len());
    reveal_strlit("ACCOLINEARCONSTRAINT");
    assert("ACDISTANCECONSTRAINT"@[2] != "ACCOLINEARCONSTRAINT"@[2]);
    reveal_strlit("ACMIDPOINTCONSTRAINT");
    assert("ACDISTANCECONSTRAINT"@[2] != "ACMIDPOINTCONSTRAINT"@[2]);
    reveal_strlit("ACFIXEDCONSTRAINT");
    assert("ACDISTANCECONSTRAINT"@.len() != "ACFIXEDCONSTRAINT"@.len());
    reveal_strlit("ACPOINTCURVECONSTRAINT");
    assert("ACDISTANCECONSTRAINT"@.len() != "ACPOINTCURVECONSTRAINT"@.len());
    reveal_strlit("ACEQUALDISTANCECONSTRAINT");
    assert("ACDISTANCECONSTRAINT"@.len() != "ACEQUALDISTANCECONSTRAINT"@.len());
    reveal_strlit("ACSYMMETRICCONSTRAINT");
    assert("ACDISTANCECONSTRAINT"@.len() != "ACSYMMETRICCONSTRAINT"@.len());
    reveal_strlit("ACNORMALCONSTRAINT");
    assert("ACDISTANCECONSTRAINT"@.len() != "ACNORMALCONSTRAINT"@.len());
    reveal_strlit("ACRADIUSDIAMETERCONSTRAINT");
    assert("ACDISTANCECONSTRAINT"@.len() != "ACRADIUSDIAMETERCONSTRAINT"@.len());
    assert(ascii_upper_seq("AcDistanceConstraint"@) =~= "ACDISTANCECONSTRAINT"@);
}

proof fn lemma_reads_back_angleconstraint()
    ensures
        ascii_upper_seq("AcAngleConstraint"@) == "ACANGLECONSTRAINT"@,
        "ACANGLECONSTRAINT"@ != "ACPOINTCOINCIDENCECONSTRAINT"@,
        "ACANGLECONSTRAINT"@ != "ACHORIZONTALCONSTRAINT"@,
        "ACANGLECONSTRAINT"@ != "ACVERTICALCONSTRAINT"@,
        "ACANGLECONSTRAINT"@ != "ACPARALLELCONSTRAINT"@,
        "ACANGLECONSTRAINT"@ != "ACPERPENDICULARCONSTRAINT"@,
        "ACANGLECONSTRAINT"@ != "ACEQUALLENGTHCONSTRAINT"@,
        "ACANGLECONSTRAINT"@ != "ACEQUALRADIUSCONSTRAINT"@,
{
    reveal_strlit("AcAngleConstraint");
    reveal_strlit("ACANGLECONSTRAINT");
    reveal_strlit("ACPOINTCOINCIDENCECONSTRAINT");
    assert("ACANGLECONSTRAINT"@.len() != "ACPOINTCOINCIDENCECONSTRAINT"@.len());
    reveal_strlit("ACHORIZONTALCONSTRAINT");
    assert("ACANGLECONSTRAINT"@.len() != "ACHORIZONTALCONSTRAINT"@.len());
    reveal_strlit("ACVERTICALCONSTRAINT");
    assert("ACANGLECONSTRAINT"@.len() != "ACVERTICALCONSTRAINT"@.len());
    reveal_strlit("ACPARALLELCONSTRAINT");
    assert("ACANGLECONSTRAINT"@.len() != "ACPARALLELCONSTRAINT"@.len());
    reveal_strlit("ACPERPENDICULARCONSTRAINT");
    assert("ACANGLECONSTRAINT"@.len() != "ACPERPENDICULARCONSTRAINT"@.len());
    reveal_strlit("ACEQUALLENGTHCONSTRAINT");
    assert("ACANGLECONSTRAINT"@.len() != "ACEQUALLENGTHCONSTRAINT"@.len());
    reveal_strlit("ACEQUALRADIUSCONSTRAINT");
    assert("ACANGLECONSTRAINT"@.len() != "ACEQUALRADIUSCONSTRAINT"@.len());
    assert(ascii_upper_seq("AcAngleConstraint"@) =~= "ACANGLECONSTRAINT"@);
}

proof fn lemma_reads_back_radiusdiameterconstraint()
    ensures
        ascii_upper_seq("AcRadiusDiameterConstraint"@) == "ACRADIUSDIAMETERCONSTRAINT"@,
        "ACRADIUSDIAMETERCONSTRAINT"@ != "ACPOINTCOINCIDENCECONSTRAINT"@,
        "ACRADIUSDIAMETERCONSTRAINT"@ != "ACHORIZONTALCONSTRAINT"@,
        "ACRADIUSDIAMETERCONSTRAINT"@ != "ACVERTICALCONSTRAINT"@,
        "ACRADIUSDIAMETERCONSTRAINT"@ != "ACPARALLELCONSTRAINT"@,
        "ACRADIUSDIAMETERCONSTRAINT"@ != "ACPERPENDICULARCONSTRAINT"@,
        "ACRADIUSDIAMETERCONSTRAINT"@ != "ACEQUALLENGTHCONSTRAINT"@,
        "ACRADIUSDIAMETERCONSTRAINT"@ != "ACEQUALRADIUSCONSTRAINT"@,
        "ACRADIUSDIAMETERCONSTRAINT"@ != "ACANGLECONSTRAINT"@,
        "ACRADIUSDIAMETERCONSTRAINT"@ != "AC3POINTANGLECONSTRAINT"@,
        "ACRADIUSDIAMETERCONSTRAINT"@ != "ACTANGENTCONSTRAINT"@,
        "ACRADIUSDIAMETERCONSTRAINT"@ != "ACG2SMOOTHCONSTRAINT"@,
        "ACRADIUSDIAMETERCONSTRAINT"@ != "ACCONCENTRICCONSTRAINT"@,
        "ACRADIUSDIAMETERCONSTRAINT"@ != "ACCENTERPOINTCONSTRAINT"@,
        "ACRADIUSDIAMETERCONSTRAINT"@ != "ACCOLINEARCONSTRAINT"@,
        "ACRADIUSDIAMETERCONSTRAINT"@ != "ACMIDPOINTCONSTRAINT"@,
        "ACRADIUSDIAMETERCONSTRAINT"@ != "ACFIXEDCONSTRAINT"@,
        "ACRADIUSDIAMETERCONSTRAINT"@ != "ACPOINTCURVECONSTRAINT"@,
        "ACRADIUSDIAMETERCONSTRAINT"@ != "ACEQUALDISTANCECONSTRAINT"@,
        "ACRADIUSDIAMETERCONSTRAINT"@ != "ACSYMMETRICCONSTRAINT"@,
        "ACRADIUSDIAMETERCONSTRAINT"@ != "ACNORMALCONSTRAINT"@,
{
    reveal_strlit("AcRadiusDiameterConstraint");
    reveal_strlit("ACRADIUSDIAMETERCONSTRAINT");
    reveal_strlit("ACPOINTCOINCIDENCECONSTRAINT");
    assert("ACRADIUSDIAMETERCONSTRAINT"@.len() != "ACPOINTCOINCIDENCECONSTRAINT"@.len());
    reveal_strlit("ACHORIZONTALCONSTRAINT");
    assert("ACRADIUSDIAMETERCONSTRAINT"@.len() != "ACHORIZONTALCONSTRAINT"@.len());
    reveal_strlit("ACVERTICALCONSTRAINT");
    assert("ACRADIUSDIAMETERCONSTRAINT"@.len() != "ACVERTICALCONSTRAINT"@.len());
    reveal_strlit("ACPARALLELCONSTRAINT");
    assert("ACRADIUSDIAMETERCONSTRAINT"@.len() != "ACPARALLELCONSTRAINT"@.len());
    reveal_strlit("ACPERPENDICULARCONSTRAINT");
    assert("ACRADIUSDIAMETERCONSTRAINT"@.len() != "ACPERPENDICULARCONSTRAINT"@.len());
    reveal_strlit("ACEQUALLENGTHCONSTRAINT");
    assert("ACRADIUSDIAMETERCONSTRAINT"@.len() != "ACEQUALLENGTHCONSTRAINT"@.len());
    reveal_strlit("ACEQUALRADIUSCONSTRAINT");
    assert("ACRADIUSDIAMETERCONSTRAINT"@.len() != "ACEQUALRADIUSCONSTRAINT"@.len());
    reveal_strlit("ACANGLECONSTRAINT");
    assert("ACRADIUSDIAMETERCONSTRAINT"@.len() != "ACANGLECONSTRAINT"@.len());
    reveal_strlit("AC3POINTANGLECONSTRAINT");
    assert("ACRADIUSDIAMETERCONSTRAINT"@.len() != "AC3POINTANGLECONSTRAINT"@.len());
    reveal_strlit("ACTANGENTCONSTRAINT");
    assert("ACRADIUSDIAMETERCONSTRAINT"@.len() != "ACTANGENTCONSTRAINT"@.len());
    reveal_strlit("ACG2SMOOTHCONSTRAINT");
    assert("ACRADIUSDIAMETERCONSTRAINT"@.len() != "ACG2SMOOTHCONSTRAINT"@.len());
    reveal_strlit("ACCONCENTRICCONSTRAINT");
    assert("ACRADIUSDIAMETERCONSTRAINT"@.len() != "ACCONCENTRICCONSTRAINT"@.len());
    reveal_strlit("ACCENTERPOINTCONSTRAINT");
    assert("ACRADIUSDIAMETERCONSTRAINT"@.len() != "ACCENTERPOINTCONSTRAINT"@.len());
    reveal_strlit("ACCOLINEARCONSTRAINT");
    assert("ACRADIUSDIAMETERCONSTRAINT"@.len() != "ACCOLINEARCONSTRAINT"@.len());
    reveal_strlit("ACMIDPOINTCONSTRAINT");
    assert("ACRADIUSDIAMETERCONSTRAINT"@.len() != "ACMIDPOINTCONSTRAINT"@.len());
    reveal_strlit("ACFIXEDCONSTRAINT");
    assert("ACRADIUSDIAMETERCONSTRAINT"@.len() != "ACFIXEDCONSTRAINT"@.len());
    reveal_strlit("ACPOINTCURVECONSTRAINT");
    assert("ACRADIUSDIAMETERCONSTRAINT"@.len() != "ACPOINTCURVECONSTRAINT"@.len());
    reveal_strlit("ACEQUALDISTANCECONSTRAINT");
    assert("ACRADIUSDIAMETERCONSTRAINT"@.len() != "ACEQUALDISTANCECONSTRAINT"@.len());
    reveal_strlit("ACSYMMETRICCONSTRAINT");
    assert("ACRADIUSDIAMETERCONSTRAINT"@.len() != "ACSYMMETRICCONSTRAINT"@.len());
    reveal_strlit("ACNORMALCONSTRAINT");
    assert("ACRADIUSDIAMETERCONSTRAINT"@.len() != "ACNORMALCONSTRAINT"@.len());
    assert(ascii_upper_seq("AcRadiusDiameterConstraint"@) =~= "ACRADIUSDIAMETERCONSTRAINT"@);
}

} // verus!

verus! {

/// The classes of the group's geometry, implicit-point and datum-line nodes
/// name no constraint.
pub proof fn lemma_geometry_classes_name_no_constraint(class_name: &'static str, shape: NodeShape)
    requires
        class_name == "AcConstrainedPoint"
            || class_name == "AcConstrainedBoundedLine"
            || class_name == "AcConstrainedCircle"
            || class_name == "AcConstrainedArc"
            || class_name == "AcConstrainedEllipse"
            || class_name == "AcConstrainedBoundedEllipse"
            || class_name == "AcConstrainedImplicitPoint"
            || class_name == "AcConstrainedDatumLine",
    ensures
        kind_for_class(ascii_upper_seq(class_name@), shape) is None,
{
    if class_name == "AcConstrainedPoint" {
        lemma_no_constraint_constrainedpoint();
    } else if class_name == "AcConstrainedBoundedLine" {
        lemma_no_constraint_constrainedboundedline();
    } else if class_name == "AcConstrainedCircle" {
        lemma_no_constraint_constrainedcircle();
    } else if class_name == "AcConstrainedArc" {
        lemma_no_constraint_constrainedarc();
    } else if class_name == "AcConstrainedEllipse" {
        lemma_no_constraint_constrainedellipse();
    } else if class_name == "AcConstrainedBoundedEllipse" {
        lemma_no_constraint_constrainedboundedellipse();
    } else if class_name == "AcConstrainedImplicitPoint" {
        lemma_no_constraint_constrainedimplicitpoint();
    } else if class_name == "AcConstrainedDatumLine" {
        lemma_no_constraint_constraineddatumline();
    }
}

proof fn lemma_no_constraint_constrainedpoint()
    ensures
        ascii_upper_seq("AcConstrainedPoint"@) == "ACCONSTRAINEDPOINT"@,
        "ACCONSTRAINEDPOINT"@ != "ACPOINTCOINCIDENCECONSTRAINT"@,
        "ACCONSTRAINEDPOINT"@ != "ACHORIZONTALCONSTRAINT"@,
        "ACCONSTRAINEDPOINT"@ != "ACVERTICALCONSTRAINT"@,
        "ACCONSTRAINEDPOINT"@ != "ACPARALLELCONSTRAINT"@,
        "ACCONSTRAINEDPOINT"@ != "ACPERPENDICULARCONSTRAINT"@,
        "ACCONSTRAINEDPOINT"@ != "ACEQUALLENGTHCONSTRAINT"@,
        "ACCONSTRAINEDPOINT"@ != "ACEQUALRADIUSCONSTRAINT"@,
        "ACCONSTRAINEDPOINT"@ != "ACANGLECONSTRAINT"@,
        "ACCONSTRAINEDPOINT"@ != "AC3POINTANGLECONSTRAINT"@,
        "ACCONSTRAINEDPOINT"@ != "ACTANGENTCONSTRAINT"@,
        "ACCONSTRAINEDPOINT"@ != "ACG2SMOOTHCONSTRAINT"@,
        "ACCONSTRAINEDPOINT"@ != "ACCONCENTRICCONSTRAINT"@,
        "ACCONSTRAINEDPOINT"@ != "ACCENTERPOINTCONSTRAINT"@,
        "ACCONSTRAINEDPOINT"@ != "ACCOLINEARCONSTRAINT"@,
        "ACCONSTRAINEDPOINT"@ != "ACMIDPOINTCONSTRAINT"@,
        "ACCONSTRAINEDPOINT"@ != "ACFIXEDCONSTRAINT"@,
        "ACCONSTRAINEDPOINT"@ != "ACPOINTCURVECONSTRAINT"@,
        "ACCONSTRAINEDPOINT"@ != "ACEQUALDISTANCECONSTRAINT"@,
        "ACCONSTRAINEDPOINT"@ != "ACSYMMETRICCONSTRAINT"@,
        "ACCONSTRAINEDPOINT"@ != "ACNORMALCONSTRAINT"@,
        "ACCONSTRAINEDPOINT"@ != "ACRADIUSDIAMETERCONSTRAINT"@,
        "ACCONSTRAINEDPOINT"@ != "ACDISTANCECONSTRAINT"@,
{
    reveal_strlit("AcConstrainedPoint");
    reveal_strlit("ACCONSTRAINEDPOINT");
    reveal_strlit("ACPOINTCOINCIDENCECONSTRAINT");
    assert("ACCONSTRAINEDPOINT"@.len() != "ACPOINTCOINCIDENCECONSTRAINT"@.len());
    reveal_strlit("ACHORIZONTALCONSTRAINT");
    assert("ACCONSTRAINEDPOINT"@.len() != "ACHORIZONTALCONSTRAINT"@.len());
    reveal_strlit("ACVERTICALCONSTRAINT");
    assert("ACCONSTRAINEDPOINT"@.len() != "ACVERTICALCONSTRAINT"@.len());
    reveal_strlit("ACPARALLELCONSTRAINT");
    assert("ACCONSTRAINEDPOINT"@.len() != "ACPARALLELCONSTRAINT"@.len());
    reveal_strlit("ACPERPENDICULARCONSTRAINT");
    assert("ACCONSTRAINEDPOINT"@.len() != "ACPERPENDICULARCONSTRAINT"@.len());
    reveal_strlit("ACEQUALLENGTHCONSTRAINT");
    assert("ACCONSTRAINEDPOINT"@.len() != "ACEQUALLENGTHCONSTRAINT"@.len());
    reveal_strlit("ACEQUALRADIUSCONSTRAINT");
    assert("ACCONSTRAINEDPOINT"@.len() != "ACEQUALRADIUSCONSTRAINT"@.len());
    reveal_strlit("ACANGLECONSTRAINT");
    assert("ACCONSTRAINEDPOINT"@.len() != "ACANGLECONSTRAINT"@.len());
    reveal_strlit("AC3POINTANGLECONSTRAINT");
    assert("ACCONSTRAINEDPOINT"@.len() != "AC3POINTANGLECONSTRAINT"@.len());
    reveal_strlit("ACTANGENTCONSTRAINT");
    assert("ACCONSTRAINEDPOINT"@.len() != "ACTANGENTCONSTRAINT"@.len());
    reveal_strlit("ACG2SMOOTHCONSTRAINT");
    assert("ACCONSTRAINEDPOINT"@.len() != "ACG2SMOOTHCONSTRAINT"@.len());
    reveal_strlit("ACCONCENTRICCONSTRAINT");
    assert("ACCONSTRAINEDPOINT"@.len() != "ACCONCENTRICCONSTRAINT"@.len());
    reveal_strlit("ACCENTERPOINTCONSTRAINT");
    assert("ACCONSTRAINEDPOINT"@.len() != "ACCENTERPOINTCONSTRAINT"@.len());
    reveal_strlit("ACCOLINEARCONSTRAINT");
    assert("ACCONSTRAINEDPOINT"@.len() != "ACCOLINEARCONSTRAINT"@.len());
    reveal_strlit("ACMIDPOINTCONSTRAINT");
    assert("ACCONSTRAINEDPOINT"@.len() != "ACMIDPOINTCONSTRAINT"@.len());
    reveal_strlit("ACFIXEDCONSTRAINT");
    assert("ACCONSTRAINEDPOINT"@.len() != "ACFIXEDCONSTRAINT"@.len());
    reveal_strlit("ACPOINTCURVECONSTRAINT");
    assert("ACCONSTRAINEDPOINT"@.len() != "ACPOINTCURVECONSTRAINT"@.len());
    reveal_strlit("ACEQUALDISTANCECONSTRAINT");
    assert("ACCONSTRAINEDPOINT"@.len() != "ACEQUALDISTANCECONSTRAINT"@.len());
    reveal_strlit("ACSYMMETRICCONSTRAINT");
    assert("ACCONSTRAINEDPOINT"@.len() != "ACSYMMETRICCONSTRAINT"@.len());
    reveal_strlit("ACNORMALCONSTRAINT");
    assert("ACCONSTRAINEDPOINT"@[2] != "ACNORMALCONSTRAINT"@[2]);
    reveal_strlit("ACRADIUSDIAMETERCONSTRAINT");
    assert("ACCONSTRAINEDPOINT"@.len() != "ACRADIUSDIAMETERCONSTRAINT"@.len());
    reveal_strlit("ACDISTANCECONSTRAINT");
    assert("ACCONSTRAINEDPOINT"@.len() != "ACDISTANCECONSTRAINT"@.len());
    assert(ascii_upper_seq("AcConstrainedPoint"@) =~= "ACCONSTRAINEDPOINT"@);
}

proof fn lemma_no_constraint_constrainedboundedline()
    ensures
        ascii_upper_seq("AcConstrainedBoundedLine"@) == "ACCONSTRAINEDBOUNDEDLINE"@,
        "ACCONSTRAINEDBOUNDEDLINE"@ != "ACPOINTCOINCIDENCECONSTRAINT"@,
        "ACCONSTRAINEDBOUNDEDLINE"@ != "ACHORIZONTALCONSTRAINT"@,
        "ACCONSTRAINEDBOUNDEDLINE"@ != "ACVERTICALCONSTRAINT"@,
        "ACCONSTRAINEDBOUNDEDLINE"@ != "ACPARALLELCONSTRAINT"@,
        "ACCONSTRAINEDBOUNDEDLINE"@ != "ACPERPENDICULARCONSTRAINT"@,
        "ACCONSTRAINEDBOUNDEDLINE"@ != "ACEQUALLENGTHCONSTRAINT"@,
        "ACCONSTRAINEDBOUNDEDLINE"@ != "ACEQUALRADIUSCONSTRAINT"@,
        "ACCONSTRAINEDBOUNDEDLINE"@ != "ACANGLECONSTRAINT"@,
        "ACCONSTRAINEDBOUNDEDLINE"@ != "AC3POINTANGLECONSTRAINT"@,
        "ACCONSTRAINEDBOUNDEDLINE"@ != "ACTANGENTCONSTRAINT"@,
        "ACCONSTRAINEDBOUNDEDLINE"@ != "ACG2SMOOTHCONSTRAINT"@,
        "ACCONSTRAINEDBOUNDEDLINE"@ != "ACCONCENTRICCONSTRAINT"@,
        "ACCONSTRAINEDBOUNDEDLINE"@ != "ACCENTERPOINTCONSTRAINT"@,
        "ACCONSTRAINEDBOUNDEDLINE"@ != "ACCOLINEARCONSTRAINT"@,
        "ACCONSTRAINEDBOUNDEDLINE"@ != "ACMIDPOINTCONSTRAINT"@,
        "ACCONSTRAINEDBOUNDEDLINE"@ != "ACFIXEDCONSTRAINT"@,
        "ACCONSTRAINEDBOUNDEDLINE"@ != "ACPOINTCURVECONSTRAINT"@,
        "ACCONSTRAINEDBOUNDEDLINE"@ != "ACEQUALDISTANCECONSTRAINT"@,
        "ACCONSTRAINEDBOUNDEDLINE"@ != "ACSYMMETRICCONSTRAINT"@,
        "ACCONSTRAINEDBOUNDEDLINE"@ != "ACNORMALCONSTRAINT"@,
        "ACCONSTRAINEDBOUNDEDLINE"@ != "ACRADIUSDIAMETERCONSTRAINT"@,
        "ACCONSTRAINEDBOUNDEDLINE"@ != "ACDISTANCECONSTRAINT"@,
{
    reveal_strlit("AcConstrainedBoundedLine");
    reveal_strlit("ACCONSTRAINEDBOUNDEDLINE");
    reveal_strlit("ACPOINTCOINCIDENCECONSTRAINT");
    assert("ACCONSTRAINEDBOUNDEDLINE"@.len() != "ACPOINTCOINCIDENCECONSTRAINT"@.len());
    reveal_strlit("ACHORIZONTALCONSTRAINT");
    assert("ACCONSTRAINEDBOUNDEDLINE"@.len() != "ACHORIZONTALCONSTRAINT"@.len());
    reveal_strlit("ACVERTICALCONSTRAINT");
    assert("ACCONSTRAINEDBOUNDEDLINE"@.len() != "ACVERTICALCONSTRAINT"@.len());
    reveal_strlit("ACPARALLELCONSTRAINT");
    assert("ACCONSTRAINEDBOUNDEDLINE"@.len() != "ACPARALLELCONSTRAINT"@.len());
    reveal_strlit("ACPERPENDICULARCONSTRAINT");
    assert("ACCONSTRAINEDBOUNDEDLINE"@.len() != "ACPERPENDICULARCONSTRAINT"@.len());
    reveal_strlit("ACEQUALLENGTHCONSTRAINT");
    assert("ACCONSTRAINEDBOUNDEDLINE"@.len() != "ACEQUALLENGTHCONSTRAINT"@.len());
    reveal_strlit("ACEQUALRADIUSCONSTRAINT");
    assert("ACCONSTRAINEDBOUNDEDLINE"@.len() != "ACEQUALRADIUSCONSTRAINT"@.len());
    reveal_strlit("ACANGLECONSTRAINT");
    assert("ACCONSTRAINEDBOUNDEDLINE"@.len() != "ACANGLECONSTRAINT"@.len());
    reveal_strlit("AC3POINTANGLECONSTRAINT");
    assert("ACCONSTRAINEDBOUNDEDLINE"@.len() != "AC3POINTANGLECONSTRAINT"@.len());
    reveal_strlit("ACTANGENTCONSTRAINT");
    assert("ACCONSTRAINEDBOUNDEDLINE"@.len() != "ACTANGENTCONSTRAINT"@.len());
    reveal_strlit("ACG2SMOOTHCONSTRAINT");
    assert("ACCONSTRAINEDBOUNDEDLINE"@.len() != "ACG2SMOOTHCONSTRAINT"@.len());
    reveal_strlit("ACCONCENTRICCONSTRAINT");
    assert("ACCONSTRAINEDBOUNDEDLINE"@.len() != "ACCONCENTRICCONSTRAINT"@.len());
    reveal_strlit("ACCENTERPOINTCONSTRAINT");
    assert("ACCONSTRAINEDBOUNDEDLINE"@.len() != "ACCENTERPOINTCONSTRAINT"@.len());
    reveal_strlit("ACCOLINEARCONSTRAINT");
    assert("ACCONSTRAINEDBOUNDEDLINE"@.len() != "ACCOLINEARCONSTRAINT"@.len());
    reveal_strlit("ACMIDPOINTCONSTRAINT");
    assert("ACCONSTRAINEDBOUNDEDLINE"@.len() != "ACMIDPOINTCONSTRAINT"@.len());
    reveal_strlit("ACFIXEDCONSTRAINT");
    assert("ACCONSTRAINEDBOUNDEDLINE"@.len() != "ACFIXEDCONSTRAINT"@.len());
    reveal_strlit("ACPOINTCURVECONSTRAINT");
    assert("ACCONSTRAINEDBOUNDEDLINE"@.len() != "ACPOINTCURVECONSTRAINT"@.len());
    reveal_strlit("ACEQUALDISTANCECONSTRAINT");
    assert("ACCONSTRAINEDBOUNDEDLINE"@.len() != "ACEQUALDISTANCECONSTRAINT"@.len());
    reveal_strlit("ACSYMMETRICCONSTRAINT");
    assert("ACCONSTRAINEDBOUNDEDLINE"@.len() != "ACSYMMETRICCONSTRAINT"@.len());
    reveal_strlit("ACNORMALCONSTRAINT");
    assert("ACCONSTRAINEDBOUNDEDLINE"@.len() != "ACNORMALCONSTRAINT"@.len());
    reveal_strlit("ACRADIUSDIAMETERCONSTRAINT");
    assert("ACCONSTRAINEDBOUNDEDLINE"@.len() != "ACRADIUSDIAMETERCONSTRAINT"@.len());
    reveal_strlit("ACDISTANCECONSTRAINT");
    assert("ACCONSTRAINEDBOUNDEDLINE"@.len() != "ACDISTANCECONSTRAINT"@.len());
    assert(ascii_upper_seq("AcConstrainedBoundedLine"@) =~= "ACCONSTRAINEDBOUNDEDLINE"@);
}

proof fn lemma_no_constraint_constrainedcircle()
    ensures
        ascii_upper_seq("AcConstrainedCircle"@) == "ACCONSTRAINEDCIRCLE"@,
        "ACCONSTRAINEDCIRCLE"@ != "ACPOINTCOINCIDENCECONSTRAINT"@,
        "ACCONSTRAINEDCIRCLE"@ != "ACHORIZONTALCONSTRAINT"@,
        "ACCONSTRAINEDCIRCLE"@ != "ACVERTICALCONSTRAINT"@,
        "ACCONSTRAINEDCIRCLE"@ != "ACPARALLELCONSTRAINT"@,
        "ACCONSTRAINEDCIRCLE"@ != "ACPERPENDICULARCONSTRAINT"@,
        "ACCONSTRAINEDCIRCLE"@ != "ACEQUALLENGTHCONSTRAINT"@,
        "ACCONSTRAINEDCIRCLE"@ != "ACEQUALRADIUSCONSTRAINT"@,
        "ACCONSTRAINEDCIRCLE"@ != "ACANGLECONSTRAINT"@,
        "ACCONSTRAINEDCIRCLE"@ != "AC3POINTANGLECONSTRAINT"@,
        "ACCONSTRAINEDCIRCLE"@ != "ACTANGENTCONSTRAINT"@,
        "ACCONSTRAINEDCIRCLE"@ != "ACG2SMOOTHCONSTRAINT"@,
        "ACCONSTRAINEDCIRCLE"@ != "ACCONCENTRICCONSTRAINT"@,
        "ACCONSTRAINEDCIRCLE"@ != "ACCENTERPOINTCONSTRAINT"@,
        "ACCONSTRAINEDCIRCLE"@ != "ACCOLINEARCONSTRAINT"@,
        "ACCONSTRAINEDCIRCLE"@ != "ACMIDPOINTCONSTRAINT"@,
        "ACCONSTRAINEDCIRCLE"@ != "ACFIXEDCONSTRAINT"@,
        "ACCONSTRAINEDCIRCLE"@ != "ACPOINTCURVECONSTRAINT"@,
        "ACCONSTRAINEDCIRCLE"@ != "ACEQUALDISTANCECONSTRAINT"@,
        "ACCONSTRAINEDCIRCLE"@ != "ACSYMMETRICCONSTRAINT"@,
        "ACCONSTRAINEDCIRCLE"@ != "ACNORMALCONSTRAINT"@,
        "ACCONSTRAINEDCIRCLE"@ != "ACRADIUSDIAMETERCONSTRAINT"@,
        "ACCONSTRAINEDCIRCLE"@ != "ACDISTANCECONSTRAINT"@,
{
    reveal_strlit("AcConstrainedCircle");
    reveal_strlit("ACCONSTRAINEDCIRCLE");
    reveal_strlit("ACPOINTCOINCIDENCECONSTRAINT");
    assert("ACCONSTRAINEDCIRCLE"@.len() != "ACPOINTCOINCIDENCECONSTRAINT"@.len());
    reveal_strlit("ACHORIZONTALCONSTRAINT");
    assert("ACCONSTRAINEDCIRCLE"@.len() != "ACHORIZONTALCONSTRAINT"@.len());
    reveal_strlit("ACVERTICALCONSTRAINT");
    assert("ACCONSTRAINEDCIRCLE"@.len() != "ACVERTICALCONSTRAINT"@.len());
    reveal_strlit("ACPARALLELCONSTRAINT");
    assert("ACCONSTRAINEDCIRCLE"@.len() != "ACPARALLELCONSTRAINT"@.len());
    reveal_strlit("ACPERPENDICULARCONSTRAINT");
    assert("ACCONSTRAINEDCIRCLE"@.len() != "ACPERPENDICULARCONSTRAINT"@.len());
    reveal_strlit("ACEQUALLENGTHCONSTRAINT");
    assert("ACCONSTRAINEDCIRCLE"@.len() != "ACEQUALLENGTHCONSTRAINT"@.len());
    reveal_strlit("ACEQUALRADIUSCONSTRAINT");
    assert("ACCONSTRAINEDCIRCLE"@.len() != "ACEQUALRADIUSCONSTRAINT"@.len());
    reveal_strlit("ACANGLECONSTRAINT");
    assert("ACCONSTRAINEDCIRCLE"@.len() != "ACANGLECONSTRAINT"@.len());
    reveal_strlit("AC3POINTANGLECONSTRAINT");
    assert("ACCONSTRAINEDCIRCLE"@.len() != "AC3POINTANGLECONSTRAINT"@.len());
    reveal_strlit("ACTANGENTCONSTRAINT");
    assert("ACCONSTRAINEDCIRCLE"@[2] != "ACTANGENTCONSTRAINT"@[2]);
    reveal_strlit("ACG2SMOOTHCONSTRAINT");
    assert("ACCONSTRAINEDCIRCLE"@.len() != "ACG2SMOOTHCONSTRAINT"@.len());
    reveal_strlit("ACCONCENTRICCONSTRAINT");
    assert("ACCONSTRAINEDCIRCLE"@.len() != "ACCONCENTRICCONSTRAINT"@.len());
    reveal_strlit("ACCENTERPOINTCONSTRAINT");
    assert("ACCONSTRAINEDCIRCLE"@.len() != "ACCENTERPOINTCONSTRAINT"@.len());
    reveal_strlit("ACCOLINEARCONSTRAINT");
    assert("ACCONSTRAINEDCIRCLE"@.len() != "ACCOLINEARCONSTRAINT"@.len());
    reveal_strlit("ACMIDPOINTCONSTRAINT");
    assert("ACCONSTRAINEDCIRCLE"@.len() != "ACMIDPOINTCONSTRAINT"@.len());
    reveal_strlit("ACFIXEDCONSTRAINT");
    assert("ACCONSTRAINEDCIRCLE"@.len() != "ACFIXEDCONSTRAINT"@.len());
    reveal_strlit("ACPOINTCURVECONSTRAINT");
    assert("ACCONSTRAINEDCIRCLE"@.len() != "ACPOINTCURVECONSTRAINT"@.len());
    reveal_strlit("ACEQUALDISTANCECONSTRAINT");
    assert("ACCONSTRAINEDCIRCLE"@.len() != "ACEQUALDISTANCECONSTRAINT"@.len());
    reveal_strlit("ACSYMMETRICCONSTRAINT");
    assert("ACCONSTRAINEDCIRCLE"@.len() != "ACSYMMETRICCONSTRAINT"@.len());
    reveal_strlit("ACNORMALCONSTRAINT");
    assert("ACCONSTRAINEDCIRCLE"@.len() != "ACNORMALCONSTRAINT"@.len());
    reveal_strlit("ACRADIUSDIAMETERCONSTRAINT");
    assert("ACCONSTRAINEDCIRCLE"@.len() != "ACRADIUSDIAMETERCONSTRAINT"@.len());
    reveal_strlit("ACDISTANCECONSTRAINT");
    assert("ACCONSTRAINEDCIRCLE"@.len() != "ACDISTANCECONSTRAINT"@.len());
    assert(ascii_upper_seq("AcConstrainedCircle"@) =~= "ACCONSTRAINEDCIRCLE"@);
}

proof fn lemma_no_constraint_constrainedarc()
    ensures
        ascii_upper_seq("AcConstrainedArc"@) == "ACCONSTRAINEDARC"@,
        "ACCONSTRAINEDARC"@ != "ACPOINTCOINCIDENCECONSTRAINT"@,
        "ACCONSTRAINEDARC"@ != "ACHORIZONTALCONSTRAINT"@,
        "ACCONSTRAINEDARC"@ != "ACVERTICALCONSTRAINT"@,
        "ACCONSTRAINEDARC"@ != "ACPARALLELCONSTRAINT"@,
        "ACCONSTRAINEDARC"@ != "ACPERPENDICULARCONSTRAINT"@,
        "ACCONSTRAINEDARC"@ != "ACEQUALLENGTHCONSTRAINT"@,
        "ACCONSTRAINEDARC"@ != "ACEQUALRADIUSCONSTRAINT"@,
        "ACCONSTRAINEDARC"@ != "ACANGLECONSTRAINT"@,
        "ACCONSTRAINEDARC"@ != "AC3POINTANGLECONSTRAINT"@,
        "ACCONSTRAINEDARC"@ != "ACTANGENTCONSTRAINT"@,
        "ACCONSTRAINEDARC"@ != "ACG2SMOOTHCONSTRAINT"@,
        "ACCONSTRAINEDARC"@ != "ACCONCENTRICCONSTRAINT"@,
        "ACCONSTRAINEDARC"@ != "ACCENTERPOINTCONSTRAINT"@,
        "ACCONSTRAINEDARC"@ != "ACCOLINEARCONSTRAINT"@,
        "ACCONSTRAINEDARC"@ != "ACMIDPOINTCONSTRAINT"@,
        "ACCONSTRAINEDARC"@ != "ACFIXEDCONSTRAINT"@,
        "ACCONSTRAINEDARC"@ != "ACPOINTCURVECONSTRAINT"@,
        "ACCONSTRAINEDARC"@ != "ACEQUALDISTANCECONSTRAINT"@,
        "ACCONSTRAINEDARC"@ != "ACSYMMETRICCONSTRAINT"@,
        "ACCONSTRAINEDARC"@ != "ACNORMALCONSTRAINT"@,
        "ACCONSTRAINEDARC"@ != "ACRADIUSDIAMETERCONSTRAINT"@,
        "ACCONSTRAINEDARC"@ != "ACDISTANCECONSTRAINT"@,
{
    reveal_strlit("AcConstrainedArc");
    reveal_strlit("ACCONSTRAINEDARC");
    reveal_strlit("ACPOINTCOINCIDENCECONSTRAINT");
    assert("ACCONSTRAINEDARC"@.len() != "ACPOINTCOINCIDENCECONSTRAINT"@.len());
    reveal_strlit("ACHORIZONTALCONSTRAINT");
    assert("ACCONSTRAINEDARC"@.len() != "ACHORIZONTALCONSTRAINT"@.len());
    reveal_strlit("ACVERTICALCONSTRAINT");
    assert("ACCONSTRAINEDARC"@.len() != "ACVERTICALCONSTRAINT"@.len());
    reveal_strlit("ACPARALLELCONSTRAINT");
    assert("ACCONSTRAINEDARC"@.len() != "ACPARALLELCONSTRAINT"@.len());
    reveal_strlit("ACPERPENDICULARCONSTRAINT");
    assert("ACCONSTRAINEDARC"@.len() != "ACPERPENDICULARCONSTRAINT"@.len());
    reveal_strlit("ACEQUALLENGTHCONSTRAINT");
    assert("ACCONSTRAINEDARC"@.len() != "ACEQUALLENGTHCONSTRAINT"@.len());
    reveal_strlit("ACEQUALRADIUSCONSTRAINT");
    assert("ACCONSTRAINEDARC"@.len() != "ACEQUALRADIUSCONSTRAINT"@.len());
    reveal_strlit("ACANGLECONSTRAINT");
    assert("ACCONSTRAINEDARC"@.len() != "ACANGLECONSTRAINT"@.len());
    reveal_strlit("AC3POINTANGLECONSTRAINT");
    assert("ACCONSTRAINEDARC"@.len() != "AC3POINTANGLECONSTRAINT"@.len());
    reveal_strlit("ACTANGENTCONSTRAINT");
    assert("ACCONSTRAINEDARC"@.len() != "ACTANGENTCONSTRAINT"@.len());
    reveal_strlit("ACG2SMOOTHCONSTRAINT");
    assert("ACCONSTRAINEDARC"@.len() != "ACG2SMOOTHCONSTRAINT"@.len());
    reveal_strlit("ACCONCENTRICCONSTRAINT");
    assert("ACCONSTRAINEDARC"@.len() != "ACCONCENTRICCONSTRAINT"@.len());
    reveal_strlit("ACCENTERPOINTCONSTRAINT");
    assert("ACCONSTRAINEDARC"@.len() != "ACCENTERPOINTCONSTRAINT"@.len());
    reveal_strlit("ACCOLINEARCONSTRAINT");
    assert("ACCONSTRAINEDARC"@.len() != "ACCOLINEARCONSTRAINT"@.len());
    reveal_strlit("ACMIDPOINTCONSTRAINT");
    assert("ACCONSTRAINEDARC"@.len() != "ACMIDPOINTCONSTRAINT"@.len());
    reveal_strlit("ACFIXEDCONSTRAINT");
    assert("ACCONSTRAINEDARC"@.len() != "ACFIXEDCONSTRAINT"@.len());
    reveal_strlit("ACPOINTCURVECONSTRAINT");
    assert("ACCONSTRAINEDARC"@.len() != "ACPOINTCURVECONSTRAINT"@.len());
    reveal_strlit("ACEQUALDISTANCECONSTRAINT");
    assert("ACCONSTRAINEDARC"@.len() != "ACEQUALDISTANCECONSTRAINT"@.len());
    reveal_strlit("ACSYMMETRICCONSTRAINT");
    assert("ACCONSTRAINEDARC"@.len() != "ACSYMMETRICCONSTRAINT"@.len());
    reveal_strlit("ACNORMALCONSTRAINT");
    assert("ACCONSTRAINEDARC"@.len() != "ACNORMALCONSTRAINT"@.len());
    reveal_strlit("ACRADIUSDIAMETERCONSTRAINT");
    assert("ACCONSTRAINEDARC"@.len() != "ACRADIUSDIAMETERCONSTRAINT"@.len());
    reveal_strlit("ACDISTANCECONSTRAINT");
    assert("ACCONSTRAINEDARC"@.len() != "ACDISTANCECONSTRAINT"@.len());
    assert(ascii_upper_seq("AcConstrainedArc"@) =~= "ACCONSTRAINEDARC"@);
}

proof fn lemma_no_constraint_constrainedellipse()
    ensures
        ascii_upper_seq("AcConstrainedEllipse"@) == "ACCONSTRAINEDELLIPSE"@,
        "ACCONSTRAINEDELLIPSE"@ != "ACPOINTCOINCIDENCECONSTRAINT"@,
        "ACCONSTRAINEDELLIPSE"@ != "ACHORIZONTALCONSTRAINT"@,
        "ACCONSTRAINEDELLIPSE"@ != "ACVERTICALCONSTRAINT"@,
        "ACCONSTRAINEDELLIPSE"@ != "ACPARALLELCONSTRAINT"@,
        "ACCONSTRAINEDELLIPSE"@ != "ACPERPENDICULARCONSTRAINT"@,
        "ACCONSTRAINEDELLIPSE"@ != "ACEQUALLENGTHCONSTRAINT"@,
        "ACCONSTRAINEDELLIPSE"@ != "ACEQUALRADIUSCONSTRAINT"@,
        "ACCONSTRAINEDELLIPSE"@ != "ACANGLECONSTRAINT"@,
        "ACCONSTRAINEDELLIPSE"@ != "AC3POINTANGLECONSTRAINT"@,
        "ACCONSTRAINEDELLIPSE"@ != "ACTANGENTCONSTRAINT"@,
        "ACCONSTRAINEDELLIPSE"@ != "ACG2SMOOTHCONSTRAINT"@,
        "ACCONSTRAINEDELLIPSE"@ != "ACCONCENTRICCONSTRAINT"@,
        "ACCONSTRAINEDELLIPSE"@ != "ACCENTERPOINTCONSTRAINT"@,
        "ACCONSTRAINEDELLIPSE"@ != "ACCOLINEARCONSTRAINT"@,
        "ACCONSTRAINEDELLIPSE"@ != "ACMIDPOINTCONSTRAINT"@,
        "ACCONSTRAINEDELLIPSE"@ != "ACFIXEDCONSTRAINT"@,
        "ACCONSTRAINEDELLIPSE"@ != "ACPOINTCURVECONSTRAINT"@,
        "ACCONSTRAINEDELLIPSE"@ != "ACEQUALDISTANCECONSTRAINT"@,
        "ACCONSTRAINEDELLIPSE"@ != "ACSYMMETRICCONSTRAINT"@,
        "ACCONSTRAINEDELLIPSE"@ != "ACNORMALCONSTRAINT"@,
        "ACCONSTRAINEDELLIPSE"@ != "ACRADIUSDIAMETERCONSTRAINT"@,
        "ACCONSTRAINEDELLIPSE"@ != "ACDISTANCECONSTRAINT"@,
{
    reveal_strlit("AcConstrainedEllipse");
    reveal_strlit("ACCONSTRAINEDELLIPSE");
    reveal_strlit("ACPOINTCOINCIDENCECONSTRAINT");
    assert("ACCONSTRAINEDELLIPSE"@.len() != "ACPOINTCOINCIDENCECONSTRAINT"@.len());
    reveal_strlit("ACHORIZONTALCONSTRAINT");
    assert("ACCONSTRAINEDELLIPSE"@.len() != "ACHORIZONTALCONSTRAINT"@.len());
    reveal_strlit("ACVERTICALCONSTRAINT");
    assert("ACCONSTRAINEDELLIPSE"@[2] != "ACVERTICALCONSTRAINT"@[2]);
    reveal_strlit("ACPARALLELCONSTRAINT");
    assert("ACCONSTRAINEDELLIPSE"@[2] != "ACPARALLELCONSTRAINT"@[2]);
    reveal_strlit("ACPERPENDICULARCONSTRAINT");
    assert("ACCONSTRAINEDELLIPSE"@.len() != "ACPERPENDICULARCONSTRAINT"@.len());
    reveal_strlit("ACEQUALLENGTHCONSTRAINT");
    assert("ACCONSTRAINEDELLIPSE"@.len() != "ACEQUALLENGTHCONSTRAINT"@.len());
    reveal_strlit("ACEQUALRADIUSCONSTRAINT");
    assert("ACCONSTRAINEDELLIPSE"@.len() != "ACEQUALRADIUSCONSTRAINT"@.len());
    reveal_strlit("ACANGLECONSTRAINT");
    assert("ACCONSTRAINEDELLIPSE"@.len() != "ACANGLECONSTRAINT"@.len());
    reveal_strlit("AC3POINTANGLECONSTRAINT");
    assert("ACCONSTRAINEDELLIPSE"@.len() != "AC3POINTANGLECONSTRAINT"@.len());
    reveal_strlit("ACTANGENTCONSTRAINT");
    assert("ACCONSTRAINEDELLIPSE"@.len() != "ACTANGENTCONSTRAINT"@.len());
    reveal_strlit("ACG2SMOOTHCONSTRAINT");
    assert("ACCONSTRAINEDELLIPSE"@[2] != "ACG2SMOOTHCONSTRAINT"@[2]);
    reveal_strlit("ACCONCENTRICCONSTRAINT");
    assert("ACCONSTRAINEDELLIPSE"@.len() != "ACCONCENTRICCONSTRAINT"@.len());
    reveal_strlit("ACCENTERPOINTCONSTRAINT");
    assert("ACCONSTRAINEDELLIPSE"@.len() != "ACCENTERPOINTCONSTRAINT"@.len());
    reveal_strlit("ACCOLINEARCONSTRAINT");
    assert("ACCONSTRAINEDELLIPSE"@[4] != "ACCOLINEARCONSTRAINT"@[4]);
    reveal_strlit("ACMIDPOINTCONSTRAINT");
    assert("ACCONSTRAINEDELLIPSE"@[2] != "ACMIDPOINTCONSTRAINT"@[2]);
    reveal_strlit("ACFIXEDCONSTRAINT");
    assert("ACCONSTRAINEDELLIPSE"@.len() != "ACFIXEDCONSTRAINT"@.len());
    reveal_strlit("ACPOINTCURVECONSTRAINT");
    assert("ACCONSTRAINEDELLIPSE"@.len() != "ACPOINTCURVECONSTRAINT"@.len());
    reveal_strlit("ACEQUALDISTANCECONSTRAINT");
    assert("ACCONSTRAINEDELLIPSE"@.len() != "ACEQUALDISTANCECONSTRAINT"@.len());
    reveal_strlit("ACSYMMETRICCONSTRAINT");
    assert("ACCONSTRAINEDELLIPSE"@.len() != "ACSYMMETRICCONSTRAINT"@.len());
    reveal_strlit("ACNORMALCONSTRAINT");
    assert("ACCONSTRAINEDELLIPSE"@.len() != "ACNORMALCONSTRAINT"@.len());
    reveal_strlit("ACRADIUSDIAMETERCONSTRAINT");
    assert("ACCONSTRAINEDELLIPSE"@.len() != "ACRADIUSDIAMETERCONSTRAINT"@.len());
    reveal_strlit("ACDISTANCECONSTRAINT");
    assert("ACCONSTRAINEDELLIPSE"@[2] != "ACDISTANCECONSTRAINT"@[2]);
    assert(ascii_upper_seq("AcConstrainedEllipse"@) =~= "ACCONSTRAINEDELLIPSE"@);
}

proof fn lemma_no_constraint_constrainedboundedellipse()
    ensures
        ascii_upper_seq("AcConstrainedBoundedEllipse"@) == "ACCONSTRAINEDBOUNDEDELLIPSE"@,
        "ACCONSTRAINEDBOUNDEDELLIPSE"@ != "ACPOINTCOINCIDENCECONSTRAINT"@,
        "ACCONSTRAINEDBOUNDEDELLIPSE"@ != "ACHORIZONTALCONSTRAINT"@,
        "ACCONSTRAINEDBOUNDEDELLIPSE"@ != "ACVERTICALCONSTRAINT"@,
        "ACCONSTRAINEDBOUNDEDELLIPSE"@ != "ACPARALLELCONSTRAINT"@,
        "ACCONSTRAINEDBOUNDEDELLIPSE"@ != "ACPERPENDICULARCONSTRAINT"@,
        "ACCONSTRAINEDBOUNDEDELLIPSE"@ != "ACEQUALLENGTHCONSTRAINT"@,
        "ACCONSTRAINEDBOUNDEDELLIPSE"@ != "ACEQUALRADIUSCONSTRAINT"@,
        "ACCONSTRAINEDBOUNDEDELLIPSE"@ != "ACANGLECONSTRAINT"@,
        "ACCONSTRAINEDBOUNDEDELLIPSE"@ != "AC3POINTANGLECONSTRAINT"@,
        "ACCONSTRAINEDBOUNDEDELLIPSE"@ != "ACTANGENTCONSTRAINT"@,
        "ACCONSTRAINEDBOUNDEDELLIPSE"@ != "ACG2SMOOTHCONSTRAINT"@,
        "ACCONSTRAINEDBOUNDEDELLIPSE"@ != "ACCONCENTRICCONSTRAINT"@,
        "ACCONSTRAINEDBOUNDEDELLIPSE"@ != "ACCENTERPOINTCONSTRAINT"@,
        "ACCONSTRAINEDBOUNDEDELLIPSE"@ != "ACCOLINEARCONSTRAINT"@,
        "ACCONSTRAINEDBOUNDEDELLIPSE"@ != "ACMIDPOINTCONSTRAINT"@,
        "ACCONSTRAINEDBOUNDEDELLIPSE"@ != "ACFIXEDCONSTRAINT"@,
        "ACCONSTRAINEDBOUNDEDELLIPSE"@ != "ACPOINTCURVECONSTRAINT"@,
        "ACCONSTRAINEDBOUNDEDELLIPSE"@ != "ACEQUALDISTANCECONSTRAINT"@,
        "ACCONSTRAINEDBOUNDEDELLIPSE"@ != "ACSYMMETRICCONSTRAINT"@,
        "ACCONSTRAINEDBOUNDEDELLIPSE"@ != "ACNORMALCONSTRAINT"@,
        "ACCONSTRAINEDBOUNDEDELLIPSE"@ != "ACRADIUSDIAMETERCONSTRAINT"@,
        "ACCONSTRAINEDBOUNDEDELLIPSE"@ != "ACDISTANCECONSTRAINT"@,
{
    reveal_strlit("AcConstrainedBoundedEllipse");
    reveal_strlit("ACCONSTRAINEDBOUNDEDELLIPSE");
    reveal_strlit("ACPOINTCOINCIDENCECONSTRAINT");
    assert("ACCONSTRAINEDBOUNDEDELLIPSE"@.len() != "ACPOINTCOINCIDENCECONSTRAINT"@.len());
    reveal_strlit("ACHORIZONTALCONSTRAINT");
    assert("ACCONSTRAINEDBOUNDEDELLIPSE"@.len() != "ACHORIZONTALCONSTRAINT"@.len());
    reveal_strlit("ACVERTICALCONSTRAINT");
    assert("ACCONSTRAINEDBOUNDEDELLIPSE"@.len() != "ACVERTICALCONSTRAINT"@.len());
    reveal_strlit("ACPARALLELCONSTRAINT");
    assert("ACCONSTRAINEDBOUNDEDELLIPSE"@.len() != "ACPARALLELCONSTRAINT"@.len());
    reveal_strlit("ACPERPENDICULARCONSTRAINT");
    assert("ACCONSTRAINEDBOUNDEDELLIPSE"@.len() != "ACPERPENDICULARCONSTRAINT"@.len());
    reveal_strlit("ACEQUALLENGTHCONSTRAINT");
    assert("ACCONSTRAINEDBOUNDEDELLIPSE"@.len() != "ACEQUALLENGTHCONSTRAINT"@.len());
    reveal_strlit("ACEQUALRADIUSCONSTRAINT");
    assert("ACCONSTRAINEDBOUNDEDELLIPSE"@.len() != "ACEQUALRADIUSCONSTRAINT"@.len());
    reveal_strlit("ACANGLECONSTRAINT");
    assert("ACCONSTRAINEDBOUNDEDELLIPSE"@.len() != "ACANGLECONSTRAINT"@.len());
    reveal_strlit("AC3POINTANGLECONSTRAINT");
    assert("ACCONSTRAINEDBOUNDEDELLIPSE"@.len() != "AC3POINTANGLECONSTRAINT"@.len());
    reveal_strlit("ACTANGENTCONSTRAINT");
    assert("ACCONSTRAINEDBOUNDEDELLIPSE"@.len() != "ACTANGENTCONSTRAINT"@.len());
    reveal_strlit("ACG2SMOOTHCONSTRAINT");
    assert("ACCONSTRAINEDBOUNDEDELLIPSE"@.len() != "ACG2SMOOTHCONSTRAINT"@.len());
    reveal_strlit("ACCONCENTRICCONSTRAINT");
    assert("ACCONSTRAINEDBOUNDEDELLIPSE"@.len() != "ACCONCENTRICCONSTRAINT"@.len());
    reveal_strlit("ACCENTERPOINTCONSTRAINT");
    assert("ACCONSTRAINEDBOUNDEDELLIPSE"@.len() != "ACCENTERPOINTCONSTRAINT"@.len());
    reveal_strlit("ACCOLINEARCONSTRAINT");
    assert("ACCONSTRAINEDBOUNDEDELLIPSE"@.len() != "ACCOLINEARCONSTRAINT"@.len());
    reveal_strlit("ACMIDPOINTCONSTRAINT");
    assert("ACCONSTRAINEDBOUNDEDELLIPSE"@.len() != "ACMIDPOINTCONSTRAINT"@.len());
    reveal_strlit("ACFIXEDCONSTRAINT");
    assert("ACCONSTRAINEDBOUNDEDELLIPSE"@.len() != "ACFIXEDCONSTRAINT"@.len());
    reveal_strlit("ACPOINTCURVECONSTRAINT");
    assert("ACCONSTRAINEDBOUNDEDELLIPSE"@.len() != "ACPOINTCURVECONSTRAINT"@.len());
    reveal_strlit("ACEQUALDISTANCECONSTRAINT");
    assert("ACCONSTRAINEDBOUNDEDELLIPSE"@.len() != "ACEQUALDISTANCECONSTRAINT"@.len());
    reveal_strlit("ACSYMMETRICCONSTRAINT");
    assert("ACCONSTRAINEDBOUNDEDELLIPSE"@.len() != "ACSYMMETRICCONSTRAINT"@.len());
    reveal_strlit("ACNORMALCONSTRAINT");
    assert("ACCONSTRAINEDBOUNDEDELLIPSE"@.len() != "ACNORMALCONSTRAINT"@.len());
    reveal_strlit("ACRADIUSDIAMETERCONSTRAINT");
    assert("ACCONSTRAINEDBOUNDEDELLIPSE"@.len() != "ACRADIUSDIAMETERCONSTRAINT"@.len());
    reveal_strlit("ACDISTANCECONSTRAINT");
    assert("ACCONSTRAINEDBOUNDEDELLIPSE"@.len() != "ACDISTANCECONSTRAINT"@.len());
    assert(ascii_upper_seq("AcConstrainedBoundedEllipse"@) =~= "ACCONSTRAINEDBOUNDEDELLIPSE"@);
}

proof fn lemma_no_constraint_constrainedimplicitpoint()
    ensures
        ascii_upper_seq("AcConstrainedImplicitPoint"@) == "ACCONSTRAINEDIMPLICITPOINT"@,
        "ACCONSTRAINEDIMPLICITPOINT"@ != "ACPOINTCOINCIDENCECONSTRAINT"@,
        "ACCONSTRAINEDIMPLICITPOINT"@ != "ACHORIZONTALCONSTRAINT"@,
        "ACCONSTRAINEDIMPLICITPOINT"@ != "ACVERTICALCONSTRAINT"@,
        "ACCONSTRAINEDIMPLICITPOINT"@ != "ACPARALLELCONSTRAINT"@,
        "ACCONSTRAINEDIMPLICITPOINT"@ != "ACPERPENDICULARCONSTRAINT"@,
        "ACCONSTRAINEDIMPLICITPOINT"@ != "ACEQUALLENGTHCONSTRAINT"@,
        "ACCONSTRAINEDIMPLICITPOINT"@ != "ACEQUALRADIUSCONSTRAINT"@,
        "ACCONSTRAINEDIMPLICITPOINT"@ != "ACANGLECONSTRAINT"@,
        "ACCONSTRAINEDIMPLICITPOINT"@ != "AC3POINTANGLECONSTRAINT"@,
        "ACCONSTRAINEDIMPLICITPOINT"@ != "ACTANGENTCONSTRAINT"@,
        "ACCONSTRAINEDIMPLICITPOINT"@ != "ACG2SMOOTHCONSTRAINT"@,
        "ACCONSTRAINEDIMPLICITPOINT"@ != "ACCONCENTRICCONSTRAINT"@,
        "ACCONSTRAINEDIMPLICITPOINT"@ != "ACCENTERPOINTCONSTRAINT"@,
        "ACCONSTRAINEDIMPLICITPOINT"@ != "ACCOLINEARCONSTRAINT"@,
        "ACCONSTRAINEDIMPLICITPOINT"@ != "ACMIDPOINTCONSTRAINT"@,
        "ACCONSTRAINEDIMPLICITPOINT"@ != "ACFIXEDCONSTRAINT"@,
        "ACCONSTRAINEDIMPLICITPOINT"@ != "ACPOINTCURVECONSTRAINT"@,
        "ACCONSTRAINEDIMPLICITPOINT"@ != "ACEQUALDISTANCECONSTRAINT"@,
        "ACCONSTRAINEDIMPLICITPOINT"@ != "ACSYMMETRICCONSTRAINT"@,
        "ACCONSTRAINEDIMPLICITPOINT"@ != "ACNORMALCONSTRAINT"@,
        "ACCONSTRAINEDIMPLICITPOINT"@ != "ACRADIUSDIAMETERCONSTRAINT"@,
        "ACCONSTRAINEDIMPLICITPOINT"@ != "ACDISTANCECONSTRAINT"@,
{
    reveal_strlit("AcConstrainedImplicitPoint");
    reveal_strlit("ACCONSTRAINEDIMPLICITPOINT");
    reveal_strlit("ACPOINTCOINCIDENCECONSTRAINT");
    assert("ACCONSTRAINEDIMPLICITPOINT"@.len() != "ACPOINTCOINCIDENCECONSTRAINT"@.len());
    reveal_strlit("ACHORIZONTALCONSTRAINT");
    assert("ACCONSTRAINEDIMPLICITPOINT"@.len() != "ACHORIZONTALCONSTRAINT"@.len());
    reveal_strlit("ACVERTICALCONSTRAINT");
    assert("ACCONSTRAINEDIMPLICITPOINT"@.len() != "ACVERTICALCONSTRAINT"@.len());
    reveal_strlit("ACPARALLELCONSTRAINT");
    assert("ACCONSTRAINEDIMPLICITPOINT"@.len() != "ACPARALLELCONSTRAINT"@.len());
    reveal_strlit("ACPERPENDICULARCONSTRAINT");
    assert("ACCONSTRAINEDIMPLICITPOINT"@.len() != "ACPERPENDICULARCONSTRAINT"@.len());
    reveal_strlit("ACEQUALLENGTHCONSTRAINT");
    assert("ACCONSTRAINEDIMPLICITPOINT"@.len() != "ACEQUALLENGTHCONSTRAINT"@.len());
    reveal_strlit("ACEQUALRADIUSCONSTRAINT");
    assert("ACCONSTRAINEDIMPLICITPOINT"@.len() != "ACEQUALRADIUSCONSTRAINT"@.len());
    reveal_strlit("ACANGLECONSTRAINT");
    assert("ACCONSTRAINEDIMPLICITPOINT"@.len() != "ACANGLECONSTRAINT"@.len());
    reveal_strlit("AC3POINTANGLECONSTRAINT");
    assert("ACCONSTRAINEDIMPLICITPOINT"@.len() != "AC3POINTANGLECONSTRAINT"@.len());
    reveal_strlit("ACTANGENTCONSTRAINT");
    assert("ACCONSTRAINEDIMPLICITPOINT"@.len() != "ACTANGENTCONSTRAINT"@.len());
    reveal_strlit("ACG2SMOOTHCONSTRAINT");
    assert("ACCONSTRAINEDIMPLICITPOINT"@.len() != "ACG2SMOOTHCONSTRAINT"@.len());
    reveal_strlit("ACCONCENTRICCONSTRAINT");
    assert("ACCONSTRAINEDIMPLICITPOINT"@.len() != "ACCONCENTRICCONSTRAINT"@.len());
    reveal_strlit("ACCENTERPOINTCONSTRAINT");
    assert("ACCONSTRAINEDIMPLICITPOINT"@.len() != "ACCENTERPOINTCONSTRAINT"@.len());
    reveal_strlit("ACCOLINEARCONSTRAINT");
    assert("ACCONSTRAINEDIMPLICITPOINT"@.len() != "ACCOLINEARCONSTRAINT"@.len());
    reveal_strlit("ACMIDPOINTCONSTRAINT");
    assert("ACCONSTRAINEDIMPLICITPOINT"@.len() != "ACMIDPOINTCONSTRAINT"@.len());
    reveal_strlit("ACFIXEDCONSTRAINT");
    assert("ACCONSTRAINEDIMPLICITPOINT"@.len() != "ACFIXEDCONSTRAINT"@.len());
    reveal_strlit("ACPOINTCURVECONSTRAINT");
    assert("ACCONSTRAINEDIMPLICITPOINT"@.len() != "ACPOINTCURVECONSTRAINT"@.len());
    reveal_strlit("ACEQUALDISTANCECONSTRAINT");
    assert("ACCONSTRAINEDIMPLICITPOINT"@.len() != "ACEQUALDISTANCECONSTRAINT"@.len());
    reveal_strlit("ACSYMMETRICCONSTRAINT");
    assert("ACCONSTRAINEDIMPLICITPOINT"@.len() != "ACSYMMETRICCONSTRAINT"@.len());
    reveal_strlit("ACNORMALCONSTRAINT");
    assert("ACCONSTRAINEDIMPLICITPOINT"@.len() != "ACNORMALCONSTRAINT"@.len());
    reveal_strlit("ACRADIUSDIAMETERCONSTRAINT");
    assert("ACCONSTRAINEDIMPLICITPOINT"@[2] != "ACRADIUSDIAMETERCONSTRAINT"@[2]);
    reveal_strlit("ACDISTANCECONSTRAINT");
    assert("ACCONSTRAINEDIMPLICITPOINT"@.len() != "ACDISTANCECONSTRAINT"@.len());
    assert(ascii_upper_seq("AcConstrainedImplicitPoint"@) =~= "ACCONSTRAINEDIMPLICITPOINT"@);
}

proof fn lemma_no_constraint_constraineddatumline()
    ensures
        ascii_upper_seq("AcConstrainedDatumLine"@) == "ACCONSTRAINEDDATUMLINE"@,
        "ACCONSTRAINEDDATUMLINE"@ != "ACPOINTCOINCIDENCECONSTRAINT"@,
        "ACCONSTRAINEDDATUMLINE"@ != "ACHORIZONTALCONSTRAINT"@,
        "ACCONSTRAINEDDATUMLINE"@ != "ACVERTICALCONSTRAINT"@,
        "ACCONSTRAINEDDATUMLINE"@ != "ACPARALLELCONSTRAINT"@,
        "ACCONSTRAINEDDATUMLINE"@ != "ACPERPENDICULARCONSTRAINT"@,
        "ACCONSTRAINEDDATUMLINE"@ != "ACEQUALLENGTHCONSTRAINT"@,
        "ACCONSTRAINEDDATUMLINE"@ != "ACEQUALRADIUSCONSTRAINT"@,
        "ACCONSTRAINEDDATUMLINE"@ != "ACANGLECONSTRAINT"@,
        "ACCONSTRAINEDDATUMLINE"@ != "AC3POINTANGLECONSTRAINT"@,
        "ACCONSTRAINEDDATUMLINE"@ != "ACTANGENTCONSTRAINT"@,
        "ACCONSTRAINEDDATUMLINE"@ != "ACG2SMOOTHCONSTRAINT"@,
        "ACCONSTRAINEDDATUMLINE"@ != "ACCONCENTRICCONSTRAINT"@,
        "ACCONSTRAINEDDATUMLINE"@ != "ACCENTERPOINTCONSTRAINT"@,
        "ACCONSTRAINEDDATUMLINE"@ != "ACCOLINEARCONSTRAINT"@,
        "ACCONSTRAINEDDATUMLINE"@ != "ACMIDPOINTCONSTRAINT"@,
        "ACCONSTRAINEDDATUMLINE"@ != "ACFIXEDCONSTRAINT"@,
        "ACCONSTRAINEDDATUMLINE"@ != "ACPOINTCURVECONSTRAINT"@,
        "ACCONSTRAINEDDATUMLINE"@ != "ACEQUALDISTANCECONSTRAINT"@,
        "ACCONSTRAINEDDATUMLINE"@ != "ACSYMMETRICCONSTRAINT"@,
        "ACCONSTRAINEDDATUMLINE"@ != "ACNORMALCONSTRAINT"@,
        "ACCONSTRAINEDDATUMLINE"@ != "ACRADIUSDIAMETERCONSTRAINT"@,
        "ACCONSTRAINEDDATUMLINE"@ != "ACDISTANCECONSTRAINT"@,
{
    reveal_strlit("AcConstrainedDatumLine");
    reveal_strlit("ACCONSTRAINEDDATUMLINE");
    reveal_strlit("ACPOINTCOINCIDENCECONSTRAINT");
    assert("ACCONSTRAINEDDATUMLINE"@.len() != "ACPOINTCOINCIDENCECONSTRAINT"@.len());
    reveal_strlit("ACHORIZONTALCONSTRAINT");
    assert("ACCONSTRAINEDDATUMLINE"@[2] != "ACHORIZONTALCONSTRAINT"@[2]);
    reveal_strlit("ACVERTICALCONSTRAINT");
    assert("ACCONSTRAINEDDATUMLINE"@.len() != "ACVERTICALCONSTRAINT"@.len());
    reveal_strlit("ACPARALLELCONSTRAINT");
    assert("ACCONSTRAINEDDATUMLINE"@.len() != "ACPARALLELCONSTRAINT"@.len());
    reveal_strlit("ACPERPENDICULARCONSTRAINT");
    assert("ACCONSTRAINEDDATUMLINE"@.len() != "ACPERPENDICULARCONSTRAINT"@.len());
    reveal_strlit("ACEQUALLENGTHCONSTRAINT");
    assert("ACCONSTRAINEDDATUMLINE"@.len() != "ACEQUALLENGTHCONSTRAINT"@.len());
    reveal_strlit("ACEQUALRADIUSCONSTRAINT");
    assert("ACCONSTRAINEDDATUMLINE"@.len() != "ACEQUALRADIUSCONSTRAINT"@.len());
    reveal_strlit("ACANGLECONSTRAINT");
    assert("ACCONSTRAINEDDATUMLINE"@.len() != "ACANGLECONSTRAINT"@.len());
    reveal_strlit("AC3POINTANGLECONSTRAINT");
    assert("ACCONSTRAINEDDATUMLINE"@.len() != "AC3POINTANGLECONSTRAINT"@.len());
    reveal_strlit("ACTANGENTCONSTRAINT");
    assert("ACCONSTRAINEDDATUMLINE"@.len() != "ACTANGENTCONSTRAINT"@.len());
    reveal_strlit("ACG2SMOOTHCONSTRAINT");
    assert("ACCONSTRAINEDDATUMLINE"@.len() != "ACG2SMOOTHCONSTRAINT"@.len());
    reveal_strlit("ACCONCENTRICCONSTRAINT");
    assert("ACCONSTRAINEDDATUMLINE"@[5] != "ACCONCENTRICCONSTRAINT"@[5]);
    reveal_strlit("ACCENTERPOINTCONSTRAINT");
    assert("ACCONSTRAINEDDATUMLINE"@.len() != "ACCENTERPOINTCONSTRAINT"@.len());
    reveal_strlit("ACCOLINEARCONSTRAINT");
    assert("ACCONSTRAINEDDATUMLINE"@.len() != "ACCOLINEARCONSTRAINT"@.len());
    reveal_strlit("ACMIDPOINTCONSTRAINT");
    assert("ACCONSTRAINEDDATUMLINE"@.len() != "ACMIDPOINTCONSTRAINT"@.len());
    reveal_strlit("ACFIXEDCONSTRAINT");
    assert("ACCONSTRAINEDDATUMLINE"@.len() != "ACFIXEDCONSTRAINT"@.len());
    reveal_strlit("ACPOINTCURVECONSTRAINT");
    assert("ACCONSTRAINEDDATUMLINE"@[2] != "ACPOINTCURVECONSTRAINT"@[2]);
    reveal_strlit("ACEQUALDISTANCECONSTRAINT");
    assert("ACCONSTRAINEDDATUMLINE"@.len() != "ACEQUALDISTANCECONSTRAINT"@.len());
    reveal_strlit("ACSYMMETRICCONSTRAINT");
    assert("ACCONSTRAINEDDATUMLINE"@.len() != "ACSYMMETRICCONSTRAINT"@.len());
    reveal_strlit("ACNORMALCONSTRAINT");
    assert("ACCONSTRAINEDDATUMLINE"@.len() != "ACNORMALCONSTRAINT"@.len());
    reveal_strlit("ACRADIUSDIAMETERCONSTRAINT");
    assert("ACCONSTRAINEDDATUMLINE"@.len() != "ACRADIUSDIAMETERCONSTRAINT"@.len());
    reveal_strlit("ACDISTANCECONSTRAINT");
    assert("ACCONSTRAINEDDATUMLINE"@.len() != "ACDISTANCECONSTRAINT"@.len());
    assert(ascii_upper_seq("AcConstrainedDatumLine"@) =~= "ACCONSTRAINEDDATUMLINE"@);
}

} // verus!
