//! Ribbon tools: the Parametric module's constraint panels and the
//! DIMJOGLINE annotation tool.
use vstd::prelude::*;

verus! {

/// How a ribbon tool is drawn: an SVG asset (by file name) or a glyph.
#[derive(Clone, Copy, Debug, PartialEq, Eq)]
pub enum IconKind {
    Svg(&'static str),
    Glyph(&'static str),
}

/// What activating a tool sends to the application.
#[derive(Clone, Debug, PartialEq, Eq)]
pub enum ModuleEvent {
    /// Run the named command.
    Command(String),
}

/// One ribbon tool.
#[derive(Clone, Debug, PartialEq, Eq)]
pub struct ToolDef {
    pub id: &'static str,
    pub label: &'static str,
    pub icon: IconKind,
    pub event: ModuleEvent,
}

/// One entry of a ribbon panel.
#[derive(Clone, Debug, PartialEq, Eq)]
pub enum RibbonItem {
    Tool(ToolDef),
    LargeTool(ToolDef),
    Dropdown {
        id: &'static str,
        icon: IconKind,
        items: Vec<(&'static str, &'static str, IconKind)>,
        default: &'static str,
    },
    LargeDropdown {
        id: &'static str,
        icon: IconKind,
        items: Vec<(&'static str, &'static str, IconKind)>,
        default: &'static str,
    },
}

/// A titled ribbon panel.
#[derive(Clone, Debug, PartialEq, Eq)]
pub struct RibbonGroup {
    pub title: &'static str,
    pub tools: Vec<RibbonItem>,
}

/// The identifier of a ribbon entry.
pub open spec fn item_id(item: RibbonItem) -> Seq<char> {
    match item {
        RibbonItem::Tool(t) => t.id@,
        RibbonItem::LargeTool(t) => t.id@,
        RibbonItem::Dropdown { id, .. } => id@,
        RibbonItem::LargeDropdown { id, .. } => id@,
    }
}

/// The identifiers of a panel's entries.
pub open spec fn item_ids(items: Seq<RibbonItem>) -> Seq<Seq<char>> {
    items.map_values(|i: RibbonItem| item_id(i))
}

/// A tool whose event runs the command named by its own id.
fn command_tool(id: &'static str, label: &'static str, icon: IconKind) -> (t: ToolDef)
    ensures
        t.id == id,
        t.label == label,
        t.icon == icon,
        t.event matches ModuleEvent::Command(c) && c@ == id@,
{
    ToolDef { id, label, icon, event: ModuleEvent::Command(id.to_owned()) }
}

/// The DIMJOGLINE tool's icon.
pub fn dimjogline_icon() -> (i: IconKind)
    ensures
        i == IconKind::Svg("dim_jog.svg"),
{
    IconKind::Svg("dim_jog.svg")
}

/// The DIMJOGLINE ribbon tool: adds or removes a jog on a linear or aligned
/// dimension.
pub fn tool() -> (t: ToolDef)
    ensures
        t.id@ == "DIMJOGLINE"@,
        t.label@ == "Jog Line"@,
        t.icon == IconKind::Svg("dim_jog.svg"),
        t.event matches ModuleEvent::Command(c) && c@ == "DIMJOGLINE"@,
{
    command_tool("DIMJOGLINE", "Jog Line", dimjogline_icon())
}


/// The ribbon module for persistent geometric and dimensional constraints.
pub struct ParametricModule;

/// The identifiers of the Geometry panel, in order.
pub open spec fn geometry_ids() -> Seq<Seq<char>> {
    seq![
        "CCONSTRAINT"@,
        "PCONSTRAINT"@,
        "TCONSTRAINT"@,
        "LCONSTRAINT"@,
        "QCONSTRAINT"@,
        "PARAMETRIC_MORE"@,
        "NCONSTRAINT"@,
        "HCONSTRAINT"@,
        "SYCONSTRAINT"@,
        "FXCONSTRAINT"@,
        "VCONSTRAINT"@,
        "ECONSTRAINT"@,
    ]
}

/// The identifiers of the additional geometric constraints, in order.
pub open spec fn more_ids() -> Seq<Seq<char>> {
    seq!["NRCONSTRAINT"@, "CPCONSTRAINT"@, "MPCONSTRAINT"@, "OCCONSTRAINT"@, "EDCONSTRAINT"@]
}

/// The identifiers of dropdown items.
pub open spec fn entry_ids(items: Seq<(&'static str, &'static str, IconKind)>) -> Seq<Seq<char>> {
    items.map_values(|e: (&'static str, &'static str, IconKind)| e.0@)
}

fn svg(name: &'static str) -> (i: IconKind)
    ensures
        i == IconKind::Svg(name),
{
    IconKind::Svg(name)
}

impl ParametricModule {
    /// The module's identifier.
    pub fn id(&self) -> (r: &'static str)
        ensures
            r@ == "parametric"@,
    {
        "parametric"
    }

    /// The ribbon tab's title.
    pub fn title(&self) -> (r: &'static str)
        ensures
            r@ == "Parametric"@,
    {
        "Parametric"
    }

    /// The Geometry, Dimension and Manage panels. The Geometry panel keeps
    /// the additional geometric constraints in one dropdown whose default
    /// is the Normal constraint.
    pub fn ribbon_groups(&self) -> (groups: Vec<RibbonGroup>)
        ensures
            groups@.len() == 3,
            groups@[0].title@ == "Geometry"@,
            groups@[1].title@ == "Dimension"@,
            groups@[2].title@ == "Manage"@,
            item_ids(groups@[0].tools@) == geometry_ids(),
            item_ids(groups@[1].tools@) == seq!["DCONSTRAINT"@, "ACONSTRAINT"@],
            item_ids(groups@[2].tools@) == seq!["PARAMETERS"@],
            groups@[0].tools@[5] matches RibbonItem::Dropdown { items, default, .. } && entry_ids(
                items@,
            ) == more_ids() && default@ == "NRCONSTRAINT"@,
            forall|i: int|
                0 <= i < groups@[1].tools@.len() ==> groups@[1].tools@[i] is LargeTool,
            groups@[2].tools@[0] matches RibbonItem::LargeTool(t) && t.icon == IconKind::Glyph(
                "ƒ",
            ) && (t.event matches ModuleEvent::Command(c) && c@ == "PARAMETERS"@),
    {
        let extra = vec![
            command_tool("NRCONSTRAINT", "Normal", svg("constraint_normal.svg")),
            command_tool("CPCONSTRAINT", "Center Point", svg("constraint_center_point.svg")),
            command_tool("MPCONSTRAINT", "Midpoint", svg("constraint_midpoint.svg")),
            command_tool("OCCONSTRAINT", "Point on Curve", svg("constraint_point_on_curve.svg")),
            command_tool("EDCONSTRAINT", "Equal Distance", svg("constraint_equal_distance.svg")),
        ];
        let mut items: Vec<(&'static str, &'static str, IconKind)> = Vec::new();
        let mut i: usize = 0;
        while i < extra.len()
            invariant
                i <= extra@.len(),
                extra@.len() == 5,
                items@.len() == i,
                forall|k: int| 0 <= k < i ==> (#[trigger] items@[k]).0 == extra@[k].id,
            decreases extra.len() - i,
        {
            items.push((extra[i].id, extra[i].label, extra[i].icon));
            i += 1;
        }
        assert(entry_ids(items@) =~= seq![
            extra@[0].id@,
            extra@[1].id@,
            extra@[2].id@,
            extra@[3].id@,
            extra@[4].id@,
        ]);
        let geometry = RibbonGroup {
            title: "Geometry",
            tools: vec![
                RibbonItem::Tool(command_tool("CCONSTRAINT", "Coincident", svg("constraint_coincident.svg"))),
                RibbonItem::Tool(command_tool("PCONSTRAINT", "Parallel", svg("constraint_parallel.svg"))),
                RibbonItem::Tool(command_tool("TCONSTRAINT", "Tangent", svg("constraint_tangent.svg"))),
                RibbonItem::Tool(command_tool("LCONSTRAINT", "Collinear", svg("constraint_collinear.svg"))),
                RibbonItem::Tool(command_tool("QCONSTRAINT", "Perpendicular", svg("constraint_perpendicular.svg"))),
                RibbonItem::Dropdown {
                    id: "PARAMETRIC_MORE",
                    icon: extra[0].icon,
                    items,
                    default: "NRCONSTRAINT",
                },
                RibbonItem::Tool(command_tool("NCONSTRAINT", "Concentric", svg("constraint_concentric.svg"))),
                RibbonItem::Tool(command_tool("HCONSTRAINT", "Horizontal", svg("constraint_horizontal.svg"))),
                RibbonItem::Tool(command_tool("SYCONSTRAINT", "Symmetric", svg("constraint_symmetric.svg"))),
                RibbonItem::Tool(command_tool("FXCONSTRAINT", "Fix", svg("constraint_fix.svg"))),
                RibbonItem::Tool(command_tool("VCONSTRAINT", "Vertical", svg("constraint_vertical.svg"))),
                RibbonItem::Tool(command_tool("ECONSTRAINT", "Equal", svg("constraint_equal.svg"))),
            ],
        };
        let dimension = RibbonGroup {
            title: "Dimension",
            tools: vec![
                RibbonItem::LargeTool(command_tool("DCONSTRAINT", "Distance", svg("constraint_distance.svg"))),
                RibbonItem::LargeTool(command_tool("ACONSTRAINT", "Angle", svg("constraint_angle.svg"))),
            ],
        };
        let manage = RibbonGroup {
            title: "Manage",
            tools: vec![RibbonItem::LargeTool(command_tool("PARAMETERS", "Parameters", IconKind::Glyph("ƒ")))],
        };
        assert(item_ids(geometry.tools@) =~= geometry_ids());
        assert(item_ids(dimension.tools@) =~= seq!["DCONSTRAINT"@, "ACONSTRAINT"@]);
        assert(item_ids(manage.tools@) =~= seq!["PARAMETERS"@]);
        vec![geometry, dimension, manage]
    }
}

} // verus!
