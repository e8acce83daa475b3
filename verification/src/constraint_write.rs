//! What writing one scope's constraint group into the drawing creates,
//! besides the nodes: a geometry dependency for each referenced entity that
//! has nodes, a named variable and a value dependency for each dimensional
//! constraint whose driving value resolves, and the action indexes of the
//! group and of its network.
use vstd::prelude::*;

use crate::constraint_graph::{node_entity, ConstraintGroup, GraphNode};
use crate::text::{chars_eq_str, chars_of, decimal, decimal_chars};

verus! {

/// Where the value of a dimensional constraint comes from, once it has
/// resolved: a named parameter, or a literal number.
pub enum DrivingName {
    Named(String),
    Literal,
}

/// A geometry dependency: the entity it stands for, its dependency index,
/// and the nodes (the entity's whole-geometry and segment nodes) that
/// depend on it.
pub struct GeometryWrite {
    pub entity: u64,
    pub index: i32,
    pub nodes: Vec<i32>,
}

/// A value dependency: the dimensional node it drives, the name of the
/// variable that holds the value, that variable's position among the
/// scope's variables, and the dependency's id.
pub struct ValueWrite {
    pub node_id: i32,
    pub name: String,
    pub variable: usize,
    pub dependency_id: i32,
}

/// Everything writing a scope's group creates besides its nodes. The
/// group's dependencies are the geometry ones, then the value ones; the
/// network's actions are the variables, in order, then the group.
pub struct ScopeWritePlan {
    pub geometry: Vec<GeometryWrite>,
    pub values: Vec<ValueWrite>,
    /// The scope's variables: one per distinct name, in order of first use.
    pub variables: Vec<String>,
    /// The group's index among the network's actions.
    pub group_action_index: i32,
    /// One past the group's last dependency.
    pub max_dependency_index: i32,
    /// The network's action index: one past its variables.
    pub network_action_index: i32,
}

/// The ids of the nodes that stand for entity `h` (its whole-geometry and
/// segment nodes), in node order.
pub open spec fn entity_node_ids(nodes: Seq<GraphNode>, h: u64) -> Seq<i32>
    decreases nodes.len(),
{
    if nodes.len() == 0 {
        Seq::empty()
    } else {
        let prev = entity_node_ids(nodes.drop_last(), h);
        if node_entity(nodes.last().role) == Some(h) {
            prev.push(nodes.last().node_id)
        } else {
            prev
        }
    }
}

/// The geometry dependencies, as (entity, index, dependent nodes): one for
/// each referenced entity that has nodes, indexed by its position among
/// the referenced entities plus one.
pub open spec fn geometry_writes(nodes: Seq<GraphNode>, referenced: Seq<u64>) -> Seq<(u64, int, Seq<i32>)>
    decreases referenced.len(),
{
    if referenced.len() == 0 {
        Seq::empty()
    } else {
        let prev = geometry_writes(nodes, referenced.drop_last());
        let h = referenced.last();
        let ids = entity_node_ids(nodes, h);
        if ids.len() == 0 {
            prev
        } else {
            prev.push((h, referenced.len() as int, ids))
        }
    }
}

/// An integer written in decimal, with a `-` when negative.
pub open spec fn int_text(v: int) -> Seq<char> {
    if v >= 0 {
        decimal(v as nat)
    } else {
        seq!['-'] + decimal((-v) as nat)
    }
}

/// The name of the variable of a dimensional node: the parameter's name, or
/// `d` and the node id for a literal value.
pub open spec fn variable_name(node_id: i32, driving: DrivingName) -> Seq<char> {
    match driving {
        DrivingName::Named(n) => n@,
        DrivingName::Literal => seq!['d'] + int_text(node_id as int),
    }
}

/// The value dependencies, as (node id, variable name, dependency id): one
/// for each dimensional node whose driving value resolved, numbered on
/// from the `base` dependencies before them.
pub open spec fn value_writes(values: Seq<(i32, usize)>, driving: Seq<Option<DrivingName>>, base: int) -> Seq<
    (i32, Seq<char>, int),
>
    decreases values.len(),
{
    if values.len() == 0 {
        Seq::empty()
    } else {
        let prev = value_writes(values.drop_last(), driving, base);
        let j = values.len() - 1;
        match driving[j] {
            Option::None => prev,
            Option::Some(d) => prev.push((values[j].0, variable_name(values[j].0, d), base + prev.len() + 1)),
        }
    }
}

/// The distinct variable names of the value writes, in order of first use.
pub open spec fn variables_of(writes: Seq<(i32, Seq<char>, int)>) -> Seq<Seq<char>>
    decreases writes.len(),
{
    if writes.len() == 0 {
        Seq::empty()
    } else {
        let prev = variables_of(writes.drop_last());
        if prev.contains(writes.last().1) {
            prev
        } else {
            prev.push(writes.last().1)
        }
    }
}

/// The characters of each name.
pub open spec fn name_views(v: Seq<String>) -> Seq<Seq<char>> {
    v.map_values(|s: String| s@)
}

/// A geometry write as a value.
pub open spec fn geometry_view(w: GeometryWrite) -> (u64, int, Seq<i32>) {
    (w.entity, w.index as int, w.nodes@)
}

/// A value write as a value.
pub open spec fn value_view(w: ValueWrite) -> (i32, Seq<char>, int) {
    (w.node_id, w.name@, w.dependency_id as int)
}

/// The ids of entity `h`'s nodes.
fn entity_nodes(nodes: &Vec<GraphNode>, h: u64) -> (r: Vec<i32>)
    ensures
        r@ == entity_node_ids(nodes@, h),
{
    let mut r: Vec<i32> = Vec::new();
    let mut i: usize = 0;
    while i < nodes.len()
        invariant
            i <= nodes@.len(),
            r@ == entity_node_ids(nodes@.take(i as int), h),
        decreases nodes.len() - i,
    {
        assert(nodes@.take(i + 1).drop_last() =~= nodes@.take(i as int));
        assert(nodes@.take(i + 1).last() == nodes@[i as int]);
        let hit = match nodes[i].role {
            crate::constraint_graph::NodeRole::Geometry { entity } => entity == h,
            crate::constraint_graph::NodeRole::Segment { entity, .. } => entity == h,
            _ => false,
        };
        if hit {
            r.push(nodes[i].node_id);
        }
        i += 1;
    }
    assert(nodes@.take(i as int) =~= nodes@);
    r
}

/// `v` in decimal, with a `-` when negative.
fn int_chars(v: i32) -> (r: Vec<char>)
    ensures
        r@ == int_text(v as int),
{
    if v >= 0 {
        decimal_chars(v as u128)
    } else {
        let mut r: Vec<char> = Vec::new();
        r.push('-');
        let digits = decimal_chars((-(v as i64)) as u128);
        let mut k: usize = 0;
        while k < digits.len()
            invariant
                k <= digits@.len(),
                r@ == seq!['-'] + digits@.take(k as int),
            decreases digits.len() - k,
        {
            r.push(digits[k]);
            k += 1;
            assert(r@ =~= seq!['-'] + digits@.take(k as int));
        }
        assert(digits@.take(k as int) =~= digits@);
        r
    }
}

/// The characters as a string.
fn string_from(v: &Vec<char>) -> (s: String)
    ensures
        s@ == v@,
{
    crate::text::string_of(v)
}

/// The position of `name` among `vars`, when it is there.
fn find_name(vars: &Vec<String>, name: &String) -> (r: Option<usize>)
    ensures
        match r {
            Option::Some(k) => k < vars@.len() && vars@[k as int]@ == name@,
            Option::None => !name_views(vars@).contains(name@),
        },
{
    let mut k: usize = 0;
    while k < vars.len()
        invariant
            k <= vars@.len(),
            forall|i: int| 0 <= i < k ==> vars@[i]@ != name@,
        decreases vars.len() - k,
    {
        if chars_eq_str(&chars_of(vars[k].as_str()), name.as_str()) {
            return Option::Some(k);
        }
        k += 1;
    }
    proof {
        if name_views(vars@).contains(name@) {
            let i = choose|i: int| 0 <= i < name_views(vars@).len() && name_views(vars@)[i] == name@;
            assert(vars@[i]@ == name@);
        }
    }
    Option::None
}

/// The name of a dimensional node's variable.
fn name_of(node_id: i32, driving: &DrivingName) -> (r: String)
    ensures
        r@ == variable_name(node_id, *driving),
{
    match driving {
        DrivingName::Named(n) => n.clone(),
        DrivingName::Literal => {
            let mut v: Vec<char> = Vec::new();
            v.push('d');
            let digits = int_chars(node_id);
            crate::text::extend_chars(&mut v, &digits);
            assert(v@ =~= seq!['d'] + int_text(node_id as int));
            string_from(&v)
        },
    }
}

/// The dependencies, variables and action indexes that writing `group`
/// creates; `driving[j]` is how the value of the `j`-th dimensional node
/// resolved (`None` when it did not, and the node gets no value dependency).
pub fn scope_write_plan(group: &ConstraintGroup, driving: &Vec<Option<DrivingName>>) -> (p: ScopeWritePlan)
    requires
        driving@.len() == group.value_nodes@.len(),
        group.referenced@.len() + group.value_nodes@.len() + 2 <= i32::MAX,
    ensures
        p.geometry@.map_values(|w: GeometryWrite| geometry_view(w)) == geometry_writes(
            group.nodes@,
            group.referenced@,
        ),
        p.values@.map_values(|w: ValueWrite| value_view(w)) == value_writes(
            group.value_nodes@,
            driving@,
            geometry_writes(group.nodes@, group.referenced@).len() as int,
        ),
        name_views(p.variables@) == variables_of(p.values@.map_values(|w: ValueWrite| value_view(w))),
        forall|i: int|
            0 <= i < p.values@.len() ==> (#[trigger] p.values@[i]).variable < p.variables@.len()
                && p.variables@[p.values@[i].variable as int]@ == p.values@[i].name@,
        p.group_action_index == p.variables@.len() + 1,
        p.max_dependency_index == p.geometry@.len() + p.values@.len() + 1,
        p.network_action_index == p.variables@.len() + 1,
{
    let mut geometry: Vec<GeometryWrite> = Vec::new();
    let mut k: usize = 0;
    while k < group.referenced.len()
        invariant
            k <= group.referenced@.len(),
            group.referenced@.len() + 2 <= i32::MAX,
            geometry@.len() <= k,
            geometry@.map_values(|w: GeometryWrite| geometry_view(w)) == geometry_writes(
                group.nodes@,
                group.referenced@.take(k as int),
            ),
        decreases group.referenced.len() - k,
    {
        let ghost before = group.referenced@.take(k as int);
        assert(group.referenced@.take(k + 1).drop_last() =~= before);
        assert(group.referenced@.take(k + 1).last() == group.referenced@[k as int]);
        let h = group.referenced[k];
        let ids = entity_nodes(&group.nodes, h);
        if ids.len() > 0 {
            let w = GeometryWrite { entity: h, index: (k + 1) as i32, nodes: ids };
            geometry.push(w);
        }
        k += 1;
        assert(geometry@.map_values(|w: GeometryWrite| geometry_view(w)) =~= geometry_writes(
            group.nodes@,
            group.referenced@.take(k as int),
        ));
    }
    assert(group.referenced@.take(k as int) =~= group.referenced@);
    let base = geometry.len();
    let mut values: Vec<ValueWrite> = Vec::new();
    let mut variables: Vec<String> = Vec::new();
    let mut j: usize = 0;
    while j < group.value_nodes.len()
        invariant
            j <= group.value_nodes@.len(),
            driving@.len() == group.value_nodes@.len(),
            base == geometry@.len(),
            base <= group.referenced@.len(),
            group.referenced@.len() + group.value_nodes@.len() + 2 <= i32::MAX,
            values@.len() <= j,
            variables@.len() <= values@.len(),
            name_views(variables@) == variables_of(values@.map_values(|w: ValueWrite| value_view(w))),
            forall|i: int|
                0 <= i < values@.len() ==> (#[trigger] values@[i]).variable < variables@.len()
                    && variables@[values@[i].variable as int]@ == values@[i].name@,
            values@.map_values(|w: ValueWrite| value_view(w)) == value_writes(
                group.value_nodes@.take(j as int),
                driving@,
                base as int,
            ),
        decreases group.value_nodes.len() - j,
    {
        let ghost before = group.value_nodes@.take(j as int);
        assert(group.value_nodes@.take(j + 1).drop_last() =~= before);
        assert(group.value_nodes@.take(j + 1)[j as int] == group.value_nodes@[j as int]);
        let (node_id, _) = group.value_nodes[j];
        match &driving[j] {
            Option::None => {},
            Option::Some(d) => {
                let name = name_of(node_id, d);
                let ghost old_values = values@;
                let ghost old_vars = variables@;
                let variable = match find_name(&variables, &name) {
                    Option::Some(at) => at,
                    Option::None => {
                        variables.push(name.clone());
                        variables.len() - 1
                    },
                };
                let w = ValueWrite { node_id, name, variable, dependency_id: (base + values.len() + 1) as i32 };
                values.push(w);
                proof {
                    let mv = values@.map_values(|w: ValueWrite| value_view(w));
                    assert(mv.drop_last() =~= old_values.map_values(|w: ValueWrite| value_view(w)));
                    assert(mv.last().1 == name@);
                    if variables@.len() == old_vars.len() {
                        assert(name_views(old_vars)[variable as int] == name@);
                        assert(name_views(old_vars).contains(name@));
                        assert(name_views(variables@) =~= name_views(old_vars));
                    } else {
                        assert(variables@ =~= old_vars.push(variables@.last()));
                        assert(name_views(variables@) =~= name_views(old_vars).push(name@));
                    }
                    assert(name_views(variables@) =~= variables_of(mv));
                    assert forall|i: int| 0 <= i < values@.len() implies (#[trigger] values@[i]).variable
                        < variables@.len() && variables@[values@[i].variable as int]@ == values@[i].name@ by {
                        if i < values@.len() - 1 {
                            assert(values@[i] == old_values[i]);
                        }
                    }
                }
            },
        }
        j += 1;
        assert(values@.map_values(|w: ValueWrite| value_view(w)) =~= value_writes(
            group.value_nodes@.take(j as int),
            driving@,
            base as int,
        ));
    }
    assert(group.value_nodes@.take(j as int) =~= group.value_nodes@);
    let v = values.len();
    let n = variables.len();
    ScopeWritePlan {
        geometry,
        values,
        variables,
        group_action_index: (n + 1) as i32,
        max_dependency_index: (base + v + 1) as i32,
        network_action_index: (n + 1) as i32,
    }
}

} // verus!
