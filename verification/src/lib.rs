use vstd::prelude::*;

pub mod text;
pub mod path_spec;
pub mod xref_model;
pub mod wildcard;
pub mod xref_manager;
pub mod formatting;
pub mod xref_refresh;
pub mod xref_identities;
pub mod ribbon;
pub mod native_constraints;
pub mod constraint_graph;
pub mod constraint_import;
pub mod constraint_round_trip;
pub mod constraint_write;
pub mod assoc_chain;
pub mod dim_snaps;
pub mod context_nav;
pub mod dim_jog;

verus! {

} // verus!
