# opencad_xref

Verified logic behind the external-reference manager, the native constraint
graph and the viewport dimension tools of a CAD editor, written in Verus.

- `src/` is the library. Every function carries a `requires`/`ensures`
  contract over spec models (`Seq<char>` for paths and names, `Seq` of node
  views for the constraint graph), and the laws that relate several functions
  are public proof functions named `lemma_*`.
  - `xref_model`, `path_spec`, `wildcard`: reference paths (lexical
    normalization, full/relative/no-path forms), bind names and wildcard
    matching.
  - `xref_manager`, `xref_refresh`, `xref_identities`, `formatting`: the
    Reference Manager palette: selection, list/tree rows, refresh keeping the
    selection by identity, and the Size and Date columns (with the calendar
    laws).
  - `native_constraints`, `constraint_graph`, `constraint_write`,
    `constraint_import`, `constraint_round_trip`: the native constraint
    classes, building a constraint group from sketch constraints, planning
    what a save writes (per scope, and the dependencies, variables and
    action indexes of each group), reading a group back, and the proof that
    a written group reads back as the constraints it was built from.
  - `assoc_chain`, `dim_snaps`, `dim_jog`, `context_nav`, `ribbon`: dimension
    association chains and osnap codes, measurement space of viewport
    dimensions, the jog-line command, shortcut-menu navigation and the
    parametric ribbon.
- `tests/` runs the library on concrete values.
- `app/` holds what needs the drawing database or floating point: reading
  documents with `acadrust`, writing the planned constraint networks into
  them, filling node geometry, pick distances.
