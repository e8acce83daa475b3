use opencad_xref::assoc_chain::{
    evaluates, feature_for, needs_from_point, osnap_type_for, walk_chain, ChainError, ChainLink, Feature,
    LinkKind, SnapType, OSNAP_APPARENT_INT, OSNAP_CEN, OSNAP_END, OSNAP_INS, OSNAP_INTERSEC, OSNAP_NEAR,
    OSNAP_NONE, OSNAP_PARA, OSNAP_PERP, OSNAP_QUAD, OSNAP_START_POINT, OSNAP_TAN,
};
use opencad_xref::dim_jog::{jog_marker_prefix, remove_marker_layer, JogAt, DimJogLineCommand, JogResult, JogStep};
use opencad_xref::dim_snaps::{
    accepted_snap_for_point, association_allowed, dimension_style_index, measure_space, measurement_action, push_accepted_snap,
    record_action, record_viewport_pick, sync_snap_owner, MeasureAction, MeasureSpace, RecordAction,
    MAX_ACCEPTED_SNAPS,
};

fn link(handle: u64, kind: LinkKind) -> ChainLink {
    ChainLink { handle, kind }
}

#[test]
fn a_chain_through_a_viewport_and_a_block_reference() {
    let chain = walk_chain(&vec![
        link(5, LinkKind::Viewport),
        link(6, LinkKind::Insert),
        link(0, LinkKind::Missing),
        link(7, LinkKind::Other),
        link(8, LinkKind::Other),
    ])
    .unwrap();
    assert_eq!(chain.viewport, Some(5));
    assert_eq!(chain.block_path, vec![6]);
    assert_eq!(chain.entity, 7);
}

#[test]
fn only_a_leading_viewport_is_the_viewport_hop() {
    let chain = walk_chain(&vec![link(0, LinkKind::Other), link(5, LinkKind::Viewport), link(7, LinkKind::Other)]).unwrap();
    assert_eq!(chain.viewport, None);
    assert_eq!(chain.entity, 5);
    let chain = walk_chain(&vec![link(4, LinkKind::Insert), link(5, LinkKind::Viewport)]).unwrap();
    assert_eq!(chain.block_path, vec![4]);
    assert_eq!(chain.entity, 5);
}

#[test]
fn a_chain_of_block_references_ends_on_the_innermost() {
    let chain = walk_chain(&vec![link(6, LinkKind::Insert), link(8, LinkKind::Insert)]).unwrap();
    assert_eq!(chain.viewport, None);
    assert_eq!(chain.block_path, vec![6]);
    assert_eq!(chain.entity, 8);
}

#[test]
fn empty_and_broken_chains() {
    assert_eq!(walk_chain(&vec![]).err(), Some(ChainError::Empty));
    assert_eq!(walk_chain(&vec![link(0, LinkKind::Other)]).err(), Some(ChainError::Empty));
    assert_eq!(walk_chain(&vec![link(3, LinkKind::Viewport)]).err(), Some(ChainError::Empty));
    assert_eq!(
        walk_chain(&vec![link(6, LinkKind::Insert), link(9, LinkKind::Missing), link(7, LinkKind::Other)]).err(),
        Some(ChainError::Missing(9))
    );
}

#[test]
fn snap_modes_map_to_stored_osnap_codes() {
    assert_eq!(osnap_type_for(SnapType::Endpoint), OSNAP_END);
    assert_eq!(osnap_type_for(SnapType::Center), OSNAP_CEN);
    assert_eq!(osnap_type_for(SnapType::Nearest), OSNAP_NEAR);
    assert_eq!(osnap_type_for(SnapType::Extension), OSNAP_NEAR);
    assert_eq!(osnap_type_for(SnapType::ApparentIntersection), OSNAP_APPARENT_INT);
    assert_eq!(osnap_type_for(SnapType::Parallel), OSNAP_PARA);
    assert_eq!(osnap_type_for(SnapType::Grid), OSNAP_NONE);
    assert_eq!(osnap_type_for(SnapType::ObjectPick), OSNAP_NONE);
    assert_eq!(osnap_type_for(SnapType::Insertion), OSNAP_INS);
}

#[test]
fn evaluated_features_and_their_extra_points() {
    for code in 0u8..=13 {
        let expected = matches!(code, 2..=11);
        assert_eq!(evaluates(code), expected, "{code}");
    }
    assert!(needs_from_point(OSNAP_PERP));
    assert!(needs_from_point(OSNAP_TAN));
    assert!(!needs_from_point(OSNAP_NEAR));
    assert!(!evaluates(OSNAP_START_POINT));
    assert_eq!(feature_for(OSNAP_QUAD, false, true), None);
    assert_eq!(feature_for(OSNAP_QUAD, true, false), Some(Feature::Quadrant));
    assert_eq!(feature_for(OSNAP_APPARENT_INT, true, false), Some(Feature::Intersection { apparent: true }));
    assert_eq!(feature_for(OSNAP_INTERSEC, true, false), Some(Feature::Intersection { apparent: false }));
    assert_eq!(feature_for(OSNAP_PERP, true, false), Some(Feature::Perpendicular { from_other: false }));
    assert_eq!(feature_for(OSNAP_PERP, false, true), Some(Feature::Perpendicular { from_other: true }));
    assert_eq!(feature_for(OSNAP_PERP, false, false), None);
    assert_eq!(feature_for(OSNAP_TAN, false, false), Some(Feature::Tangent));
    assert_eq!(feature_for(OSNAP_END, true, true), None);
}

#[test]
fn accepted_snap_history_is_bounded() {
    let mut snaps: Vec<u32> = Vec::new();
    for k in 0..70u32 {
        push_accepted_snap(&mut snaps, k);
    }
    assert_eq!(snaps.len(), MAX_ACCEPTED_SNAPS);
    assert_eq!(snaps[0], 6);
    assert_eq!(*snaps.last().unwrap(), 69);
    assert_eq!(accepted_snap_for_point(&snaps, 1), Some(&7));
    assert_eq!(accepted_snap_for_point(&snaps, 64), None);
    let mut picks = vec![1u32];
    record_viewport_pick(&mut picks, 4);
    assert_eq!(picks, vec![1, 4, 4]);
}

#[test]
fn snaps_follow_the_active_command() {
    let mut snaps = vec![1u8, 2];
    let mut owner = Some("DIMLINEAR".to_string());
    sync_snap_owner(&mut snaps, &mut owner, Some("DIMLINEAR"));
    assert_eq!(snaps, vec![1, 2]);
    sync_snap_owner(&mut snaps, &mut owner, Some("DIMALIGNED"));
    assert!(snaps.is_empty());
    assert_eq!(owner.as_deref(), Some("DIMALIGNED"));
    snaps.push(3);
    sync_snap_owner(&mut snaps, &mut owner, None);
    assert!(snaps.is_empty());
    assert_eq!(owner, None);
}

#[test]
fn measurement_space_from_the_measuring_snaps() {
    assert_eq!(
        measure_space("Layout1", false, &vec![Some(3), Some(3), None]),
        MeasureSpace::Viewport { viewport: 3, snap: 0 }
    );
    assert_eq!(measure_space("Layout1", false, &vec![None, Some(3), Some(3)]), MeasureSpace::Mixed);
    assert_eq!(measure_space("Layout1", false, &vec![Some(3), Some(4), None]), MeasureSpace::Mixed);
    assert_eq!(measure_space("Layout1", false, &vec![Some(3), None, Some(3)]), MeasureSpace::Mixed);
    assert_eq!(measure_space("Layout1", false, &vec![None, None, Some(3)]), MeasureSpace::Direct);
    assert_eq!(measure_space("Layout1", false, &vec![Some(3)]), MeasureSpace::Viewport { viewport: 3, snap: 0 });
    assert_eq!(measure_space("Layout1", false, &vec![]), MeasureSpace::Direct);
    assert_eq!(measure_space("Model", false, &vec![Some(3), Some(3), None]), MeasureSpace::Direct);
    assert_eq!(measure_space("Layout1", true, &vec![Some(3), Some(3), None]), MeasureSpace::Direct);
    assert!(association_allowed(MeasureSpace::Direct));
    assert!(!association_allowed(MeasureSpace::Mixed));
}

#[test]
fn committing_and_recording_dimension_snaps() {
    assert_eq!(measurement_action(MeasureSpace::Direct, false), MeasureAction::Plain);
    assert_eq!(measurement_action(MeasureSpace::Mixed, true), MeasureAction::WarnMixed);
    assert_eq!(measurement_action(MeasureSpace::Viewport { viewport: 3, snap: 1 }, true), MeasureAction::KeepAngle);
    assert_eq!(
        measurement_action(MeasureSpace::Viewport { viewport: 3, snap: 1 }, false),
        MeasureAction::Compensate { snap: 1 }
    );
    assert_eq!(record_action(true, true, false), RecordAction::AcceptOnly);
    assert_eq!(record_action(true, false, false), RecordAction::Refuse);
    assert_eq!(record_action(true, false, true), RecordAction::Record);
    assert_eq!(record_action(false, true, false), RecordAction::Record);
}

#[test]
fn jog_line_command_adds_a_jog() {
    let mut cmd = DimJogLineCommand::new();
    assert_eq!(cmd.name(), "DIMJOGLINE");
    assert_eq!(cmd.prompt(), "DIMJOGLINE  Select dimension to add jog or [Remove]:");
    assert_eq!(cmd.options(), vec![("Remove", "REMOVE")]);
    assert!(cmd.needs_entity_pick());
    assert!(cmd.point_step_accepts_keywords());
    assert_eq!(cmd.on_entity_pick(42, false), JogResult::NotADimension);
    assert_eq!(cmd.on_entity_pick(0, true), JogResult::NeedPoint);
    assert_eq!(cmd.step, JogStep::PickDim);
    assert_eq!(cmd.on_entity_pick(42, true), JogResult::NeedPoint);
    assert_eq!(cmd.step, JogStep::PickJogPos { handle: 42 });
    assert_eq!(cmd.prompt(), "DIMJOGLINE  Specify jog location (or press Enter):");
    assert!(cmd.options().is_empty());
    assert_eq!(cmd.on_text_input("R"), None);
    assert_eq!(cmd.on_point(), JogResult::Mark { handle: 42, at: JogAt::Point });
    assert_eq!(cmd.on_enter(true), JogResult::Mark { handle: 42, at: JogAt::Default });
    assert_eq!(cmd.on_enter(false), JogResult::Cancel);
}

#[test]
fn jog_line_command_removes_a_jog() {
    let mut cmd = DimJogLineCommand::new();
    assert_eq!(cmd.on_point(), JogResult::NeedPoint);
    assert_eq!(cmd.on_enter(true), JogResult::Cancel);
    assert_eq!(cmd.on_text_input("  x "), None);
    assert!(!cmd.remove);
    assert_eq!(cmd.on_text_input(" remove\t"), Some(JogResult::NeedPoint));
    assert!(cmd.remove);
    assert_eq!(cmd.prompt(), "DIMJOGLINE  Select dimension to remove jog:");
    assert!(cmd.options().is_empty());
    assert!(!cmd.point_step_accepts_keywords());
    assert_eq!(cmd.on_entity_pick(42, true), JogResult::Mark { handle: 42, at: JogAt::Remove });
    let mut other = DimJogLineCommand::new();
    assert_eq!(other.on_text_input("r"), Some(JogResult::NeedPoint));
}

#[test]
fn jog_marker_layer_names() {
    assert_eq!(remove_marker_layer(42), "__DIMJOG_REMOVE__42");
    assert_eq!(remove_marker_layer(0), "__DIMJOG_REMOVE__0");
    assert_eq!(jog_marker_prefix(7), "__DIMJOG__7|");
    assert_eq!(jog_marker_prefix(u64::MAX), format!("__DIMJOG__{}|", u64::MAX));
}

#[test]
fn pending_dimension_style_by_name_or_standard() {
    let styles = vec!["Standard".to_string(), "ISO-25".to_string(), "iso-25".to_string()];
    assert_eq!(dimension_style_index(&styles, "iso-25"), Some(1));
    assert_eq!(dimension_style_index(&styles, "ISO-25"), Some(1));
    assert_eq!(dimension_style_index(&styles, "   "), Some(0));
    assert_eq!(dimension_style_index(&styles, ""), Some(0));
    assert_eq!(dimension_style_index(&styles, "Archi"), None);
    let no_standard = vec!["Archi".to_string()];
    assert_eq!(dimension_style_index(&no_standard, ""), None);
}

#[test]
fn placement_click_does_not_change_the_measurement_space() {
    for last in [None, Some(3), Some(9)] {
        assert_eq!(
            measure_space("Layout1", false, &vec![Some(3), Some(3), last]),
            MeasureSpace::Viewport { viewport: 3, snap: 0 }
        );
        assert_eq!(measure_space("Layout1", false, &vec![None, None, last]), MeasureSpace::Direct);
        assert_eq!(measure_space("Layout1", false, &vec![Some(3), None, last]), MeasureSpace::Mixed);
    }
}
